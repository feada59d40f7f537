//! The course of one run, as a state machine without input or output.
//!
//! A run starts in [`State::Init`] and goes through `ConfigResolved`,
//! `RevisionExtracted` and `CommandBuilt` to one of its ends: `DryRunPrinted`,
//! `ProcessReplaced` or `Failed`. In each state [`State::action`] says what
//! the caller has to do; the caller does it and reports the outcome as an
//! [`Event`] to [`State::step`], which gives the next state.

use crate::cli::Args;
use crate::command::{command_line, command_tokens, make_command, render_command};
use crate::config::{
    config_request, get_config, may_expand_to, request_for, resolved_lockfile, ConfigLookup,
    ConfigRequest,
};
use crate::error::{Error, ErrorView};
use crate::lockfile::{read_nixpkgs_revision, revision_read};
use vstd::prelude::*;

verus! {

/// Where a run stands.
#[derive(Debug, Clone, PartialEq, Eq)]
pub enum State {
    /// The arguments are known; the configuration is not.
    Init(Args),
    /// The lockfile to read is known.
    ConfigResolved {
        dryrun: bool,
        packages: Vec<String>,
        passthrough_args: Vec<String>,
        /// Expanded path of the lockfile.
        flake_lockfile_path: String,
    },
    /// The revision that the lockfile pins is known.
    RevisionExtracted {
        dryrun: bool,
        packages: Vec<String>,
        passthrough_args: Vec<String>,
        nixpkgs_revision: String,
    },
    /// The command is composed.
    CommandBuilt { dryrun: bool, command: Vec<String> },
    /// End of a dry run: the command was shown.
    DryRunPrinted,
    /// End of a run: the command has taken the place of the process.
    ProcessReplaced,
    /// End of a run that failed.
    Failed(Error),
}

/// What the caller has to do for a run in some state.
#[derive(Debug, PartialEq, Eq)]
pub enum Action<'a> {
    /// Look for the configuration file and answer with
    /// [`Event::ConfigLocated`].
    LocateConfig(ConfigRequest),
    /// Read the file at this path and answer with [`Event::LockfileRead`].
    ReadLockfile(&'a str),
    /// Nothing: answer with [`Event::Continued`].
    Continue,
    /// Show this line and answer with [`Event::Printed`].
    Print(String),
    /// Replace the process by this command, whose first token is the
    /// program, and answer with [`Event::Replaced`] or
    /// [`Event::ReplaceFailed`].
    Replace(&'a [String]),
    /// End the run with success.
    Finish,
    /// Show this message and end the run with a failure.
    Fail(String),
}

/// What the caller reports back.
#[derive(Debug, PartialEq, Eq)]
pub enum Event {
    /// What was found of the configuration file.
    ConfigLocated(ConfigLookup),
    /// The text of the lockfile, or what the read reported.
    LockfileRead(Result<String, String>),
    /// Nothing was to be done.
    Continued,
    /// The line was shown.
    Printed,
    /// The command took the place of the process. Only a stand-in for the
    /// real replacement can report this.
    Replaced,
    /// The command could not take the place of the process. Holds what the
    /// attempt reported.
    ReplaceFailed(String),
}

/// Whether `next` is the failed state with this failure.
pub open spec fn is_failed(next: State, failure: ErrorView) -> bool {
    next matches State::Failed(error) && error@ == failure
}

/// Whether `action` is what a run in `state` asks of the caller.
pub open spec fn is_action_of(state: State, action: Action) -> bool {
    match state {
        State::Init(args) => action == Action::LocateConfig(request_for(args.override_)),
        State::ConfigResolved { flake_lockfile_path, .. } => action matches Action::ReadLockfile(
            path,
        ) && path@ == flake_lockfile_path@,
        State::RevisionExtracted { .. } => action is Continue,
        State::CommandBuilt { dryrun, command } => if dryrun {
            action matches Action::Print(line) && line@ == command_line(command.deep_view())
        } else {
            action matches Action::Replace(argv) && argv@ == command@
        },
        State::DryRunPrinted => action is Finish,
        State::ProcessReplaced => action is Finish,
        State::Failed(error) => action matches Action::Fail(message) && message@
            == error@.message(),
    }
}

/// Whether `next` is a state that a run in `state` may be in after `event`.
///
/// An event that does not answer the action of the state changes nothing;
/// so the three ends are never left. Every failure leads to `Failed` with
/// the error of the step that failed. The one step whose outcome the
/// arguments do not fix is the expansion of the lockfile path, which reads
/// the environment: the path goes on as something that it
/// [`may_expand_to`], or, where it holds a `$`, the run may fail with
/// `PathExpansionError`.
pub open spec fn is_step(state: State, event: Event, next: State) -> bool {
    match (state, event) {
        (State::Init(args), Event::ConfigLocated(found)) => match resolved_lockfile(
            args.override_,
            found,
        ) {
            Err(failure) => is_failed(next, failure),
            Ok(lockfile) => {
                ||| next matches State::ConfigResolved {
                    dryrun,
                    packages,
                    passthrough_args,
                    flake_lockfile_path,
                } && dryrun == args.dryrun && packages == args.packages && passthrough_args
                    == args.passthrough_args && may_expand_to(lockfile, flake_lockfile_path@)
                ||| next matches State::Failed(error) && error@ is PathExpansionError
                    && lockfile.contains('$')
            },
        },
        (
            State::ConfigResolved { dryrun, packages, passthrough_args, flake_lockfile_path },
            Event::LockfileRead(contents),
        ) => match revision_read(flake_lockfile_path@, contents) {
            Err(failure) => is_failed(next, failure),
            Ok(revision) => next matches State::RevisionExtracted {
                dryrun: next_dryrun,
                packages: next_packages,
                passthrough_args: next_passthrough_args,
                nixpkgs_revision,
            } && next_dryrun == dryrun && next_packages == packages && next_passthrough_args
                == passthrough_args && nixpkgs_revision@ == revision,
        },
        (
            State::RevisionExtracted { dryrun, packages, passthrough_args, nixpkgs_revision },
            Event::Continued,
        ) => next matches State::CommandBuilt { dryrun: next_dryrun, command } && next_dryrun
            == dryrun && command.deep_view() == command_tokens(
            packages.deep_view(),
            nixpkgs_revision@,
            passthrough_args.deep_view(),
        ),
        (State::CommandBuilt { dryrun: true, .. }, Event::Printed) => next is DryRunPrinted,
        (State::CommandBuilt { dryrun: false, .. }, Event::Replaced) => next is ProcessReplaced,
        (State::CommandBuilt { dryrun: false, .. }, Event::ReplaceFailed(detail)) => is_failed(
            next,
            ErrorView::ProcessReplacementError(detail@),
        ),
        _ => next == state,
    }
}

/// How far a run has come: one more with every step that succeeds, and the
/// same for the three ends.
pub open spec fn stage(state: State) -> nat {
    match state {
        State::Init(_) => 0,
        State::ConfigResolved { .. } => 1,
        State::RevisionExtracted { .. } => 2,
        State::CommandBuilt { .. } => 3,
        State::DryRunPrinted => 4,
        State::ProcessReplaced => 4,
        State::Failed(_) => 4,
    }
}

/// Whether a run in this state is over.
pub open spec fn is_end(state: State) -> bool {
    state is DryRunPrinted || state is ProcessReplaced || state is Failed
}

/// A run goes through its states in order: a step leaves the state as it
/// is, reaches the state that follows it, or fails. No state is skipped and
/// none comes back.
pub proof fn lemma_steps_are_sequential(state: State, event: Event, next: State)
    requires
        is_step(state, event, next),
    ensures
        next == state || next is Failed || stage(next) == stage(state) + 1,
{
}

/// A run that is over stays as it ended, whatever is reported to it.
pub proof fn lemma_ends_are_final(state: State, event: Event, next: State)
    requires
        is_end(state),
        is_step(state, event, next),
    ensures
        next == state,
{
}

/// A run that has failed asks for no file to be looked for or read, for
/// nothing to be shown but the message of its failure, and for no command to
/// be run.
pub proof fn lemma_failed_run_only_reports(state: State, action: Action)
    requires
        state is Failed,
        is_action_of(state, action),
    ensures
        action matches Action::Fail(message) && message@ == state->Failed_0@.message(),
{
}

/// A file is asked for in two states only, and then for one file: the
/// configuration before the configuration is resolved, and after that the
/// one lockfile that it resolved to.
pub proof fn lemma_one_file_at_a_time(state: State, action: Action)
    requires
        is_action_of(state, action),
    ensures
        action is LocateConfig <==> state is Init,
        action is ReadLockfile <==> state is ConfigResolved,
        action matches Action::ReadLockfile(path) ==> path@
            == state->ConfigResolved_flake_lockfile_path@,
{
}

/// From the arguments to the command: where the configuration resolves
/// and the lockfile yields `revision`, three steps lead from `Init` to
/// `CommandBuilt` with the command for the packages, that revision and the
/// passthrough arguments of the command line; a dry run then asks for
/// exactly the line of that command to be shown, and any other run for
/// exactly that command to take the place of the process.
pub proof fn lemma_run_composes_the_command(
    args: Args,
    found: ConfigLookup,
    contents: Result<String, String>,
    revision: Seq<char>,
    resolved: State,
    extracted: State,
    built: State,
    action: Action,
)
    requires
        is_step(State::Init(args), Event::ConfigLocated(found), resolved),
        resolved is ConfigResolved,
        revision_read(resolved->ConfigResolved_flake_lockfile_path@, contents) == Ok::<
            Seq<char>,
            ErrorView,
        >(revision),
        is_step(resolved, Event::LockfileRead(contents), extracted),
        is_step(extracted, Event::Continued, built),
        is_action_of(built, action),
    ensures
        ({
            let tokens = command_tokens(
                args.packages.deep_view(),
                revision,
                args.passthrough_args.deep_view(),
            );
            &&& (built matches State::CommandBuilt { dryrun, command } && dryrun == args.dryrun
                && command.deep_view() == tokens)
            &&& args.dryrun ==> (action matches Action::Print(line) && line@ == command_line(
                tokens,
            ))
            &&& !args.dryrun ==> (action matches Action::Replace(argv) && argv.deep_view()
                == tokens)
        }),
{
    if !args.dryrun {
        let argv = action->Replace_0;
        let command = built->CommandBuilt_command;
        assert(argv.deep_view() =~= command.deep_view());
    }
}

impl State {
    /// The state in which a run with these arguments starts.
    pub fn start(args: Args) -> (state: State)
        ensures
            state == State::Init(args),
    {
        State::Init(args)
    }

    /// Whether the run is over.
    pub fn is_end(&self) -> (end: bool)
        ensures
            end == is_end(*self),
    {
        match self {
            State::DryRunPrinted => true,
            State::ProcessReplaced => true,
            State::Failed(_) => true,
            _ => false,
        }
    }

    /// What the caller has to do next.
    pub fn action(&self) -> (action: Action<'_>)
        ensures
            is_action_of(*self, action),
    {
        match self {
            State::Init(args) => Action::LocateConfig(config_request(&args.override_)),
            State::ConfigResolved { flake_lockfile_path, .. } => Action::ReadLockfile(
                flake_lockfile_path.as_str(),
            ),
            State::RevisionExtracted { .. } => Action::Continue,
            State::CommandBuilt { dryrun, command } => {
                if *dryrun {
                    Action::Print(render_command(command.as_slice()))
                } else {
                    Action::Replace(command.as_slice())
                }
            },
            State::DryRunPrinted => Action::Finish,
            State::ProcessReplaced => Action::Finish,
            State::Failed(error) => Action::Fail(error.message()),
        }
    }

    /// The state after `event`.
    pub fn step(self, event: Event) -> (next: State)
        ensures
            is_step(self, event, next),
    {
        match self {
            State::Init(args) => match event {
                Event::ConfigLocated(found) => {
                    let Args { dryrun, override_, packages, passthrough_args } = args;
                    match get_config(override_, found) {
                        Err(error) => State::Failed(error),
                        Ok(config) => match config.expand_flake_lockfile_path() {
                            Err(error) => State::Failed(error),
                            Ok(flake_lockfile_path) => State::ConfigResolved {
                                dryrun,
                                packages,
                                passthrough_args,
                                flake_lockfile_path,
                            },
                        },
                    }
                },
                _ => State::Init(args),
            },
            State::ConfigResolved { dryrun, packages, passthrough_args, flake_lockfile_path } => {
                match event {
                    Event::LockfileRead(contents) => {
                        match read_nixpkgs_revision(flake_lockfile_path.as_str(), contents) {
                            Err(error) => State::Failed(error),
                            Ok(nixpkgs_revision) => State::RevisionExtracted {
                                dryrun,
                                packages,
                                passthrough_args,
                                nixpkgs_revision,
                            },
                        }
                    },
                    _ => State::ConfigResolved {
                        dryrun,
                        packages,
                        passthrough_args,
                        flake_lockfile_path,
                    },
                }
            },
            State::RevisionExtracted { dryrun, packages, passthrough_args, nixpkgs_revision } => {
                match event {
                    Event::Continued => {
                        let command = make_command(
                            packages.as_slice(),
                            nixpkgs_revision.as_str(),
                            passthrough_args.as_slice(),
                        );
                        State::CommandBuilt { dryrun, command }
                    },
                    _ => State::RevisionExtracted {
                        dryrun,
                        packages,
                        passthrough_args,
                        nixpkgs_revision,
                    },
                }
            },
            State::CommandBuilt { dryrun, command } => match event {
                Event::Printed => if dryrun {
                    State::DryRunPrinted
                } else {
                    State::CommandBuilt { dryrun, command }
                },
                Event::Replaced => if dryrun {
                    State::CommandBuilt { dryrun, command }
                } else {
                    State::ProcessReplaced
                },
                Event::ReplaceFailed(detail) => if dryrun {
                    State::CommandBuilt { dryrun, command }
                } else {
                    State::Failed(Error::ProcessReplacementError(detail))
                },
                _ => State::CommandBuilt { dryrun, command },
            },
            State::DryRunPrinted => State::DryRunPrinted,
            State::ProcessReplaced => State::ProcessReplaced,
            State::Failed(error) => State::Failed(error),
        }
    }
}

} // verus!
