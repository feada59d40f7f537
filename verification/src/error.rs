//! The ways in which a run ends without a command.

use crate::defaults::REVISION_POINTER;
use vstd::prelude::*;
use vstd::string::StringExecFns;

verus! {

/// Why a run failed. Every failure ends the run: nothing is retried.
#[derive(Debug, Clone, PartialEq, Eq)]
pub enum Error {
    /// Both a configuration file and a lockfile were named on the command
    /// line.
    ConflictingOverrides,
    /// No configuration file was named and none was found in the standard
    /// place.
    ConfigNotFound,
    /// The configuration file named on the command line, held here, is no
    /// regular file.
    ConfigFileMissing(String),
    /// The configuration file could not be read as a document with a
    /// `flake_lockfile` string. Holds what was wrong.
    ConfigParseError(String),
    /// The lockfile path of the configuration could not be expanded. Holds
    /// what was wrong.
    PathExpansionError(String),
    /// The lockfile could not be read. Holds what the read reported.
    LockfileReadError(String),
    /// The lockfile is not JSON. Holds what the parser reported.
    LockfileParseError(String),
    /// The lockfile at the path held here has no value at the place of the
    /// nixpkgs revision.
    LockfileFieldMissing(String),
    /// The lockfile at the path held here has something other than a string
    /// at the place of the nixpkgs revision.
    LockfileFieldNotString(String),
    /// The command could not take the place of this process. Holds what the
    /// attempt reported.
    ProcessReplacementError(String),
}

/// An [`Error`] with the text of its strings.
pub enum ErrorView {
    ConflictingOverrides,
    ConfigNotFound,
    ConfigFileMissing(Seq<char>),
    ConfigParseError(Seq<char>),
    PathExpansionError(Seq<char>),
    LockfileReadError(Seq<char>),
    LockfileParseError(Seq<char>),
    LockfileFieldMissing(Seq<char>),
    LockfileFieldNotString(Seq<char>),
    ProcessReplacementError(Seq<char>),
}

impl View for Error {
    type V = ErrorView;

    open spec fn view(&self) -> ErrorView {
        match *self {
            Error::ConflictingOverrides => ErrorView::ConflictingOverrides,
            Error::ConfigNotFound => ErrorView::ConfigNotFound,
            Error::ConfigFileMissing(path) => ErrorView::ConfigFileMissing(path@),
            Error::ConfigParseError(detail) => ErrorView::ConfigParseError(detail@),
            Error::PathExpansionError(detail) => ErrorView::PathExpansionError(detail@),
            Error::LockfileReadError(detail) => ErrorView::LockfileReadError(detail@),
            Error::LockfileParseError(detail) => ErrorView::LockfileParseError(detail@),
            Error::LockfileFieldMissing(path) => ErrorView::LockfileFieldMissing(path@),
            Error::LockfileFieldNotString(path) => ErrorView::LockfileFieldNotString(path@),
            Error::ProcessReplacementError(detail) => ErrorView::ProcessReplacementError(detail@),
        }
    }
}

impl ErrorView {
    /// The text shown to the user for this failure.
    pub open spec fn message(self) -> Seq<char> {
        match self {
            ErrorView::ConflictingOverrides => "Specify at most one of --config and --lockfile"@,
            ErrorView::ConfigNotFound => "Can't find config file!\nTry creating a file at ~/.config/nix-shell-locked.toml with contents:\n\nflake_lockfile = \"path/to/flake.lock\""@,
            ErrorView::ConfigFileMissing(path) => "Specified config file ("@ + path
                + ") does not exist."@,
            ErrorView::ConfigParseError(detail) => detail,
            ErrorView::PathExpansionError(detail) => detail,
            ErrorView::LockfileReadError(detail) => detail,
            ErrorView::LockfileParseError(detail) => detail,
            ErrorView::LockfileFieldMissing(path) => "Couldn't find path \""@ + REVISION_POINTER@
                + "\" in flake lockfile "@ + path,
            ErrorView::LockfileFieldNotString(path) => "The value at \""@ + REVISION_POINTER@
                + "\" in "@ + path + " is not a string."@,
            ErrorView::ProcessReplacementError(detail) => detail,
        }
    }
}

/// Whether `result` is `expected`, text for text.
pub open spec fn is_outcome(
    result: Result<String, Error>,
    expected: Result<Seq<char>, ErrorView>,
) -> bool {
    match result {
        Ok(text) => expected == Ok::<Seq<char>, ErrorView>(text@),
        Err(error) => expected == Err::<Seq<char>, ErrorView>(error@),
    }
}

impl Error {
    /// The text to show to the user for this failure. It names the path or
    /// the field at fault.
    pub fn message(&self) -> (text: String)
        ensures
            text@ == self@.message(),
    {
        match self {
            Error::ConflictingOverrides => String::from_str(
                "Specify at most one of --config and --lockfile",
            ),
            Error::ConfigNotFound => String::from_str(
                "Can't find config file!\nTry creating a file at ~/.config/nix-shell-locked.toml with contents:\n\nflake_lockfile = \"path/to/flake.lock\"",
            ),
            Error::ConfigFileMissing(path) => {
                let mut text = String::from_str("Specified config file (");
                text.append(path.as_str());
                text.append(") does not exist.");
                text
            },
            Error::ConfigParseError(detail) => detail.clone(),
            Error::PathExpansionError(detail) => detail.clone(),
            Error::LockfileReadError(detail) => detail.clone(),
            Error::LockfileParseError(detail) => detail.clone(),
            Error::LockfileFieldMissing(path) => {
                let mut text = String::from_str("Couldn't find path \"");
                text.append(REVISION_POINTER);
                text.append("\" in flake lockfile ");
                text.append(path.as_str());
                text
            },
            Error::LockfileFieldNotString(path) => {
                let mut text = String::from_str("The value at \"");
                text.append(REVISION_POINTER);
                text.append("\" in ");
                text.append(path.as_str());
                text.append(" is not a string.");
                text
            },
            Error::ProcessReplacementError(detail) => detail.clone(),
        }
    }
}

} // verus!
