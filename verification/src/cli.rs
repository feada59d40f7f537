//! What the command line asks for.

use crate::error::{Error, ErrorView};
use vstd::prelude::*;

verus! {

/// A choice made on the command line that takes the place of the
/// configuration file found by default.
#[derive(Debug, Clone, PartialEq, Eq)]
pub enum Override {
    /// Read the configuration from the file at this path.
    ConfigFile(String),
    /// Use the lockfile at this path; no configuration file is read.
    FlakeLockfile(String),
}

/// The arguments of one run.
#[derive(Debug, Clone, PartialEq, Eq)]
pub struct Args {
    /// Show the command in place of running it.
    pub dryrun: bool,
    /// At most one override of the configuration.
    pub override_: Option<Override>,
    /// Names of the packages to install, in the order given.
    pub packages: Vec<String>,
    /// Arguments handed on to `nix shell` as they are.
    pub passthrough_args: Vec<String>,
}

/// The override that the two options stand for, where at most one is given.
pub open spec fn override_of(
    override_config_file: Option<String>,
    override_flake_lockfile: Option<String>,
) -> Option<Override> {
    match override_config_file {
        Some(path) => Some(Override::ConfigFile(path)),
        None => match override_flake_lockfile {
            Some(path) => Some(Override::FlakeLockfile(path)),
            None => None,
        },
    }
}

impl Args {
    /// Puts the raw options of the command line together.
    ///
    /// Naming both a configuration file and a lockfile is refused with
    /// `ConflictingOverrides`, before anything else is looked at. Otherwise
    /// the option given, if any, becomes the override and the rest is kept
    /// as it came.
    pub fn from_flags(
        dryrun: bool,
        override_config_file: Option<String>,
        override_flake_lockfile: Option<String>,
        packages: Vec<String>,
        passthrough_args: Vec<String>,
    ) -> (result: Result<Args, Error>)
        ensures
            match (override_config_file, override_flake_lockfile) {
                (Some(_), Some(_)) => result matches Err(error) && error@
                    == ErrorView::ConflictingOverrides,
                _ => result == Ok::<Args, Error>(
                    (Args {
                        dryrun,
                        override_: override_of(override_config_file, override_flake_lockfile),
                        packages,
                        passthrough_args,
                    }),
                ),
            },
    {
        let override_ = match override_config_file {
            Some(path) => {
                if override_flake_lockfile.is_some() {
                    return Err(Error::ConflictingOverrides);
                }
                Some(Override::ConfigFile(path))
            },
            None => match override_flake_lockfile {
                Some(path) => Some(Override::FlakeLockfile(path)),
                None => None,
            },
        };
        Ok(Args { dryrun, override_, packages, passthrough_args })
    }
}

} // verus!
