//! Fixed names.

use vstd::prelude::*;

verus! {

/// Name of the configuration file looked for in the standard configuration
/// directories.
pub const CONFIG_FILENAME: &'static str = "nix-shell-locked.toml";

/// Key of the lockfile path in the configuration file.
pub const LOCKFILE_KEY: &'static str = "flake_lockfile";

/// Place of the nixpkgs revision in a lockfile, as a JSON pointer.
pub const REVISION_POINTER: &'static str = "/nodes/nixpkgs/locked/rev";

/// Name of the program that the composed command runs.
pub const PROGRAM: &'static str = "nix";

/// Subcommand that the program is asked for.
pub const SUBCOMMAND: &'static str = "shell";

/// Name of the flake that every installable is taken from.
pub const REPO_PREFIX: &'static str = "nixpkgs";

} // verus!
