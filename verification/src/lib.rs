//! Composes the `nix shell` invocation that installs packages from the
//! nixpkgs revision pinned in a flake lockfile.
//!
//! The crate reads no file, prints nothing and starts no process. A caller
//! looks at the file system and hands over what it saw; the functions here
//! decide what the run does next and what it ends with. The one thing taken
//! from the process itself is its environment, when the path of the
//! lockfile is expanded.

pub mod cli;
pub mod command;
pub mod config;
pub mod defaults;
pub mod error;
pub mod lockfile;
pub mod runner;
