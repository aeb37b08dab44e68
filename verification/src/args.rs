//! What the user asked for on the command line.

use vstd::prelude::*;

verus! {

/// The options of the command, already parsed.
#[derive(Clone, Debug, PartialEq, Eq)]
pub struct CargoAurArgs {
    /// Display the help message.
    pub help: bool,
    /// Display the current version of this software.
    pub version: bool,
    /// Unused.
    pub args: Vec<String>,
    /// Use the MUSL build target to produce a static binary.
    pub musl: bool,
    /// Don't actually build anything.
    pub dryrun: bool,
}

} // verus!
