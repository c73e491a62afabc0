//! The command line: one optional path to scan.

use vstd::prelude::*;

verus! {

/// The settled command line.
pub struct Cli {
    /// The root of the tree to scan.
    pub path: String,
}

/// Settles the command line from the positional path argument: the given
/// path, or the current directory when none was given.
pub fn init_cli(path: Option<String>) -> (r: Cli)
    ensures
        r.path@ == match path {
            Some(p) => p@,
            None => "."@,
        },
{
    match path {
        Some(p) => Cli { path: p },
        None => Cli { path: ".".to_owned() },
    }
}

} // verus!
