//! What the command line can set.

use std::path::PathBuf;
use vstd::prelude::*;

verus! {

/// `std::path::PathBuf`, the standard library's owned file path. Nothing is
/// claimed of it: a path is carried from the command line to the place that
/// opens the file.
#[verifier::external_type_specification]
#[verifier::external_body]
pub struct ExPathBuf(PathBuf);

/// A structure holding command line arguments.
#[derive(Debug)]
pub struct CommandLineArgs {
    /// Use a different input file.
    pub input: Option<PathBuf>,
    /// Use a different output file.
    pub output: Option<PathBuf>,
    /// Use a different hotels file.
    pub hotels: Option<PathBuf>,
}

} // verus!
