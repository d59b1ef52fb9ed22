//! The command-line options. The outer program parses the arguments and
//! hands the values over in this shape.

use vstd::prelude::*;

verus! {

/// The tool's options: an optional URL or file path (the editor opens when
/// absent), and an optional API token against rate limiting.
#[derive(Debug)]
pub struct Opts {
    pub input: Option<String>,
    pub github_token: Option<String>,
}

} // verus!
