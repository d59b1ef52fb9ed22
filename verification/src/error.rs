//! The tool's error type. The outer program turns failures of its
//! collaborators into these; the engine itself never raises one.

use vstd::prelude::*;
use vstd::string::StringExecFns;

verus! {

/// All failures the tool reports.
#[derive(Debug)]
pub enum Error {
    Internal(String),
    NotFound(String),
    InvalidArgument(String),
    RateLimit,
    GitHub(String),
}

impl Error {
    /// The message shown for this failure.
    pub fn message(&self) -> (r: String)
        ensures
            (match self {
                Error::Internal(m) => r@ == m@,
                Error::NotFound(m) => r@ == m@,
                Error::InvalidArgument(m) => r@ == m@,
                Error::RateLimit => r@ == "GitHub API rate limit exceeded"@,
                Error::GitHub(m) => r@ == "GitHub error: "@ + m@,
            }),
    {
        match self {
            Error::Internal(m) => m.clone(),
            Error::NotFound(m) => m.clone(),
            Error::InvalidArgument(m) => m.clone(),
            Error::RateLimit => String::from_str("GitHub API rate limit exceeded"),
            Error::GitHub(m) => {
                let mut s = String::from_str("GitHub error: ");
                s.append(m.as_str());
                proof {
                    assert(s@ =~= "GitHub error: "@ + m@);
                }
                s
            },
        }
    }
}

} // verus!
