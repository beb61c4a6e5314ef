//! The error a failed startup surfaces.

use vstd::prelude::*;
use vstd::string::*;

verus! {

/// Startup failure: the configuration could not be read or understood.
/// Anything past startup is recovered from internally and never surfaces
/// as an error.
#[derive(Clone, Copy, Debug, PartialEq, Eq, Structural)]
pub enum ListenError {
    Config,
}

impl ListenError {
    /// A short description of the error.
    pub fn describe(&self) -> (s: String)
        ensures
            s@ == "Config error"@,
    {
        let mut s = String::new();
        s.append("Config error");
        proof {
            assert(s@ =~= "Config error"@);
        }
        s
    }
}

} // verus!
