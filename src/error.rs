use vstd::prelude::*;

verus! {

/// The one failure of this library: the lock could not be acquired.
#[derive(Debug, Clone, Copy, PartialEq, Eq, Structural)]
pub struct Error;

impl Error {
    /// The text that describes the failure.
    pub fn message(&self) -> (r: &'static str)
        ensures
            r@ == "Lock could not be acquired"@,
    {
        "Lock could not be acquired"
    }
}

} // verus!
