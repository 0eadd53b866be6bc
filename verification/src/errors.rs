use vstd::prelude::*;

verus! {

/// The three classes of failure that a request can end in.
#[derive(Debug, Clone, Copy, PartialEq, Eq, Structural)]
pub enum ErrorClass {
    /// The request itself is at fault.
    ClientInput,
    /// The scratch directory or a file in it could not be written.
    Resource,
    /// Rendering or showing the notification failed.
    Platform,
}

impl ErrorClass {
    /// The HTTP status that answers a failure of this class.
    pub open spec fn spec_status(self) -> u16 {
        match self {
            ErrorClass::ClientInput => 400,
            ErrorClass::Resource => 500,
            ErrorClass::Platform => 500,
        }
    }

    /// The HTTP status that answers a failure of this class: 400 for the
    /// client's faults, 500 for the server's.
    #[verifier::when_used_as_spec(spec_status)]
    pub fn status(self) -> (code: u16)
        ensures
            code == self.spec_status(),
    {
        match self {
            ErrorClass::ClientInput => 400,
            ErrorClass::Resource => 500,
            ErrorClass::Platform => 500,
        }
    }
}

} // verus!
