//! Status values reported by the native subsystem.

use vstd::prelude::*;

verus! {

/// The code that the native subsystem reports for success.
pub const OK_CODE: i32 = 0;

/// A status reported by the native subsystem: the success sentinel, or one of
/// the failure kinds, which are told apart by their code and not interpreted
/// here.
#[derive(Clone, Copy, Debug, PartialEq, Eq, Structural)]
pub struct Status {
    pub code: i32,
}

impl Status {
    /// Whether this status is the success sentinel.
    pub open spec fn spec_is_ok(self) -> bool {
        self.code == OK_CODE
    }

    /// The success sentinel.
    pub open spec fn spec_ok() -> Status {
        Status { code: OK_CODE }
    }

    /// The success sentinel.
    #[verifier::when_used_as_spec(spec_ok)]
    pub fn ok() -> (s: Status)
        ensures
            s == Status::spec_ok(),
            s.spec_is_ok(),
    {
        Status { code: OK_CODE }
    }

    /// The status with the given native code.
    pub fn from_code(code: i32) -> (s: Status)
        ensures
            s.code == code,
    {
        Status { code }
    }

    /// Whether this status is the success sentinel.
    #[verifier::when_used_as_spec(spec_is_ok)]
    pub fn is_ok(self) -> (b: bool)
        ensures
            b == self.spec_is_ok(),
    {
        self.code == OK_CODE
    }
}

} // verus!
