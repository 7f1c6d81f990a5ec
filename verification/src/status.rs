//! Response status codes.

use vstd::prelude::*;

verus! {

/// A status code outside the three-digit range.
#[derive(Clone, Copy, Debug, PartialEq, Eq, Structural)]
pub struct InvalidStatusCode {}

/// A three-digit response status code.
#[derive(Clone, Copy, Debug, PartialEq, Eq, Structural)]
pub struct StatusCode {
    code: u16,
}

/// Whether a number is a status code: three digits, the first not zero.
pub open spec fn is_status_code(n: int) -> bool {
    100 <= n <= 999
}

impl StatusCode {
    pub closed spec fn value(self) -> u16 {
        self.code
    }

    #[verifier::type_invariant]
    spec fn three_digits(self) -> bool {
        is_status_code(self.code as int)
    }

    pub fn from_u16(src: u16) -> (r: Result<StatusCode, InvalidStatusCode>)
        ensures
            r is Ok <==> is_status_code(src as int),
            r matches Ok(s) ==> s.value() == src,
    {
        if src < 100 || src > 999 {
            Err(InvalidStatusCode {})
        } else {
            Ok(StatusCode { code: src })
        }
    }

    pub fn as_u16(&self) -> (n: u16)
        ensures
            n == self.value(),
            is_status_code(n as int),
    {
        proof {
            use_type_invariant(self);
        }
        self.code
    }
}

} // verus!
