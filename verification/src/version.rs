//! The HTTP protocol versions that the framing layer speaks.

use vstd::prelude::*;

verus! {

/// An HTTP/1.x protocol version.
#[allow(non_camel_case_types)]
#[derive(Clone, Copy, Debug, PartialEq, Eq, Structural)]
pub enum Version {
    HTTP_10,
    HTTP_11,
}

impl Version {
    /// The token that stands for this version on the wire.
    pub open spec fn token(self) -> Seq<char> {
        match self {
            Version::HTTP_10 => "HTTP/1.0"@,
            Version::HTTP_11 => "HTTP/1.1"@,
        }
    }

    /// The version that a tokenizer's minor-version digit names: `1`, or no
    /// digit at all, is HTTP/1.1 and everything else HTTP/1.0.
    pub open spec fn of_minor(minor: Option<u8>) -> Version {
        match minor {
            Some(m) => if m == 1 { Version::HTTP_11 } else { Version::HTTP_10 },
            None => Version::HTTP_11,
        }
    }

    pub fn as_str(&self) -> (s: &'static str)
        ensures
            s@ == self.token(),
    {
        match self {
            Version::HTTP_10 => "HTTP/1.0",
            Version::HTTP_11 => "HTTP/1.1",
        }
    }

    pub fn from_minor(minor: Option<u8>) -> (v: Version)
        ensures
            v == Version::of_minor(minor),
    {
        match minor {
            Some(m) => if m == 1 { Version::HTTP_11 } else { Version::HTTP_10 },
            None => Version::HTTP_11,
        }
    }
}

impl Default for Version {
    fn default() -> (v: Version)
        ensures
            v == Version::HTTP_11,
    {
        Version::HTTP_11
    }
}

} // verus!
