//! A single cookie.

use vstd::prelude::*;

verus! {

/// A cookie of version 0.
#[derive(Debug)]
pub struct Cookie {
    version: Option<usize>,
    name: String,
    value: String,
    domain: Option<String>,
    path: Option<String>,
    secure: bool,
    /// The age, in nanoseconds, at which the cookie expires.
    expires: Option<u128>,
}

impl Cookie {
    /// The age at which the cookie expires, if it has one.
    pub closed spec fn expiry(&self) -> Option<u128> {
        self.expires
    }

    pub closed spec fn spec_name(&self) -> Seq<char> {
        self.name@
    }

    pub closed spec fn spec_value(&self) -> Seq<char> {
        self.value@
    }

    /// A cookie with a name and a value, and without an expiry.
    pub fn new(name: String, value: String) -> (cookie: Cookie)
        ensures
            cookie.spec_name() == name@,
            cookie.spec_value() == value@,
            cookie.expiry() is None,
    {
        Cookie { version: None, name, value, domain: None, path: None, secure: false, expires: None }
    }

    /// The cookie with the age, in nanoseconds, at which it expires.
    pub fn with_expires(self, expires: Option<u128>) -> (cookie: Cookie)
        ensures
            cookie.spec_name() == self.spec_name(),
            cookie.spec_value() == self.spec_value(),
            cookie.expiry() == expires,
    {
        Cookie { expires, ..self }
    }

    pub fn name(&self) -> (s: &str)
        ensures
            s@ == self.spec_name(),
    {
        self.name.as_str()
    }

    pub fn value(&self) -> (s: &str)
        ensures
            s@ == self.spec_value(),
    {
        self.value.as_str()
    }

    /// Whether the cookie is expired once `elapsed` nanoseconds have passed:
    /// a cookie without an expiry is, and one with an expiry is from that age
    /// on.
    pub fn is_expired(&self, elapsed: u128) -> (r: bool)
        ensures
            r == match self.expiry() {
                Some(expires) => expires <= elapsed,
                None => true,
            },
    {
        if let Some(expires) = self.expires {
            expires <= elapsed
        } else {
            true
        }
    }
}

} // verus!
