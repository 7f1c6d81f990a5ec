//! The request methods.

use vstd::prelude::*;

verus! {

/// A request method.
#[derive(Clone, Copy, Debug, PartialEq, Eq, Structural)]
pub enum Method {
    OPTIONS,
    GET,
    POST,
    PUT,
    DELETE,
    HEAD,
    TRACE,
    CONNECT,
    PATCH,
}

impl Method {
    /// The token that stands for this method on the wire.
    pub open spec fn token(self) -> Seq<char> {
        match self {
            Method::OPTIONS => "OPTIONS"@,
            Method::GET => "GET"@,
            Method::POST => "POST"@,
            Method::PUT => "PUT"@,
            Method::DELETE => "DELETE"@,
            Method::HEAD => "HEAD"@,
            Method::TRACE => "TRACE"@,
            Method::CONNECT => "CONNECT"@,
            Method::PATCH => "PATCH"@,
        }
    }

    pub fn as_str(&self) -> (s: &'static str)
        ensures
            s@ == self.token(),
    {
        match self {
            Method::OPTIONS => "OPTIONS",
            Method::GET => "GET",
            Method::POST => "POST",
            Method::PUT => "PUT",
            Method::DELETE => "DELETE",
            Method::HEAD => "HEAD",
            Method::TRACE => "TRACE",
            Method::CONNECT => "CONNECT",
            Method::PATCH => "PATCH",
        }
    }
}

impl Default for Method {
    fn default() -> (m: Method)
        ensures
            m == Method::GET,
    {
        Method::GET
    }
}

} // verus!
