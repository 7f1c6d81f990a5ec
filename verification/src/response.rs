//! Responses.

use crate::body::{Body, BodyView};
use crate::header::HeaderMap;
use crate::status::StatusCode;
use crate::version::Version;
use vstd::prelude::*;

verus! {

/// A response, as mathematical values.
pub struct ResponseView {
    pub status: u16,
    pub version: Version,
    pub headers: Seq<(Seq<u8>, Seq<u8>)>,
    pub body: BodyView,
}

/// A response: status, version, headers and body.
#[derive(Debug)]
pub struct Response {
    status: StatusCode,
    version: Version,
    headers: HeaderMap,
    body: Body,
}

impl View for Response {
    type V = ResponseView;

    closed spec fn view(&self) -> ResponseView {
        ResponseView {
            status: self.status.value(),
            version: self.version,
            headers: self.headers@,
            body: self.body@,
        }
    }
}

impl Response {
    pub fn new(status: StatusCode, version: Version, headers: HeaderMap, body: Body) -> (r: Response)
        ensures
            r@ == (ResponseView {
                status: status.value(),
                version: version,
                headers: headers@,
                body: body@,
            }),
    {
        Response { status, version, headers, body }
    }

    pub fn status(&self) -> (s: StatusCode)
        ensures
            s.value() == self@.status,
    {
        self.status
    }

    pub fn version(&self) -> (v: Version)
        ensures
            v == self@.version,
    {
        self.version
    }

    pub fn headers(&self) -> (h: &HeaderMap)
        ensures
            h@ == self@.headers,
    {
        &self.headers
    }

    pub fn body(&self) -> (b: &Body)
        ensures
            b@ == self@.body,
    {
        &self.body
    }
}

} // verus!
