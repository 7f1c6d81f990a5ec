//! Requests and the builder that assembles them.

use crate::body::{Body, BodyView};
use crate::error::{ErrorKind, Failure, HttpError};
use crate::header::{is_header_name, is_value_byte, lowered, HeaderMap, HeaderName, HeaderValue};
use crate::method::Method;
use crate::uri::{Uri, UriView};
use crate::version::Version;
use vstd::prelude::*;
use vstd::string::StringSliceAdditionalSpecFns;

verus! {

/// A request, as mathematical values.
pub struct RequestView {
    pub method: Method,
    pub uri: Option<UriView>,
    pub version: Version,
    pub headers: Seq<(Seq<u8>, Seq<u8>)>,
    pub body: BodyView,
}

/// A request: method, target, version, headers and body.
#[derive(Debug)]
pub struct Request {
    method: Method,
    uri: Option<Uri>,
    version: Version,
    headers: HeaderMap,
    body: Body,
}

impl View for Request {
    type V = RequestView;

    closed spec fn view(&self) -> RequestView {
        RequestView {
            method: self.method,
            uri: match self.uri {
                Some(uri) => Some(uri@),
                None => None,
            },
            version: self.version,
            headers: self.headers@,
            body: self.body@,
        }
    }
}

impl Request {
    /// A builder for a `GET` request over HTTP/1.1 with no URL and no headers.
    pub fn builder() -> (b: Builder)
        ensures
            b@ == BuilderView::start(),
    {
        Builder {
            method: Method::GET,
            uri: None,
            version: Version::HTTP_11,
            headers: HeaderMap::new(),
            failure: None,
        }
    }

    pub fn method(&self) -> (m: Method)
        ensures
            m == self@.method,
    {
        self.method
    }

    pub fn uri(&self) -> (u: Option<&Uri>)
        ensures
            match u {
                Some(uri) => self@.uri == Some(uri@),
                None => self@.uri is None,
            },
    {
        match &self.uri {
            Some(uri) => Some(uri),
            None => None,
        }
    }

    pub fn version(&self) -> (v: Version)
        ensures
            v == self@.version,
    {
        self.version
    }

    pub fn headers(&self) -> (h: &HeaderMap)
        ensures
            h@ == self@.headers,
    {
        &self.headers
    }

    pub fn body(&self) -> (b: &Body)
        ensures
            b@ == self@.body,
    {
        &self.body
    }
}

/// What a builder has gathered, as mathematical values.
pub struct BuilderView {
    pub method: Method,
    pub uri: Option<UriView>,
    pub version: Version,
    pub headers: Seq<(Seq<u8>, Seq<u8>)>,
    /// The first failure, if a step has failed.
    pub failure: Option<Failure>,
}

impl BuilderView {
    /// What a fresh builder holds.
    pub open spec fn start() -> BuilderView {
        BuilderView {
            method: Method::GET,
            uri: None,
            version: Version::HTTP_11,
            headers: Seq::empty(),
            failure: None,
        }
    }

    /// What the builder holds after a header was added: the header follows
    /// those that are there, unless its name or its value is not acceptable,
    /// which the builder remembers. A builder that has failed stays as it is.
    pub open spec fn with_header(self, name: Seq<u8>, value: Seq<u8>) -> BuilderView {
        if self.failure is Some {
            self
        } else if !is_header_name(name) {
            BuilderView { failure: Some(Failure::HeaderName), ..self }
        } else if !(forall|i: int| 0 <= i < value.len() ==> is_value_byte(#[trigger] value[i])) {
            BuilderView { failure: Some(Failure::HeaderValue), ..self }
        } else {
            BuilderView { headers: self.headers.push((lowered(name), value)), ..self }
        }
    }
}

/// Assembles a request step by step. The first step that fails is reported
/// when the request is finished.
#[derive(Debug)]
pub struct Builder {
    method: Method,
    uri: Option<Uri>,
    version: Version,
    headers: HeaderMap,
    failure: Option<HttpError>,
}

impl View for Builder {
    type V = BuilderView;

    closed spec fn view(&self) -> BuilderView {
        BuilderView {
            method: self.method,
            uri: match self.uri {
                Some(uri) => Some(uri@),
                None => None,
            },
            version: self.version,
            headers: self.headers@,
            failure: match self.failure {
                Some(e) => Some(e.failure()),
                None => None,
            },
        }
    }
}

impl Builder {
    pub fn method(self, method: Method) -> (b: Builder)
        ensures
            b@ == (BuilderView { method: method, ..self@ }),
    {
        Builder { method, ..self }
    }

    pub fn uri(self, uri: Uri) -> (b: Builder)
        ensures
            b@ == (BuilderView { uri: Some(uri@), ..self@ }),
    {
        Builder { uri: Some(uri), ..self }
    }

    pub fn version(self, version: Version) -> (b: Builder)
        ensures
            b@ == (BuilderView { version: version, ..self@ }),
    {
        Builder { version, ..self }
    }

    /// Adds a header after those that are there.
    pub fn header(self, name: &str, value: &str) -> (b: Builder)
        ensures
            b@ == self@.with_header(name.spec_bytes(), value.spec_bytes()),
    {
        self.header_bytes(name, value.as_bytes())
    }

    /// Adds a header, its value given as bytes, after those that are there.
    pub fn header_bytes(self, name: &str, value: &[u8]) -> (b: Builder)
        ensures
            b@ == self@.with_header(name.spec_bytes(), value@),
    {
        if self.failure.is_some() {
            return self;
        }
        let name = match HeaderName::from_str(name) {
            Ok(name) => name,
            Err(e) => {
                return Builder {
                    failure: Some(HttpError::new(ErrorKind::HeaderName(e))),
                    ..self
                };
            },
        };
        let value = match HeaderValue::from_bytes(value) {
            Ok(value) => value,
            Err(e) => {
                return Builder {
                    failure: Some(HttpError::new(ErrorKind::HeaderValue(e))),
                    ..self
                };
            },
        };
        let mut b = self;
        b.headers.append(name, value);
        b
    }

    /// Puts the given headers in the place of those that are there.
    pub fn replace_header_map(self, headers: HeaderMap) -> (b: Builder)
        ensures
            b@ == (BuilderView { headers: headers@, ..self@ }),
    {
        Builder { headers, ..self }
    }

    /// Finishes the request with its body, or reports the first step that
    /// failed.
    pub fn body(self, body: Body) -> (r: Result<Request, HttpError>)
        ensures
            match self@.failure {
                Some(failure) => r matches Err(e) && e.failure() == failure,
                None => r matches Ok(request) && request@ == (RequestView {
                    method: self@.method,
                    uri: self@.uri,
                    version: self@.version,
                    headers: self@.headers,
                    body: body@,
                }),
            },
    {
        match self.failure {
            Some(e) => Err(e),
            None => Ok(
                Request {
                    method: self.method,
                    uri: self.uri,
                    version: self.version,
                    headers: self.headers,
                    body,
                },
            ),
        }
    }
}

} // verus!
