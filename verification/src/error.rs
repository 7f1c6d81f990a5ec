//! The errors that the library reports.

use crate::status::InvalidStatusCode;
use crate::tokenizer::TokenizerFailure;
use vstd::prelude::*;

verus! {

/// `url::ParseError`, the reason why a text is no absolute URL. It is
/// carried, never looked into.
#[verifier::external_type_specification]
#[verifier::external_body]
pub struct ExUrlParseError(url::ParseError);

/// `url::ParseError` is `Copy`: its `clone` hands back the same variant.
pub assume_specification[ <url::ParseError as Clone>::clone ](e: &url::ParseError) -> (r: url::ParseError)
    ensures
        r == *e,
;

/// A URL that cannot be used for a request.
#[derive(Debug, Clone)]
pub struct InvalidUrl {
    msg: String,
}

impl InvalidUrl {
    pub closed spec fn message(&self) -> Seq<char> {
        self.msg@
    }

    pub fn new(msg: &str) -> (e: Self)
        ensures
            e.message() == msg@,
    {
        Self { msg: msg.to_owned() }
    }

    pub fn as_str(&self) -> (s: &str)
        ensures
            s@ == self.message(),
    {
        self.msg.as_str()
    }
}

/// An HTTP version that is not supported.
#[derive(Debug, Clone)]
pub struct InvalidHttpVersion {
    msg: String,
}

impl InvalidHttpVersion {
    pub closed spec fn message(&self) -> Seq<char> {
        self.msg@
    }

    pub fn new(msg: &str) -> (e: Self)
        ensures
            e.message() == msg@,
    {
        Self { msg: msg.to_owned() }
    }

    pub fn as_str(&self) -> (s: &str)
        ensures
            s@ == self.message(),
    {
        self.msg.as_str()
    }
}

/// A header that is not acceptable.
#[derive(Debug, Clone)]
pub struct InvalidHttpHeader {
    msg: String,
}

impl InvalidHttpHeader {
    pub closed spec fn message(&self) -> Seq<char> {
        self.msg@
    }

    pub fn new(msg: &str) -> (e: Self)
        ensures
            e.message() == msg@,
    {
        Self { msg: msg.to_owned() }
    }

    pub fn as_str(&self) -> (s: &str)
        ensures
            s@ == self.message(),
    {
        self.msg.as_str()
    }
}

/// The kinds of transport failure that the library tells apart.
#[derive(Debug, Clone, Copy, PartialEq, Eq, Structural)]
pub enum IoErrorKind {
    NotFound,
    PermissionDenied,
    ConnectionRefused,
    ConnectionReset,
    ConnectionAborted,
    NotConnected,
    AddrInUse,
    AddrNotAvailable,
    BrokenPipe,
    AlreadyExists,
    WouldBlock,
    InvalidInput,
    InvalidData,
    TimedOut,
    WriteZero,
    Interrupted,
    Other,
    UnexpectedEof,
    /// Any failure that has no name above.
    Unknown,
}

/// A failure of the transport.
#[derive(Debug, Clone, Copy)]
pub struct IoError {
    repr: IoErrorKind,
}

impl IoError {
    pub closed spec fn kind(&self) -> IoErrorKind {
        self.repr
    }

    /// The description that belongs to each kind of failure.
    pub open spec fn description(kind: IoErrorKind) -> Seq<char> {
        match kind {
            IoErrorKind::NotFound => "entity not found"@,
            IoErrorKind::PermissionDenied => "permission denied"@,
            IoErrorKind::ConnectionRefused => "connection refused"@,
            IoErrorKind::ConnectionReset => "connection reset"@,
            IoErrorKind::ConnectionAborted => "connection aborted"@,
            IoErrorKind::NotConnected => "not connected"@,
            IoErrorKind::AddrInUse => "address in use"@,
            IoErrorKind::AddrNotAvailable => "address not available"@,
            IoErrorKind::BrokenPipe => "broken pipe"@,
            IoErrorKind::AlreadyExists => "entity already exists"@,
            IoErrorKind::WouldBlock => "operation would block"@,
            IoErrorKind::InvalidInput => "invalid input parameter"@,
            IoErrorKind::InvalidData => "invalid data"@,
            IoErrorKind::TimedOut => "timed out"@,
            IoErrorKind::WriteZero => "write zero"@,
            IoErrorKind::Interrupted => "operation interrupted"@,
            IoErrorKind::Other => "other os error"@,
            IoErrorKind::UnexpectedEof => "unexpected end of file"@,
            IoErrorKind::Unknown => "invalid error"@,
        }
    }

    pub fn from_kind(repr: IoErrorKind) -> (e: Self)
        ensures
            e.kind() == repr,
    {
        Self { repr }
    }

    pub fn get_kind(&self) -> (k: IoErrorKind)
        ensures
            k == self.kind(),
    {
        self.repr
    }

    pub fn as_str(&self) -> (s: &'static str)
        ensures
            s@ == Self::description(self.kind()),
    {
        match self.repr {
            IoErrorKind::NotFound => "entity not found",
            IoErrorKind::PermissionDenied => "permission denied",
            IoErrorKind::ConnectionRefused => "connection refused",
            IoErrorKind::ConnectionReset => "connection reset",
            IoErrorKind::ConnectionAborted => "connection aborted",
            IoErrorKind::NotConnected => "not connected",
            IoErrorKind::AddrInUse => "address in use",
            IoErrorKind::AddrNotAvailable => "address not available",
            IoErrorKind::BrokenPipe => "broken pipe",
            IoErrorKind::AlreadyExists => "entity already exists",
            IoErrorKind::WouldBlock => "operation would block",
            IoErrorKind::InvalidInput => "invalid input parameter",
            IoErrorKind::InvalidData => "invalid data",
            IoErrorKind::TimedOut => "timed out",
            IoErrorKind::WriteZero => "write zero",
            IoErrorKind::Interrupted => "operation interrupted",
            IoErrorKind::Other => "other os error",
            IoErrorKind::UnexpectedEof => "unexpected end of file",
            IoErrorKind::Unknown => "invalid error",
        }
    }
}

/// A header name that is empty, too long, or holds a byte that no name may hold.
#[derive(Clone, Copy, Debug, PartialEq, Eq, Structural)]
pub struct InvalidHeaderName {}

/// A header value that holds a byte that no value may hold.
#[derive(Clone, Copy, Debug, PartialEq, Eq, Structural)]
pub struct InvalidHeaderValue {}

/// A header value that is not visible ASCII text.
#[derive(Clone, Copy, Debug, PartialEq, Eq, Structural)]
pub struct ToStrError {}

/// What went wrong.
#[derive(Debug, Clone)]
pub enum ErrorKind {
    /// A status code outside the three-digit range.
    StatusCode(InvalidStatusCode),
    /// A string that no URL parser accepts.
    Uri(url::ParseError),
    /// A request without a usable URL.
    InvalidUrl(InvalidUrl),
    InvalidHttpVersion(InvalidHttpVersion),
    HeaderName(InvalidHeaderName),
    HeaderValue(InvalidHeaderValue),
    ToStrError(ToStrError),
    IoError(IoError),
    InvalidHttpHeader(InvalidHttpHeader),
    /// The tokenizer rejected the message head.
    Tokenizer(TokenizerFailure),
}

/// The error of every fallible function of the library.
#[derive(Debug, Clone)]
pub struct HttpError {
    inner: ErrorKind,
}

/// The kind of an error, with the payloads left out.
#[derive(Clone, Copy, Debug, PartialEq, Eq, Structural)]
pub enum Failure {
    StatusCode,
    Uri,
    InvalidUrl,
    InvalidHttpVersion,
    HeaderName,
    HeaderValue,
    ToStrError,
    IoError,
    InvalidHttpHeader,
    Tokenizer(TokenizerFailure),
}

impl HttpError {
    pub closed spec fn kind(&self) -> ErrorKind {
        self.inner
    }

    /// Which failure the error reports.
    pub open spec fn failure(&self) -> Failure {
        match self.kind() {
            ErrorKind::StatusCode(_) => Failure::StatusCode,
            ErrorKind::Uri(_) => Failure::Uri,
            ErrorKind::InvalidUrl(_) => Failure::InvalidUrl,
            ErrorKind::InvalidHttpVersion(_) => Failure::InvalidHttpVersion,
            ErrorKind::HeaderName(_) => Failure::HeaderName,
            ErrorKind::HeaderValue(_) => Failure::HeaderValue,
            ErrorKind::ToStrError(_) => Failure::ToStrError,
            ErrorKind::IoError(_) => Failure::IoError,
            ErrorKind::InvalidHttpHeader(_) => Failure::InvalidHttpHeader,
            ErrorKind::Tokenizer(t) => Failure::Tokenizer(t),
        }
    }

    pub fn new(kind: ErrorKind) -> (e: Self)
        ensures
            e.kind() == kind,
    {
        Self { inner: kind }
    }

    pub fn get_ref(&self) -> (k: &ErrorKind)
        ensures
            *k == self.kind(),
    {
        &self.inner
    }

    /// Which failure the error reports.
    pub fn get_failure(&self) -> (f: Failure)
        ensures
            f == self.failure(),
    {
        match &self.inner {
            ErrorKind::StatusCode(_) => Failure::StatusCode,
            ErrorKind::Uri(_) => Failure::Uri,
            ErrorKind::InvalidUrl(_) => Failure::InvalidUrl,
            ErrorKind::InvalidHttpVersion(_) => Failure::InvalidHttpVersion,
            ErrorKind::HeaderName(_) => Failure::HeaderName,
            ErrorKind::HeaderValue(_) => Failure::HeaderValue,
            ErrorKind::ToStrError(_) => Failure::ToStrError,
            ErrorKind::IoError(_) => Failure::IoError,
            ErrorKind::InvalidHttpHeader(_) => Failure::InvalidHttpHeader,
            ErrorKind::Tokenizer(t) => Failure::Tokenizer(*t),
        }
    }
}

} // verus!
