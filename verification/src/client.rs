//! What the client decides before a request is sent and after the response
//! has been read.

use crate::body::{Body, BodyView};
use crate::error::{ErrorKind, Failure, HttpError, InvalidUrl, IoError, IoErrorKind};
use crate::header::HeaderMap;
use crate::method::Method;
use crate::proto::ParserResult;
use crate::request::{BuilderView, Request, RequestView};
use crate::response::Response;
use crate::text::wire;
use crate::uri::{Uri, UriView};
use crate::version::Version;
use vstd::prelude::*;
use vstd::string::StringSliceAdditionalSpecFns;

verus! {

/// A number in decimal digits, without leading zeros.
pub open spec fn decimal(n: nat) -> Seq<u8>
    decreases n,
{
    if n < 10 {
        seq![(0x30 + n) as u8]
    } else {
        decimal(n / 10).push((0x30 + n % 10) as u8)
    }
}

/// A number in decimal digits, without leading zeros.
pub fn to_decimal(n: usize) -> (digits: Vec<u8>)
    ensures
        digits@ == decimal(n as nat),
{
    let mut backwards: Vec<u8> = Vec::new();
    let mut rest: usize = n;
    loop
        invariant_except_break
            decimal(n as nat) == decimal(rest as nat) + backwards@.reverse(),
        ensures
            decimal(n as nat) == backwards@.reverse(),
        decreases rest,
    {
        let digit: u8 = 0x30 + (rest % 10) as u8;
        let ghost before = backwards@;
        backwards.push(digit);
        assert(backwards@.reverse() =~= seq![digit] + before.reverse());
        if rest < 10 {
            assert(decimal(rest as nat) =~= seq![digit]);
            break ;
        }
        assert(decimal(rest as nat) == decimal((rest / 10) as nat).push(digit));
        assert(decimal((rest / 10) as nat).push(digit) + before.reverse() =~= decimal(
            (rest / 10) as nat,
        ) + backwards@.reverse());
        rest = rest / 10;
    }
    let mut digits: Vec<u8> = Vec::with_capacity(backwards.len());
    let mut i: usize = backwards.len();
    while i > 0
        invariant
            i <= backwards@.len(),
            digits@ == backwards@.reverse().subrange(0, backwards@.len() - i),
        decreases i,
    {
        i -= 1;
        digits.push(backwards[i]);
        assert(digits@ =~= backwards@.reverse().subrange(0, backwards@.len() - i));
    }
    assert(digits@ =~= backwards@.reverse());
    digits
}

/// What the builder holds when a request to `url` has been prepared: the
/// method, HTTP/1.1, the caller's headers or else a `User-Agent` header, then
/// a `Host` header that names the domain, the URL, and a `Content-Length`
/// header that gives the length of the body in decimal digits.
pub open spec fn prepared(
    url: UriView,
    method: Method,
    headers: Option<Seq<(Seq<u8>, Seq<u8>)>>,
    body: BodyView,
) -> BuilderView {
    let begun = BuilderView { method: method, version: Version::HTTP_11, ..BuilderView::start() };
    let with_headers = match headers {
        Some(headers) => BuilderView { headers: headers, ..begun },
        None => begun.with_header("User-Agent".spec_bytes(), "request-rs".spec_bytes()),
    };
    let with_host = with_headers.with_header("Host".spec_bytes(), wire(url.domain->0));
    let with_url = BuilderView { uri: Some(url), ..with_host };
    with_url.with_header("Content-Length".spec_bytes(), decimal(body.payload().len()))
}

/// The body that is sent where the caller gives none: an empty one.
pub open spec fn body_or_empty(body: Option<Body>) -> BodyView {
    match body {
        Some(body) => body@,
        None => BodyView::Empty,
    }
}

/// The headers that the caller gave, as mathematical values.
pub open spec fn headers_view(headers: Option<HeaderMap>) -> Option<Seq<(Seq<u8>, Seq<u8>)>> {
    match headers {
        Some(headers) => Some(headers@),
        None => None,
    }
}

/// Prepares the request that asks `url` for something. A URL whose host is no
/// domain name is refused; so is a request whose headers the builder refuses.
pub fn prepare(url: Uri, method: Method, headers: Option<HeaderMap>, body: Option<Body>) -> (r:
    Result<Request, HttpError>)
    ensures
        match url@.domain {
            None => r matches Err(e) && e.failure() == Failure::InvalidUrl,
            Some(_) => {
                let built = prepared(url@, method, headers_view(headers), body_or_empty(body));
                match built.failure {
                    Some(failure) => r matches Err(e) && e.failure() == failure,
                    None => r matches Ok(request) && request@ == (RequestView {
                        method: built.method,
                        uri: built.uri,
                        version: built.version,
                        headers: built.headers,
                        body: body_or_empty(body),
                    }),
                }
            },
        },
{
    let mut req = Request::builder().method(method).version(Version::HTTP_11);
    req = match headers {
        Some(headers) => req.replace_header_map(headers),
        None => req.header("User-Agent", "request-rs"),
    };
    let body = match body {
        Some(body) => body,
        None => Body::empty(),
    };
    req = match url.domain() {
        Some(host) => req.header("Host", host),
        None => {
            return Err(HttpError::new(ErrorKind::InvalidUrl(InvalidUrl::new("invalid url"))));
        },
    };
    let length = to_decimal(body.body_length());
    req.uri(url).header_bytes("Content-Length", length.as_slice()).body(body)
}

/// What the client makes of a decode attempt on everything that the server
/// sent: a complete response is the result, and a partial one means that the
/// stream ended too early.
pub fn finish(parsed: ParserResult<Response>) -> (r: Result<Response, HttpError>)
    ensures
        match parsed {
            ParserResult::Complete(response) => r == Ok::<Response, HttpError>(response),
            ParserResult::Partial => r matches Err(e) && e.kind() matches ErrorKind::IoError(io)
                && io.kind() == IoErrorKind::UnexpectedEof,
        },
{
    match parsed {
        ParserResult::Complete(response) => Ok(response),
        ParserResult::Partial => Err(
            HttpError::new(ErrorKind::IoError(IoError::from_kind(IoErrorKind::UnexpectedEof))),
        ),
    }
}

} // verus!
