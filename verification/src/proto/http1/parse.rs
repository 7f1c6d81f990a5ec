//! Encoding requests and decoding responses.

use crate::body::{Body, BodyKind, BodyView};
use crate::buffer::{append, buffer_from, bytes_of, contents, new_buffer, split_head};
use crate::error::{ErrorKind, Failure, HttpError, InvalidHeaderName, InvalidUrl, ToStrError};
use crate::header::{
    is_header_name, is_visible_text, lowered, HeaderMap, HeaderName, HeaderValue,
    MAX_HEADER_NAME_LEN,
};
use crate::method::Method;
use crate::proto::http1::{keep_alive_of, keep_alive_spec};
use crate::proto::ParserResult;
use crate::request::{Request, RequestView};
use crate::response::{Response, ResponseView};
use crate::status::{is_status_code, InvalidStatusCode, StatusCode};
use crate::text::wire;
use crate::tokenizer::{
    failure_kind, scan_head, tokenized, RawHead, RawHeadView, RawHeader, Scan,
};
use crate::uri::{Uri, UriView};
use crate::version::Version;
use bytes::BytesMut;
use vstd::prelude::*;
use vstd::slice::slice_subrange;
use vstd::string::StringSliceAdditionalSpecFns;

verus! {

/// The most headers that a response may have.
pub const MAX_HEADERS: usize = 100;

/// A half-open range of byte offsets.
#[derive(Clone, Copy, Debug, PartialEq, Eq, Structural)]
pub struct Range {
    pub start: usize,
    pub end: usize,
}

impl Range {
    pub fn new(start: usize, end: usize) -> (r: Self)
        ensures
            r == (Range { start: start, end: end }),
    {
        Self { start, end }
    }
}

/// Where the name and the value of one header lie in a buffer.
#[derive(Clone, Copy, Debug, PartialEq, Eq, Structural)]
pub struct HeaderIndices {
    pub name: Range,
    pub value: Range,
}

/// The ranges that a located header takes.
pub open spec fn span(header: RawHeader) -> HeaderIndices {
    HeaderIndices {
        name: Range {
            start: header.name_start,
            end: (header.name_start + header.name_len) as usize,
        },
        value: Range {
            start: header.value_start,
            end: (header.value_start + header.value_len) as usize,
        },
    }
}

/// Whether the name of a located header is longer than any name may be.
pub open spec fn oversized(header: RawHeader) -> bool {
    header.name_len > MAX_HEADER_NAME_LEN
}

/// Whether one of the first `count` headers has an oversized name.
pub open spec fn any_oversized(headers: Seq<RawHeader>, count: int) -> bool {
    exists|i: int| 0 <= i < count && i < headers.len() && oversized(#[trigger] headers[i])
}

/// As many entries as asked for, each an empty range at offset 0.
pub fn blank_indices(count: usize) -> (indices: Vec<HeaderIndices>)
    ensures
        indices@.len() == count,
        forall|i: int| 0 <= i < count ==> #[trigger] indices@[i] == (HeaderIndices {
            name: Range { start: 0, end: 0 },
            value: Range { start: 0, end: 0 },
        }),
{
    let mut indices: Vec<HeaderIndices> = Vec::with_capacity(count);
    let mut i: usize = 0;
    while i < count
        invariant
            i <= count,
            indices@.len() == i,
            forall|k: int| 0 <= k < i ==> #[trigger] indices@[k] == (HeaderIndices {
                name: Range { start: 0, end: 0 },
                value: Range { start: 0, end: 0 },
            }),
        decreases count - i,
    {
        indices.push(HeaderIndices { name: Range::new(0, 0), value: Range::new(0, 0) });
        i += 1;
    }
    indices
}

/// Records, for the headers that were located in `bytes`, the ranges of their
/// names and values, one entry per header from the front of `indices`, for as
/// many headers as there are entries. Stops with an error at the first header
/// whose name is longer than 65535 bytes; the entries before it are recorded.
pub fn record_header_indices(
    bytes: &[u8],
    headers: &[RawHeader],
    indices: &mut Vec<HeaderIndices>,
) -> (r: Result<(), HttpError>)
    requires
        forall|i: int| 0 <= i < headers@.len() ==> (#[trigger] headers@[i]).within(bytes@.len() as int),
    ensures
        final(indices)@.len() == old(indices)@.len(),
        r is Err <==> any_oversized(headers@, old(indices)@.len() as int),
        r matches Err(e) ==> e.failure() == Failure::HeaderName,
        forall|j: int|
            0 <= j < old(indices)@.len() ==> #[trigger] final(indices)@[j] == if j < headers@.len()
                && !any_oversized(headers@, j + 1) {
                span(headers@[j])
            } else {
                old(indices)@[j]
            },
{
    let len = bytes.len();
    let count = if headers.len() < indices.len() {
        headers.len()
    } else {
        indices.len()
    };
    let mut i: usize = 0;
    while i < count
        invariant
            i <= count,
            len == bytes@.len(),
            count <= headers@.len(),
            count <= indices@.len(),
            count == headers@.len() || count == indices@.len(),
            indices@.len() == old(indices)@.len(),
            forall|k: int| 0 <= k < headers@.len() ==> (#[trigger] headers@[k]).within(bytes@.len() as int),
            forall|k: int| 0 <= k < i ==> !oversized(#[trigger] headers@[k]),
            forall|j: int|
                0 <= j < indices@.len() ==> #[trigger] indices@[j] == if j < i {
                    span(headers@[j])
                } else {
                    old(indices)@[j]
                },
        decreases count - i,
    {
        let header = headers[i];
        if header.name_len > MAX_HEADER_NAME_LEN {
            assert(any_oversized(headers@, old(indices)@.len() as int));
            assert forall|j: int| 0 <= j < old(indices)@.len() implies #[trigger] indices@[j] == if j
                < headers@.len() && !any_oversized(headers@, j + 1) {
                span(headers@[j])
            } else {
                old(indices)@[j]
            } by {
                if j >= i {
                    assert(oversized(headers@[i as int]));
                    assert(any_oversized(headers@, j + 1));
                }
            }
            return Err(HttpError::new(ErrorKind::HeaderName(InvalidHeaderName {})));
        }
        assert(header.within(len as int));
        let entry = HeaderIndices {
            name: Range::new(header.name_start, header.name_start + header.name_len),
            value: Range::new(header.value_start, header.value_start + header.value_len),
        };
        indices.set(i, entry);
        i += 1;
    }
    Ok(())
}

/// How a decode attempt ended, as mathematical values.
pub enum Decoded {
    /// The response was decoded.
    Complete(ResponseView),
    /// The bytes end before the message head does.
    Partial,
    /// The bytes are no response.
    Failed(Failure),
}

/// Everything that a decode attempt leaves behind.
pub struct ParseOutcome {
    /// How the attempt ended.
    pub decoded: Decoded,
    /// What the buffer holds afterwards.
    pub rest: Seq<u8>,
    /// The keep-alive decision that the parser holds afterwards.
    pub keep_alive: bool,
}

/// The bytes of the name of a located header.
pub open spec fn name_bytes(bytes: Seq<u8>, header: RawHeader) -> Seq<u8> {
    bytes.subrange(header.name_start as int, header.name_start + header.name_len)
}

/// The bytes of the value of a located header.
pub open spec fn value_bytes(bytes: Seq<u8>, header: RawHeader) -> Seq<u8> {
    bytes.subrange(header.value_start as int, header.value_start + header.value_len)
}

/// The headers of a decoded response: one entry per located header, in the
/// order of the wire, the name in lower case and the value as it stands.
pub open spec fn decoded_headers(head: RawHeadView, bytes: Seq<u8>) -> Seq<(Seq<u8>, Seq<u8>)> {
    Seq::new(
        head.headers.len(),
        |i: int| (lowered(name_bytes(bytes, head.headers[i])), value_bytes(bytes, head.headers[i])),
    )
}

/// The bytes behind the message head.
pub open spec fn body_bytes(head: RawHeadView, bytes: Seq<u8>) -> Seq<u8> {
    bytes.subrange(head.consumed as int, bytes.len() as int)
}

/// The response that a complete head and the bytes behind it stand for.
pub open spec fn decoded_response(head: RawHeadView, bytes: Seq<u8>) -> ResponseView {
    ResponseView {
        status: head.code->0,
        version: Version::of_minor(head.minor_version),
        headers: decoded_headers(head, bytes),
        body: BodyView::Binary(body_bytes(head, bytes)),
    }
}

/// Whether the status code of the head is missing or has no three digits.
pub open spec fn bad_status(head: RawHeadView) -> bool {
    head.code is None || !is_status_code(head.code->0 as int)
}

/// Whether the bytes of some located name are no header name.
pub open spec fn any_bad_name(head: RawHeadView, bytes: Seq<u8>) -> bool {
    exists|i: int| 0 <= i < head.headers.len() && !is_header_name(#[trigger] name_bytes(bytes, head.headers[i]))
}

/// What decoding makes of a complete head. A bad status code or an oversized
/// header name is an error that leaves the buffer as it was. After that the
/// head is taken off the buffer, which then holds the body; a name that is no
/// header name is still an error. Otherwise the response is complete, its
/// body is everything behind the head, and the keep-alive decision follows
/// from its version and headers. An error keeps the earlier decision.
pub open spec fn decode_spec(head: RawHeadView, bytes: Seq<u8>, keep_alive: bool) -> ParseOutcome {
    if bad_status(head) {
        ParseOutcome { decoded: Decoded::Failed(Failure::StatusCode), rest: bytes, keep_alive }
    } else if any_oversized(head.headers, head.headers.len() as int) {
        ParseOutcome { decoded: Decoded::Failed(Failure::HeaderName), rest: bytes, keep_alive }
    } else if any_bad_name(head, bytes) {
        ParseOutcome {
            decoded: Decoded::Failed(Failure::HeaderName),
            rest: body_bytes(head, bytes),
            keep_alive,
        }
    } else {
        ParseOutcome {
            decoded: Decoded::Complete(decoded_response(head, bytes)),
            rest: body_bytes(head, bytes),
            keep_alive: keep_alive_spec(
                Version::of_minor(head.minor_version),
                decoded_headers(head, bytes),
            ),
        }
    }
}

/// What a decode attempt makes of the bytes. Where the tokenizer fails, so
/// does the attempt; where it runs out of bytes, the attempt is partial; and
/// in both cases nothing changes. A complete head is decoded.
pub open spec fn parse_spec(bytes: Seq<u8>, keep_alive: bool) -> ParseOutcome {
    match tokenized(bytes, MAX_HEADERS) {
        Scan::Failed(kind) => ParseOutcome {
            decoded: Decoded::Failed(Failure::Tokenizer(kind)),
            rest: bytes,
            keep_alive,
        },
        Scan::Partial => ParseOutcome { decoded: Decoded::Partial, rest: bytes, keep_alive },
        Scan::Complete(head) => decode_spec(head, bytes, keep_alive),
    }
}

/// A located header name of more than 65535 bytes makes decoding fail: the
/// outcome is an error, never a partial result or a response, and the buffer
/// stays as it was.
pub proof fn lemma_oversized_name_rejected(head: RawHeadView, bytes: Seq<u8>, keep_alive: bool, at: int)
    requires
        0 <= at < head.headers.len(),
        head.headers[at].name_len > 65535,
    ensures
        decode_spec(head, bytes, keep_alive).decoded is Failed,
        decode_spec(head, bytes, keep_alive).rest == bytes,
        tokenized(bytes, MAX_HEADERS) == Scan::Complete(head) ==> parse_spec(
            bytes,
            keep_alive,
        ).decoded is Failed,
{
    assert(oversized(head.headers[at]));
    assert(any_oversized(head.headers, head.headers.len() as int));
}

/// Decoding does not depend on what was decoded before: on the same bytes it
/// ends the same way, with an equal response, leaves the same bytes in the
/// buffer, and where it completes it reaches the same keep-alive decision.
pub proof fn lemma_decode_again(bytes: Seq<u8>, first: bool, second: bool)
    ensures
        parse_spec(bytes, first).decoded == parse_spec(bytes, second).decoded,
        parse_spec(bytes, first).rest == parse_spec(bytes, second).rest,
        parse_spec(bytes, first).decoded is Complete ==> parse_spec(bytes, first).keep_alive
            == parse_spec(bytes, second).keep_alive,
{
}

/// An attempt is partial exactly where the tokenizer ran out of bytes, and a
/// partial attempt changes neither the buffer nor the keep-alive decision.
pub proof fn lemma_partial_changes_nothing(bytes: Seq<u8>, keep_alive: bool)
    ensures
        parse_spec(bytes, keep_alive).decoded is Partial ==> parse_spec(bytes, keep_alive).rest
            == bytes && parse_spec(bytes, keep_alive).keep_alive == keep_alive,
        parse_spec(bytes, keep_alive).decoded is Partial <==> tokenized(bytes, MAX_HEADERS) is Partial,
{
}

/// How a decode attempt ended, as mathematical values.
pub open spec fn decoded_of(r: Result<ParserResult<Response>, HttpError>) -> Decoded {
    match r {
        Ok(ParserResult::Complete(response)) => Decoded::Complete(response@),
        Ok(ParserResult::Partial) => Decoded::Partial,
        Err(e) => Decoded::Failed(e.failure()),
    }
}

/// Decodes responses, and remembers after each whether the connection may be
/// used again.
#[derive(Debug)]
pub struct ResponseParser {
    keep_alive: bool,
}

impl ResponseParser {
    /// The keep-alive decision that the parser holds.
    pub closed spec fn keeps_alive(&self) -> bool {
        self.keep_alive
    }

    /// A parser that has decided nothing yet: no keep-alive.
    pub fn new() -> (parser: Self)
        ensures
            !parser.keeps_alive(),
    {
        Self { keep_alive: false }
    }

    /// Whether the connection may be used again after the response that was
    /// decoded last.
    pub fn keep_alive(&self) -> (r: bool)
        ensures
            r == self.keeps_alive(),
    {
        self.keep_alive
    }

    /// Decodes the response whose head the tokenizer has located in `buf`.
    #[verifier::loop_isolation(false)]
    pub fn decode(&mut self, buf: &mut BytesMut, head: &RawHead) -> (r: Result<
        ParserResult<Response>,
        HttpError,
    >)
        requires
            head@.fits(contents(*old(buf)).len() as int, MAX_HEADERS as int),
        ensures
            (ParseOutcome {
                decoded: decoded_of(r),
                rest: contents(*final(buf)),
                keep_alive: final(self).keeps_alive(),
            }) == decode_spec(head@, contents(*old(buf)), old(self).keeps_alive()),
    {
        let ghost bytes = contents(*buf);
        let code = match head.code {
            Some(code) => code,
            None => {
                return Err(HttpError::new(ErrorKind::StatusCode(InvalidStatusCode {})));
            },
        };
        let status = match StatusCode::from_u16(code) {
            Ok(status) => status,
            Err(e) => {
                return Err(HttpError::new(ErrorKind::StatusCode(e)));
            },
        };
        let version = Version::from_minor(head.minor_version);
        let header_len = head.headers.len();
        let mut indices = blank_indices(MAX_HEADERS);
        match record_header_indices(bytes_of(buf), head.headers.as_slice(), &mut indices) {
            Ok(()) => {},
            Err(e) => {
                return Err(e);
            },
        }
        assert(!any_oversized(head@.headers, head@.headers.len() as int));
        let head_buf = split_head(buf, head.consumed);
        let head_bytes = bytes_of(&head_buf);
        let mut header_map = HeaderMap::with_capacity(header_len);
        let mut i: usize = 0;
        while i < header_len
            invariant
                i <= header_len,
                header_len == head@.headers.len(),
                header_len <= indices@.len(),
                head@.fits(bytes.len() as int, MAX_HEADERS as int),
                head_bytes@ == bytes.subrange(0, head@.consumed as int),
                forall|j: int| 0 <= j < header_len ==> #[trigger] indices@[j] == span(head@.headers[j]),
                forall|j: int| 0 <= j < i ==> is_header_name(#[trigger] name_bytes(bytes, head@.headers[j])),
                header_map@ == decoded_headers(head@, bytes).subrange(0, i as int),
            decreases header_len - i,
        {
            let at = indices[i];
            let ghost located = head@.headers[i as int];
            assert(located.within(head@.consumed as int));
            let name_slice = slice_subrange(head_bytes, at.name.start, at.name.end);
            assert(name_slice@ =~= name_bytes(bytes, located));
            let name = match HeaderName::from_bytes(name_slice) {
                Ok(name) => name,
                Err(e) => {
                    assert(any_bad_name(head@, bytes));
                    return Err(HttpError::new(ErrorKind::HeaderName(e)));
                },
            };
            let value_slice = slice_subrange(head_bytes, at.value.start, at.value.end);
            assert(value_slice@ =~= value_bytes(bytes, located));
            let value = HeaderValue::from_raw(value_slice);
            header_map.append(name, value);
            assert(header_map@ =~= decoded_headers(head@, bytes).subrange(0, i + 1));
            i += 1;
        }
        assert(header_map@ =~= decoded_headers(head@, bytes));
        assert(!any_bad_name(head@, bytes));
        self.keep_alive = keep_alive_of(version, &header_map);
        let body = buffer_from(bytes_of(buf));
        Ok(
            ParserResult::Complete(
                Response::new(status, version, header_map, Body::new(BodyKind::Binary(body))),
            ),
        )
    }

    /// Decodes the response at the front of `buf`.
    pub fn parse(&mut self, buf: &mut BytesMut) -> (r: Result<ParserResult<Response>, HttpError>)
        ensures
            (ParseOutcome {
                decoded: decoded_of(r),
                rest: contents(*final(buf)),
                keep_alive: final(self).keeps_alive(),
            }) == parse_spec(contents(*old(buf)), old(self).keeps_alive()),
    {
        match scan_head(bytes_of(buf), MAX_HEADERS) {
            Err(e) => Err(HttpError::new(ErrorKind::Tokenizer(failure_kind(e)))),
            Ok(None) => Ok(ParserResult::Partial),
            Ok(Some(head)) => self.decode(buf, &head),
        }
    }
}

/// The first line of a request: method, target and version, with one space
/// between them and a line break behind.
pub open spec fn request_line(method: Method, uri: UriView, version: Version) -> Seq<u8> {
    wire(method.token()) + wire(" "@) + uri.target() + wire(" "@) + wire(version.token()) + wire(
        "\r\n"@,
    )
}

/// One header on the wire: the name, a colon and a space, the value, and a
/// line break.
pub open spec fn header_line(name: Seq<u8>, value: Seq<u8>) -> Seq<u8> {
    name + wire(": "@) + value + wire("\r\n"@)
}

/// The headers on the wire: one line each, in their order.
pub open spec fn header_block(headers: Seq<(Seq<u8>, Seq<u8>)>) -> Seq<u8>
    decreases headers.len(),
{
    if headers.len() == 0 {
        Seq::empty()
    } else {
        header_block(headers.drop_last()) + header_line(headers.last().0, headers.last().1)
    }
}

/// Whether the values of the first `count` headers are all visible text.
pub open spec fn values_visible(headers: Seq<(Seq<u8>, Seq<u8>)>, count: int) -> bool {
    forall|i: int| 0 <= i < count && i < headers.len() ==> is_visible_text((#[trigger] headers[i]).1)
}

/// Why a request cannot be encoded, if it cannot: it has no URL, or one of
/// its header values is not visible text.
pub open spec fn encode_failure(request: RequestView) -> Option<Failure> {
    if request.uri is None {
        Some(Failure::InvalidUrl)
    } else if !values_visible(request.headers, request.headers.len() as int) {
        Some(Failure::ToStrError)
    } else {
        None
    }
}

/// A request on the wire: the request line, the headers, an empty line, and
/// the body as it stands.
pub open spec fn encoded(request: RequestView) -> Seq<u8> {
    request_line(request.method, request.uri->0, request.version) + header_block(request.headers)
        + wire("\r\n"@) + request.body.payload()
}

/// The headers of two lists, one after the other, are on the wire the first
/// block followed by the second: encoding keeps the order of the headers and
/// neither merges nor drops one.
pub proof fn lemma_header_block_concat(a: Seq<(Seq<u8>, Seq<u8>)>, b: Seq<(Seq<u8>, Seq<u8>)>)
    ensures
        header_block(a + b) == header_block(a) + header_block(b),
    decreases b.len(),
{
    if b.len() == 0 {
        assert(a + b =~= a);
        assert(header_block(a) + header_block(b) =~= header_block(a));
    } else {
        lemma_header_block_concat(a, b.drop_last());
        assert((a + b).drop_last() =~= a + b.drop_last());
        assert((a + b).last() == b.last());
        assert(header_block(a + b) =~= header_block(a) + header_block(b));
    }
}

/// A request on the wire is the same request without a body, followed at once
/// by the bytes of the body.
pub proof fn lemma_body_follows_head(request: RequestView)
    ensures
        encoded(request) == encoded(RequestView { body: BodyView::Empty, ..request })
            + request.body.payload(),
{
    assert(encoded(request) =~= encoded(RequestView { body: BodyView::Empty, ..request })
        + request.body.payload());
}

/// A request on the wire begins with its request line.
pub proof fn lemma_starts_with_request_line(request: RequestView)
    ensures
        request_line(request.method, request.uri->0, request.version).is_prefix_of(
            encoded(request),
        ),
{
}

/// Encodes requests.
#[derive(Debug)]
pub struct RequestParser {}

impl RequestParser {
    /// Encodes a request: request line, headers, empty line, body.
    fn ready(req: &Request) -> (r: Result<BytesMut, HttpError>)
        ensures
            match encode_failure(req@) {
                Some(failure) => r matches Err(e) && e.failure() == failure,
                None => r matches Ok(buf) && contents(buf) == encoded(req@),
            },
    {
        let url = match req.uri() {
            Some(url) => url,
            None => {
                return Err(HttpError::new(ErrorKind::InvalidUrl(InvalidUrl::new("missing url"))));
            },
        };
        let mut buf = new_buffer();
        Self::ready_start_line(&mut buf, req, url);
        match Self::ready_headers(&mut buf, req) {
            Ok(()) => {},
            Err(e) => {
                return Err(e);
            },
        }
        Self::end_of_headers(&mut buf);
        Self::ready_body(&mut buf, req);
        assert(contents(buf) =~= encoded(req@));
        Ok(buf)
    }

    /// Appends the empty line that ends the headers.
    fn end_of_headers(buf: &mut BytesMut)
        ensures
            contents(*final(buf)) == contents(*old(buf)) + wire("\r\n"@),
    {
        append(buf, "\r\n".as_bytes());
    }

    /// Appends the request line.
    fn ready_start_line(buf: &mut BytesMut, req: &Request, url: &Uri)
        ensures
            contents(*final(buf)) == contents(*old(buf)) + request_line(
                req@.method,
                url@,
                req@.version,
            ),
    {
        append(buf, req.method().as_str().as_bytes());
        append(buf, " ".as_bytes());
        append(buf, url.path().as_bytes());
        match url.query() {
            Some(query) => {
                append(buf, "?".as_bytes());
                append(buf, query.as_bytes());
            },
            None => {},
        }
        append(buf, " ".as_bytes());
        append(buf, req.version().as_str().as_bytes());
        append(buf, "\r\n".as_bytes());
        assert(contents(*buf) =~= contents(*old(buf)) + request_line(
            req@.method,
            url@,
            req@.version,
        ));
    }

    /// Appends the body as it stands.
    fn ready_body(buf: &mut BytesMut, req: &Request)
        ensures
            contents(*final(buf)) == contents(*old(buf)) + req@.body.payload(),
    {
        match req.body().kind() {
            BodyKind::Text(text) => {
                append(buf, text.as_str().as_bytes());
            },
            BodyKind::Binary(binary) => {
                append(buf, bytes_of(binary));
            },
            BodyKind::Empty => {
                assert(contents(*buf) =~= contents(*old(buf)) + req@.body.payload());
            },
        }
    }

    /// Appends the headers, one line each, in their order. Stops with an error
    /// at the first header whose value is not visible text; the lines before
    /// it are appended.
    fn ready_headers(buf: &mut BytesMut, req: &Request) -> (r: Result<(), HttpError>)
        ensures
            match r {
                Ok(()) => values_visible(req@.headers, req@.headers.len() as int) && contents(
                    *final(buf),
                ) == contents(*old(buf)) + header_block(req@.headers),
                Err(e) => e.failure() == Failure::ToStrError && exists|k: int|
                    0 <= k < req@.headers.len() && !is_visible_text((#[trigger] req@.headers[k]).1)
                        && values_visible(req@.headers, k) && contents(*final(buf)) == contents(
                        *old(buf),
                    ) + header_block(req@.headers.subrange(0, k)),
            },
    {
        let headers = req.headers();
        let mut i: usize = 0;
        assert(header_block(headers@.subrange(0, 0)) =~= Seq::<u8>::empty());
        assert(contents(*buf) =~= contents(*old(buf)) + header_block(headers@.subrange(0, 0)));
        while i < headers.len()
            invariant
                i <= headers@.len(),
                headers@ == req@.headers,
                values_visible(headers@, i as int),
                contents(*buf) == contents(*old(buf)) + header_block(headers@.subrange(0, i as int)),
            decreases headers@.len() - i,
        {
            let value = match headers.value_at(i).to_visible() {
                Some(value) => value,
                None => {
                    assert(!is_visible_text(headers@[i as int].1));
                    return Err(HttpError::new(ErrorKind::ToStrError(ToStrError {})));
                },
            };
            let ghost before = contents(*buf);
            append(buf, headers.name_at(i).as_bytes());
            append(buf, ": ".as_bytes());
            append(buf, value);
            append(buf, "\r\n".as_bytes());
            proof {
                let next = headers@.subrange(0, i + 1);
                assert(next.drop_last() =~= headers@.subrange(0, i as int));
                assert(next.last() == headers@[i as int]);
                assert(contents(*buf) =~= before + header_line(
                    headers@[i as int].0,
                    headers@[i as int].1,
                ));
                assert(contents(*buf) =~= contents(*old(buf)) + header_block(next));
            }
            i += 1;
        }
        assert(headers@.subrange(0, i as int) =~= headers@);
        Ok(())
    }

    /// Encodes a request as the bytes to send: the request line, the headers
    /// in their order, an empty line, and the body as it stands. Fails where
    /// the request has no URL or a header value is not visible text.
    pub fn encode(from: Request) -> (r: Result<BytesMut, HttpError>)
        ensures
            match encode_failure(from@) {
                Some(failure) => r matches Err(e) && e.failure() == failure,
                None => r matches Ok(buf) && contents(buf) == encoded(from@),
            },
    {
        Self::ready(&from)
    }
}

} // verus!
