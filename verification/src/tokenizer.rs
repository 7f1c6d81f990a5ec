//! The low-level status-line and header tokenizer, and the plain values that
//! the decoder reads from it.

use vstd::prelude::*;

verus! {

/// Where the tokenizer found one header: offsets into the scanned bytes.
#[derive(Clone, Copy, Debug)]
pub struct RawHeader {
    pub name_start: usize,
    pub name_len: usize,
    pub value_start: usize,
    pub value_len: usize,
}

/// What the tokenizer found in a complete message head.
#[derive(Debug)]
pub struct RawHead {
    /// Length of the head, the terminating blank line included.
    pub consumed: usize,
    pub code: Option<u16>,
    pub minor_version: Option<u8>,
    pub headers: Vec<RawHeader>,
}

/// What the tokenizer found in a complete message head, as mathematical values.
pub struct RawHeadView {
    pub consumed: usize,
    pub code: Option<u16>,
    pub minor_version: Option<u8>,
    pub headers: Seq<RawHeader>,
}

impl View for RawHead {
    type V = RawHeadView;

    open spec fn view(&self) -> RawHeadView {
        RawHeadView {
            consumed: self.consumed,
            code: self.code,
            minor_version: self.minor_version,
            headers: self.headers@,
        }
    }
}

impl RawHeader {
    /// Whether name and value lie in the first `len` bytes.
    pub open spec fn within(self, len: int) -> bool {
        self.name_start + self.name_len <= len && self.value_start + self.value_len <= len
    }
}

impl RawHeadView {
    /// Whether the head is one of a buffer of `len` bytes that was scanned
    /// for at most `max_headers` headers: it ends in the buffer, every header
    /// lies in it, and there are no more headers than were asked for.
    pub open spec fn fits(self, len: int, max_headers: int) -> bool {
        &&& self.consumed <= len
        &&& self.headers.len() <= max_headers
        &&& forall|i: int| 0 <= i < self.headers.len() ==> (#[trigger] self.headers[i]).within(self.consumed as int)
    }
}

/// How a scan of a message head ends.
pub enum Scan {
    /// The head is complete.
    Complete(RawHeadView),
    /// The bytes end before the head does.
    Partial,
    /// The bytes are no message head.
    Failed(TokenizerFailure),
}

/// What `httparse::Response::parse` makes of the bytes when it is given room
/// for `max_headers` headers.
pub uninterp spec fn tokenized(buf: Seq<u8>, max_headers: usize) -> Scan;

/// How a scan ended, as mathematical values.
pub open spec fn scan_of(r: Result<Option<RawHead>, httparse::Error>) -> Scan {
    match r {
        Ok(Some(head)) => Scan::Complete(head@),
        Ok(None) => Scan::Partial,
        Err(e) => Scan::Failed(failure_kind_spec(e)),
    }
}

/// Why the tokenizer rejected its input.
#[derive(Clone, Copy, Debug, PartialEq, Eq, Structural)]
pub enum TokenizerFailure {
    HeaderName,
    HeaderValue,
    NewLine,
    Status,
    Token,
    TooManyHeaders,
    Version,
}

/// `httparse::Error`, the tokenizer's error, with its variants as the
/// tokenizer declares them.
#[verifier::external_type_specification]
pub struct ExTokenizerError(httparse::Error);

/// The library's name for each way the tokenizer can fail.
pub fn failure_kind(e: httparse::Error) -> (k: TokenizerFailure)
    ensures
        k == failure_kind_spec(e),
{
    match e {
        httparse::Error::HeaderName => TokenizerFailure::HeaderName,
        httparse::Error::HeaderValue => TokenizerFailure::HeaderValue,
        httparse::Error::NewLine => TokenizerFailure::NewLine,
        httparse::Error::Status => TokenizerFailure::Status,
        httparse::Error::Token => TokenizerFailure::Token,
        httparse::Error::TooManyHeaders => TokenizerFailure::TooManyHeaders,
        httparse::Error::Version => TokenizerFailure::Version,
    }
}

/// The library's name for each way the tokenizer can fail.
pub open spec fn failure_kind_spec(e: httparse::Error) -> TokenizerFailure {
    match e {
        httparse::Error::HeaderName => TokenizerFailure::HeaderName,
        httparse::Error::HeaderValue => TokenizerFailure::HeaderValue,
        httparse::Error::NewLine => TokenizerFailure::NewLine,
        httparse::Error::Status => TokenizerFailure::Status,
        httparse::Error::Token => TokenizerFailure::Token,
        httparse::Error::TooManyHeaders => TokenizerFailure::TooManyHeaders,
        httparse::Error::Version => TokenizerFailure::Version,
    }
}

/// `httparse::Response::parse` on a fresh `httparse::Response` with room for
/// `max_headers` headers. A complete head comes back as plain values: the
/// number of bytes that the head takes, the status code and minor version that
/// the parser stored, and for each header where its name and its value (both
/// sub-slices of `buf`) start in `buf` and how long they are. What the parser
/// makes of which bytes goes by the name `tokenized`. Stated beside it: the
/// head ends inside `buf`, names and values lie inside the head, and no more
/// headers come back than there was room for.
#[verifier::external_body]
pub(crate) fn scan_head(buf: &[u8], max_headers: usize) -> (r: Result<Option<RawHead>, httparse::Error>)
    ensures
        scan_of(r) == tokenized(buf@, max_headers),
        r matches Ok(Some(head)) ==> head@.fits(buf@.len() as int, max_headers as int),
{
    let mut slots = vec![httparse::EMPTY_HEADER; max_headers];
    let mut resp = httparse::Response::new(&mut slots);
    let base = buf.as_ptr() as usize;
    let consumed = match resp.parse(buf)? {
        httparse::Status::Partial => return Ok(None),
        httparse::Status::Complete(n) => n,
    };
    let headers = resp.headers.iter().map(|h| RawHeader {
        name_start: h.name.as_ptr() as usize - base, name_len: h.name.len(),
        value_start: h.value.as_ptr() as usize - base, value_len: h.value.len(),
    }).collect();
    Ok(Some(RawHead { consumed, code: resp.code, minor_version: resp.version, headers }))
}

} // verus!
