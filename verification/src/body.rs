//! The payload of a message.

use crate::buffer::{buffer_from, buffer_len, bytes_of, contents};
use crate::text::wire;
use bytes::BytesMut;
use vstd::prelude::*;
use vstd::slice::slice_to_vec;
use vstd::string::StringSliceAdditionalSpecFns;

verus! {

/// What a body holds.
#[derive(Clone, Debug)]
pub enum BodyKind {
    /// Text, sent as its UTF-8 bytes.
    Text(String),
    /// Raw bytes.
    Binary(BytesMut),
    /// Nothing.
    Empty,
}

/// What a body holds, as mathematical values.
pub enum BodyView {
    Text(Seq<char>),
    Binary(Seq<u8>),
    Empty,
}

impl BodyView {
    /// The bytes that the body puts on the wire.
    pub open spec fn payload(self) -> Seq<u8> {
        match self {
            BodyView::Text(text) => wire(text),
            BodyView::Binary(bytes) => bytes,
            BodyView::Empty => Seq::empty(),
        }
    }
}

impl View for BodyKind {
    type V = BodyView;

    open spec fn view(&self) -> BodyView {
        match self {
            BodyKind::Text(text) => BodyView::Text(text@),
            BodyKind::Binary(bytes) => BodyView::Binary(contents(*bytes)),
            BodyKind::Empty => BodyView::Empty,
        }
    }
}

/// The body of a request or of a response.
#[derive(Clone, Debug)]
pub struct Body {
    kind: BodyKind,
}

impl View for Body {
    type V = BodyView;

    closed spec fn view(&self) -> BodyView {
        self.kind@
    }
}

impl Body {
    /// A body that holds nothing.
    pub fn empty() -> (body: Self)
        ensures
            body@ == BodyView::Empty,
    {
        Self::new(BodyKind::Empty)
    }

    /// A body of the given kind.
    pub fn new(kind: BodyKind) -> (body: Self)
        ensures
            body@ == kind@,
    {
        Self { kind }
    }

    /// A binary body that holds a copy of the bytes.
    pub fn from_bytes(bytes: &[u8]) -> (body: Self)
        ensures
            body@ == BodyView::Binary(bytes@),
    {
        Body::new(BodyKind::Binary(buffer_from(bytes)))
    }

    /// A text body that holds a copy of the text.
    pub fn from_str(text: &str) -> (body: Self)
        ensures
            body@ == BodyView::Text(text@),
    {
        Body::new(BodyKind::Text(text.to_owned()))
    }

    /// A text body that holds the text.
    pub fn from_string(text: String) -> (body: Self)
        ensures
            body@ == BodyView::Text(text@),
    {
        Body::new(BodyKind::Text(text))
    }

    /// A binary body that holds a copy of the bytes.
    pub fn from_vec(vec: Vec<u8>) -> (body: Self)
        ensures
            body@ == BodyView::Binary(vec@),
    {
        Body::new(BodyKind::Binary(buffer_from(vec.as_slice())))
    }

    /// The number of bytes that the body puts on the wire.
    pub fn body_length(&self) -> (n: usize)
        ensures
            n == self@.payload().len(),
    {
        match &self.kind {
            BodyKind::Text(text) => text.as_str().as_bytes().len(),
            BodyKind::Binary(binary) => buffer_len(binary),
            BodyKind::Empty => 0,
        }
    }

    /// What the body holds.
    pub fn kind(&self) -> (kind: &BodyKind)
        ensures
            kind@ == self@,
    {
        &self.kind
    }

    /// A copy of the bytes that the body puts on the wire.
    pub fn to_vec(&self) -> (bytes: Vec<u8>)
        ensures
            bytes@ == self@.payload(),
    {
        match &self.kind {
            BodyKind::Text(text) => slice_to_vec(text.as_str().as_bytes()),
            BodyKind::Binary(binary) => slice_to_vec(bytes_of(binary)),
            BodyKind::Empty => Vec::new(),
        }
    }
}

} // verus!
