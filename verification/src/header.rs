//! Header names, header values and the ordered collection of both.

use crate::error::{InvalidHeaderName, InvalidHeaderValue};
use vstd::prelude::*;
use vstd::string::StringSliceAdditionalSpecFns;

verus! {

/// The longest header name, in bytes.
pub const MAX_HEADER_NAME_LEN: usize = 65535;

/// Whether a byte may stand in a header name: a letter, a digit, or one of
/// ``! # $ % & ' * + - . ^ _ ` | ~``.
pub open spec fn is_token_byte(b: u8) -> bool {
    ||| 0x30 <= b <= 0x39
    ||| 0x41 <= b <= 0x5a
    ||| 0x61 <= b <= 0x7a
    ||| b == 0x21
    ||| 0x23 <= b <= 0x27
    ||| b == 0x2a
    ||| b == 0x2b
    ||| b == 0x2d
    ||| b == 0x2e
    ||| b == 0x5e
    ||| b == 0x5f
    ||| b == 0x60
    ||| b == 0x7c
    ||| b == 0x7e
}

/// The byte with an upper-case ASCII letter made lower case.
pub open spec fn lower(b: u8) -> u8 {
    if 0x41 <= b <= 0x5a {
        (b + 0x20) as u8
    } else {
        b
    }
}

/// The bytes with every upper-case ASCII letter made lower case.
pub open spec fn lowered(s: Seq<u8>) -> Seq<u8> {
    Seq::new(s.len(), |i: int| lower(s[i]))
}

/// Whether the bytes are a header name, in any letter case.
pub open spec fn is_header_name(s: Seq<u8>) -> bool {
    &&& 1 <= s.len() <= MAX_HEADER_NAME_LEN
    &&& forall|i: int| 0 <= i < s.len() ==> is_token_byte(#[trigger] s[i])
}

/// Whether a byte may stand in a header value: a tab, or anything from the
/// space upwards but DEL.
pub open spec fn is_value_byte(b: u8) -> bool {
    (b >= 0x20 && b != 0x7f) || b == 0x09
}

/// Whether a byte is a tab or printable ASCII.
pub open spec fn is_visible_byte(b: u8) -> bool {
    (0x20 <= b < 0x7f) || b == 0x09
}

/// Whether the bytes are all tabs and printable ASCII.
pub open spec fn is_visible_text(s: Seq<u8>) -> bool {
    forall|i: int| 0 <= i < s.len() ==> is_visible_byte(#[trigger] s[i])
}

pub fn token_byte(b: u8) -> (r: bool)
    ensures
        r == is_token_byte(b),
{
    (0x30 <= b && b <= 0x39) || (0x41 <= b && b <= 0x5a) || (0x61 <= b && b <= 0x7a) || b == 0x21
        || (0x23 <= b && b <= 0x27) || b == 0x2a || b == 0x2b || b == 0x2d || b == 0x2e || b == 0x5e
        || b == 0x5f || b == 0x60 || b == 0x7c || b == 0x7e
}

pub fn lower_byte(b: u8) -> (r: u8)
    ensures
        r == lower(b),
{
    if 0x41 <= b && b <= 0x5a {
        b + 0x20
    } else {
        b
    }
}

/// Lowering keeps a name a name, and lowering twice is lowering once.
pub proof fn lemma_lowered_name(s: Seq<u8>)
    requires
        is_header_name(s),
    ensures
        is_header_name(lowered(s)),
        lowered(lowered(s)) == lowered(s),
{
    assert forall|i: int| 0 <= i < s.len() implies is_token_byte(#[trigger] lowered(s)[i]) by {
        assert(is_token_byte(s[i]));
    }
    assert(lowered(lowered(s)) =~= lowered(s));
}

/// A header name: one to 65535 token bytes, held in lower case.
#[derive(Debug)]
pub struct HeaderName {
    bytes: Vec<u8>,
}

impl Clone for HeaderName {
    fn clone(&self) -> (name: HeaderName)
        ensures
            name@ == self@,
    {
        proof {
            use_type_invariant(self);
        }
        let bytes = self.bytes.clone();
        assert(bytes@ =~= self.bytes@);
        HeaderName { bytes }
    }
}

impl View for HeaderName {
    type V = Seq<u8>;

    closed spec fn view(&self) -> Seq<u8> {
        self.bytes@
    }
}

impl HeaderName {
    #[verifier::type_invariant]
    spec fn lower_case_name(self) -> bool {
        is_header_name(self.bytes@) && lowered(self.bytes@) == self.bytes@
    }

    /// The name that the bytes spell, in lower case; an error where the bytes
    /// are no header name.
    pub fn from_bytes(src: &[u8]) -> (r: Result<HeaderName, InvalidHeaderName>)
        ensures
            r is Ok <==> is_header_name(src@),
            r matches Ok(name) ==> name@ == lowered(src@),
    {
        if src.len() == 0 || src.len() > MAX_HEADER_NAME_LEN {
            return Err(InvalidHeaderName {});
        }
        let mut bytes: Vec<u8> = Vec::with_capacity(src.len());
        let mut i: usize = 0;
        while i < src.len()
            invariant
                i <= src.len(),
                bytes@.len() == i,
                forall|k: int| 0 <= k < i ==> is_token_byte(#[trigger] src@[k]),
                forall|k: int| 0 <= k < i ==> #[trigger] bytes@[k] == lower(src@[k]),
            decreases src.len() - i,
        {
            let b = src[i];
            if !token_byte(b) {
                return Err(InvalidHeaderName {});
            }
            bytes.push(lower_byte(b));
            i += 1;
        }
        proof {
            assert(bytes@ =~= lowered(src@));
            lemma_lowered_name(src@);
        }
        Ok(HeaderName { bytes })
    }

    /// The name that the text spells, in lower case.
    pub fn from_str(src: &str) -> (r: Result<HeaderName, InvalidHeaderName>)
        ensures
            r is Ok <==> is_header_name(src.spec_bytes()),
            r matches Ok(name) ==> name@ == lowered(src.spec_bytes()),
    {
        Self::from_bytes(src.as_bytes())
    }

    pub fn as_bytes(&self) -> (s: &[u8])
        ensures
            s@ == self@,
            is_header_name(self@),
            lowered(self@) == self@,
    {
        proof {
            use_type_invariant(self);
        }
        self.bytes.as_slice()
    }

    /// Whether this is the name that `other` spells, letter case aside.
    pub fn is(&self, other: &str) -> (r: bool)
        ensures
            r == (self@ == lowered(other.spec_bytes())),
    {
        proof {
            use_type_invariant(self);
        }
        let o = other.as_bytes();
        if o.len() != self.bytes.len() {
            assert(self@.len() != lowered(o@).len());
            return false;
        }
        let mut i: usize = 0;
        while i < o.len()
            invariant
                i <= o.len(),
                o.len() == self.bytes.len(),
                o@ == other.spec_bytes(),
                forall|k: int| 0 <= k < i ==> #[trigger] self.bytes@[k] == lower(o@[k]),
            decreases o.len() - i,
        {
            if self.bytes[i] != lower_byte(o[i]) {
                assert(self@[i as int] != lowered(o@)[i as int]);
                return false;
            }
            i += 1;
        }
        assert(self@ =~= lowered(o@));
        true
    }
}

/// A header value: raw bytes.
#[derive(Debug)]
pub struct HeaderValue {
    bytes: Vec<u8>,
}

impl Clone for HeaderValue {
    fn clone(&self) -> (value: HeaderValue)
        ensures
            value@ == self@,
    {
        let bytes = self.bytes.clone();
        assert(bytes@ =~= self.bytes@);
        HeaderValue { bytes }
    }
}

impl View for HeaderValue {
    type V = Seq<u8>;

    closed spec fn view(&self) -> Seq<u8> {
        self.bytes@
    }
}

impl HeaderValue {
    /// The value that holds a copy of the bytes; an error where a byte may not
    /// stand in a header value.
    pub fn from_bytes(src: &[u8]) -> (r: Result<HeaderValue, InvalidHeaderValue>)
        ensures
            r is Ok <==> (forall|i: int| 0 <= i < src@.len() ==> is_value_byte(#[trigger] src@[i])),
            r matches Ok(value) ==> value@ == src@,
    {
        let mut i: usize = 0;
        while i < src.len()
            invariant
                i <= src.len(),
                forall|k: int| 0 <= k < i ==> is_value_byte(#[trigger] src@[k]),
            decreases src.len() - i,
        {
            let b = src[i];
            if !((b >= 0x20 && b != 0x7f) || b == 0x09) {
                return Err(InvalidHeaderValue {});
            }
            i += 1;
        }
        Ok(Self::from_raw(src))
    }

    /// The value that the text spells.
    pub fn from_str(src: &str) -> (r: Result<HeaderValue, InvalidHeaderValue>)
        ensures
            r is Ok <==> (forall|i: int|
                0 <= i < src.spec_bytes().len() ==> is_value_byte(#[trigger] src.spec_bytes()[i])),
            r matches Ok(value) ==> value@ == src.spec_bytes(),
    {
        Self::from_bytes(src.as_bytes())
    }

    /// The value that holds a copy of the bytes, whatever they are.
    pub fn from_raw(src: &[u8]) -> (value: HeaderValue)
        ensures
            value@ == src@,
    {
        let mut bytes: Vec<u8> = Vec::with_capacity(src.len());
        let mut i: usize = 0;
        while i < src.len()
            invariant
                i <= src.len(),
                bytes@ == src@.subrange(0, i as int),
            decreases src.len() - i,
        {
            bytes.push(src[i]);
            assert(bytes@ =~= src@.subrange(0, i + 1));
            i += 1;
        }
        assert(bytes@ =~= src@);
        HeaderValue { bytes }
    }

    pub fn as_bytes(&self) -> (s: &[u8])
        ensures
            s@ == self@,
    {
        self.bytes.as_slice()
    }

    pub fn len(&self) -> (n: usize)
        ensures
            n == self@.len(),
    {
        self.bytes.len()
    }

    /// The bytes, where they are all tabs and printable ASCII.
    pub fn to_visible(&self) -> (r: Option<&[u8]>)
        ensures
            r is Some <==> is_visible_text(self@),
            r matches Some(s) ==> s@ == self@,
    {
        let mut i: usize = 0;
        while i < self.bytes.len()
            invariant
                i <= self.bytes.len(),
                forall|k: int| 0 <= k < i ==> is_visible_byte(#[trigger] self.bytes@[k]),
            decreases self.bytes.len() - i,
        {
            let b = self.bytes[i];
            if !((0x20 <= b && b < 0x7f) || b == 0x09) {
                return None;
            }
            i += 1;
        }
        Some(self.bytes.as_slice())
    }
}

/// The position of the first entry with the name, if there is one.
pub open spec fn first_named(entries: Seq<(Seq<u8>, Seq<u8>)>, name: Seq<u8>) -> Option<int> {
    if exists|i: int| 0 <= i < entries.len() && (#[trigger] entries[i]).0 == name {
        Some(choose|i: int|
            0 <= i < entries.len() && (#[trigger] entries[i]).0 == name
            && forall|j: int| 0 <= j < i ==> (#[trigger] entries[j]).0 != name)
    } else {
        None
    }
}

/// The headers of a message, in the order in which they were appended. A name
/// may occur more than once.
#[derive(Debug, Clone)]
pub struct HeaderMap {
    entries: Vec<(HeaderName, HeaderValue)>,
}

impl View for HeaderMap {
    type V = Seq<(Seq<u8>, Seq<u8>)>;

    closed spec fn view(&self) -> Seq<(Seq<u8>, Seq<u8>)> {
        self.entries@.map_values(|e: (HeaderName, HeaderValue)| (e.0@, e.1@))
    }
}

impl HeaderMap {
    pub fn new() -> (map: HeaderMap)
        ensures
            map@ == Seq::<(Seq<u8>, Seq<u8>)>::empty(),
    {
        let map = HeaderMap { entries: Vec::new() };
        assert(map@ =~= Seq::<(Seq<u8>, Seq<u8>)>::empty());
        map
    }

    pub fn with_capacity(capacity: usize) -> (map: HeaderMap)
        ensures
            map@ == Seq::<(Seq<u8>, Seq<u8>)>::empty(),
    {
        let map = HeaderMap { entries: Vec::with_capacity(capacity) };
        assert(map@ =~= Seq::<(Seq<u8>, Seq<u8>)>::empty());
        map
    }

    pub fn len(&self) -> (n: usize)
        ensures
            n == self@.len(),
    {
        self.entries.len()
    }

    /// Appends an entry after all that are there; none is replaced or merged.
    pub fn append(&mut self, name: HeaderName, value: HeaderValue)
        ensures
            final(self)@ == old(self)@.push((name@, value@)),
    {
        self.entries.push((name, value));
        assert(self@ =~= old(self)@.push((name@, value@)));
    }

    /// The name of the entry at a position.
    pub fn name_at(&self, index: usize) -> (name: &HeaderName)
        requires
            index < self@.len(),
        ensures
            name@ == self@[index as int].0,
    {
        &self.entries[index].0
    }

    /// The value of the entry at a position.
    pub fn value_at(&self, index: usize) -> (value: &HeaderValue)
        requires
            index < self@.len(),
        ensures
            value@ == self@[index as int].1,
    {
        &self.entries[index].1
    }

    /// The value of the first entry whose name is the one that `name` spells,
    /// letter case aside.
    pub fn get(&self, name: &str) -> (r: Option<&HeaderValue>)
        ensures
            match first_named(self@, lowered(name.spec_bytes())) {
                Some(i) => r matches Some(v) && v@ == self@[i].1,
                None => r is None,
            },
    {
        let ghost wanted = lowered(name.spec_bytes());
        let mut i: usize = 0;
        while i < self.entries.len()
            invariant
                i <= self.entries.len(),
                wanted == lowered(name.spec_bytes()),
                forall|k: int| 0 <= k < i ==> (#[trigger] self@[k]).0 != wanted,
            decreases self.entries.len() - i,
        {
            if self.entries[i].0.is(name) {
                proof {
                    assert(self@[i as int].0 == wanted);
                    let c = first_named(self@, wanted)->0;
                    assert(c == i) by {
                        if c < i {
                            assert(self@[c].0 != wanted);
                        }
                    }
                }
                return Some(&self.entries[i].1);
            }
            i += 1;
        }
        None
    }
}

} // verus!
