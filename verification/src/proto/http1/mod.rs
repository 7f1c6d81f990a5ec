//! HTTP/1.x: the `Connection` header and the keep-alive decision.

use crate::header::{is_visible_text, lower, lower_byte, lowered, HeaderMap, HeaderName, HeaderValue};
use crate::version::Version;
use vstd::prelude::*;
use vstd::slice::slice_subrange;
use vstd::string::{is_ascii_spec_bytes, StringSliceAdditionalSpecFns};

pub mod parse;

verus! {

/// Whether a byte is ASCII white space.
pub open spec fn is_space(b: u8) -> bool {
    b == 0x20 || (0x09 <= b <= 0x0d)
}

/// The bytes without the white space in front.
pub open spec fn trim_start(s: Seq<u8>) -> Seq<u8>
    decreases s.len(),
{
    if s.len() > 0 && is_space(s[0]) {
        trim_start(s.drop_first())
    } else {
        s
    }
}

/// The bytes without the white space at the end.
pub open spec fn trim_end(s: Seq<u8>) -> Seq<u8>
    decreases s.len(),
{
    if s.len() > 0 && is_space(s.last()) {
        trim_end(s.drop_last())
    } else {
        s
    }
}

/// The bytes without the white space on either side.
pub open spec fn trimmed(s: Seq<u8>) -> Seq<u8> {
    trim_end(trim_start(s))
}

/// Whether `from..to` is one item of the comma-separated list: it reaches
/// from the start or a comma to the end or a comma, and holds no comma.
pub open spec fn is_item(value: Seq<u8>, from: int, to: int) -> bool {
    &&& 0 <= from <= to <= value.len()
    &&& (from == 0 || value[from - 1] == 0x2c)
    &&& (to == value.len() || value[to] == 0x2c)
    &&& forall|k: int| from <= k < to ==> value[k] != 0x2c
}

/// Whether `from..to` is an item of the list that, trimmed, spells the token
/// in some letter case.
pub open spec fn item_is(value: Seq<u8>, from: int, to: int, token: Seq<u8>) -> bool {
    is_item(value, from, to) && lowered(trimmed(value.subrange(from, to))) == lowered(token)
}

/// Whether some item of the comma-separated list spells the token.
pub open spec fn has_token(value: Seq<u8>, token: Seq<u8>) -> bool {
    exists|from: int, to: int| #[trigger] item_is(value, from, to, token)
}

/// Whether a `Connection` value names the token: the value is visible text
/// and one of its comma-separated items, trimmed, is the token in some letter
/// case.
pub open spec fn connection_has_spec(value: Seq<u8>, token: Seq<u8>) -> bool {
    is_visible_text(value) && has_token(value, token)
}

/// The name of the header that carries the connection options.
pub open spec fn connection_name() -> Seq<u8> {
    "connection".spec_bytes()
}

/// The keep-alive assumption after one `Connection` value: `close` ends an
/// assumed keep-alive, `keep-alive` begins one that was not assumed.
pub open spec fn keep_alive_step(assumed: bool, value: Seq<u8>) -> bool {
    if assumed {
        !connection_has_spec(value, "close".spec_bytes())
    } else {
        connection_has_spec(value, "keep-alive".spec_bytes())
    }
}

/// Whether the connection may be used again after a message with this version
/// and these headers: HTTP/1.1 assumes so and HTTP/1.0 does not, and each
/// `Connection` header, in order, may change the assumption.
pub open spec fn keep_alive_spec(version: Version, headers: Seq<(Seq<u8>, Seq<u8>)>) -> bool
    decreases headers.len(),
{
    if headers.len() == 0 {
        version == Version::HTTP_11
    } else {
        let before = keep_alive_spec(version, headers.drop_last());
        if headers.last().0 == connection_name() {
            keep_alive_step(before, headers.last().1)
        } else {
            before
        }
    }
}

fn space_byte(b: u8) -> (r: bool)
    ensures
        r == is_space(b),
{
    b == 0x20 || (0x09 <= b && b <= 0x0d)
}

/// Whether two byte strings are equal, letter case aside.
pub fn eq_ignore_case(a: &[u8], b: &[u8]) -> (r: bool)
    ensures
        r == (lowered(a@) == lowered(b@)),
{
    if a.len() != b.len() {
        assert(lowered(a@).len() != lowered(b@).len());
        return false;
    }
    let mut i: usize = 0;
    while i < a.len()
        invariant
            i <= a.len(),
            a.len() == b.len(),
            forall|k: int| 0 <= k < i ==> lower(a@[k]) == lower(b@[k]),
        decreases a.len() - i,
    {
        if lower_byte(a[i]) != lower_byte(b[i]) {
            assert(lowered(a@)[i as int] != lowered(b@)[i as int]);
            return false;
        }
        i += 1;
    }
    assert(lowered(a@) =~= lowered(b@));
    true
}

/// Whether the bytes `from..to` of the value, trimmed, spell the token.
fn range_is(value: &[u8], from: usize, to: usize, token: &[u8]) -> (r: bool)
    requires
        from <= to <= value@.len(),
    ensures
        r == (lowered(trimmed(value@.subrange(from as int, to as int))) == lowered(token@)),
{
    let ghost whole = value@.subrange(from as int, to as int);
    let mut a: usize = from;
    while a < to && space_byte(value[a])
        invariant
            from <= a <= to <= value@.len(),
            trim_start(whole) == trim_start(value@.subrange(a as int, to as int)),
        decreases to - a,
    {
        assert(value@.subrange(a as int, to as int).drop_first() =~= value@.subrange(
            a + 1,
            to as int,
        ));
        a += 1;
    }
    let ghost front = value@.subrange(a as int, to as int);
    assert(trim_start(whole) == front);
    let mut b: usize = to;
    while a < b && space_byte(value[b - 1])
        invariant
            a <= b <= to <= value@.len(),
            front == value@.subrange(a as int, to as int),
            trim_end(front) == trim_end(value@.subrange(a as int, b as int)),
        decreases b - a,
    {
        assert(value@.subrange(a as int, b as int).drop_last() =~= value@.subrange(
            a as int,
            b - 1,
        ));
        b -= 1;
    }
    assert(trimmed(whole) == value@.subrange(a as int, b as int));
    eq_ignore_case(slice_subrange(value, a, b), token)
}

/// Whether some item of the comma-separated list spells the token.
fn list_has(value: &[u8], token: &[u8]) -> (r: bool)
    ensures
        r == has_token(value@, token@),
{
    let mut start: usize = 0;
    let mut i: usize = 0;
    while i < value.len()
        invariant
            start <= i <= value@.len(),
            start == 0 || value@[start - 1] == 0x2c,
            forall|k: int| start <= k < i ==> value@[k] != 0x2c,
            forall|f: int, t: int| t < start ==> !#[trigger] item_is(value@, f, t, token@),
        decreases value.len() - i,
    {
        if value[i] == 0x2c {
            if range_is(value, start, i, token) {
                assert(item_is(value@, start as int, i as int, token@));
                return true;
            }
            assert forall|f: int, t: int| t < i + 1 implies !#[trigger] item_is(
                value@,
                f,
                t,
                token@,
            ) by {
                if t >= start && is_item(value@, f, t) {
                    if f < start {
                        assert(value@[start - 1] == 0x2c);
                    }
                    if f > start {
                        assert(value@[f - 1] == 0x2c);
                    }
                    if t < i {
                        assert(value@[t] == 0x2c);
                    }
                    assert(f == start && t == i);
                }
            }
            start = i + 1;
        }
        i += 1;
    }
    let last = range_is(value, start, value.len(), token);
    proof {
        if last {
            assert(item_is(value@, start as int, value@.len() as int, token@));
        } else {
            assert forall|f: int, t: int| !#[trigger] item_is(value@, f, t, token@) by {
                if t >= start && is_item(value@, f, t) {
                    if f < start {
                        assert(value@[start - 1] == 0x2c);
                    }
                    if f > start {
                        assert(value@[f - 1] == 0x2c);
                    }
                    if t < value@.len() {
                        assert(value@[t] == 0x2c);
                    }
                    assert(f == start && t == value@.len());
                }
            }
        }
    }
    last
}

/// Whether a `Connection` value names the token.
fn connection_has(value: &HeaderValue, needle: &str) -> (r: bool)
    ensures
        r == connection_has_spec(value@, needle.spec_bytes()),
{
    match value.to_visible() {
        Some(s) => list_has(s, needle.as_bytes()),
        None => false,
    }
}

/// Whether a `Connection` value asks to keep the connection open.
pub fn connection_keep_alive(value: &HeaderValue) -> (r: bool)
    ensures
        r == connection_has_spec(value@, "keep-alive".spec_bytes()),
{
    connection_has(value, "keep-alive")
}

/// Whether a `Connection` value asks to close the connection.
pub fn connection_close(value: &HeaderValue) -> (r: bool)
    ensures
        r == connection_has_spec(value@, "close".spec_bytes()),
{
    connection_has(value, "close")
}

/// The name `connection` is its own lower case.
pub proof fn lemma_connection_name_is_lower()
    ensures
        lowered("connection".spec_bytes()) == connection_name(),
{
    reveal_strlit("connection");
    is_ascii_spec_bytes("connection");
    assert(lowered("connection".spec_bytes()) =~= "connection".spec_bytes());
}

/// Whether a header is the one that carries the connection options.
pub fn is_connection(name: &HeaderName) -> (r: bool)
    ensures
        r == (name@ == connection_name()),
{
    proof {
        lemma_connection_name_is_lower();
    }
    name.is("connection")
}

/// The keep-alive decision for a message of the given version with at most
/// one `Connection` header.
pub fn keep_alive(version: Version, connection: Option<&HeaderValue>) -> (r: bool)
    ensures
        r == match connection {
            Some(value) => keep_alive_step(version == Version::HTTP_11, value@),
            None => version == Version::HTTP_11,
        },
{
    let assumed = version == Version::HTTP_11;
    match connection {
        Some(value) => if assumed {
            !connection_close(value)
        } else {
            connection_keep_alive(value)
        },
        None => assumed,
    }
}

/// The keep-alive decision for a message of the given version with the given
/// headers.
pub fn keep_alive_of(version: Version, headers: &HeaderMap) -> (r: bool)
    ensures
        r == keep_alive_spec(version, headers@),
{
    let mut assumed = version == Version::HTTP_11;
    let mut i: usize = 0;
    while i < headers.len()
        invariant
            i <= headers@.len(),
            assumed == keep_alive_spec(version, headers@.subrange(0, i as int)),
        decreases headers@.len() - i,
    {
        proof {
            let next = headers@.subrange(0, i + 1);
            assert(next.drop_last() =~= headers@.subrange(0, i as int));
            assert(next.last() == headers@[i as int]);
        }
        if is_connection(headers.name_at(i)) {
            assumed = keep_alive(if assumed { Version::HTTP_11 } else { Version::HTTP_10 }, Some(headers.value_at(i)));
        }
        i += 1;
    }
    assert(headers@.subrange(0, i as int) =~= headers@);
    assumed
}

/// Without a `Connection` header the version decides alone: HTTP/1.1 keeps
/// the connection and HTTP/1.0 does not.
pub proof fn lemma_keep_alive_default(version: Version, headers: Seq<(Seq<u8>, Seq<u8>)>)
    requires
        forall|i: int| 0 <= i < headers.len() ==> (#[trigger] headers[i]).0 != connection_name(),
    ensures
        keep_alive_spec(version, headers) == (version == Version::HTTP_11),
    decreases headers.len(),
{
    if headers.len() > 0 {
        assert(headers.last() == headers[headers.len() - 1]);
        assert forall|i: int| 0 <= i < headers.drop_last().len() implies (#[trigger] headers.drop_last()[i]).0
            != connection_name() by {
            assert(headers.drop_last()[i] == headers[i]);
        }
        lemma_keep_alive_default(version, headers.drop_last());
    }
}

/// With one `Connection` header, wherever it stands, the decision is the
/// version's assumption after that one value: on HTTP/1.1 the token `close`
/// ends the connection, on HTTP/1.0 the token `keep-alive` keeps it.
pub proof fn lemma_keep_alive_single(version: Version, headers: Seq<(Seq<u8>, Seq<u8>)>, at: int)
    requires
        0 <= at < headers.len(),
        headers[at].0 == connection_name(),
        forall|i: int| 0 <= i < headers.len() && i != at ==> (#[trigger] headers[i]).0 != connection_name(),
    ensures
        keep_alive_spec(version, headers) == keep_alive_step(
            version == Version::HTTP_11,
            headers[at].1,
        ),
    decreases headers.len(),
{
    let front = headers.drop_last();
    assert(headers.last() == headers[headers.len() - 1]);
    assert forall|i: int| 0 <= i < front.len() && i != at implies (#[trigger] front[i]).0
        != connection_name() by {
        assert(front[i] == headers[i]);
    }
    if at == headers.len() - 1 {
        lemma_keep_alive_default(version, front);
    } else {
        assert(front[at] == headers[at]);
        lemma_keep_alive_single(version, front, at);
    }
}

/// A value that is nothing but a token names that token, if the token is
/// visible text without a comma and without white space at its ends.
pub proof fn lemma_token_alone(token: Seq<u8>)
    requires
        is_visible_text(token),
        forall|k: int| 0 <= k < token.len() ==> token[k] != 0x2c,
        token.len() > 0 ==> !is_space(token[0]) && !is_space(token.last()),
    ensures
        connection_has_spec(token, token),
{
    assert(token.subrange(0, token.len() as int) =~= token);
    assert(trimmed(token) == token);
    assert(item_is(token, 0, token.len() as int, token));
}

/// `Connection: close` ends an assumed keep-alive, and `Connection:
/// keep-alive` begins one that was not assumed.
pub proof fn lemma_plain_tokens()
    ensures
        !keep_alive_step(true, "close".spec_bytes()),
        keep_alive_step(false, "keep-alive".spec_bytes()),
{
    reveal_strlit("close");
    reveal_strlit("keep-alive");
    is_ascii_spec_bytes("close");
    is_ascii_spec_bytes("keep-alive");
    let close = "close".spec_bytes();
    let keep = "keep-alive".spec_bytes();
    assert(close.len() == 5 && keep.len() == 10);
    assert(close.last() == close[4]);
    assert(keep.last() == keep[9]);
    lemma_token_alone(close);
    lemma_token_alone(keep);
}

} // verus!
