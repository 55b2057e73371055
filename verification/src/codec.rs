//! The JSON text codec, behind a trusted boundary.
//!
//! serde_json does the encoding and the parsing; this module states what it
//! does. `json_of` names the compact JSON text of a value, `json_decode`
//! names what parsing a text gives back. The verified functions `encode` and
//! `decode` are the only doors the rest of the crate uses.

use vstd::prelude::*;
use vstd::slice::slice_subrange;

use crate::errors::RecvError;
use crate::framing::NEWLINE;
use crate::framing::no_control;
use crate::framing::strip_newline;
use crate::value::Json;
use crate::value::wf_json;

verus! {

/// Declares `serde_json::Value`, the parse tree the outside codec works on,
/// so the conversion helpers below can pass one through. It stays opaque
/// here: everything the library reads out of it arrives as a `Json`.
#[verifier::external_type_specification]
#[verifier::external_body]
pub struct ExJsonValue(serde_json::Value);

/// The UTF-8 bytes of the compact JSON text of `v`, as serde_json writes it.
pub uninterp spec fn json_of(v: Json) -> Seq<u8>;

/// The value that serde_json parses out of the bytes `t`: `None` when `t` is
/// not one JSON document (trailing whitespace aside), holds a number that
/// `Json` cannot carry exactly, or nests containers beyond the decoder's
/// recursion limit (see `MAX_NESTING`).
pub uninterp spec fn json_decode(t: Seq<u8>) -> Option<Json>;

/// Holds when the next byte of a UTF-8 sequence continues a multi-byte
/// character.
pub open spec fn utf8_continuation(b: u8) -> bool {
    0x80 <= b <= 0xbf
}

/// Holds when `t` is well-formed UTF-8: a sequence of one- to four-byte
/// characters in the shapes Unicode allows, with no overlong form and no
/// surrogate (the 0xe0, 0xed, 0xf0 and 0xf4 leads restrict their second
/// byte accordingly).
pub open spec fn utf8_valid(t: Seq<u8>) -> bool
    decreases t.len(),
{
    if t.len() == 0 {
        true
    } else if t[0] < 0x80 {
        utf8_valid(t.skip(1))
    } else if 0xc2 <= t[0] <= 0xdf {
        t.len() >= 2 && utf8_continuation(t[1]) && utf8_valid(t.skip(2))
    } else if t[0] == 0xe0 {
        t.len() >= 3 && 0xa0 <= t[1] <= 0xbf && utf8_continuation(t[2]) && utf8_valid(t.skip(3))
    } else if 0xe1 <= t[0] <= 0xec || 0xee <= t[0] <= 0xef {
        t.len() >= 3 && utf8_continuation(t[1]) && utf8_continuation(t[2]) && utf8_valid(t.skip(3))
    } else if t[0] == 0xed {
        t.len() >= 3 && 0x80 <= t[1] <= 0x9f && utf8_continuation(t[2]) && utf8_valid(t.skip(3))
    } else if t[0] == 0xf0 {
        t.len() >= 4 && 0x90 <= t[1] <= 0xbf && utf8_continuation(t[2]) && utf8_continuation(t[3])
            && utf8_valid(t.skip(4))
    } else if 0xf1 <= t[0] <= 0xf3 {
        t.len() >= 4 && utf8_continuation(t[1]) && utf8_continuation(t[2]) && utf8_continuation(
            t[3],
        ) && utf8_valid(t.skip(4))
    } else if t[0] == 0xf4 {
        t.len() >= 4 && 0x80 <= t[1] <= 0x8f && utf8_continuation(t[2]) && utf8_continuation(t[3])
            && utf8_valid(t.skip(4))
    } else {
        false
    }
}

/// Appending an ASCII byte to well-formed UTF-8 keeps it well-formed, so a
/// framed line — message text plus the newline — is UTF-8 text whole.
pub proof fn lemma_utf8_push_ascii(t: Seq<u8>, b: u8)
    requires
        utf8_valid(t),
        b < 0x80,
    ensures
        utf8_valid(t.push(b)),
    decreases t.len(),
{
    let s = t.push(b);
    if t.len() == 0 {
        assert(s.skip(1) =~= Seq::<u8>::empty());
        assert(utf8_valid(s.skip(1)));
        assert(utf8_valid(s));
    } else {
        assert(s.len() == t.len() + 1);
        assert(forall|i: int| 0 <= i < t.len() ==> #[trigger] s[i] == t[i]);
        if t[0] < 0x80 {
            lemma_utf8_push_ascii(t.skip(1), b);
            assert(s.skip(1) =~= t.skip(1).push(b));
            assert(utf8_valid(s.skip(1)));
        } else if 0xc2 <= t[0] <= 0xdf {
            lemma_utf8_push_ascii(t.skip(2), b);
            assert(s.skip(2) =~= t.skip(2).push(b));
            assert(utf8_valid(s.skip(2)));
        } else if t[0] == 0xe0 || (0xe1 <= t[0] <= 0xec || 0xee <= t[0] <= 0xef) || t[0] == 0xed {
            lemma_utf8_push_ascii(t.skip(3), b);
            assert(s.skip(3) =~= t.skip(3).push(b));
            assert(utf8_valid(s.skip(3)));
        } else {
            lemma_utf8_push_ascii(t.skip(4), b);
            assert(s.skip(4) =~= t.skip(4).push(b));
            assert(utf8_valid(s.skip(4)));
        }
        assert(utf8_valid(s));
    }
}

/// Holds when `t` is the encoding of `v`: the JSON text itself — valid
/// UTF-8, free of raw control bytes, so of raw newlines in particular —
/// and, for a well-formed value, parsed back to `v` unchanged.
pub open spec fn encodes(v: Json, t: Seq<u8>) -> bool {
    &&& t == json_of(v)
    &&& no_control(t)
    &&& utf8_valid(t)
    &&& (wf_json(v) ==> json_decode(t) == Some(v))
}

/// Relies on serde_json::Value's constructors: the returned tree holds the
/// same document as the argument, variant for variant, member for member.
#[verifier::external_body]
fn to_tree(v: &Json) -> serde_json::Value {
    match v {
        Json::Null => serde_json::Value::Null,
        Json::Bool(b) => serde_json::Value::Bool(*b),
        Json::Int(i) => serde_json::Value::Number((*i).into()),
        Json::BigUInt(u) => serde_json::Value::Number((*u).into()),
        Json::Str(s) => serde_json::Value::String(s.clone()),
        Json::Arr(xs) => serde_json::Value::Array(xs.iter().map(to_tree).collect()),
        Json::Obj(ps) => serde_json::Value::Object(
            ps.iter().map(|p| (p.0.clone(), to_tree(&p.1))).collect(),
        ),
    }
}

/// Relies on serde_json::Value's accessors, one arm per variant: numbers are
/// taken back as exact 64-bit integers where they fit, and a document that
/// holds any other number is refused.
#[verifier::external_body]
fn from_tree(t: &serde_json::Value) -> Option<Json> {
    match t {
        serde_json::Value::Null => Some(Json::Null),
        serde_json::Value::Bool(b) => Some(Json::Bool(*b)),
        serde_json::Value::Number(n) => n.as_i64().map(Json::Int).or(n.as_u64().map(Json::BigUInt)),
        serde_json::Value::String(s) => Some(Json::Str(s.clone())),
        serde_json::Value::Array(x) => x.iter().map(from_tree).collect::<Option<_>>().map(Json::Arr),
        serde_json::Value::Object(m) => m.iter().map(|(k, t)| Some((k.clone(), from_tree(t)?))).collect::<Option<_>>().map(Json::Obj),
    }
}

/// Relies on serde_json::to_string, applied to a tree built one-for-one from
/// the value. Its writer is an in-memory buffer and every map key is a
/// string, so serialization cannot fail. The text is the UTF-8 of a Rust
/// String, its tokens are ASCII and the compact formatter emits no
/// whitespace; every control character is escaped, so no byte below 0x20
/// appears raw. With member order preserved, parsing the text back yields
/// the same document, and the parser's recursion budget admits every
/// document within `MAX_NESTING` container levels, so a well-formed value
/// is recovered exactly.
#[verifier::external_body]
fn encode_value(v: &Json) -> (r: Option<Vec<u8>>)
    ensures
        r is Some,
        r matches Some(b) ==> b@ == json_of(*v),
        r matches Some(b) ==> encodes(*v, b@),
{
    match serde_json::to_string(&to_tree(v)) {
        Ok(s) => Some(s.into_bytes()),
        Err(_) => None,
    }
}

/// Relies on serde_json::from_slice::<serde_json::Value>: it parses exactly
/// one JSON document (an empty input is none) and the result is a function
/// of the bytes alone.
#[verifier::external_body]
fn decode_bytes(line: &[u8]) -> (r: Option<Json>)
    ensures
        r == json_decode(line@),
        line@.len() == 0 ==> r is None,
{
    match serde_json::from_slice::<serde_json::Value>(line) {
        Ok(t) => from_tree(&t),
        Err(_) => None,
    }
}

/// Encodes a value as one line's worth of JSON text: UTF-8 bytes with no
/// raw newline, ready to be framed.
pub fn encode(v: &Json) -> (r: Vec<u8>)
    ensures
        encodes(*v, r@),
{
    match encode_value(v) {
        Some(b) => b,
        None => {
            proof {
                assert(false);
            }
            Vec::new()
        },
    }
}

/// Decodes one received line. A terminating newline, if the line kept one,
/// is not part of the message text and is dropped before parsing.
pub fn decode(line: &[u8]) -> (r: Result<Json, RecvError>)
    ensures
        r matches Ok(v) ==> json_decode(strip_newline(line@)) == Some(v),
        r is Err ==> json_decode(strip_newline(line@)) is None,
        r matches Err(e) ==> e is Deserialize,
        strip_newline(line@).len() == 0 ==> r is Err,
{
    let n = line.len();
    let text: &[u8] = if n > 0 && line[n - 1] == NEWLINE {
        slice_subrange(line, 0, n - 1)
    } else {
        line
    };
    assert(text@ == strip_newline(line@));
    match decode_bytes(text) {
        Some(v) => Ok(v),
        None => Err(RecvError::Deserialize),
    }
}

} // verus!
