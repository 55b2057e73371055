//! What a reader gets back from what a writer sent.
//!
//! These proofs tie the two directions together. Each speaks of a message
//! text `t` with `encodes(v, t)` — precisely what `encode` ensures for its
//! result and what `write` establishes for the frame it appends — and of the
//! byte stream a source fed those frames will produce.

use vstd::prelude::*;

use crate::codec::encodes;
use crate::codec::json_decode;
use crate::codec::lemma_utf8_push_ascii;
use crate::codec::utf8_valid;
use crate::framing::NEWLINE;
use crate::framing::first_line;
use crate::framing::lemma_first_line_framed;
use crate::framing::lemma_first_line_unterminated;
use crate::framing::lemma_strip_framed;
use crate::framing::no_control;
use crate::framing::no_newline;
use crate::framing::rest_after;
use crate::framing::strip_newline;
use crate::value::Json;
use crate::value::wf_json;

verus! {

/// Round-trip: one well-formed value, encoded and framed as a line, decodes
/// back to itself, and reading it consumes the stream exactly.
pub proof fn lemma_round_trip(v: Json, t: Seq<u8>)
    requires
        wf_json(v),
        encodes(v, t),
    ensures
        json_decode(strip_newline(first_line(t + seq![NEWLINE]))) == Some(v),
        rest_after(t + seq![NEWLINE]) == Seq::<u8>::empty(),
{
    assert(t + seq![NEWLINE] + Seq::<u8>::empty() =~= t + seq![NEWLINE]);
    lemma_first_line_framed(t, Seq::<u8>::empty());
    lemma_strip_framed(t);
}

/// Framing invariant: two messages written in order are read back in order;
/// the first read takes nothing from the second frame and leaves it whole.
pub proof fn lemma_framing(v1: Json, v2: Json, t1: Seq<u8>, t2: Seq<u8>)
    requires
        wf_json(v1),
        wf_json(v2),
        encodes(v1, t1),
        encodes(v2, t2),
    ensures
        ({
            let s = t1 + seq![NEWLINE] + (t2 + seq![NEWLINE]);
            &&& json_decode(strip_newline(first_line(s))) == Some(v1)
            &&& rest_after(s) == t2 + seq![NEWLINE]
            &&& json_decode(strip_newline(first_line(rest_after(s)))) == Some(v2)
            &&& rest_after(rest_after(s)) == Seq::<u8>::empty()
        }),
{
    lemma_first_line_framed(t1, t2 + seq![NEWLINE]);
    lemma_strip_framed(t1);
    lemma_round_trip(v2, t2);
}

/// Newline discipline: a frame ends with exactly one newline, and the
/// message text before it contains none — nor any other raw control byte:
/// the encoder escapes every control character, so no encoded value can
/// smuggle a line break. The whole frame is well-formed UTF-8 text.
pub proof fn lemma_newline_discipline(v: Json, t: Seq<u8>)
    requires
        encodes(v, t),
    ensures
        (t + seq![NEWLINE]).last() == NEWLINE,
        forall|i: int| 0 <= i < t.len() ==> (t + seq![NEWLINE])[i] != NEWLINE,
        no_control(t),
        utf8_valid(t + seq![NEWLINE]),
{
    lemma_utf8_push_ascii(t, NEWLINE);
    assert(t.push(NEWLINE) =~= t + seq![NEWLINE]);
}

/// Stream truncation: when the stream ends mid-line, the partial text is
/// handed out as one whole line, and it decodes — or fails to — on its own
/// merits, exactly as the same text with a terminating newline would.
pub proof fn lemma_truncated_line(t: Seq<u8>)
    requires
        no_newline(t),
    ensures
        first_line(t) == t,
        rest_after(t) == Seq::<u8>::empty(),
        json_decode(strip_newline(first_line(t))) == json_decode(t),
{
    lemma_first_line_unterminated(t);
}

} // verus!
