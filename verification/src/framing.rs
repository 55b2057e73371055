//! Line framing over byte streams.
//!
//! A frame is the text of one message followed by a single newline byte.
//! These functions say what one line of a byte stream is: everything up to
//! and including the first newline, or the whole stream when no newline
//! remains (a stream that was cut off mid-line).

use vstd::prelude::*;

verus! {

/// The newline byte that terminates every frame.
pub const NEWLINE: u8 = 10;

/// Holds when no byte of `t` is a newline.
pub open spec fn no_newline(t: Seq<u8>) -> bool {
    forall|i: int| 0 <= i < t.len() ==> t[i] != NEWLINE
}

/// Holds when no byte of `t` lies in the control range below 0x20. Message
/// text on the wire satisfies this — the encoder escapes every control
/// character — so in particular it contains no raw newline.
pub open spec fn no_control(t: Seq<u8>) -> bool {
    forall|i: int| 0 <= i < t.len() ==> t[i] >= 32
}

/// The first line of `s`: every byte up to and including the first newline,
/// or all of `s` when no newline occurs.
pub open spec fn first_line(s: Seq<u8>) -> Seq<u8>
    decreases s.len(),
{
    if s.len() == 0 {
        s
    } else if s[0] == NEWLINE {
        seq![NEWLINE]
    } else {
        seq![s[0]] + first_line(s.drop_first())
    }
}

/// What remains of `s` after its first line has been consumed.
pub open spec fn rest_after(s: Seq<u8>) -> Seq<u8>
    decreases s.len(),
{
    if s.len() == 0 {
        s
    } else if s[0] == NEWLINE {
        s.drop_first()
    } else {
        rest_after(s.drop_first())
    }
}

/// One line with its terminating newline removed, if it has one. A line cut
/// off by the end of the stream is returned as it stands.
pub open spec fn strip_newline(l: Seq<u8>) -> Seq<u8> {
    if l.len() > 0 && l[l.len() - 1] == NEWLINE {
        l.drop_last()
    } else {
        l
    }
}

/// Reading a stream that starts with a newline-free text `t`, a newline, and
/// then `r` yields exactly `t` plus the newline as the first line, with `r`
/// untouched: framing loses no byte and takes none of the next message.
pub proof fn lemma_first_line_framed(t: Seq<u8>, r: Seq<u8>)
    requires
        no_newline(t),
    ensures
        first_line(t + seq![NEWLINE] + r) == t + seq![NEWLINE],
        rest_after(t + seq![NEWLINE] + r) == r,
    decreases t.len(),
{
    let s = t + seq![NEWLINE] + r;
    if t.len() == 0 {
        assert(s =~= seq![NEWLINE] + r);
        assert(s[0] == NEWLINE);
        assert(s.drop_first() =~= r);
        assert(first_line(s) =~= t + seq![NEWLINE]);
    } else {
        assert(s[0] == t[0]);
        assert(s.drop_first() =~= t.drop_first() + seq![NEWLINE] + r);
        lemma_first_line_framed(t.drop_first(), r);
        assert(first_line(s) == seq![s[0]] + first_line(s.drop_first()));
        assert(seq![s[0]] + (t.drop_first() + seq![NEWLINE]) =~= t + seq![NEWLINE]);
    }
}

/// A stream with no newline at all is one line: the whole stream, and
/// nothing after it.
pub proof fn lemma_first_line_unterminated(t: Seq<u8>)
    requires
        no_newline(t),
    ensures
        first_line(t) == t,
        rest_after(t) == Seq::<u8>::empty(),
    decreases t.len(),
{
    if t.len() == 0 {
        assert(rest_after(t) =~= Seq::<u8>::empty());
    } else {
        lemma_first_line_unterminated(t.drop_first());
        assert(first_line(t) == seq![t[0]] + first_line(t.drop_first()));
        assert(seq![t[0]] + t.drop_first() =~= t);
    }
}

/// Stripping the newline off a framed text gives the text back.
pub proof fn lemma_strip_framed(t: Seq<u8>)
    ensures
        strip_newline(t + seq![NEWLINE]) == t,
{
    let l = t + seq![NEWLINE];
    assert(l[l.len() - 1] == NEWLINE);
    assert(l.drop_last() =~= t);
}

} // verus!
