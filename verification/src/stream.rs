//! The two capabilities a transport must offer.
//!
//! A `Source` produces bytes one line at a time; a `Sink` accepts byte
//! writes and an explicit flush. The framing functions and `Connection` are
//! generic over these, so any transport — an in-memory buffer, a pipe, a
//! socket — can back them once adapted to this shape.

use vstd::prelude::*;

use crate::framing::first_line;
use crate::framing::rest_after;

verus! {

/// The model of a byte stream's contents. Implementations of `Source` and
/// `Sink` that live outside the verifier name the model type through this
/// alias.
pub type ByteSeq = Seq<u8>;

/// A byte-producing stream that supports buffered line-oriented reads.
///
/// `remaining()` models the bytes the stream has yet to hand out.
pub trait Source {
    /// The bytes this source has yet to produce, in order.
    spec fn remaining(&self) -> ByteSeq;

    /// Reads exactly one line: every byte up to and including the next
    /// newline, or up to the end of the stream when no newline remains.
    /// An empty line means the stream had ended.
    ///
    /// After a failed read the stream's position is unspecified; the caller
    /// decides whether to retry, reconnect, or abort.
    fn read_one_line(&mut self) -> (r: Result<Vec<u8>, std::io::Error>)
        ensures
            r matches Ok(line) ==> {
                &&& line@ == first_line(old(self).remaining())
                &&& final(self).remaining() == rest_after(old(self).remaining())
            },
    ;
}

/// A byte-consuming stream that supports append-only writes and an explicit
/// flush.
///
/// `sent()` models every byte the sink has accepted so far.
pub trait Sink {
    /// Every byte this sink has accepted, in order.
    spec fn sent(&self) -> ByteSeq;

    /// Appends all of `buf` to the sink. When the write fails partway, the
    /// bytes already accepted — some prefix of `buf` — stay accepted: an
    /// append-only sink takes nothing back.
    fn write_all_bytes(&mut self, buf: &[u8]) -> (r: Result<(), std::io::Error>)
        ensures
            r is Ok ==> final(self).sent() == old(self).sent() + buf@,
            r is Err ==> exists|p: Seq<u8>|
                final(self).sent() == old(self).sent() + p && #[trigger] p.is_prefix_of(buf@),
    ;

    /// Makes everything accepted so far visible to the peer. Flushing moves
    /// no message bytes of its own.
    fn flush(&mut self) -> (r: Result<(), std::io::Error>)
        ensures
            final(self).sent() == old(self).sent(),
    ;
}

} // verus!
