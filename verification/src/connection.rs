//! A reader and a writer, grouped so they travel together.
//!
//! A program that exchanges messages over one transport always needs both
//! directions; passing them around separately invites mixing the halves of
//! two different transports. `Connection` pairs one `Source` with one `Sink`
//! and delegates to the crate's `read` and `write`.

use vstd::prelude::*;

use crate::codec::encodes;
use crate::codec::json_decode;
use crate::codec::json_of;
use crate::errors::RecvError;
use crate::errors::SendError;
use crate::framing::NEWLINE;
use crate::framing::first_line;
use crate::framing::rest_after;
use crate::framing::strip_newline;
use crate::stream::Sink;
use crate::stream::Source;
use crate::value::Json;

verus! {

/// One `Source` and one `Sink`, owned as a pair.
///
/// `Connection` keeps no state of its own between calls: each `read` or
/// `write` depends only on the current state of the underlying streams.
#[derive(Debug, Clone, Copy, PartialEq, Eq, PartialOrd, Ord, Hash, Default)]
pub struct Connection<R, W> {
    reader: R,
    writer: W,
}

impl<R: Source, W: Sink> Connection<R, W> {
    /// The bytes the reading side has yet to produce.
    pub closed spec fn remaining(&self) -> Seq<u8> {
        self.reader.remaining()
    }

    /// The bytes the writing side has accepted.
    pub closed spec fn sent(&self) -> Seq<u8> {
        self.writer.sent()
    }

    /// Pairs an already-constructed source and sink. No validation is
    /// performed: both are taken as they stand.
    pub fn new(reader: R, writer: W) -> (r: Self)
        ensures
            r.remaining() == reader.remaining(),
            r.sent() == writer.sent(),
    {
        Connection { reader, writer }
    }

    /// Takes the pair apart again, handing back the source and the sink.
    pub fn into_parts(self) -> (r: (R, W))
        ensures
            r.0.remaining() == self.remaining(),
            r.1.sent() == self.sent(),
    {
        (self.reader, self.writer)
    }

    /// Reads one framed message from the paired source; see `crate::read`.
    pub fn read(&mut self) -> (r: Result<Json, RecvError>)
        ensures
            final(self).sent() == old(self).sent(),
            r matches Ok(v) ==> {
                &&& final(self).remaining() == rest_after(old(self).remaining())
                &&& json_decode(strip_newline(first_line(old(self).remaining()))) == Some(v)
            },
            r matches Err(e) ==> e is Read || e is Deserialize,
            r matches Err(e) ==> (e is Deserialize ==> {
                &&& final(self).remaining() == rest_after(old(self).remaining())
                &&& json_decode(strip_newline(first_line(old(self).remaining()))) is None
            }),
            strip_newline(first_line(old(self).remaining())).len() == 0 ==> r is Err,
    {
        crate::read(&mut self.reader)
    }

    /// Writes one framed message to the paired sink; see `crate::write`.
    pub fn write(&mut self, v: &Json) -> (r: Result<(), SendError>)
        ensures
            final(self).remaining() == old(self).remaining(),
            encodes(*v, json_of(*v)),
            r is Ok ==> final(self).sent() == old(self).sent() + json_of(*v) + seq![NEWLINE],
            r matches Err(e) ==> e is Write,
            r is Err ==> exists|p: Seq<u8>|
                final(self).sent() == old(self).sent() + p
                    && #[trigger] p.is_prefix_of(json_of(*v) + seq![NEWLINE]),
    {
        crate::write(&mut self.writer, v)
    }

    /// Flushes the paired sink's buffer; no message bytes move.
    pub fn flush(&mut self) -> (r: Result<(), std::io::Error>)
        ensures
            final(self).remaining() == old(self).remaining(),
            final(self).sent() == old(self).sent(),
    {
        self.writer.flush()
    }
}

} // verus!
