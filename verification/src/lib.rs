//! Line-delimited JSON message framing.
//!
//! Each message is one JSON value encoded as UTF-8 text, followed by a single
//! newline byte. The crate pairs a line-oriented byte source with a byte sink
//! so that discrete structured messages can be exchanged over any stream.

use vstd::prelude::*;

mod codec;
mod connection;
mod errors;
mod framing;
mod laws;
mod mem;
mod stream;
mod value;

pub use codec::decode;
pub use codec::encode;
pub use codec::encodes;
pub use codec::json_decode;
pub use codec::json_of;
pub use codec::lemma_utf8_push_ascii;
pub use codec::utf8_continuation;
pub use codec::utf8_valid;
pub use connection::Connection;
pub use errors::RecvError;
pub use errors::SendError;
pub use framing::NEWLINE;
pub use framing::first_line;
pub use framing::no_control;
pub use framing::no_newline;
pub use framing::rest_after;
pub use framing::strip_newline;
pub use laws::lemma_framing;
pub use laws::lemma_newline_discipline;
pub use laws::lemma_round_trip;
pub use laws::lemma_truncated_line;
pub use mem::MemSink;
pub use mem::MemSource;
pub use stream::ByteSeq;
pub use stream::Sink;
pub use stream::Source;
pub use value::Json;
pub use value::MAX_NESTING;
pub use value::wf_json;
pub use value::wf_within;

verus! {

/// Reads one framed message: one line from the source, parsed as JSON.
///
/// On success the source stands at the next message boundary and the result
/// is exactly what the consumed line decodes to. A line that does not decode
/// is a `Deserialize` failure — the line is consumed all the same — and a
/// source that could not produce a line is a `Read` failure. An empty line,
/// a bare newline or an exhausted stream included, never succeeds: empty
/// text is not a JSON document.
pub fn read<R: Source>(source: &mut R) -> (r: Result<Json, RecvError>)
    ensures
        r matches Ok(v) ==> {
            &&& final(source).remaining() == rest_after(old(source).remaining())
            &&& json_decode(strip_newline(first_line(old(source).remaining()))) == Some(v)
        },
        r matches Err(e) ==> e is Read || e is Deserialize,
        r matches Err(e) ==> (e is Deserialize ==> {
            &&& final(source).remaining() == rest_after(old(source).remaining())
            &&& json_decode(strip_newline(first_line(old(source).remaining()))) is None
        }),
        strip_newline(first_line(old(source).remaining())).len() == 0 ==> r is Err,
{
    match source.read_one_line() {
        Ok(line) => decode(line.as_slice()),
        Err(e) => Err(RecvError::Read(e)),
    }
}

/// Writes one framed message: the value's JSON text, then a single newline.
///
/// Failure can only come from the sink; every value is encodable. When a
/// write fails partway, what the sink accepted is some prefix of the frame,
/// so a later retry of the whole frame is the caller's decision, not a
/// hidden state of this function.
pub fn write<W: Sink>(sink: &mut W, v: &Json) -> (r: Result<(), SendError>)
    ensures
        encodes(*v, json_of(*v)),
        r is Ok ==> final(sink).sent() == old(sink).sent() + json_of(*v) + seq![NEWLINE],
        r matches Err(e) ==> e is Write,
        r is Err ==> exists|p: Seq<u8>|
            final(sink).sent() == old(sink).sent() + p
                && #[trigger] p.is_prefix_of(json_of(*v) + seq![NEWLINE]),
{
    let text = encode(v);
    let ghost t = text@;
    match sink.write_all_bytes(text.as_slice()) {
        Ok(()) => {},
        Err(e) => {
            proof {
                let p = choose|p: Seq<u8>|
                    sink.sent() == old(sink).sent() + p && #[trigger] p.is_prefix_of(t);
                assert(p.is_prefix_of(t + seq![NEWLINE])) by {
                    assert((t + seq![NEWLINE]).subrange(0, p.len() as int) =~= t.subrange(
                        0,
                        p.len() as int,
                    ));
                }
            }
            return Err(SendError::Write(e));
        },
    }
    let mut terminator: Vec<u8> = Vec::new();
    terminator.push(NEWLINE);
    match sink.write_all_bytes(terminator.as_slice()) {
        Ok(()) => {
            proof {
                assert(old(sink).sent() + t + terminator@ =~= old(sink).sent() + (t + seq![
                    NEWLINE,
                ]));
            }
            Ok(())
        },
        Err(e) => {
            proof {
                let p = choose|p: Seq<u8>|
                    sink.sent() == (old(sink).sent() + t) + p && #[trigger] p.is_prefix_of(
                        terminator@,
                    );
                let q = t + p;
                assert(sink.sent() =~= old(sink).sent() + q);
                assert(q.is_prefix_of(t + seq![NEWLINE])) by {
                    assert(q =~= (t + seq![NEWLINE]).subrange(0, q.len() as int));
                }
            }
            Err(SendError::Write(e))
        },
    }
}

} // verus!
