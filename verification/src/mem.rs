//! An in-memory transport.
//!
//! `MemSource` reads lines out of a byte buffer; `MemSink` collects writes
//! into one. They are the crate's own proof that the `Source` and `Sink`
//! contracts can be met, and they let a message exchange run entirely in
//! memory.

use vstd::prelude::*;

use crate::framing::NEWLINE;
use crate::framing::first_line;
use crate::framing::rest_after;
use crate::stream::Sink;
use crate::stream::Source;

verus! {

/// A source over a byte buffer held in memory, consumed front to back.
#[derive(Debug)]
pub struct MemSource {
    data: Vec<u8>,
    pos: usize,
}

impl MemSource {
    #[verifier::type_invariant]
    spec fn inv(&self) -> bool {
        self.pos <= self.data.len()
    }

    /// A source that will produce exactly the bytes of `data`.
    pub fn new(data: Vec<u8>) -> (r: Self)
        ensures
            r.remaining() == data@,
    {
        let r = MemSource { data, pos: 0 };
        assert(r.remaining() =~= r.data@);
        r
    }
}

impl Source for MemSource {
    closed spec fn remaining(&self) -> Seq<u8> {
        self.data@.skip(self.pos as int)
    }

    fn read_one_line(&mut self) -> (r: Result<Vec<u8>, std::io::Error>)
        ensures
            r is Ok,
    {
        proof {
            use_type_invariant(&*self);
        }
        let ghost orig = self.remaining();
        let mut line: Vec<u8> = Vec::new();
        assert(line@ + first_line(orig) =~= first_line(orig));
        loop
            invariant_except_break
                self.pos <= self.data.len(),
                first_line(orig) == line@ + first_line(self.remaining()),
                rest_after(orig) == rest_after(self.remaining()),
            ensures
                self.pos <= self.data.len(),
                line@ == first_line(orig),
                self.remaining() == rest_after(orig),
            decreases self.data.len() - self.pos,
        {
            let ghost before = self.remaining();
            if self.pos == self.data.len() {
                assert(before =~= Seq::<u8>::empty());
                assert(line@ + first_line(before) =~= line@);
                break;
            }
            let b = self.data[self.pos];
            self.pos = self.pos + 1;
            line.push(b);
            proof {
                assert(before.len() > 0);
                assert(before[0] == b);
                assert(self.remaining() =~= before.drop_first());
            }
            if b == NEWLINE {
                proof {
                    assert(first_line(before) == seq![NEWLINE]);
                    assert(line@ =~= (line@.drop_last()) + seq![NEWLINE]);
                    assert(line@ =~= first_line(orig));
                    assert(rest_after(before) == before.drop_first());
                }
                break;
            }
            proof {
                assert(first_line(before) == seq![b] + first_line(before.drop_first()));
                assert(line@ + first_line(self.remaining()) =~= first_line(orig));
            }
        }
        Ok(line)
    }
}

/// A sink that collects every accepted byte into a buffer held in memory.
#[derive(Debug)]
pub struct MemSink {
    data: Vec<u8>,
}

impl MemSink {
    /// An empty sink: nothing accepted yet.
    pub fn new() -> (r: Self)
        ensures
            r.sent() == Seq::<u8>::empty(),
    {
        MemSink { data: Vec::new() }
    }

    /// The bytes accepted so far, in order.
    pub fn bytes(&self) -> (r: &Vec<u8>)
        ensures
            r@ == self.sent(),
    {
        &self.data
    }

    /// Hands the collected bytes over, for example to feed a `MemSource`.
    pub fn into_bytes(self) -> (r: Vec<u8>)
        ensures
            r@ == self.sent(),
    {
        self.data
    }
}

impl Sink for MemSink {
    closed spec fn sent(&self) -> Seq<u8> {
        self.data@
    }

    fn write_all_bytes(&mut self, buf: &[u8]) -> (r: Result<(), std::io::Error>)
        ensures
            r is Ok,
    {
        let mut i: usize = 0;
        assert(self.data@ =~= self.data@ + buf@.subrange(0, 0));
        while i < buf.len()
            invariant
                i <= buf.len(),
                self.data@ == old(self).data@ + buf@.subrange(0, i as int),
            decreases buf.len() - i,
        {
            let b = buf[i];
            self.data.push(b);
            i = i + 1;
            proof {
                assert(self.data@ =~= old(self).data@ + buf@.subrange(0, i as int));
            }
        }
        proof {
            assert(self.data@ =~= old(self).data@ + buf@);
        }
        Ok(())
    }

    fn flush(&mut self) -> (r: Result<(), std::io::Error>)
        ensures
            r is Ok,
    {
        Ok(())
    }
}

} // verus!
