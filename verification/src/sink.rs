//! The in-memory output buffer handed to the computation while a renderer
//! owns the terminal.

use vstd::prelude::*;

verus! {

/// An in-memory byte sink. While the dashboard occupies the terminal the
/// computation writes here instead of the real streams; the coordinator
/// flushes the contents once the terminal is released.
pub struct BufferedSink {
    data: Vec<u8>,
}

impl View for BufferedSink {
    type V = Seq<u8>;

    closed spec fn view(&self) -> Seq<u8> {
        self.data@
    }
}

impl BufferedSink {
    /// An empty buffer.
    pub fn new() -> (s: BufferedSink)
        ensures
            s@ == Seq::<u8>::empty(),
    {
        let s = BufferedSink { data: Vec::new() };
        proof {
            assert(s@ =~= Seq::<u8>::empty());
        }
        s
    }

    /// Appends `buf` to the buffer; nothing already written is altered,
    /// reordered or lost.
    pub fn write_bytes(&mut self, buf: &[u8])
        ensures
            final(self)@ == old(self)@ + buf@,
    {
        let mut i: usize = 0;
        while i < buf.len()
            invariant
                i <= buf.len(),
                self@ == old(self)@ + buf@.subrange(0, i as int),
            decreases buf.len() - i,
        {
            let b = buf[i];
            self.data.push(b);
            proof {
                assert(buf@.subrange(0, (i + 1) as int) =~= buf@.subrange(0, i as int).push(
                    buf@[i as int],
                ));
                assert(old(self)@ + buf@.subrange(0, (i + 1) as int) =~= (old(self)@
                    + buf@.subrange(0, i as int)).push(buf@[i as int]));
            }
            i = i + 1;
        }
        proof {
            assert(buf@.subrange(0, buf@.len() as int) =~= buf@);
        }
    }

    /// How many bytes have been written so far.
    pub fn len(&self) -> (n: usize)
        ensures
            n == self@.len(),
    {
        self.data.len()
    }

    /// Hands the accumulated bytes over, exactly as written.
    pub fn into_bytes(self) -> (v: Vec<u8>)
        ensures
            v@ == self@,
    {
        self.data
    }
}

} // verus!
