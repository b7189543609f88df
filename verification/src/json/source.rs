//! Where the bytes come from.

use vstd::prelude::*;

verus! {

/// The bytes of a source, as a mathematical sequence. An implementation of
/// `ByteSource` in code that is not verified names the type of `remaining`
/// by this.
pub type Bytes = Seq<u8>;

/// A source of bytes that is read front to back, one chunk at a time.
///
/// An implementation stands for a fixed sequence of bytes, of which
/// `remaining` is the part not handed out yet. Byte slices are such a
/// source. An implementation over a reader promises what `read` ensures:
/// everything that is proved of a tokenizer holds on that promise.
pub trait ByteSource {
    /// The bytes that have not been read yet. This is the model that the
    /// contracts speak of; it is never computed.
    spec fn remaining(&self) -> Bytes;

    /// Copies the next bytes to the front of `buf` and returns how many
    /// there were. Returns 0 only when nothing remains.
    fn read(&mut self, buf: &mut [u8; 512]) -> (count: usize)
        ensures
            count <= 512,
            count <= old(self).remaining().len(),
            count == 0 ==> old(self).remaining().len() == 0,
            final(buf)@.subrange(0, count as int) == old(self).remaining().take(count as int),
            final(self).remaining() == old(self).remaining().skip(count as int),
    ;
}

impl<'a> ByteSource for &'a [u8] {
    open spec fn remaining(&self) -> Seq<u8> {
        (*self)@
    }

    fn read(&mut self, buf: &mut [u8; 512]) -> (count: usize) {
        let data: &'a [u8] = *self;
        let count: usize = if data.len() < 512 {
            data.len()
        } else {
            512
        };
        let mut i: usize = 0;
        while i < count
            invariant
                i <= count,
                count <= data@.len(),
                count <= 512,
                buf@.subrange(0, i as int) == data@.take(i as int),
            decreases count - i,
        {
            buf[i] = data[i];
            i += 1;
        }
        *self = vstd::slice::slice_subrange(data, count, data.len());
        count
    }
}

} // verus!
