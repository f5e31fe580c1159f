//! The byte-level writer and reader of the flat bytecode: a fixed-size sink
//! written front to back, and a sequential reader over a byte buffer. All
//! multi-byte values are big endian; there is no varint.

use vstd::prelude::*;

use crate::endian::{
    read_u16_be_at, read_u32_be_at, read_u64_be_at, u16_be_bytes, u16_of_be, u32_be_bytes,
    u32_of_be, u64_be_bytes, u64_of_be, write_u16_be_into, write_u32_be_into, write_u64_be_into,
};
use crate::value::{
    i16_bits, i16_of_bits, i32_bits, i32_of_bits, i64_bits, i64_of_bits, spec_i16_bits,
    spec_i16_of_bits, spec_i32_bits, spec_i32_of_bits, spec_i64_bits, spec_i64_of_bits,
};

verus! {

/// A codec failure: the buffer ended in the middle of a value (with the
/// number of missing bytes), or an unassigned opcode tag was met.
#[derive(Debug, Copy, Clone, PartialEq, Eq, Structural)]
pub enum BinaryFormatError {
    NeedMore(usize),
    IllegalOpcode(u8),
}

/// Writes values front to back into a fixed-size byte sink. The write
/// position advances only when the whole value fits; a value that does not
/// fit fails with `NeedMore` and leaves the position unchanged.
pub struct BinaryFormatWriter {
    sink: Vec<u8>,
    pos: usize,
}

impl BinaryFormatWriter {
    /// The writer never moves past the end of its sink.
    pub closed spec fn wf(&self) -> bool {
        self.pos <= self.sink@.len()
    }

    /// The bytes written so far.
    pub closed spec fn written(&self) -> Seq<u8> {
        self.sink@.take(self.pos as int)
    }

    /// The number of bytes still free.
    pub closed spec fn space(&self) -> int {
        self.sink@.len() - self.pos
    }

    /// The fixed total size of the sink.
    pub closed spec fn capacity(&self) -> int {
        self.sink@.len() as int
    }

    /// A writer over the given sink, positioned at its start. The sink's
    /// length is the writer's capacity and never changes.
    pub fn new(sink: Vec<u8>) -> (r: Self)
        ensures
            r.wf(),
            r.written() =~= Seq::<u8>::empty(),
            r.space() == sink@.len(),
    {
        Self { sink, pos: 0 }
    }

    /// Writes one byte.
    pub fn write_u8(&mut self, value: u8) -> (r: Result<(), BinaryFormatError>)
        requires
            old(self).wf(),
        ensures
            final(self).wf(),
            final(self).capacity() == old(self).capacity(),
            r is Ok <==> old(self).space() >= 1,
            r is Ok ==> final(self).written() =~= old(self).written() + seq![value]
                && final(self).space() == old(self).space() - 1,
            r is Err ==> *final(self) == *old(self) && r == Err::<(), BinaryFormatError>(
                BinaryFormatError::NeedMore((1 - old(self).space()) as usize),
            ),
    {
        self.require(1)?;
        self.sink.set(self.pos, value);
        proof {
            assert(self.sink@.take(self.pos + 1) =~= old(self).sink@.take(self.pos as int) + seq![
                value,
            ]);
        }
        self.skip(1)
    }

    /// Writes a big-endian unsigned 16-bit value.
    pub fn write_u16_be(&mut self, value: u16) -> (r: Result<(), BinaryFormatError>)
        requires
            old(self).wf(),
        ensures
            final(self).wf(),
            final(self).capacity() == old(self).capacity(),
            r is Ok <==> old(self).space() >= 2,
            r is Ok ==> final(self).written() =~= old(self).written() + u16_be_bytes(value)
                && final(self).space() == old(self).space() - 2,
            r is Err ==> *final(self) == *old(self) && r == Err::<(), BinaryFormatError>(
                BinaryFormatError::NeedMore((2 - old(self).space()) as usize),
            ),
    {
        self.require(2)?;
        write_u16_be_into(&mut self.sink, self.pos, value);
        proof {
            assert(self.sink@.take(self.pos + 2) =~= old(self).sink@.take(self.pos as int)
                + u16_be_bytes(value));
        }
        self.skip(2)
    }

    /// Writes a big-endian signed 16-bit value, as its two's-complement bits.
    pub fn write_i16_be(&mut self, value: i16) -> (r: Result<(), BinaryFormatError>)
        requires
            old(self).wf(),
        ensures
            final(self).wf(),
            final(self).capacity() == old(self).capacity(),
            r is Ok <==> old(self).space() >= 2,
            r is Ok ==> final(self).written() =~= old(self).written() + u16_be_bytes(
                spec_i16_bits(value),
            ) && final(self).space() == old(self).space() - 2,
            r is Err ==> *final(self) == *old(self) && r == Err::<(), BinaryFormatError>(
                BinaryFormatError::NeedMore((2 - old(self).space()) as usize),
            ),
    {
        self.write_u16_be(i16_bits(value))
    }

    /// Writes a big-endian unsigned 32-bit value.
    pub fn write_u32_be(&mut self, value: u32) -> (r: Result<(), BinaryFormatError>)
        requires
            old(self).wf(),
        ensures
            final(self).wf(),
            final(self).capacity() == old(self).capacity(),
            r is Ok <==> old(self).space() >= 4,
            r is Ok ==> final(self).written() =~= old(self).written() + u32_be_bytes(value)
                && final(self).space() == old(self).space() - 4,
            r is Err ==> *final(self) == *old(self) && r == Err::<(), BinaryFormatError>(
                BinaryFormatError::NeedMore((4 - old(self).space()) as usize),
            ),
    {
        self.require(4)?;
        write_u32_be_into(&mut self.sink, self.pos, value);
        proof {
            assert(self.sink@.take(self.pos + 4) =~= old(self).sink@.take(self.pos as int)
                + u32_be_bytes(value));
        }
        self.skip(4)
    }

    /// Writes a big-endian signed 32-bit value, as its two's-complement bits.
    pub fn write_i32_be(&mut self, value: i32) -> (r: Result<(), BinaryFormatError>)
        requires
            old(self).wf(),
        ensures
            final(self).wf(),
            final(self).capacity() == old(self).capacity(),
            r is Ok <==> old(self).space() >= 4,
            r is Ok ==> final(self).written() =~= old(self).written() + u32_be_bytes(
                spec_i32_bits(value),
            ) && final(self).space() == old(self).space() - 4,
            r is Err ==> *final(self) == *old(self) && r == Err::<(), BinaryFormatError>(
                BinaryFormatError::NeedMore((4 - old(self).space()) as usize),
            ),
    {
        self.write_u32_be(i32_bits(value))
    }

    /// Writes a big-endian unsigned 64-bit value.
    pub fn write_u64_be(&mut self, value: u64) -> (r: Result<(), BinaryFormatError>)
        requires
            old(self).wf(),
        ensures
            final(self).wf(),
            final(self).capacity() == old(self).capacity(),
            r is Ok <==> old(self).space() >= 8,
            r is Ok ==> final(self).written() =~= old(self).written() + u64_be_bytes(value)
                && final(self).space() == old(self).space() - 8,
            r is Err ==> *final(self) == *old(self) && r == Err::<(), BinaryFormatError>(
                BinaryFormatError::NeedMore((8 - old(self).space()) as usize),
            ),
    {
        self.require(8)?;
        write_u64_be_into(&mut self.sink, self.pos, value);
        proof {
            assert(self.sink@.take(self.pos + 8) =~= old(self).sink@.take(self.pos as int)
                + u64_be_bytes(value));
        }
        self.skip(8)
    }

    /// Writes a big-endian signed 64-bit value, as its two's-complement bits.
    pub fn write_i64_be(&mut self, value: i64) -> (r: Result<(), BinaryFormatError>)
        requires
            old(self).wf(),
        ensures
            final(self).wf(),
            final(self).capacity() == old(self).capacity(),
            r is Ok <==> old(self).space() >= 8,
            r is Ok ==> final(self).written() =~= old(self).written() + u64_be_bytes(
                spec_i64_bits(value),
            ) && final(self).space() == old(self).space() - 8,
            r is Err ==> *final(self) == *old(self) && r == Err::<(), BinaryFormatError>(
                BinaryFormatError::NeedMore((8 - old(self).space()) as usize),
            ),
    {
        self.write_u64_be(i64_bits(value))
    }

    /// Fails with the number of missing bytes when fewer than `n` bytes of
    /// the sink are free.
    fn require(&self, n: usize) -> (r: Result<(), BinaryFormatError>)
        requires
            self.wf(),
            n <= 8,
        ensures
            r is Ok <==> self.space() >= n,
            r is Err ==> r == Err::<(), BinaryFormatError>(
                BinaryFormatError::NeedMore((n - self.space()) as usize),
            ),
    {
        if self.sink.len() - self.pos < n {
            Err(BinaryFormatError::NeedMore(n - (self.sink.len() - self.pos)))
        } else {
            Ok(())
        }
    }

    /// Advances the write position over `n` freshly written bytes.
    fn skip(&mut self, n: usize) -> (r: Result<(), BinaryFormatError>)
        requires
            old(self).wf(),
            old(self).space() >= n,
        ensures
            final(self).wf(),
            final(self).sink == old(self).sink,
            final(self).pos == old(self).pos + n,
            r is Ok,
    {
        let len = self.sink.len();
        proof {
            assert(self.pos + n <= len);
        }
        self.pos = self.pos + n;
        Ok(())
    }

    /// The bytes written so far, as an owned vector.
    pub fn to_vec(&self) -> (r: Vec<u8>)
        requires
            self.wf(),
        ensures
            r@ == self.written(),
    {
        let mut result: Vec<u8> = Vec::new();
        let mut i: usize = 0;
        while i < self.pos
            invariant
                self.wf(),
                i <= self.pos,
                result@ =~= self.sink@.take(self.pos as int).take(i as int),
            decreases self.pos - i,
        {
            result.push(self.sink[i]);
            i = i + 1;
            proof {
                assert(self.sink@.take(self.pos as int).take(i as int) =~= self.sink@.take(
                    self.pos as int,
                ).take(i as int - 1).push(self.sink@[i as int - 1]));
            }
        }
        proof {
            assert(self.written().take(self.pos as int) =~= self.written());
        }
        result
    }
}

/// What well-formedness of a writer means for its abstract quantities: no
/// space is negative, and written bytes and free space partition the sink.
pub broadcast proof fn lemma_writer_invariants(w: &BinaryFormatWriter)
    ensures
        #[trigger] w.wf() ==> 0 <= w.space() && w.written().len() == w.capacity() - w.space()
            && w.capacity() >= 0,
{
}

/// Reads values front to back out of a byte buffer. Each successful read
/// consumes exactly the bytes of one value; reading past the end fails with
/// `NeedMore` and the number of missing bytes.
pub struct BinaryFormatReader {
    sink: Vec<u8>,
    pos: usize,
}

impl BinaryFormatReader {
    /// The reader never moves past the end of its buffer.
    pub closed spec fn wf(&self) -> bool {
        self.pos <= self.sink@.len()
    }

    /// The bytes not yet consumed.
    pub closed spec fn remaining(&self) -> Seq<u8> {
        self.sink@.skip(self.pos as int)
    }

    /// The whole underlying buffer.
    pub closed spec fn buffer(&self) -> Seq<u8> {
        self.sink@
    }

    /// A reader over the given buffer, positioned at its start.
    pub fn new(sink: Vec<u8>) -> (r: Self)
        ensures
            r.wf(),
            r.remaining() =~= sink@,
            r.buffer() == sink@,
            r.spec_pos() == 0,
    {
        Self { sink, pos: 0 }
    }

    /// The current read position.
    pub closed spec fn spec_pos(&self) -> int {
        self.pos as int
    }

    /// Whether every byte has been consumed.
    pub fn is_empty(&self) -> (r: bool)
        requires
            self.wf(),
        ensures
            r == (self.remaining().len() == 0),
    {
        self.pos >= self.sink.len()
    }

    /// The current read position, in bytes from the buffer's start.
    pub fn pos(&self) -> (r: usize)
        ensures
            r == self.spec_pos(),
    {
        self.pos
    }

    /// Reads one byte.
    pub fn read_u8(&mut self) -> (r: Result<u8, BinaryFormatError>)
        requires
            old(self).wf(),
        ensures
            final(self).wf(),
            final(self).buffer() == old(self).buffer(),
            r is Ok <==> old(self).remaining().len() >= 1,
            r is Ok ==> r == Ok::<u8, BinaryFormatError>(old(self).remaining()[0])
                && final(self).remaining() =~= old(self).remaining().skip(1) && final(self).spec_pos() == old(self).spec_pos() + 1,
            r is Err ==> *final(self) == *old(self) && r == Err::<u8, BinaryFormatError>(
                BinaryFormatError::NeedMore((1 - old(self).remaining().len()) as usize),
            ),
    {
        self.require(1)?;
        let result = self.sink[self.pos];
        self.skip(1)?;
        Ok(result)
    }

    /// Reads a big-endian unsigned 16-bit value.
    pub fn read_u16_be(&mut self) -> (r: Result<u16, BinaryFormatError>)
        requires
            old(self).wf(),
        ensures
            final(self).wf(),
            final(self).buffer() == old(self).buffer(),
            r is Ok <==> old(self).remaining().len() >= 2,
            r is Ok ==> r == Ok::<u16, BinaryFormatError>(
                u16_of_be(old(self).remaining().take(2)),
            ) && final(self).remaining() =~= old(self).remaining().skip(2) && final(self).spec_pos() == old(self).spec_pos() + 2,
            r is Err ==> *final(self) == *old(self) && r == Err::<u16, BinaryFormatError>(
                BinaryFormatError::NeedMore((2 - old(self).remaining().len()) as usize),
            ),
    {
        self.require(2)?;
        let result = read_u16_be_at(&self.sink, self.pos);
        proof {
            assert(self.sink@.subrange(self.pos as int, self.pos + 2) =~= self.remaining().take(
                2,
            ));
        }
        self.skip(2)?;
        Ok(result)
    }

    /// Reads a big-endian signed 16-bit value from its two's-complement bits.
    pub fn read_i16_be(&mut self) -> (r: Result<i16, BinaryFormatError>)
        requires
            old(self).wf(),
        ensures
            final(self).wf(),
            final(self).buffer() == old(self).buffer(),
            r is Ok <==> old(self).remaining().len() >= 2,
            r is Ok ==> r == Ok::<i16, BinaryFormatError>(
                spec_i16_of_bits(u16_of_be(old(self).remaining().take(2))),
            ) && final(self).remaining() =~= old(self).remaining().skip(2) && final(self).spec_pos() == old(self).spec_pos() + 2,
            r is Err ==> *final(self) == *old(self) && r == Err::<i16, BinaryFormatError>(
                BinaryFormatError::NeedMore((2 - old(self).remaining().len()) as usize),
            ),
    {
        let bits = self.read_u16_be()?;
        Ok(i16_of_bits(bits))
    }

    /// Reads a big-endian unsigned 32-bit value.
    pub fn read_u32_be(&mut self) -> (r: Result<u32, BinaryFormatError>)
        requires
            old(self).wf(),
        ensures
            final(self).wf(),
            final(self).buffer() == old(self).buffer(),
            r is Ok <==> old(self).remaining().len() >= 4,
            r is Ok ==> r == Ok::<u32, BinaryFormatError>(
                u32_of_be(old(self).remaining().take(4)),
            ) && final(self).remaining() =~= old(self).remaining().skip(4) && final(self).spec_pos() == old(self).spec_pos() + 4,
            r is Err ==> *final(self) == *old(self) && r == Err::<u32, BinaryFormatError>(
                BinaryFormatError::NeedMore((4 - old(self).remaining().len()) as usize),
            ),
    {
        self.require(4)?;
        let result = read_u32_be_at(&self.sink, self.pos);
        proof {
            assert(self.sink@.subrange(self.pos as int, self.pos + 4) =~= self.remaining().take(
                4,
            ));
        }
        self.skip(4)?;
        Ok(result)
    }

    /// Reads a big-endian signed 32-bit value from its two's-complement bits.
    pub fn read_i32_be(&mut self) -> (r: Result<i32, BinaryFormatError>)
        requires
            old(self).wf(),
        ensures
            final(self).wf(),
            final(self).buffer() == old(self).buffer(),
            r is Ok <==> old(self).remaining().len() >= 4,
            r is Ok ==> r == Ok::<i32, BinaryFormatError>(
                spec_i32_of_bits(u32_of_be(old(self).remaining().take(4))),
            ) && final(self).remaining() =~= old(self).remaining().skip(4) && final(self).spec_pos() == old(self).spec_pos() + 4,
            r is Err ==> *final(self) == *old(self) && r == Err::<i32, BinaryFormatError>(
                BinaryFormatError::NeedMore((4 - old(self).remaining().len()) as usize),
            ),
    {
        let bits = self.read_u32_be()?;
        Ok(i32_of_bits(bits))
    }

    /// Reads a big-endian unsigned 64-bit value.
    pub fn read_u64_be(&mut self) -> (r: Result<u64, BinaryFormatError>)
        requires
            old(self).wf(),
        ensures
            final(self).wf(),
            final(self).buffer() == old(self).buffer(),
            r is Ok <==> old(self).remaining().len() >= 8,
            r is Ok ==> r == Ok::<u64, BinaryFormatError>(
                u64_of_be(old(self).remaining().take(8)),
            ) && final(self).remaining() =~= old(self).remaining().skip(8) && final(self).spec_pos() == old(self).spec_pos() + 8,
            r is Err ==> *final(self) == *old(self) && r == Err::<u64, BinaryFormatError>(
                BinaryFormatError::NeedMore((8 - old(self).remaining().len()) as usize),
            ),
    {
        self.require(8)?;
        let result = read_u64_be_at(&self.sink, self.pos);
        proof {
            assert(self.sink@.subrange(self.pos as int, self.pos + 8) =~= self.remaining().take(
                8,
            ));
        }
        self.skip(8)?;
        Ok(result)
    }

    /// Reads a big-endian signed 64-bit value from its two's-complement bits.
    pub fn read_i64_be(&mut self) -> (r: Result<i64, BinaryFormatError>)
        requires
            old(self).wf(),
        ensures
            final(self).wf(),
            final(self).buffer() == old(self).buffer(),
            r is Ok <==> old(self).remaining().len() >= 8,
            r is Ok ==> r == Ok::<i64, BinaryFormatError>(
                spec_i64_of_bits(u64_of_be(old(self).remaining().take(8))),
            ) && final(self).remaining() =~= old(self).remaining().skip(8) && final(self).spec_pos() == old(self).spec_pos() + 8,
            r is Err ==> *final(self) == *old(self) && r == Err::<i64, BinaryFormatError>(
                BinaryFormatError::NeedMore((8 - old(self).remaining().len()) as usize),
            ),
    {
        let bits = self.read_u64_be()?;
        Ok(i64_of_bits(bits))
    }

    /// Fails with the number of missing bytes when fewer than `n` bytes
    /// remain; consumes nothing. Unlike the per-value reads, this may ask
    /// for a whole opcode's worth of bytes at once.
    pub(crate) fn ensure_remaining(&self, n: usize) -> (r: Result<(), BinaryFormatError>)
        requires
            self.wf(),
        ensures
            r is Ok <==> self.remaining().len() >= n,
            r is Err ==> r == Err::<(), BinaryFormatError>(
                BinaryFormatError::NeedMore((n - self.remaining().len()) as usize),
            ),
    {
        if self.sink.len() - self.pos < n {
            Err(BinaryFormatError::NeedMore(n - (self.sink.len() - self.pos)))
        } else {
            Ok(())
        }
    }

    /// Fails with the number of missing bytes when fewer than `n` bytes
    /// remain.
    fn require(&self, n: usize) -> (r: Result<(), BinaryFormatError>)
        requires
            self.wf(),
            n <= 8,
        ensures
            r is Ok <==> self.remaining().len() >= n,
            r is Err ==> r == Err::<(), BinaryFormatError>(
                BinaryFormatError::NeedMore((n - self.remaining().len()) as usize),
            ),
    {
        if self.sink.len() - self.pos < n {
            Err(BinaryFormatError::NeedMore(n - (self.sink.len() - self.pos)))
        } else {
            Ok(())
        }
    }

    /// Advances the read position over `n` consumed bytes.
    fn skip(&mut self, n: usize) -> (r: Result<(), BinaryFormatError>)
        requires
            old(self).wf(),
            old(self).remaining().len() >= n,
        ensures
            final(self).wf(),
            final(self).sink == old(self).sink,
            final(self).pos == old(self).pos + n,
            final(self).remaining() =~= old(self).remaining().skip(n as int),
            r is Ok,
    {
        let len = self.sink.len();
        proof {
            assert(old(self).remaining().len() == self.sink@.len() - self.pos);
            assert(self.pos + n <= len);
        }
        self.pos = self.pos + n;
        Ok(())
    }

}

/// What well-formedness of a reader means for its abstract quantities: the
/// position is inside the buffer and the remaining bytes are the buffer past
/// the position.
pub broadcast proof fn lemma_reader_invariants(r: &BinaryFormatReader)
    ensures
        #[trigger] r.wf() ==> 0 <= r.spec_pos() <= r.buffer().len() && r.remaining()
            =~= r.buffer().skip(r.spec_pos()) && r.remaining().len() == r.buffer().len()
            - r.spec_pos(),
{
}

} // verus!
