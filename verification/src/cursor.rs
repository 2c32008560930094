use vstd::prelude::*;
use byteorder::ByteOrder;
use crate::error::DecodeError;

verus! {

/// The value of two bytes read as a little-endian unsigned integer.
pub open spec fn le16(b: Seq<u8>) -> int {
    b[0] as int + 256 * (b[1] as int)
}

/// The value of four bytes read as a little-endian unsigned integer.
pub open spec fn le32(b: Seq<u8>) -> int {
    b[0] as int + 256 * (b[1] as int) + 65536 * (b[2] as int) + 16777216 * (b[3] as int)
}

/// Calls `byteorder::LittleEndian::read_u16`, which panics on fewer than two
/// bytes and otherwise returns the little-endian value of the first two.
#[verifier::external_body]
fn le_u16(bytes: &[u8]) -> (r: u16)
    requires
        bytes@.len() >= 2,
    ensures
        r as int == le16(bytes@),
{
    byteorder::LittleEndian::read_u16(bytes)
}

/// Calls `byteorder::LittleEndian::read_u32`, which panics on fewer than four
/// bytes and otherwise returns the little-endian value of the first four.
#[verifier::external_body]
fn le_u32(bytes: &[u8]) -> (r: u32)
    requires
        bytes@.len() >= 4,
    ensures
        r as int == le32(bytes@),
{
    byteorder::LittleEndian::read_u32(bytes)
}

/// A forward-only read position over a borrowed byte buffer.
pub struct ByteCursor<'a> {
    data: &'a [u8],
    pos: usize,
}

impl<'a> ByteCursor<'a> {
    #[verifier::type_invariant]
    spec fn inv(&self) -> bool {
        self.pos <= self.data@.len()
    }

    /// The whole buffer the cursor reads from.
    pub closed spec fn bytes(&self) -> Seq<u8> {
        self.data@
    }

    /// The number of bytes already consumed.
    pub closed spec fn offset(&self) -> int {
        self.pos as int
    }

    /// A cursor at the start of `data`.
    pub fn new(data: &'a [u8]) -> (c: Self)
        ensures
            c.bytes() == data@,
            c.offset() == 0,
    {
        ByteCursor { data, pos: 0 }
    }

    /// The current offset from the start of the buffer.
    pub fn position(&self) -> (r: u64)
        ensures
            r == self.offset(),
            r <= self.bytes().len(),
    {
        proof {
            use_type_invariant(self);
        }
        self.pos as u64
    }

    /// The number of bytes not yet consumed.
    pub fn remaining(&self) -> (r: usize)
        ensures
            r == self.bytes().len() - self.offset(),
    {
        proof {
            use_type_invariant(self);
        }
        self.data.len() - self.pos
    }

    /// Reads one byte.
    pub fn read_u8(&mut self) -> (r: Result<u8, DecodeError>)
        ensures
            final(self).bytes() == old(self).bytes(),
            old(self).offset() < old(self).bytes().len() ==> r == Ok::<u8, DecodeError>(
                old(self).bytes()[old(self).offset()],
            ) && final(self).offset() == old(self).offset() + 1,
            old(self).offset() >= old(self).bytes().len() ==> r == Err::<u8, DecodeError>(
                DecodeError::TruncatedInput,
            ) && final(self).offset() == old(self).offset(),
    {
        proof {
            use_type_invariant(&*self);
        }
        if self.pos < self.data.len() {
            let b: u8 = self.data[self.pos];
            self.pos = self.pos + 1;
            Ok(b)
        } else {
            Err(DecodeError::TruncatedInput)
        }
    }

    /// Reads exactly `n` bytes, or fails without moving when fewer remain.
    pub fn read_fixed(&mut self, n: u64) -> (r: Result<Vec<u8>, DecodeError>)
        ensures
            final(self).bytes() == old(self).bytes(),
            old(self).offset() + n <= old(self).bytes().len() ==> r is Ok && r->Ok_0@
                == old(self).bytes().subrange(
                old(self).offset(),
                old(self).offset() + n,
            ) && final(self).offset() == old(self).offset() + n,
            old(self).offset() + n > old(self).bytes().len() ==> r == Err::<Vec<u8>, DecodeError>(
                DecodeError::TruncatedInput,
            ) && final(self).offset() == old(self).offset(),
    {
        proof {
            use_type_invariant(&*self);
        }
        let left: usize = self.data.len() - self.pos;
        if n > left as u64 {
            return Err(DecodeError::TruncatedInput);
        }
        let count: usize = n as usize;
        let start: usize = self.pos;
        let mut out: Vec<u8> = Vec::new();
        let mut i: usize = 0;
        while i < count
            invariant
                i <= count,
                start + count <= self.data@.len() <= usize::MAX,
                out@ == self.data@.subrange(start as int, start + i),
            decreases count - i,
        {
            out.push(self.data[start + i]);
            i = i + 1;
            assert(out@ =~= self.data@.subrange(start as int, start + i));
        }
        self.pos = start + count;
        Ok(out)
    }

    /// Reads two bytes as a little-endian unsigned integer.
    pub fn read_le16(&mut self) -> (r: Result<u16, DecodeError>)
        ensures
            final(self).bytes() == old(self).bytes(),
            old(self).offset() + 2 <= old(self).bytes().len() ==> r is Ok && r->Ok_0 as int
                == le16(old(self).bytes().subrange(old(self).offset(), old(self).offset() + 2))
                && final(self).offset() == old(self).offset() + 2,
            old(self).offset() + 2 > old(self).bytes().len() ==> r == Err::<u16, DecodeError>(
                DecodeError::TruncatedInput,
            ) && final(self).offset() == old(self).offset(),
    {
        match self.read_fixed(2) {
            Ok(raw) => Ok(le_u16(raw.as_slice())),
            Err(e) => Err(e),
        }
    }

    /// Reads four bytes as a little-endian unsigned integer.
    pub fn read_le32(&mut self) -> (r: Result<u32, DecodeError>)
        ensures
            final(self).bytes() == old(self).bytes(),
            old(self).offset() + 4 <= old(self).bytes().len() ==> r is Ok && r->Ok_0 as int
                == le32(old(self).bytes().subrange(old(self).offset(), old(self).offset() + 4))
                && final(self).offset() == old(self).offset() + 4,
            old(self).offset() + 4 > old(self).bytes().len() ==> r == Err::<u32, DecodeError>(
                DecodeError::TruncatedInput,
            ) && final(self).offset() == old(self).offset(),
    {
        match self.read_fixed(4) {
            Ok(raw) => Ok(le_u32(raw.as_slice())),
            Err(e) => Err(e),
        }
    }
}

} // verus!
