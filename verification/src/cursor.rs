//! A bounds-checked reading position in a byte buffer.

use vstd::prelude::*;
use crate::bytes::{le_u16, le_u32, le_u64, le_u128, u16_from_le, u32_from_le, u64_from_le, u128_from_le};
use crate::error::DecodeError;
use crate::filetime::FileTime;
use crate::text::{decode_text, decoded_text, Encoding};

verus! {

/// What a read of `width` bytes at `before` comes to, where `value` is what
/// the bytes there hold: the value with the position moved past it, or
/// `TruncatedInput` with the position unchanged.
pub open spec fn reads<T>(
    bytes: Seq<u8>,
    before: int,
    after: int,
    width: int,
    r: Result<T, DecodeError>,
    value: T,
) -> bool {
    if before + width <= bytes.len() {
        r == Ok::<T, DecodeError>(value) && after == before + width
    } else {
        r == Err::<T, DecodeError>(DecodeError::TruncatedInput) && after == before
    }
}

/// The index just past the length-prefixed string that starts at `at`: a
/// 16-bit count and then that many characters.
#[verifier::opaque]
pub open spec fn text_field_end(s: Seq<u8>, at: int, encoding: Encoding) -> int {
    at + 2 + le_u16(s, at) * encoding.spec_width()
}

/// Whether the length-prefixed string that starts at `at` lies within `s`.
pub open spec fn text_field_fits(s: Seq<u8>, at: int, encoding: Encoding) -> bool {
    at + 2 <= s.len() && text_field_end(s, at, encoding) <= s.len()
}

/// The text of the length-prefixed string that starts at `at`.
pub open spec fn text_field(s: Seq<u8>, at: int, encoding: Encoding) -> Seq<char> {
    decoded_text(s.subrange(at + 2, text_field_end(s, at, encoding)), encoding)
}

/// A position in a borrowed buffer. Reads advance it; a failed read leaves it
/// where it was. The position never passes the end of the buffer.
pub struct ByteCursor<'a> {
    data: &'a [u8],
    pos: usize,
}

impl<'a> ByteCursor<'a> {
    #[verifier::type_invariant]
    spec fn in_bounds(&self) -> bool {
        self.pos <= self.data@.len()
    }

    /// The whole buffer, read or not.
    pub closed spec fn bytes(&self) -> Seq<u8> {
        self.data@
    }

    /// The index of the next byte to be read.
    pub closed spec fn offset(&self) -> int {
        self.pos as int
    }

    /// A cursor at the start of `data`.
    pub fn new(data: &'a [u8]) -> (cursor: Self)
        ensures
            cursor.bytes() == data@,
            cursor.offset() == 0,
    {
        ByteCursor { data, pos: 0 }
    }

    /// The length of the whole buffer.
    pub fn len(&self) -> (n: usize)
        ensures
            n == self.bytes().len(),
    {
        self.data.len()
    }

    /// The index of the next byte to be read.
    pub fn position(&self) -> (at: usize)
        ensures
            at == self.offset(),
            at <= self.bytes().len() <= usize::MAX,
    {
        proof {
            use_type_invariant(self);
            assert(self.data.len() == self.data@.len());
        }
        self.pos
    }

    /// The number of bytes between the position and the end of the buffer.
    pub fn remaining_len(&self) -> (n: usize)
        ensures
            n == self.bytes().len() - self.offset(),
    {
        proof {
            use_type_invariant(self);
        }
        self.data.len() - self.pos
    }

    /// Moves to `target`, which may be the end of the buffer but not beyond it.
    pub fn seek_absolute(&mut self, target: usize) -> (r: Result<(), DecodeError>)
        ensures
            final(self).bytes() == old(self).bytes(),
            target <= old(self).bytes().len() ==> r == Ok::<(), DecodeError>(())
                && final(self).offset() == target,
            target > old(self).bytes().len() ==> r == Err::<(), DecodeError>(
                DecodeError::OffsetOutOfRange,
            ) && final(self).offset() == old(self).offset(),
    {
        proof {
            use_type_invariant(&*self);
        }
        if target > self.data.len() {
            Err(DecodeError::OffsetOutOfRange)
        } else {
            self.pos = target;
            Ok(())
        }
    }

    /// Reads one byte.
    pub fn read_u8(&mut self) -> (r: Result<u8, DecodeError>)
        ensures
            final(self).bytes() == old(self).bytes(),
            match r {
                Ok(v) => old(self).offset() + 1 <= old(self).bytes().len()
                    && v == old(self).bytes()[old(self).offset()]
                    && final(self).offset() == old(self).offset() + 1,
                Err(e) => e == DecodeError::TruncatedInput
                    && old(self).offset() + 1 > old(self).bytes().len()
                    && final(self).offset() == old(self).offset(),
            },
    {
        proof {
            use_type_invariant(&*self);
        }
        if self.data.len() - self.pos < 1 {
            return Err(DecodeError::TruncatedInput);
        }
        let v = self.data[self.pos];
        self.pos = self.pos + 1;
        Ok(v)
    }

    /// Reads a 16-bit little-endian integer.
    pub fn read_u16(&mut self) -> (r: Result<u16, DecodeError>)
        ensures
            final(self).bytes() == old(self).bytes(),
            reads(
                old(self).bytes(),
                old(self).offset(),
                final(self).offset(),
                2,
                r,
                le_u16(old(self).bytes(), old(self).offset()),
            ),
    {
        proof {
            use_type_invariant(&*self);
        }
        if self.data.len() - self.pos < 2 {
            return Err(DecodeError::TruncatedInput);
        }
        let v = u16_from_le(self.data[self.pos], self.data[self.pos + 1]);
        self.pos = self.pos + 2;
        Ok(v)
    }

    /// Reads a 32-bit little-endian integer.
    pub fn read_u32(&mut self) -> (r: Result<u32, DecodeError>)
        ensures
            final(self).bytes() == old(self).bytes(),
            reads(
                old(self).bytes(),
                old(self).offset(),
                final(self).offset(),
                4,
                r,
                le_u32(old(self).bytes(), old(self).offset()),
            ),
    {
        proof {
            use_type_invariant(&*self);
        }
        if self.data.len() - self.pos < 4 {
            return Err(DecodeError::TruncatedInput);
        }
        let lo = u16_from_le(self.data[self.pos], self.data[self.pos + 1]);
        let hi = u16_from_le(self.data[self.pos + 2], self.data[self.pos + 3]);
        self.pos = self.pos + 4;
        Ok(u32_from_le(lo, hi))
    }

    /// Reads a 64-bit little-endian integer.
    pub fn read_u64(&mut self) -> (r: Result<u64, DecodeError>)
        ensures
            final(self).bytes() == old(self).bytes(),
            reads(
                old(self).bytes(),
                old(self).offset(),
                final(self).offset(),
                8,
                r,
                le_u64(old(self).bytes(), old(self).offset()),
            ),
    {
        proof {
            use_type_invariant(&*self);
        }
        if self.data.len() - self.pos < 8 {
            return Err(DecodeError::TruncatedInput);
        }
        let lo = match self.read_u32() {
            Ok(v) => v,
            Err(e) => { return Err(e); },
        };
        let hi = match self.read_u32() {
            Ok(v) => v,
            Err(e) => { return Err(e); },
        };
        Ok(u64_from_le(lo, hi))
    }

    /// Reads a class identifier: 16 bytes, taken as one little-endian integer.
    pub fn read_guid(&mut self) -> (r: Result<u128, DecodeError>)
        ensures
            final(self).bytes() == old(self).bytes(),
            reads(
                old(self).bytes(),
                old(self).offset(),
                final(self).offset(),
                16,
                r,
                le_u128(old(self).bytes(), old(self).offset()),
            ),
    {
        proof {
            use_type_invariant(&*self);
        }
        if self.data.len() - self.pos < 16 {
            return Err(DecodeError::TruncatedInput);
        }
        let lo = match self.read_u64() {
            Ok(v) => v,
            Err(e) => { return Err(e); },
        };
        let hi = match self.read_u64() {
            Ok(v) => v,
            Err(e) => { return Err(e); },
        };
        Ok(u128_from_le(lo, hi))
    }

    /// Reads a file time of 8 bytes. A stored zero comes back as `None`.
    pub fn read_filetime(&mut self) -> (r: Result<Option<FileTime>, DecodeError>)
        ensures
            final(self).bytes() == old(self).bytes(),
            reads(
                old(self).bytes(),
                old(self).offset(),
                final(self).offset(),
                8,
                r,
                FileTime::spec_from_ticks(le_u64(old(self).bytes(), old(self).offset())),
            ),
    {
        match self.read_u64() {
            Ok(ticks) => Ok(FileTime::from_ticks(ticks)),
            Err(e) => Err(e),
        }
    }

    /// Reads the next `n` bytes.
    pub fn read_fixed_bytes(&mut self, n: usize) -> (r: Result<Vec<u8>, DecodeError>)
        ensures
            final(self).bytes() == old(self).bytes(),
            match r {
                Ok(taken) => old(self).offset() + n <= old(self).bytes().len()
                    && taken@ == old(self).bytes().subrange(
                    old(self).offset(),
                    old(self).offset() + n,
                ) && final(self).offset() == old(self).offset() + n,
                Err(e) => e == DecodeError::TruncatedInput
                    && old(self).offset() + n > old(self).bytes().len()
                    && final(self).offset() == old(self).offset(),
            },
    {
        proof {
            use_type_invariant(&*self);
        }
        if self.data.len() - self.pos < n {
            return Err(DecodeError::TruncatedInput);
        }
        let start: usize = self.pos;
        let len: usize = self.data.len();
        let mut taken: Vec<u8> = Vec::new();
        let mut i: usize = 0;
        while i < n
            invariant
                len == self.data@.len(),
                start + n <= len,
                i <= n,
                taken@.len() == i,
                forall|k: int| 0 <= k < i ==> taken@[k] == self.data@[start + k],
            decreases n - i,
        {
            taken.push(self.data[start + i]);
            i = i + 1;
        }
        assert(taken@ =~= self.data@.subrange(start as int, start + n));
        self.pos = start + n;
        Ok(taken)
    }

    /// Reads a string that is stored as a 16-bit character count followed by
    /// that many characters. On failure nothing is consumed.
    pub fn read_length_prefixed_string(&mut self, encoding: Encoding) -> (r: Result<
        String,
        DecodeError,
    >)
        ensures
            final(self).bytes() == old(self).bytes(),
            match r {
                Ok(text) => text_field_fits(old(self).bytes(), old(self).offset(), encoding)
                    && text@ == text_field(old(self).bytes(), old(self).offset(), encoding)
                    && final(self).offset() == text_field_end(
                    old(self).bytes(),
                    old(self).offset(),
                    encoding,
                ),
                Err(e) => e == DecodeError::TruncatedInput && !text_field_fits(
                    old(self).bytes(),
                    old(self).offset(),
                    encoding,
                ) && final(self).offset() == old(self).offset(),
            },
    {
        proof {
            use_type_invariant(&*self);
            reveal(text_field_end);
        }
        let start: usize = self.pos;
        let count = match self.read_u16() {
            Ok(v) => v,
            Err(e) => { return Err(e); },
        };
        let n: usize = count as usize * encoding.width();
        match self.read_fixed_bytes(n) {
            Ok(taken) => Ok(decode_text(taken.as_slice(), encoding)),
            Err(e) => {
                self.pos = start;
                Err(e)
            },
        }
    }
}

} // verus!
