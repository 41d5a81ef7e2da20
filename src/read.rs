//! Byte access over an in-memory buffer, and the outside calls the
//! decoder relies on.

use vstd::prelude::*;

use crate::layout::{i32_le, i8_le, u16_le, u32_le, u32s_at, utf8_text};
use crate::model::Error;

verus! {

/// A byte source over an in-memory buffer: hands out consecutive runs of
/// the buffer without copying it.
pub struct SliceReader<'a> {
    pub slice: &'a [u8],
    pub pos: usize,
}

impl<'a> SliceReader<'a> {
    /// The whole buffer the reader walks over.
    pub open spec fn data(&self) -> Seq<u8> {
        self.slice@
    }

    pub open spec fn wf(&self) -> bool {
        self.pos <= self.slice@.len()
    }

    pub fn new(slice: &'a [u8]) -> (r: Self)
        ensures
            r.data() == slice@,
            r.pos == 0,
            r.wf(),
    {
        SliceReader { slice, pos: 0 }
    }

    /// True when every byte has been handed out.
    pub fn at_end(&self) -> (r: bool)
        requires
            self.wf(),
        ensures
            r == (self.pos == self.data().len()),
    {
        self.pos == self.slice.len()
    }

    /// Claims the next `len` bytes and returns the offset at which they start,
    /// or fails with `Error::UnexpectedEof`, leaving the reader untouched,
    /// when fewer than `len` remain.
    pub fn buf_read_exact(&mut self, len: usize) -> (r: Result<usize, Error>)
        requires
            old(self).wf(),
        ensures
            final(self).wf(),
            final(self).data() == old(self).data(),
            match r {
                Ok(start) => old(self).pos + len <= old(self).data().len() && start == old(self).pos
                    && final(self).pos == old(self).pos + len,
                Err(e) => old(self).pos + len > old(self).data().len() && e == Error::UnexpectedEof
                    && final(self).pos == old(self).pos,
            },
    {
        if len > self.slice.len() - self.pos {
            return Err(Error::UnexpectedEof);
        }
        let start = self.pos;
        self.pos = self.pos + len;
        Ok(start)
    }

    /// The byte at offset `p`, as an unsigned value.
    pub fn byte_at(&self, p: usize) -> (r: u8)
        requires
            p < self.data().len(),
        ensures
            r == self.data()[p as int],
    {
        self.slice[p]
    }

    /// The byte at offset `p`, as a signed value.
    pub fn i8_at(&self, p: usize) -> (r: i8)
        requires
            p < self.data().len(),
        ensures
            r == i8_le(self.data(), p as int),
    {
        let b = self.slice[p];
        if b < 128 {
            b as i8
        } else {
            ((b - 128) as i8) - 64 - 64
        }
    }

    /// The little-endian `u16` at offset `p`.
    pub fn u16_at(&self, p: usize) -> (r: u16)
        requires
            p + 2 <= self.data().len(),
        ensures
            r == u16_le(self.data(), p as int),
    {
        let b0 = self.slice[p] as u16;
        let b1 = self.slice[p + 1] as u16;
        b0 + b1 * 256
    }

    /// The little-endian `u32` at offset `p`.
    pub fn u32_at(&self, p: usize) -> (r: u32)
        requires
            p + 4 <= self.data().len(),
        ensures
            r == u32_le(self.data(), p as int),
    {
        let b0 = self.slice[p] as u32;
        let b1 = self.slice[p + 1] as u32;
        let b2 = self.slice[p + 2] as u32;
        let b3 = self.slice[p + 3] as u32;
        b0 + b1 * 0x100 + b2 * 0x1_0000 + b3 * 0x100_0000
    }

    /// The little-endian two's-complement `i32` at offset `p`.
    pub fn i32_at(&self, p: usize) -> (r: i32)
        requires
            p + 4 <= self.data().len(),
        ensures
            r == i32_le(self.data(), p as int),
    {
        let u = self.u32_at(p);
        if u < 0x8000_0000 {
            u as i32
        } else {
            ((u - 0x8000_0000) as i32) - 0x4000_0000 - 0x4000_0000
        }
    }

    /// Two little-endian `u32`s stored one after another from `p`.
    pub fn u32x2_at(&self, p: usize) -> (r: [u32; 2])
        requires
            p + 8 <= self.data().len(),
        ensures
            u32s_at(self.data(), p as int, r@),
    {
        proof {
            assert(self.slice.len() == self.data().len());
        }
        let r = [self.u32_at(p), self.u32_at(p + 4)];
        assert(r@.len() == 2);
        r
    }

    /// Three little-endian `u32`s stored one after another from `p`.
    pub fn u32x3_at(&self, p: usize) -> (r: [u32; 3])
        requires
            p + 12 <= self.data().len(),
        ensures
            u32s_at(self.data(), p as int, r@),
    {
        proof {
            assert(self.slice.len() == self.data().len());
        }
        let r = [self.u32_at(p), self.u32_at(p + 4), self.u32_at(p + 8)];
        assert(r@.len() == 3);
        r
    }

    /// Four little-endian `u32`s stored one after another from `p`.
    pub fn u32x4_at(&self, p: usize) -> (r: [u32; 4])
        requires
            p + 16 <= self.data().len(),
        ensures
            u32s_at(self.data(), p as int, r@),
    {
        proof {
            assert(self.slice.len() == self.data().len());
        }
        let r = [self.u32_at(p), self.u32_at(p + 4), self.u32_at(p + 8), self.u32_at(p + 12)];
        assert(r@.len() == 4);
        r
    }

    /// Three little-endian `u16`s stored one after another from `p`.
    pub fn u16x3_at(&self, p: usize) -> (r: [u16; 3])
        requires
            p + 6 <= self.data().len(),
        ensures
            forall|i: int| 0 <= i < 3 ==> #[trigger] r@[i] == u16_le(self.data(), p + 2 * i),
    {
        proof {
            assert(self.slice.len() == self.data().len());
        }
        [self.u16_at(p), self.u16_at(p + 2), self.u16_at(p + 4)]
    }

    /// Three signed bytes from `p`.
    pub fn i8x3_at(&self, p: usize) -> (r: [i8; 3])
        requires
            p + 3 <= self.data().len(),
        ensures
            forall|i: int| 0 <= i < 3 ==> #[trigger] r@[i] == i8_le(self.data(), p + i),
    {
        proof {
            assert(self.slice.len() == self.data().len());
        }
        [self.i8_at(p), self.i8_at(p + 1), self.i8_at(p + 2)]
    }

    /// Three bytes from `p`.
    pub fn u8x3_at(&self, p: usize) -> (r: [u8; 3])
        requires
            p + 3 <= self.data().len(),
        ensures
            forall|i: int| 0 <= i < 3 ==> #[trigger] r@[i] == self.data()[p + i],
    {
        proof {
            assert(self.slice.len() == self.data().len());
        }
        [self.slice[p], self.slice[p + 1], self.slice[p + 2]]
    }
}

/// Relies on `memchr::memchr`: the offset within `b[start..end]` of its first
/// zero byte, or `None` when it holds none.
#[verifier::external_body]
pub(crate) fn first_nul(b: &[u8], start: usize, end: usize) -> (r: Option<usize>)
    requires
        start <= end <= b@.len(),
    ensures
        match r {
            Some(i) => start + i < end && b@[start + i] == 0 && forall|j: int|
                start <= j < start + i ==> b@[j] != 0,
            None => forall|j: int| start <= j < end ==> b@[j] != 0,
        },
{
    memchr::memchr(0, &b[start..end])
}

/// Relies on `std::str::from_utf8`: the text of `b[start..end]` when those
/// bytes are valid UTF-8, `None` otherwise.
#[verifier::external_body]
pub(crate) fn utf8_string(b: &[u8], start: usize, end: usize) -> (r: Option<String>)
    requires
        start <= end <= b@.len(),
    ensures
        r is Some == utf8_text(b@.subrange(start as int, end as int)) is Some,
        r matches Some(s) ==> s@ == utf8_text(b@.subrange(start as int, end as int)).unwrap(),
{
    match std::str::from_utf8(&b[start..end]) {
        Ok(s) => Some(s.to_owned()),
        Err(_) => None,
    }
}

} // verus!
