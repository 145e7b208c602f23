//! The byte source that every section reader owns, and its little-endian reads.
use byteorder::{ByteOrder, LittleEndian};
use vstd::prelude::*;

use crate::error::Error;

verus! {

/// Unsigned little-endian value of the two bytes at `p`.
pub open spec fn le_u16(b: Seq<u8>, p: int) -> int {
    b[p] as int + 256 * (b[p + 1] as int)
}

/// Unsigned little-endian value of the four bytes at `p`.
pub open spec fn le_u32(b: Seq<u8>, p: int) -> int {
    le_u16(b, p) + 65536 * le_u16(b, p + 2)
}

/// Two's-complement value of the byte at `p`.
pub open spec fn le_i8(b: Seq<u8>, p: int) -> int {
    if b[p] < 128 { b[p] as int } else { b[p] as int - 256 }
}

/// Two's-complement little-endian value of the two bytes at `p`.
pub open spec fn le_i16(b: Seq<u8>, p: int) -> int {
    if le_u16(b, p) < 0x8000 { le_u16(b, p) } else { le_u16(b, p) - 0x1_0000 }
}

/// Two's-complement little-endian value of the four bytes at `p`.
pub open spec fn le_i32(b: Seq<u8>, p: int) -> int {
    if le_u32(b, p) < 0x8000_0000 { le_u32(b, p) } else { le_u32(b, p) - 0x1_0000_0000 }
}

/// Whether `n` bytes can be read at `p`.
pub open spec fn fits(b: Seq<u8>, p: int, n: int) -> bool {
    0 <= p && p + n <= b.len()
}

/// Relies on byteorder's `LittleEndian::read_u16`: the two bytes at `pos`, low byte first.
#[verifier::external_body]
fn le_read_u16(b: &Vec<u8>, pos: usize) -> (r: u16)
    requires
        pos + 2 <= b@.len(),
    ensures
        r as int == le_u16(b@, pos as int),
{
    LittleEndian::read_u16(&b[pos..])
}

/// Relies on byteorder's `LittleEndian::read_i16`: the two bytes at `pos` as a signed value.
#[verifier::external_body]
fn le_read_i16(b: &Vec<u8>, pos: usize) -> (r: i16)
    requires
        pos + 2 <= b@.len(),
    ensures
        r as int == le_i16(b@, pos as int),
{
    LittleEndian::read_i16(&b[pos..])
}

/// Relies on byteorder's `LittleEndian::read_u32`: the four bytes at `pos`, low byte first.
#[verifier::external_body]
fn le_read_u32(b: &Vec<u8>, pos: usize) -> (r: u32)
    requires
        pos + 4 <= b@.len(),
    ensures
        r as int == le_u32(b@, pos as int),
{
    LittleEndian::read_u32(&b[pos..])
}

/// Relies on byteorder's `LittleEndian::read_i32`: the four bytes at `pos` as a signed value.
#[verifier::external_body]
fn le_read_i32(b: &Vec<u8>, pos: usize) -> (r: i32)
    requires
        pos + 4 <= b@.len(),
    ensures
        r as int == le_i32(b@, pos as int),
{
    LittleEndian::read_i32(&b[pos..])
}

/// A forward-only byte source: the whole input and the position of the next unread byte.
pub struct Source {
    data: Vec<u8>,
    pos: usize,
}

impl Source {
    /// All bytes of the input.
    pub closed spec fn bytes(&self) -> Seq<u8> {
        self.data@
    }

    /// Position of the next unread byte.
    pub closed spec fn position(&self) -> int {
        self.pos as int
    }

    #[verifier::type_invariant]
    spec fn wf(&self) -> bool {
        self.pos <= self.data@.len()
    }

    /// A source positioned at the first byte of `data`.
    pub fn new(data: Vec<u8>) -> (r: Source)
        ensures
            r.bytes() == data@,
            r.position() == 0,
    {
        Source { data, pos: 0 }
    }

    /// Offset of the next unread byte.
    pub fn pos(&self) -> (r: usize)
        ensures
            r as int == self.position(),
    {
        self.pos
    }

    /// Whether `n` more bytes remain; nothing is consumed.
    fn can_take(&self, n: usize) -> (r: bool)
            ensures
            r == fits(self.bytes(), self.position(), n as int),
            r ==> self.position() + n <= usize::MAX,
    {
        proof {
            use_type_invariant(self);
        }
        n <= self.data.len() - self.pos
    }

    /// Reads the next `n` bytes as they stand.
    pub fn read_bytes(&mut self, n: u32) -> (r: Result<Vec<u8>, Error>)
        ensures
            final(self).bytes() == old(self).bytes(),
            fits(old(self).bytes(), old(self).position(), n as int) ==> r is Ok && r->Ok_0@
                == old(self).bytes().subrange(old(self).position(), old(self).position() + n)
                && final(self).position() == old(self).position() + n,
            !fits(old(self).bytes(), old(self).position(), n as int) ==> r == Err::<Vec<u8>, Error>(
                Error::UnexpectedEnd,
            ),
    {
        if n as u64 > usize::MAX as u64 {
            return Err(Error::UnexpectedEnd);
        }
        let n = n as usize;
        if !self.can_take(n) {
            return Err(Error::UnexpectedEnd);
        }
        let start = self.pos;
        let mut out: Vec<u8> = Vec::with_capacity(n);
        let mut i: usize = 0;
        while i < n
            invariant
                start == self.pos,
                start + n <= self.data@.len(),
                start + n <= usize::MAX,
                i <= n,
                out@ == self.data@.subrange(start as int, start + i),
            decreases n - i,
        {
            out.push(self.data[start + i]);
            i = i + 1;
            assert(out@ =~= self.data@.subrange(start as int, start + i));
        }
        self.pos = start + n;
        Ok(out)
    }

    pub fn read_u8(&mut self) -> (r: Result<u8, Error>)
        ensures
            final(self).bytes() == old(self).bytes(),
            fits(old(self).bytes(), old(self).position(), 1) ==> r == Ok::<u8, Error>(
                old(self).bytes()[old(self).position()],
            ) && final(self).position() == old(self).position() + 1,
            !fits(old(self).bytes(), old(self).position(), 1) ==> r == Err::<u8, Error>(
                Error::UnexpectedEnd,
            ),
    {
        if !self.can_take(1) {
            return Err(Error::UnexpectedEnd);
        }
        proof {
            use_type_invariant(&*self);
        }
        let v = self.data[self.pos];
        self.pos = self.pos + 1;
        Ok(v)
    }

    pub fn read_i8(&mut self) -> (r: Result<i8, Error>)
        ensures
            final(self).bytes() == old(self).bytes(),
            fits(old(self).bytes(), old(self).position(), 1) ==> r is Ok && r->Ok_0 as int
                == le_i8(old(self).bytes(), old(self).position()) && final(self).position()
                == old(self).position() + 1,
            !fits(old(self).bytes(), old(self).position(), 1) ==> r == Err::<i8, Error>(
                Error::UnexpectedEnd,
            ),
    {
        let b = self.read_u8()?;
        if b < 128 {
            Ok(b as i8)
        } else {
            Ok((b as i16 - 256) as i8)
        }
    }

    pub fn read_u16(&mut self) -> (r: Result<u16, Error>)
        ensures
            final(self).bytes() == old(self).bytes(),
            fits(old(self).bytes(), old(self).position(), 2) ==> r is Ok && r->Ok_0 as int
                == le_u16(old(self).bytes(), old(self).position()) && final(self).position()
                == old(self).position() + 2,
            !fits(old(self).bytes(), old(self).position(), 2) ==> r == Err::<u16, Error>(
                Error::UnexpectedEnd,
            ),
    {
        if !self.can_take(2) {
            return Err(Error::UnexpectedEnd);
        }
        let v = le_read_u16(&self.data, self.pos);
        self.pos = self.pos + 2;
        Ok(v)
    }

    pub fn read_i16(&mut self) -> (r: Result<i16, Error>)
        ensures
            final(self).bytes() == old(self).bytes(),
            fits(old(self).bytes(), old(self).position(), 2) ==> r is Ok && r->Ok_0 as int
                == le_i16(old(self).bytes(), old(self).position()) && final(self).position()
                == old(self).position() + 2,
            !fits(old(self).bytes(), old(self).position(), 2) ==> r == Err::<i16, Error>(
                Error::UnexpectedEnd,
            ),
    {
        if !self.can_take(2) {
            return Err(Error::UnexpectedEnd);
        }
        let v = le_read_i16(&self.data, self.pos);
        self.pos = self.pos + 2;
        Ok(v)
    }

    pub fn read_u32(&mut self) -> (r: Result<u32, Error>)
        ensures
            final(self).bytes() == old(self).bytes(),
            fits(old(self).bytes(), old(self).position(), 4) ==> r is Ok && r->Ok_0 as int
                == le_u32(old(self).bytes(), old(self).position()) && final(self).position()
                == old(self).position() + 4,
            !fits(old(self).bytes(), old(self).position(), 4) ==> r == Err::<u32, Error>(
                Error::UnexpectedEnd,
            ),
    {
        if !self.can_take(4) {
            return Err(Error::UnexpectedEnd);
        }
        let v = le_read_u32(&self.data, self.pos);
        self.pos = self.pos + 4;
        Ok(v)
    }

    pub fn read_i32(&mut self) -> (r: Result<i32, Error>)
        ensures
            final(self).bytes() == old(self).bytes(),
            fits(old(self).bytes(), old(self).position(), 4) ==> r is Ok && r->Ok_0 as int
                == le_i32(old(self).bytes(), old(self).position()) && final(self).position()
                == old(self).position() + 4,
            !fits(old(self).bytes(), old(self).position(), 4) ==> r == Err::<i32, Error>(
                Error::UnexpectedEnd,
            ),
    {
        if !self.can_take(4) {
            return Err(Error::UnexpectedEnd);
        }
        let v = le_read_i32(&self.data, self.pos);
        self.pos = self.pos + 4;
        Ok(v)
    }
}

} // verus!
