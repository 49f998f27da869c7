//! A sequential reader of fixed-width integers over a byte buffer.
use byteorder::{BigEndian, ByteOrder, LittleEndian};
use vstd::prelude::*;

verus! {

/// Byte order of a multi-byte integer.
#[derive(Clone, Copy, Debug, PartialEq, Eq, Structural)]
pub enum Endian {
    Big,
    Little,
}

/// The only way a read can fail: too few bytes remain.
#[derive(Clone, Copy, Debug, PartialEq, Eq, Structural)]
pub enum CursorError {
    OutOfRange,
}

/// Unsigned value of the two bytes at `at`.
pub open spec fn u16_at(b: Seq<u8>, at: int, order: Endian) -> int {
    match order {
        Endian::Big => 256 * b[at] + b[at + 1],
        Endian::Little => b[at] + 256 * b[at + 1],
    }
}

/// Unsigned value of the three bytes at `at`.
pub open spec fn u24_at(b: Seq<u8>, at: int, order: Endian) -> int {
    match order {
        Endian::Big => 65536 * b[at] + 256 * b[at + 1] + b[at + 2],
        Endian::Little => b[at] + 256 * b[at + 1] + 65536 * b[at + 2],
    }
}

/// Unsigned value of the four bytes at `at`.
pub open spec fn u32_at(b: Seq<u8>, at: int, order: Endian) -> int {
    match order {
        Endian::Big => 16777216 * b[at] + 65536 * b[at + 1] + 256 * b[at + 2] + b[at + 3],
        Endian::Little => b[at] + 256 * b[at + 1] + 65536 * b[at + 2] + 16777216 * b[at + 3],
    }
}

/// Two's-complement value of a 24-bit pattern.
pub open spec fn sign_extend_24(u: int) -> int {
    if u >= 8388608 {
        u - 16777216
    } else {
        u
    }
}

/// Signed value of the three bytes at `at`.
pub open spec fn i24_at(b: Seq<u8>, at: int, order: Endian) -> int {
    sign_extend_24(u24_at(b, at, order))
}

/// Relies on byteorder's `BigEndian::read_u16`: the first two bytes, most significant first.
#[verifier::external_body]
fn be_u16(b: &[u8], at: usize) -> (r: u16)
    requires
        at + 2 <= b@.len(),
    ensures
        r as int == u16_at(b@, at as int, Endian::Big),
{
    BigEndian::read_u16(&b[at..])
}

/// Relies on byteorder's `LittleEndian::read_u16`: the first two bytes, least significant first.
#[verifier::external_body]
fn le_u16(b: &[u8], at: usize) -> (r: u16)
    requires
        at + 2 <= b@.len(),
    ensures
        r as int == u16_at(b@, at as int, Endian::Little),
{
    LittleEndian::read_u16(&b[at..])
}

/// Relies on byteorder's `BigEndian::read_u32`: the first four bytes, most significant first.
#[verifier::external_body]
pub(crate) fn be_u32(b: &[u8], at: usize) -> (r: u32)
    requires
        at + 4 <= b@.len(),
    ensures
        r as int == u32_at(b@, at as int, Endian::Big),
{
    BigEndian::read_u32(&b[at..])
}

/// Relies on byteorder's `LittleEndian::read_u32`: the first four bytes, least significant first.
#[verifier::external_body]
fn le_u32(b: &[u8], at: usize) -> (r: u32)
    requires
        at + 4 <= b@.len(),
    ensures
        r as int == u32_at(b@, at as int, Endian::Little),
{
    LittleEndian::read_u32(&b[at..])
}

/// Relies on byteorder's `BigEndian::read_i24`: the first three bytes, most significant
/// first, sign-extended from bit 23.
#[verifier::external_body]
fn be_i24(b: &[u8], at: usize) -> (r: i32)
    requires
        at + 3 <= b@.len(),
    ensures
        r as int == i24_at(b@, at as int, Endian::Big),
{
    BigEndian::read_i24(&b[at..])
}

/// Relies on byteorder's `LittleEndian::read_i24`: the first three bytes, least significant
/// first, sign-extended from bit 23.
#[verifier::external_body]
fn le_i24(b: &[u8], at: usize) -> (r: i32)
    requires
        at + 3 <= b@.len(),
    ensures
        r as int == i24_at(b@, at as int, Endian::Little),
{
    LittleEndian::read_i24(&b[at..])
}

/// A read position over a borrowed byte buffer; the position never passes the end.
pub struct ByteCursor<'a> {
    buf: &'a [u8],
    pos: usize,
}

impl<'a> ByteCursor<'a> {
    #[verifier::type_invariant]
    spec fn inv(&self) -> bool {
        self.pos <= self.buf@.len()
    }

    /// The bytes under the cursor.
    pub closed spec fn bytes(&self) -> Seq<u8> {
        self.buf@
    }

    /// The read position.
    pub closed spec fn pos(&self) -> int {
        self.pos as int
    }

    /// Number of bytes from the read position to the end.
    pub open spec fn remaining(&self) -> int {
        self.bytes().len() - self.pos()
    }

    /// A cursor at the start of `buf`.
    pub fn new(buf: &'a [u8]) -> (r: ByteCursor<'a>)
        ensures
            r.bytes() == buf@,
            r.pos() == 0,
    {
        ByteCursor { buf, pos: 0 }
    }

    /// The read position.
    pub fn position(&self) -> (r: usize)
        ensures
            r as int == self.pos(),
            self.pos() <= self.bytes().len(),
    {
        proof {
            use_type_invariant(self);
        }
        self.pos
    }

    /// Total number of bytes under the cursor.
    pub fn len(&self) -> (r: usize)
        ensures
            r as int == self.bytes().len(),
    {
        self.buf.len()
    }

    /// Moves the read position to `offset`; an offset past the end is refused and
    /// leaves the cursor as it was.
    pub fn set_position(&mut self, offset: usize) -> (r: Result<(), CursorError>)
        ensures
            final(self).bytes() == old(self).bytes(),
            r is Ok <==> offset <= old(self).bytes().len(),
            r is Ok ==> final(self).pos() == offset as int,
            r is Err ==> final(self).pos() == old(self).pos(),
    {
        if offset <= self.buf.len() {
            self.pos = offset;
            Ok(())
        } else {
            Err(CursorError::OutOfRange)
        }
    }

    /// Reads an unsigned 16-bit integer in the given byte order and moves past it.
    pub fn read_u16(&mut self, order: Endian) -> (r: Result<u16, CursorError>)
        ensures
            final(self).bytes() == old(self).bytes(),
            r is Ok <==> old(self).remaining() >= 2,
            r is Ok ==> r->Ok_0 as int == u16_at(old(self).bytes(), old(self).pos(), order)
                && final(self).pos() == old(self).pos() + 2,
            r is Err ==> final(self).pos() == old(self).pos(),
    {
        proof {
            use_type_invariant(&*self);
        }
        if self.buf.len() - self.pos < 2 {
            return Err(CursorError::OutOfRange);
        }
        let v = match order {
            Endian::Big => be_u16(self.buf, self.pos),
            Endian::Little => le_u16(self.buf, self.pos),
        };
        self.pos = self.pos + 2;
        Ok(v)
    }

    /// Reads an unsigned 32-bit integer in the given byte order and moves past it.
    pub fn read_u32(&mut self, order: Endian) -> (r: Result<u32, CursorError>)
        ensures
            final(self).bytes() == old(self).bytes(),
            r is Ok <==> old(self).remaining() >= 4,
            r is Ok ==> r->Ok_0 as int == u32_at(old(self).bytes(), old(self).pos(), order)
                && final(self).pos() == old(self).pos() + 4,
            r is Err ==> final(self).pos() == old(self).pos(),
    {
        proof {
            use_type_invariant(&*self);
        }
        if self.buf.len() - self.pos < 4 {
            return Err(CursorError::OutOfRange);
        }
        let v = match order {
            Endian::Big => be_u32(self.buf, self.pos),
            Endian::Little => le_u32(self.buf, self.pos),
        };
        self.pos = self.pos + 4;
        Ok(v)
    }

    /// Reads a signed 24-bit integer in the given byte order and moves past it.
    pub fn read_i24(&mut self, order: Endian) -> (r: Result<i32, CursorError>)
        ensures
            final(self).bytes() == old(self).bytes(),
            r is Ok <==> old(self).remaining() >= 3,
            r is Ok ==> r->Ok_0 as int == i24_at(old(self).bytes(), old(self).pos(), order)
                && final(self).pos() == old(self).pos() + 3,
            r is Err ==> final(self).pos() == old(self).pos(),
    {
        proof {
            use_type_invariant(&*self);
        }
        if self.buf.len() - self.pos < 3 {
            return Err(CursorError::OutOfRange);
        }
        let v = match order {
            Endian::Big => be_i24(self.buf, self.pos),
            Endian::Little => le_i24(self.buf, self.pos),
        };
        self.pos = self.pos + 3;
        Ok(v)
    }
}

} // verus!
