//! A read position in a buffer, and the readers of big-endian integers.

use vstd::prelude::*;
use crate::error::{truncated, DecodeError, DecodeErrorKind, Field};
use crate::utils::{be_i16_at, be_i32_at, be_u16_at, be_u32_at, p16, p32, pu16, pu32, pu8, take};

verus! {

/// A buffer and the part of it that is not yet consumed. Every read consumes
/// bytes at the read position and hands on the remainder; the position never
/// moves back and never passes the end.
pub struct Cursor<'a> {
    buf: &'a [u8],
    rest: &'a [u8],
}

impl<'a> Cursor<'a> {
    /// The bytes of the whole buffer.
    pub closed spec fn bytes(&self) -> Seq<u8> {
        self.buf@
    }

    /// The read position: the number of bytes consumed so far.
    pub closed spec fn position(&self) -> int {
        self.buf@.len() - self.rest@.len()
    }

    /// The remainder is the buffer from the read position on.
    #[verifier::type_invariant]
    closed spec fn wf(&self) -> bool {
        &&& self.rest@.len() <= self.buf@.len()
        &&& self.rest@ == self.buf@.skip(self.buf@.len() - self.rest@.len())
    }

    /// The position lies within the buffer, whose length is that of a slice.
    pub open spec fn in_bounds(&self) -> bool {
        0 <= self.position() <= self.bytes().len() <= usize::MAX
    }

    /// The number of bytes not yet consumed.
    pub open spec fn left(&self) -> int {
        self.bytes().len() - self.position()
    }

    /// This cursor is `before` moved forward by `n` bytes.
    pub open spec fn follows(&self, before: Cursor<'a>, n: int) -> bool {
        self.bytes() == before.bytes() && self.position() == before.position() + n
    }

    /// What a decoder did to a cursor and returned, against what it is to
    /// find: the value and the position after it, or the failure. The buffer
    /// stays as it is and the position does not move back.
    pub open spec fn decodes<T>(
        &self,
        before: Cursor<'a>,
        r: Result<T, DecodeError>,
        expected: Result<(T, int), DecodeError>,
    ) -> bool {
        &&& self.in_bounds()
        &&& self.bytes() == before.bytes()
        &&& before.position() <= self.position()
        &&& match (r, expected) {
            (Ok(v), Ok((value, end))) => v == value && self.position() == end,
            (Err(e), Err(failure)) => e == failure,
            _ => false,
        }
    }

    /// The failure of a read of `width` bytes for `field` at this position.
    pub open spec fn short_of(&self, field: Field, width: int) -> DecodeError {
        truncated(field, self.position(), width, self.left())
    }

    /// A cursor at the start of `buf`.
    pub fn new(buf: &'a [u8]) -> (c: Cursor<'a>)
        ensures
            c.bytes() == buf@,
            c.position() == 0,
    {
        assert(buf@ =~= buf@.skip(0));
        Cursor { buf, rest: buf }
    }

    /// The number of bytes consumed so far.
    pub fn offset(&self) -> (n: usize)
        ensures
            n == self.position(),
            self.in_bounds(),
    {
        proof {
            use_type_invariant(self);
        }
        self.buf.len() - self.rest.len()
    }

    /// The number of bytes not yet consumed.
    pub fn len(&self) -> (n: usize)
        ensures
            n == self.left(),
            self.in_bounds(),
    {
        proof {
            use_type_invariant(self);
            assert(self.buf@.len() == self.buf.len());
        }
        self.rest.len()
    }

    /// The bytes not yet consumed.
    pub fn remaining(&self) -> (rest: &'a [u8])
        ensures
            self.in_bounds(),
            rest@ == self.bytes().skip(self.position()),
    {
        proof {
            use_type_invariant(self);
            assert(self.buf@.len() == self.buf.len());
        }
        self.rest
    }

    /// Reads one byte.
    pub fn read_u8(&mut self, field: Field) -> (r: Result<u8, DecodeError>)
        ensures
            final(self).in_bounds(),
            match r {
                Ok(v) => old(self).left() >= 1 && final(self).follows(*old(self), 1) && v
                    == old(self).bytes()[old(self).position()],
                Err(e) => old(self).left() < 1 && final(self).follows(*old(self), 0) && e
                    == old(self).short_of(field, 1),
            },
    {
        proof {
            use_type_invariant(&*self);
        }
        let at = self.offset();
        match pu8(self.rest) {
            Ok((rest, v)) => {
                assert(rest@ =~= self.buf@.skip(at + 1));
                self.rest = rest;
                Ok(v)
            },
            Err(_) => Err(
                DecodeError {
                    kind: DecodeErrorKind::Truncated,
                    field,
                    offset: at,
                    expected: 1,
                    actual: self.rest.len(),
                },
            ),
        }
    }

    /// Reads an unsigned big-endian integer of two bytes.
    pub fn read_u16(&mut self, field: Field) -> (r: Result<u16, DecodeError>)
        ensures
            final(self).in_bounds(),
            match r {
                Ok(v) => old(self).left() >= 2 && final(self).follows(*old(self), 2) && v
                    == be_u16_at(old(self).bytes(), old(self).position()),
                Err(e) => old(self).left() < 2 && final(self).follows(*old(self), 0) && e
                    == old(self).short_of(field, 2),
            },
    {
        proof {
            use_type_invariant(&*self);
        }
        let at = self.offset();
        match pu16(self.rest) {
            Ok((rest, v)) => {
                assert(rest@ =~= self.buf@.skip(at + 2));
                self.rest = rest;
                Ok(v)
            },
            Err(_) => Err(
                DecodeError {
                    kind: DecodeErrorKind::Truncated,
                    field,
                    offset: at,
                    expected: 2,
                    actual: self.rest.len(),
                },
            ),
        }
    }

    /// Reads an unsigned big-endian integer of four bytes.
    pub fn read_u32(&mut self, field: Field) -> (r: Result<u32, DecodeError>)
        ensures
            final(self).in_bounds(),
            match r {
                Ok(v) => old(self).left() >= 4 && final(self).follows(*old(self), 4) && v
                    == be_u32_at(old(self).bytes(), old(self).position()),
                Err(e) => old(self).left() < 4 && final(self).follows(*old(self), 0) && e
                    == old(self).short_of(field, 4),
            },
    {
        proof {
            use_type_invariant(&*self);
        }
        let at = self.offset();
        match pu32(self.rest) {
            Ok((rest, v)) => {
                assert(rest@ =~= self.buf@.skip(at + 4));
                self.rest = rest;
                Ok(v)
            },
            Err(_) => Err(
                DecodeError {
                    kind: DecodeErrorKind::Truncated,
                    field,
                    offset: at,
                    expected: 4,
                    actual: self.rest.len(),
                },
            ),
        }
    }

    /// Reads a signed big-endian integer of two bytes.
    pub fn read_i16(&mut self, field: Field) -> (r: Result<i16, DecodeError>)
        ensures
            final(self).in_bounds(),
            match r {
                Ok(v) => old(self).left() >= 2 && final(self).follows(*old(self), 2) && v
                    == be_i16_at(old(self).bytes(), old(self).position()),
                Err(e) => old(self).left() < 2 && final(self).follows(*old(self), 0) && e
                    == old(self).short_of(field, 2),
            },
    {
        proof {
            use_type_invariant(&*self);
        }
        let at = self.offset();
        match p16(self.rest) {
            Ok((rest, v)) => {
                assert(rest@ =~= self.buf@.skip(at + 2));
                self.rest = rest;
                Ok(v)
            },
            Err(_) => Err(
                DecodeError {
                    kind: DecodeErrorKind::Truncated,
                    field,
                    offset: at,
                    expected: 2,
                    actual: self.rest.len(),
                },
            ),
        }
    }

    /// Reads a signed big-endian integer of four bytes.
    pub fn read_i32(&mut self, field: Field) -> (r: Result<i32, DecodeError>)
        ensures
            final(self).in_bounds(),
            match r {
                Ok(v) => old(self).left() >= 4 && final(self).follows(*old(self), 4) && v
                    == be_i32_at(old(self).bytes(), old(self).position()),
                Err(e) => old(self).left() < 4 && final(self).follows(*old(self), 0) && e
                    == old(self).short_of(field, 4),
            },
    {
        proof {
            use_type_invariant(&*self);
        }
        let at = self.offset();
        match p32(self.rest) {
            Ok((rest, v)) => {
                assert(rest@ =~= self.buf@.skip(at + 4));
                self.rest = rest;
                Ok(v)
            },
            Err(_) => Err(
                DecodeError {
                    kind: DecodeErrorKind::Truncated,
                    field,
                    offset: at,
                    expected: 4,
                    actual: self.rest.len(),
                },
            ),
        }
    }

    /// Reads `count` bytes, which stay borrowed from the buffer.
    pub fn read_bytes(&mut self, count: u8, field: Field) -> (r: Result<&'a [u8], DecodeError>)
        ensures
            final(self).in_bounds(),
            match r {
                Ok(taken) => old(self).left() >= count && final(self).follows(
                    *old(self),
                    count as int,
                ) && taken@ == old(self).bytes().subrange(
                    old(self).position(),
                    old(self).position() + count,
                ),
                Err(e) => old(self).left() < count && final(self).follows(*old(self), 0) && e
                    == old(self).short_of(field, count as int),
            },
    {
        proof {
            use_type_invariant(&*self);
        }
        let at = self.offset();
        match take(self.rest, count) {
            Ok((rest, taken)) => {
                assert(rest@ =~= self.buf@.skip(at + count));
                assert(taken@ =~= self.buf@.subrange(at as int, at + count));
                self.rest = rest;
                Ok(taken)
            },
            Err(_) => Err(
                DecodeError {
                    kind: DecodeErrorKind::Truncated,
                    field,
                    offset: at,
                    expected: count as usize,
                    actual: self.rest.len(),
                },
            ),
        }
    }
}

} // verus!
