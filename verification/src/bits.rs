//! Readers of the flags and small fields packed into one byte.
//!
//! Bits are numbered from the least significant, bit 0, to the most
//! significant, bit 7. A status byte is read from bit 7 down to bit 0: the
//! first field that a [`BitReader`] hands out holds bit 7.

use vstd::prelude::*;

verus! {

/// The weight of bit `index`: two to the power `index`.
pub open spec fn weight(index: u8) -> int {
    if index == 0 {
        1
    } else if index == 1 {
        2
    } else if index == 2 {
        4
    } else if index == 3 {
        8
    } else if index == 4 {
        16
    } else if index == 5 {
        32
    } else if index == 6 {
        64
    } else {
        128
    }
}

/// Whether bit `index` of `byte` is set: whether the byte, divided by the
/// bit's weight, is odd.
#[verifier::opaque]
pub open spec fn bit_at(byte: u8, index: u8) -> bool {
    (byte as int / weight(index)) % 2 == 1
}

/// The number that bits `index + 1` and `index` of `byte` spell, the higher
/// bit first.
#[verifier::opaque]
pub open spec fn two_bits_at(byte: u8, index: u8) -> int {
    (byte as int / weight(index)) % 4
}

/// Whether bit `index` of `byte` is set.
pub fn bit(byte: u8, index: u8) -> (r: bool)
    requires
        index < 8,
    ensures
        r == bit_at(byte, index),
{
    proof {
        reveal(bit_at);
        lemma_shift_divides(byte, index);
        let shifted = byte >> index;
        assert((shifted & 1 == 1) <==> (shifted % 2 == 1)) by (bit_vector);
    }
    (byte >> index) & 1 == 1
}

/// The number from 0 to 3 that bits `index + 1` and `index` of `byte` spell.
pub fn two_bits(byte: u8, index: u8) -> (r: u8)
    requires
        index < 7,
    ensures
        r == two_bits_at(byte, index),
        r <= 3,
{
    proof {
        reveal(two_bits_at);
        lemma_shift_divides(byte, index);
        let shifted = byte >> index;
        assert(shifted & 3 == shifted % 4) by (bit_vector);
    }
    (byte >> index) & 3
}

/// Hands out the fields of one byte in order, from the most significant bit
/// down.
pub struct BitReader {
    byte: u8,
    used: u8,
}

impl BitReader {
    /// The byte that is read.
    pub closed spec fn byte(&self) -> u8 {
        self.byte
    }

    /// The number of bits handed out so far.
    pub closed spec fn used(&self) -> int {
        self.used as int
    }

    #[verifier::type_invariant]
    closed spec fn wf(&self) -> bool {
        self.used <= 8
    }

    /// This reader is `before` after it handed out `n` more bits.
    pub open spec fn follows(&self, before: BitReader, n: int) -> bool {
        self.byte() == before.byte() && self.used() == before.used() + n && self.used() <= 8
    }

    /// A reader in front of bit 7 of `byte`.
    pub fn new(byte: u8) -> (r: BitReader)
        ensures
            r.byte() == byte,
            r.used() == 0,
    {
        BitReader { byte, used: 0 }
    }

    /// The number of bits not yet handed out.
    pub fn left(&self) -> (n: u8)
        ensures
            n == 8 - self.used(),
            0 <= self.used() <= 8,
    {
        proof {
            use_type_invariant(self);
        }
        8 - self.used
    }

    /// Hands out the next bit as a flag.
    pub fn flag(&mut self) -> (r: bool)
        requires
            old(self).used() < 8,
        ensures
            final(self).follows(*old(self), 1),
            r == bit_at(old(self).byte(), (7 - old(self).used()) as u8),
    {
        let r = bit(self.byte, 7 - self.used);
        self.used = self.used + 1;
        r
    }

    /// Hands out the next two bits as a number from 0 to 3, the first of
    /// the two bits being the higher one.
    pub fn pair(&mut self) -> (r: u8)
        requires
            old(self).used() < 7,
        ensures
            final(self).follows(*old(self), 2),
            r == two_bits_at(old(self).byte(), (6 - old(self).used()) as u8),
            r <= 3,
    {
        let r = two_bits(self.byte, 6 - self.used);
        self.used = self.used + 2;
        r
    }
}

/// Shifting a byte right by `index` bits divides it by the weight of bit
/// `index`.
proof fn lemma_shift_divides(byte: u8, index: u8)
    requires
        index < 8,
    ensures
        (byte >> index) == byte as int / weight(index),
{
    assert(index == 0 ==> (byte >> index) == byte / 1) by (bit_vector);
    assert(index == 1 ==> (byte >> index) == byte / 2) by (bit_vector);
    assert(index == 2 ==> (byte >> index) == byte / 4) by (bit_vector);
    assert(index == 3 ==> (byte >> index) == byte / 8) by (bit_vector);
    assert(index == 4 ==> (byte >> index) == byte / 16) by (bit_vector);
    assert(index == 5 ==> (byte >> index) == byte / 32) by (bit_vector);
    assert(index == 6 ==> (byte >> index) == byte / 64) by (bit_vector);
    assert(index == 7 ==> (byte >> index) == byte / 128) by (bit_vector);
}

} // verus!
