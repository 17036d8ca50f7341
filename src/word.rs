use vstd::prelude::*;

verus! {

/// A 32-bit value held as four little-endian byte limbs.
#[derive(Clone, Copy, Debug, PartialEq, Eq, Structural)]
pub struct Word {
    pub b0: u8,
    pub b1: u8,
    pub b2: u8,
    pub b3: u8,
}

/// `b0 + 256 b1 + 256^2 b2 + 256^3 b3`.
pub open spec fn reduce_limbs(b0: u8, b1: u8, b2: u8, b3: u8) -> int {
    b0 + 256 * b1 + 65536 * b2 + 16777216 * b3
}

/// The word of `x`: its base-256 digits.
pub open spec fn word_of(x: u32) -> Word {
    Word {
        b0: (x % 256) as u8,
        b1: ((x / 256) % 256) as u8,
        b2: ((x / 65536) % 256) as u8,
        b3: (x / 16777216) as u8,
    }
}

impl Word {
    /// Limb `i` of the word (limb 0 is the least significant).
    pub open spec fn limb(&self, i: int) -> u8 {
        if i == 0 {
            self.b0
        } else if i == 1 {
            self.b1
        } else if i == 2 {
            self.b2
        } else {
            self.b3
        }
    }

    /// The numeric value of the word.
    pub open spec fn value(&self) -> int {
        reduce_limbs(self.b0, self.b1, self.b2, self.b3)
    }

    /// The word whose value is `x`.
    pub fn from_u32(x: u32) -> (w: Word)
        ensures
            w.value() == x,
            w == word_of(x),
    {
        let w = Word {
            b0: (x & 0xff) as u8,
            b1: ((x >> 8) & 0xff) as u8,
            b2: ((x >> 16) & 0xff) as u8,
            b3: (x >> 24) as u8,
        };
        proof {
            assert(x == (x & 0xff) + 256 * ((x >> 8) & 0xff) + 65536 * ((x >> 16) & 0xff)
                + 16777216 * (x >> 24)) by (bit_vector);
            assert((x & 0xff) == x % 256) by (bit_vector);
            assert(((x >> 8) & 0xff) == (x / 256) % 256) by (bit_vector);
            assert(((x >> 16) & 0xff) == (x / 65536) % 256) by (bit_vector);
            assert((x >> 24) == x / 16777216) by (bit_vector);
        }
        w
    }

    /// The value of the word.
    pub fn reduce(&self) -> (r: u32)
        ensures
            r == self.value(),
    {
        self.b0 as u32 + 256 * (self.b1 as u32) + 65536 * (self.b2 as u32) + 16777216 * (
        self.b3 as u32)
    }

    /// Limb `i` of the word.
    pub fn get(&self, i: usize) -> (r: u8)
        requires
            i < 4,
        ensures
            r == self.limb(i as int),
    {
        if i == 0 {
            self.b0
        } else if i == 1 {
            self.b1
        } else if i == 2 {
            self.b2
        } else {
            self.b3
        }
    }

    /// The word holding the byte `b` in its lowest limb and zeros elsewhere.
    pub fn extend(b: u8) -> (w: Word)
        ensures
            w == (Word { b0: b, b1: 0, b2: 0, b3: 0 }),
            w.value() == b,
    {
        Word { b0: b, b1: 0, b2: 0, b3: 0 }
    }

    /// The all-zero word.
    pub fn zero() -> (w: Word)
        ensures
            w == (Word { b0: 0, b1: 0, b2: 0, b3: 0 }),
            w.value() == 0,
    {
        Word::extend(0)
    }
}

} // verus!
