//! Stateless helpers to read and write a closed bit range inside a 32-bit
//! register, and to set or clear a single bit.
//!
//! A value wider than the range it is written into is truncated silently:
//! only its low bits land in the field and the excess is dropped. The
//! contracts below state this per bit, so no write can bleed into an
//! adjacent field.

use vstd::prelude::*;

verus! {

/// A closed, inclusive interval `[lsb_index, msb_index]` of bit positions
/// inside a 32-bit register. Register sub-fields are named by such ranges
/// rather than by loose shift amounts.
#[derive(Clone, Copy, PartialEq, Eq, Debug)]
pub struct BitRange {
    /// Position of the least significant bit of the field.
    pub lsb_index: u32,
    /// Position of the most significant bit of the field, inclusive.
    pub msb_index: u32,
}

impl BitRange {
    /// The interval is non-empty and lies inside a 32-bit word.
    pub open spec fn wf(self) -> bool {
        self.lsb_index <= self.msb_index && self.msb_index < 32
    }

    /// True when bit position `pos` falls inside the interval.
    pub open spec fn contains(self, pos: u32) -> bool {
        self.lsb_index <= pos <= self.msb_index
    }

    /// Number of bits in the field.
    pub open spec fn width(self) -> int {
        self.msb_index - self.lsb_index + 1
    }

    /// The mask holding exactly the bits of the interval.
    pub open spec fn mask(self) -> u32 {
        (0xffff_ffffu32 >> ((31 - (self.msb_index - self.lsb_index)) as u32)) << self.lsb_index
    }

    /// Computes the mask of the interval.
    pub fn get_mask(&self) -> (r: u32)
        requires
            self.wf(),
        ensures
            r == self.mask(),
    {
        (0xffff_ffffu32 >> (31 - (self.msb_index - self.lsb_index))) << self.lsb_index
    }
}

/// Bit `pos` of `word`, read as a boolean.
pub open spec fn spec_bit(word: u32, pos: u32) -> bool {
    (word >> pos) & 1u32 == 1u32
}

/// The bits of `range` in `word`, extracted and right-aligned.
pub open spec fn spec_read_bits_in_range(word: u32, range: BitRange) -> u32 {
    (word & range.mask()) >> range.lsb_index
}

/// `word` with the bits of `range` replaced by the low bits of `value`.
pub open spec fn spec_write_bits_in_range(word: u32, range: BitRange, value: u32) -> u32 {
    (word & !range.mask()) | ((value << range.lsb_index) & range.mask())
}

/// `word` with bit `pos` set to `flag`.
pub open spec fn spec_write_bit(word: u32, pos: u32, flag: bool) -> u32 {
    if flag {
        word | (1u32 << pos)
    } else {
        word & !(1u32 << pos)
    }
}

proof fn lemma_read_bits_aligned(word: u32, lsb: u32, msb: u32, i: u32)
    by (bit_vector)
    requires
        lsb <= msb < 32,
        lsb <= i <= msb,
    ensures
        ({
            let m = (0xffff_ffffu32 >> ((31 - (msb - lsb)) as u32)) << lsb;
            spec_bit((word & m) >> lsb, (i - lsb) as u32) == spec_bit(word, i)
        }),
{
}

proof fn lemma_read_bits_high_zero(word: u32, lsb: u32, msb: u32, j: u32)
    by (bit_vector)
    requires
        lsb <= msb < 32,
        j < 32,
        j > msb - lsb,
    ensures
        ({
            let m = (0xffff_ffffu32 >> ((31 - (msb - lsb)) as u32)) << lsb;
            spec_bit((word & m) >> lsb, j) == false
        }),
{
}

proof fn lemma_write_bits_outside(word: u32, value: u32, lsb: u32, msb: u32, i: u32)
    by (bit_vector)
    requires
        lsb <= msb < 32,
        i < 32,
        !(lsb <= i <= msb),
    ensures
        ({
            let m = (0xffff_ffffu32 >> ((31 - (msb - lsb)) as u32)) << lsb;
            spec_bit((word & !m) | ((value << lsb) & m), i) == spec_bit(word, i)
        }),
{
}

proof fn lemma_write_bits_inside(word: u32, value: u32, lsb: u32, msb: u32, i: u32)
    by (bit_vector)
    requires
        lsb <= msb < 32,
        lsb <= i <= msb,
    ensures
        ({
            let m = (0xffff_ffffu32 >> ((31 - (msb - lsb)) as u32)) << lsb;
            spec_bit((word & !m) | ((value << lsb) & m), i) == spec_bit(value, (i - lsb) as u32)
        }),
{
}

proof fn lemma_write_bit_effect(word: u32, pos: u32, flag: bool, i: u32)
    by (bit_vector)
    requires
        pos < 32,
        i < 32,
    ensures
        spec_bit(spec_write_bit(word, pos, flag), pos) == flag,
        i != pos ==> spec_bit(spec_write_bit(word, pos, flag), i) == spec_bit(word, i),
{
}

/// Extracts and right-aligns the bits of `range` from `word`.
pub fn read_bits_in_range(word: u32, range: &BitRange) -> (r: u32)
    requires
        range.wf(),
    ensures
        r == spec_read_bits_in_range(word, *range),
        forall|i: u32|
            range.contains(i) ==> spec_bit(r, (i - range.lsb_index) as u32) == #[trigger] spec_bit(
                word,
                i,
            ),
        forall|j: u32| range.width() <= j < 32 ==> #[trigger] spec_bit(r, j) == false,
{
    let r = (word & range.get_mask()) >> range.lsb_index;
    proof {
        assert forall|i: u32| range.contains(i) implies spec_bit(
            r,
            (i - range.lsb_index) as u32,
        ) == #[trigger] spec_bit(word, i) by {
            lemma_read_bits_aligned(word, range.lsb_index, range.msb_index, i);
        }
        assert forall|j: u32| range.width() <= j < 32 implies #[trigger] spec_bit(r, j)
            == false by {
            lemma_read_bits_high_zero(word, range.lsb_index, range.msb_index, j);
        }
    }
    r
}

/// Clears the bits of `range` in `word` and writes `value`, left-shifted
/// into position, in their place. Bits of `value` beyond the range's width
/// are dropped; no bit outside the range changes.
pub fn write_bits_in_range(word: u32, range: &BitRange, value: u32) -> (r: u32)
    requires
        range.wf(),
    ensures
        r == spec_write_bits_in_range(word, *range, value),
        forall|i: u32|
            i < 32 && !range.contains(i) ==> #[trigger] spec_bit(r, i) == spec_bit(word, i),
        forall|i: u32|
            range.contains(i) ==> #[trigger] spec_bit(r, i) == spec_bit(
                value,
                (i - range.lsb_index) as u32,
            ),
{
    let mask = range.get_mask();
    let r = (word & !mask) | ((value << range.lsb_index) & mask);
    proof {
        assert forall|i: u32| i < 32 && !range.contains(i) implies #[trigger] spec_bit(r, i)
            == spec_bit(word, i) by {
            lemma_write_bits_outside(word, value, range.lsb_index, range.msb_index, i);
        }
        assert forall|i: u32| range.contains(i) implies #[trigger] spec_bit(r, i) == spec_bit(
            value,
            (i - range.lsb_index) as u32,
        ) by {
            lemma_write_bits_inside(word, value, range.lsb_index, range.msb_index, i);
        }
    }
    r
}

/// Sets (`flag == true`) or clears (`flag == false`) bit `pos` of `word`;
/// every other bit keeps its value.
pub fn write_bit(word: u32, pos: u32, flag: bool) -> (r: u32)
    requires
        pos < 32,
    ensures
        r == spec_write_bit(word, pos, flag),
        spec_bit(r, pos) == flag,
        forall|i: u32| i < 32 && i != pos ==> #[trigger] spec_bit(r, i) == spec_bit(word, i),
{
    let r = if flag {
        word | (1u32 << pos)
    } else {
        word & !(1u32 << pos)
    };
    proof {
        lemma_write_bit_effect(word, pos, flag, pos);
        assert forall|i: u32| i < 32 && i != pos implies #[trigger] spec_bit(r, i) == spec_bit(
            word,
            i,
        ) by {
            lemma_write_bit_effect(word, pos, flag, i);
        }
    }
    r
}

} // verus!
