//! Bit ranges of a 32-bit register word.
//!
//! Bits are numbered as in the processor manuals, from 0 for the least
//! significant to 31, and a range names both of its ends.

use vstd::arithmetic::power2::{lemma2_to64, lemma_pow2_strictly_increases, lemma_pow2_unfold, pow2};
use vstd::prelude::*;

verus! {

/// The word whose lowest `width` bits are set and whose other bits are clear:
/// the number `2^width - 1`.
pub open spec fn low_mask(width: nat) -> u32 {
    (pow2(width) - 1) as u32
}

/// The word whose bits `start_bit..=end_bit` are set and whose other bits are
/// clear.
pub open spec fn range_mask(start_bit: u8, end_bit: u8) -> u32 {
    low_mask((end_bit - start_bit + 1) as nat) << start_bit
}

/// The bits `start_bit..=end_bit` of `val`, moved down to bit 0.
pub open spec fn bit_range(val: u32, start_bit: u8, end_bit: u8) -> u32 {
    (val >> start_bit) & low_mask((end_bit - start_bit + 1) as nat)
}

/// Whether bit `idx` of `val` is set.
pub open spec fn bit_set(val: u32, idx: u8) -> bool {
    ((val >> idx) & 1u32) != 0u32
}

/// Extracts the inclusive bit range `start_bit..=end_bit` of `val`.
pub fn bits_of(val: u32, start_bit: u8, end_bit: u8) -> (field: u32)
    requires
        start_bit <= end_bit <= 31,
    ensures
        field == bit_range(val, start_bit, end_bit),
{
    let mut mask: u32 = 0;
    let mut bit: u8 = start_bit;
    proof {
        lemma2_to64();
    }
    while bit <= end_bit
        invariant
            start_bit <= bit <= end_bit + 1,
            end_bit <= 31,
            mask == pow2((bit - start_bit) as nat) - 1,
        decreases end_bit + 1 - bit,
    {
        proof {
            let width = (bit - start_bit) as nat;
            lemma2_to64();
            lemma_pow2_unfold(width + 1);
            if width < 31 {
                lemma_pow2_strictly_increases(width, 31);
            }
            assert(mask <= 0x7fff_ffffu32 ==> (mask << 1u32) | 1u32 == 2 * mask + 1)
                by (bit_vector);
        }
        mask = (mask << 1) | 1;
        bit = bit + 1;
    }
    (val >> start_bit) & mask
}

/// Extracts the single bit `idx` of `val` as a flag.
pub fn bit_of(val: u32, idx: u8) -> (flag: bool)
    requires
        idx <= 31,
    ensures
        flag == bit_set(val, idx),
{
    ((val >> idx) & 1) != 0
}

/// The value of a bit range as arithmetic: the word divided by `2^start_bit`,
/// taken modulo two to the number of bits in the range.
pub proof fn lemma_bit_range_is_div_mod(val: u32, start_bit: u8, end_bit: u8)
    requires
        start_bit <= end_bit <= 31,
    ensures
        bit_range(val, start_bit, end_bit) == (val as nat / pow2(start_bit as nat)) % pow2(
            (end_bit - start_bit + 1) as nat,
        ),
{
    let width: nat = (end_bit - start_bit + 1) as nat;
    let shifted: u32 = val >> start_bit;
    vstd::bits::lemma_u32_shr_is_div(val, start_bit as u32);
    lemma2_to64();
    if width == 32 {
        assert(shifted & 0xffff_ffffu32 == shifted) by (bit_vector);
        assert(shifted as nat % 0x1_0000_0000nat == shifted);
    } else {
        vstd::bits::lemma_u32_low_bits_mask_is_mod(shifted, width);
        lemma_pow2_strictly_increases(width, 32);
        assert(vstd::bits::low_bits_mask(width) as u32 == low_mask(width));
        assert(shifted % (pow2(width) as u32) == shifted as nat % pow2(width));
    }
}

/// Extracting a range, moving it back up to `start_bit` and masking gives the
/// bits that the word itself has in that range.
pub proof fn lemma_bit_range_round_trip(val: u32, start_bit: u8, end_bit: u8)
    requires
        start_bit <= end_bit <= 31,
    ensures
        (bit_range(val, start_bit, end_bit) << start_bit) & range_mask(start_bit, end_bit) == val
            & range_mask(start_bit, end_bit),
{
    let mask: u32 = low_mask((end_bit - start_bit + 1) as nat);
    let shift: u32 = start_bit as u32;
    assert(shift < 32 ==> (((val >> shift) & mask) << shift) & (mask << shift) == val & (mask
        << shift)) by (bit_vector);
}

/// A range of `end_bit - start_bit + 1` bits holds a number below two to that
/// many.
pub proof fn lemma_bit_range_below(val: u32, start_bit: u8, end_bit: u8)
    requires
        start_bit <= end_bit <= 31,
    ensures
        bit_range(val, start_bit, end_bit) < pow2((end_bit - start_bit + 1) as nat),
{
    let width: nat = (end_bit - start_bit + 1) as nat;
    let mask: u32 = low_mask(width);
    let shifted: u32 = val >> start_bit;
    lemma2_to64();
    if width < 32 {
        lemma_pow2_strictly_increases(width, 32);
    }
    assert(shifted & mask <= mask) by (bit_vector);
}

/// A flag is the one-bit range at its index compared with 1.
pub proof fn lemma_bit_set_is_range(val: u32, idx: u8)
    requires
        idx <= 31,
    ensures
        bit_set(val, idx) == (bit_range(val, idx, idx) == 1),
{
    let shifted: u32 = val >> idx;
    lemma2_to64();
    assert(low_mask(1) == 1u32);
    assert((shifted & 1u32 != 0u32) == (shifted & 1u32 == 1u32)) by (bit_vector);
}

} // verus!
