//! Bit-field extraction, contiguous masks and binary-coded-decimal decoding.
use bit_field::BitField;
use vstd::arithmetic::power2::pow2;
use vstd::prelude::*;

verus! {

/// The bits `low..=high` of `word`, moved down to bit 0.
pub open spec fn bits_of(word: u32, high: nat, low: nat) -> nat {
    (word as nat / pow2(low)) % pow2((high - low + 1) as nat)
}

/// The value of a binary-coded-decimal byte: tens digit in the high
/// nibble, ones digit in the low nibble.
pub open spec fn bcd_value(b: nat) -> nat {
    (b / 16) * 10 + b % 16
}

/// Whether both nibbles of `b` are decimal digits.
pub open spec fn is_bcd_byte(b: u8) -> bool {
    b / 16 <= 9 && b % 16 <= 9
}

/// Relies on `bit_field::BitField::get_bits` for `u32`: on `low..=high`
/// it keeps the bits below `high + 1` and shifts the result right by `low`.
/// It panics unless `low <= high + 1 <= 32`, which `requires` rules out.
#[verifier::external_body]
fn get_bits_u32(word: u32, high: usize, low: usize) -> (r: u32)
    requires
        low <= high < 32,
    ensures
        r as nat == bits_of(word, high as nat, low as nat),
{
    word.get_bits(low..=high)
}

/// The bits `low..=high` of `word`, right-justified.
pub fn extract_bits(word: u32, high: usize, low: usize) -> (r: u32)
    requires
        low <= high <= 31,
    ensures
        r as nat == bits_of(word, high as nat, low as nat),
{
    get_bits_u32(word, high, low)
}

/// A 32-bit mask whose set bits are exactly `low..=high`.
pub fn genmask_u32(high: u32, low: u32) -> (r: u32)
    requires
        low <= high < 32,
    ensures
        forall|i: u32| i < 32 ==> (((r >> i) & 1u32) == 1u32) == (low <= i && i <= high),
        r as u64 == (1u64 << (high + 1) as u64) - (1u64 << low as u64),
{
    let r: u32 = (!0u32 << low) & (!0u32 >> (31 - high));
    proof {
        assert(((!0u32 << low) & (!0u32 >> ((31u32 - high) as u32))) as u64 == (1u64 << (high
            + 1) as u64) - (1u64 << low as u64)) by (bit_vector)
            requires
                low <= high,
                high < 32u32,
        ;
        assert forall|i: u32| i < 32 implies (((r >> i) & 1u32) == 1u32) == (low <= i && i
            <= high) by {
            assert(((((!0u32 << low) & (!0u32 >> ((31u32 - high) as u32))) >> i) & 1u32 == 1u32) == (low
                <= i && i <= high)) by (bit_vector)
                requires
                    low <= high,
                    high < 32u32,
                    i < 32u32,
            ;
        }
    }
    r
}

/// A 64-bit mask whose set bits are exactly `low..=high`.
pub fn genmask_u64(high: u64, low: u64) -> (r: u64)
    requires
        low <= high < 64,
    ensures
        forall|i: u64| i < 64 ==> (((r >> i) & 1u64) == 1u64) == (low <= i && i <= high),
        r as u128 == (1u128 << (high + 1) as u128) - (1u128 << low as u128),
{
    let r: u64 = (!0u64 << low) & (!0u64 >> (63 - high));
    proof {
        assert(((!0u64 << low) & (!0u64 >> ((63u64 - high) as u64))) as u128 == (1u128 << (high
            + 1) as u128) - (1u128 << low as u128)) by (bit_vector)
            requires
                low <= high,
                high < 64u64,
        ;
        assert forall|i: u64| i < 64 implies (((r >> i) & 1u64) == 1u64) == (low <= i && i
            <= high) by {
            assert(((((!0u64 << low) & (!0u64 >> ((63u64 - high) as u64))) >> i) & 1u64 == 1u64) == (low
                <= i && i <= high)) by (bit_vector)
                requires
                    low <= high,
                    high < 64u64,
                    i < 64u64,
            ;
        }
    }
    r
}

/// Decodes a binary-coded-decimal byte. Nibbles above 9 are not rejected:
/// they give a value outside `0..=99`.
pub fn bcd_to_binary(b: u8) -> (r: u8)
    ensures
        r as nat == bcd_value(b as nat),
        is_bcd_byte(b) ==> r <= 99,
{
    proof {
        assert(b >> 4u8 == b / 16) by (bit_vector);
        assert(b & 0xfu8 == b % 16) by (bit_vector);
    }
    (b >> 4) * 10 + (b & 0xf)
}

/// Decodes a binary-coded-decimal value held in a wider word, refusing
/// one that does not fit in a byte instead of truncating it.
pub fn bcd_to_binary_checked(v: u32) -> (r: Option<u8>)
    ensures
        v <= 255 ==> r == Some(bcd_value(v as nat) as u8),
        v > 255 ==> r.is_none(),
{
    if v > 255 {
        None
    } else {
        Some(bcd_to_binary(v as u8))
    }
}

} // verus!
