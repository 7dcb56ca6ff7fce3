//! Register codec primitives shared by the addressed-register drivers:
//! assembling a signed 16-bit field from two bytes in a documented byte
//! order, and read-modify-write of configuration bitfields that must leave
//! every bit outside the written field untouched.

use vstd::prelude::*;

verus! {

/// The unsigned 16-bit word formed by a high byte and a low byte.
pub open spec fn spec_word(hi: u8, lo: u8) -> int {
    hi * 256 + lo
}

/// The standard two's-complement reading of an unsigned 16-bit word.
pub open spec fn spec_i16_from_word(word: int) -> int {
    if word >= 0x8000 {
        word - 0x10000
    } else {
        word
    }
}

/// Decode a signed 16-bit big-endian field (high byte first).
///
/// For every 2-byte encoding the result is the standard two's-complement
/// interpretation of the 16-bit word `hi:lo`.
pub fn decode_i16_be(hi: u8, lo: u8) -> (r: i16)
    ensures
        r as int == spec_i16_from_word(spec_word(hi, lo)),
{
    let word: u32 = (hi as u32) * 256 + (lo as u32);
    if word >= 0x8000 {
        ((word as i32) - 0x10000) as i16
    } else {
        word as i16
    }
}

/// Decode a signed 16-bit little-endian field (low byte first).
///
/// For every 2-byte encoding the result is the standard two's-complement
/// interpretation of the 16-bit word `hi:lo`.
pub fn decode_i16_le(lo: u8, hi: u8) -> (r: i16)
    ensures
        r as int == spec_i16_from_word(spec_word(hi, lo)),
{
    decode_i16_be(hi, lo)
}

/// The value written back by a read-modify-write of one bitfield: the bits
/// covered by `mask` are replaced by `bits`, every other bit keeps the value
/// it had in `current`.
pub open spec fn spec_apply_field(current: u8, mask: u8, bits: u8) -> u8 {
    (current & !mask) | (bits & mask)
}

/// Replace the bits of `current` covered by `mask` with the corresponding
/// bits of `bits`, leaving all bits outside `mask` unchanged.
pub fn apply_field(current: u8, mask: u8, bits: u8) -> (r: u8)
    ensures
        r == spec_apply_field(current, mask, bits),
        r & !mask == current & !mask,
        r & mask == bits & mask,
{
    let r = (current & !mask) | (bits & mask);
    proof {
        assert(((current & !mask) | (bits & mask)) & !mask == current & !mask
            && ((current & !mask) | (bits & mask)) & mask == bits & mask) by (bit_vector);
    }
    r
}

/// The value produced by setting (when `condition` holds) or clearing the
/// bits of `mask` in `value`.
pub open spec fn spec_cond_toggle(condition: bool, value: u8, mask: u8) -> u8 {
    if condition {
        value | mask
    } else {
        value & !mask
    }
}

/// Set the bits of `mask` in `value` when `condition` holds, clear them
/// otherwise; bits outside `mask` are unchanged either way.
pub fn cond_toggle_mask(condition: bool, value: u8, mask: u8) -> (r: u8)
    ensures
        r == spec_cond_toggle(condition, value, mask),
        r & !mask == value & !mask,
        condition ==> r & mask == mask,
        !condition ==> r & mask == 0,
{
    if condition {
        let r = value | mask;
        proof {
            assert((value | mask) & !mask == value & !mask && (value | mask) & mask == mask)
                by (bit_vector);
        }
        r
    } else {
        let r = value & !mask;
        proof {
            assert((value & !mask) & !mask == value & !mask && (value & !mask) & mask == 0)
                by (bit_vector);
        }
        r
    }
}

/// Law: a read-modify-write of one bitfield never alters bits outside its
/// mask.  Any probe of bits disjoint from the written field reads the same
/// value before and after the write.
pub proof fn lemma_apply_field_preserves_outside(current: u8, mask: u8, bits: u8, probe: u8)
    by (bit_vector)
    requires
        probe & mask == 0,
    ensures
        spec_apply_field(current, mask, bits) & probe == current & probe,
{
}

/// Law: the conditional toggle of one mask never alters bits outside it.
pub proof fn lemma_cond_toggle_preserves_outside(
    condition: bool,
    value: u8,
    mask: u8,
    probe: u8,
)
    by (bit_vector)
    requires
        probe & mask == 0,
    ensures
        spec_cond_toggle(condition, value, mask) & probe == value & probe,
{
}

/// When two values agree on all bits outside `mask`, they agree on any
/// probe of bits disjoint from `mask`.
pub proof fn lemma_untouched_bits(a: u8, b: u8, mask: u8, probe: u8)
    by (bit_vector)
    requires
        a & !mask == b & !mask,
        probe & mask == 0,
    ensures
        a & probe == b & probe,
{
}

} // verus!
