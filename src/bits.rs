use vstd::prelude::*;

verus! {

/// Whether any bit of `mask` is set in `v`.
pub open spec fn has_bit(v: u8, mask: u8) -> bool {
    v & mask != 0
}

/// `mask` when `b` holds, zero otherwise: one flag's share of a packed register.
pub open spec fn flag_bits(b: bool, mask: u8) -> u8 {
    if b {
        mask
    } else {
        0
    }
}

/// Eight flags packed into one byte, `b7` the most significant bit.
pub open spec fn pack8(
    b7: bool,
    b6: bool,
    b5: bool,
    b4: bool,
    b3: bool,
    b2: bool,
    b1: bool,
    b0: bool,
) -> u8 {
    flag_bits(b7, 0x80) | flag_bits(b6, 0x40) | flag_bits(b5, 0x20) | flag_bits(b4, 0x10)
        | flag_bits(b3, 0x08) | flag_bits(b2, 0x04) | flag_bits(b1, 0x02) | flag_bits(b0, 0x01)
}

/// Unpacking a byte into its eight bits and packing them again gives the byte back.
pub proof fn lemma_pack8_bits(v: u8)
    ensures
        pack8(
            has_bit(v, 0x80),
            has_bit(v, 0x40),
            has_bit(v, 0x20),
            has_bit(v, 0x10),
            has_bit(v, 0x08),
            has_bit(v, 0x04),
            has_bit(v, 0x02),
            has_bit(v, 0x01),
        ) == v,
{
    assert(pack8(
        v & 0x80 != 0,
        v & 0x40 != 0,
        v & 0x20 != 0,
        v & 0x10 != 0,
        v & 0x08 != 0,
        v & 0x04 != 0,
        v & 0x02 != 0,
        v & 0x01 != 0,
    ) == v) by (bit_vector);
}

/// Five flags packed into the low bits of a byte, `b4` the most significant.
pub open spec fn pack5(b4: bool, b3: bool, b2: bool, b1: bool, b0: bool) -> u8 {
    flag_bits(b4, 0x10) | flag_bits(b3, 0x08) | flag_bits(b2, 0x04) | flag_bits(b1, 0x02)
        | flag_bits(b0, 0x01)
}

/// Four flags packed into the low nibble, `b3` the most significant.
pub open spec fn pack_low4(b3: bool, b2: bool, b1: bool, b0: bool) -> u8 {
    flag_bits(b3, 0x08) | flag_bits(b2, 0x04) | flag_bits(b1, 0x02) | flag_bits(b0, 0x01)
}

/// Four flags packed into the high nibble, `b7` the most significant.
pub open spec fn pack_high4(b7: bool, b6: bool, b5: bool, b4: bool) -> u8 {
    flag_bits(b7, 0x80) | flag_bits(b6, 0x40) | flag_bits(b5, 0x20) | flag_bits(b4, 0x10)
}

/// Packing the five low bits of a byte keeps exactly those bits.
pub proof fn lemma_pack5_bits(v: u8)
    ensures
        pack5(
            has_bit(v, 0x10),
            has_bit(v, 0x08),
            has_bit(v, 0x04),
            has_bit(v, 0x02),
            has_bit(v, 0x01),
        ) == v & 0x1f,
        v <= 0x1f ==> v & 0x1f == v,
{
    assert(pack5(v & 0x10 != 0, v & 0x08 != 0, v & 0x04 != 0, v & 0x02 != 0, v & 0x01 != 0) == v
        & 0x1f) by (bit_vector);
    assert(v <= 0x1f ==> v & 0x1f == v) by (bit_vector);
}

/// Packing the four high bits of a byte keeps exactly those bits.
pub proof fn lemma_pack_high4_bits(v: u8)
    ensures
        pack_high4(has_bit(v, 0x80), has_bit(v, 0x40), has_bit(v, 0x20), has_bit(v, 0x10)) == v
            & 0xf0,
{
    assert(pack_high4(v & 0x80 != 0, v & 0x40 != 0, v & 0x20 != 0, v & 0x10 != 0) == v & 0xf0)
        by (bit_vector);
}

/// Four flags packed into the low nibble never reach the high nibble.
pub proof fn lemma_pack_low4_bound(b3: bool, b2: bool, b1: bool, b0: bool)
    ensures
        pack_low4(b3, b2, b1, b0) <= 0x0f,
{
    assert(pack_low4(b3, b2, b1, b0) <= 0x0f) by (bit_vector);
}

/// With no flag set, every packing is zero.
pub proof fn lemma_pack_none()
    ensures
        pack8(false, false, false, false, false, false, false, false) == 0,
        pack5(false, false, false, false, false) == 0,
        pack_low4(false, false, false, false) == 0,
        pack_high4(false, false, false, false) == 0,
{
    assert(0u8 | 0u8 | 0u8 | 0u8 | 0u8 | 0u8 | 0u8 | 0u8 == 0u8 && 0u8 | 0u8 | 0u8 | 0u8 | 0u8
        == 0u8 && 0u8 | 0u8 | 0u8 | 0u8 == 0u8) by (bit_vector);
}

} // verus!
