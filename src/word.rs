use vstd::prelude::*;

verus! {

/// Bit `i` of `w`.
pub open spec fn bit(w: u16, i: u16) -> bool {
    (w >> i) & 1 == 1
}

/// The low `width` bits of `data`, with every bit above them copied from
/// bit `width - 1`.
pub open spec fn sext(data: u16, width: u16) -> u16 {
    if (data >> (width - 1) as u16) & 1 == 1 {
        (data & ((1u16 << width) - 1) as u16) | (0xffffu16 << width)
    } else {
        data & ((1u16 << width) - 1) as u16
    }
}

/// The low `width` bits of `data`, every bit above them cleared.
pub open spec fn zext(data: u16, width: u16) -> u16 {
    data & ((1u16 << width) - 1) as u16
}

/// The one-hot condition code of a result: zero, else negative when bit 15
/// is set, else positive.
pub open spec fn cond_code(result: u16) -> u16 {
    if result == 0 {
        0b010
    } else if result >= 0x8000 {
        0b100
    } else {
        0b001
    }
}

/// Widens the low `width` bits of `data` to a word, replicating the field's
/// top bit into every higher bit.
pub fn sign_extend_16(data: u16, width: u16) -> (r: u16)
    requires
        1 <= width <= 15,
    ensures
        r == sext(data, width),
{
    assert(1u16 << width >= 1) by (bit_vector)
        requires
            width <= 15,
    ;
    let mask: u16 = (1u16 << width) - 1;
    if (data >> (width - 1)) & 1 == 1 {
        (data & mask) | (0xffffu16 << width)
    } else {
        data & mask
    }
}

/// Widens the low `width` bits of `data` to a word, padding with zeros.
pub fn zero_extend_16(data: u16, width: u16) -> (r: u16)
    requires
        1 <= width <= 15,
    ensures
        r == zext(data, width),
{
    assert(1u16 << width >= 1) by (bit_vector)
        requires
            width <= 15,
    ;
    let mask: u16 = (1u16 << width) - 1;
    data & mask
}

/// The condition code that a result value selects.
pub fn condition_of(result: u16) -> (r: u16)
    ensures
        r == cond_code(result),
{
    if result == 0 {
        0b010
    } else if (result >> 15) & 1 == 1 {
        assert(result >= 0x8000) by (bit_vector)
            requires
                (result >> 15) & 1 == 1,
        ;
        0b100
    } else {
        assert(result < 0x8000) by (bit_vector)
            requires
                (result >> 15) & 1 != 1,
        ;
        0b001
    }
}

/// Sign extension keeps the field's own bits and fills every bit above it
/// with the field's top bit.
pub proof fn lemma_sign_extend_bits(data: u16, width: u16)
    requires
        1 <= width <= 15,
    ensures
        forall|i: u16|
            i < 16 ==> #[trigger] bit(sext(data, width), i) == if i < width {
                bit(data, i)
            } else {
                bit(data, (width - 1) as u16)
            },
{
    assert forall|i: u16| i < 16 implies #[trigger] bit(sext(data, width), i) == if i < width {
        bit(data, i)
    } else {
        bit(data, (width - 1) as u16)
    } by {
        let r = sext(data, width);
        assert(((r >> i) & 1 == 1) == if i < width {
            (data >> i) & 1 == 1
        } else {
            (data >> (width - 1) as u16) & 1 == 1
        }) by (bit_vector)
            requires
                1 <= width <= 15,
                i < 16,
                r == if (data >> (width - 1) as u16) & 1 == 1 {
                    (data & ((1u16 << width) - 1) as u16) | (0xffffu16 << width)
                } else {
                    data & ((1u16 << width) - 1) as u16
                },
        ;
    }
}

/// Zero extension keeps the field's own bits and clears every bit above it.
pub proof fn lemma_zero_extend_bits(data: u16, width: u16)
    requires
        1 <= width <= 15,
    ensures
        forall|i: u16| i < 16 ==> #[trigger] bit(zext(data, width), i) == (i < width && bit(data, i)),
{
    assert forall|i: u16| i < 16 implies #[trigger] bit(zext(data, width), i) == (i < width && bit(
        data,
        i,
    )) by {
        let r = zext(data, width);
        assert(((r >> i) & 1 == 1) == (i < width && (data >> i) & 1 == 1)) by (bit_vector)
            requires
                1 <= width <= 15,
                i < 16,
                r == data & ((1u16 << width) - 1) as u16,
        ;
    }
}

} // verus!
