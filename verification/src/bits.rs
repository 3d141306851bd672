use vstd::prelude::*;

verus! {

/// Facts about the bit operations on bytes, stated as arithmetic.
pub proof fn lemma_u8_bits(x: u8)
    ensures
        (x & 0x80 != 0) == (x >= 0x80),
        (x & 0x01 != 0) == (x % 2 == 1),
        x << 1 == (x * 2) % 256,
        (x << 1) | 1 == (x * 2) % 256 + 1,
        x >> 1 == x / 2,
        (x >> 1) | 0x80 == x / 2 + 0x80,
        !x == 255 - x,
        ((x >> 6u8) & 1 == 1) == ((x / 0x40) % 2 == 1),
        ((x >> 7u8) & 1 == 1) == (x >= 0x80),
        (0x0100u16 | (x as u16)) == 0x100 + x,
        x >= 0x80 ==> (x as i8) as u16 == (x as u16) + 0xFF00,
        x < 0x80 ==> (x as i8) as u16 == x as u16,
{
    assert((x & 0x80 != 0) == (x >= 0x80) && (x & 0x01 != 0) == (x % 2 == 1) && x << 1 == (x * 2)
        % 256 && (x << 1) | 1 == (x * 2) % 256 + 1 && x >> 1 == x / 2 && (x >> 1) | 0x80 == x / 2
        + 0x80 && !x == 255 - x && ((x >> 6u8) & 1 == 1) == ((x / 0x40) % 2 == 1) && ((x >> 7u8) & 1
        == 1) == (x >= 0x80) && (0x0100u16 | (x as u16)) == 0x100 + x && (x >= 0x80 ==> (x as i8)
        as u16 == (x as u16) + 0xFF00) && (x < 0x80 ==> (x as i8) as u16 == x as u16))
        by (bit_vector);
}

/// Bit `n` of `x` tested with a mask is bit `n` of `x` shifted down.
pub proof fn lemma_bit_test(x: u8, n: u8)
    requires
        n < 8,
    ensures
        (x & (1u8 << n) != 0) == ((x >> n) & 1 == 1),
{
    assert((x & (1u8 << n) != 0) == ((x >> n) & 1 == 1)) by (bit_vector)
        requires
            n < 8,
    ;
}

/// Facts about splitting a 16-bit value into bytes, stated as arithmetic.
pub proof fn lemma_u16_bits(x: u16)
    ensures
        x as u8 == x % 256,
        x & 0xFF == x % 256,
        (x & 0x00FF) as u8 == x % 256,
        ((x & 0xFF00) >> 8) as u8 == x / 256,
        (x >> 8) as u8 == x / 256,
        x & 0x7FF == x % 2048,
        x % 256 == 0xFF ==> x & 0xFF00 == x - 0xFF,
{
    assert(x as u8 == x % 256 && x & 0xFF == x % 256 && (x & 0x00FF) as u8 == x % 256 && ((x
        & 0xFF00) >> 8) as u8 == x / 256 && (x >> 8) as u8 == x / 256 && x & 0x7FF == x % 2048 && (x
        % 256 == 0xFF ==> x & 0xFF00 == x - 0xFF)) by (bit_vector);
}

/// Joining two bytes into a little-endian 16-bit value.
pub proof fn lemma_join_bytes(hi: u8, lo: u8)
    ensures
        ((hi as u16) << 8) | ((lo as u16) & 0xFF) == hi * 256 + lo,
        ((hi as u16) << 8) | (lo as u16) == hi * 256 + lo,
{
    assert(((hi as u16) << 8) | ((lo as u16) & 0xFF) == hi * 256 + lo && ((hi as u16) << 8) | (lo
        as u16) == hi * 256 + lo) by (bit_vector);
}

} // verus!
