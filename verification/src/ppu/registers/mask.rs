use vstd::prelude::*;

verus! {

/// PPUMASK ($2001), bit flags `BGRs_bMmG`.
#[derive(Clone, Copy)]
pub struct MaskRegister {
    state: u8,
}

impl View for MaskRegister {
    type V = u8;

    closed spec fn view(&self) -> u8 {
        self.state
    }
}

/// Bit `n` of `x`, bit 0 being the least significant.
pub open spec fn spec_bit(x: u8, n: u8) -> bool {
    (x >> n) & 1 == 1
}

proof fn lemma_mask_bit(s: u8, n: u8)
    requires
        n < 8,
    ensures
        (s & (1u8 << n) != 0) == spec_bit(s, n),
{
    assert((s & (1u8 << n) != 0) == ((s >> n) & 1 == 1)) by (bit_vector)
        requires
            n < 8,
    ;
}

impl MaskRegister {
    pub fn new() -> (r: Self)
        ensures
            r@ == 0,
    {
        MaskRegister { state: 0 }
    }

    pub fn update(&mut self, bits: u8)
        ensures
            final(self)@ == bits,
    {
        self.state = bits;
    }

    pub fn is_greyscale(&self) -> (r: bool)
        ensures
            r == spec_bit(self@, 0u8),
    {
        proof {
            lemma_mask_bit(self.state, 0);
        }
        self.state & (1u8 << 0u8) != 0
    }

    pub fn show_background_leftmost(&self) -> (r: bool)
        ensures
            r == spec_bit(self@, 1u8),
    {
        proof {
            lemma_mask_bit(self.state, 1);
        }
        self.state & (1u8 << 1u8) != 0
    }

    pub fn show_sprites_leftmost(&self) -> (r: bool)
        ensures
            r == spec_bit(self@, 2u8),
    {
        proof {
            lemma_mask_bit(self.state, 2);
        }
        self.state & (1u8 << 2u8) != 0
    }

    pub fn show_background(&self) -> (r: bool)
        ensures
            r == spec_bit(self@, 3u8),
    {
        proof {
            lemma_mask_bit(self.state, 3);
        }
        self.state & (1u8 << 3u8) != 0
    }

    pub fn show_sprites(&self) -> (r: bool)
        ensures
            r == spec_bit(self@, 4u8),
    {
        proof {
            lemma_mask_bit(self.state, 4);
        }
        self.state & (1u8 << 4u8) != 0
    }

    pub fn emphasize_red(&self) -> (r: bool)
        ensures
            r == spec_bit(self@, 5u8),
    {
        proof {
            lemma_mask_bit(self.state, 5);
        }
        self.state & (1u8 << 5u8) != 0
    }

    pub fn emphasize_green(&self) -> (r: bool)
        ensures
            r == spec_bit(self@, 6u8),
    {
        proof {
            lemma_mask_bit(self.state, 6);
        }
        self.state & (1u8 << 6u8) != 0
    }

    pub fn emphasize_blue(&self) -> (r: bool)
        ensures
            r == spec_bit(self@, 7u8),
    {
        proof {
            lemma_mask_bit(self.state, 7);
        }
        self.state & (1u8 << 7u8) != 0
    }
}

/// Law: bit `n` of `x` is set exactly when `x` has the single-bit mask `1 << n`,
/// bit 0 being the least significant (so `spec_bit(x, 7)` is `x >= 0x80`).
pub proof fn lemma_bit_is_mask(x: u8, n: u8)
    requires
        n < 8,
    ensures
        spec_bit(x, n) == (x & (1u8 << n) != 0),
        spec_bit(x, 0) == (x % 2 == 1),
        spec_bit(x, 7) == (x >= 0x80),
{
    lemma_mask_bit(x, n);
    assert(((x >> 0u8) & 1 == 1) == (x % 2 == 1) && ((x >> 7u8) & 1 == 1) == (x >= 0x80)) by (bit_vector);
}

} // verus!
