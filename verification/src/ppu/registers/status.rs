use vstd::prelude::*;

verus! {

/// PPUSTATUS ($2002), bit flags `VSOx_xxxx`: vertical blank (bit 7), sprite
/// zero hit (bit 6), sprite overflow (bit 5).
#[derive(Clone, Copy)]
pub struct StatusRegister {
    state: u8,
}

impl View for StatusRegister {
    type V = u8;

    closed spec fn view(&self) -> u8 {
        self.state
    }
}

/// `state` with bit `bit` set to `value` and every other bit kept.
pub open spec fn spec_with_bit(state: u8, bit: u8, value: bool) -> u8 {
    if value {
        state | (1u8 << bit)
    } else {
        state & !(1u8 << bit)
    }
}

impl StatusRegister {
    pub fn new() -> (r: Self)
        ensures
            r@ == 0,
    {
        StatusRegister { state: 0 }
    }

    pub fn get(&self) -> (r: u8)
        ensures
            r == self@,
    {
        self.state
    }

    pub fn is_in_vblank(&self) -> (r: bool)
        ensures
            r == (self@ >= 0x80),
    {
        let s = self.state;
        assert((s & 0b1000_0000 != 0) == (s >= 0x80)) by (bit_vector);
        self.state & 0b1000_0000 != 0
    }

    pub fn set_vblank(&mut self, value: bool)
        ensures
            final(self)@ == spec_with_bit(old(self)@, 7, value),
    {
        self.set_bit(7, value);
    }

    pub fn set_sprite_zero_hit(&mut self, value: bool)
        ensures
            final(self)@ == spec_with_bit(old(self)@, 6, value),
    {
        self.set_bit(6, value);
    }

    pub fn set_sprite_overflow(&mut self, value: bool)
        ensures
            final(self)@ == spec_with_bit(old(self)@, 5, value),
    {
        self.set_bit(5, value);
    }

    fn set_bit(&mut self, bit: u8, value: bool)
        requires
            bit < 8,
        ensures
            final(self)@ == spec_with_bit(old(self)@, bit, value),
    {
        if value {
            self.state |= 1 << bit;
        } else {
            self.state &= !(1 << bit);
        }
    }
}

/// Law: setting a status bit changes that bit alone, and reading it back gives
/// the value that was set.
pub proof fn lemma_with_bit(state: u8, bit: u8, value: bool, other: u8)
    requires
        bit < 8,
        other < 8,
    ensures
        ((spec_with_bit(state, bit, value) >> bit) & 1 == 1) == value,
        other != bit ==> (spec_with_bit(state, bit, value) >> other) & 1 == (state >> other) & 1,
{
    if value {
        assert(((state | (1u8 << bit)) >> bit) & 1 == 1) by (bit_vector)
            requires
                bit < 8,
        ;
        assert(other != bit ==> ((state | (1u8 << bit)) >> other) & 1 == (state >> other) & 1)
            by (bit_vector)
            requires
                bit < 8,
                other < 8,
        ;
    } else {
        assert(((state & !(1u8 << bit)) >> bit) & 1 == 0) by (bit_vector)
            requires
                bit < 8,
        ;
        assert(other != bit ==> ((state & !(1u8 << bit)) >> other) & 1 == (state >> other) & 1)
            by (bit_vector)
            requires
                bit < 8,
                other < 8,
        ;
    }
}

} // verus!
