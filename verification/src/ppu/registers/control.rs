use vstd::prelude::*;

verus! {

/// PPUCTRL ($2000), bit flags `VPHB_SINN`; bit 2 (`I`) selects whether the
/// VRAM address advances by 1 (across) or by 32 (down) after each PPUDATA access.
#[derive(Clone, Copy)]
pub struct ControlRegister {
    state: u8,
}

impl View for ControlRegister {
    type V = u8;

    closed spec fn view(&self) -> u8 {
        self.state
    }
}

/// The VRAM address increment that the control bits `state` select.
pub open spec fn spec_increment_count(state: u8) -> u8 {
    if (state / 4) % 2 == 1 {
        32
    } else {
        1
    }
}

impl ControlRegister {
    pub fn new() -> (r: Self)
        ensures
            r@ == 0,
    {
        ControlRegister { state: 0 }
    }

    pub fn update(&mut self, bits: u8)
        ensures
            final(self)@ == bits,
    {
        self.state = bits;
    }

    pub fn increment_count(&self) -> (r: u8)
        ensures
            r == spec_increment_count(self@),
    {
        let s = self.state;
        assert((s >> 2 & 1 == 1) == ((s / 4) % 2 == 1)) by (bit_vector);
        if (self.state >> 2 & 1) == 1 {
            32
        } else {
            1
        }
    }
}

/// Law: the VRAM increment is 32 exactly when bit 2 of PPUCTRL is set, and 1
/// otherwise, whatever the other bits hold.
pub proof fn lemma_increment_follows_bit_2(state: u8)
    ensures
        spec_increment_count(state) == if state & 0b0000_0100 != 0 {
            32u8
        } else {
            1u8
        },
{
    assert(((state / 4) % 2 == 1) == (state & 0b0000_0100 != 0)) by (bit_vector);
}

} // verus!
