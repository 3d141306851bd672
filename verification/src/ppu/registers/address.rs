use vstd::prelude::*;

verus! {

/// PPUADDR ($2006): the 14-bit VRAM address that PPUDATA reads and writes go
/// through, written by the CPU one byte at a time (high byte first).
#[derive(Clone, Copy)]
pub struct AddressRegister {
    data: u16,
    first_byte: bool,
}

/// Abstract state of [`AddressRegister`].
pub struct AddressRegisterView {
    /// The current VRAM address.
    pub data: u16,
    /// Whether the next write sets the high byte.
    pub high_next: bool,
}

impl View for AddressRegister {
    type V = AddressRegisterView;

    closed spec fn view(&self) -> AddressRegisterView {
        AddressRegisterView { data: self.data, high_next: self.first_byte }
    }
}

/// The address after one byte of a PPUADDR write: the high byte is taken modulo
/// 64 (the bus is 14 bits wide), the low byte as is; the other byte is kept.
pub open spec fn spec_address_update(r: AddressRegisterView, value: u8) -> AddressRegisterView {
    if r.high_next {
        AddressRegisterView {
            data: ((value as int % 64) * 256 + r.data as int % 256) as u16,
            high_next: false,
        }
    } else {
        AddressRegisterView {
            data: (((r.data as int / 256) % 64) * 256 + value as int) as u16,
            high_next: true,
        }
    }
}

/// The address after advancing by `step`, wrapping inside the 14-bit space.
pub open spec fn spec_address_increment(r: AddressRegisterView, step: u8) -> AddressRegisterView {
    AddressRegisterView { data: ((r.data as int + step as int) % 0x4000) as u16, high_next: r.high_next }
}

impl AddressRegister {
    pub fn new() -> (r: Self)
        ensures
            r@ == (AddressRegisterView { data: 0, high_next: true }),
    {
        AddressRegister { data: 0, first_byte: true }
    }

    pub fn get(&self) -> (r: u16)
        ensures
            r == self@.data,
    {
        self.data
    }

    /// Writes one byte of the address, the high byte first, then toggles the latch.
    pub fn update(&mut self, value: u8)
        ensures
            final(self)@ == spec_address_update(old(self)@, value),
            final(self)@.data < 0x4000,
    {
        let old_data = self.data;
        if self.first_byte {
            self.data = (self.data & 0x00FF) | ((value as u16) << 8);
            assert((((old_data & 0x00FF) | ((value as u16) << 8)) & 0x3FFF) == (value % 64) * 256
                + old_data % 256) by (bit_vector);
        } else {
            self.data = (self.data & 0xFF00) | (value as u16);
            assert((((old_data & 0xFF00) | (value as u16)) & 0x3FFF) == ((old_data / 256) % 64)
                * 256 + value) by (bit_vector);
        }
        let d = self.data;
        self.data = self.data & 0b0011_1111_1111_1111;
        assert(d & 0x3FFF < 0x4000) by (bit_vector);
        self.first_byte = !self.first_byte;
    }

    /// Advances the address by `increment` (1 or 32 in practice) inside the 14-bit space.
    pub fn increment(&mut self, increment: u8)
        ensures
            final(self)@ == spec_address_increment(old(self)@, increment),
    {
        let old_data = self.data;
        self.data = self.data.wrapping_add(increment as u16) & 0b0011_1111_1111_1111;
        assert(old_data.wrapping_add(increment as u16) & 0x3FFF == (old_data + increment) % 0x4000)
            by (bit_vector);
    }

    /// Makes the next write set the high byte again.
    pub fn reset_latch(&mut self)
        ensures
            final(self)@ == (AddressRegisterView { data: old(self)@.data, high_next: true }),
    {
        self.first_byte = true;
    }
}

/// Law: after the latch is reset, writing `hi` then `lo` leaves the register
/// addressing `(hi % 64) * 256 + lo`, ready for a new high byte.
pub proof fn lemma_address_two_writes(r: AddressRegisterView, hi: u8, lo: u8)
    requires
        r.high_next,
    ensures
        spec_address_update(spec_address_update(r, hi), lo)
            == (AddressRegisterView { data: ((hi as int % 64) * 256 + lo as int) as u16, high_next: true }),
{
}

} // verus!
