use vstd::prelude::*;

use crate::bits::{lemma_join_bytes, lemma_u16_bits};

verus! {

/// The address after `address` on a 16-bit bus (wrapping from $FFFF to $0000).
pub open spec fn next_address(address: u16) -> u16 {
    ((address as int + 1) % 0x10000) as u16
}

/// A byte-addressed memory seen through a 16-bit address bus. Reads may change
/// the state (memory-mapped registers), so both reads and writes are given as
/// state transitions over the view, with a condition under which each is possible.
pub trait Memory: View + Sized {
    /// A read of `address` is possible in `state`.
    spec fn read_ok(state: Self::V, address: u16) -> bool;

    /// The state after reading `address`, and the byte read.
    spec fn read(state: Self::V, address: u16) -> (Self::V, u8);

    /// A write to `address` is possible in `state`.
    spec fn write_ok(state: Self::V, address: u16) -> bool;

    /// The state after writing `value` to `address`.
    spec fn write(state: Self::V, address: u16, value: u8) -> Self::V;

    fn mem_read(&mut self, address: u16) -> (r: u8)
        requires
            Self::read_ok(old(self)@, address),
        ensures
            (final(self)@, r) == Self::read(old(self)@, address),
    ;

    fn mem_write(&mut self, address: u16, value: u8)
        requires
            Self::write_ok(old(self)@, address),
        ensures
            final(self)@ == Self::write(old(self)@, address, value),
    ;

    /// Reads a little-endian 16-bit value: the low byte at `address`, the high
    /// byte at the next address.
    fn mem_read_u16(&mut self, address: u16) -> (r: u16)
        requires
            Self::read_ok(old(self)@, address),
            Self::read_ok(Self::read(old(self)@, address).0, next_address(address)),
        ensures
            ({
                let (s1, low) = Self::read(old(self)@, address);
                let (s2, high) = Self::read(s1, next_address(address));
                final(self)@ == s2 && r == high as int * 256 + low as int
            }),
    {
        let lo = self.mem_read(address);
        let low_byte: u16 = lo as u16 & 0b0000_0000_1111_1111;
        let hi = self.mem_read(address.wrapping_add(1));
        let high_byte: u16 = (hi as u16) << 8;
        proof {
            lemma_join_bytes(hi, lo);
        }
        high_byte | low_byte
    }

    /// Writes a little-endian 16-bit value: the low byte at `address`, then the
    /// high byte at the next address.
    fn mem_write_u16(&mut self, address: u16, value: u16)
        requires
            Self::write_ok(old(self)@, address),
            Self::write_ok(
                Self::write(old(self)@, address, (value % 256) as u8),
                next_address(address),
            ),
        ensures
            final(self)@ == Self::write(
                Self::write(old(self)@, address, (value % 256) as u8),
                next_address(address),
                (value / 256) as u8,
            ),
    {
        let high_byte: u8 = (value >> 8) as u8;
        let low_byte: u8 = (value & 0b0000_0000_1111_1111) as u8;
        proof {
            lemma_u16_bits(value);
        }
        self.mem_write(address, low_byte);
        self.mem_write(address.wrapping_add(1), high_byte);
    }
}

} // verus!
