use vstd::prelude::*;

use crate::bits::{lemma_join_bytes, lemma_u16_bits};
use crate::cpu::{CpuView, CPU};

verus! {

/// How an instruction finds its operand.
#[derive(Debug, PartialEq, Eq, Structural, Clone, Copy)]
#[allow(non_camel_case_types)]
pub enum AddressingMode {
    Immediate,
    ZeroPage,
    ZeroPage_X,
    ZeroPage_Y,
    Absolute,
    Absolute_X,
    Absolute_Y,
    Indirect,
    Indirect_X,
    Indirect_Y,
    NoneAddressing,
    Relative,
    /// Same as `NoneAddressing`, but told apart for tracing.
    Accumulator,
}

impl AddressingMode {
    /// The mode takes its operand from memory at an address that it computes.
    pub open spec fn has_operand_address(self) -> bool {
        !(self is NoneAddressing || self is Accumulator)
    }

    /// All the reads that computing the operand address makes are possible.
    #[verifier::opaque]
    pub open spec fn operand_ok(self, pc: u16, s: CpuView) -> bool {
        match self {
            AddressingMode::Immediate | AddressingMode::Relative => true,
            AddressingMode::ZeroPage | AddressingMode::ZeroPage_X | AddressingMode::ZeroPage_Y => s.read_ok(pc),
            AddressingMode::Absolute | AddressingMode::Absolute_X | AddressingMode::Absolute_Y => s.read_u16_ok(pc),
            AddressingMode::Indirect => {
                let (s1, addr) = s.read_u16(pc);
                &&& s.read_u16_ok(pc)
                &&& if addr % 256 == 0xFF {
                    s1.read_ok(addr) && s1.read(addr).0.read_ok((addr - 0xFF) as u16)
                } else {
                    s1.read_u16_ok(addr)
                }
            },
            AddressingMode::Indirect_X => {
                let (s1, base) = s.read(pc);
                let ptr = ((base + s.x) % 256) as u16;
                &&& s.read_ok(pc)
                &&& s1.read_ok(ptr)
                &&& s1.read(ptr).0.read_ok(((ptr + 1) % 256) as u16)
            },
            AddressingMode::Indirect_Y => {
                let (s1, ptr) = s.read(pc);
                &&& s.read_ok(pc)
                &&& s1.read_ok(ptr as u16)
                &&& s1.read(ptr as u16).0.read_ok(((ptr + 1) % 256) as u16)
            },
            AddressingMode::NoneAddressing | AddressingMode::Accumulator => false,
        }
    }

    /// The state after computing the operand address of an instruction whose
    /// operand bytes start at `pc`, and that address.
    ///
    /// Zero page indexing wraps inside the zero page; `Indirect` reproduces the
    /// 6502 bug that takes the high byte of a vector at $xxFF from $xx00;
    /// `Indirect_X` and `Indirect_Y` read their pointer inside the zero page.
    #[verifier::opaque]
    pub open spec fn operand(self, pc: u16, s: CpuView) -> (CpuView, u16) {
        match self {
            AddressingMode::ZeroPage => {
                let (s1, zp) = s.read(pc);
                (s1, zp as u16)
            },
            AddressingMode::ZeroPage_X => {
                let (s1, zp) = s.read(pc);
                (s1, ((zp + s.x) % 256) as u16)
            },
            AddressingMode::ZeroPage_Y => {
                let (s1, zp) = s.read(pc);
                (s1, ((zp + s.y) % 256) as u16)
            },
            AddressingMode::Absolute => s.read_u16(pc),
            AddressingMode::Absolute_X => {
                let (s1, abs) = s.read_u16(pc);
                (s1, ((abs + s.x) % 0x10000) as u16)
            },
            AddressingMode::Absolute_Y => {
                let (s1, abs) = s.read_u16(pc);
                (s1, ((abs + s.y) % 0x10000) as u16)
            },
            AddressingMode::Indirect => {
                let (s1, addr) = s.read_u16(pc);
                if addr % 256 == 0xFF {
                    let (s2, lo) = s1.read(addr);
                    let (s3, hi) = s2.read((addr - 0xFF) as u16);
                    (s3, (hi * 256 + lo) as u16)
                } else {
                    s1.read_u16(addr)
                }
            },
            AddressingMode::Indirect_X => {
                let (s1, base) = s.read(pc);
                let ptr = ((base + s.x) % 256) as u16;
                let (s2, lo) = s1.read(ptr);
                let (s3, hi) = s2.read(((ptr + 1) % 256) as u16);
                (s3, (hi * 256 + lo) as u16)
            },
            AddressingMode::Indirect_Y => {
                let (s1, ptr) = s.read(pc);
                let (s2, lo) = s1.read(ptr as u16);
                let (s3, hi) = s2.read(((ptr + 1) % 256) as u16);
                (s3, ((hi * 256 + lo + s.y) % 0x10000) as u16)
            },
            _ => (s, pc),
        }
    }

    pub fn get_operand_address_from_program_counter(&self, program_counter: u16, cpu: &mut CPU) -> (r: u16)
        requires
            self.operand_ok(program_counter, old(cpu)@),
        ensures
            (final(cpu)@, r) == self.operand(program_counter, old(cpu)@),
    {
        proof {
            reveal(AddressingMode::operand_ok);
            reveal(AddressingMode::operand);
        }
        match self {
            AddressingMode::Immediate => program_counter,
            AddressingMode::ZeroPage => cpu.mem_read(program_counter) as u16,
            AddressingMode::ZeroPage_X => {
                let x = cpu.reg_x;
                Self::zero_page_indexed(program_counter, cpu, x)
            },
            AddressingMode::ZeroPage_Y => {
                let y = cpu.reg_y;
                Self::zero_page_indexed(program_counter, cpu, y)
            },
            AddressingMode::Absolute => cpu.mem_read_u16(program_counter),
            AddressingMode::Absolute_X => {
                let x = cpu.reg_x;
                Self::absolute_indexed(program_counter, cpu, x)
            },
            AddressingMode::Absolute_Y => {
                let y = cpu.reg_y;
                Self::absolute_indexed(program_counter, cpu, y)
            },
            AddressingMode::Indirect => Self::indirect(program_counter, cpu),
            AddressingMode::Indirect_X => Self::indexed_indirect(program_counter, cpu),
            AddressingMode::Indirect_Y => Self::indirect_indexed(program_counter, cpu),
            AddressingMode::Relative => program_counter,
            // NoneAddressing and Accumulator have no operand address; operand_ok rules them out
            _ => program_counter,
        }
    }

    fn zero_page_indexed(program_counter: u16, cpu: &mut CPU, index: u8) -> (r: u16)
        requires
            old(cpu)@.read_ok(program_counter),
        ensures
            final(cpu)@ == old(cpu)@.read(program_counter).0,
            r == (old(cpu)@.read(program_counter).1 + index) % 256,
    {
        let zero_page: u8 = cpu.mem_read(program_counter);
        zero_page.wrapping_add(index) as u16
    }

    fn absolute_indexed(program_counter: u16, cpu: &mut CPU, index: u8) -> (r: u16)
        requires
            old(cpu)@.read_u16_ok(program_counter),
        ensures
            final(cpu)@ == old(cpu)@.read_u16(program_counter).0,
            r == (old(cpu)@.read_u16(program_counter).1 + index) % 0x10000,
    {
        let abs_addr: u16 = cpu.mem_read_u16(program_counter);
        abs_addr.wrapping_add(index as u16)
    }

    fn indirect(program_counter: u16, cpu: &mut CPU) -> (r: u16)
        requires
            AddressingMode::Indirect.operand_ok(program_counter, old(cpu)@),
        ensures
            (final(cpu)@, r) == AddressingMode::Indirect.operand(program_counter, old(cpu)@),
    {
        proof {
            reveal(AddressingMode::operand_ok);
            reveal(AddressingMode::operand);
        }
        // Indirect is only used by JMP. The NMOS 6502 does not correctly fetch
        // the target if the vector falls on a page boundary ($xxFF): it takes the
        // low byte from $xxFF and the high byte from $xx00. The bug is kept.
        let addr: u16 = cpu.mem_read_u16(program_counter);
        let low_byte: u16 = addr as u16 & 0b0000_0000_1111_1111;
        proof {
            lemma_u16_bits(addr);
        }
        if low_byte == 0xFF {
            // Page boundary
            let lo = cpu.mem_read(addr);
            let dereferenced_low_byte = lo as u16;
            let hi = cpu.mem_read(addr & 0b1111_1111_0000_0000);
            let dereferenced_high_byte = (hi as u16) << 8;
            proof {
                lemma_join_bytes(hi, lo);
            }
            dereferenced_high_byte | dereferenced_low_byte
        } else {
            let dereferenced_addr: u16 = cpu.mem_read_u16(addr);
            dereferenced_addr
        }
    }

    fn indexed_indirect(program_counter: u16, cpu: &mut CPU) -> (r: u16)
        requires
            AddressingMode::Indirect_X.operand_ok(program_counter, old(cpu)@),
        ensures
            (final(cpu)@, r) == AddressingMode::Indirect_X.operand(program_counter, old(cpu)@),
    {
        proof {
            reveal(AddressingMode::operand_ok);
            reveal(AddressingMode::operand);
        }
        let addr: u8 = cpu.mem_read(program_counter);
        let added_addr: u8 = addr.wrapping_add(cpu.reg_x);
        // A pointer at $FF takes its high byte from $00, not $100
        let lo = cpu.mem_read(added_addr as u16);
        let low_byte: u16 = lo as u16 & 0b0000_0000_1111_1111;
        let hi = cpu.mem_read(added_addr.wrapping_add(1) as u16);
        let high_byte: u16 = (hi as u16) << 8;
        proof {
            lemma_join_bytes(hi, lo);
        }
        high_byte | low_byte
    }

    fn indirect_indexed(program_counter: u16, cpu: &mut CPU) -> (r: u16)
        requires
            AddressingMode::Indirect_Y.operand_ok(program_counter, old(cpu)@),
        ensures
            (final(cpu)@, r) == AddressingMode::Indirect_Y.operand(program_counter, old(cpu)@),
    {
        proof {
            reveal(AddressingMode::operand_ok);
            reveal(AddressingMode::operand);
        }
        let addr: u8 = cpu.mem_read(program_counter);
        let y = cpu.reg_y;
        // A pointer at $FF takes its high byte from $00, not $100
        let lo = cpu.mem_read(addr as u16);
        let low_byte: u16 = lo as u16 & 0b0000_0000_1111_1111;
        let hi = cpu.mem_read(addr.wrapping_add(1) as u16);
        let high_byte: u16 = (hi as u16) << 8;
        proof {
            lemma_join_bytes(hi, lo);
        }
        let dereferenced_addr = high_byte | low_byte;
        dereferenced_addr.wrapping_add(y as u16)
    }

    pub fn get_operand_address(&self, cpu: &mut CPU) -> (r: u16)
        requires
            self.operand_ok(old(cpu)@.pc, old(cpu)@),
        ensures
            (final(cpu)@, r) == self.operand(old(cpu)@.pc, old(cpu)@),
    {
        let pc = cpu.program_counter;
        self.get_operand_address_from_program_counter(pc, cpu)
    }
}

/// Law: `NoneAddressing` and `Accumulator` have no operand address, so computing
/// one is refused; `Immediate` and `Relative` give `pc` itself without reading;
/// every other mode gives an address whenever the reads it makes are possible
/// (zero page modes read one byte at `pc`, absolute modes two).
pub proof fn lemma_operand_modes(mode: AddressingMode, pc: u16, s: CpuView)
    ensures
        mode is NoneAddressing || mode is Accumulator ==> !mode.operand_ok(pc, s),
        mode is Immediate || mode is Relative ==> mode.operand_ok(pc, s) && mode.operand(pc, s) == (
            s,
            pc,
        ),
        mode is ZeroPage || mode is ZeroPage_X || mode is ZeroPage_Y ==> mode.operand_ok(pc, s)
            == s.read_ok(pc),
        mode is Absolute || mode is Absolute_X || mode is Absolute_Y ==> mode.operand_ok(pc, s)
            == s.read_u16_ok(pc),
{
    reveal(AddressingMode::operand_ok);
    reveal(AddressingMode::operand);
}

} // verus!
