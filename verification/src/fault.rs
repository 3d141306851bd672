// Finding out, on a copy of the machine, whether the next step would fault: an
// unofficial opcode, a memory access that the bus cannot serve, or address
// arithmetic that leaves 16 bits.
use vstd::prelude::*;

use crate::addressing_modes::AddressingMode;
use crate::cpu::{group, InstructionGroup, CPU};
use crate::opcodes::{decode, Mnemonic};

verus! {

impl CPU {
    /// A CPU in the same state.
    pub fn duplicate(&self) -> (r: CPU)
        ensures
            r@ == self@,
    {
        CPU {
            reg_a: self.reg_a,
            reg_x: self.reg_x,
            reg_y: self.reg_y,
            state: self.state,
            program_counter: self.program_counter,
            stack_ptr: self.stack_ptr,
            bus: self.bus.duplicate(),
        }
    }

    /// Reads `address` if that is possible; otherwise leaves the CPU as it is.
    pub(crate) fn try_read(&mut self, address: u16) -> (r: Option<u8>)
        ensures
            r is Some <==> old(self)@.read_ok(address),
            r matches Some(v) ==> (final(self)@, v) == old(self)@.read(address),
    {
        if self.bus.can_read(address) {
            Some(self.mem_read(address))
        } else {
            None
        }
    }

    /// A little-endian 16-bit read, if both of its reads are possible.
    pub(crate) fn try_read_u16(&mut self, address: u16) -> (r: Option<u16>)
        ensures
            r is Some <==> old(self)@.read_u16_ok(address),
            r matches Some(v) ==> (final(self)@, v) == old(self)@.read_u16(address),
    {
        match self.try_read(address) {
            None => None,
            Some(lo) => match self.try_read(address.wrapping_add(1)) {
                None => None,
                Some(hi) => Some(hi as u16 * 256 + lo as u16),
            },
        }
    }

    /// Whether a 16-bit read of `address` is possible now (both of its reads; the
    /// first can change the PPU). The CPU itself is left alone.
    pub fn can_read_u16(&self, address: u16) -> (r: bool)
        ensures
            r == self@.read_u16_ok(address),
    {
        let mut probe = self.duplicate();
        probe.try_read_u16(address).is_some()
    }

    /// Fetches the operand of an instruction whose operand bytes start at PC, if
    /// the accesses are possible.
    fn try_load(&mut self, mode: AddressingMode) -> (r: Option<u8>)
        ensures
            r is Some <==> old(self)@.load_ok(mode),
            r matches Some(v) ==> (final(self)@, v) == old(self)@.load(mode),
    {
        let pc = self.program_counter;
        match try_operand_address(mode, pc, self) {
            None => None,
            Some(address) => self.try_read(address),
        }
    }

    /// Whether a store to the operand address is possible (the probe is left
    /// with the reads that finding the address made).
    fn can_store(&mut self, mode: AddressingMode) -> (r: bool)
        ensures
            r == old(self)@.store_ok(mode),
    {
        let pc = self.program_counter;
        match try_operand_address(mode, pc, self) {
            None => false,
            Some(address) => self.bus.can_write(address),
        }
    }

    /// Whether every memory access of instruction `m` in mode `mode` is possible.
    fn can_execute(&mut self, m: Mnemonic, mode: AddressingMode) -> (r: bool)
        ensures
            r == old(self)@.execute_ok(m, mode),
    {
        match group(m) {
            InstructionGroup::Load => self.try_load(mode).is_some(),
            InstructionGroup::Store => self.can_store(mode),
            InstructionGroup::Jump => {
                let pc = self.program_counter;
                let in_range = match m {
                    Mnemonic::JSR => pc <= 0xFFFD,
                    _ => true,
                };
                try_operand_address(mode, pc, self).is_some() && in_range
            },
            InstructionGroup::Shift => {
                match mode {
                    AddressingMode::NoneAddressing | AddressingMode::Accumulator => true,
                    _ => self.try_load(mode).is_some() && self.can_store(mode),
                }
            },
            InstructionGroup::Step => self.try_load(mode).is_some() && self.can_store(mode),
            InstructionGroup::Branch => !self.branch_condition(m) || self.try_load(mode).is_some(),
            InstructionGroup::Stack => match m {
                Mnemonic::RTS => self.pull_from_stack_u16() < 0xFFFF,
                _ => true,
            },
            _ => true,
        }
    }

    /// Whether the condition of branch `m` holds.
    fn branch_condition(&self, m: Mnemonic) -> (r: bool)
        ensures
            r == self@.branch_taken(m),
    {
        match m {
            Mnemonic::BCC => !self.is_carry_flag_set(),
            Mnemonic::BCS => self.is_carry_flag_set(),
            Mnemonic::BEQ => self.is_zero_flag_set(),
            Mnemonic::BNE => !self.is_zero_flag_set(),
            Mnemonic::BMI => self.is_negative_flag_set(),
            Mnemonic::BPL => !self.is_negative_flag_set(),
            Mnemonic::BVC => !self.is_overflow_flag_set(),
            Mnemonic::BVS => self.is_overflow_flag_set(),
            _ => false,
        }
    }

    /// Whether the next step can be taken without a fault: the opcode at PC is
    /// official, PC + 1 fits in 16 bits, every memory access of the instruction
    /// is possible and its address arithmetic stays in 16 bits, and skipping its operand
    /// bytes (when it leaves PC alone) does not run past $FFFF. The CPU itself is
    /// left alone; the instruction is tried on copies.
    pub fn can_step(&self) -> (r: bool)
        ensures
            r == self@.step_ok(),
    {
        let mut probe = self.duplicate();
        let pc = probe.program_counter;
        let code = match probe.try_read(pc) {
            None => {
                return false;
            },
            Some(code) => code,
        };
        if pc == 0xFFFF {
            return false;
        }
        let opcode = match decode(code) {
            None => {
                return false;
            },
            Some(opcode) => opcode,
        };
        let instruction = opcode.get_instruction();
        let mode = *opcode.get_mode();
        if let Mnemonic::BRK = instruction {
            return true;
        }
        probe.program_counter = pc + 1;
        let mut runner = probe.duplicate();
        if !probe.can_execute(instruction, mode) {
            return false;
        }
        runner.execute(instruction, &mode);
        runner.program_counter != pc + 1 || pc as u32 + 1 + opcode.get_num_bytes() as u32 - 1 <= 0xFFFF
    }
}

/// Computes the operand address of an instruction whose operand bytes start at
/// `program_counter`, if all the reads that takes are possible.
pub(crate) fn try_operand_address(mode: AddressingMode, program_counter: u16, cpu: &mut CPU) -> (r:
    Option<u16>)
    ensures
        r is Some <==> mode.operand_ok(program_counter, old(cpu)@),
        r matches Some(a) ==> (final(cpu)@, a) == mode.operand(program_counter, old(cpu)@),
{
    match mode {
        AddressingMode::ZeroPage | AddressingMode::ZeroPage_X | AddressingMode::ZeroPage_Y => {
            try_zero_page(mode, program_counter, cpu)
        },
        AddressingMode::Absolute | AddressingMode::Absolute_X | AddressingMode::Absolute_Y => {
            try_absolute(mode, program_counter, cpu)
        },
        AddressingMode::Indirect => try_indirect(program_counter, cpu),
        AddressingMode::Indirect_X => try_indexed_indirect(program_counter, cpu),
        AddressingMode::Indirect_Y => try_indirect_indexed(program_counter, cpu),
        AddressingMode::Immediate | AddressingMode::Relative => {
            assert(mode.operand_ok(program_counter, cpu@) && mode.operand(program_counter, cpu@) == (
                cpu@,
                program_counter,
            )) by {
                reveal(AddressingMode::operand_ok);
                reveal(AddressingMode::operand);
            }
            Some(program_counter)
        },
        AddressingMode::NoneAddressing | AddressingMode::Accumulator => {
            assert(!mode.operand_ok(program_counter, cpu@)) by {
                reveal(AddressingMode::operand_ok);
            }
            None
        },
    }
}

/// A zero page operand address, indexed by X or Y for the indexed modes (wrapping
/// inside the zero page).
fn try_zero_page(mode: AddressingMode, program_counter: u16, cpu: &mut CPU) -> (r: Option<u16>)
    requires
        mode is ZeroPage || mode is ZeroPage_X || mode is ZeroPage_Y,
    ensures
        r is Some <==> mode.operand_ok(program_counter, old(cpu)@),
        r matches Some(a) ==> (final(cpu)@, a) == mode.operand(program_counter, old(cpu)@),
{
    proof {
        reveal(AddressingMode::operand_ok);
        reveal(AddressingMode::operand);
    }
    let index: u8 = match mode {
        AddressingMode::ZeroPage_X => cpu.reg_x,
        AddressingMode::ZeroPage_Y => cpu.reg_y,
        _ => 0,
    };
    let r = cpu.try_read(program_counter);
    match r {
        None => None,
        Some(zero_page) => {
            let address = zero_page.wrapping_add(index) as u16;
            assert(address == ((zero_page + index) % 256) as u16);
            Some(address)
        },
    }
}

/// An absolute operand address, indexed by X or Y for the indexed modes (wrapping
/// at the end of the address space).
fn try_absolute(mode: AddressingMode, program_counter: u16, cpu: &mut CPU) -> (r: Option<u16>)
    requires
        mode is Absolute || mode is Absolute_X || mode is Absolute_Y,
    ensures
        r is Some <==> mode.operand_ok(program_counter, old(cpu)@),
        r matches Some(a) ==> (final(cpu)@, a) == mode.operand(program_counter, old(cpu)@),
{
    proof {
        reveal(AddressingMode::operand_ok);
        reveal(AddressingMode::operand);
    }
    let index: u16 = match mode {
        AddressingMode::Absolute_X => cpu.reg_x as u16,
        AddressingMode::Absolute_Y => cpu.reg_y as u16,
        _ => 0,
    };
    let r = cpu.try_read_u16(program_counter);
    match r {
        None => None,
        Some(absolute) => {
            let address = absolute.wrapping_add(index);
            assert(address == (absolute + index) % 0x10000);
            Some(address)
        },
    }
}

/// The `Indirect` operand address, with the page-boundary bug of the 6502.
fn try_indirect(program_counter: u16, cpu: &mut CPU) -> (r: Option<u16>)
    ensures
        r is Some <==> AddressingMode::Indirect.operand_ok(program_counter, old(cpu)@),
        r matches Some(a) ==> (final(cpu)@, a) == AddressingMode::Indirect.operand(
            program_counter,
            old(cpu)@,
        ),
{
    proof {
        reveal(AddressingMode::operand_ok);
        reveal(AddressingMode::operand);
    }
    match cpu.try_read_u16(program_counter) {
        None => None,
        Some(vector) => {
            if vector % 256 == 0xFF {
                match cpu.try_read(vector) {
                    None => None,
                    Some(lo) => match cpu.try_read(vector - 0xFF) {
                        None => None,
                        Some(hi) => Some(hi as u16 * 256 + lo as u16),
                    },
                }
            } else {
                cpu.try_read_u16(vector)
            }
        },
    }
}

/// The `Indirect_X` operand address: the vector at (operand + X) in the zero page.
fn try_indexed_indirect(program_counter: u16, cpu: &mut CPU) -> (r: Option<u16>)
    ensures
        r is Some <==> AddressingMode::Indirect_X.operand_ok(program_counter, old(cpu)@),
        r matches Some(a) ==> (final(cpu)@, a) == AddressingMode::Indirect_X.operand(
            program_counter,
            old(cpu)@,
        ),
{
    proof {
        reveal(AddressingMode::operand_ok);
        reveal(AddressingMode::operand);
    }
    let x = cpu.reg_x;
    match cpu.try_read(program_counter) {
        None => None,
        Some(base) => try_zero_page_vector(base.wrapping_add(x), cpu),
    }
}

/// The `Indirect_Y` operand address: the vector at the operand in the zero page, plus Y.
fn try_indirect_indexed(program_counter: u16, cpu: &mut CPU) -> (r: Option<u16>)
    ensures
        r is Some <==> AddressingMode::Indirect_Y.operand_ok(program_counter, old(cpu)@),
        r matches Some(a) ==> (final(cpu)@, a) == AddressingMode::Indirect_Y.operand(
            program_counter,
            old(cpu)@,
        ),
{
    proof {
        reveal(AddressingMode::operand_ok);
        reveal(AddressingMode::operand);
    }
    let y = cpu.reg_y;
    match cpu.try_read(program_counter) {
        None => None,
        Some(pointer) => match try_zero_page_vector(pointer, cpu) {
            None => None,
            Some(target) => Some(target.wrapping_add(y as u16)),
        },
    }
}

/// The 16-bit vector at `pointer` in the zero page, its high byte read from
/// `pointer + 1` wrapping inside the zero page.
fn try_zero_page_vector(pointer: u8, cpu: &mut CPU) -> (r: Option<u16>)
    ensures
        r is Some <==> (old(cpu)@.read_ok(pointer as u16) && old(cpu)@.read(
            pointer as u16,
        ).0.read_ok(((pointer + 1) % 256) as u16)),
        r matches Some(a) ==> ({
            let (s1, lo) = old(cpu)@.read(pointer as u16);
            let (s2, hi) = s1.read(((pointer + 1) % 256) as u16);
            final(cpu)@ == s2 && a == hi * 256 + lo
        }),
{
    match cpu.try_read(pointer as u16) {
        None => None,
        Some(lo) => match cpu.try_read(pointer.wrapping_add(1) as u16) {
            None => None,
            Some(hi) => Some(hi as u16 * 256 + lo as u16),
        },
    }
}

} // verus!
