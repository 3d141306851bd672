use vstd::prelude::*;

use crate::addressing_modes::AddressingMode;
use crate::bits::{lemma_bit_test, lemma_join_bytes, lemma_u16_bits, lemma_u8_bits};
use crate::bus::{Bus, BusView};
use crate::memory::{next_address, Memory};
use crate::opcodes::{decode, spec_decode, spec_instruction_len, Mnemonic};

verus! {

/// Status flag bits: `NV-BDIZC`.
pub const CARRY_FLAG: u8 = 0b0000_0001;

pub const ZERO_FLAG: u8 = 0b0000_0010;

pub const INTERRUPT_FLAG: u8 = 0b0000_0100;

pub const DECIMAL_FLAG: u8 = 0b0000_1000;

pub const BREAK_FLAG: u8 = 0b0001_0000;

pub const BIT_5_FLAG: u8 = 0b0010_0000;

pub const OVERFLOW_FLAG: u8 = 0b0100_0000;

pub const NEGATIVE_FLAG: u8 = 0b1000_0000;

/// The 6502 CPU: registers and the bus it drives.
pub struct CPU {
    pub reg_a: u8,
    pub reg_x: u8,
    pub reg_y: u8,
    /// Status flags `NV-BDIZC`: negative, overflow, (unused), break, decimal,
    /// interrupt disable, zero, carry.
    pub state: u8,
    pub program_counter: u16,
    pub stack_ptr: u8,
    pub bus: Bus,
}

/// Abstract state of the [`CPU`].
#[verifier::ext_equal]
pub struct CpuView {
    pub a: u8,
    pub x: u8,
    pub y: u8,
    pub p: u8,
    pub pc: u16,
    pub sp: u8,
    pub bus: BusView,
}

impl View for CPU {
    type V = CpuView;

    open spec fn view(&self) -> CpuView {
        CpuView {
            a: self.reg_a,
            x: self.reg_x,
            y: self.reg_y,
            p: self.state,
            pc: self.program_counter,
            sp: self.stack_ptr,
            bus: self.bus@,
        }
    }
}

/// `p` with the flag bits of `mask` set (`on`) or cleared.
pub open spec fn spec_with_flag(p: u8, mask: u8, on: bool) -> u8 {
    if on {
        p | mask
    } else {
        p & !mask
    }
}

/// Whether a flag of `mask` is set in `p`.
pub open spec fn spec_flag(p: u8, mask: u8) -> bool {
    p & mask != 0
}

/// A byte read as a two's complement number.
pub open spec fn spec_signed(v: u8) -> int {
    if v >= 0x80 {
        v - 256
    } else {
        v as int
    }
}

impl CpuView {
    pub open spec fn read_ok(self, address: u16) -> bool {
        self.bus.read_ok(address)
    }

    /// The state after reading `address`, and the byte read.
    pub open spec fn read(self, address: u16) -> (CpuView, u8) {
        (CpuView { bus: self.bus.read(address).0, ..self }, self.bus.read(address).1)
    }

    pub open spec fn read_u16_ok(self, address: u16) -> bool {
        self.read_ok(address) && self.read(address).0.read_ok(next_address(address))
    }

    /// A little-endian 16-bit read.
    pub open spec fn read_u16(self, address: u16) -> (CpuView, u16) {
        let (s1, lo) = self.read(address);
        let (s2, hi) = s1.read(next_address(address));
        (s2, (hi * 256 + lo) as u16)
    }

    pub open spec fn write_ok(self, address: u16) -> bool {
        self.bus.write_ok(address)
    }

    pub open spec fn write(self, address: u16, value: u8) -> CpuView {
        CpuView { bus: self.bus.write(address, value), ..self }
    }

    pub open spec fn with_flag(self, mask: u8, on: bool) -> CpuView {
        CpuView { p: spec_with_flag(self.p, mask, on), ..self }
    }

    /// The zero and negative flags set from `v`.
    pub open spec fn with_zn(self, v: u8) -> CpuView {
        self.with_flag(ZERO_FLAG, v == 0).with_flag(NEGATIVE_FLAG, v >= 0x80)
    }

    pub open spec fn carry(self) -> bool {
        spec_flag(self.p, CARRY_FLAG)
    }

    pub open spec fn zero(self) -> bool {
        spec_flag(self.p, ZERO_FLAG)
    }

    pub open spec fn overflow(self) -> bool {
        spec_flag(self.p, OVERFLOW_FLAG)
    }

    pub open spec fn negative(self) -> bool {
        spec_flag(self.p, NEGATIVE_FLAG)
    }

    pub open spec fn wf(self) -> bool {
        self.bus.wf()
    }
}

/// The kinds of instruction, by how they use memory.
#[derive(Debug, PartialEq, Eq, Structural, Clone, Copy)]
pub enum InstructionGroup {
    /// Reads an operand: loads, arithmetic, logic, compares, BIT.
    Load,
    /// Writes a register to the operand address.
    Store,
    /// JMP and JSR: use the operand address itself.
    Jump,
    /// Shifts and rotates of A or memory.
    Shift,
    /// DEC and INC: read, modify and write memory.
    Step,
    Branch,
    /// Pushes, pulls and returns.
    Stack,
    /// No memory operand.
    Implied,
    Break,
}

pub open spec fn spec_group(m: Mnemonic) -> InstructionGroup {
    match m {
        Mnemonic::LDA | Mnemonic::LDX | Mnemonic::LDY | Mnemonic::ADC | Mnemonic::SBC | Mnemonic::AND
        | Mnemonic::EOR | Mnemonic::ORA | Mnemonic::BIT | Mnemonic::CMP | Mnemonic::CPX
        | Mnemonic::CPY => InstructionGroup::Load,
        Mnemonic::STA | Mnemonic::STX | Mnemonic::STY => InstructionGroup::Store,
        Mnemonic::JMP | Mnemonic::JSR => InstructionGroup::Jump,
        Mnemonic::ASL | Mnemonic::LSR | Mnemonic::ROL | Mnemonic::ROR => InstructionGroup::Shift,
        Mnemonic::DEC | Mnemonic::INC => InstructionGroup::Step,
        Mnemonic::BCC | Mnemonic::BCS | Mnemonic::BEQ | Mnemonic::BNE | Mnemonic::BMI | Mnemonic::BPL
        | Mnemonic::BVC | Mnemonic::BVS => InstructionGroup::Branch,
        Mnemonic::RTI | Mnemonic::RTS | Mnemonic::PHP | Mnemonic::PLP | Mnemonic::PLA
        | Mnemonic::PHA => InstructionGroup::Stack,
        Mnemonic::BRK => InstructionGroup::Break,
        _ => InstructionGroup::Implied,
    }
}

/// The group of an instruction.
pub fn group(m: Mnemonic) -> (r: InstructionGroup)
    ensures
        r == spec_group(m),
{
    match m {
        Mnemonic::LDA | Mnemonic::LDX | Mnemonic::LDY | Mnemonic::ADC | Mnemonic::SBC | Mnemonic::AND
        | Mnemonic::EOR | Mnemonic::ORA | Mnemonic::BIT | Mnemonic::CMP | Mnemonic::CPX
        | Mnemonic::CPY => InstructionGroup::Load,
        Mnemonic::STA | Mnemonic::STX | Mnemonic::STY => InstructionGroup::Store,
        Mnemonic::JMP | Mnemonic::JSR => InstructionGroup::Jump,
        Mnemonic::ASL | Mnemonic::LSR | Mnemonic::ROL | Mnemonic::ROR => InstructionGroup::Shift,
        Mnemonic::DEC | Mnemonic::INC => InstructionGroup::Step,
        Mnemonic::BCC | Mnemonic::BCS | Mnemonic::BEQ | Mnemonic::BNE | Mnemonic::BMI | Mnemonic::BPL
        | Mnemonic::BVC | Mnemonic::BVS => InstructionGroup::Branch,
        Mnemonic::RTI | Mnemonic::RTS | Mnemonic::PHP | Mnemonic::PLP | Mnemonic::PLA
        | Mnemonic::PHA => InstructionGroup::Stack,
        Mnemonic::BRK => InstructionGroup::Break,
        _ => InstructionGroup::Implied,
    }
}

/// The branch target: the byte after the offset, moved by the signed offset,
/// wrapping around the 16-bit address space.
pub open spec fn spec_branch_target(pc: u16, offset: u8) -> u16 {
    ((pc as int + 1 + spec_signed(offset)) % 0x10000) as u16
}

/// The instruction semantics. Each returns the state after the instruction
/// (operand bytes start at `pc`); the `_ok` predicates say when every memory
/// access that it makes is possible.
impl CpuView {
    /// The operand of an instruction that reads memory is possible to fetch.
    pub open spec fn load_ok(self, mode: AddressingMode) -> bool {
        mode.operand_ok(self.pc, self) && mode.operand(self.pc, self).0.read_ok(
            mode.operand(self.pc, self).1,
        )
    }

    /// The state after fetching the operand, and the operand.
    pub open spec fn load(self, mode: AddressingMode) -> (CpuView, u8) {
        mode.operand(self.pc, self).0.read(mode.operand(self.pc, self).1)
    }

    pub open spec fn store_ok(self, mode: AddressingMode) -> bool {
        mode.operand_ok(self.pc, self) && mode.operand(self.pc, self).0.write_ok(
            mode.operand(self.pc, self).1,
        )
    }

    /// The state after storing `value` at the operand address.
    pub open spec fn store(self, mode: AddressingMode, value: u8) -> CpuView {
        mode.operand(self.pc, self).0.write(mode.operand(self.pc, self).1, value)
    }

    /// Shifts and rotates work on A in accumulator (or implied) mode, else on memory.
    pub open spec fn modify_source_ok(self, mode: AddressingMode) -> bool {
        !mode.has_operand_address() || self.load_ok(mode)
    }

    pub open spec fn modify_source(self, mode: AddressingMode) -> (CpuView, u8) {
        if !mode.has_operand_address() {
            (self, self.a)
        } else {
            self.load(mode)
        }
    }

    pub open spec fn modify_result_ok(self, mode: AddressingMode) -> bool {
        !mode.has_operand_address() || self.store_ok(mode)
    }

    pub open spec fn modify_result(self, mode: AddressingMode, value: u8) -> CpuView {
        if !mode.has_operand_address() {
            CpuView { a: value, ..self }
        } else {
            self.store(mode, value)
        }
    }

    /// Pushes `value` at $0100 + SP, then decrements SP.
    pub open spec fn push(self, value: u8) -> CpuView {
        CpuView { sp: ((self.sp + 255) % 256) as u8, ..self.write((0x100 + self.sp) as u16, value) }
    }

    /// Increments SP, then pulls the byte at $0100 + SP.
    pub open spec fn pull(self) -> (CpuView, u8) {
        let addr = (0x100 + (self.sp + 1) % 256) as u16;
        (CpuView { sp: ((self.sp + 1) % 256) as u8, ..self.read(addr).0 }, self.read(addr).1)
    }

    /// Pushes the high byte, then the low byte.
    pub open spec fn push_u16(self, value: u16) -> CpuView {
        self.push((value / 256) as u8).push((value % 256) as u8)
    }

    /// Pulls the low byte, then the high byte.
    pub open spec fn pull_u16(self) -> (CpuView, u16) {
        let (s1, lo) = self.pull();
        let (s2, hi) = s1.pull();
        (s2, (hi * 256 + lo) as u16)
    }

    /// Sets carry if `register >= value` and zero/negative from `register - value`.
    pub open spec fn compare(self, register: u8, value: u8) -> CpuView {
        self.with_flag(CARRY_FLAG, register >= value).with_zn(
            ((register + 256 - value) % 256) as u8,
        )
    }

    /// LDA, LDX, LDY: load a register.
    #[verifier::opaque]
    pub open spec fn lda(self, mode: AddressingMode) -> CpuView {
        let (s1, m) = self.load(mode);
        CpuView { a: m, ..s1 }.with_zn(m)
    }

    #[verifier::opaque]
    pub open spec fn ldx(self, mode: AddressingMode) -> CpuView {
        let (s1, m) = self.load(mode);
        CpuView { x: m, ..s1 }.with_zn(m)
    }

    #[verifier::opaque]
    pub open spec fn ldy(self, mode: AddressingMode) -> CpuView {
        let (s1, m) = self.load(mode);
        CpuView { y: m, ..s1 }.with_zn(m)
    }

    /// STA, STX, STY: store a register.
    #[verifier::opaque]
    pub open spec fn sta(self, mode: AddressingMode) -> CpuView {
        self.store(mode, self.a)
    }

    #[verifier::opaque]
    pub open spec fn stx(self, mode: AddressingMode) -> CpuView {
        self.store(mode, self.x)
    }

    #[verifier::opaque]
    pub open spec fn sty(self, mode: AddressingMode) -> CpuView {
        self.store(mode, self.y)
    }

    /// ADC: A + M + C; carry out of bit 7, overflow when the signed sum leaves -128..127.
    #[verifier::opaque]
    pub open spec fn adc(self, mode: AddressingMode) -> CpuView {
        let (s1, m) = self.load(mode);
        let c: int = if s1.carry() {
            1
        } else {
            0
        };
        let sum = s1.a + m + c;
        let r = (sum % 256) as u8;
        CpuView {
            a: r,
            ..s1.with_flag(CARRY_FLAG, sum > 255).with_flag(
                OVERFLOW_FLAG,
                !(-128 <= spec_signed(s1.a) + spec_signed(m) + c <= 127),
            ).with_zn(r)
        }
    }

    /// SBC: A - M - (1 - C); carry when no borrow, overflow when the signed
    /// difference leaves -128..127.
    #[verifier::opaque]
    pub open spec fn sbc(self, mode: AddressingMode) -> CpuView {
        let (s1, m) = self.load(mode);
        let borrow: int = if s1.carry() {
            0
        } else {
            1
        };
        let r = ((s1.a + 256 - m - borrow) % 256) as u8;
        CpuView {
            a: r,
            ..s1.with_flag(CARRY_FLAG, s1.a >= m + borrow).with_flag(
                OVERFLOW_FLAG,
                !(-128 <= spec_signed(s1.a) - spec_signed(m) - borrow <= 127),
            ).with_zn(r)
        }
    }

    /// AND, EOR, ORA: bitwise with A.
    #[verifier::opaque]
    pub open spec fn and(self, mode: AddressingMode) -> CpuView {
        let (s1, m) = self.load(mode);
        CpuView { a: s1.a & m, ..s1 }.with_zn(s1.a & m)
    }

    #[verifier::opaque]
    pub open spec fn eor(self, mode: AddressingMode) -> CpuView {
        let (s1, m) = self.load(mode);
        CpuView { a: s1.a ^ m, ..s1 }.with_zn(s1.a ^ m)
    }

    #[verifier::opaque]
    pub open spec fn ora(self, mode: AddressingMode) -> CpuView {
        let (s1, m) = self.load(mode);
        CpuView { a: s1.a | m, ..s1 }.with_zn(s1.a | m)
    }

    /// ASL: shift left; bit 7 goes to carry.
    #[verifier::opaque]
    pub open spec fn asl(self, mode: AddressingMode) -> CpuView {
        let (s1, m) = self.modify_source(mode);
        let v = ((m * 2) % 256) as u8;
        s1.with_flag(CARRY_FLAG, m >= 0x80).with_flag(NEGATIVE_FLAG, v >= 0x80).with_zn(
            v,
        ).modify_result(mode, v)
    }

    /// LSR: shift right; bit 0 goes to carry.
    #[verifier::opaque]
    pub open spec fn lsr(self, mode: AddressingMode) -> CpuView {
        let (s1, m) = self.modify_source(mode);
        let v = m / 2;
        s1.with_flag(CARRY_FLAG, m % 2 == 1).with_zn(v).modify_result(mode, v)
    }

    /// ROL: rotate left through carry.
    #[verifier::opaque]
    pub open spec fn rol(self, mode: AddressingMode) -> CpuView {
        let (s1, m) = self.modify_source(mode);
        let v = ((m * 2) % 256 + if s1.carry() {
            1int
        } else {
            0
        }) as u8;
        s1.with_flag(CARRY_FLAG, m >= 0x80).with_zn(v).modify_result(mode, v)
    }

    /// ROR: rotate right through carry.
    #[verifier::opaque]
    pub open spec fn ror(self, mode: AddressingMode) -> CpuView {
        let (s1, m) = self.modify_source(mode);
        let v = (m / 2 + if s1.carry() {
            0x80int
        } else {
            0
        }) as u8;
        s1.with_flag(CARRY_FLAG, m % 2 == 1).with_zn(v).modify_result(mode, v)
    }

    /// A taken branch: PC moves by the signed offset read at the operand.
    #[verifier::opaque]
    pub open spec fn branch(self, mode: AddressingMode) -> CpuView {
        let (s1, m) = self.load(mode);
        CpuView { pc: spec_branch_target(s1.pc, m), ..s1 }
    }

    /// BIT: zero from A AND M, overflow from bit 6 of M, negative from bit 7 of M.
    #[verifier::opaque]
    pub open spec fn bit(self, mode: AddressingMode) -> CpuView {
        let (s1, m) = self.load(mode);
        s1.with_flag(ZERO_FLAG, s1.a & m == 0).with_flag(OVERFLOW_FLAG, (m / 0x40) % 2 == 1).with_flag(
            NEGATIVE_FLAG,
            m >= 0x80,
        )
    }

    /// CMP, CPX, CPY: compare a register with memory.
    #[verifier::opaque]
    pub open spec fn cmp(self, mode: AddressingMode) -> CpuView {
        let (s1, m) = self.load(mode);
        s1.compare(s1.a, m)
    }

    #[verifier::opaque]
    pub open spec fn cpx(self, mode: AddressingMode) -> CpuView {
        let (s1, m) = self.load(mode);
        s1.compare(s1.x, m)
    }

    #[verifier::opaque]
    pub open spec fn cpy(self, mode: AddressingMode) -> CpuView {
        let (s1, m) = self.load(mode);
        s1.compare(s1.y, m)
    }

    /// DEC, INC: decrement or increment memory (wrapping).
    #[verifier::opaque]
    pub open spec fn dec(self, mode: AddressingMode) -> CpuView {
        let (s1, m) = self.load(mode);
        let v = ((m + 255) % 256) as u8;
        s1.with_zn(v).store(mode, v)
    }

    #[verifier::opaque]
    pub open spec fn inc(self, mode: AddressingMode) -> CpuView {
        let (s1, m) = self.load(mode);
        let v = ((m + 1) % 256) as u8;
        s1.with_zn(v).store(mode, v)
    }

    /// JMP: PC becomes the operand address.
    #[verifier::opaque]
    pub open spec fn jmp(self, mode: AddressingMode) -> CpuView {
        let (s1, addr) = mode.operand(self.pc, self);
        CpuView { pc: addr, ..s1 }
    }

    /// JSR: pushes the address of the last byte of the instruction, then jumps.
    #[verifier::opaque]
    pub open spec fn jsr(self, mode: AddressingMode) -> CpuView {
        let (s1, addr) = mode.operand(self.pc, self);
        CpuView { pc: addr, ..s1.push_u16(((s1.pc + 1) % 0x10000) as u16) }
    }

    /// RTI: pulls the flags, then PC.
    #[verifier::opaque]
    pub open spec fn rti(self) -> CpuView {
        let (s1, ret) = self.plp().pull_u16();
        CpuView { pc: ret, ..s1 }
    }

    /// RTS: pulls PC and adds one.
    #[verifier::opaque]
    pub open spec fn rts(self) -> CpuView {
        let (s1, ret) = self.pull_u16();
        CpuView { pc: ((ret + 1) % 0x10000) as u16, ..s1 }
    }

    /// PHP: pushes the flags with the break bit and bit 5 set.
    #[verifier::opaque]
    pub open spec fn php(self) -> CpuView {
        self.push(self.p | 0b0011_0000)
    }

    /// PLP: pulls the flags; break is cleared and bit 5 set.
    pub open spec fn plp(self) -> CpuView {
        let (s1, v) = self.pull();
        CpuView { p: v, ..s1 }.with_flag(BREAK_FLAG, false).with_flag(BIT_5_FLAG, true)
    }

    /// PLA: pulls A.
    #[verifier::opaque]
    pub open spec fn pla(self) -> CpuView {
        let (s1, v) = self.pull();
        CpuView { a: v, ..s1 }.with_zn(v)
    }

    /// PHA: pushes A.
    #[verifier::opaque]
    pub open spec fn pha(self) -> CpuView {
        self.push(self.a)
    }

    /// Register increments, decrements and transfers.
    pub open spec fn set_x(self, v: u8) -> CpuView {
        CpuView { x: v, ..self }.with_zn(v)
    }

    pub open spec fn set_y(self, v: u8) -> CpuView {
        CpuView { y: v, ..self }.with_zn(v)
    }

    pub open spec fn set_a(self, v: u8) -> CpuView {
        CpuView { a: v, ..self }.with_zn(v)
    }

    /// The state after an instruction that takes no memory operand.
    pub open spec fn implied(self, m: Mnemonic) -> CpuView {
        match m {
            Mnemonic::INX => self.set_x(((self.x + 1) % 256) as u8),
            Mnemonic::INY => self.set_y(((self.y + 1) % 256) as u8),
            Mnemonic::DEX => self.set_x(((self.x + 255) % 256) as u8),
            Mnemonic::DEY => self.set_y(((self.y + 255) % 256) as u8),
            Mnemonic::TAX => self.set_x(self.a),
            Mnemonic::TAY => self.set_y(self.a),
            Mnemonic::TXA => self.set_a(self.x),
            Mnemonic::TYA => self.set_a(self.y),
            Mnemonic::TSX => self.set_x(self.sp),
            Mnemonic::TXS => CpuView { sp: self.x, ..self },
            Mnemonic::CLC => self.with_flag(CARRY_FLAG, false),
            Mnemonic::CLD => self.with_flag(DECIMAL_FLAG, false),
            Mnemonic::CLI => self.with_flag(INTERRUPT_FLAG, false),
            Mnemonic::CLV => self.with_flag(OVERFLOW_FLAG, false),
            Mnemonic::SEC => self.with_flag(CARRY_FLAG, true),
            Mnemonic::SED => self.with_flag(DECIMAL_FLAG, true),
            Mnemonic::SEI => self.with_flag(INTERRUPT_FLAG, true),
            _ => self,
        }
    }

    /// Whether the condition of a branch instruction holds.
    pub open spec fn branch_taken(self, m: Mnemonic) -> bool {
        match m {
            Mnemonic::BCC => !self.carry(),
            Mnemonic::BCS => self.carry(),
            Mnemonic::BEQ => self.zero(),
            Mnemonic::BNE => !self.zero(),
            Mnemonic::BMI => self.negative(),
            Mnemonic::BPL => !self.negative(),
            Mnemonic::BVC => !self.overflow(),
            Mnemonic::BVS => self.overflow(),
            _ => false,
        }
    }

    /// Instruction `m` in mode `mode` can be executed: all its memory accesses are
    /// possible, and its address arithmetic stays in range (JSR's return address
    /// PC + 2 - 1 and RTS's pulled address + 1 must not leave 16 bits).
    pub open spec fn execute_ok(self, m: Mnemonic, mode: AddressingMode) -> bool {
        match spec_group(m) {
            InstructionGroup::Load => self.load_ok(mode),
            InstructionGroup::Store => self.store_ok(mode),
            InstructionGroup::Jump => mode.operand_ok(self.pc, self) && (m == Mnemonic::JSR ==> self.pc
                + 2 <= 0xFFFF),
            InstructionGroup::Shift => {
                &&& self.modify_source_ok(mode)
                &&& self.modify_source(mode).0.modify_result_ok(mode)
            },
            InstructionGroup::Step => {
                &&& self.load_ok(mode)
                &&& self.load(mode).0.store_ok(mode)
            },
            InstructionGroup::Branch => self.branch_taken(m) ==> self.load_ok(mode),
            InstructionGroup::Stack => m == Mnemonic::RTS ==> self.pull_u16().1 < 0xFFFF,
            InstructionGroup::Implied | InstructionGroup::Break => true,
        }
    }

    /// The state after instruction `m` (other than BRK) in mode `mode`, its
    /// operand bytes starting at `pc`.
    pub open spec fn execute(self, m: Mnemonic, mode: AddressingMode) -> CpuView {
        match spec_group(m) {
            InstructionGroup::Load => self.execute_load(m, mode),
            InstructionGroup::Store => self.execute_store(m, mode),
            InstructionGroup::Jump => self.execute_jump(m, mode),
            InstructionGroup::Shift => self.execute_shift(m, mode),
            InstructionGroup::Step => self.execute_step(m, mode),
            InstructionGroup::Branch => if self.branch_taken(m) {
                self.branch(mode)
            } else {
                self
            },
            InstructionGroup::Stack => self.execute_stack(m),
            InstructionGroup::Implied | InstructionGroup::Break => self.implied(m),
        }
    }

    #[verifier::opaque]
    pub open spec fn execute_load(self, m: Mnemonic, mode: AddressingMode) -> CpuView {
        match m {
            Mnemonic::LDA => self.lda(mode),
            Mnemonic::LDX => self.ldx(mode),
            Mnemonic::LDY => self.ldy(mode),
            Mnemonic::ADC => self.adc(mode),
            Mnemonic::SBC => self.sbc(mode),
            Mnemonic::AND => self.and(mode),
            Mnemonic::EOR => self.eor(mode),
            Mnemonic::ORA => self.ora(mode),
            Mnemonic::BIT => self.bit(mode),
            Mnemonic::CMP => self.cmp(mode),
            Mnemonic::CPX => self.cpx(mode),
            _ => self.cpy(mode),
        }
    }

    #[verifier::opaque]
    pub open spec fn execute_store(self, m: Mnemonic, mode: AddressingMode) -> CpuView {
        match m {
            Mnemonic::STA => self.sta(mode),
            Mnemonic::STX => self.stx(mode),
            _ => self.sty(mode),
        }
    }

    #[verifier::opaque]
    pub open spec fn execute_jump(self, m: Mnemonic, mode: AddressingMode) -> CpuView {
        match m {
            Mnemonic::JMP => self.jmp(mode),
            _ => self.jsr(mode),
        }
    }

    #[verifier::opaque]
    pub open spec fn execute_shift(self, m: Mnemonic, mode: AddressingMode) -> CpuView {
        match m {
            Mnemonic::ASL => self.asl(mode),
            Mnemonic::LSR => self.lsr(mode),
            Mnemonic::ROL => self.rol(mode),
            _ => self.ror(mode),
        }
    }

    #[verifier::opaque]
    pub open spec fn execute_step(self, m: Mnemonic, mode: AddressingMode) -> CpuView {
        match m {
            Mnemonic::DEC => self.dec(mode),
            _ => self.inc(mode),
        }
    }

    #[verifier::opaque]
    pub open spec fn execute_stack(self, m: Mnemonic) -> CpuView {
        match m {
            Mnemonic::RTI => self.rti(),
            Mnemonic::RTS => self.rts(),
            Mnemonic::PHP => self.php(),
            Mnemonic::PLP => self.plp(),
            Mnemonic::PLA => self.pla(),
            _ => self.pha(),
        }
    }

    /// One fetch-decode-execute step can be taken without a fault: the opcode is
    /// readable and official, PC + 1 fits in 16 bits, the instruction can be
    /// executed, and when it leaves PC where it was, skipping its operand bytes
    /// does not run past $FFFF.
    pub open spec fn step_ok(self) -> bool {
        let (s0, code) = self.read(self.pc);
        &&& self.read_ok(self.pc)
        &&& self.pc < 0xFFFF
        &&& match spec_decode(code) {
            None => false,
            Some((m, mode)) => m == Mnemonic::BRK || {
                let s1 = CpuView { pc: next_address(self.pc), ..s0 };
                &&& s1.execute_ok(m, mode)
                &&& s1.execute(m, mode).pc == s1.pc ==> s1.pc + spec_instruction_len(mode) - 1
                    <= 0xFFFF
            },
        }
    }

    /// One fetch-decode-execute step: the state after it, and whether the CPU
    /// keeps running (false once BRK is executed). When an instruction leaves PC
    /// where its operand bytes start, PC skips them.
    pub open spec fn step(self) -> (CpuView, bool) {
        let (s0, code) = self.read(self.pc);
        let s1 = CpuView { pc: next_address(self.pc), ..s0 };
        match spec_decode(code) {
            Some((m, mode)) => if m == Mnemonic::BRK {
                (s1, false)
            } else {
                let s2 = s1.execute(m, mode);
                (
                    if s2.pc == s1.pc {
                        CpuView {
                            pc: ((s2.pc + spec_instruction_len(mode) - 1) % 0x10000) as u16,
                            ..s2
                        }
                    } else {
                        s2
                    },
                    true,
                )
            },
            None => (s1, false),
        }
    }

    /// The state after `n` steps, and whether the CPU is still running; once BRK
    /// has been executed the state no longer changes.
    pub open spec fn run_steps(self, n: nat) -> (CpuView, bool)
        decreases n,
    {
        if n == 0 {
            (self, true)
        } else {
            let (t, running) = self.run_steps((n - 1) as nat);
            if running {
                t.step()
            } else {
                (t, false)
            }
        }
    }

    /// No step of the run from this state faults.
    pub open spec fn runs_without_fault(self) -> bool {
        forall|n: nat| #[trigger] self.run_steps(n).1 ==> self.run_steps(n).0.step_ok()
    }
}

/// The flags play no part in computing an operand address: the accesses and
/// their outcome are the same whatever the status register holds.
pub proof fn lemma_operand_ignores_flags(s: CpuView, mode: AddressingMode, pc: u16, p: u8)
    ensures
        mode.operand_ok(pc, (CpuView { p, ..s })) == mode.operand_ok(pc, s),
        mode.operand(pc, (CpuView { p, ..s })) == (
            (CpuView { p, ..mode.operand(pc, s).0 }),
            mode.operand(pc, s).1,
        ),
{
    reveal(AddressingMode::operand_ok);
    reveal(AddressingMode::operand);
}

/// Consequence for stores: whether a store is possible does not depend on the
/// flags, and it leaves them alone.
pub proof fn lemma_store_ignores_flags(s: CpuView, mode: AddressingMode, p: u8, v: u8)
    ensures
        (CpuView { p, ..s }).store_ok(mode) == s.store_ok(mode),
        (CpuView { p, ..s }).store(mode, v) == (CpuView { p, ..s.store(mode, v) }),
{
    lemma_operand_ignores_flags(s, mode, s.pc, p);
}

impl CPU {
    pub fn new(bus: Bus) -> (r: CPU)
        ensures
            r@ == (CpuView { a: 0, x: 0, y: 0, p: 0b0010_0100, pc: 0x8000, sp: 0xFD, bus: bus@ }),
    {
        CPU {
            reg_a: 0,
            reg_x: 0,
            reg_y: 0,
            state: 0b0010_0100,
            program_counter: 0x8000,
            stack_ptr: 0xFD,  // The stack lives at $0100-$01FF and grows down
            bus: bus,
        }
    }

    //-- Memory read and write methods
    pub fn mem_read(&mut self, address: u16) -> (r: u8)
        requires
            old(self)@.read_ok(address),
        ensures
            (final(self)@, r) == old(self)@.read(address),
    {
        self.bus.mem_read(address)
    }

    pub fn mem_write(&mut self, address: u16, value: u8)
        requires
            old(self)@.write_ok(address),
        ensures
            final(self)@ == old(self)@.write(address, value),
    {
        self.bus.mem_write(address, value);
    }

    pub fn mem_read_u16(&mut self, address: u16) -> (r: u16)
        requires
            old(self)@.read_u16_ok(address),
        ensures
            (final(self)@, r) == old(self)@.read_u16(address),
    {
        self.bus.mem_read_u16(address)
    }

    pub fn mem_write_u16(&mut self, address: u16, value: u16)
        requires
            old(self)@.write_ok(address),
            old(self)@.write(address, (value % 256) as u8).write_ok(next_address(address)),
        ensures
            final(self)@ == old(self)@.write(address, (value % 256) as u8).write(
                next_address(address),
                (value / 256) as u8,
            ),
    {
        self.bus.mem_write_u16(address, value);
    }

    //-- Core CPU methods

    /// Clears A, X, the flags (bit 5 stays set) and the stack pointer, and loads
    /// PC from the reset vector at $FFFC.
    pub fn reset(&mut self)
        requires
            old(self)@.read_u16_ok(0xFFFC),
        ensures
            ({
                let s = CpuView { a: 0, x: 0, p: 0b0010_0100, sp: 0xFD, ..old(self)@ };
                final(self)@ == (CpuView { pc: s.read_u16(0xFFFC).1, ..s.read_u16(0xFFFC).0 })
            }),
    {
        self.reg_a = 0;
        self.reg_x = 0;
        self.state = 0b0010_0100;  // bit 5 always set
        self.stack_ptr = 0xFD;
        self.program_counter = self.mem_read_u16(0xFFFC);
    }

    /// Executes one instruction: fetches the opcode at PC, decodes it and runs it.
    /// Returns false once BRK is executed.
    pub fn step(&mut self) -> (running: bool)
        requires
            old(self)@.step_ok(),
        ensures
            (final(self)@, running) == old(self)@.step(),
    {
        let curr_instruction: u8 = self.mem_read(self.program_counter);
        self.program_counter = self.program_counter + 1;
        let initial_program_counter: u16 = self.program_counter;

        let opcode = match decode(curr_instruction) {
            Some(op) => op,
            None => {
                return false;
            },
        };
        let mode: AddressingMode = *opcode.get_mode();
        let instruction: Mnemonic = opcode.get_instruction();
        if let Mnemonic::BRK = instruction {
            return false;
        }
        self.execute(instruction, &mode);

        // An instruction that did not move PC leaves it on its operand bytes: skip them
        if initial_program_counter == self.program_counter {
            self.program_counter = self.program_counter + (opcode.get_num_bytes() - 1) as u16;
        }
        true
    }

    /// Runs instructions from PC until BRK is executed (giving up after
    /// `u64::MAX` instructions).
    pub fn run(&mut self)
        requires
            old(self)@.runs_without_fault(),
        ensures
            exists|n: nat|
                n <= u64::MAX && #[trigger] old(self)@.run_steps(n).0 == final(self)@ && (!old(
                    self,
                )@.run_steps(n).1 || n == u64::MAX),
    {
        let ghost start = self@;
        let mut count: u64 = 0;
        let mut running = true;
        while running && count < u64::MAX
            invariant
                start.runs_without_fault(),
                start.run_steps(count as nat) == (self@, running),
            decreases u64::MAX - count,
        {
            proof {
                assert(start.run_steps(count as nat).1 ==> start.run_steps(count as nat).0.step_ok());
            }
            running = self.step();
            count = count + 1;
        }
        assert(start.run_steps(count as nat).0 == self@);
    }

    pub(crate) fn execute(&mut self, instruction: Mnemonic, mode: &AddressingMode)
        requires
            old(self)@.execute_ok(instruction, *mode),
            instruction != Mnemonic::BRK,
        ensures
            final(self)@ == old(self)@.execute(instruction, *mode),
    {
        match group(instruction) {
            InstructionGroup::Load => self.execute_load(instruction, mode),
            InstructionGroup::Store => self.execute_store(instruction, mode),
            InstructionGroup::Jump => self.execute_jump(instruction, mode),
            InstructionGroup::Shift => self.execute_shift(instruction, mode),
            InstructionGroup::Step => self.execute_step(instruction, mode),
            InstructionGroup::Branch => self.execute_branch(instruction, mode),
            InstructionGroup::Stack => self.execute_stack(instruction),
            _ => self.execute_implied(instruction),
        }
    }

    fn execute_load(&mut self, instruction: Mnemonic, mode: &AddressingMode)
        requires
            spec_group(instruction) == InstructionGroup::Load,
            old(self)@.load_ok(*mode),
        ensures
            final(self)@ == old(self)@.execute_load(instruction, *mode),
    {
        proof {
            reveal(CpuView::execute_load);
        }
        match instruction {
            Mnemonic::LDA => self.lda(mode),
            Mnemonic::LDX => self.ldx(mode),
            Mnemonic::LDY => self.ldy(mode),
            Mnemonic::ADC => self.adc(mode),
            Mnemonic::SBC => self.sbc(mode),
            Mnemonic::AND => self.and(mode),
            Mnemonic::EOR => self.eor(mode),
            Mnemonic::ORA => self.ora(mode),
            Mnemonic::BIT => self.bit(mode),
            Mnemonic::CMP => self.cmp(mode),
            Mnemonic::CPX => self.cpx(mode),
            _ => self.cpy(mode),
        }
    }

    fn execute_store(&mut self, instruction: Mnemonic, mode: &AddressingMode)
        requires
            spec_group(instruction) == InstructionGroup::Store,
            old(self)@.store_ok(*mode),
        ensures
            final(self)@ == old(self)@.execute_store(instruction, *mode),
    {
        proof {
            reveal(CpuView::execute_store);
        }
        match instruction {
            Mnemonic::STA => self.sta(mode),
            Mnemonic::STX => self.stx(mode),
            _ => self.sty(mode),
        }
    }

    fn execute_jump(&mut self, instruction: Mnemonic, mode: &AddressingMode)
        requires
            spec_group(instruction) == InstructionGroup::Jump,
            mode.operand_ok(old(self)@.pc, old(self)@),
            instruction == Mnemonic::JSR ==> old(self)@.pc + 2 <= 0xFFFF,
        ensures
            final(self)@ == old(self)@.execute_jump(instruction, *mode),
    {
        proof {
            reveal(CpuView::execute_jump);
        }
        match instruction {
            Mnemonic::JMP => self.jmp(mode),
            _ => self.jsr(mode),
        }
    }

    fn execute_shift(&mut self, instruction: Mnemonic, mode: &AddressingMode)
        requires
            spec_group(instruction) == InstructionGroup::Shift,
            old(self)@.modify_source_ok(*mode),
            old(self)@.modify_source(*mode).0.modify_result_ok(*mode),
        ensures
            final(self)@ == old(self)@.execute_shift(instruction, *mode),
    {
        proof {
            reveal(CpuView::execute_shift);
        }
        match instruction {
            Mnemonic::ASL => self.asl(mode),
            Mnemonic::LSR => self.lsr(mode),
            Mnemonic::ROL => self.rol(mode),
            _ => self.ror(mode),
        }
    }

    fn execute_step(&mut self, instruction: Mnemonic, mode: &AddressingMode)
        requires
            spec_group(instruction) == InstructionGroup::Step,
            old(self)@.load_ok(*mode),
            old(self)@.load(*mode).0.store_ok(*mode),
        ensures
            final(self)@ == old(self)@.execute_step(instruction, *mode),
    {
        proof {
            reveal(CpuView::execute_step);
        }
        match instruction {
            Mnemonic::DEC => self.dec(mode),
            _ => self.inc(mode),
        }
    }

    fn execute_branch(&mut self, instruction: Mnemonic, mode: &AddressingMode)
        requires
            spec_group(instruction) == InstructionGroup::Branch,
            old(self)@.branch_taken(instruction) ==> old(self)@.load_ok(*mode),
        ensures
            final(self)@ == (if old(self)@.branch_taken(instruction) {
                old(self)@.branch(*mode)
            } else {
                old(self)@
            }),
    {
        match instruction {
            Mnemonic::BCS => self.bcs(mode),
            Mnemonic::BCC => self.bcc(mode),
            Mnemonic::BEQ => self.beq(mode),
            Mnemonic::BMI => self.bmi(mode),
            Mnemonic::BNE => self.bne(mode),
            Mnemonic::BPL => self.bpl(mode),
            Mnemonic::BVC => self.bvc(mode),
            _ => self.bvs(mode),
        }
    }

    fn execute_stack(&mut self, instruction: Mnemonic)
        requires
            spec_group(instruction) == InstructionGroup::Stack,
            instruction == Mnemonic::RTS ==> old(self)@.pull_u16().1 < 0xFFFF,
        ensures
            final(self)@ == old(self)@.execute_stack(instruction),
    {
        proof {
            reveal(CpuView::execute_stack);
        }
        match instruction {
            Mnemonic::RTI => self.rti(),
            Mnemonic::RTS => self.rts(),
            Mnemonic::PHP => self.php(),
            Mnemonic::PLP => self.plp(),
            Mnemonic::PLA => self.pla(),
            _ => self.pha(),
        }
    }

    fn execute_implied(&mut self, instruction: Mnemonic)
        requires
            spec_group(instruction) == InstructionGroup::Implied,
        ensures
            final(self)@ == old(self)@.implied(instruction),
    {
        match instruction {
            Mnemonic::DEX => self.dex(),
            Mnemonic::DEY => self.dey(),
            Mnemonic::TAX => self.tax(),
            Mnemonic::TAY => self.tay(),
            Mnemonic::INX => self.inx(),
            Mnemonic::INY => self.iny(),
            Mnemonic::CLC => self.clc(),
            Mnemonic::CLD => self.cld(),
            Mnemonic::CLI => self.cli(),
            Mnemonic::CLV => self.clv(),
            Mnemonic::SEC => self.sec(),
            Mnemonic::SED => self.sed(),
            Mnemonic::SEI => self.sei(),
            Mnemonic::TSX => self.tsx(),
            Mnemonic::TXA => self.txa(),
            Mnemonic::TXS => self.txs(),
            Mnemonic::TYA => self.tya(),
            _ => self.nop(),
        }
    }

    //-- Operand access

    fn read_operand(&mut self, mode: &AddressingMode) -> (r: u8)
        requires
            old(self)@.load_ok(*mode),
        ensures
            (final(self)@, r) == old(self)@.load(*mode),
    {
        let addr: u16 = mode.get_operand_address(self);
        self.mem_read(addr)
    }

    fn write_operand(&mut self, mode: &AddressingMode, value: u8)
        requires
            old(self)@.store_ok(*mode),
        ensures
            final(self)@ == old(self)@.store(*mode, value),
    {
        let addr: u16 = mode.get_operand_address(self);
        self.mem_write(addr, value);
    }

    /// The value that a shift or rotate works on: A, or memory.
    fn read_modify_operand(&mut self, mode: &AddressingMode) -> (r: u8)
        requires
            old(self)@.modify_source_ok(*mode),
        ensures
            (final(self)@, r) == old(self)@.modify_source(*mode),
    {
        match mode {
            AddressingMode::NoneAddressing | AddressingMode::Accumulator => self.reg_a,
            _ => self.read_operand(mode),
        }
    }

    fn write_modify_operand(&mut self, mode: &AddressingMode, value: u8)
        requires
            old(self)@.modify_result_ok(*mode),
        ensures
            final(self)@ == old(self)@.modify_result(*mode, value),
    {
        if let AddressingMode::NoneAddressing | AddressingMode::Accumulator = mode {
            self.reg_a = value;
        } else {
            self.write_operand(mode, value);
        }
    }

    //-- CPU Instructions
    // Reference: https://www.nesdev.org/obelisk-6502-guide/reference.html

    fn tax(&mut self)
        ensures
            final(self)@ == old(self)@.implied(Mnemonic::TAX),
    {
        self.reg_x = self.reg_a;
        self.set_zero_and_negative_flag(self.reg_x);
    }

    fn tay(&mut self)
        ensures
            final(self)@ == old(self)@.implied(Mnemonic::TAY),
    {
        self.reg_y = self.reg_a;
        self.set_zero_and_negative_flag(self.reg_y);
    }

    fn lda(&mut self, mode: &AddressingMode)
        requires
            old(self)@.load_ok(*mode),
        ensures
            final(self)@ == old(self)@.lda(*mode),
    {
        proof {
            reveal(CpuView::lda);
        }
        let param = self.read_operand(mode);
        self.reg_a = param;
        self.set_zero_and_negative_flag(self.reg_a);
    }

    fn sta(&mut self, mode: &AddressingMode)
        requires
            old(self)@.store_ok(*mode),
        ensures
            final(self)@ == old(self)@.sta(*mode),
    {
        proof {
            reveal(CpuView::sta);
            reveal(AddressingMode::operand);
        }
        let addr: u16 = mode.get_operand_address(self);
        self.mem_write(addr, self.reg_a);
    }

    fn stx(&mut self, mode: &AddressingMode)
        requires
            old(self)@.store_ok(*mode),
        ensures
            final(self)@ == old(self)@.stx(*mode),
    {
        proof {
            reveal(CpuView::stx);
            reveal(AddressingMode::operand);
        }
        let addr: u16 = mode.get_operand_address(self);
        self.mem_write(addr, self.reg_x);
    }

    fn sty(&mut self, mode: &AddressingMode)
        requires
            old(self)@.store_ok(*mode),
        ensures
            final(self)@ == old(self)@.sty(*mode),
    {
        proof {
            reveal(CpuView::sty);
            reveal(AddressingMode::operand);
        }
        let addr: u16 = mode.get_operand_address(self);
        self.mem_write(addr, self.reg_y);
    }

    fn ldx(&mut self, mode: &AddressingMode)
        requires
            old(self)@.load_ok(*mode),
        ensures
            final(self)@ == old(self)@.ldx(*mode),
    {
        proof {
            reveal(CpuView::ldx);
        }
        let param = self.read_operand(mode);
        self.reg_x = param;
        self.set_zero_and_negative_flag(self.reg_x);
    }

    fn ldy(&mut self, mode: &AddressingMode)
        requires
            old(self)@.load_ok(*mode),
        ensures
            final(self)@ == old(self)@.ldy(*mode),
    {
        proof {
            reveal(CpuView::ldy);
        }
        let param = self.read_operand(mode);
        self.reg_y = param;
        self.set_zero_and_negative_flag(self.reg_y);
    }

    fn adc(&mut self, mode: &AddressingMode)
        requires
            old(self)@.load_ok(*mode),
        ensures
            final(self)@ == old(self)@.adc(*mode),
    {
        proof {
            reveal(CpuView::adc);
        }
        let param: u8 = self.read_operand(mode);
        let a = self.reg_a;
        let mut sum_as_u16: u16 = self.reg_a as u16 + param as u16;
        if self.is_carry_flag_set() {
            sum_as_u16 += 1;
        }
        // The low 8 bits of the sum
        let sum_as_u8: u8 = sum_as_u16 as u8;
        proof {
            lemma_u16_bits(sum_as_u16);
            lemma_adc_overflow(a, param, sum_as_u16 - a - param, sum_as_u8);
        }
        self.set_carry_flag(sum_as_u16 > 0b1111_1111);
        self.set_overflow_flag(((param ^ sum_as_u8) & (self.reg_a ^ sum_as_u8) & 0x80) != 0);
        self.set_zero_and_negative_flag(sum_as_u8);
        self.reg_a = sum_as_u8;
    }

    fn sbc(&mut self, mode: &AddressingMode)
        requires
            old(self)@.load_ok(*mode),
        ensures
            final(self)@ == old(self)@.sbc(*mode),
    {
        proof {
            reveal(CpuView::sbc);
        }
        let param: u8 = self.read_operand(mode);
        let a = self.reg_a;
        let negative_param: u8 = (!param).wrapping_add(1);  // 2's complement
        proof {
            lemma_u8_bits(param);
        }
        let mut sum_as_u16: u16 = self.reg_a as u16 + negative_param as u16;
        if !self.is_carry_flag_set() {
            sum_as_u16 = sum_as_u16.wrapping_sub(1);
        }
        let sum_as_u8: u8 = sum_as_u16 as u8;  // the low 8 bits
        proof {
            lemma_u16_bits(sum_as_u16);
        }
        // No borrow when A >= M + (1 - C), compared without leaving a byte
        let carry_flag: bool = self.reg_a as u16 >= param as u16 + if self.is_carry_flag_set() {
            0
        } else {
            1
        };
        proof {
            lemma_sbc_overflow(a, param, if self@.carry() { 0 } else { 1 }, sum_as_u8);
        }
        self.set_carry_flag(carry_flag);
        self.set_overflow_flag(((self.reg_a ^ param) & (self.reg_a ^ sum_as_u8) & 0x80) != 0);
        self.set_zero_and_negative_flag(sum_as_u8);
        self.reg_a = sum_as_u8;
    }

    fn and(&mut self, mode: &AddressingMode)
        requires
            old(self)@.load_ok(*mode),
        ensures
            final(self)@ == old(self)@.and(*mode),
    {
        proof {
            reveal(CpuView::and);
        }
        let param: u8 = self.read_operand(mode);
        self.reg_a = self.reg_a & param;
        self.set_zero_and_negative_flag(self.reg_a);
    }

    fn asl(&mut self, mode: &AddressingMode)
        requires
            old(self)@.modify_source_ok(*mode),
            old(self)@.modify_source(*mode).0.modify_result_ok(*mode),
        ensures
            final(self)@ == old(self)@.asl(*mode),
    {
        proof {
            reveal(CpuView::asl);
        }
        let param: u8 = self.read_modify_operand(mode);
        let ghost s1 = self@;
        let new_val: u8 = param << 1;
        proof {
            lemma_u8_bits(param);
            lemma_u8_bits(new_val);
        }
        self.set_carry_flag((param & 0b1000_0000) != 0);
        self.set_negative_flag((new_val & 0b1000_0000) != 0);
        self.set_zero_and_negative_flag(new_val);
        proof {
            lemma_store_ignores_flags(s1, *mode, self.state, new_val);
            assert(self@ == (CpuView { p: self.state, ..s1 }));
        }
        self.write_modify_operand(mode, new_val);
    }

    fn lsr(&mut self, mode: &AddressingMode)
        requires
            old(self)@.modify_source_ok(*mode),
            old(self)@.modify_source(*mode).0.modify_result_ok(*mode),
        ensures
            final(self)@ == old(self)@.lsr(*mode),
    {
        proof {
            reveal(CpuView::lsr);
        }
        let param: u8 = self.read_modify_operand(mode);
        let ghost s1 = self@;
        let new_val: u8 = param >> 1;
        proof {
            lemma_u8_bits(param);
        }
        self.set_carry_flag((param & 0b0000_0001) != 0);
        self.set_zero_and_negative_flag(new_val);
        proof {
            lemma_store_ignores_flags(s1, *mode, self.state, new_val);
            assert(self@ == (CpuView { p: self.state, ..s1 }));
        }
        self.write_modify_operand(mode, new_val);
    }

    fn bcc(&mut self, mode: &AddressingMode)
        requires
            old(self)@.branch_taken(Mnemonic::BCC) ==> old(self)@.load_ok(*mode),
        ensures
            final(self)@ == (if old(self)@.branch_taken(Mnemonic::BCC) {
                old(self)@.branch(*mode)
            } else {
                old(self)@
            }),
    {
        if !self.is_carry_flag_set() {
            self.branch(mode);
        }
    }

    fn bcs(&mut self, mode: &AddressingMode)
        requires
            old(self)@.branch_taken(Mnemonic::BCS) ==> old(self)@.load_ok(*mode),
        ensures
            final(self)@ == (if old(self)@.branch_taken(Mnemonic::BCS) {
                old(self)@.branch(*mode)
            } else {
                old(self)@
            }),
    {
        if self.is_carry_flag_set() {
            self.branch(mode);
        }
    }

    fn beq(&mut self, mode: &AddressingMode)
        requires
            old(self)@.branch_taken(Mnemonic::BEQ) ==> old(self)@.load_ok(*mode),
        ensures
            final(self)@ == (if old(self)@.branch_taken(Mnemonic::BEQ) {
                old(self)@.branch(*mode)
            } else {
                old(self)@
            }),
    {
        if self.is_zero_flag_set() {
            self.branch(mode);
        }
    }

    fn bne(&mut self, mode: &AddressingMode)
        requires
            old(self)@.branch_taken(Mnemonic::BNE) ==> old(self)@.load_ok(*mode),
        ensures
            final(self)@ == (if old(self)@.branch_taken(Mnemonic::BNE) {
                old(self)@.branch(*mode)
            } else {
                old(self)@
            }),
    {
        if !self.is_zero_flag_set() {
            self.branch(mode);
        }
    }

    fn bmi(&mut self, mode: &AddressingMode)
        requires
            old(self)@.branch_taken(Mnemonic::BMI) ==> old(self)@.load_ok(*mode),
        ensures
            final(self)@ == (if old(self)@.branch_taken(Mnemonic::BMI) {
                old(self)@.branch(*mode)
            } else {
                old(self)@
            }),
    {
        if self.is_negative_flag_set() {
            self.branch(mode);
        }
    }

    fn bpl(&mut self, mode: &AddressingMode)
        requires
            old(self)@.branch_taken(Mnemonic::BPL) ==> old(self)@.load_ok(*mode),
        ensures
            final(self)@ == (if old(self)@.branch_taken(Mnemonic::BPL) {
                old(self)@.branch(*mode)
            } else {
                old(self)@
            }),
    {
        if !self.is_negative_flag_set() {
            self.branch(mode);
        }
    }

    fn bvc(&mut self, mode: &AddressingMode)
        requires
            old(self)@.branch_taken(Mnemonic::BVC) ==> old(self)@.load_ok(*mode),
        ensures
            final(self)@ == (if old(self)@.branch_taken(Mnemonic::BVC) {
                old(self)@.branch(*mode)
            } else {
                old(self)@
            }),
    {
        if !self.is_overflow_flag_set() {
            self.branch(mode);
        }
    }

    fn bvs(&mut self, mode: &AddressingMode)
        requires
            old(self)@.branch_taken(Mnemonic::BVS) ==> old(self)@.load_ok(*mode),
        ensures
            final(self)@ == (if old(self)@.branch_taken(Mnemonic::BVS) {
                old(self)@.branch(*mode)
            } else {
                old(self)@
            }),
    {
        if self.is_overflow_flag_set() {
            self.branch(mode);
        }
    }

    fn bit(&mut self, mode: &AddressingMode)
        requires
            old(self)@.load_ok(*mode),
        ensures
            final(self)@ == old(self)@.bit(*mode),
    {
        proof {
            reveal(CpuView::bit);
        }
        let param: u8 = self.read_operand(mode);
        let result = self.reg_a & param;
        // Z: set if A AND M is zero; V: bit 6 of M; N: bit 7 of M
        let v = Self::check_bit_set(param, 6);
        let n = Self::check_bit_set(param, 7);
        proof {
            lemma_u8_bits(param);
        }
        self.set_zero_flag(result == 0);
        self.set_overflow_flag(v);
        self.set_negative_flag(n);
    }

    fn cmp(&mut self, mode: &AddressingMode)
        requires
            old(self)@.load_ok(*mode),
        ensures
            final(self)@ == old(self)@.cmp(*mode),
    {
        proof {
            reveal(CpuView::cmp);
        }
        let param: u8 = self.read_operand(mode);
        self.compare(self.reg_a, param);
    }

    fn cpx(&mut self, mode: &AddressingMode)
        requires
            old(self)@.load_ok(*mode),
        ensures
            final(self)@ == old(self)@.cpx(*mode),
    {
        proof {
            reveal(CpuView::cpx);
        }
        let param: u8 = self.read_operand(mode);
        self.compare(self.reg_x, param);
    }

    fn cpy(&mut self, mode: &AddressingMode)
        requires
            old(self)@.load_ok(*mode),
        ensures
            final(self)@ == old(self)@.cpy(*mode),
    {
        proof {
            reveal(CpuView::cpy);
        }
        let param: u8 = self.read_operand(mode);
        self.compare(self.reg_y, param);
    }

    fn dec(&mut self, mode: &AddressingMode)
        requires
            old(self)@.load_ok(*mode),
            old(self)@.load(*mode).0.store_ok(*mode),
        ensures
            final(self)@ == old(self)@.dec(*mode),
    {
        proof {
            reveal(CpuView::dec);
        }
        let mut param: u8 = self.read_operand(mode);
        let ghost s1 = self@;
        param = param.wrapping_sub(1);
        self.set_zero_and_negative_flag(param);
        proof {
            lemma_store_ignores_flags(s1, *mode, self.state, param);
            assert(self@ == (CpuView { p: self.state, ..s1 }));
        }
        self.write_operand(mode, param);
    }

    fn eor(&mut self, mode: &AddressingMode)
        requires
            old(self)@.load_ok(*mode),
        ensures
            final(self)@ == old(self)@.eor(*mode),
    {
        proof {
            reveal(CpuView::eor);
        }
        let param: u8 = self.read_operand(mode);
        self.reg_a = self.reg_a ^ param;
        self.set_zero_and_negative_flag(self.reg_a);
    }

    fn ora(&mut self, mode: &AddressingMode)
        requires
            old(self)@.load_ok(*mode),
        ensures
            final(self)@ == old(self)@.ora(*mode),
    {
        proof {
            reveal(CpuView::ora);
        }
        let param: u8 = self.read_operand(mode);
        self.reg_a = self.reg_a | param;
        self.set_zero_and_negative_flag(self.reg_a);
    }

    fn inc(&mut self, mode: &AddressingMode)
        requires
            old(self)@.load_ok(*mode),
            old(self)@.load(*mode).0.store_ok(*mode),
        ensures
            final(self)@ == old(self)@.inc(*mode),
    {
        proof {
            reveal(CpuView::inc);
        }
        let mut param: u8 = self.read_operand(mode);
        let ghost s1 = self@;
        param = param.wrapping_add(1);
        self.set_zero_and_negative_flag(param);
        proof {
            lemma_store_ignores_flags(s1, *mode, self.state, param);
            assert(self@ == (CpuView { p: self.state, ..s1 }));
        }
        self.write_operand(mode, param);
    }

    fn jmp(&mut self, mode: &AddressingMode)
        requires
            mode.operand_ok(old(self)@.pc, old(self)@),
        ensures
            final(self)@ == old(self)@.jmp(*mode),
    {
        proof {
            reveal(CpuView::jmp);
        }
        let param: u16 = mode.get_operand_address(self);
        self.program_counter = param;
    }

    fn jsr(&mut self, mode: &AddressingMode)
        requires
            mode.operand_ok(old(self)@.pc, old(self)@),
            old(self)@.pc + 2 <= 0xFFFF,
        ensures
            final(self)@ == old(self)@.jsr(*mode),
    {
        proof {
            reveal(CpuView::jsr);
            lemma_operand_keeps_registers(*mode, self@.pc, self@);
        }
        let param: u16 = mode.get_operand_address(self);
        // JSR pushes the address of the last byte of the instruction (the return
        // point minus one): PC + 2 - 1, with PC on the operand bytes
        self.push_to_stack_u16(self.program_counter + 2 - 1);
        self.program_counter = param;
    }

    fn rol(&mut self, mode: &AddressingMode)
        requires
            old(self)@.modify_source_ok(*mode),
            old(self)@.modify_source(*mode).0.modify_result_ok(*mode),
        ensures
            final(self)@ == old(self)@.rol(*mode),
    {
        proof {
            reveal(CpuView::rol);
        }
        let param: u8 = self.read_modify_operand(mode);
        let ghost s1 = self@;
        let mut new_val: u8 = param << 1;
        proof {
            lemma_u8_bits(param);
        }
        if self.is_carry_flag_set() {
            new_val = new_val | 0b_0000_0001;
        }
        self.set_carry_flag((param & 0b1000_0000) != 0);
        self.set_zero_and_negative_flag(new_val);
        proof {
            lemma_store_ignores_flags(s1, *mode, self.state, new_val);
            assert(self@ == (CpuView { p: self.state, ..s1 }));
        }
        self.write_modify_operand(mode, new_val);
    }

    fn ror(&mut self, mode: &AddressingMode)
        requires
            old(self)@.modify_source_ok(*mode),
            old(self)@.modify_source(*mode).0.modify_result_ok(*mode),
        ensures
            final(self)@ == old(self)@.ror(*mode),
    {
        proof {
            reveal(CpuView::ror);
        }
        let param: u8 = self.read_modify_operand(mode);
        let ghost s1 = self@;
        let mut new_val: u8 = param >> 1;
        proof {
            lemma_u8_bits(param);
        }
        if self.is_carry_flag_set() {
            new_val = new_val | 0b_1000_0000;
        }
        self.set_carry_flag((param & 0b0000_0001) != 0);
        self.set_zero_and_negative_flag(new_val);
        proof {
            lemma_store_ignores_flags(s1, *mode, self.state, new_val);
            assert(self@ == (CpuView { p: self.state, ..s1 }));
        }
        self.write_modify_operand(mode, new_val);
    }

    fn tsx(&mut self)
        ensures
            final(self)@ == old(self)@.implied(Mnemonic::TSX),
    {
        self.reg_x = self.stack_ptr;
        self.set_zero_and_negative_flag(self.reg_x);
    }

    fn txs(&mut self)
        ensures
            final(self)@ == old(self)@.implied(Mnemonic::TXS),
    {
        self.stack_ptr = self.reg_x;
    }

    fn txa(&mut self)
        ensures
            final(self)@ == old(self)@.implied(Mnemonic::TXA),
    {
        self.reg_a = self.reg_x;
        self.set_zero_and_negative_flag(self.reg_a);
    }

    fn tya(&mut self)
        ensures
            final(self)@ == old(self)@.implied(Mnemonic::TYA),
    {
        self.reg_a = self.reg_y;
        self.set_zero_and_negative_flag(self.reg_a);
    }

    fn rti(&mut self)
        ensures
            final(self)@ == old(self)@.rti(),
    {
        proof {
            reveal(CpuView::rti);
        }
        self.plp();
        self.program_counter = self.pull_from_stack_u16();
    }

    fn rts(&mut self)
        requires
            old(self)@.pull_u16().1 < 0xFFFF,
        ensures
            final(self)@ == old(self)@.rts(),
    {
        proof {
            reveal(CpuView::rts);
        }
        // Adds back the one that JSR took off
        self.program_counter = self.pull_from_stack_u16() + 1;
    }

    fn php(&mut self)
        ensures
            final(self)@ == old(self)@.php(),
    {
        proof {
            reveal(CpuView::php);
        }
        // PHP (like BRK) pushes the flags with the B flag (bit 4) and bit 5 set
        let processor_flags: u8 = self.state | 0b0011_0000;
        self.push_to_stack_u8(processor_flags);
    }

    fn plp(&mut self)
        ensures
            final(self)@ == old(self)@.plp(),
    {
        self.state = self.pull_from_stack_u8();
        self.set_break_flag(false);
        self.set_bit_5_flag(true);
    }

    fn pla(&mut self)
        ensures
            final(self)@ == old(self)@.pla(),
    {
        proof {
            reveal(CpuView::pla);
        }
        self.reg_a = self.pull_from_stack_u8();
        self.set_zero_and_negative_flag(self.reg_a);
    }

    fn pha(&mut self)
        ensures
            final(self)@ == old(self)@.pha(),
    {
        proof {
            reveal(CpuView::pha);
        }
        self.push_to_stack_u8(self.reg_a);
    }

    fn inx(&mut self)
        ensures
            final(self)@ == old(self)@.implied(Mnemonic::INX),
    {
        self.reg_x = self.reg_x.wrapping_add(1);
        self.set_zero_and_negative_flag(self.reg_x);
    }

    fn iny(&mut self)
        ensures
            final(self)@ == old(self)@.implied(Mnemonic::INY),
    {
        self.reg_y = self.reg_y.wrapping_add(1);
        self.set_zero_and_negative_flag(self.reg_y);
    }

    fn dex(&mut self)
        ensures
            final(self)@ == old(self)@.implied(Mnemonic::DEX),
    {
        let result: u8 = self.reg_x.wrapping_sub(1);
        self.set_zero_and_negative_flag(result);
        self.reg_x = result;
    }

    fn dey(&mut self)
        ensures
            final(self)@ == old(self)@.implied(Mnemonic::DEY),
    {
        let result: u8 = self.reg_y.wrapping_sub(1);
        self.set_zero_and_negative_flag(result);
        self.reg_y = result;
    }

    fn clc(&mut self)
        ensures
            final(self)@ == old(self)@.implied(Mnemonic::CLC),
    {
        self.set_carry_flag(false);
    }

    fn cld(&mut self)
        ensures
            final(self)@ == old(self)@.implied(Mnemonic::CLD),
    {
        self.set_decimal_flag(false);
    }

    fn cli(&mut self)
        ensures
            final(self)@ == old(self)@.implied(Mnemonic::CLI),
    {
        self.set_interrupt_flag(false);
    }

    fn clv(&mut self)
        ensures
            final(self)@ == old(self)@.implied(Mnemonic::CLV),
    {
        self.set_overflow_flag(false);
    }

    fn sec(&mut self)
        ensures
            final(self)@ == old(self)@.implied(Mnemonic::SEC),
    {
        self.set_carry_flag(true);
    }

    fn sed(&mut self)
        ensures
            final(self)@ == old(self)@.implied(Mnemonic::SED),
    {
        self.set_decimal_flag(true);
    }

    fn sei(&mut self)
        ensures
            final(self)@ == old(self)@.implied(Mnemonic::SEI),
    {
        self.set_interrupt_flag(true);
    }

    fn nop(&self) {
    }

    //-- Helper methods

    fn push_to_stack_u16(&mut self, value: u16)
        ensures
            final(self)@ == old(self)@.push_u16(value),
    {
        let value_low: u8 = (value & 0x00FF) as u8;
        let value_high: u8 = ((value & 0xFF00) >> 8) as u8;
        proof {
            lemma_u16_bits(value);
        }
        // The high byte is pushed first, then the low byte
        self.push_to_stack_u8(value_high);
        self.push_to_stack_u8(value_low);
    }

    fn push_to_stack_u8(&mut self, value: u8)
        ensures
            final(self)@ == old(self)@.push(value),
    {
        // The stack lives at $0100-$01FF; SP points at the next free byte
        let sp = self.stack_ptr;
        let addr: u16 = (0x0100 as u16) | (self.stack_ptr as u16);
        proof {
            lemma_u8_bits(sp);
            crate::bus::lemma_ram_access(self@.bus, addr, value);
        }
        self.mem_write(addr, value);
        self.stack_ptr = self.stack_ptr.wrapping_sub(1);
    }

    fn pull_from_stack_u8(&mut self) -> (r: u8)
        ensures
            (final(self)@, r) == old(self)@.pull(),
    {
        let sp = self.stack_ptr.wrapping_add(1);
        let addr: u16 = (0x0100 as u16) | (self.stack_ptr.wrapping_add(1) as u16);
        proof {
            lemma_u8_bits(sp);
            crate::bus::lemma_ram_access(self@.bus, addr, 0);
        }
        let value: u8 = self.mem_read(addr);
        self.stack_ptr = self.stack_ptr.wrapping_add(1);
        value
    }

    pub(crate) fn pull_from_stack_u16(&mut self) -> (r: u16)
        ensures
            (final(self)@, r) == old(self)@.pull_u16(),
    {
        let lo = self.pull_from_stack_u8();
        let value_low: u16 = lo as u16;
        let hi = self.pull_from_stack_u8();
        let value_high: u16 = (hi as u16) << 8;
        proof {
            lemma_join_bytes(hi, lo);
        }
        value_high | value_low
    }

    fn compare(&mut self, a: u8, b: u8)
        ensures
            final(self)@ == old(self)@.compare(a, b),
    {
        self.set_carry_flag(a >= b);
        let result: u8 = a.wrapping_sub(b);  // Z, C, N = A - B
        self.set_zero_and_negative_flag(result);
    }

    /// Whether bit `bit_to_check` (bit 7 most significant, bit 0 least) of `param` is set.
    fn check_bit_set(param: u8, bit_to_check: u8) -> (r: bool)
        requires
            bit_to_check < 8,
        ensures
            r == ((param >> bit_to_check) & 1 == 1),
    {
        proof {
            lemma_bit_test(param, bit_to_check);
        }
        (param & (1 << bit_to_check)) != 0
    }

    fn branch(&mut self, mode: &AddressingMode)
        requires
            old(self)@.load_ok(*mode),
        ensures
            final(self)@ == old(self)@.branch(*mode),
    {
        proof {
            reveal(CpuView::branch);
        }
        let m: u8 = self.read_operand(mode);
        let param: i8 = m as i8;
        let pc = self.program_counter;
        proof {
            lemma_u8_bits(m);
        }
        // Skip the offset byte, then jump by it
        self.program_counter = self.program_counter.wrapping_add(1).wrapping_add(param as u16);
    }

    /// Sets the zero flag from `value == 0` and the negative flag from its bit 7.
    fn set_zero_and_negative_flag(&mut self, value: u8)
        ensures
            final(self)@ == old(self)@.with_zn(value),
    {
        self.set_zero_flag(value == 0);
        self.set_negative_flag(Self::is_register_negative(value));
    }

    fn set_zero_flag(&mut self, is_zero: bool)
        ensures
            final(self)@ == old(self)@.with_flag(ZERO_FLAG, is_zero),
    {
        if is_zero {
            self.state |= 0b0000_0010;
        } else {
            self.state &= !0b0000_0010;
        }
    }

    fn set_negative_flag(&mut self, is_negative: bool)
        ensures
            final(self)@ == old(self)@.with_flag(NEGATIVE_FLAG, is_negative),
    {
        if is_negative {
            self.state |= 0b1000_0000;
        } else {
            self.state &= !0b1000_0000;
        }
    }

    fn set_carry_flag(&mut self, carry: bool)
        ensures
            final(self)@ == old(self)@.with_flag(CARRY_FLAG, carry),
    {
        if carry {
            self.state |= 0b0000_0001;
        } else {
            self.state &= !0b0000_0001;
        }
    }

    fn set_overflow_flag(&mut self, overflow: bool)
        ensures
            final(self)@ == old(self)@.with_flag(OVERFLOW_FLAG, overflow),
    {
        if overflow {
            self.state |= 0b0100_0000;
        } else {
            self.state &= !0b0100_0000;
        }
    }

    fn set_break_flag(&mut self, break_flag: bool)
        ensures
            final(self)@ == old(self)@.with_flag(BREAK_FLAG, break_flag),
    {
        if break_flag {
            self.state |= 0b0001_0000;
        } else {
            self.state &= !0b0001_0000;
        }
    }

    fn set_bit_5_flag(&mut self, bit_5: bool)
        ensures
            final(self)@ == old(self)@.with_flag(BIT_5_FLAG, bit_5),
    {
        if bit_5 {
            self.state |= 0b0010_0000;
        } else {
            self.state &= !0b0010_0000;
        }
    }

    fn set_decimal_flag(&mut self, decimal: bool)
        ensures
            final(self)@ == old(self)@.with_flag(DECIMAL_FLAG, decimal),
    {
        if decimal {
            self.state |= 0b0000_1000;
        } else {
            self.state &= !0b0000_1000;
        }
    }

    fn set_interrupt_flag(&mut self, interrupt: bool)
        ensures
            final(self)@ == old(self)@.with_flag(INTERRUPT_FLAG, interrupt),
    {
        if interrupt {
            self.state |= 0b0000_0100;
        } else {
            self.state &= !0b0000_0100;
        }
    }

    fn is_register_negative(register_value: u8) -> (r: bool)
        ensures
            r == (register_value >= 0x80),
    {
        // The negative flag mirrors bit 7
        proof {
            lemma_u8_bits(register_value);
        }
        register_value & 0b1000_0000 != 0
    }

    fn get_and_increment_program_counter(&mut self) -> (r: u8)
        requires
            old(self)@.read_ok(old(self)@.pc),
            old(self)@.pc < 0xFFFF,
        ensures
            final(self)@ == (CpuView {
                pc: next_address(old(self)@.pc),
                ..old(self)@.read(old(self)@.pc).0
            }),
            r == old(self)@.read(old(self)@.pc).1,
    {
        let param: u8 = self.mem_read(self.program_counter);
        self.program_counter = self.program_counter + 1;
        param
    }

    pub fn is_zero_flag_set(&self) -> (r: bool)
        ensures
            r == self@.zero(),
    {
        self.state & 0b0000_0010 != 0
    }

    pub fn is_negative_flag_set(&self) -> (r: bool)
        ensures
            r == self@.negative(),
    {
        self.state & 0b1000_0000 != 0
    }

    pub fn is_carry_flag_set(&self) -> (r: bool)
        ensures
            r == self@.carry(),
    {
        self.state & 0b0000_0001 != 0
    }

    pub fn is_overflow_flag_set(&self) -> (r: bool)
        ensures
            r == self@.overflow(),
    {
        self.state & 0b0100_0000 != 0
    }

    pub fn is_break_flag_set(&self) -> (r: bool)
        ensures
            r == spec_flag(self.state, BREAK_FLAG),
    {
        self.state & 0b0001_0000 != 0
    }

    pub fn is_decimal_flag_set(&self) -> (r: bool)
        ensures
            r == spec_flag(self.state, DECIMAL_FLAG),
    {
        self.state & 0b0000_1000 != 0
    }

    pub fn is_interrupt_flag_set(&self) -> (r: bool)
        ensures
            r == spec_flag(self.state, INTERRUPT_FLAG),
    {
        self.state & 0b0000_0100 != 0
    }
}

/// The overflow rule of ADC in bits: operands of equal sign, result of the other.
proof fn lemma_adc_overflow(a: u8, m: u8, c: int, r: u8)
    requires
        0 <= c <= 1,
        r == (a + m + c) % 256,
    ensures
        (((m ^ r) & (a ^ r) & 0x80) != 0) == !(-128 <= spec_signed(a) + spec_signed(m) + c <= 127),
{
    assert((((m ^ r) & (a ^ r) & 0x80) != 0) == ((m >= 0x80) == (a >= 0x80) && (r >= 0x80) != (a
        >= 0x80))) by (bit_vector);
}

/// The overflow rule of SBC in bits: operands of different sign, result of the
/// sign of M.
proof fn lemma_sbc_overflow(a: u8, m: u8, borrow: int, r: u8)
    requires
        0 <= borrow <= 1,
        r == (a + 256 - m - borrow) % 256,
    ensures
        (((a ^ m) & (a ^ r) & 0x80) != 0) == !(-128 <= spec_signed(a) - spec_signed(m) - borrow <= 127),
{
    assert((((a ^ m) & (a ^ r) & 0x80) != 0) == ((m >= 0x80) != (a >= 0x80) && (r >= 0x80) != (a
        >= 0x80))) by (bit_vector);
}

/// Whether `mask` is one of the eight status flag bits.
pub open spec fn spec_is_flag_bit(mask: u8) -> bool {
    mask == 0x01 || mask == 0x02 || mask == 0x04 || mask == 0x08 || mask == 0x10 || mask == 0x20
        || mask == 0x40 || mask == 0x80
}

/// Which flag bits the masks of unchanged flags leave out: 0b0111_1101 keeps all
/// but Z and N, 0b0111_1100 all but C, Z and N, 0b0011_1100 all but C, V, Z and N.
proof fn lemma_flag_masks_disjoint()
    ensures
        ZERO_FLAG & 0b0111_1101u8 == 0,
        NEGATIVE_FLAG & 0b0111_1101u8 == 0,
        CARRY_FLAG & 0b0111_1100u8 == 0,
        ZERO_FLAG & 0b0111_1100u8 == 0,
        NEGATIVE_FLAG & 0b0111_1100u8 == 0,
        CARRY_FLAG & 0b0011_1100u8 == 0,
        OVERFLOW_FLAG & 0b0011_1100u8 == 0,
        ZERO_FLAG & 0b0011_1100u8 == 0,
        NEGATIVE_FLAG & 0b0011_1100u8 == 0,
        0b0111_1101u8 & 0b0111_1100u8 == 0b0111_1100u8,
        0b0111_1100u8 & 0b0011_1100u8 == 0b0011_1100u8,
        0b0111_1101u8 & 0b0011_1100u8 == 0b0011_1100u8,
{
    assert(0x02u8 & 0x7Du8 == 0 && 0x80u8 & 0x7Du8 == 0 && 0x01u8 & 0x7Cu8 == 0 && 0x02u8 & 0x7Cu8
        == 0 && 0x80u8 & 0x7Cu8 == 0 && 0x01u8 & 0x3Cu8 == 0 && 0x40u8 & 0x3Cu8 == 0 && 0x02u8
        & 0x3Cu8 == 0 && 0x80u8 & 0x3Cu8 == 0 && 0x7Du8 & 0x7Cu8 == 0x7Cu8 && 0x7Cu8 & 0x3Cu8
        == 0x3Cu8 && 0x7Du8 & 0x3Cu8 == 0x3Cu8) by (bit_vector);
}

/// Two bytes that agree on the bits of `wide` agree on those of `narrow`, a part of them.
proof fn lemma_mask_narrow(p: u8, q: u8, wide: u8, narrow: u8)
    requires
        wide & narrow == narrow,
        p & wide == q & wide,
    ensures
        p & narrow == q & narrow,
{
    assert(p & narrow == q & narrow) by (bit_vector)
        requires
            wide & narrow == narrow,
            p & wide == q & wide,
    ;
}

/// Fetching an operand only reads memory: the registers, RAM and program ROM
/// stay as they were.
pub proof fn lemma_load_keeps_cpu(s: CpuView, mode: AddressingMode)
    ensures
        ({
            let t = s.load(mode).0;
            &&& t.a == s.a && t.x == s.x && t.y == s.y && t.p == s.p && t.pc == s.pc && t.sp == s.sp
            &&& t.bus.ram == s.bus.ram && t.bus.prg == s.bus.prg
            &&& s.wf() ==> t.wf()
        }),
{
    broadcast use crate::bus::lemma_read_keeps_memory;

    lemma_operand_keeps_registers(mode, s.pc, s);
}

/// Setting or clearing the bits of `mask` leaves the bits of `keep` alone when
/// the two do not overlap.
pub proof fn lemma_with_flag_keeps(p: u8, mask: u8, on: bool, keep: u8)
    requires
        mask & keep == 0,
    ensures
        spec_with_flag(p, mask, on) & keep == p & keep,
{
    assert((p | mask) & keep == p & keep && (p & !mask) & keep == p & keep) by (bit_vector)
        requires
            mask & keep == 0,
    ;
}

/// Law: setting a flag makes it read back as set or cleared, and leaves every
/// other flag as it was.
pub proof fn lemma_with_flag(p: u8, mask: u8, on: bool, other: u8)
    requires
        spec_is_flag_bit(mask),
        spec_is_flag_bit(other),
    ensures
        spec_flag(spec_with_flag(p, mask, on), mask) == on,
        other != mask ==> spec_flag(spec_with_flag(p, mask, on), other) == spec_flag(p, other),
{
    assert(((p | mask) & mask != 0) && ((p & !mask) & mask == 0) && (other != mask ==> (((p | mask)
        & other != 0) == (p & other != 0) && ((p & !mask) & other != 0) == (p & other != 0))))
        by (bit_vector)
        requires
            mask == 0x01 || mask == 0x02 || mask == 0x04 || mask == 0x08 || mask == 0x10 || mask
                == 0x20 || mask == 0x40 || mask == 0x80,
            other == 0x01 || other == 0x02 || other == 0x04 || other == 0x08 || other == 0x10
                || other == 0x20 || other == 0x40 || other == 0x80,
    ;
}

/// Law: after the zero and negative flags are set from `v`, zero reads back as
/// `v == 0`, negative as bit 7 of `v`, and the other flags are unchanged.
pub proof fn lemma_with_zn(s: CpuView, v: u8)
    ensures
        s.with_zn(v).zero() == (v == 0),
        s.with_zn(v).negative() == (v >= 0x80),
        s.with_zn(v).carry() == s.carry(),
        s.with_zn(v).overflow() == s.overflow(),
        s.with_zn(v).p & 0b0111_1101 == s.p & 0b0111_1101,
        s.with_zn(v) == (CpuView { p: s.with_zn(v).p, ..s }),
{
    lemma_flag_masks_disjoint();
    lemma_with_flag_keeps(s.p, ZERO_FLAG, v == 0, 0b0111_1101);
    lemma_with_flag_keeps(spec_with_flag(s.p, ZERO_FLAG, v == 0), NEGATIVE_FLAG, v >= 0x80, 0b0111_1101);
    lemma_with_flag(s.p, ZERO_FLAG, v == 0, NEGATIVE_FLAG);
    lemma_with_flag(s.p, ZERO_FLAG, v == 0, CARRY_FLAG);
    lemma_with_flag(s.p, ZERO_FLAG, v == 0, OVERFLOW_FLAG);
    let p1 = spec_with_flag(s.p, ZERO_FLAG, v == 0);
    lemma_with_flag(p1, NEGATIVE_FLAG, v >= 0x80, ZERO_FLAG);
    lemma_with_flag(p1, NEGATIVE_FLAG, v >= 0x80, CARRY_FLAG);
    lemma_with_flag(p1, NEGATIVE_FLAG, v >= 0x80, OVERFLOW_FLAG);
}

/// Computing an operand address only reads memory: the registers, RAM and
/// program ROM stay as they were.
pub proof fn lemma_operand_keeps_registers(mode: AddressingMode, pc: u16, s: CpuView)
    ensures
        ({
            let t = mode.operand(pc, s).0;
            &&& t.a == s.a && t.x == s.x && t.y == s.y && t.p == s.p && t.pc == s.pc && t.sp == s.sp
            &&& t.bus.ram == s.bus.ram && t.bus.prg == s.bus.prg
            &&& s.wf() ==> t.wf()
        }),
{
    reveal(AddressingMode::operand);
    broadcast use crate::bus::lemma_read_keeps_memory;

}

/// Law: a byte pushed on the stack is the byte pulled back, and the stack
/// pointer returns to where it was.
pub proof fn lemma_push_then_pull(s: CpuView, v: u8)
    requires
        s.wf(),
    ensures
        s.push(v).pull().1 == v,
        s.push(v).pull().0.sp == s.sp,
{
    let addr = (0x100 + s.sp) as u16;
    crate::bus::lemma_ram_access(s.bus, addr, v);
    let t = s.push(v);
    crate::bus::lemma_ram_access(t.bus, addr, v);
}

/// Law: a 16-bit value pushed on the stack is the value pulled back, and the
/// stack pointer returns to where it was.
pub proof fn lemma_push_then_pull_u16(s: CpuView, v: u16)
    requires
        s.wf(),
    ensures
        s.push_u16(v).pull_u16().1 == v,
        s.push_u16(v).pull_u16().0.sp == s.sp,
{
    let hi = (v / 256) as u8;
    let lo = (v % 256) as u8;
    let a1 = (0x100 + s.sp) as u16;
    crate::bus::lemma_ram_access(s.bus, a1, hi);
    let s1 = s.push(hi);
    let a2 = (0x100 + s1.sp) as u16;
    crate::bus::lemma_ram_access(s1.bus, a2, lo);
    let s2 = s1.push(lo);
    crate::bus::lemma_ram_access(s2.bus, a2, 0);
    let (s3, l) = s2.pull();
    crate::bus::lemma_ram_access(s3.bus, a1, 0);
    assert(l == lo);
    assert(s3.sp == s1.sp);
    assert(s3.bus.ram == s2.bus.ram);
    assert(s3.pull().1 == hi);
}

/// Law: JSR followed by RTS returns to the instruction after the JSR (its operand
/// bytes start at `pc`, so that is `pc + 2`) with the stack pointer restored.
pub proof fn lemma_jsr_then_rts(s: CpuView, mode: AddressingMode)
    requires
        s.wf(),
    ensures
        s.jsr(mode).rts().pc == (s.pc + 2) % 0x10000,
        s.jsr(mode).rts().sp == s.sp,
{
    reveal(CpuView::jsr);
    reveal(CpuView::rts);
    lemma_operand_keeps_registers(mode, s.pc, s);
    let s1 = mode.operand(s.pc, s).0;
    assert(s1.wf());
    lemma_push_then_pull_u16(s1, ((s1.pc + 1) % 0x10000) as u16);
}

/// Law: PHA followed by PLA leaves A as it was, with zero and negative set from it.
pub proof fn lemma_pha_then_pla(s: CpuView)
    requires
        s.wf(),
    ensures
        s.pha().pla().a == s.a,
        s.pha().pla().sp == s.sp,
        s.pha().pla().zero() == (s.a == 0),
        s.pha().pla().negative() == (s.a >= 0x80),
{
    reveal(CpuView::pha);
    reveal(CpuView::pla);
    lemma_push_then_pull(s, s.a);
    let (t, v) = s.push(s.a).pull();
    lemma_with_zn(CpuView { a: v, ..t }, v);
}

/// Law: PHP followed by PLP restores every flag but break, which ends cleared,
/// and bit 5, which ends set.
pub proof fn lemma_php_then_plp(s: CpuView)
    requires
        s.wf(),
    ensures
        s.php().plp().p == (s.p & 0b1100_1111) | 0b0010_0000,
        s.php().plp().sp == s.sp,
{
    reveal(CpuView::php);
    lemma_push_then_pull(s, s.p | 0b0011_0000);
    let p = s.p;
    let v = p | 0b0011_0000;
    assert(((v & !0b0001_0000u8) | 0b0010_0000u8) == (p & 0b1100_1111) | 0b0010_0000) by (bit_vector)
        requires
            v == p | 0b0011_0000,
    ;
}

/// Law: the flags after ADC. A becomes A + M + C modulo 256; carry is set when
/// the sum exceeds 255; overflow when the signed sum leaves -128..127; zero and
/// negative follow the result.
pub proof fn lemma_adc_flags(s: CpuView, mode: AddressingMode)
    ensures
        ({
            let (s1, m) = s.load(mode);
            let c: int = if s1.carry() {
                1
            } else {
                0
            };
            let t = s.adc(mode);
            &&& t.a == (s1.a + m + c) % 256
            &&& t.carry() == (s1.a + m + c > 255)
            &&& t.overflow() == !(-128 <= spec_signed(s1.a) + spec_signed(m) + c <= 127)
            &&& t.overflow() == ((m ^ t.a) & (s.a ^ t.a) & 0x80 != 0)
            &&& t.zero() == (t.a == 0)
            &&& t.negative() == (t.a >= 0x80)
            &&& t.p & 0b0011_1100 == s.p & 0b0011_1100
            &&& t.a == s.a + m + c - 256 * (if s.a + m + c > 255 { 1int } else { 0 })
            &&& t.x == s.x && t.y == s.y && t.pc == s.pc && t.sp == s.sp
            &&& t.bus.ram == s.bus.ram && t.bus.prg == s.bus.prg
        }),
{
    reveal(CpuView::adc);
    lemma_load_keeps_cpu(s, mode);
    lemma_flag_masks_disjoint();
    let (s1, m) = s.load(mode);
    let c: int = if s1.carry() {
        1
    } else {
        0
    };
    let sum = s1.a + m + c;
    let t1 = s1.with_flag(CARRY_FLAG, sum > 255);
    lemma_with_flag(s1.p, CARRY_FLAG, sum > 255, CARRY_FLAG);
    let ov = !(-128 <= spec_signed(s1.a) + spec_signed(m) + c <= 127);
    lemma_with_flag(t1.p, OVERFLOW_FLAG, ov, CARRY_FLAG);
    lemma_with_flag(t1.p, OVERFLOW_FLAG, ov, OVERFLOW_FLAG);
    let t2 = t1.with_flag(OVERFLOW_FLAG, ov);
    lemma_with_zn(t2, (sum % 256) as u8);
    lemma_adc_overflow(s1.a, m, c, (sum % 256) as u8);
    lemma_with_flag_keeps(s1.p, CARRY_FLAG, sum > 255, 0b0011_1100);
    lemma_with_flag_keeps(t1.p, OVERFLOW_FLAG, ov, 0b0011_1100);
    lemma_mask_narrow(t2.with_zn((sum % 256) as u8).p, t2.p, 0b0111_1101, 0b0011_1100);
}

/// Law: the flags after SBC. A becomes A - M - (1 - C) modulo 256; carry is set
/// when no borrow was needed; overflow when the signed difference leaves
/// -128..127; zero and negative follow the result.
pub proof fn lemma_sbc_flags(s: CpuView, mode: AddressingMode)
    ensures
        ({
            let (s1, m) = s.load(mode);
            let borrow: int = if s1.carry() {
                0
            } else {
                1
            };
            let t = s.sbc(mode);
            &&& t.a == (s1.a - m - borrow + 256) % 256
            &&& t.carry() == (s1.a >= m + borrow)
            &&& t.overflow() == !(-128 <= spec_signed(s1.a) - spec_signed(m) - borrow <= 127)
            &&& t.zero() == (t.a == 0)
            &&& t.negative() == (t.a >= 0x80)
        }),
{
    reveal(CpuView::sbc);
    let (s1, m) = s.load(mode);
    let borrow: int = if s1.carry() {
        0
    } else {
        1
    };
    let t1 = s1.with_flag(CARRY_FLAG, s1.a >= m + borrow);
    lemma_with_flag(s1.p, CARRY_FLAG, s1.a >= m + borrow, CARRY_FLAG);
    let ov = !(-128 <= spec_signed(s1.a) - spec_signed(m) - borrow <= 127);
    lemma_with_flag(t1.p, OVERFLOW_FLAG, ov, CARRY_FLAG);
    lemma_with_flag(t1.p, OVERFLOW_FLAG, ov, OVERFLOW_FLAG);
    let t2 = t1.with_flag(OVERFLOW_FLAG, ov);
    lemma_with_zn(t2, ((s1.a + 256 - m - borrow) % 256) as u8);
}

/// Law: a comparison (CMP, CPX, CPY) sets carry when the register is at least
/// the value, zero when they are equal, negative from bit 7 of their wrapping
/// difference, and changes no register.
pub proof fn lemma_compare_flags(s: CpuView, register: u8, value: u8)
    ensures
        s.compare(register, value).carry() == (register >= value),
        s.compare(register, value).zero() == (register == value),
        s.compare(register, value).negative() == ((register + 256 - value) % 256 >= 0x80),
        s.compare(register, value).a == s.a,
        s.compare(register, value).x == s.x,
        s.compare(register, value).y == s.y,
        s.compare(register, value).sp == s.sp,
        s.compare(register, value).pc == s.pc,
        s.compare(register, value).bus == s.bus,
        s.compare(register, value).p & 0b0111_1100 == s.p & 0b0111_1100,
{
    lemma_flag_masks_disjoint();
    lemma_with_flag_keeps(s.p, CARRY_FLAG, register >= value, 0b0111_1100);
    let t1 = s.with_flag(CARRY_FLAG, register >= value);
    lemma_with_flag(s.p, CARRY_FLAG, register >= value, CARRY_FLAG);
    lemma_with_zn(t1, ((register + 256 - value) % 256) as u8);
    lemma_mask_narrow(t1.with_zn(((register + 256 - value) % 256) as u8).p, t1.p, 0b0111_1101, 0b0111_1100);
}

/// Law: ROL A followed by ROR A gives back A and the carry flag.
pub proof fn lemma_rol_then_ror(s: CpuView)
    ensures
        s.rol(AddressingMode::Accumulator).ror(AddressingMode::Accumulator).a == s.a,
        s.rol(AddressingMode::Accumulator).ror(AddressingMode::Accumulator).carry() == s.carry(),
{
    reveal(CpuView::rol);
    reveal(CpuView::ror);
    let c: int = if s.carry() {
        1
    } else {
        0
    };
    let v = ((s.a * 2) % 256 + c) as u8;
    lemma_with_flag(s.p, CARRY_FLAG, s.a >= 0x80, CARRY_FLAG);
    let t1 = s.with_flag(CARRY_FLAG, s.a >= 0x80);
    lemma_with_zn(t1, v);
    let t = s.rol(AddressingMode::Accumulator);
    assert(t.a == v && t.carry() == (s.a >= 0x80));
    let w = (v / 2 + if t.carry() {
        0x80int
    } else {
        0
    }) as u8;
    assert(w == s.a);
    lemma_with_flag(t.p, CARRY_FLAG, v % 2 == 1, CARRY_FLAG);
    lemma_with_zn(t.with_flag(CARRY_FLAG, v % 2 == 1), w);
}

/// Adding one and then 255 modulo 256 gives back a byte.
proof fn lemma_wrapping_step_back(v: u8)
    ensures
        ((((v + 1) % 256) as u8 + 255) % 256) as u8 == v,
{
    if v == 255 {
        assert(((v + 1) % 256) as u8 == 0);
    } else {
        assert(((v + 1) % 256) as u8 == v + 1);
    }
}

/// Law: ROL shifts its operand (A in accumulator mode, else the byte at the
/// operand address) left, bit 7 into carry and the old carry into bit 0; zero
/// and negative follow the result, the other flags stay. In accumulator mode
/// the result goes to A; otherwise it is stored back at the operand address and
/// A stays.
pub proof fn lemma_rol_flags(s: CpuView, mode: AddressingMode)
    ensures
        ({
            let (s1, m) = s.modify_source(mode);
            let r = ((m * 2) % 256 + if s1.carry() {
                1int
            } else {
                0
            }) as u8;
            let t = s.rol(mode);
            &&& t.carry() == (m >= 0x80)
            &&& t.zero() == (r == 0)
            &&& t.negative() == (r >= 0x80)
            &&& t.p & 0b0111_1100 == s.p & 0b0111_1100
            &&& !mode.has_operand_address() ==> m == s.a && t.a == r && t.bus == s.bus
            &&& mode.has_operand_address() ==> t == (CpuView { p: t.p, ..s1.store(mode, r) })
                && t.a == s.a
        }),
{
    reveal(CpuView::rol);
    lemma_flag_masks_disjoint();
    let (s1, m) = s.modify_source(mode);
    if mode.has_operand_address() {
        lemma_load_keeps_cpu(s, mode);
    }
    let r = ((m * 2) % 256 + if s1.carry() {
        1int
    } else {
        0
    }) as u8;
    let t1 = s1.with_flag(CARRY_FLAG, m >= 0x80);
    lemma_with_flag(s1.p, CARRY_FLAG, m >= 0x80, CARRY_FLAG);
    lemma_with_flag_keeps(s1.p, CARRY_FLAG, m >= 0x80, 0b0111_1100);
    lemma_with_zn(t1, r);
    lemma_mask_narrow(t1.with_zn(r).p, t1.p, 0b0111_1101, 0b0111_1100);
    let t2 = t1.with_zn(r);
    if mode.has_operand_address() {
        lemma_store_ignores_flags(s1, mode, t2.p, r);
        lemma_operand_keeps_registers(mode, s1.pc, s1);
        assert(t2 == (CpuView { p: t2.p, ..s1 }));
        assert(s.rol(mode) == t2.store(mode, r));
        assert(s.rol(mode) == (CpuView { p: t2.p, ..s1.store(mode, r) }));
    } else {
        assert(s.rol(mode) == (CpuView { a: r, ..t2 }));
    }
}

/// Law: a branch moves PC to the byte after the offset plus the offset read as
/// a signed byte (wrapping at 16 bits); it changes no register, flag or memory.
pub proof fn lemma_branch(s: CpuView, mode: AddressingMode)
    ensures
        ({
            let (s1, offset) = s.load(mode);
            let t = s.branch(mode);
            &&& t.pc == ((s.pc + 1 + spec_signed(offset)) % 0x10000) as u16
            &&& t.a == s.a && t.x == s.x && t.y == s.y && t.p == s.p && t.sp == s.sp
            &&& t.bus.ram == s.bus.ram && t.bus.prg == s.bus.prg
        }),
{
    reveal(CpuView::branch);
    lemma_load_keeps_cpu(s, mode);
}

/// Law: the flag instructions (CLC, CLD, CLI, CLV, SEC, SED, SEI) touch neither
/// the stack pointer nor memory.
pub proof fn lemma_flag_instructions_keep_stack(s: CpuView, m: Mnemonic)
    requires
        m == Mnemonic::CLC || m == Mnemonic::CLD || m == Mnemonic::CLI || m == Mnemonic::CLV || m
            == Mnemonic::SEC || m == Mnemonic::SED || m == Mnemonic::SEI,
    ensures
        s.implied(m).sp == s.sp,
        s.implied(m).bus == s.bus,
{
}

/// What RTS gives back depends only on SP and the two stack bytes above it.
proof fn lemma_rts_reads_stack(s: CpuView, t: CpuView)
    requires
        s.bus.ram.len() == 2048,
        t.bus.ram.len() == 2048,
        t.sp == s.sp,
        t.bus.ram[0x100 + (s.sp + 1) % 256] == s.bus.ram[0x100 + (s.sp + 1) % 256],
        t.bus.ram[0x100 + (s.sp + 2) % 256] == s.bus.ram[0x100 + (s.sp + 2) % 256],
    ensures
        t.rts().pc == s.rts().pc,
        t.rts().sp == s.rts().sp,
{
    reveal(CpuView::rts);
    let a1 = (0x100 + (s.sp + 1) % 256) as u16;
    let a2 = (0x100 + ((s.sp + 1) % 256 + 1) % 256) as u16;
    assert(((s.sp + 1) % 256 + 1) % 256 == (s.sp + 2) % 256);
    crate::bus::lemma_ram_access(s.bus, a1, 0);
    crate::bus::lemma_ram_access(t.bus, a1, 0);
    crate::bus::lemma_ram_access(s.bus, a2, 0);
    crate::bus::lemma_ram_access(t.bus, a2, 0);
}

/// Law: after JSR, whatever runs in between, RTS returns to the instruction after
/// the JSR (`pc + 2`, its operand bytes starting at `pc`) with the stack pointer
/// restored, as long as the stack pointer is back where JSR left it and the two
/// bytes JSR pushed are still there, as matched pushes and pulls leave them.
pub proof fn lemma_jsr_then_rts_after(s: CpuView, mode: AddressingMode, t: CpuView)
    requires
        s.wf(),
        t.bus.ram.len() == 2048,
        t.sp == s.jsr(mode).sp,
        t.bus.ram[0x100 + (t.sp + 1) % 256] == s.jsr(mode).bus.ram[0x100 + (t.sp + 1) % 256],
        t.bus.ram[0x100 + (t.sp + 2) % 256] == s.jsr(mode).bus.ram[0x100 + (t.sp + 2) % 256],
    ensures
        t.rts().pc == (s.pc + 2) % 0x10000,
        t.rts().sp == s.sp,
{
    lemma_jsr_then_rts(s, mode);
    lemma_jsr_keeps_wf(s, mode);
    lemma_rts_reads_stack(s.jsr(mode), t);
}

/// JSR leaves a well-formed state well formed.
proof fn lemma_jsr_keeps_wf(s: CpuView, mode: AddressingMode)
    requires
        s.wf(),
    ensures
        s.jsr(mode).wf(),
{
    reveal(CpuView::jsr);
    lemma_operand_keeps_registers(mode, s.pc, s);
    let s1 = mode.operand(s.pc, s).0;
    let v = ((s1.pc + 1) % 0x10000) as u16;
    let a1 = (0x100 + s1.sp) as u16;
    crate::bus::lemma_ram_access(s1.bus, a1, (v / 256) as u8);
    let s2 = s1.push((v / 256) as u8);
    let a2 = (0x100 + s2.sp) as u16;
    crate::bus::lemma_ram_access(s2.bus, a2, (v % 256) as u8);
}

/// Law: after PHP, whatever runs in between, PLP restores every flag but break,
/// which ends cleared, and bit 5, which ends set, with the stack pointer
/// restored, as long as the stack pointer is back where PHP left it and the
/// byte PHP pushed is still there (flag instructions, for one, keep both; see
/// `lemma_flag_instructions_keep_stack`).
pub proof fn lemma_php_then_plp_after(s: CpuView, t: CpuView)
    requires
        s.wf(),
        t.bus.ram.len() == 2048,
        t.sp == s.php().sp,
        t.bus.ram[0x100 + (t.sp + 1) % 256] == s.php().bus.ram[0x100 + (t.sp + 1) % 256],
    ensures
        t.plp().p == (s.p & 0b1100_1111) | 0b0010_0000,
        t.plp().sp == s.sp,
{
    lemma_php_then_plp(s);
    reveal(CpuView::php);
    let a = (0x100 + (t.sp + 1) % 256) as u16;
    crate::bus::lemma_ram_access(t.bus, a, 0);
    crate::bus::lemma_ram_access(s.bus, (0x100 + s.sp) as u16, s.p | 0b0011_0000);
    crate::bus::lemma_ram_access(s.php().bus, a, 0);
}

/// Law: INX followed by DEX (and INY followed by DEY) gives back the register.
#[verifier::spinoff_prover]
pub proof fn lemma_increment_then_decrement(s: CpuView)
    ensures
        s.implied(Mnemonic::INX).implied(Mnemonic::DEX).x == s.x,
        s.implied(Mnemonic::INY).implied(Mnemonic::DEY).y == s.y,
{
    let t = s.implied(Mnemonic::INX);
    lemma_wrapping_step_back(s.x);
    assert(t.implied(Mnemonic::DEX).x == ((t.x + 255) % 256) as u8);
    let u = s.implied(Mnemonic::INY);
    lemma_wrapping_step_back(s.y);
    assert(u.implied(Mnemonic::DEY).y == ((u.y + 255) % 256) as u8);
}

/// Law: once BRK has stopped the CPU, further steps change nothing.
pub proof fn lemma_halted_stays(s: CpuView, n: nat, k: nat)
    requires
        !s.run_steps(n).1,
    ensures
        s.run_steps(n + k) == s.run_steps(n),
    decreases k,
{
    if k > 0 {
        lemma_halted_stays(s, n, (k - 1) as nat);
        assert(s.run_steps(n + k) == s.run_steps((n + k - 1) as nat));
    }
}

/// Law: a step that executes BRK stops the CPU with PC just past the BRK opcode,
/// and leaves the registers as they were.
pub proof fn lemma_brk_stops(s: CpuView)
    requires
        spec_decode(s.read(s.pc).1) matches Some((m, _)) && m == Mnemonic::BRK,
    ensures
        !s.step().1,
        s.step().0.pc == next_address(s.pc),
        s.step().0.a == s.a && s.step().0.x == s.x && s.step().0.y == s.y && s.step().0.p == s.p
            && s.step().0.sp == s.sp,
{
}

} // verus!
