use vstd::prelude::*;

use crate::addressing_modes::AddressingMode;

verus! {

/// The official 6502 instructions.
#[derive(Debug, PartialEq, Eq, Structural, Clone, Copy)]
pub enum Mnemonic {
    ADC,
    AND,
    ASL,
    BCC,
    BCS,
    BEQ,
    BIT,
    BMI,
    BNE,
    BPL,
    BRK,
    BVC,
    BVS,
    CLC,
    CLD,
    CLI,
    CLV,
    CMP,
    CPX,
    CPY,
    DEC,
    DEX,
    DEY,
    EOR,
    INC,
    INX,
    INY,
    JMP,
    JSR,
    LDA,
    LDX,
    LDY,
    LSR,
    NOP,
    ORA,
    PHA,
    PHP,
    PLA,
    PLP,
    ROL,
    ROR,
    RTI,
    RTS,
    SBC,
    SEC,
    SED,
    SEI,
    STA,
    STX,
    STY,
    TAX,
    TAY,
    TSX,
    TXA,
    TXS,
    TYA,
}

/// The assembler name of an instruction.
pub open spec fn spec_mnemonic_name(m: Mnemonic) -> Seq<char> {
    match m {
        Mnemonic::ADC => "ADC"@,
        Mnemonic::AND => "AND"@,
        Mnemonic::ASL => "ASL"@,
        Mnemonic::BCC => "BCC"@,
        Mnemonic::BCS => "BCS"@,
        Mnemonic::BEQ => "BEQ"@,
        Mnemonic::BIT => "BIT"@,
        Mnemonic::BMI => "BMI"@,
        Mnemonic::BNE => "BNE"@,
        Mnemonic::BPL => "BPL"@,
        Mnemonic::BRK => "BRK"@,
        Mnemonic::BVC => "BVC"@,
        Mnemonic::BVS => "BVS"@,
        Mnemonic::CLC => "CLC"@,
        Mnemonic::CLD => "CLD"@,
        Mnemonic::CLI => "CLI"@,
        Mnemonic::CLV => "CLV"@,
        Mnemonic::CMP => "CMP"@,
        Mnemonic::CPX => "CPX"@,
        Mnemonic::CPY => "CPY"@,
        Mnemonic::DEC => "DEC"@,
        Mnemonic::DEX => "DEX"@,
        Mnemonic::DEY => "DEY"@,
        Mnemonic::EOR => "EOR"@,
        Mnemonic::INC => "INC"@,
        Mnemonic::INX => "INX"@,
        Mnemonic::INY => "INY"@,
        Mnemonic::JMP => "JMP"@,
        Mnemonic::JSR => "JSR"@,
        Mnemonic::LDA => "LDA"@,
        Mnemonic::LDX => "LDX"@,
        Mnemonic::LDY => "LDY"@,
        Mnemonic::LSR => "LSR"@,
        Mnemonic::NOP => "NOP"@,
        Mnemonic::ORA => "ORA"@,
        Mnemonic::PHA => "PHA"@,
        Mnemonic::PHP => "PHP"@,
        Mnemonic::PLA => "PLA"@,
        Mnemonic::PLP => "PLP"@,
        Mnemonic::ROL => "ROL"@,
        Mnemonic::ROR => "ROR"@,
        Mnemonic::RTI => "RTI"@,
        Mnemonic::RTS => "RTS"@,
        Mnemonic::SBC => "SBC"@,
        Mnemonic::SEC => "SEC"@,
        Mnemonic::SED => "SED"@,
        Mnemonic::SEI => "SEI"@,
        Mnemonic::STA => "STA"@,
        Mnemonic::STX => "STX"@,
        Mnemonic::STY => "STY"@,
        Mnemonic::TAX => "TAX"@,
        Mnemonic::TAY => "TAY"@,
        Mnemonic::TSX => "TSX"@,
        Mnemonic::TXA => "TXA"@,
        Mnemonic::TXS => "TXS"@,
        Mnemonic::TYA => "TYA"@,
    }
}

impl Mnemonic {
    pub fn name(&self) -> (r: &'static str)
        ensures
            r@ == spec_mnemonic_name(*self),
    {
        match self {
            Mnemonic::ADC => "ADC",
            Mnemonic::AND => "AND",
            Mnemonic::ASL => "ASL",
            Mnemonic::BCC => "BCC",
            Mnemonic::BCS => "BCS",
            Mnemonic::BEQ => "BEQ",
            Mnemonic::BIT => "BIT",
            Mnemonic::BMI => "BMI",
            Mnemonic::BNE => "BNE",
            Mnemonic::BPL => "BPL",
            Mnemonic::BRK => "BRK",
            Mnemonic::BVC => "BVC",
            Mnemonic::BVS => "BVS",
            Mnemonic::CLC => "CLC",
            Mnemonic::CLD => "CLD",
            Mnemonic::CLI => "CLI",
            Mnemonic::CLV => "CLV",
            Mnemonic::CMP => "CMP",
            Mnemonic::CPX => "CPX",
            Mnemonic::CPY => "CPY",
            Mnemonic::DEC => "DEC",
            Mnemonic::DEX => "DEX",
            Mnemonic::DEY => "DEY",
            Mnemonic::EOR => "EOR",
            Mnemonic::INC => "INC",
            Mnemonic::INX => "INX",
            Mnemonic::INY => "INY",
            Mnemonic::JMP => "JMP",
            Mnemonic::JSR => "JSR",
            Mnemonic::LDA => "LDA",
            Mnemonic::LDX => "LDX",
            Mnemonic::LDY => "LDY",
            Mnemonic::LSR => "LSR",
            Mnemonic::NOP => "NOP",
            Mnemonic::ORA => "ORA",
            Mnemonic::PHA => "PHA",
            Mnemonic::PHP => "PHP",
            Mnemonic::PLA => "PLA",
            Mnemonic::PLP => "PLP",
            Mnemonic::ROL => "ROL",
            Mnemonic::ROR => "ROR",
            Mnemonic::RTI => "RTI",
            Mnemonic::RTS => "RTS",
            Mnemonic::SBC => "SBC",
            Mnemonic::SEC => "SEC",
            Mnemonic::SED => "SED",
            Mnemonic::SEI => "SEI",
            Mnemonic::STA => "STA",
            Mnemonic::STX => "STX",
            Mnemonic::STY => "STY",
            Mnemonic::TAX => "TAX",
            Mnemonic::TAY => "TAY",
            Mnemonic::TSX => "TSX",
            Mnemonic::TXA => "TXA",
            Mnemonic::TXS => "TXS",
            Mnemonic::TYA => "TYA",
        }
    }
}

/// The instruction and addressing mode that an opcode byte encodes, or `None`
/// for a byte that is no official opcode.
pub open spec fn spec_decode(code: u8) -> Option<(Mnemonic, AddressingMode)> {
    match code {
        0x00 => Some((Mnemonic::BRK, AddressingMode::NoneAddressing)),
        0x01 => Some((Mnemonic::ORA, AddressingMode::Indirect_X)),
        0x05 => Some((Mnemonic::ORA, AddressingMode::ZeroPage)),
        0x06 => Some((Mnemonic::ASL, AddressingMode::ZeroPage)),
        0x08 => Some((Mnemonic::PHP, AddressingMode::NoneAddressing)),
        0x09 => Some((Mnemonic::ORA, AddressingMode::Immediate)),
        0x0A => Some((Mnemonic::ASL, AddressingMode::Accumulator)),
        0x0D => Some((Mnemonic::ORA, AddressingMode::Absolute)),
        0x0E => Some((Mnemonic::ASL, AddressingMode::Absolute)),
        0x10 => Some((Mnemonic::BPL, AddressingMode::Relative)),
        0x11 => Some((Mnemonic::ORA, AddressingMode::Indirect_Y)),
        0x15 => Some((Mnemonic::ORA, AddressingMode::ZeroPage_X)),
        0x16 => Some((Mnemonic::ASL, AddressingMode::ZeroPage_X)),
        0x18 => Some((Mnemonic::CLC, AddressingMode::NoneAddressing)),
        0x19 => Some((Mnemonic::ORA, AddressingMode::Absolute_Y)),
        0x1D => Some((Mnemonic::ORA, AddressingMode::Absolute_X)),
        0x1E => Some((Mnemonic::ASL, AddressingMode::Absolute_X)),
        0x20 => Some((Mnemonic::JSR, AddressingMode::Absolute)),
        0x21 => Some((Mnemonic::AND, AddressingMode::Indirect_X)),
        0x24 => Some((Mnemonic::BIT, AddressingMode::ZeroPage)),
        0x25 => Some((Mnemonic::AND, AddressingMode::ZeroPage)),
        0x26 => Some((Mnemonic::ROL, AddressingMode::ZeroPage)),
        0x28 => Some((Mnemonic::PLP, AddressingMode::NoneAddressing)),
        0x29 => Some((Mnemonic::AND, AddressingMode::Immediate)),
        0x2A => Some((Mnemonic::ROL, AddressingMode::Accumulator)),
        0x2C => Some((Mnemonic::BIT, AddressingMode::Absolute)),
        0x2D => Some((Mnemonic::AND, AddressingMode::Absolute)),
        0x2E => Some((Mnemonic::ROL, AddressingMode::Absolute)),
        0x30 => Some((Mnemonic::BMI, AddressingMode::Relative)),
        0x31 => Some((Mnemonic::AND, AddressingMode::Indirect_Y)),
        0x35 => Some((Mnemonic::AND, AddressingMode::ZeroPage_X)),
        0x36 => Some((Mnemonic::ROL, AddressingMode::ZeroPage_X)),
        0x38 => Some((Mnemonic::SEC, AddressingMode::NoneAddressing)),
        0x39 => Some((Mnemonic::AND, AddressingMode::Absolute_Y)),
        0x3D => Some((Mnemonic::AND, AddressingMode::Absolute_X)),
        0x3E => Some((Mnemonic::ROL, AddressingMode::Absolute_X)),
        0x40 => Some((Mnemonic::RTI, AddressingMode::NoneAddressing)),
        0x41 => Some((Mnemonic::EOR, AddressingMode::Indirect_X)),
        0x45 => Some((Mnemonic::EOR, AddressingMode::ZeroPage)),
        0x46 => Some((Mnemonic::LSR, AddressingMode::ZeroPage)),
        0x48 => Some((Mnemonic::PHA, AddressingMode::NoneAddressing)),
        0x49 => Some((Mnemonic::EOR, AddressingMode::Immediate)),
        0x4A => Some((Mnemonic::LSR, AddressingMode::Accumulator)),
        0x4C => Some((Mnemonic::JMP, AddressingMode::Absolute)),
        0x4D => Some((Mnemonic::EOR, AddressingMode::Absolute)),
        0x4E => Some((Mnemonic::LSR, AddressingMode::Absolute)),
        0x50 => Some((Mnemonic::BVC, AddressingMode::Relative)),
        0x51 => Some((Mnemonic::EOR, AddressingMode::Indirect_Y)),
        0x55 => Some((Mnemonic::EOR, AddressingMode::ZeroPage_X)),
        0x56 => Some((Mnemonic::LSR, AddressingMode::ZeroPage_X)),
        0x58 => Some((Mnemonic::CLI, AddressingMode::NoneAddressing)),
        0x59 => Some((Mnemonic::EOR, AddressingMode::Absolute_Y)),
        0x5D => Some((Mnemonic::EOR, AddressingMode::Absolute_X)),
        0x5E => Some((Mnemonic::LSR, AddressingMode::Absolute_X)),
        0x60 => Some((Mnemonic::RTS, AddressingMode::NoneAddressing)),
        0x61 => Some((Mnemonic::ADC, AddressingMode::Indirect_X)),
        0x65 => Some((Mnemonic::ADC, AddressingMode::ZeroPage)),
        0x66 => Some((Mnemonic::ROR, AddressingMode::ZeroPage)),
        0x68 => Some((Mnemonic::PLA, AddressingMode::NoneAddressing)),
        0x69 => Some((Mnemonic::ADC, AddressingMode::Immediate)),
        0x6A => Some((Mnemonic::ROR, AddressingMode::Accumulator)),
        0x6C => Some((Mnemonic::JMP, AddressingMode::Indirect)),
        0x6D => Some((Mnemonic::ADC, AddressingMode::Absolute)),
        0x6E => Some((Mnemonic::ROR, AddressingMode::Absolute)),
        0x70 => Some((Mnemonic::BVS, AddressingMode::Relative)),
        0x71 => Some((Mnemonic::ADC, AddressingMode::Indirect_Y)),
        0x75 => Some((Mnemonic::ADC, AddressingMode::ZeroPage_X)),
        0x76 => Some((Mnemonic::ROR, AddressingMode::ZeroPage_X)),
        0x78 => Some((Mnemonic::SEI, AddressingMode::NoneAddressing)),
        0x79 => Some((Mnemonic::ADC, AddressingMode::Absolute_Y)),
        0x7D => Some((Mnemonic::ADC, AddressingMode::Absolute_X)),
        0x7E => Some((Mnemonic::ROR, AddressingMode::Absolute_X)),
        0x81 => Some((Mnemonic::STA, AddressingMode::Indirect_X)),
        0x84 => Some((Mnemonic::STY, AddressingMode::ZeroPage)),
        0x85 => Some((Mnemonic::STA, AddressingMode::ZeroPage)),
        0x86 => Some((Mnemonic::STX, AddressingMode::ZeroPage)),
        0x88 => Some((Mnemonic::DEY, AddressingMode::NoneAddressing)),
        0x8A => Some((Mnemonic::TXA, AddressingMode::NoneAddressing)),
        0x8C => Some((Mnemonic::STY, AddressingMode::Absolute)),
        0x8D => Some((Mnemonic::STA, AddressingMode::Absolute)),
        0x8E => Some((Mnemonic::STX, AddressingMode::Absolute)),
        0x90 => Some((Mnemonic::BCC, AddressingMode::Relative)),
        0x91 => Some((Mnemonic::STA, AddressingMode::Indirect_Y)),
        0x94 => Some((Mnemonic::STY, AddressingMode::ZeroPage_X)),
        0x95 => Some((Mnemonic::STA, AddressingMode::ZeroPage_X)),
        0x96 => Some((Mnemonic::STX, AddressingMode::ZeroPage_Y)),
        0x98 => Some((Mnemonic::TYA, AddressingMode::NoneAddressing)),
        0x99 => Some((Mnemonic::STA, AddressingMode::Absolute_Y)),
        0x9A => Some((Mnemonic::TXS, AddressingMode::NoneAddressing)),
        0x9D => Some((Mnemonic::STA, AddressingMode::Absolute_X)),
        0xA0 => Some((Mnemonic::LDY, AddressingMode::Immediate)),
        0xA1 => Some((Mnemonic::LDA, AddressingMode::Indirect_X)),
        0xA2 => Some((Mnemonic::LDX, AddressingMode::Immediate)),
        0xA4 => Some((Mnemonic::LDY, AddressingMode::ZeroPage)),
        0xA5 => Some((Mnemonic::LDA, AddressingMode::ZeroPage)),
        0xA6 => Some((Mnemonic::LDX, AddressingMode::ZeroPage)),
        0xA8 => Some((Mnemonic::TAY, AddressingMode::NoneAddressing)),
        0xA9 => Some((Mnemonic::LDA, AddressingMode::Immediate)),
        0xAA => Some((Mnemonic::TAX, AddressingMode::NoneAddressing)),
        0xAC => Some((Mnemonic::LDY, AddressingMode::Absolute)),
        0xAD => Some((Mnemonic::LDA, AddressingMode::Absolute)),
        0xAE => Some((Mnemonic::LDX, AddressingMode::Absolute)),
        0xB0 => Some((Mnemonic::BCS, AddressingMode::Relative)),
        0xB1 => Some((Mnemonic::LDA, AddressingMode::Indirect_Y)),
        0xB4 => Some((Mnemonic::LDY, AddressingMode::ZeroPage_X)),
        0xB5 => Some((Mnemonic::LDA, AddressingMode::ZeroPage_X)),
        0xB6 => Some((Mnemonic::LDX, AddressingMode::ZeroPage_Y)),
        0xB8 => Some((Mnemonic::CLV, AddressingMode::NoneAddressing)),
        0xB9 => Some((Mnemonic::LDA, AddressingMode::Absolute_Y)),
        0xBA => Some((Mnemonic::TSX, AddressingMode::NoneAddressing)),
        0xBC => Some((Mnemonic::LDY, AddressingMode::Absolute_X)),
        0xBD => Some((Mnemonic::LDA, AddressingMode::Absolute_X)),
        0xBE => Some((Mnemonic::LDX, AddressingMode::Absolute_Y)),
        0xC0 => Some((Mnemonic::CPY, AddressingMode::Immediate)),
        0xC1 => Some((Mnemonic::CMP, AddressingMode::Indirect_X)),
        0xC4 => Some((Mnemonic::CPY, AddressingMode::ZeroPage)),
        0xC5 => Some((Mnemonic::CMP, AddressingMode::ZeroPage)),
        0xC6 => Some((Mnemonic::DEC, AddressingMode::ZeroPage)),
        0xC8 => Some((Mnemonic::INY, AddressingMode::NoneAddressing)),
        0xC9 => Some((Mnemonic::CMP, AddressingMode::Immediate)),
        0xCA => Some((Mnemonic::DEX, AddressingMode::NoneAddressing)),
        0xCC => Some((Mnemonic::CPY, AddressingMode::Absolute)),
        0xCD => Some((Mnemonic::CMP, AddressingMode::Absolute)),
        0xCE => Some((Mnemonic::DEC, AddressingMode::Absolute)),
        0xD0 => Some((Mnemonic::BNE, AddressingMode::Relative)),
        0xD1 => Some((Mnemonic::CMP, AddressingMode::Indirect_Y)),
        0xD5 => Some((Mnemonic::CMP, AddressingMode::ZeroPage_X)),
        0xD6 => Some((Mnemonic::DEC, AddressingMode::ZeroPage_X)),
        0xD8 => Some((Mnemonic::CLD, AddressingMode::NoneAddressing)),
        0xD9 => Some((Mnemonic::CMP, AddressingMode::Absolute_Y)),
        0xDD => Some((Mnemonic::CMP, AddressingMode::Absolute_X)),
        0xDE => Some((Mnemonic::DEC, AddressingMode::Absolute_X)),
        0xE0 => Some((Mnemonic::CPX, AddressingMode::Immediate)),
        0xE1 => Some((Mnemonic::SBC, AddressingMode::Indirect_X)),
        0xE4 => Some((Mnemonic::CPX, AddressingMode::ZeroPage)),
        0xE5 => Some((Mnemonic::SBC, AddressingMode::ZeroPage)),
        0xE6 => Some((Mnemonic::INC, AddressingMode::ZeroPage)),
        0xE8 => Some((Mnemonic::INX, AddressingMode::NoneAddressing)),
        0xE9 => Some((Mnemonic::SBC, AddressingMode::Immediate)),
        0xEA => Some((Mnemonic::NOP, AddressingMode::NoneAddressing)),
        0xEC => Some((Mnemonic::CPX, AddressingMode::Absolute)),
        0xED => Some((Mnemonic::SBC, AddressingMode::Absolute)),
        0xEE => Some((Mnemonic::INC, AddressingMode::Absolute)),
        0xF0 => Some((Mnemonic::BEQ, AddressingMode::Relative)),
        0xF1 => Some((Mnemonic::SBC, AddressingMode::Indirect_Y)),
        0xF5 => Some((Mnemonic::SBC, AddressingMode::ZeroPage_X)),
        0xF6 => Some((Mnemonic::INC, AddressingMode::ZeroPage_X)),
        0xF8 => Some((Mnemonic::SED, AddressingMode::NoneAddressing)),
        0xF9 => Some((Mnemonic::SBC, AddressingMode::Absolute_Y)),
        0xFD => Some((Mnemonic::SBC, AddressingMode::Absolute_X)),
        0xFE => Some((Mnemonic::INC, AddressingMode::Absolute_X)),
        _ => None,
    }
}

/// How many bytes an instruction occupies: the opcode and its operand.
pub open spec fn spec_instruction_len(mode: AddressingMode) -> u8 {
    match mode {
        AddressingMode::NoneAddressing | AddressingMode::Accumulator => 1,
        AddressingMode::Absolute | AddressingMode::Absolute_X | AddressingMode::Absolute_Y
        | AddressingMode::Indirect => 3,
        _ => 2,
    }
}

/// One entry of the opcode table.
pub struct OpCode {
    code: u8,
    instruction: Mnemonic,
    mode: AddressingMode,
    bytes: u8,
}

impl OpCode {
    pub fn new(code: u8, instruction: Mnemonic, mode: AddressingMode) -> (r: OpCode)
        ensures
            r.spec_code() == code,
            r.spec_instruction() == instruction,
            r.spec_mode() == mode,
            r.spec_num_bytes() == spec_instruction_len(mode),
    {
        let bytes = match mode {
            AddressingMode::NoneAddressing | AddressingMode::Accumulator => 1,
            AddressingMode::Absolute | AddressingMode::Absolute_X | AddressingMode::Absolute_Y
            | AddressingMode::Indirect => 3,
            _ => 2,
        };
        OpCode { code, instruction, mode, bytes }
    }

    pub closed spec fn spec_code(&self) -> u8 {
        self.code
    }

    pub closed spec fn spec_instruction(&self) -> Mnemonic {
        self.instruction
    }

    pub closed spec fn spec_mode(&self) -> AddressingMode {
        self.mode
    }

    pub closed spec fn spec_num_bytes(&self) -> u8 {
        self.bytes
    }

    pub fn get_code(&self) -> (r: u8)
        ensures
            r == self.spec_code(),
    {
        self.code
    }

    pub fn get_instruction(&self) -> (r: Mnemonic)
        ensures
            r == self.spec_instruction(),
    {
        self.instruction
    }

    pub fn get_mode(&self) -> (r: &AddressingMode)
        ensures
            *r == self.spec_mode(),
    {
        &self.mode
    }

    pub fn get_num_bytes(&self) -> (r: u8)
        ensures
            r == self.spec_num_bytes(),
    {
        self.bytes
    }
}

/// Looks an opcode byte up in the table of official opcodes.
pub fn decode(code: u8) -> (r: Option<OpCode>)
    ensures
        match spec_decode(code) {
            None => r is None,
            Some((m, mode)) => r matches Some(op) && op.spec_code() == code && op.spec_instruction()
                == m && op.spec_mode() == mode && op.spec_num_bytes() == spec_instruction_len(mode),
        },
{
    match code {
        0x00 => Some(OpCode::new(code, Mnemonic::BRK, AddressingMode::NoneAddressing)),
        0x01 => Some(OpCode::new(code, Mnemonic::ORA, AddressingMode::Indirect_X)),
        0x05 => Some(OpCode::new(code, Mnemonic::ORA, AddressingMode::ZeroPage)),
        0x06 => Some(OpCode::new(code, Mnemonic::ASL, AddressingMode::ZeroPage)),
        0x08 => Some(OpCode::new(code, Mnemonic::PHP, AddressingMode::NoneAddressing)),
        0x09 => Some(OpCode::new(code, Mnemonic::ORA, AddressingMode::Immediate)),
        0x0A => Some(OpCode::new(code, Mnemonic::ASL, AddressingMode::Accumulator)),
        0x0D => Some(OpCode::new(code, Mnemonic::ORA, AddressingMode::Absolute)),
        0x0E => Some(OpCode::new(code, Mnemonic::ASL, AddressingMode::Absolute)),
        0x10 => Some(OpCode::new(code, Mnemonic::BPL, AddressingMode::Relative)),
        0x11 => Some(OpCode::new(code, Mnemonic::ORA, AddressingMode::Indirect_Y)),
        0x15 => Some(OpCode::new(code, Mnemonic::ORA, AddressingMode::ZeroPage_X)),
        0x16 => Some(OpCode::new(code, Mnemonic::ASL, AddressingMode::ZeroPage_X)),
        0x18 => Some(OpCode::new(code, Mnemonic::CLC, AddressingMode::NoneAddressing)),
        0x19 => Some(OpCode::new(code, Mnemonic::ORA, AddressingMode::Absolute_Y)),
        0x1D => Some(OpCode::new(code, Mnemonic::ORA, AddressingMode::Absolute_X)),
        0x1E => Some(OpCode::new(code, Mnemonic::ASL, AddressingMode::Absolute_X)),
        0x20 => Some(OpCode::new(code, Mnemonic::JSR, AddressingMode::Absolute)),
        0x21 => Some(OpCode::new(code, Mnemonic::AND, AddressingMode::Indirect_X)),
        0x24 => Some(OpCode::new(code, Mnemonic::BIT, AddressingMode::ZeroPage)),
        0x25 => Some(OpCode::new(code, Mnemonic::AND, AddressingMode::ZeroPage)),
        0x26 => Some(OpCode::new(code, Mnemonic::ROL, AddressingMode::ZeroPage)),
        0x28 => Some(OpCode::new(code, Mnemonic::PLP, AddressingMode::NoneAddressing)),
        0x29 => Some(OpCode::new(code, Mnemonic::AND, AddressingMode::Immediate)),
        0x2A => Some(OpCode::new(code, Mnemonic::ROL, AddressingMode::Accumulator)),
        0x2C => Some(OpCode::new(code, Mnemonic::BIT, AddressingMode::Absolute)),
        0x2D => Some(OpCode::new(code, Mnemonic::AND, AddressingMode::Absolute)),
        0x2E => Some(OpCode::new(code, Mnemonic::ROL, AddressingMode::Absolute)),
        0x30 => Some(OpCode::new(code, Mnemonic::BMI, AddressingMode::Relative)),
        0x31 => Some(OpCode::new(code, Mnemonic::AND, AddressingMode::Indirect_Y)),
        0x35 => Some(OpCode::new(code, Mnemonic::AND, AddressingMode::ZeroPage_X)),
        0x36 => Some(OpCode::new(code, Mnemonic::ROL, AddressingMode::ZeroPage_X)),
        0x38 => Some(OpCode::new(code, Mnemonic::SEC, AddressingMode::NoneAddressing)),
        0x39 => Some(OpCode::new(code, Mnemonic::AND, AddressingMode::Absolute_Y)),
        0x3D => Some(OpCode::new(code, Mnemonic::AND, AddressingMode::Absolute_X)),
        0x3E => Some(OpCode::new(code, Mnemonic::ROL, AddressingMode::Absolute_X)),
        0x40 => Some(OpCode::new(code, Mnemonic::RTI, AddressingMode::NoneAddressing)),
        0x41 => Some(OpCode::new(code, Mnemonic::EOR, AddressingMode::Indirect_X)),
        0x45 => Some(OpCode::new(code, Mnemonic::EOR, AddressingMode::ZeroPage)),
        0x46 => Some(OpCode::new(code, Mnemonic::LSR, AddressingMode::ZeroPage)),
        0x48 => Some(OpCode::new(code, Mnemonic::PHA, AddressingMode::NoneAddressing)),
        0x49 => Some(OpCode::new(code, Mnemonic::EOR, AddressingMode::Immediate)),
        0x4A => Some(OpCode::new(code, Mnemonic::LSR, AddressingMode::Accumulator)),
        0x4C => Some(OpCode::new(code, Mnemonic::JMP, AddressingMode::Absolute)),
        0x4D => Some(OpCode::new(code, Mnemonic::EOR, AddressingMode::Absolute)),
        0x4E => Some(OpCode::new(code, Mnemonic::LSR, AddressingMode::Absolute)),
        0x50 => Some(OpCode::new(code, Mnemonic::BVC, AddressingMode::Relative)),
        0x51 => Some(OpCode::new(code, Mnemonic::EOR, AddressingMode::Indirect_Y)),
        0x55 => Some(OpCode::new(code, Mnemonic::EOR, AddressingMode::ZeroPage_X)),
        0x56 => Some(OpCode::new(code, Mnemonic::LSR, AddressingMode::ZeroPage_X)),
        0x58 => Some(OpCode::new(code, Mnemonic::CLI, AddressingMode::NoneAddressing)),
        0x59 => Some(OpCode::new(code, Mnemonic::EOR, AddressingMode::Absolute_Y)),
        0x5D => Some(OpCode::new(code, Mnemonic::EOR, AddressingMode::Absolute_X)),
        0x5E => Some(OpCode::new(code, Mnemonic::LSR, AddressingMode::Absolute_X)),
        0x60 => Some(OpCode::new(code, Mnemonic::RTS, AddressingMode::NoneAddressing)),
        0x61 => Some(OpCode::new(code, Mnemonic::ADC, AddressingMode::Indirect_X)),
        0x65 => Some(OpCode::new(code, Mnemonic::ADC, AddressingMode::ZeroPage)),
        0x66 => Some(OpCode::new(code, Mnemonic::ROR, AddressingMode::ZeroPage)),
        0x68 => Some(OpCode::new(code, Mnemonic::PLA, AddressingMode::NoneAddressing)),
        0x69 => Some(OpCode::new(code, Mnemonic::ADC, AddressingMode::Immediate)),
        0x6A => Some(OpCode::new(code, Mnemonic::ROR, AddressingMode::Accumulator)),
        0x6C => Some(OpCode::new(code, Mnemonic::JMP, AddressingMode::Indirect)),
        0x6D => Some(OpCode::new(code, Mnemonic::ADC, AddressingMode::Absolute)),
        0x6E => Some(OpCode::new(code, Mnemonic::ROR, AddressingMode::Absolute)),
        0x70 => Some(OpCode::new(code, Mnemonic::BVS, AddressingMode::Relative)),
        0x71 => Some(OpCode::new(code, Mnemonic::ADC, AddressingMode::Indirect_Y)),
        0x75 => Some(OpCode::new(code, Mnemonic::ADC, AddressingMode::ZeroPage_X)),
        0x76 => Some(OpCode::new(code, Mnemonic::ROR, AddressingMode::ZeroPage_X)),
        0x78 => Some(OpCode::new(code, Mnemonic::SEI, AddressingMode::NoneAddressing)),
        0x79 => Some(OpCode::new(code, Mnemonic::ADC, AddressingMode::Absolute_Y)),
        0x7D => Some(OpCode::new(code, Mnemonic::ADC, AddressingMode::Absolute_X)),
        0x7E => Some(OpCode::new(code, Mnemonic::ROR, AddressingMode::Absolute_X)),
        0x81 => Some(OpCode::new(code, Mnemonic::STA, AddressingMode::Indirect_X)),
        0x84 => Some(OpCode::new(code, Mnemonic::STY, AddressingMode::ZeroPage)),
        0x85 => Some(OpCode::new(code, Mnemonic::STA, AddressingMode::ZeroPage)),
        0x86 => Some(OpCode::new(code, Mnemonic::STX, AddressingMode::ZeroPage)),
        0x88 => Some(OpCode::new(code, Mnemonic::DEY, AddressingMode::NoneAddressing)),
        0x8A => Some(OpCode::new(code, Mnemonic::TXA, AddressingMode::NoneAddressing)),
        0x8C => Some(OpCode::new(code, Mnemonic::STY, AddressingMode::Absolute)),
        0x8D => Some(OpCode::new(code, Mnemonic::STA, AddressingMode::Absolute)),
        0x8E => Some(OpCode::new(code, Mnemonic::STX, AddressingMode::Absolute)),
        0x90 => Some(OpCode::new(code, Mnemonic::BCC, AddressingMode::Relative)),
        0x91 => Some(OpCode::new(code, Mnemonic::STA, AddressingMode::Indirect_Y)),
        0x94 => Some(OpCode::new(code, Mnemonic::STY, AddressingMode::ZeroPage_X)),
        0x95 => Some(OpCode::new(code, Mnemonic::STA, AddressingMode::ZeroPage_X)),
        0x96 => Some(OpCode::new(code, Mnemonic::STX, AddressingMode::ZeroPage_Y)),
        0x98 => Some(OpCode::new(code, Mnemonic::TYA, AddressingMode::NoneAddressing)),
        0x99 => Some(OpCode::new(code, Mnemonic::STA, AddressingMode::Absolute_Y)),
        0x9A => Some(OpCode::new(code, Mnemonic::TXS, AddressingMode::NoneAddressing)),
        0x9D => Some(OpCode::new(code, Mnemonic::STA, AddressingMode::Absolute_X)),
        0xA0 => Some(OpCode::new(code, Mnemonic::LDY, AddressingMode::Immediate)),
        0xA1 => Some(OpCode::new(code, Mnemonic::LDA, AddressingMode::Indirect_X)),
        0xA2 => Some(OpCode::new(code, Mnemonic::LDX, AddressingMode::Immediate)),
        0xA4 => Some(OpCode::new(code, Mnemonic::LDY, AddressingMode::ZeroPage)),
        0xA5 => Some(OpCode::new(code, Mnemonic::LDA, AddressingMode::ZeroPage)),
        0xA6 => Some(OpCode::new(code, Mnemonic::LDX, AddressingMode::ZeroPage)),
        0xA8 => Some(OpCode::new(code, Mnemonic::TAY, AddressingMode::NoneAddressing)),
        0xA9 => Some(OpCode::new(code, Mnemonic::LDA, AddressingMode::Immediate)),
        0xAA => Some(OpCode::new(code, Mnemonic::TAX, AddressingMode::NoneAddressing)),
        0xAC => Some(OpCode::new(code, Mnemonic::LDY, AddressingMode::Absolute)),
        0xAD => Some(OpCode::new(code, Mnemonic::LDA, AddressingMode::Absolute)),
        0xAE => Some(OpCode::new(code, Mnemonic::LDX, AddressingMode::Absolute)),
        0xB0 => Some(OpCode::new(code, Mnemonic::BCS, AddressingMode::Relative)),
        0xB1 => Some(OpCode::new(code, Mnemonic::LDA, AddressingMode::Indirect_Y)),
        0xB4 => Some(OpCode::new(code, Mnemonic::LDY, AddressingMode::ZeroPage_X)),
        0xB5 => Some(OpCode::new(code, Mnemonic::LDA, AddressingMode::ZeroPage_X)),
        0xB6 => Some(OpCode::new(code, Mnemonic::LDX, AddressingMode::ZeroPage_Y)),
        0xB8 => Some(OpCode::new(code, Mnemonic::CLV, AddressingMode::NoneAddressing)),
        0xB9 => Some(OpCode::new(code, Mnemonic::LDA, AddressingMode::Absolute_Y)),
        0xBA => Some(OpCode::new(code, Mnemonic::TSX, AddressingMode::NoneAddressing)),
        0xBC => Some(OpCode::new(code, Mnemonic::LDY, AddressingMode::Absolute_X)),
        0xBD => Some(OpCode::new(code, Mnemonic::LDA, AddressingMode::Absolute_X)),
        0xBE => Some(OpCode::new(code, Mnemonic::LDX, AddressingMode::Absolute_Y)),
        0xC0 => Some(OpCode::new(code, Mnemonic::CPY, AddressingMode::Immediate)),
        0xC1 => Some(OpCode::new(code, Mnemonic::CMP, AddressingMode::Indirect_X)),
        0xC4 => Some(OpCode::new(code, Mnemonic::CPY, AddressingMode::ZeroPage)),
        0xC5 => Some(OpCode::new(code, Mnemonic::CMP, AddressingMode::ZeroPage)),
        0xC6 => Some(OpCode::new(code, Mnemonic::DEC, AddressingMode::ZeroPage)),
        0xC8 => Some(OpCode::new(code, Mnemonic::INY, AddressingMode::NoneAddressing)),
        0xC9 => Some(OpCode::new(code, Mnemonic::CMP, AddressingMode::Immediate)),
        0xCA => Some(OpCode::new(code, Mnemonic::DEX, AddressingMode::NoneAddressing)),
        0xCC => Some(OpCode::new(code, Mnemonic::CPY, AddressingMode::Absolute)),
        0xCD => Some(OpCode::new(code, Mnemonic::CMP, AddressingMode::Absolute)),
        0xCE => Some(OpCode::new(code, Mnemonic::DEC, AddressingMode::Absolute)),
        0xD0 => Some(OpCode::new(code, Mnemonic::BNE, AddressingMode::Relative)),
        0xD1 => Some(OpCode::new(code, Mnemonic::CMP, AddressingMode::Indirect_Y)),
        0xD5 => Some(OpCode::new(code, Mnemonic::CMP, AddressingMode::ZeroPage_X)),
        0xD6 => Some(OpCode::new(code, Mnemonic::DEC, AddressingMode::ZeroPage_X)),
        0xD8 => Some(OpCode::new(code, Mnemonic::CLD, AddressingMode::NoneAddressing)),
        0xD9 => Some(OpCode::new(code, Mnemonic::CMP, AddressingMode::Absolute_Y)),
        0xDD => Some(OpCode::new(code, Mnemonic::CMP, AddressingMode::Absolute_X)),
        0xDE => Some(OpCode::new(code, Mnemonic::DEC, AddressingMode::Absolute_X)),
        0xE0 => Some(OpCode::new(code, Mnemonic::CPX, AddressingMode::Immediate)),
        0xE1 => Some(OpCode::new(code, Mnemonic::SBC, AddressingMode::Indirect_X)),
        0xE4 => Some(OpCode::new(code, Mnemonic::CPX, AddressingMode::ZeroPage)),
        0xE5 => Some(OpCode::new(code, Mnemonic::SBC, AddressingMode::ZeroPage)),
        0xE6 => Some(OpCode::new(code, Mnemonic::INC, AddressingMode::ZeroPage)),
        0xE8 => Some(OpCode::new(code, Mnemonic::INX, AddressingMode::NoneAddressing)),
        0xE9 => Some(OpCode::new(code, Mnemonic::SBC, AddressingMode::Immediate)),
        0xEA => Some(OpCode::new(code, Mnemonic::NOP, AddressingMode::NoneAddressing)),
        0xEC => Some(OpCode::new(code, Mnemonic::CPX, AddressingMode::Absolute)),
        0xED => Some(OpCode::new(code, Mnemonic::SBC, AddressingMode::Absolute)),
        0xEE => Some(OpCode::new(code, Mnemonic::INC, AddressingMode::Absolute)),
        0xF0 => Some(OpCode::new(code, Mnemonic::BEQ, AddressingMode::Relative)),
        0xF1 => Some(OpCode::new(code, Mnemonic::SBC, AddressingMode::Indirect_Y)),
        0xF5 => Some(OpCode::new(code, Mnemonic::SBC, AddressingMode::ZeroPage_X)),
        0xF6 => Some(OpCode::new(code, Mnemonic::INC, AddressingMode::ZeroPage_X)),
        0xF8 => Some(OpCode::new(code, Mnemonic::SED, AddressingMode::NoneAddressing)),
        0xF9 => Some(OpCode::new(code, Mnemonic::SBC, AddressingMode::Absolute_Y)),
        0xFD => Some(OpCode::new(code, Mnemonic::SBC, AddressingMode::Absolute_X)),
        0xFE => Some(OpCode::new(code, Mnemonic::INC, AddressingMode::Absolute_X)),
        _ => None,
    }
}

} // verus!
