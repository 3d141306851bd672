use vstd::prelude::*;

use crate::addressing_modes::AddressingMode;
use crate::bus::{lemma_ram_access, RAM_MIRRORS_END};
use crate::cpu::{
    lemma_load_keeps_cpu, lemma_operand_keeps_registers, lemma_store_ignores_flags, lemma_with_flag,
    lemma_with_zn, spec_is_flag_bit, spec_flag, spec_with_flag, CpuView, CARRY_FLAG, DECIMAL_FLAG, INTERRUPT_FLAG, NEGATIVE_FLAG,
    OVERFLOW_FLAG, ZERO_FLAG,
};
use crate::cpu::{lemma_adc_flags, lemma_branch, lemma_compare_flags, lemma_sbc_flags, spec_signed};
use crate::opcodes::{spec_decode, spec_instruction_len, Mnemonic};
use crate::memory::next_address;

verus! {

/// The byte of RAM that `address` ($0000-$1FFF) selects.
pub open spec fn ram_at(s: CpuView, address: int) -> u8 {
    s.bus.ram[address % 2048]
}

/// `t` holds the zero and negative flags of `v`, and every other flag of `s`.
pub open spec fn zn_of(t: CpuView, s: CpuView, v: u8) -> bool {
    &&& t.zero() == (v == 0)
    &&& t.negative() == (v >= 0x80)
    &&& t.p & 0b0111_1101 == s.p & 0b0111_1101
}

/// Law: where an instruction's operand bytes and pointers lie in RAM, its operand
/// address is, with `b0` and `b1` the operand bytes:
/// - `Immediate` and `Relative`: the address of the operand byte itself;
/// - zero page: `b0`, plus X or Y wrapping inside the zero page;
/// - absolute: `b1 * 256 + b0`, plus X or Y wrapping at 16 bits (so it can
///   cross into the next page);
/// - `Indirect_X`: the little-endian vector at `b0 + X` in the zero page, its
///   high byte from the next zero page byte;
/// - `Indirect_Y`: the vector at `b0` in the zero page, plus Y wrapping at 16
///   bits (so it can cross into the next page);
/// - `Indirect`: the vector at `b1 * 256 + b0`, whose high byte comes from the
///   start of the same page when the vector sits at the end of a page.
/// Computing it changes nothing.
pub proof fn lemma_operand_address_in_ram(mode: AddressingMode, pc: u16, s: CpuView)
    requires
        pc < RAM_MIRRORS_END,
        mode is Indirect ==> (ram_at(s, pc + 1) * 256 + ram_at(s, pc as int)) < RAM_MIRRORS_END,
        mode.has_operand_address(),
    ensures
        mode.operand_ok(pc, s),
        mode.operand(pc, s).0 == s,
        ({
            let b0 = ram_at(s, pc as int);
            let b1 = ram_at(s, pc + 1);
            let address = mode.operand(pc, s).1 as int;
            match mode {
                AddressingMode::Immediate | AddressingMode::Relative => address == pc,
                AddressingMode::ZeroPage => address == b0,
                AddressingMode::ZeroPage_X => address == (b0 + s.x) % 256,
                AddressingMode::ZeroPage_Y => address == (b0 + s.y) % 256,
                AddressingMode::Absolute => address == b1 * 256 + b0,
                AddressingMode::Absolute_X => address == (b1 * 256 + b0 + s.x) % 0x10000,
                AddressingMode::Absolute_Y => address == (b1 * 256 + b0 + s.y) % 0x10000,
                AddressingMode::Indirect_X => {
                    let pointer = (b0 + s.x) % 256;
                    address == ram_at(s, (pointer + 1) % 256) * 256 + ram_at(s, pointer)
                },
                AddressingMode::Indirect_Y => address == (ram_at(s, (b0 + 1) % 256) * 256 + ram_at(
                    s,
                    b0 as int,
                ) + s.y) % 0x10000,
                AddressingMode::Indirect => {
                    let vector = b1 * 256 + b0;
                    let high_at = if vector % 256 == 0xFF {
                        vector - 0xFF
                    } else {
                        vector + 1
                    };
                    address == ram_at(s, high_at) * 256 + ram_at(s, vector)
                },
                _ => true,
            }
        }),
{
    match mode {
        AddressingMode::ZeroPage | AddressingMode::ZeroPage_X | AddressingMode::ZeroPage_Y => {
            operand_in_ram_zero_page(mode, pc, s)
        },
        AddressingMode::Absolute | AddressingMode::Absolute_X | AddressingMode::Absolute_Y => {
            operand_in_ram_absolute(mode, pc, s)
        },
        AddressingMode::Indirect_X => operand_in_ram_indexed_indirect(pc, s),
        AddressingMode::Indirect_Y => operand_in_ram_indirect_indexed(pc, s),
        AddressingMode::Indirect => operand_in_ram_indirect(pc, s),
        _ => {
            reveal(AddressingMode::operand_ok);
            reveal(AddressingMode::operand);
        },
    }
}

proof fn operand_in_ram_zero_page(mode: AddressingMode, pc: u16, s: CpuView)
    requires
        pc < RAM_MIRRORS_END,
        mode is ZeroPage || mode is ZeroPage_X || mode is ZeroPage_Y,
    ensures
        mode.operand_ok(pc, s),
        mode.operand(pc, s).0 == s,
        mode is ZeroPage ==> mode.operand(pc, s).1 == ram_at(s, pc as int),
        mode is ZeroPage_X ==> mode.operand(pc, s).1 == (ram_at(s, pc as int) + s.x) % 256,
        mode is ZeroPage_Y ==> mode.operand(pc, s).1 == (ram_at(s, pc as int) + s.y) % 256,
{
    reveal(AddressingMode::operand_ok);
    reveal(AddressingMode::operand);
    lemma_ram_access(s.bus, pc, 0);
}

proof fn operand_in_ram_absolute(mode: AddressingMode, pc: u16, s: CpuView)
    requires
        pc < RAM_MIRRORS_END,
        mode is Absolute || mode is Absolute_X || mode is Absolute_Y,
    ensures
        mode.operand_ok(pc, s),
        mode.operand(pc, s).0 == s,
        ({
            let v = ram_at(s, pc + 1) * 256 + ram_at(s, pc as int);
            &&& mode is Absolute ==> mode.operand(pc, s).1 == v
            &&& mode is Absolute_X ==> mode.operand(pc, s).1 == (v + s.x) % 0x10000
            &&& mode is Absolute_Y ==> mode.operand(pc, s).1 == (v + s.y) % 0x10000
        }),
{
    reveal(AddressingMode::operand_ok);
    reveal(AddressingMode::operand);
    lemma_ram_access(s.bus, pc, 0);
    lemma_ram_access(s.bus, (pc + 1) as u16, 0);
}

proof fn operand_in_ram_indexed_indirect(pc: u16, s: CpuView)
    requires
        pc < RAM_MIRRORS_END,
    ensures
        AddressingMode::Indirect_X.operand_ok(pc, s),
        AddressingMode::Indirect_X.operand(pc, s).0 == s,
        ({
            let pointer = (ram_at(s, pc as int) + s.x) % 256;
            AddressingMode::Indirect_X.operand(pc, s).1 == ram_at(s, (pointer + 1) % 256) * 256
                + ram_at(s, pointer)
        }),
{
    reveal(AddressingMode::operand_ok);
    reveal(AddressingMode::operand);
    lemma_ram_access(s.bus, pc, 0);
    let pointer = (ram_at(s, pc as int) + s.x) % 256;
    lemma_ram_access(s.bus, pointer as u16, 0);
    lemma_ram_access(s.bus, ((pointer + 1) % 256) as u16, 0);
}

proof fn operand_in_ram_indirect_indexed(pc: u16, s: CpuView)
    requires
        pc < RAM_MIRRORS_END,
    ensures
        AddressingMode::Indirect_Y.operand_ok(pc, s),
        AddressingMode::Indirect_Y.operand(pc, s).0 == s,
        ({
            let b0 = ram_at(s, pc as int);
            AddressingMode::Indirect_Y.operand(pc, s).1 == (ram_at(s, (b0 + 1) % 256) * 256
                + ram_at(s, b0 as int) + s.y) % 0x10000
        }),
{
    reveal(AddressingMode::operand_ok);
    reveal(AddressingMode::operand);
    lemma_ram_access(s.bus, pc, 0);
    let b0 = ram_at(s, pc as int);
    lemma_ram_access(s.bus, b0 as u16, 0);
    lemma_ram_access(s.bus, ((b0 + 1) % 256) as u16, 0);
}

proof fn operand_in_ram_indirect(pc: u16, s: CpuView)
    requires
        pc < RAM_MIRRORS_END,
        (ram_at(s, pc + 1) * 256 + ram_at(s, pc as int)) < RAM_MIRRORS_END,
    ensures
        AddressingMode::Indirect.operand_ok(pc, s),
        AddressingMode::Indirect.operand(pc, s).0 == s,
        ({
            let vector = ram_at(s, pc + 1) * 256 + ram_at(s, pc as int);
            let high_at = if vector % 256 == 0xFF {
                vector - 0xFF
            } else {
                vector + 1
            };
            AddressingMode::Indirect.operand(pc, s).1 == ram_at(s, high_at) * 256 + ram_at(
                s,
                vector,
            )
        }),
{
    reveal(AddressingMode::operand_ok);
    reveal(AddressingMode::operand);
    lemma_ram_access(s.bus, pc, 0);
    lemma_ram_access(s.bus, (pc + 1) as u16, 0);
    let vector = ram_at(s, pc + 1) * 256 + ram_at(s, pc as int);
    lemma_ram_access(s.bus, vector as u16, 0);
    if vector % 256 == 0xFF {
        lemma_ram_access(s.bus, (vector - 0xFF) as u16, 0);
    } else {
        lemma_ram_access(s.bus, (vector + 1) as u16, 0);
    }
}

/// Law: LDA, LDX and LDY put the operand in their register; AND, EOR and ORA put
/// A AND, XOR or OR the operand in A. Each sets zero and negative from the new
/// value and keeps every other flag, the other registers and PC; only fetching
/// the operand touches the bus.
pub proof fn lemma_load_instructions(s: CpuView, mode: AddressingMode)
    ensures
        ({
            let (s1, m) = s.load(mode);
            let lda = s.execute(Mnemonic::LDA, mode);
            let ldx = s.execute(Mnemonic::LDX, mode);
            let ldy = s.execute(Mnemonic::LDY, mode);
            let and = s.execute(Mnemonic::AND, mode);
            let eor = s.execute(Mnemonic::EOR, mode);
            let ora = s.execute(Mnemonic::ORA, mode);
            &&& lda == (CpuView { a: m, p: lda.p, ..s1 }) && zn_of(lda, s, m)
            &&& ldx == (CpuView { x: m, p: ldx.p, ..s1 }) && zn_of(ldx, s, m)
            &&& ldy == (CpuView { y: m, p: ldy.p, ..s1 }) && zn_of(ldy, s, m)
            &&& and == (CpuView { a: s.a & m, p: and.p, ..s1 }) && zn_of(and, s, s.a & m)
            &&& eor == (CpuView { a: s.a ^ m, p: eor.p, ..s1 }) && zn_of(eor, s, s.a ^ m)
            &&& ora == (CpuView { a: s.a | m, p: ora.p, ..s1 }) && zn_of(ora, s, s.a | m)
            &&& s1.a == s.a && s1.x == s.x && s1.y == s.y && s1.p == s.p && s1.pc == s.pc
                && s1.sp == s.sp && s1.bus.ram == s.bus.ram
        }),
{
    reveal(CpuView::execute_load);
    reveal(CpuView::lda);
    reveal(CpuView::ldx);
    reveal(CpuView::ldy);
    reveal(CpuView::and);
    reveal(CpuView::eor);
    reveal(CpuView::ora);
    lemma_load_keeps_cpu(s, mode);
    let (s1, m) = s.load(mode);
    lemma_with_zn(CpuView { a: m, ..s1 }, m);
    lemma_with_zn(CpuView { x: m, ..s1 }, m);
    lemma_with_zn(CpuView { y: m, ..s1 }, m);
    lemma_with_zn(CpuView { a: s1.a & m, ..s1 }, s1.a & m);
    lemma_with_zn(CpuView { a: s1.a ^ m, ..s1 }, s1.a ^ m);
    lemma_with_zn(CpuView { a: s1.a | m, ..s1 }, s1.a | m);
}

/// `t` holds flag `mask` as `on`, and every other flag of `s`.
pub open spec fn only_flag_set(t: CpuView, s: CpuView, mask: u8, on: bool) -> bool {
    &&& spec_flag(t.p, mask) == on
    &&& forall|f: u8|
        #![trigger spec_flag(t.p, f)]
        spec_is_flag_bit(f) && f != mask ==> spec_flag(t.p, f) == spec_flag(s.p, f)
}

/// Law: STA, STX and STY write their register at the operand address (in RAM,
/// the byte that the address selects becomes the register); registers and flags
/// stay as they were.
pub proof fn lemma_store_instructions(s: CpuView, mode: AddressingMode)
    ensures
        ({
            let (s1, address) = mode.operand(s.pc, s);
            let sta = s.execute(Mnemonic::STA, mode);
            let stx = s.execute(Mnemonic::STX, mode);
            let sty = s.execute(Mnemonic::STY, mode);
            &&& sta == s1.write(address, s.a)
            &&& stx == s1.write(address, s.x)
            &&& sty == s1.write(address, s.y)
            &&& s1.a == s.a && s1.x == s.x && s1.y == s.y && s1.p == s.p && s1.pc == s.pc && s1.sp
                == s.sp && s1.bus.ram == s.bus.ram
            &&& address <= RAM_MIRRORS_END ==> sta.bus.ram == s.bus.ram.update(address as int % 2048, s.a)
                && stx.bus.ram == s.bus.ram.update(address as int % 2048, s.x) && sty.bus.ram
                == s.bus.ram.update(address as int % 2048, s.y)
        }),
{
    reveal(CpuView::execute_store);
    reveal(CpuView::sta);
    reveal(CpuView::stx);
    reveal(CpuView::sty);
    lemma_operand_keeps_registers(mode, s.pc, s);
    let (s1, address) = mode.operand(s.pc, s);
    if address <= RAM_MIRRORS_END {
        lemma_ram_access(s1.bus, address, s.a);
        lemma_ram_access(s1.bus, address, s.x);
        lemma_ram_access(s1.bus, address, s.y);
    }
}

/// Law: the transfers copy one register into another, the increments and
/// decrements step X or Y by one (wrapping), each setting zero and negative from
/// the new value and keeping every other flag; TXS copies X into SP and changes
/// no flag. Nothing else changes.
pub proof fn lemma_register_instructions(s: CpuView)
    ensures
        ({
            let tax = s.execute(Mnemonic::TAX, AddressingMode::NoneAddressing);
            let tay = s.execute(Mnemonic::TAY, AddressingMode::NoneAddressing);
            let txa = s.execute(Mnemonic::TXA, AddressingMode::NoneAddressing);
            let tya = s.execute(Mnemonic::TYA, AddressingMode::NoneAddressing);
            let tsx = s.execute(Mnemonic::TSX, AddressingMode::NoneAddressing);
            let txs = s.execute(Mnemonic::TXS, AddressingMode::NoneAddressing);
            let inx = s.execute(Mnemonic::INX, AddressingMode::NoneAddressing);
            let iny = s.execute(Mnemonic::INY, AddressingMode::NoneAddressing);
            let dex = s.execute(Mnemonic::DEX, AddressingMode::NoneAddressing);
            let dey = s.execute(Mnemonic::DEY, AddressingMode::NoneAddressing);
            let x1 = ((s.x + 1) % 256) as u8;
            let y1 = ((s.y + 1) % 256) as u8;
            let x0 = ((s.x + 255) % 256) as u8;
            let y0 = ((s.y + 255) % 256) as u8;
            &&& tax == (CpuView { x: s.a, p: tax.p, ..s }) && zn_of(tax, s, s.a)
            &&& tay == (CpuView { y: s.a, p: tay.p, ..s }) && zn_of(tay, s, s.a)
            &&& txa == (CpuView { a: s.x, p: txa.p, ..s }) && zn_of(txa, s, s.x)
            &&& tya == (CpuView { a: s.y, p: tya.p, ..s }) && zn_of(tya, s, s.y)
            &&& tsx == (CpuView { x: s.sp, p: tsx.p, ..s }) && zn_of(tsx, s, s.sp)
            &&& txs == (CpuView { sp: s.x, ..s })
            &&& inx == (CpuView { x: x1, p: inx.p, ..s }) && zn_of(inx, s, x1)
            &&& iny == (CpuView { y: y1, p: iny.p, ..s }) && zn_of(iny, s, y1)
            &&& dex == (CpuView { x: x0, p: dex.p, ..s }) && zn_of(dex, s, x0)
            &&& dey == (CpuView { y: y0, p: dey.p, ..s }) && zn_of(dey, s, y0)
            &&& x1 == if s.x == 255 { 0 } else { s.x + 1 }
            &&& x0 == if s.x == 0 { 255 } else { s.x - 1 }
        }),
{
    lemma_with_zn(CpuView { x: s.a, ..s }, s.a);
    lemma_with_zn(CpuView { y: s.a, ..s }, s.a);
    lemma_with_zn(CpuView { a: s.x, ..s }, s.x);
    lemma_with_zn(CpuView { a: s.y, ..s }, s.y);
    lemma_with_zn(CpuView { x: s.sp, ..s }, s.sp);
    lemma_with_zn(CpuView { x: ((s.x + 1) % 256) as u8, ..s }, ((s.x + 1) % 256) as u8);
    lemma_with_zn(CpuView { y: ((s.y + 1) % 256) as u8, ..s }, ((s.y + 1) % 256) as u8);
    lemma_with_zn(CpuView { x: ((s.x + 255) % 256) as u8, ..s }, ((s.x + 255) % 256) as u8);
    lemma_with_zn(CpuView { y: ((s.y + 255) % 256) as u8, ..s }, ((s.y + 255) % 256) as u8);
}

/// Setting one flag keeps every other one.
proof fn flag_set_keeps_others(s: CpuView, mask: u8, on: bool)
    requires
        spec_is_flag_bit(mask),
    ensures
        only_flag_set(s.with_flag(mask, on), s, mask, on),
        s.with_flag(mask, on) == (CpuView { p: s.with_flag(mask, on).p, ..s }),
{
    lemma_with_flag(s.p, mask, on, mask);
    assert forall|f: u8| spec_is_flag_bit(f) && f != mask implies spec_flag(s.with_flag(mask, on).p, f)
        == spec_flag(s.p, f) by {
        lemma_with_flag(s.p, mask, on, f);
    }
}

/// Law: CLC, CLD, CLI and CLV clear one flag, SEC, SED and SEI set one; every
/// other flag, register and the memory stay as they were.
pub proof fn lemma_flag_instructions(s: CpuView)
    ensures
        ({
            let n = AddressingMode::NoneAddressing;
            let clc = s.execute(Mnemonic::CLC, n);
            let cld = s.execute(Mnemonic::CLD, n);
            let cli = s.execute(Mnemonic::CLI, n);
            let clv = s.execute(Mnemonic::CLV, n);
            let sec = s.execute(Mnemonic::SEC, n);
            let sed = s.execute(Mnemonic::SED, n);
            let sei = s.execute(Mnemonic::SEI, n);
            &&& clc == (CpuView { p: clc.p, ..s }) && only_flag_set(clc, s, CARRY_FLAG, false)
            &&& cld == (CpuView { p: cld.p, ..s }) && only_flag_set(cld, s, DECIMAL_FLAG, false)
            &&& cli == (CpuView { p: cli.p, ..s }) && only_flag_set(cli, s, INTERRUPT_FLAG, false)
            &&& clv == (CpuView { p: clv.p, ..s }) && only_flag_set(clv, s, OVERFLOW_FLAG, false)
            &&& sec == (CpuView { p: sec.p, ..s }) && only_flag_set(sec, s, CARRY_FLAG, true)
            &&& sed == (CpuView { p: sed.p, ..s }) && only_flag_set(sed, s, DECIMAL_FLAG, true)
            &&& sei == (CpuView { p: sei.p, ..s }) && only_flag_set(sei, s, INTERRUPT_FLAG, true)
        }),
{
    flag_set_keeps_others(s, CARRY_FLAG, false);
    flag_set_keeps_others(s, DECIMAL_FLAG, false);
    flag_set_keeps_others(s, INTERRUPT_FLAG, false);
    flag_set_keeps_others(s, OVERFLOW_FLAG, false);
    flag_set_keeps_others(s, CARRY_FLAG, true);
    flag_set_keeps_others(s, DECIMAL_FLAG, true);
    flag_set_keeps_others(s, INTERRUPT_FLAG, true);
}

/// `t` holds carry `c` and the zero and negative flags of `v`, and every other
/// flag of `s`.
pub open spec fn czn_of(t: CpuView, s: CpuView, v: u8, c: bool) -> bool {
    &&& t.carry() == c
    &&& t.zero() == (v == 0)
    &&& t.negative() == (v >= 0x80)
    &&& forall|f: u8|
        #![trigger spec_flag(t.p, f)]
        spec_is_flag_bit(f) && f != CARRY_FLAG && f != ZERO_FLAG && f != NEGATIVE_FLAG ==> spec_flag(
            t.p,
            f,
        ) == spec_flag(s.p, f)
}

/// The flag bits after setting carry to `c` (and, first, negative when
/// `negative_first`), then zero and negative from `r`.
proof fn czn_bits(s: CpuView, t: CpuView, c: bool, negative_first: bool, r: u8)
    requires
        ({
            let p1 = spec_with_flag(s.p, CARRY_FLAG, c);
            let p2 = if negative_first {
                spec_with_flag(p1, NEGATIVE_FLAG, r >= 0x80)
            } else {
                p1
            };
            t.p == spec_with_flag(spec_with_flag(p2, ZERO_FLAG, r == 0), NEGATIVE_FLAG, r >= 0x80)
        }),
    ensures
        czn_of(t, s, r, c),
{
    let p1 = spec_with_flag(s.p, CARRY_FLAG, c);
    let p2 = if negative_first {
        spec_with_flag(p1, NEGATIVE_FLAG, r >= 0x80)
    } else {
        p1
    };
    let p3 = spec_with_flag(p2, ZERO_FLAG, r == 0);
    lemma_with_flag(s.p, CARRY_FLAG, c, CARRY_FLAG);
    lemma_with_flag(p1, NEGATIVE_FLAG, r >= 0x80, CARRY_FLAG);
    lemma_with_flag(p2, ZERO_FLAG, r == 0, CARRY_FLAG);
    lemma_with_flag(p2, ZERO_FLAG, r == 0, ZERO_FLAG);
    lemma_with_flag(p3, NEGATIVE_FLAG, r >= 0x80, CARRY_FLAG);
    lemma_with_flag(p3, NEGATIVE_FLAG, r >= 0x80, ZERO_FLAG);
    lemma_with_flag(p3, NEGATIVE_FLAG, r >= 0x80, NEGATIVE_FLAG);
    assert forall|f: u8|
        spec_is_flag_bit(f) && f != CARRY_FLAG && f != ZERO_FLAG && f != NEGATIVE_FLAG implies spec_flag(
        t.p,
        f,
    ) == spec_flag(s.p, f) by {
        lemma_with_flag(s.p, CARRY_FLAG, c, f);
        lemma_with_flag(p1, NEGATIVE_FLAG, r >= 0x80, f);
        lemma_with_flag(p2, ZERO_FLAG, r == 0, f);
        lemma_with_flag(p3, NEGATIVE_FLAG, r >= 0x80, f);
    }
}

/// Where a read-modify-write result goes: to A without an operand address, else
/// stored at the operand address.
pub open spec fn modified(s: CpuView, s1: CpuView, mode: AddressingMode, r: u8, p: u8) -> CpuView {
    if !mode.has_operand_address() {
        CpuView { a: r, p, ..s }
    } else {
        CpuView { p, ..s1.store(mode, r) }
    }
}

/// Law: ASL shifts its operand left (bit 7 to carry, 0 into bit 0), LSR right
/// (bit 0 to carry, 0 into bit 7), ROL left and ROR right through the carry (the
/// old carry enters at bit 0 or bit 7). The operand is A in accumulator mode,
/// else the byte at the operand address; the result goes back to the same place.
/// Zero and negative follow the result; every other flag stays.
pub proof fn lemma_shift_instructions(s: CpuView, mode: AddressingMode)
    ensures
        ({
            let (s1, m) = s.modify_source(mode);
            let c: int = if s.carry() {
                1
            } else {
                0
            };
            let asl = s.execute(Mnemonic::ASL, mode);
            let lsr = s.execute(Mnemonic::LSR, mode);
            let rol = s.execute(Mnemonic::ROL, mode);
            let ror = s.execute(Mnemonic::ROR, mode);
            let r_asl = ((m * 2) % 256) as u8;
            let r_lsr = (m / 2) as u8;
            let r_rol = ((m * 2) % 256 + c) as u8;
            let r_ror = (m / 2 + 128 * c) as u8;
            &&& !mode.has_operand_address() ==> m == s.a
            &&& asl == modified(s, s1, mode, r_asl, asl.p) && czn_of(asl, s, r_asl, m >= 0x80)
            &&& lsr == modified(s, s1, mode, r_lsr, lsr.p) && czn_of(lsr, s, r_lsr, m % 2 == 1)
            &&& rol == modified(s, s1, mode, r_rol, rol.p) && czn_of(rol, s, r_rol, m >= 0x80)
            &&& ror == modified(s, s1, mode, r_ror, ror.p) && czn_of(ror, s, r_ror, m % 2 == 1)
        }),
{
    reveal(CpuView::execute_shift);
    reveal(CpuView::asl);
    reveal(CpuView::lsr);
    reveal(CpuView::rol);
    reveal(CpuView::ror);
    let (s1, m) = s.modify_source(mode);
    if mode.has_operand_address() {
        lemma_load_keeps_cpu(s, mode);
    }
    let c: int = if s.carry() {
        1
    } else {
        0
    };
    let r_asl = ((m * 2) % 256) as u8;
    let r_lsr = (m / 2) as u8;
    let r_rol = ((m * 2) % 256 + c) as u8;
    let r_ror = (m / 2 + 128 * c) as u8;
    let t = s1.with_flag(CARRY_FLAG, m >= 0x80).with_flag(NEGATIVE_FLAG, r_asl >= 0x80).with_zn(r_asl);
    czn_bits(s, t, m >= 0x80, true, r_asl);
    lemma_store_ignores_flags(s1, mode, t.p, r_asl);
    let t = s1.with_flag(CARRY_FLAG, m % 2 == 1).with_zn(r_lsr);
    czn_bits(s, t, m % 2 == 1, false, r_lsr);
    lemma_store_ignores_flags(s1, mode, t.p, r_lsr);
    let t = s1.with_flag(CARRY_FLAG, m >= 0x80).with_zn(r_rol);
    czn_bits(s, t, m >= 0x80, false, r_rol);
    lemma_store_ignores_flags(s1, mode, t.p, r_rol);
    let t = s1.with_flag(CARRY_FLAG, m % 2 == 1).with_zn(r_ror);
    czn_bits(s, t, m % 2 == 1, false, r_ror);
    lemma_store_ignores_flags(s1, mode, t.p, r_ror);
}

/// Law: INC and DEC store the operand plus or minus one (wrapping) back at the
/// operand address, with zero and negative from the new value and every other
/// flag kept; registers stay.
pub proof fn lemma_step_instructions(s: CpuView, mode: AddressingMode)
    ensures
        ({
            let (s1, m) = s.load(mode);
            let inc = s.execute(Mnemonic::INC, mode);
            let dec = s.execute(Mnemonic::DEC, mode);
            let up = ((m + 1) % 256) as u8;
            let down = ((m + 255) % 256) as u8;
            &&& inc == (CpuView { p: inc.p, ..s1.store(mode, up) }) && zn_of(inc, s, up)
            &&& dec == (CpuView { p: dec.p, ..s1.store(mode, down) }) && zn_of(dec, s, down)
            &&& up == if m == 255 { 0 } else { m + 1 }
            &&& down == if m == 0 { 255 } else { m - 1 }
            &&& s1.a == s.a && s1.x == s.x && s1.y == s.y && s1.p == s.p && s1.pc == s.pc
                && s1.sp == s.sp
        }),
{
    reveal(CpuView::execute_step);
    reveal(CpuView::inc);
    reveal(CpuView::dec);
    lemma_load_keeps_cpu(s, mode);
    let (s1, m) = s.load(mode);
    let up = ((m + 1) % 256) as u8;
    let down = ((m + 255) % 256) as u8;
    lemma_with_zn(s1, up);
    lemma_with_zn(s1, down);
    lemma_store_ignores_flags(s1, mode, s1.with_zn(up).p, up);
    lemma_store_ignores_flags(s1, mode, s1.with_zn(down).p, down);
}

/// Law: BIT sets zero when A AND the operand is 0, overflow from bit 6 and
/// negative from bit 7 of the operand; it changes no register and no other flag.
pub proof fn lemma_bit_instruction(s: CpuView, mode: AddressingMode)
    ensures
        ({
            let (s1, m) = s.load(mode);
            let t = s.execute(Mnemonic::BIT, mode);
            &&& t == (CpuView { p: t.p, ..s1 })
            &&& t.zero() == (s.a & m == 0)
            &&& t.overflow() == (m & 0x40 != 0)
            &&& t.negative() == (m & 0x80 != 0)
            &&& forall|f: u8|
                #![trigger spec_flag(t.p, f)]
                spec_is_flag_bit(f) && f != ZERO_FLAG && f != OVERFLOW_FLAG && f != NEGATIVE_FLAG
                    ==> spec_flag(t.p, f) == spec_flag(s.p, f)
        }),
{
    reveal(CpuView::execute_load);
    reveal(CpuView::bit);
    lemma_load_keeps_cpu(s, mode);
    let (s1, m) = s.load(mode);
    assert(((m / 0x40) % 2 == 1) == (m & 0x40 != 0) && (m >= 0x80) == (m & 0x80 != 0)) by (bit_vector);
    let p0 = s1.p;
    let p1 = spec_with_flag(p0, ZERO_FLAG, s1.a & m == 0);
    let p2 = spec_with_flag(p1, OVERFLOW_FLAG, (m / 0x40) % 2 == 1);
    lemma_with_flag(p0, ZERO_FLAG, s1.a & m == 0, ZERO_FLAG);
    lemma_with_flag(p1, OVERFLOW_FLAG, (m / 0x40) % 2 == 1, ZERO_FLAG);
    lemma_with_flag(p1, OVERFLOW_FLAG, (m / 0x40) % 2 == 1, OVERFLOW_FLAG);
    lemma_with_flag(p2, NEGATIVE_FLAG, m >= 0x80, ZERO_FLAG);
    lemma_with_flag(p2, NEGATIVE_FLAG, m >= 0x80, OVERFLOW_FLAG);
    lemma_with_flag(p2, NEGATIVE_FLAG, m >= 0x80, NEGATIVE_FLAG);
    let t = s.execute(Mnemonic::BIT, mode);
    assert forall|f: u8|
        spec_is_flag_bit(f) && f != ZERO_FLAG && f != OVERFLOW_FLAG && f != NEGATIVE_FLAG implies spec_flag(
        t.p,
        f,
    ) == spec_flag(s.p, f) by {
        lemma_with_flag(p0, ZERO_FLAG, s1.a & m == 0, f);
        lemma_with_flag(p1, OVERFLOW_FLAG, (m / 0x40) % 2 == 1, f);
        lemma_with_flag(p2, NEGATIVE_FLAG, m >= 0x80, f);
    }
}

/// The difference `r - m` modulo 256.
pub open spec fn wrapping_difference(r: u8, m: u8) -> u8 {
    ((r + 256 - m) % 256) as u8
}

/// Law: CMP, CPX and CPY compare A, X or Y with the operand: carry when the
/// register is at least the operand, zero when equal, negative from bit 7 of
/// the wrapping difference; no register or memory changes beyond fetching the
/// operand, and the other flags stay.
pub proof fn lemma_compare_instructions(s: CpuView, mode: AddressingMode)
    ensures
        ({
            let (s1, m) = s.load(mode);
            let with_a = s.execute(Mnemonic::CMP, mode);
            let with_x = s.execute(Mnemonic::CPX, mode);
            let with_y = s.execute(Mnemonic::CPY, mode);
            &&& with_a == (CpuView { p: with_a.p, ..s1 }) && czn_of(
                with_a,
                s,
                wrapping_difference(s.a, m),
                s.a >= m,
            ) && with_a.zero() == (s.a == m)
            &&& with_x == (CpuView { p: with_x.p, ..s1 }) && czn_of(
                with_x,
                s,
                wrapping_difference(s.x, m),
                s.x >= m,
            ) && with_x.zero() == (s.x == m)
            &&& with_y == (CpuView { p: with_y.p, ..s1 }) && czn_of(
                with_y,
                s,
                wrapping_difference(s.y, m),
                s.y >= m,
            ) && with_y.zero() == (s.y == m)
        }),
{
    reveal(CpuView::execute_load);
    reveal(CpuView::cmp);
    reveal(CpuView::cpx);
    reveal(CpuView::cpy);
    lemma_load_keeps_cpu(s, mode);
    let (s1, m) = s.load(mode);
    czn_bits(s, s1.compare(s.a, m), s.a >= m, false, wrapping_difference(s.a, m));
    czn_bits(s, s1.compare(s.x, m), s.x >= m, false, wrapping_difference(s.x, m));
    czn_bits(s, s1.compare(s.y, m), s.y >= m, false, wrapping_difference(s.y, m));
    lemma_compare_flags(s1, s.a, m);
    lemma_compare_flags(s1, s.x, m);
    lemma_compare_flags(s1, s.y, m);
}

/// Law: ADC, as executed: A becomes A + M + C modulo 256; carry is the carry out
/// of bit 7; overflow is set when the signed sum leaves -128..127; zero and
/// negative follow A. X, Y, PC and SP stay.
#[verifier::spinoff_prover]
pub proof fn lemma_adc_instruction(s: CpuView, mode: AddressingMode)
    ensures
        ({
            let m = s.load(mode).1;
            let c: int = if s.carry() {
                1
            } else {
                0
            };
            let adc = s.execute(Mnemonic::ADC, mode);
            &&& adc.a == (s.a + m + c) % 256
            &&& adc.carry() == (s.a + m + c > 255)
            &&& adc.overflow() == !(-128 <= spec_signed(s.a) + spec_signed(m) + c <= 127)
            &&& adc.zero() == (adc.a == 0) && adc.negative() == (adc.a >= 0x80)
            &&& adc.x == s.x && adc.y == s.y && adc.pc == s.pc && adc.sp == s.sp
        }),
{
    reveal(CpuView::execute_load);
    lemma_load_keeps_cpu(s, mode);
    lemma_adc_flags(s, mode);
}

/// Law: SBC, as executed: A becomes A - M - (1 - C) modulo 256; carry is set
/// when no borrow was needed; overflow is set when the signed difference leaves
/// -128..127; zero and negative follow A. X, Y, PC and SP stay.
#[verifier::spinoff_prover]
pub proof fn lemma_sbc_instruction(s: CpuView, mode: AddressingMode)
    ensures
        ({
            let m = s.load(mode).1;
            let c: int = if s.carry() {
                1
            } else {
                0
            };
            let sbc = s.execute(Mnemonic::SBC, mode);
            &&& sbc.a == (s.a - m - (1 - c) + 512) % 256
            &&& sbc.carry() == (s.a - m - (1 - c) >= 0)
            &&& sbc.overflow() == !(-128 <= spec_signed(s.a) - spec_signed(m) - (1 - c) <= 127)
            &&& sbc.zero() == (sbc.a == 0) && sbc.negative() == (sbc.a >= 0x80)
            &&& sbc.x == s.x && sbc.y == s.y && sbc.pc == s.pc && sbc.sp == s.sp
        }),
{
    reveal(CpuView::execute_load);
    lemma_load_keeps_cpu(s, mode);
    lemma_sbc_flags(s, mode);
    reveal(CpuView::sbc);
}

/// Law: JMP continues at the operand address; JSR pushes the address of its last
/// byte (`pc + 1`, its operand bytes starting at `pc`), high byte first, then
/// continues at the operand address. Neither changes a flag.
pub proof fn lemma_jump_instructions(s: CpuView, mode: AddressingMode)
    requires
        s.bus.ram.len() == 2048,
    ensures
        ({
            let (s1, address) = mode.operand(s.pc, s);
            let jmp = s.execute(Mnemonic::JMP, mode);
            let jsr = s.execute(Mnemonic::JSR, mode);
            let ret = ((s.pc + 1) % 0x10000) as u16;
            &&& jmp == (CpuView { pc: address, ..s1 })
            &&& jsr.pc == address && jsr.a == s.a && jsr.x == s.x && jsr.y == s.y && jsr.p == s.p
            &&& jsr.sp == (s.sp + 254) % 256
            &&& jsr.bus.ram[0x100 + s.sp] == ret / 256
            &&& jsr.bus.ram[0x100 + (s.sp + 255) % 256] == ret % 256
        }),
{
    reveal(CpuView::execute_jump);
    reveal(CpuView::jmp);
    reveal(CpuView::jsr);
    lemma_operand_keeps_registers(mode, s.pc, s);
    let (s1, address) = mode.operand(s.pc, s);
    let ret = ((s.pc + 1) % 0x10000) as u16;
    lemma_ram_access(s1.bus, (0x100 + s.sp) as u16, (ret / 256) as u8);
    let s2 = s1.push((ret / 256) as u8);
    lemma_ram_access(s2.bus, (0x100 + s2.sp) as u16, (ret % 256) as u8);
}

/// Law: each branch moves PC by its signed offset (from the byte after the
/// offset) exactly when its condition holds: BCC/BCS on carry clear/set,
/// BNE/BEQ on zero clear/set, BPL/BMI on negative clear/set, BVC/BVS on
/// overflow clear/set; otherwise nothing changes. No flag or register changes.
pub proof fn lemma_branch_instructions(s: CpuView, mode: AddressingMode)
    ensures
        ({
            let target = ((s.pc + 1 + spec_signed(s.load(mode).1)) % 0x10000) as u16;
            let go = |taken: bool| if taken {
                target
            } else {
                s.pc
            };
            &&& s.execute(Mnemonic::BCC, mode).pc == go(!s.carry())
            &&& s.execute(Mnemonic::BCS, mode).pc == go(s.carry())
            &&& s.execute(Mnemonic::BNE, mode).pc == go(!s.zero())
            &&& s.execute(Mnemonic::BEQ, mode).pc == go(s.zero())
            &&& s.execute(Mnemonic::BPL, mode).pc == go(!s.negative())
            &&& s.execute(Mnemonic::BMI, mode).pc == go(s.negative())
            &&& s.execute(Mnemonic::BVC, mode).pc == go(!s.overflow())
            &&& s.execute(Mnemonic::BVS, mode).pc == go(s.overflow())
            &&& forall|m: Mnemonic|
                #![trigger s.execute(m, mode)]
                m == Mnemonic::BCC || m == Mnemonic::BCS || m == Mnemonic::BNE || m == Mnemonic::BEQ
                    || m == Mnemonic::BPL || m == Mnemonic::BMI || m == Mnemonic::BVC || m
                    == Mnemonic::BVS ==> ({
                    let t = s.execute(m, mode);
                    t.a == s.a && t.x == s.x && t.y == s.y && t.p == s.p && t.sp == s.sp
                        && t.bus.ram == s.bus.ram
                })
        }),
{
    lemma_branch(s, mode);
}

/// Law: PHA and PHP push A, or the flags with break and bit 5 set, at $0100 + SP
/// and decrement SP; nothing else changes.
#[verifier::spinoff_prover]
pub proof fn lemma_push_instructions(s: CpuView)
    requires
        s.bus.ram.len() == 2048,
    ensures
        ({
            let n = AddressingMode::NoneAddressing;
            let pha = s.execute(Mnemonic::PHA, n);
            let php = s.execute(Mnemonic::PHP, n);
            let top = 0x100 + s.sp;
            &&& pha == (CpuView { sp: ((s.sp + 255) % 256) as u8, bus: pha.bus, ..s })
            &&& pha.bus.ram == s.bus.ram.update(top, s.a)
            &&& php == (CpuView { sp: ((s.sp + 255) % 256) as u8, bus: php.bus, ..s })
            &&& php.bus.ram == s.bus.ram.update(top, s.p | 0b0011_0000)
        }),
{
    reveal(CpuView::execute_stack);
    reveal(CpuView::pha);
    reveal(CpuView::php);
    let a0 = (0x100 + s.sp) as u16;
    lemma_ram_access(s.bus, a0, s.a);
    lemma_ram_access(s.bus, a0, s.p | 0b0011_0000);
}

/// Law: PLA and PLP increment SP, then pull the byte at $0100 + SP into A (zero
/// and negative from it, other flags kept) or into the flags (break cleared,
/// bit 5 set); nothing else changes.
#[verifier::spinoff_prover]
pub proof fn lemma_pull_instructions(s: CpuView)
    requires
        s.bus.ram.len() == 2048,
    ensures
        ({
            let n = AddressingMode::NoneAddressing;
            let pla = s.execute(Mnemonic::PLA, n);
            let plp = s.execute(Mnemonic::PLP, n);
            let v1 = s.bus.ram[0x100 + (s.sp + 1) % 256];
            &&& pla == (CpuView { a: v1, sp: ((s.sp + 1) % 256) as u8, p: pla.p, ..s })
                && zn_of(pla, s, v1)
            &&& plp == (CpuView { p: (v1 & 0b1100_1111) | 0b0010_0000, sp: ((s.sp + 1) % 256) as u8, ..s })
        }),
{
    reveal(CpuView::execute_stack);
    reveal(CpuView::pla);
    let a1 = (0x100 + (s.sp + 1) % 256) as u16;
    lemma_ram_access(s.bus, a1, 0);
    let v1 = s.bus.ram[0x100 + (s.sp + 1) % 256];
    lemma_with_zn(CpuView { a: v1, sp: ((s.sp + 1) % 256) as u8, ..s }, v1);
    assert(spec_with_flag(spec_with_flag(v1, 0b0001_0000, false), 0b0010_0000, true) == (v1
        & 0b1100_1111) | 0b0010_0000) by (bit_vector);
}

/// Law: RTS increments SP twice, pulling PC from $0100 + SP (low byte, then high
/// byte), and adds one to it; nothing else changes.
#[verifier::spinoff_prover]
pub proof fn lemma_rts_instruction(s: CpuView)
    requires
        s.bus.ram.len() == 2048,
    ensures
        ({
            let rts = s.execute(Mnemonic::RTS, AddressingMode::NoneAddressing);
            let v1 = s.bus.ram[0x100 + (s.sp + 1) % 256];
            let v2 = s.bus.ram[0x100 + (s.sp + 2) % 256];
            rts == (CpuView { pc: ((v2 * 256 + v1 + 1) % 0x10000) as u16, sp: ((s.sp + 2) % 256) as u8, ..s })
        }),
{
    reveal(CpuView::execute_stack);
    reveal(CpuView::rts);
    let a1 = (0x100 + (s.sp + 1) % 256) as u16;
    let a2 = (0x100 + (s.sp + 2) % 256) as u16;
    lemma_ram_access(s.bus, a1, 0);
    lemma_ram_access(s.bus, a2, 0);
    assert(((s.sp + 1) % 256 + 1) % 256 == (s.sp + 2) % 256);
}

/// Law: RTI pulls the flags as PLP does (break cleared, bit 5 set), then PC (low
/// byte, then high byte), incrementing SP before each pull; nothing else changes.
#[verifier::spinoff_prover]
pub proof fn lemma_rti_instruction(s: CpuView)
    requires
        s.bus.ram.len() == 2048,
    ensures
        ({
            let rti = s.execute(Mnemonic::RTI, AddressingMode::NoneAddressing);
            let v1 = s.bus.ram[0x100 + (s.sp + 1) % 256];
            let v2 = s.bus.ram[0x100 + (s.sp + 2) % 256];
            let v3 = s.bus.ram[0x100 + (s.sp + 3) % 256];
            rti == (CpuView {
                p: (v1 & 0b1100_1111) | 0b0010_0000,
                pc: (v3 * 256 + v2) as u16,
                sp: ((s.sp + 3) % 256) as u8,
                ..s
            })
        }),
{
    reveal(CpuView::execute_stack);
    reveal(CpuView::rti);
    lemma_pull_instructions(s);
    let q = s.plp();
    let v1 = s.bus.ram[0x100 + (s.sp + 1) % 256];
    assert(q == (CpuView { p: (v1 & 0b1100_1111) | 0b0010_0000, sp: ((s.sp + 1) % 256) as u8, ..s }));
    let a2 = (0x100 + (s.sp + 2) % 256) as u16;
    let a3 = (0x100 + (s.sp + 3) % 256) as u16;
    assert((q.sp + 1) % 256 == (s.sp + 2) % 256);
    lemma_ram_access(q.bus, a2, 0);
    let (q1, lo) = q.pull();
    assert(lo == s.bus.ram[0x100 + (s.sp + 2) % 256]);
    assert(q1 == (CpuView { sp: ((s.sp + 2) % 256) as u8, ..q }));
    assert((q1.sp + 1) % 256 == (s.sp + 3) % 256);
    lemma_ram_access(q1.bus, a3, 0);
    let (q2, hi) = q1.pull();
    assert(hi == s.bus.ram[0x100 + (s.sp + 3) % 256]);
    assert(q2 == (CpuView { sp: ((s.sp + 3) % 256) as u8, ..q }));
}

/// Whether an instruction moves PC itself (jumps, calls, returns, branches, BRK).
pub open spec fn is_control(m: Mnemonic) -> bool {
    m == Mnemonic::JMP || m == Mnemonic::JSR || m == Mnemonic::RTS || m == Mnemonic::RTI || m
        == Mnemonic::BRK || m == Mnemonic::BCC || m == Mnemonic::BCS || m == Mnemonic::BNE || m
        == Mnemonic::BEQ || m == Mnemonic::BPL || m == Mnemonic::BMI || m == Mnemonic::BVC || m
        == Mnemonic::BVS
}

/// Executing an instruction that is not a control instruction leaves PC alone.
proof fn execute_keeps_pc(s: CpuView, m: Mnemonic, mode: AddressingMode)
    requires
        s.bus.ram.len() == 2048,
        !is_control(m),
    ensures
        s.execute(m, mode).pc == s.pc,
{
    lemma_load_instructions(s, mode);
    lemma_store_instructions(s, mode);
    lemma_register_instructions(s);
    lemma_flag_instructions(s);
    lemma_push_instructions(s);
    lemma_pull_instructions(s);
    lemma_shift_instructions(s, mode);
    lemma_step_instructions(s, mode);
    lemma_bit_instruction(s, mode);
    lemma_compare_instructions(s, mode);
    lemma_adc_instruction(s, mode);
    lemma_sbc_instruction(s, mode);
    let s1 = s.load(mode).0;
    lemma_operand_keeps_registers(mode, s1.pc, s1);
    lemma_operand_keeps_registers(mode, s.pc, s);
    assert(s.execute(Mnemonic::NOP, mode) == s);
}

/// Law: a step that executes an instruction other than a jump, call, return,
/// branch or BRK reads the opcode at PC, executes the instruction with PC on its
/// operand bytes, and leaves PC just past the whole instruction (PC plus its
/// length); the CPU keeps running.
pub proof fn lemma_step_moves_past_instruction(s: CpuView)
    requires
        s.bus.ram.len() == 2048,
        spec_decode(s.read(s.pc).1) matches Some((m, mode)) && !is_control(m),
        s.pc + spec_instruction_len(spec_decode(s.read(s.pc).1).unwrap().1) <= 0xFFFF,
    ensures
        ({
            let (s0, code) = s.read(s.pc);
            let (m, mode) = spec_decode(code).unwrap();
            let len = spec_instruction_len(mode);
            let executed = (CpuView { pc: next_address(s.pc), ..s0 }).execute(m, mode);
            &&& s.step().1
            &&& s.step().0 == (CpuView { pc: (s.pc + len) as u16, ..executed })
        }),
{
    broadcast use crate::bus::lemma_read_keeps_memory;

    let (s0, code) = s.read(s.pc);
    let (m, mode) = spec_decode(code).unwrap();
    let s1 = CpuView { pc: next_address(s.pc), ..s0 };
    execute_keeps_pc(s1, m, mode);
}

} // verus!
