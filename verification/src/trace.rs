use vstd::prelude::*;

use crate::addressing_modes::AddressingMode;
use crate::cpu::{lemma_operand_keeps_registers, CpuView, CPU};
use crate::fault::try_operand_address;
use crate::opcodes::{decode, spec_decode, spec_instruction_len, spec_mnemonic_name, Mnemonic};

verus! {

/// The hexadecimal digit for `n` (0 to 15), in upper or lower case.
pub open spec fn spec_hex_digit(n: int, upper: bool) -> char {
    if upper {
        seq!['0', '1', '2', '3', '4', '5', '6', '7', '8', '9', 'A', 'B', 'C', 'D', 'E', 'F'][n]
    } else {
        seq!['0', '1', '2', '3', '4', '5', '6', '7', '8', '9', 'a', 'b', 'c', 'd', 'e', 'f'][n]
    }
}

/// Law: the hexadecimal digits are the decimal digits `0`-`9` for 0 to 9, then
/// the letters from `A` (or `a`) for 10 to 15: as character codes, 48 + n, then
/// 55 + n upper case or 87 + n lower case.
pub proof fn lemma_hex_digit_codes(n: int, upper: bool)
    requires
        0 <= n < 16,
    ensures
        n < 10 ==> spec_hex_digit(n, upper) as int == 48 + n,
        10 <= n && upper ==> spec_hex_digit(n, upper) as int == 55 + n,
        10 <= n && !upper ==> spec_hex_digit(n, upper) as int == 87 + n,
{
}

/// A byte as two upper-case hexadecimal digits (`{:02X}`).
pub open spec fn spec_hex2(v: u8) -> Seq<char> {
    seq![spec_hex_digit((v / 16) as int, true), spec_hex_digit((v % 16) as int, true)]
}

/// A 16-bit value as four hexadecimal digits (`{:04X}`, or `{:04x}` when not `upper`).
pub open spec fn spec_hex4(v: u16, upper: bool) -> Seq<char> {
    seq![
        spec_hex_digit((v / 4096) as int, upper),
        spec_hex_digit((v / 256 % 16) as int, upper),
        spec_hex_digit((v / 16 % 16) as int, upper),
        spec_hex_digit((v % 16) as int, upper),
    ]
}

/// A 16-bit value in upper-case hexadecimal with at least two digits (`{:02X}`).
pub open spec fn spec_hex_min2(v: u16) -> Seq<char> {
    if v < 0x100 {
        seq![spec_hex_digit((v / 16) as int, true), spec_hex_digit((v % 16) as int, true)]
    } else if v < 0x1000 {
        seq![
            spec_hex_digit((v / 256) as int, true),
            spec_hex_digit((v / 16 % 16) as int, true),
            spec_hex_digit((v % 16) as int, true),
        ]
    } else {
        spec_hex4(v, true)
    }
}

/// `s` filled up with spaces on the right to `width` characters, as `{:width}`
/// formats a string.
pub open spec fn spec_pad_right(s: Seq<char>, width: nat) -> Seq<char> {
    if s.len() >= width {
        s
    } else {
        s + Seq::new((width - s.len()) as nat, |_i: int| ' ')
    }
}

/// Bytes as two-digit hexadecimal numbers separated by single spaces.
pub open spec fn spec_hex_bytes(bytes: Seq<u8>) -> Seq<char>
    decreases bytes.len(),
{
    if bytes.len() == 0 {
        Seq::empty()
    } else if bytes.len() == 1 {
        spec_hex2(bytes[0])
    } else {
        spec_hex_bytes(bytes.drop_last()) + seq![' '] + spec_hex2(bytes.last())
    }
}

/// A trace line: the address of the instruction, its bytes, its mnemonic and
/// argument, padded to 47 characters, then the registers.
pub open spec fn spec_trace_line(
    pc: u16,
    bytes: Seq<u8>,
    m: Mnemonic,
    argument: Seq<char>,
    a: u8,
    x: u8,
    y: u8,
    p: u8,
    sp: u8,
) -> Seq<char> {
    let instruction = spec_hex4(pc, true) + "  "@ + spec_pad_right(spec_hex_bytes(bytes), 8) + "  "@
        + spec_pad_right(spec_mnemonic_name(m), 3) + " "@ + argument;
    spec_pad_right(instruction, 47) + spec_trace_registers(a, x, y, p, sp)
}

impl CpuView {
    /// The reads of `n` consecutive bytes from `start` are all possible.
    pub open spec fn read_bytes_ok(self, start: u16, n: nat) -> bool
        decreases n,
    {
        n == 0 || (self.read_bytes_ok(start, (n - 1) as nat) && self.read_bytes(
            start,
            (n - 1) as nat,
        ).0.read_ok(((start + n - 1) % 0x10000) as u16))
    }

    /// Reads `n` consecutive bytes from `start`, in order: the state after, and the bytes.
    pub open spec fn read_bytes(self, start: u16, n: nat) -> (CpuView, Seq<u8>)
        decreases n,
    {
        if n == 0 {
            (self, Seq::empty())
        } else {
            let (s1, bytes) = self.read_bytes(start, (n - 1) as nat);
            let (s2, b) = s1.read(((start + n - 1) % 0x10000) as u16);
            (s2, bytes.push(b))
        }
    }

    /// The reads that find the operand address of the instruction at PC, and the
    /// byte stored there, are possible.
    pub open spec fn trace_operand_ok(self, mode: AddressingMode) -> bool {
        match mode {
            AddressingMode::Immediate | AddressingMode::NoneAddressing
            | AddressingMode::Accumulator => true,
            _ => {
                let pc1 = ((self.pc + 1) % 0x10000) as u16;
                &&& mode.operand_ok(pc1, self)
                &&& mode.operand(pc1, self).0.read_ok(mode.operand(pc1, self).1)
            },
        }
    }

    /// The operand address of the instruction at PC and the byte stored there, as
    /// a trace shows them (both zero for modes without one, and for `Immediate`),
    /// with the state after the reads.
    pub open spec fn trace_operand(self, mode: AddressingMode) -> (CpuView, u16, u8) {
        match mode {
            AddressingMode::Immediate | AddressingMode::NoneAddressing
            | AddressingMode::Accumulator => (self, 0, 0),
            _ => {
                let pc1 = ((self.pc + 1) % 0x10000) as u16;
                let (s1, address) = mode.operand(pc1, self);
                let (s2, value) = s1.read(address);
                (s2, address, value)
            },
        }
    }

    /// The reads that writing the argument of the instruction at PC makes are possible.
    pub open spec fn trace_argument_ok(self, mode: AddressingMode) -> bool {
        let pc1 = ((self.pc + 1) % 0x10000) as u16;
        match mode {
            AddressingMode::Immediate | AddressingMode::ZeroPage | AddressingMode::ZeroPage_X
            | AddressingMode::ZeroPage_Y | AddressingMode::Indirect_X => self.read_ok(pc1),
            AddressingMode::Absolute | AddressingMode::Absolute_X | AddressingMode::Absolute_Y
            | AddressingMode::Indirect => self.read_u16_ok(pc1),
            AddressingMode::Indirect_Y => self.read_ok(pc1) && self.read(pc1).0.read_u16_ok(
                self.read(pc1).1 as u16,
            ),
            _ => true,
        }
    }

    /// The argument of the instruction at PC in assembler syntax, given its operand
    /// address and the byte stored there, with the state after the reads it makes.
    #[verifier::opaque]
    pub open spec fn trace_argument(self, m: Mnemonic, mode: AddressingMode, address: u16, value: u8) -> (
        CpuView,
        Seq<char>,
    ) {
        let pc1 = ((self.pc + 1) % 0x10000) as u16;
        match mode {
            AddressingMode::Immediate => {
                let (s1, b) = self.read(pc1);
                (s1, "#$"@ + spec_hex2(b))
            },
            AddressingMode::ZeroPage => {
                let (s1, zp) = self.read(pc1);
                (s1, "$"@ + spec_hex2(zp) + " = "@ + spec_hex2(value))
            },
            AddressingMode::ZeroPage_X => {
                let (s1, zp) = self.read(pc1);
                (
                    s1,
                    "$"@ + spec_hex2(zp) + ",X @ "@ + spec_hex_min2(address) + " = "@ + spec_hex2(
                        value,
                    ),
                )
            },
            AddressingMode::ZeroPage_Y => {
                let (s1, zp) = self.read(pc1);
                (
                    s1,
                    "$"@ + spec_hex2(zp) + ",Y @ "@ + spec_hex_min2(address) + " = "@ + spec_hex2(
                        value,
                    ),
                )
            },
            AddressingMode::Absolute => {
                let (s1, abs) = self.read_u16(pc1);
                if m == Mnemonic::JMP || m == Mnemonic::JSR {
                    (s1, "$"@ + spec_hex4(abs, true))
                } else {
                    (s1, "$"@ + spec_hex4(abs, true) + " = "@ + spec_hex2(value))
                }
            },
            AddressingMode::Indirect => {
                let (s1, abs) = self.read_u16(pc1);
                (s1, "$("@ + spec_hex4(abs, true) + ") = "@ + spec_hex4(value as u16, true))
            },
            AddressingMode::Absolute_X => {
                let (s1, abs) = self.read_u16(pc1);
                (
                    s1,
                    "$"@ + spec_hex4(abs, true) + ",X @ "@ + spec_hex4(address, true) + " = "@
                        + spec_hex2(value),
                )
            },
            AddressingMode::Absolute_Y => {
                let (s1, abs) = self.read_u16(pc1);
                (
                    s1,
                    "$"@ + spec_hex4(abs, true) + ",Y @ "@ + spec_hex4(address, true) + " = "@
                        + spec_hex2(value),
                )
            },
            AddressingMode::Indirect_X => {
                let (s1, ia) = self.read(pc1);
                (
                    s1,
                    "($"@ + spec_hex2(ia) + ",X) @ "@ + spec_hex2(((ia + self.x) % 256) as u8)
                        + " = "@ + spec_hex4(address, true) + " = "@ + spec_hex2(value),
                )
            },
            AddressingMode::Indirect_Y => {
                let (s1, ia) = self.read(pc1);
                let (s2, target) = s1.read_u16(ia as u16);
                (
                    s2,
                    "($"@ + spec_hex2(ia) + "),Y = "@ + spec_hex4(target, false) + " @ "@
                        + spec_hex4(address, false) + " = "@ + spec_hex2(value),
                )
            },
            AddressingMode::NoneAddressing => (self, Seq::empty()),
            AddressingMode::Relative => (
                self,
                "$"@ + spec_hex4((((self.pc + 2) % 0x10000 + value) % 0x10000) as u16, true),
            ),
            AddressingMode::Accumulator => (self, "A"@),
        }
    }

    /// The instruction at PC can be traced: its opcode is official, its bytes lie
    /// below the end of the address space, and the reads the trace makes are possible.
    pub open spec fn trace_ok(self) -> bool {
        let (s1, code) = self.read(self.pc);
        &&& self.read_ok(self.pc)
        &&& match spec_decode(code) {
            None => false,
            Some((m, mode)) => {
                let n = spec_instruction_len(mode) as nat;
                let s2 = s1.read_bytes(self.pc, n).0;
                &&& self.pc < 0xFFFF
                &&& self.pc + n - 1 <= 0xFFFF
                &&& s1.read_bytes_ok(self.pc, n)
                &&& s2.trace_operand_ok(mode)
                &&& s2.trace_operand(mode).0.trace_argument_ok(mode)
            },
        }
    }

    /// One line of a CPU trace for the instruction at PC: its address, its bytes,
    /// its mnemonic and argument, and the registers; with the state after the reads.
    pub open spec fn trace(self) -> (CpuView, Seq<char>) {
        let (s1, code) = self.read(self.pc);
        match spec_decode(code) {
            None => (s1, Seq::empty()),
            Some((m, mode)) => {
                let (s2, bytes) = s1.read_bytes(self.pc, spec_instruction_len(mode) as nat);
                let (s3, address, value) = s2.trace_operand(mode);
                let (s4, argument) = s3.trace_argument(m, mode, address, value);
                (s4, spec_trace_line(self.pc, bytes, m, argument, self.a, self.x, self.y, self.p, self.sp))
            },
        }
    }
}

/// The registers at the end of a trace line.
pub open spec fn spec_trace_registers(a: u8, x: u8, y: u8, p: u8, sp: u8) -> Seq<char> {
    " A:"@ + spec_hex2(a) + " X:"@ + spec_hex2(x) + " Y:"@ + spec_hex2(y) + " P:"@ + spec_hex2(p)
        + " SP:"@ + spec_hex2(sp)
}

/// Law: a trace line starts with PC in four hex digits, two spaces and the first
/// byte of the instruction (the opcode, as read a second time; outside the PPU
/// registers that is the opcode the CPU decoded), and ends with the registers;
/// the instruction part is padded to 47 characters, so the line has at least 73.
pub proof fn lemma_trace_layout(s: CpuView)
    requires
        s.trace_ok(),
    ensures
        ({
            let t = s.trace().1;
            let (s1, code) = s.read(s.pc);
            let first = s1.read(s.pc).1;
            &&& t.len() >= 73
            &&& t.subrange(0, 8) == spec_hex4(s.pc, true) + seq![' ', ' '] + spec_hex2(first)
            &&& t.subrange(t.len() - 26, t.len() as int) == spec_trace_registers(
                s.a,
                s.x,
                s.y,
                s.p,
                s.sp,
            )
            &&& !(0x2000 <= s.pc <= 0x3FFF) ==> first == code
        }),
{
    reveal_strlit("  ");
    reveal_strlit(" ");
    reveal_strlit(" A:");
    reveal_strlit(" X:");
    reveal_strlit(" Y:");
    reveal_strlit(" P:");
    reveal_strlit(" SP:");
    let (s1, code) = s.read(s.pc);
    let (m, mode) = spec_decode(code).unwrap();
    let n = spec_instruction_len(mode) as nat;
    let (s2, bytes) = s1.read_bytes(s.pc, n);
    lemma_read_bytes(s1, s.pc, n, n);
    lemma_read_bytes_first(s1, s.pc, n);
    lemma_hex_bytes_first(bytes);
    let (s3, address, value) = s2.trace_operand(mode);
    let argument = s3.trace_argument(m, mode, address, value).1;
    let hb = spec_pad_right(spec_hex_bytes(bytes), 8);
    let instruction = spec_hex4(s.pc, true) + "  "@ + hb + "  "@ + spec_pad_right(
        spec_mnemonic_name(m),
        3,
    ) + " "@ + argument;
    assert(hb.subrange(0, 2) == spec_hex_bytes(bytes).subrange(0, 2));
    assert(instruction.subrange(0, 8) =~= spec_hex4(s.pc, true) + seq![' ', ' '] + spec_hex2(
        bytes[0],
    ));
    let padded = spec_pad_right(instruction, 47);
    assert(padded.subrange(0, 8) == instruction.subrange(0, 8));
    let regs = spec_trace_registers(s.a, s.x, s.y, s.p, s.sp);
    assert(regs.len() == 26);
    let t = s.trace().1;
    assert(t =~= padded + regs);
    assert(t.subrange(0, 8) =~= padded.subrange(0, 8));
    assert(t.subrange(t.len() - 26, t.len() as int) =~= regs);
    if !(0x2000 <= s.pc <= 0x3FFF) {
        reveal(crate::bus::BusView::read);
        assert(s1 == s);
    }
}

/// The first byte of consecutive reads is the byte of the first read.
proof fn lemma_read_bytes_first(s: CpuView, start: u16, n: nat)
    requires
        n >= 1,
    ensures
        s.read_bytes(start, n).1[0] == s.read(start).1,
    decreases n,
{
    if n > 1 {
        lemma_read_bytes_first(s, start, (n - 1) as nat);
        lemma_read_bytes_len(s, start, (n - 1) as nat);
        let (s1, bytes) = s.read_bytes(start, (n - 1) as nat);
        let b = s1.read(((start + n - 1) % 0x10000) as u16).1;
        assert(s.read_bytes(start, n).1 == bytes.push(b));
        assert(bytes.push(b)[0] == bytes[0]);
    } else {
        assert(s.read_bytes(start, 0) == (s, Seq::<u8>::empty()));
        assert(((start + 1 - 1) % 0x10000) as u16 == start);
        assert(s.read_bytes(start, 1).1 == Seq::<u8>::empty().push(s.read(start).1));
    }
}

/// Reading `n` bytes gives `n` bytes.
proof fn lemma_read_bytes_len(s: CpuView, start: u16, n: nat)
    ensures
        s.read_bytes(start, n).1.len() == n,
    decreases n,
{
    if n > 0 {
        lemma_read_bytes_len(s, start, (n - 1) as nat);
    }
}

/// The hexadecimal bytes start with the first byte's two digits.
proof fn lemma_hex_bytes_first(bytes: Seq<u8>)
    requires
        bytes.len() >= 1,
    ensures
        spec_hex_bytes(bytes).len() >= 2,
        spec_hex_bytes(bytes).subrange(0, 2) == spec_hex2(bytes[0]),
    decreases bytes.len(),
{
    if bytes.len() > 1 {
        lemma_hex_bytes_first(bytes.drop_last());
        assert(spec_hex_bytes(bytes).subrange(0, 2) =~= spec_hex_bytes(bytes.drop_last()).subrange(0, 2));
    } else {
        assert(spec_hex_bytes(bytes).subrange(0, 2) =~= spec_hex2(bytes[0]));
    }
}

/// Reads of fewer bytes are possible when reads of more are, and reading leaves the
/// registers alone.
proof fn lemma_read_bytes(s: CpuView, start: u16, n: nat, k: nat)
    requires
        s.read_bytes_ok(start, n),
        k <= n,
    ensures
        s.read_bytes_ok(start, k),
        s.read_bytes(start, k).0.a == s.a && s.read_bytes(start, k).0.x == s.x
            && s.read_bytes(start, k).0.y == s.y && s.read_bytes(start, k).0.p == s.p
            && s.read_bytes(start, k).0.sp == s.sp && s.read_bytes(start, k).0.pc == s.pc,
        s.read_bytes(start, k).1.len() == k,
    decreases n,
{
    if n > k {
        lemma_read_bytes(s, start, (n - 1) as nat, k);
    } else if k > 0 {
        lemma_read_bytes(s, start, (n - 1) as nat, (k - 1) as nat);
    }
}

/// Law: tracing an instruction reads memory only; the registers, RAM and program
/// ROM are as they were (only memory-mapped PPU registers can change).
pub proof fn lemma_trace_keeps_cpu(s: CpuView)
    ensures
        ({
            let t = s.trace().0;
            &&& t.a == s.a && t.x == s.x && t.y == s.y && t.p == s.p && t.pc == s.pc && t.sp == s.sp
            &&& t.bus.ram == s.bus.ram && t.bus.prg == s.bus.prg
        }),
{
    broadcast use crate::bus::lemma_read_keeps_memory;

    let (s1, code) = s.read(s.pc);
    if let Some((_m, mode)) = spec_decode(code) {
        let n = spec_instruction_len(mode) as nat;
        lemma_read_bytes_keeps_cpu(s1, s.pc, n);
        let s2 = s1.read_bytes(s.pc, n).0;
        let pc1 = ((s2.pc + 1) % 0x10000) as u16;
        lemma_operand_keeps_registers(mode, pc1, s2);
        reveal(CpuView::trace_argument);
    }
}

/// Reading bytes leaves the registers, RAM and program ROM as they were.
proof fn lemma_read_bytes_keeps_cpu(s: CpuView, start: u16, n: nat)
    ensures
        ({
            let t = s.read_bytes(start, n).0;
            &&& t.a == s.a && t.x == s.x && t.y == s.y && t.p == s.p && t.pc == s.pc && t.sp == s.sp
            &&& t.bus.ram == s.bus.ram && t.bus.prg == s.bus.prg
        }),
    decreases n,
{
    broadcast use crate::bus::lemma_read_keeps_memory;

    if n > 0 {
        lemma_read_bytes_keeps_cpu(s, start, (n - 1) as nat);
    }
}

/// Appends the hexadecimal digit for `n`.
fn push_hex_digit(s: &mut String, n: u16, upper: bool)
    requires
        n < 16,
    ensures
        final(s)@ == old(s)@.push(spec_hex_digit(n as int, upper)),
{
    proof {
        reveal_strlit("0123456789ABCDEF");
        reveal_strlit("0123456789abcdef");
    }
    let digits: &str = if upper {
        "0123456789ABCDEF"
    } else {
        "0123456789abcdef"
    };
    let d = digits.substring_ascii(n as usize, n as usize + 1);
    s.append(d);
    assert(d@ =~= seq![spec_hex_digit(n as int, upper)]);
}

/// Appends a byte as two upper-case hexadecimal digits.
fn push_hex2(s: &mut String, v: u8)
    ensures
        final(s)@ == old(s)@ + spec_hex2(v),
{
    push_hex_digit(s, v as u16 / 16, true);
    push_hex_digit(s, v as u16 % 16, true);
    assert(s@ =~= old(s)@ + spec_hex2(v));
}

/// Appends a 16-bit value as four hexadecimal digits.
fn push_hex4(s: &mut String, v: u16, upper: bool)
    ensures
        final(s)@ == old(s)@ + spec_hex4(v, upper),
{
    push_hex_digit(s, v / 4096, upper);
    push_hex_digit(s, v / 256 % 16, upper);
    push_hex_digit(s, v / 16 % 16, upper);
    push_hex_digit(s, v % 16, upper);
    assert(s@ =~= old(s)@ + spec_hex4(v, upper));
}

/// Appends a 16-bit value in upper-case hexadecimal with at least two digits.
fn push_hex_min2(s: &mut String, v: u16)
    ensures
        final(s)@ == old(s)@ + spec_hex_min2(v),
{
    if v < 0x100 {
        push_hex_digit(s, v / 16, true);
        push_hex_digit(s, v % 16, true);
    } else if v < 0x1000 {
        push_hex_digit(s, v / 256, true);
        push_hex_digit(s, v / 16 % 16, true);
        push_hex_digit(s, v % 16, true);
    } else {
        push_hex4(s, v, true);
    }
    assert(s@ =~= old(s)@ + spec_hex_min2(v));
}

/// Fills `s` with spaces on the right up to `width` characters.
fn pad_right(s: &mut String, width: usize)
    ensures
        final(s)@ == spec_pad_right(old(s)@, width as nat),
{
    proof {
        reveal_strlit(" ");
    }
    let ghost start = s@;
    let mut len = s.as_str().unicode_len();
    while len < width
        invariant
            start.len() <= len <= width || (len == start.len() && len >= width),
            s@ == start + Seq::new((len - start.len()) as nat, |_i: int| ' '),
        decreases width - len,
    {
        proof {
            reveal_strlit(" ");
        }
        s.append(" ");
        len = len + 1;
        assert(s@ =~= start + Seq::new((len - start.len()) as nat, |_i: int| ' '));
    }
    assert(s@ =~= spec_pad_right(start, width as nat));
}

/// Lays out a trace line.
fn trace_line(
    pc: u16,
    bytes: &Vec<u8>,
    instruction: Mnemonic,
    argument: &str,
    a: u8,
    x: u8,
    y: u8,
    p: u8,
    sp: u8,
) -> (r: String)
    ensures
        r@ == spec_trace_line(pc, bytes@, instruction, argument@, a, x, y, p, sp),
{
    let mut line = String::new();
    push_hex4(&mut line, pc, true);
    line.append("  ");
    let mut bytes_text = String::new();
    let mut j: usize = 0;
    while j < bytes.len()
        invariant
            j <= bytes.len(),
            bytes_text@ == spec_hex_bytes(bytes@.take(j as int)),
        decreases bytes.len() - j,
    {
        if j > 0 {
            bytes_text.append(" ");
        }
        push_hex2(&mut bytes_text, bytes[j]);
        proof {
            reveal_strlit(" ");
            assert(bytes@.take(j + 1).drop_last() =~= bytes@.take(j as int));
        }
        j = j + 1;
    }
    assert(bytes@.take(bytes.len() as int) =~= bytes@);
    pad_right(&mut bytes_text, 8);
    line.append(bytes_text.as_str());
    line.append("  ");
    let mut name = String::from_str(instruction.name());
    pad_right(&mut name, 3);
    line.append(name.as_str());
    line.append(" ");
    line.append(argument);
    assert(line@ =~= spec_hex4(pc, true) + "  "@ + spec_pad_right(spec_hex_bytes(bytes@), 8) + "  "@
        + spec_pad_right(spec_mnemonic_name(instruction), 3) + " "@ + argument@);
    pad_right(&mut line, 47);
    line.append(" A:");
    push_hex2(&mut line, a);
    line.append(" X:");
    push_hex2(&mut line, x);
    line.append(" Y:");
    push_hex2(&mut line, y);
    line.append(" P:");
    push_hex2(&mut line, p);
    line.append(" SP:");
    push_hex2(&mut line, sp);
    assert(line@ =~= spec_trace_line(pc, bytes@, instruction, argument@, a, x, y, p, sp));
    line
}

impl CPU {
    /// One line of a CPU trace for the instruction at PC: address, bytes,
    /// mnemonic and argument, then the registers. Reading memory-mapped PPU registers on the way changes the PPU
    /// as a read by the CPU would.
    pub fn trace(&mut self) -> (r: String)
        requires
            old(self)@.trace_ok(),
        ensures
            (final(self)@, r@) == old(self)@.trace(),
    {
        // The registers as they are when the trace starts; reads leave them alone
        let (a, x, y, p, sp) = (self.reg_a, self.reg_x, self.reg_y, self.state, self.stack_ptr);
        let pc = self.program_counter;
        let code = self.mem_read(pc);
        let opcode = match decode(code) {
            Some(op) => op,
            None => {
                return String::new();
            },
        };
        let num_bytes: u16 = opcode.get_num_bytes() as u16;
        let mode: AddressingMode = *opcode.get_mode();
        let instruction: Mnemonic = opcode.get_instruction();
        let ghost s1 = self@;
        proof {
            lemma_read_bytes(s1, pc, num_bytes as nat, 0);
        }

        // The instruction's bytes
        let mut bytes: Vec<u8> = Vec::new();
        let mut i: u16 = 0;
        while i < num_bytes
            invariant
                i <= num_bytes,
                pc + num_bytes - 1 <= 0xFFFF,
                s1.read_bytes_ok(pc, num_bytes as nat),
                (self@, bytes@) == s1.read_bytes(pc, i as nat),
            decreases num_bytes - i,
        {
            proof {
                lemma_read_bytes(s1, pc, num_bytes as nat, (i + 1) as nat);
            }
            let b = self.mem_read(pc + i);
            bytes.push(b);
            i = i + 1;
        }
        let ghost s2 = self@;
        proof {
            lemma_read_bytes(s1, pc, num_bytes as nat, num_bytes as nat);
        }

        // The operand address and the byte stored there
        let incremented_program_counter: u16 = pc + 1;
        let (address, value): (u16, u8) = match mode {
            AddressingMode::Immediate | AddressingMode::NoneAddressing
            | AddressingMode::Accumulator => (0, 0),
            _ => {
                proof {
                    lemma_operand_keeps_registers(mode, incremented_program_counter, s2);
                }
                let address: u16 = mode.get_operand_address_from_program_counter(
                    incremented_program_counter,
                    self,
                );
                let value: u8 = self.mem_read(address);
                (address, value)
            },
        };
        assert((self@, address, value) == s2.trace_operand(mode));

        let argument = self.trace_argument(instruction, mode, address, value);

        trace_line(
            pc,
            &bytes,
            instruction,
            argument.as_str(),
            a,
            x,
            y,
            p,
            sp,
        )
    }

    /// Whether the instruction at PC can be traced (see [`CpuView::trace_ok`]). The
    /// CPU itself is left alone; the reads are tried on a copy.
    #[verifier::loop_isolation(false)]
    #[verifier::spinoff_prover]
    pub fn can_trace(&self) -> (r: bool)
        ensures
            r == self@.trace_ok(),
    {
        let mut probe = self.duplicate();
        let pc = probe.program_counter;
        let code = match probe.try_read(pc) {
            None => {
                return false;
            },
            Some(code) => code,
        };
        let opcode = match decode(code) {
            None => {
                return false;
            },
            Some(opcode) => opcode,
        };
        let num_bytes: u16 = opcode.get_num_bytes() as u16;
        let mode: AddressingMode = *opcode.get_mode();
        if pc == 0xFFFF || pc as u32 + num_bytes as u32 - 1 > 0xFFFF {
            return false;
        }
        let ghost s1 = probe@;
        let mut i: u16 = 0;
        while i < num_bytes
            invariant
                i <= num_bytes,
                pc + num_bytes - 1 <= 0xFFFF,
                s1.read_bytes_ok(pc, i as nat),
                probe@ == s1.read_bytes(pc, i as nat).0,
            decreases num_bytes - i,
        {
            match probe.try_read(pc + i) {
                None => {
                    proof {
                        let k = (i + 1) as nat;
                        assert(((pc + k - 1) % 0x10000) as u16 == pc + i);
                        assert(!s1.read_bytes_ok(pc, k));
                        if s1.read_bytes_ok(pc, num_bytes as nat) {
                            lemma_read_bytes(s1, pc, num_bytes as nat, k);
                        }
                    }
                    return false;
                },
                Some(_) => {},
            }
            i = i + 1;
        }
        let ghost s2 = probe@;
        proof {
            lemma_read_bytes(s1, pc, num_bytes as nat, num_bytes as nat);
        }
        let incremented_program_counter: u16 = pc + 1;
        match mode {
            AddressingMode::Immediate | AddressingMode::NoneAddressing
            | AddressingMode::Accumulator => {},
            _ => {
                proof {
                    lemma_operand_keeps_registers(mode, incremented_program_counter, s2);
                }
                match try_operand_address(mode, incremented_program_counter, &mut probe) {
                    None => {
                        return false;
                    },
                    Some(address) => {
                        if probe.try_read(address).is_none() {
                            return false;
                        }
                    },
                }
            },
        }
        assert(probe@ == s2.trace_operand(mode).0);
        match mode {
            AddressingMode::Immediate | AddressingMode::ZeroPage | AddressingMode::ZeroPage_X
            | AddressingMode::ZeroPage_Y | AddressingMode::Indirect_X => probe.bus.can_read(
                incremented_program_counter,
            ),
            AddressingMode::Absolute | AddressingMode::Absolute_X | AddressingMode::Absolute_Y
            | AddressingMode::Indirect => probe.try_read_u16(incremented_program_counter).is_some(),
            AddressingMode::Indirect_Y => match probe.try_read(incremented_program_counter) {
                None => false,
                Some(pointer) => probe.try_read_u16(pointer as u16).is_some(),
            },
            _ => true,
        }
    }

    /// The argument of a branch: its target, as the sum of the address after the
    /// instruction and the unsigned offset byte.
    fn argument_relative(&mut self, m: Mnemonic, mode: AddressingMode, address: u16, value: u8) -> (r: String)
        requires
            mode is Relative,
        ensures
            (final(self)@, r@) == old(self)@.trace_argument(m, mode, address, value),
    {
        proof {
            reveal(CpuView::trace_argument);
        }
        let mut text = String::new();
        let jump_target: u16 = self.program_counter.wrapping_add(2).wrapping_add(value as u16);
        assert(jump_target == (((self.program_counter + 2) % 0x10000 + value) % 0x10000) as u16);
        text.append("$");
        push_hex4(&mut text, jump_target, true);
        assert(text@ =~= "$"@ + spec_hex4(jump_target, true));
        text
    }

    /// The argument of the instruction at PC in assembler syntax.
    fn trace_argument(&mut self, m: Mnemonic, mode: AddressingMode, address: u16, value: u8) -> (r:
        String)
        requires
            old(self)@.trace_argument_ok(mode),
            old(self).program_counter < 0xFFFF,
        ensures
            (final(self)@, r@) == old(self)@.trace_argument(m, mode, address, value),
    {
        match mode {
            AddressingMode::Immediate | AddressingMode::ZeroPage | AddressingMode::ZeroPage_X
            | AddressingMode::ZeroPage_Y => self.argument_zero_page(m, mode, address, value),
            AddressingMode::Absolute | AddressingMode::Indirect | AddressingMode::Absolute_X
            | AddressingMode::Absolute_Y => self.argument_absolute(m, mode, address, value),
            AddressingMode::Indirect_X => self.argument_indirect_x(m, mode, address, value),
            AddressingMode::Indirect_Y => self.argument_indirect_y(m, mode, address, value),
            AddressingMode::Relative => self.argument_relative(m, mode, address, value),
            _ => self.argument_without_operand(m, mode, address, value),
        }
    }

    /// An `Immediate` or zero page argument.
    fn argument_zero_page(&mut self, m: Mnemonic, mode: AddressingMode, address: u16, value: u8) -> (r: String)
        requires
            mode is Immediate || mode is ZeroPage || mode is ZeroPage_X || mode is ZeroPage_Y,
            old(self)@.trace_argument_ok(mode),
            old(self).program_counter < 0xFFFF,
        ensures
            (final(self)@, r@) == old(self)@.trace_argument(m, mode, address, value),
    {
        proof {
            reveal(CpuView::trace_argument);
        }
        let incremented_program_counter: u16 = self.program_counter + 1;
        let mut text = String::new();
        match mode {
            AddressingMode::Immediate => {
                let b = self.mem_read(incremented_program_counter);
                text.append("#$");
                push_hex2(&mut text, b);
                assert(text@ =~= "#$"@ + spec_hex2(b));
            },
            AddressingMode::ZeroPage => {
                let zero_page = self.mem_read(incremented_program_counter);
                text.append("$");
                push_hex2(&mut text, zero_page);
                text.append(" = ");
                push_hex2(&mut text, value);
                assert(text@ =~= "$"@ + spec_hex2(zero_page) + " = "@ + spec_hex2(value));
            },
            AddressingMode::ZeroPage_X => {
                let zero_page = self.mem_read(incremented_program_counter);
                text.append("$");
                push_hex2(&mut text, zero_page);
                text.append(",X @ ");
                push_hex_min2(&mut text, address);
                text.append(" = ");
                push_hex2(&mut text, value);
                assert(text@ =~= "$"@ + spec_hex2(zero_page) + ",X @ "@ + spec_hex_min2(address) + " = "@
                    + spec_hex2(value));
            },
            AddressingMode::ZeroPage_Y => {
                let zero_page = self.mem_read(incremented_program_counter);
                text.append("$");
                push_hex2(&mut text, zero_page);
                text.append(",Y @ ");
                push_hex_min2(&mut text, address);
                text.append(" = ");
                push_hex2(&mut text, value);
                assert(text@ =~= "$"@ + spec_hex2(zero_page) + ",Y @ "@ + spec_hex_min2(address) + " = "@
                    + spec_hex2(value));
            },
            _ => {},
        }
        text
    }

    /// An absolute or `Indirect` argument.
    fn argument_absolute(&mut self, m: Mnemonic, mode: AddressingMode, address: u16, value: u8) -> (r: String)
        requires
            mode is Absolute || mode is Indirect || mode is Absolute_X || mode is Absolute_Y,
            old(self)@.trace_argument_ok(mode),
            old(self).program_counter < 0xFFFF,
        ensures
            (final(self)@, r@) == old(self)@.trace_argument(m, mode, address, value),
    {
        proof {
            reveal(CpuView::trace_argument);
        }
        let incremented_program_counter: u16 = self.program_counter + 1;
        let mut text = String::new();
        match mode {
            AddressingMode::Absolute => {
                let absolute = self.mem_read_u16(incremented_program_counter);
                text.append("$");
                push_hex4(&mut text, absolute, true);
                match m {
                    Mnemonic::JMP | Mnemonic::JSR => {
                        assert(text@ =~= "$"@ + spec_hex4(absolute, true));
                    },
                    _ => {
                        text.append(" = ");
                        push_hex2(&mut text, value);
                        assert(text@ =~= "$"@ + spec_hex4(absolute, true) + " = "@ + spec_hex2(value));
                    },
                }
            },
            AddressingMode::Indirect => {
                let absolute = self.mem_read_u16(incremented_program_counter);
                text.append("$(");
                push_hex4(&mut text, absolute, true);
                text.append(") = ");
                push_hex4(&mut text, value as u16, true);
                assert(text@ =~= "$("@ + spec_hex4(absolute, true) + ") = "@ + spec_hex4(
                    value as u16,
                    true,
                ));
            },
            AddressingMode::Absolute_X => {
                let absolute = self.mem_read_u16(incremented_program_counter);
                text.append("$");
                push_hex4(&mut text, absolute, true);
                text.append(",X @ ");
                push_hex4(&mut text, address, true);
                text.append(" = ");
                push_hex2(&mut text, value);
                assert(text@ =~= "$"@ + spec_hex4(absolute, true) + ",X @ "@ + spec_hex4(address, true)
                    + " = "@ + spec_hex2(value));
            },
            AddressingMode::Absolute_Y => {
                let absolute = self.mem_read_u16(incremented_program_counter);
                text.append("$");
                push_hex4(&mut text, absolute, true);
                text.append(",Y @ ");
                push_hex4(&mut text, address, true);
                text.append(" = ");
                push_hex2(&mut text, value);
                assert(text@ =~= "$"@ + spec_hex4(absolute, true) + ",Y @ "@ + spec_hex4(address, true)
                    + " = "@ + spec_hex2(value));
            },
            _ => {},
        }
        text
    }

    /// An `Indirect_X` argument.
    fn argument_indirect_x(&mut self, m: Mnemonic, mode: AddressingMode, address: u16, value: u8) -> (r: String)
        requires
            mode is Indirect_X,
            old(self)@.trace_argument_ok(mode),
            old(self).program_counter < 0xFFFF,
        ensures
            (final(self)@, r@) == old(self)@.trace_argument(m, mode, address, value),
    {
        proof {
            reveal(CpuView::trace_argument);
        }
        let incremented_program_counter: u16 = self.program_counter + 1;
        let mut text = String::new();
        match mode {
            AddressingMode::Indirect_X => {
                let indirect_address = self.mem_read(incremented_program_counter);
                text.append("($");
                push_hex2(&mut text, indirect_address);
                text.append(",X) @ ");
                let pointer: u8 = indirect_address.wrapping_add(self.reg_x);
                assert(pointer == ((indirect_address + self.reg_x) % 256) as u8);
                push_hex2(&mut text, pointer);
                text.append(" = ");
                push_hex4(&mut text, address, true);
                text.append(" = ");
                push_hex2(&mut text, value);
                assert(text@ =~= "($"@ + spec_hex2(indirect_address) + ",X) @ "@ + spec_hex2(pointer)
                    + " = "@ + spec_hex4(address, true) + " = "@ + spec_hex2(value));
            },
            _ => {},
        }
        text
    }

    /// An `Indirect_Y` argument.
    fn argument_indirect_y(&mut self, m: Mnemonic, mode: AddressingMode, address: u16, value: u8) -> (r: String)
        requires
            mode is Indirect_Y,
            old(self)@.trace_argument_ok(mode),
            old(self).program_counter < 0xFFFF,
        ensures
            (final(self)@, r@) == old(self)@.trace_argument(m, mode, address, value),
    {
        proof {
            reveal(CpuView::trace_argument);
        }
        let incremented_program_counter: u16 = self.program_counter + 1;
        let mut text = String::new();
        match mode {
            AddressingMode::Indirect_Y => {
                let indirect_address = self.mem_read(incremented_program_counter);
                let target = self.mem_read_u16(indirect_address as u16);
                text.append("($");
                push_hex2(&mut text, indirect_address);
                text.append("),Y = ");
                push_hex4(&mut text, target, false);
                text.append(" @ ");
                push_hex4(&mut text, address, false);
                text.append(" = ");
                push_hex2(&mut text, value);
                assert(text@ =~= "($"@ + spec_hex2(indirect_address) + "),Y = "@ + spec_hex4(target, false)
                    + " @ "@ + spec_hex4(address, false) + " = "@ + spec_hex2(value));
            },
            _ => {},
        }
        text
    }

    /// The argument of an instruction without an operand address: nothing, or `A`
    /// for one that works on the accumulator.
    fn argument_without_operand(&mut self, m: Mnemonic, mode: AddressingMode, address: u16, value: u8) -> (r:
        String)
        requires
            mode is NoneAddressing || mode is Accumulator,
        ensures
            (final(self)@, r@) == old(self)@.trace_argument(m, mode, address, value),
    {
        proof {
            reveal(CpuView::trace_argument);
        }
        let mut text = String::new();
        if let AddressingMode::Accumulator = mode {
            text.append("A");
            assert(text@ =~= "A"@);
        }
        text
    }
}

} // verus!
