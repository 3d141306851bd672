use vstd::prelude::*;

verus! {

broadcast use vstd::string::to_string_from_display_ensures_for_str;

/// Size of one program ROM bank (16 KiB).
pub const PRG_ROM_BANK_SIZE_IN_BYTES: usize = 16384;

/// Size of one character ROM bank (8 KiB).
pub const CHR_ROM_BANK_SIZE_IN_BYTES: usize = 8192;

/// How the four logical nametables map onto the 2 KiB of nametable RAM.
#[derive(Debug, PartialEq, Eq, Structural, Clone, Copy)]
pub enum MirroringType {
    Vertical,
    Horizontal,
    FourScreen,
}

/// A cartridge: program ROM, character ROM, mapper number and mirroring.
pub struct Rom {
    pub program_rom: Vec<u8>,
    pub character_rom: Vec<u8>,
    pub mapper: u8,
    pub mirroring: MirroringType,
}

/// Bit `n` (bit 0 least significant) of `x`.
pub open spec fn spec_nth_bit(x: u8, n: u8) -> bool {
    (x >> n) & 1 == 1
}

/// The iNES magic number `NES\x1A` opens the dump.
pub open spec fn spec_has_magic(dump: Seq<u8>) -> bool {
    dump[0] == 0x4E && dump[1] == 0x45 && dump[2] == 0x53 && dump[3] == 0x1A
}

/// Control byte 2 flags an iNES 2.0 (or unknown) header through bit 3 or bit 2.
pub open spec fn spec_is_ines2(dump: Seq<u8>) -> bool {
    spec_nth_bit(dump[7], 3) || spec_nth_bit(dump[7], 2)
}

/// The header passes all checks.
pub open spec fn spec_header_ok(dump: Seq<u8>) -> bool {
    dump.len() >= 16 && spec_has_magic(dump) && !spec_is_ines2(dump)
}

/// Where the program ROM starts: after the header and the 512-byte trainer if any.
pub open spec fn spec_prg_start(dump: Seq<u8>) -> int {
    16 + if spec_nth_bit(dump[6], 2) {
        512int
    } else {
        0int
    }
}

pub open spec fn spec_prg_len(dump: Seq<u8>) -> int {
    dump[4] as int * PRG_ROM_BANK_SIZE_IN_BYTES as int
}

pub open spec fn spec_chr_len(dump: Seq<u8>) -> int {
    dump[5] as int * CHR_ROM_BANK_SIZE_IN_BYTES as int
}

/// The dump is long enough for the ROM banks that its header announces.
pub open spec fn spec_dump_complete(dump: Seq<u8>) -> bool {
    spec_header_ok(dump) ==> spec_prg_start(dump) + spec_prg_len(dump) + spec_chr_len(dump)
        <= dump.len()
}

/// Mapper number: the upper nibble of control byte 1, then the upper nibble of
/// control byte 2.
pub open spec fn spec_mapper(dump: Seq<u8>) -> u8 {
    ((dump[6] / 16) * 16 + dump[7] / 16) as u8
}

pub open spec fn spec_mirroring(dump: Seq<u8>) -> MirroringType {
    if spec_nth_bit(dump[6], 3) {
        MirroringType::FourScreen
    } else if spec_nth_bit(dump[6], 0) {
        MirroringType::Vertical
    } else {
        MirroringType::Horizontal
    }
}

/// Whether the dump is long enough for the ROM banks that its header announces
/// (see [`spec_dump_complete`]).
pub fn dump_complete(rom_dump: &Vec<u8>) -> (r: bool)
    ensures
        r == spec_dump_complete(rom_dump@),
{
    if rom_dump.len() < 16 || rom_dump[0] != 0x4E || rom_dump[1] != 0x45 || rom_dump[2] != 0x53
        || rom_dump[3] != 0x1A || Rom::read_nth_bit(rom_dump[7], 3) || Rom::read_nth_bit(
        rom_dump[7],
        2,
    ) {
        return true;
    }
    let prg_start: usize = if Rom::read_nth_bit(rom_dump[6], 2) {
        16 + 512
    } else {
        16
    };
    let needed: usize = prg_start + rom_dump[4] as usize * PRG_ROM_BANK_SIZE_IN_BYTES
        + rom_dump[5] as usize * CHR_ROM_BANK_SIZE_IN_BYTES;
    needed <= rom_dump.len()
}

/// Copies `v[start..end]` into a new vector.
fn copy_range(v: &Vec<u8>, start: usize, end: usize) -> (r: Vec<u8>)
    requires
        start <= end <= v.len(),
    ensures
        r@ == v@.subrange(start as int, end as int),
{
    let mut r: Vec<u8> = Vec::new();
    let mut i = start;
    while i < end
        invariant
            start <= i <= end <= v.len(),
            r@ == v@.subrange(start as int, i as int),
        decreases end - i,
    {
        r.push(v[i]);
        i += 1;
    }
    r
}

impl Rom {
    /// Parses an iNES 1.0 dump. A dump shorter than the 16-byte header, without
    /// the magic number, or with an iNES 2.0 header is refused with a message.
    pub fn new(rom_dump: &Vec<u8>) -> (r: Result<Rom, String>)
        requires
            spec_dump_complete(rom_dump@),
        ensures
            rom_dump@.len() < 16 ==> (r matches Err(e) && e@ == "Cartridge_data/ROM dump is invalid"@),
            rom_dump@.len() >= 16 && !spec_has_magic(rom_dump@) ==> (r matches Err(e) && e@
                == "ROM Dump is not .NES file"@),
            rom_dump@.len() >= 16 && spec_has_magic(rom_dump@) && spec_is_ines2(rom_dump@) ==> (r matches Err(
                e,
            ) && e@ == "Only support iNES format 1.0"@),
            spec_header_ok(rom_dump@) ==> (r matches Ok(rom) && {
                let d = rom_dump@;
                let p = spec_prg_start(d);
                &&& rom.program_rom@ == d.subrange(p, p + spec_prg_len(d))
                &&& rom.character_rom@ == d.subrange(
                    p + spec_prg_len(d),
                    p + spec_prg_len(d) + spec_chr_len(d),
                )
                &&& rom.mapper == spec_mapper(d)
                &&& rom.mirroring == spec_mirroring(d)
            }),
    {
        // Header is always 16 bytes, so thats the minimum length
        if rom_dump.len() < 16 {
            return Err("Cartridge_data/ROM dump is invalid".to_string());
        }
        // First four bytes need to match 4E 45 53 1A
        if rom_dump[0] != 0x4E || rom_dump[1] != 0x45 || rom_dump[2] != 0x53 || rom_dump[3] != 0x1A {
            return Err("ROM Dump is not .NES file".to_string());
        }
        let num_prg_rom_banks: usize = rom_dump[4] as usize;
        let num_prg_chr_banks: usize = rom_dump[5] as usize;

        let control_byte_1: u8 = rom_dump[6];
        let control_byte_2: u8 = rom_dump[7];

        // iNES format check
        if Rom::read_nth_bit(control_byte_2, 3) || Rom::read_nth_bit(control_byte_2, 2) {
            return Err("Only support iNES format 1.0".to_string());
        }

        let mapper: u8 = (control_byte_1 & 0b1111_0000) | (control_byte_2 >> 4);
        assert((control_byte_1 & 0b1111_0000) | (control_byte_2 >> 4) == (control_byte_1 / 16) * 16
            + control_byte_2 / 16) by (bit_vector);

        let has_trainer: bool = Rom::read_nth_bit(control_byte_1, 2);
        let has_four_screen_vram: bool = Rom::read_nth_bit(control_byte_1, 3);
        let vertical_mirroring: bool = Rom::read_nth_bit(control_byte_1, 0);

        let mirroring: MirroringType = if has_four_screen_vram {
            MirroringType::FourScreen
        } else if vertical_mirroring {
            MirroringType::Vertical
        } else {
            MirroringType::Horizontal
        };

        let mut prg_rom_start: usize = 16;  // Directly after header
        if has_trainer {
            prg_rom_start += 512;
        }
        let chr_rom_start: usize = prg_rom_start + num_prg_rom_banks * PRG_ROM_BANK_SIZE_IN_BYTES;
        let chr_rom_end: usize = chr_rom_start + num_prg_chr_banks * CHR_ROM_BANK_SIZE_IN_BYTES;

        Ok(
            Rom {
                program_rom: copy_range(rom_dump, prg_rom_start, chr_rom_start),
                character_rom: copy_range(rom_dump, chr_rom_start, chr_rom_end),
                mapper,
                mirroring,
            },
        )
    }

    // Reads the n'th bit where the LSB is bit 0
    fn read_nth_bit(source: u8, bit_number: u8) -> (r: bool)
        requires
            bit_number < 8,
        ensures
            r == spec_nth_bit(source, bit_number),
    {
        assert((source & (1u8 << bit_number) != 0) == ((source >> bit_number) & 1 == 1)) by (bit_vector)
            requires
                bit_number < 8,
        ;
        source & (1 << bit_number) != 0
    }
}

impl Rom {
    /// A cartridge with the same contents.
    pub fn duplicate(&self) -> (r: Rom)
        ensures
            r.program_rom@ == self.program_rom@,
            r.character_rom@ == self.character_rom@,
            r.mapper == self.mapper,
            r.mirroring == self.mirroring,
    {
        let r = Rom {
            program_rom: self.program_rom.clone(),
            character_rom: self.character_rom.clone(),
            mapper: self.mapper,
            mirroring: self.mirroring,
        };
        assert(r.program_rom@ =~= self.program_rom@);
        assert(r.character_rom@ =~= self.character_rom@);
        r
    }
}

/// Law: the iNES header fields in terms of its bytes: the magic number is
/// `N`, `E`, `S`, $1A; bits 2 and 3 of byte 7 mark iNES 2.0; byte 4 counts
/// 16 KiB program banks and byte 5 8 KiB character banks; bit 2 of byte 6 adds
/// a 512-byte trainer before the program ROM; the mapper takes its low nibble
/// from the high nibble of byte 6 and its high nibble from that of byte 7; bit 3
/// of byte 6 selects four-screen mirroring, else bit 0 vertical (set) or
/// horizontal (clear).
pub proof fn lemma_header_fields(d: Seq<u8>)
    requires
        d.len() >= 16,
    ensures
        spec_has_magic(d) == (d[0] == 78 && d[1] == 69 && d[2] == 83 && d[3] == 0x1A),
        spec_is_ines2(d) == (d[7] & 0b0000_1100 != 0),
        spec_prg_len(d) == d[4] * 16384,
        spec_chr_len(d) == d[5] * 8192,
        spec_prg_start(d) == if d[6] & 0b0000_0100 != 0 {
            528int
        } else {
            16int
        },
        spec_mapper(d) == (d[6] & 0xF0) | (d[7] >> 4),
        spec_mirroring(d) == if d[6] & 0b0000_1000 != 0 {
            MirroringType::FourScreen
        } else if d[6] & 0b0000_0001 != 0 {
            MirroringType::Vertical
        } else {
            MirroringType::Horizontal
        },
{
    let c1 = d[6];
    let c2 = d[7];
    assert(((c2 >> 3u8) & 1 == 1 || (c2 >> 2u8) & 1 == 1) == (c2 & 0b0000_1100 != 0)
        && ((c1 >> 2u8) & 1 == 1) == (c1 & 0b0000_0100 != 0) && ((c1 >> 3u8) & 1 == 1) == (c1
        & 0b0000_1000 != 0) && ((c1 >> 0u8) & 1 == 1) == (c1 & 0b0000_0001 != 0) && (c1 & 0xF0)
        | (c2 >> 4u8) == (c1 / 16) * 16 + c2 / 16) by (bit_vector);
}

} // verus!
