use vstd::prelude::*;

use crate::bits::lemma_u16_bits;
use crate::memory::Memory;
use crate::ppu::registers::address::spec_address_update;
use crate::ppu::registers::scroll::spec_scroll_update;
use crate::ppu::{spec_new_ppu, PpuView, PPU};
use crate::rom::{MirroringType, Rom};

verus! {

/// CPU RAM, mirrored through $0000-$1FFF.
pub const RAM: u16 = 0x0000;

pub const RAM_MIRRORS_END: u16 = 0x1FFF;

/// Program ROM, $8000-$FFFF.
pub const PROGRAM_MEMORY_START: u16 = 0x8000;

pub const PROGRAM_MEMORY_END: u16 = 0xFFFF;

/// The eight PPU registers, mirrored through $2000-$3FFF.
pub const PPU_REGISTERS: u16 = 0x2000;

pub const PPU_REGISTERS_MIRRORS_END: u16 = 0x3FFF;

/// The CPU's address bus: 2 KiB of RAM, the PPU registers and the cartridge's program ROM.
pub struct Bus {
    cpu_ram: [u8; 2048],
    rom: Rom,
    ppu: PPU,
}

/// Abstract state of the [`Bus`]: RAM, the cartridge (program ROM, character
/// ROM, mapper number and mirroring) and the PPU.
#[verifier::ext_equal]
pub struct BusView {
    pub ram: Seq<u8>,
    pub prg: Seq<u8>,
    pub chr: Seq<u8>,
    pub mapper: u8,
    pub mirroring: MirroringType,
    pub ppu: PpuView,
}

impl View for Bus {
    type V = BusView;

    closed spec fn view(&self) -> BusView {
        BusView {
            ram: self.cpu_ram@,
            prg: self.rom.program_rom@,
            chr: self.rom.character_rom@,
            mapper: self.rom.mapper,
            mirroring: self.rom.mirroring,
            ppu: self.ppu@,
        }
    }
}

/// The PPU register ($2000-$2007) that an address of $2000-$3FFF selects.
pub open spec fn spec_ppu_register(address: u16) -> u16 {
    (0x2000 + (address - 0x2000) % 8) as u16
}

impl BusView {
    /// The index in program ROM of offset `offset` from $8000: a 16 KiB ROM is
    /// mirrored into the upper half.
    pub open spec fn prg_index(self, offset: u16) -> int {
        if self.prg.len() == 0x4000 && offset >= 0x4000 {
            offset as int % 0x4000
        } else {
            offset as int
        }
    }

    #[verifier::opaque]
    pub open spec fn read_ok(self, address: u16) -> bool {
        if address <= RAM_MIRRORS_END {
            true
        } else if address >= PROGRAM_MEMORY_START {
            self.prg_index((address - 0x8000) as u16) < self.prg.len()
        } else if address <= PPU_REGISTERS_MIRRORS_END {
            spec_ppu_register(address) == 0x2007 ==> self.ppu.read_data_ok()
        } else {
            true
        }
    }

    /// A CPU read: RAM, program ROM, or PPUSTATUS/OAMDATA/PPUDATA (the other PPU
    /// registers are write-only and read as 0); unmapped addresses read as 0.
    #[verifier::opaque]
    pub open spec fn read(self, address: u16) -> (BusView, u8) {
        if address <= RAM_MIRRORS_END {
            (self, self.ram[address as int % 2048])
        } else if address >= PROGRAM_MEMORY_START {
            (self, self.prg[self.prg_index((address - 0x8000) as u16)])
        } else if address <= PPU_REGISTERS_MIRRORS_END {
            let reg = spec_ppu_register(address);
            if reg == 0x2002 {
                (BusView { ppu: self.ppu.read_status(), ..self }, self.ppu.status)
            } else if reg == 0x2004 {
                (self, self.ppu.oam_data[self.ppu.oam_address as int])
            } else if reg == 0x2007 {
                (BusView { ppu: self.ppu.read_data().0, ..self }, self.ppu.read_data().1)
            } else {
                (self, 0)
            }
        } else {
            (self, 0)
        }
    }

    /// A write is possible everywhere but program ROM, PPUSTATUS, and PPUDATA
    /// where the PPU cannot store.
    #[verifier::opaque]
    pub open spec fn write_ok(self, address: u16) -> bool {
        if address <= RAM_MIRRORS_END {
            true
        } else if address <= PPU_REGISTERS_MIRRORS_END {
            let reg = spec_ppu_register(address);
            reg != 0x2002 && (reg == 0x2007 ==> self.ppu.write_data_ok())
        } else {
            address < PROGRAM_MEMORY_START
        }
    }

    /// A CPU write: RAM, or one of the PPU's write registers; unmapped addresses ignore it.
    #[verifier::opaque]
    pub open spec fn write(self, address: u16, value: u8) -> BusView {
        if address <= RAM_MIRRORS_END {
            BusView { ram: self.ram.update(address as int % 2048, value), ..self }
        } else if address <= PPU_REGISTERS_MIRRORS_END {
            let reg = spec_ppu_register(address);
            let p = self.ppu;
            BusView {
                ppu: if reg == 0x2000 {
                    PpuView { control: value, ..p }
                } else if reg == 0x2001 {
                    PpuView { mask: value, ..p }
                } else if reg == 0x2003 {
                    PpuView { oam_address: value, ..p }
                } else if reg == 0x2004 {
                    p.write_oam_data(value)
                } else if reg == 0x2005 {
                    PpuView { scroll: spec_scroll_update(p.scroll, value), ..p }
                } else if reg == 0x2006 {
                    PpuView { address: spec_address_update(p.address, value), ..p }
                } else {
                    p.write_data(value)
                },
                ..self
            }
        } else {
            self
        }
    }

    pub open spec fn wf(self) -> bool {
        self.ram.len() == 2048 && self.ppu.wf()
    }
}

impl Bus {
    /// A bus with cleared RAM around `rom`; the PPU gets a copy of the character ROM.
    pub fn new(rom: Rom) -> (r: Bus)
        ensures
            r@ == (BusView {
                ram: Seq::new(2048, |i: int| 0u8),
                prg: rom.program_rom@,
                chr: rom.character_rom@,
                mapper: rom.mapper,
                mirroring: rom.mirroring,
                ppu: spec_new_ppu(rom.character_rom@, rom.mirroring),
            }),
            r@.wf(),
    {
        let ppu = PPU::new(rom.character_rom.clone(), rom.mirroring);
        let r = Bus { cpu_ram: [0; 2048], rom: rom, ppu: ppu };
        assert(r.cpu_ram@ =~= Seq::new(2048, |i: int| 0u8));
        r
    }

    fn read_program_memory(&self, address: u16) -> (r: u8)
        requires
            address < 0x8000,
            self@.prg_index(address) < self@.prg.len(),
        ensures
            r == self@.prg[self@.prg_index(address)],
    {
        let mut address = address;
        // Program memory is either 16kb or 32kb long; a 16kb ROM is mirrored into the upper half
        if self.rom.program_rom.len() == 0x4000 && address >= 0x4000 {
            address %= 0x4000;
        }
        self.rom.program_rom[address as usize]
    }
}

impl Memory for Bus {
    open spec fn read_ok(state: BusView, address: u16) -> bool {
        state.read_ok(address)
    }

    open spec fn read(state: BusView, address: u16) -> (BusView, u8) {
        state.read(address)
    }

    open spec fn write_ok(state: BusView, address: u16) -> bool {
        state.write_ok(address)
    }

    open spec fn write(state: BusView, address: u16, value: u8) -> BusView {
        state.write(address, value)
    }

    fn mem_read(&mut self, address: u16) -> (r: u8) {
        proof {
            reveal(BusView::read_ok);
            reveal(BusView::read);
        }
        if address <= RAM_MIRRORS_END {
            // Only the 11 least significant bits reach the 2 KiB of RAM
            let trimmed_address = address & 0b_0000_0111_1111_1111;
            proof {
                lemma_u16_bits(address);
            }
            self.cpu_ram[trimmed_address as usize]
        } else if address >= PROGRAM_MEMORY_START {
            self.read_program_memory(address - 0x8000)
        } else if address <= PPU_REGISTERS_MIRRORS_END {
            let mirrored_address = PPU_REGISTERS + (address - PPU_REGISTERS) % 8;
            if mirrored_address == 0x2002 {
                self.ppu.read_status_register()
            } else if mirrored_address == 0x2004 {
                self.ppu.read_oam_data_register()
            } else if mirrored_address == 0x2007 {
                self.ppu.read_data()
            } else {
                // Write-only PPU registers behave like an open bus when read;
                // until the bus tracks its last value, they read as zero.
                0
            }
        } else {
            0
        }
    }

    fn mem_write(&mut self, address: u16, value: u8) {
        proof {
            reveal(BusView::write_ok);
            reveal(BusView::write);
        }
        if address <= RAM_MIRRORS_END {
            // Only the 11 least significant bits reach the 2 KiB of RAM
            let trimmed_address = address & 0b_0000_0111_1111_1111;
            proof {
                lemma_u16_bits(address);
            }
            self.cpu_ram[trimmed_address as usize] = value;
        } else if address <= PPU_REGISTERS_MIRRORS_END {
            let mirrored_address = PPU_REGISTERS + (address - PPU_REGISTERS) % 8;
            if mirrored_address == 0x2000 {
                self.ppu.write_to_control_register(value);
            } else if mirrored_address == 0x2001 {
                self.ppu.write_to_mask_register(value);
            } else if mirrored_address == 0x2003 {
                self.ppu.write_to_oam_address_register(value);
            } else if mirrored_address == 0x2004 {
                self.ppu.write_to_oam_data_register(value);
            } else if mirrored_address == 0x2005 {
                self.ppu.write_to_scroll_register(value);
            } else if mirrored_address == 0x2006 {
                self.ppu.write_to_address_register(value);
            } else {
                self.ppu.write_data(value);
            }
        }
    }
}

/// Law: only the PPU registers change state when read.
pub proof fn lemma_read_keeps_state(b: BusView, address: u16)
    requires
        !(PPU_REGISTERS <= address <= PPU_REGISTERS_MIRRORS_END),
    ensures
        b.read(address).0 == b,
{
    reveal(BusView::read);
}

/// Law: $0000-$1FFF mirrors the 2 KiB of RAM every $800 bytes.
pub proof fn lemma_ram_mirroring(b: BusView, address: u16)
    requires
        address <= RAM_MIRRORS_END,
    ensures
        b.read(address) == b.read((address % 0x800) as u16),
        b.write(address, 0) == b.write((address % 0x800) as u16, 0),
{
    reveal(BusView::read);
    reveal(BusView::read_ok);
    reveal(BusView::write);
    reveal(BusView::write_ok);
}

/// Law: a byte written to RAM is read back from any of its mirrors, and no
/// other RAM byte changes.
pub proof fn lemma_ram_write_then_read(b: BusView, a: u16, c: u16, value: u8)
    requires
        b.wf(),
        a <= RAM_MIRRORS_END,
        c <= RAM_MIRRORS_END,
    ensures
        b.write_ok(a),
        a % 0x800 == c % 0x800 ==> b.write(a, value).read(c).1 == value,
        a % 0x800 != c % 0x800 ==> b.write(a, value).read(c).1 == b.read(c).1,
{
    reveal(BusView::read);
    reveal(BusView::read_ok);
    reveal(BusView::write);
    reveal(BusView::write_ok);
}

/// Law: a 16-bit value written to RAM is read back as the same value.
pub proof fn lemma_ram_write_then_read_u16(b: BusView, a: u16, value: u16)
    requires
        b.wf(),
        a < RAM_MIRRORS_END,
    ensures
        ({
            let lo = (value % 256) as u8;
            let hi = (value / 256) as u8;
            let w = b.write(a, lo).write((a + 1) as u16, hi);
            w.read(a).1 as int + 256 * w.read((a + 1) as u16).1 as int == value
        }),
{
    reveal(BusView::read);
    reveal(BusView::write);
}

/// Law: a 16 KiB program ROM appears twice, at $8000 and at $C000.
pub proof fn lemma_prg_mirroring(b: BusView, k: u16)
    requires
        b.prg.len() == 0x4000,
        k < 0x4000,
    ensures
        b.read((0x8000 + k) as u16) == b.read((0xC000 + k) as u16),
        b.read_ok((0x8000 + k) as u16),
{
    reveal(BusView::read);
    reveal(BusView::read_ok);
    reveal(BusView::write);
    reveal(BusView::write_ok);
}

/// Law: program ROM ($8000-$FFFF) and PPUSTATUS (every $2002 + 8k) refuse writes;
/// $4000-$7FFF is unmapped: writes there are possible and change nothing, and
/// reads give 0 and change nothing.
pub proof fn lemma_write_rules(b: BusView, address: u16, value: u8)
    ensures
        address >= PROGRAM_MEMORY_START ==> !b.write_ok(address),
        PPU_REGISTERS <= address <= PPU_REGISTERS_MIRRORS_END && address % 8 == 2 ==> !b.write_ok(
            address,
        ),
        0x4000 <= address < PROGRAM_MEMORY_START ==> b.write_ok(address) && b.write(address, value)
            == b && b.read_ok(address) && b.read(address) == (b, 0u8),
{
    reveal(BusView::read);
    reveal(BusView::read_ok);
    reveal(BusView::write);
    reveal(BusView::write_ok);
}

/// Law: a bus write to PPUCTRL sets the control register, to PPUMASK the mask
/// register, to OAMADDR the OAM address, to PPUSCROLL the scroll register and to
/// PPUADDR the VRAM address register (one byte per write); no write to a PPU
/// register touches RAM, and only PPUCTRL and PPUMASK writes change those two.
pub proof fn lemma_ppu_register_writes(b: BusView, address: u16, value: u8)
    requires
        PPU_REGISTERS <= address <= PPU_REGISTERS_MIRRORS_END,
    ensures
        ({
            let reg = spec_ppu_register(address);
            let q = b.write(address, value).ppu;
            &&& b.write(address, value).ram == b.ram
            &&& reg == 0x2000 ==> q.control == value && q.mask == b.ppu.mask && q.address
                == b.ppu.address
            &&& reg == 0x2001 ==> q.mask == value && q.control == b.ppu.control && q.address
                == b.ppu.address
            &&& reg == 0x2003 ==> q.oam_address == value && q.control == b.ppu.control && q.mask
                == b.ppu.mask
            &&& reg == 0x2005 ==> q.scroll == spec_scroll_update(b.ppu.scroll, value) && q.control
                == b.ppu.control && q.mask == b.ppu.mask
            &&& reg == 0x2006 ==> q.address == spec_address_update(b.ppu.address, value) && q.control
                == b.ppu.control && q.mask == b.ppu.mask
            &&& (reg == 0x2004 || reg == 0x2007) ==> q.control == b.ppu.control && q.mask
                == b.ppu.mask
        }),
{
    reveal(BusView::write);
}

/// Law: the eight PPU registers repeat every 8 bytes through $2000-$3FFF; an
/// access there acts as one on the register that the address selects.
pub proof fn lemma_ppu_register_mirroring(b: BusView, address: u16, value: u8)
    requires
        PPU_REGISTERS <= address <= PPU_REGISTERS_MIRRORS_END,
    ensures
        b.read_ok(address) == b.read_ok(spec_ppu_register(address)),
        b.read(address) == b.read(spec_ppu_register(address)),
        b.write_ok(address) == b.write_ok(spec_ppu_register(address)),
        b.write(address, value) == b.write(spec_ppu_register(address), value),
{
    reveal(BusView::read);
    reveal(BusView::read_ok);
    reveal(BusView::write);
    reveal(BusView::write_ok);
    assert(spec_ppu_register(spec_ppu_register(address)) == spec_ppu_register(address));
}

/// RAM accesses are always possible, leave the rest of the bus as it was, and
/// go to the byte that the low 11 address bits select.
pub proof fn lemma_ram_access(b: BusView, address: u16, value: u8)
    requires
        address <= RAM_MIRRORS_END,
    ensures
        b.read_ok(address),
        b.write_ok(address),
        b.read(address) == (b, b.ram[address as int % 2048]),
        b.write(address, value) == (BusView { ram: b.ram.update(address as int % 2048, value), ..b }),
{
    reveal(BusView::read);
    reveal(BusView::read_ok);
    reveal(BusView::write);
    reveal(BusView::write_ok);
}

/// Reads change at most the PPU: RAM and program ROM stay as they were.
pub broadcast proof fn lemma_read_keeps_memory(b: BusView, address: u16)
    ensures
        (#[trigger] b.read(address)).0.ram == b.ram,
        b.read(address).0.prg == b.prg,
        b.wf() ==> b.read(address).0.wf(),
{
    reveal(BusView::read);
}

impl Bus {
    /// Whether a read of `address` is possible now.
    pub fn can_read(&self, address: u16) -> (r: bool)
        ensures
            r == self@.read_ok(address),
    {
        proof {
            reveal(BusView::read_ok);
        }
        if address <= RAM_MIRRORS_END {
            true
        } else if address >= PROGRAM_MEMORY_START {
            let mut offset = address - 0x8000;
            if self.rom.program_rom.len() == 0x4000 && offset >= 0x4000 {
                offset %= 0x4000;
            }
            (offset as usize) < self.rom.program_rom.len()
        } else if address <= PPU_REGISTERS_MIRRORS_END {
            let register = PPU_REGISTERS + (address - PPU_REGISTERS) % 8;
            register != 0x2007 || self.ppu.can_read_data()
        } else {
            true
        }
    }

    /// Whether a write to `address` is possible now.
    pub fn can_write(&self, address: u16) -> (r: bool)
        ensures
            r == self@.write_ok(address),
    {
        proof {
            reveal(BusView::write_ok);
        }
        if address <= RAM_MIRRORS_END {
            true
        } else if address <= PPU_REGISTERS_MIRRORS_END {
            let register = PPU_REGISTERS + (address - PPU_REGISTERS) % 8;
            register != 0x2002 && (register != 0x2007 || self.ppu.can_write_data())
        } else {
            address < PROGRAM_MEMORY_START
        }
    }

    /// Every bus is well formed: RAM has its fixed size, and so do the PPU's memories.
    pub proof fn lemma_wf(&self)
        ensures
            self@.wf(),
    {
        self.ppu.lemma_wf();
    }

    /// A bus in the same state.
    pub fn duplicate(&self) -> (r: Bus)
        ensures
            r@ == self@,
    {
        Bus { cpu_ram: self.cpu_ram, rom: self.rom.duplicate(), ppu: self.ppu.duplicate() }
    }
}

} // verus!
