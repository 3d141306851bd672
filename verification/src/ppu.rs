use vstd::prelude::*;

pub mod registers;

use crate::rom::MirroringType;
use registers::address::{
    spec_address_increment, AddressRegister, AddressRegisterView,
};
use registers::control::{spec_increment_count, ControlRegister};
use registers::mask::MaskRegister;
use registers::scroll::{ScrollRegister, ScrollRegisterView};
use registers::status::{spec_with_bit, StatusRegister};

verus! {

/// The picture processing unit: its memories and the registers that the CPU
/// reaches through $2000-$2007.
pub struct PPU {
    /// Character ROM: the patterns of tiles and sprites.
    pub chr_rom: Vec<u8>,
    /// Background and sprite palettes (16 bytes each).
    pub palette_table: [u8; 32],
    /// Nametable RAM: which tiles go where.
    pub vram: [u8; 2048],
    /// Object attribute memory: 64 sprites of 4 bytes.
    pub oam_data: [u8; 256],
    oam_address: u8,
    pub mirroring: MirroringType,
    /// PPUDATA reads below the palette return this buffer and refill it.
    internal_buffer: u8,
    pub address_register: AddressRegister,
    control_register: ControlRegister,
    mask_register: MaskRegister,
    scroll_register: ScrollRegister,
    pub status_register: StatusRegister,
}

/// Abstract state of the [`PPU`].
#[verifier::ext_equal]
pub struct PpuView {
    pub chr_rom: Seq<u8>,
    pub palette_table: Seq<u8>,
    pub vram: Seq<u8>,
    pub oam_data: Seq<u8>,
    pub oam_address: u8,
    pub mirroring: MirroringType,
    pub internal_buffer: u8,
    pub address: AddressRegisterView,
    pub control: u8,
    pub mask: u8,
    pub scroll: ScrollRegisterView,
    pub status: u8,
}

impl View for PPU {
    type V = PpuView;

    closed spec fn view(&self) -> PpuView {
        PpuView {
            chr_rom: self.chr_rom@,
            palette_table: self.palette_table@,
            vram: self.vram@,
            oam_data: self.oam_data@,
            oam_address: self.oam_address,
            mirroring: self.mirroring,
            internal_buffer: self.internal_buffer,
            address: self.address_register@,
            control: self.control_register@,
            mask: self.mask_register@,
            scroll: self.scroll_register@,
            status: self.status_register@,
        }
    }
}

/// A nametable address: bit 13 set, so that it lies in $2000-$3FFF modulo $4000.
pub open spec fn spec_is_nametable_address(addr: u16) -> bool {
    (addr / 0x2000) % 2 == 1
}

/// The offset in nametable RAM of nametable address `addr`: $3000-$3EFF mirrors
/// $2000-$2EFF; the four 1 KiB nametables fold onto two by the mirroring.
pub open spec fn spec_mirror_vram_addr(mirroring: MirroringType, addr: u16) -> u16 {
    let i = addr % 0x1000;
    let table = i / 0x400;
    match mirroring {
        MirroringType::Vertical => if table >= 2 {
            (i - 0x800) as u16
        } else {
            i
        },
        MirroringType::Horizontal => if table == 1 || table == 2 {
            (i - 0x400) as u16
        } else if table == 3 {
            (i - 0x800) as u16
        } else {
            i
        },
        MirroringType::FourScreen => i,
    }
}

/// The palette entry that address `addr` ($3F00-$3FFF) selects: the range
/// repeats every 32 bytes, and $3F10/$3F14/$3F18/$3F1C mirror $3F00/$3F04/$3F08/$3F0C.
pub open spec fn spec_palette_index(addr: u16) -> int {
    let i = (addr - 0x3F00) % 0x20;
    if i == 0x10 || i == 0x14 || i == 0x18 || i == 0x1C {
        i - 0x10
    } else {
        i
    }
}

/// A freshly powered PPU: all memories and registers zero, the write latches
/// expecting a first byte.
pub open spec fn spec_new_ppu(chr_rom: Seq<u8>, mirroring: MirroringType) -> PpuView {
    PpuView {
        chr_rom: chr_rom,
        palette_table: Seq::new(32, |i: int| 0u8),
        vram: Seq::new(2048, |i: int| 0u8),
        oam_data: Seq::new(256, |i: int| 0u8),
        oam_address: 0,
        mirroring,
        internal_buffer: 0,
        address: AddressRegisterView { data: 0, high_next: true },
        control: 0,
        mask: 0,
        scroll: ScrollRegisterView { scroll_x: 0, scroll_y: 0, x_next: true },
        status: 0,
    }
}

impl PpuView {
    /// The PPU after PPUDATA access has advanced the VRAM address.
    pub open spec fn advanced(self) -> PpuView {
        PpuView {
            address: spec_address_increment(self.address, spec_increment_count(self.control)),
            ..self
        }
    }

    /// A PPUDATA read is possible: character ROM within bounds, a nametable
    /// address ($2000-$3EFF, the upper part mirroring the lower) inside nametable
    /// RAM, or a palette address.
    pub open spec fn read_data_ok(self) -> bool {
        let a = self.address.data;
        if a < 0x2000 {
            a < self.chr_rom.len()
        } else if a < 0x3F00 {
            spec_mirror_vram_addr(self.mirroring, a) < 0x800
        } else {
            0x3F00 <= a <= 0x3FFF
        }
    }

    /// A PPUDATA read: below the palette it returns the buffer and refills it
    /// from the address; palette reads are direct. The address then advances.
    pub open spec fn read_data(self) -> (PpuView, u8) {
        let a = self.address.data;
        let q = self.advanced();
        if a < 0x2000 {
            (PpuView { internal_buffer: self.chr_rom[a as int], ..q }, self.internal_buffer)
        } else if a < 0x3F00 {
            (
                PpuView {
                    internal_buffer: self.vram[spec_mirror_vram_addr(self.mirroring, a) as int],
                    ..q
                },
                self.internal_buffer,
            )
        } else {
            (q, self.palette_table[spec_palette_index(a)])
        }
    }

    /// A PPUDATA write is possible: a nametable address inside nametable RAM, or a
    /// palette address (character ROM is read-only).
    pub open spec fn write_data_ok(self) -> bool {
        let a = self.address.data;
        if 0x2000 <= a < 0x3F00 {
            spec_mirror_vram_addr(self.mirroring, a) < 0x800
        } else {
            0x3F00 <= a <= 0x3FFF
        }
    }

    /// A PPUDATA write stores `value` at the address, then the address advances.
    pub open spec fn write_data(self, value: u8) -> PpuView {
        let a = self.address.data;
        let q = self.advanced();
        if a < 0x3F00 {
            PpuView {
                vram: self.vram.update(spec_mirror_vram_addr(self.mirroring, a) as int, value),
                ..q
            }
        } else {
            PpuView { palette_table: self.palette_table.update(spec_palette_index(a), value), ..q }
        }
    }

    /// A PPUSTATUS read clears vertical blank and resets the shared write latch
    /// of PPUADDR and PPUSCROLL.
    pub open spec fn read_status(self) -> PpuView {
        PpuView {
            status: spec_with_bit(self.status, 7, false),
            address: AddressRegisterView { high_next: true, ..self.address },
            scroll: ScrollRegisterView { x_next: true, ..self.scroll },
            ..self
        }
    }

    /// An OAMDATA write stores `value` at the OAM address, which then advances.
    pub open spec fn write_oam_data(self, value: u8) -> PpuView {
        PpuView {
            oam_data: self.oam_data.update(self.oam_address as int, value),
            oam_address: ((self.oam_address + 1) % 256) as u8,
            ..self
        }
    }

    /// The array sizes of the PPU's memories.
    pub open spec fn wf(self) -> bool {
        &&& self.palette_table.len() == 32
        &&& self.vram.len() == 2048
        &&& self.oam_data.len() == 256
    }
}

impl PPU {
    pub fn new(chr_rom: Vec<u8>, mirroring: MirroringType) -> (r: Self)
        ensures
            r@ == spec_new_ppu(chr_rom@, mirroring),
            r@.wf(),
    {
        let r = PPU {
            chr_rom: chr_rom,
            mirroring: mirroring,
            vram: [0; 2048],
            oam_data: [0; 256],
            oam_address: 0,
            palette_table: [0; 32],
            internal_buffer: 0,
            address_register: AddressRegister::new(),
            control_register: ControlRegister::new(),
            mask_register: MaskRegister::new(),
            scroll_register: ScrollRegister::new(),
            status_register: StatusRegister::new(),
        };
        assert(r.vram@ =~= Seq::new(2048, |i: int| 0u8));
        assert(r.oam_data@ =~= Seq::new(256, |i: int| 0u8));
        assert(r.palette_table@ =~= Seq::new(32, |i: int| 0u8));
        r
    }

    fn increment_vram_address(&mut self)
        ensures
            final(self)@ == old(self)@.advanced(),
    {
        let step = self.control_register.increment_count();
        self.address_register.increment(step);
    }

    fn mirror_palette_addr(&self, addr: u16) -> (r: usize)
        requires
            0x3F00 <= addr,
        ensures
            r == spec_palette_index(addr),
            r < 32,
    {
        // First mirror the entire $3F00-$3FFF range down
        // into the 32-byte palette range $3F00-$3F1F.
        let mut index = (addr - 0x3F00) % 0x20;

        // $3F10/$3F14/$3F18/$3F1C mirror
        // $3F00/$3F04/$3F08/$3F0C.
        if index == 0x10 || index == 0x14 || index == 0x18 || index == 0x1C {
            index -= 0x10;
        }
        index as usize
    }

    /// PPUDATA read ($2007).
    pub fn read_data(&mut self) -> (r: u8)
        requires
            old(self)@.read_data_ok(),
        ensures
            (final(self)@, r) == old(self)@.read_data(),
    {
        let address: u16 = self.address_register.get();
        self.increment_vram_address();

        if address <= 0x1fff {
            let result: u8 = self.internal_buffer;
            self.internal_buffer = self.chr_rom[address as usize];
            result
        } else if address <= 0x3eff {
            // $3000-$3EFF mirrors $2000-$2EFF
            let result: u8 = self.internal_buffer;
            self.internal_buffer = self.vram[self.mirror_vram_addr(address) as usize];
            result
        } else {
            // 32 bytes of palette table
            self.palette_table[self.mirror_palette_addr(address)]
        }
    }

    /// PPUDATA write ($2007).
    pub fn write_data(&mut self, value: u8)
        requires
            old(self)@.write_data_ok(),
        ensures
            final(self)@ == old(self)@.write_data(value),
    {
        let address: u16 = self.address_register.get();
        self.increment_vram_address();

        if address <= 0x3eff {
            // $3000-$3EFF mirrors $2000-$2EFF
            let mirrored_address = self.mirror_vram_addr(address) as usize;
            self.vram[mirrored_address] = value;
        } else {
            // 32 bytes of palette table
            let mirrored_address = self.mirror_palette_addr(address);
            self.palette_table[mirrored_address] = value;
        }
    }

    /// Maps a nametable address to its offset in nametable RAM.
    pub fn mirror_vram_addr(&self, addr: u16) -> (r: u16)
        requires
            spec_is_nametable_address(addr),
        ensures
            r == spec_mirror_vram_addr(self@.mirroring, addr),
    {
        let a0 = addr;
        let mut addr = addr;
        assert((a0 & 0b10111111111111) >= 0x2000 && (a0 & 0b10111111111111) - 0x2000 == a0 % 0x1000)
            by (bit_vector)
            requires
                (a0 / 0x2000) % 2 == 1,
        ;
        addr &= 0b10111111111111;  // mirror down 0x3000-0x3eff to 0x2000 - 0x2eff
        addr -= 0x2000;
        let name_table = addr / 0x400;
        match self.mirroring {
            MirroringType::Vertical => {
                if name_table == 2 || name_table == 3 {
                    addr - 0x800
                } else {
                    addr
                }
            },
            MirroringType::Horizontal => {
                if name_table == 1 || name_table == 2 {
                    addr - 0x400
                } else if name_table == 3 {
                    addr - 0x800
                } else {
                    addr
                }
            },
            _ => addr,
        }
    }

    pub fn write_to_address_register(&mut self, value: u8)
        ensures
            final(self)@ == (PpuView {
                address: registers::address::spec_address_update(old(self)@.address, value),
                ..old(self)@
            }),
    {
        self.address_register.update(value);
    }

    pub fn write_to_control_register(&mut self, value: u8)
        ensures
            final(self)@ == (PpuView { control: value, ..old(self)@ }),
    {
        self.control_register.update(value);
    }

    pub fn write_to_mask_register(&mut self, value: u8)
        ensures
            final(self)@ == (PpuView { mask: value, ..old(self)@ }),
    {
        self.mask_register.update(value);
    }

    pub fn write_to_scroll_register(&mut self, value: u8)
        ensures
            final(self)@ == (PpuView {
                scroll: registers::scroll::spec_scroll_update(old(self)@.scroll, value),
                ..old(self)@
            }),
    {
        self.scroll_register.update(value);
    }

    pub fn write_to_oam_address_register(&mut self, value: u8)
        ensures
            final(self)@ == (PpuView { oam_address: value, ..old(self)@ }),
    {
        self.oam_address = value;
    }

    pub fn read_oam_data_register(&self) -> (r: u8)
        ensures
            r == self@.oam_data[self@.oam_address as int],
    {
        self.oam_data[self.oam_address as usize]
    }

    pub fn write_to_oam_data_register(&mut self, value: u8)
        ensures
            final(self)@ == old(self)@.write_oam_data(value),
    {
        self.oam_data[self.oam_address as usize] = value;
        self.oam_address = self.oam_address.wrapping_add(1);
    }

    /// OAM DMA: writes the 256 bytes of `data` through OAMDATA, starting at the
    /// current OAM address and wrapping around; the OAM address ends where it began.
    pub fn write_oam_dma(&mut self, data: &[u8; 256])
        ensures
            final(self)@ == (PpuView {
                oam_data: Seq::new(
                    256,
                    |j: int| data@[(j - old(self)@.oam_address) % 256],
                ),
                ..old(self)@
            }),
    {
        let ghost start = self.oam_address;
        let ghost before = self@;
        let mut i: usize = 0;
        while i < 256
            invariant
                0 <= i <= 256,
                self@ == (PpuView {
                    oam_data: self@.oam_data,
                    oam_address: ((start + i) % 256) as u8,
                    ..before
                }),
                self@.oam_data.len() == 256,
                forall|j: int|
                    0 <= j < 256 ==> #[trigger] self@.oam_data[j] == if (j - start) % 256 < i {
                        data@[(j - start) % 256]
                    } else {
                        before.oam_data[j]
                    },
            decreases 256 - i,
        {
            self.write_to_oam_data_register(data[i]);
            i += 1;
        }
        assert(self@.oam_data =~= Seq::new(256, |j: int| data@[(j - start) % 256]));
    }

    /// PPUSTATUS read ($2002).
    pub fn read_status_register(&mut self) -> (r: u8)
        ensures
            r == old(self)@.status,
            final(self)@ == old(self)@.read_status(),
    {
        let status = self.status_register.get();

        // Reading PPUSTATUS clears vblank and resets the shared write latch used
        // by PPUSCROLL and PPUADDR.
        self.status_register.set_vblank(false);
        self.address_register.reset_latch();
        self.scroll_register.reset_latch();

        status
    }
}

/// Law: with vertical or horizontal mirroring every nametable address lands
/// inside the 2 KiB of nametable RAM.
pub proof fn lemma_mirror_in_ram(mirroring: MirroringType, addr: u16)
    requires
        mirroring != MirroringType::FourScreen,
    ensures
        spec_mirror_vram_addr(mirroring, addr) < 0x800,
{
}

/// Law: PPUDATA at $3000-$3EFF acts as PPUDATA at the address $1000 lower: the
/// same byte is read (through the buffer) or written; only the address that
/// advances afterwards differs.
pub proof fn lemma_ppudata_upper_mirror(p: PpuView, value: u8)
    requires
        0x3000 <= p.address.data < 0x3F00,
    ensures
        ({
            let lower = PpuView {
                address: AddressRegisterView { data: (p.address.data - 0x1000) as u16, ..p.address },
                ..p
            };
            &&& p.read_data_ok() == lower.read_data_ok()
            &&& p.read_data().1 == lower.read_data().1
            &&& p.read_data().0.internal_buffer == lower.read_data().0.internal_buffer
            &&& p.write_data_ok() == lower.write_data_ok()
            &&& p.write_data(value).vram == lower.write_data(value).vram
            &&& p.write_data(value).palette_table == lower.write_data(value).palette_table
        }),
{
    lemma_mirror_upper_region(p.mirroring, (p.address.data - 0x1000) as u16);
}

/// Law: after a PPUDATA read or write the VRAM address has advanced by 32 when
/// bit 2 of PPUCTRL is set, and by 1 otherwise, wrapping inside $0000-$3FFF.
pub proof fn lemma_ppudata_advances(p: PpuView, value: u8)
    ensures
        ({
            let step: int = if p.control & 0b0000_0100 != 0 {
                32
            } else {
                1
            };
            &&& p.read_data().0.address.data == (p.address.data + step) % 0x4000
            &&& p.write_data(value).address.data == (p.address.data + step) % 0x4000
        }),
{
    crate::ppu::registers::control::lemma_increment_follows_bit_2(p.control);
}

/// The palette entries that two palette addresses share: the range repeats every
/// 32 bytes, and the first entry of each group of four in the upper 16 is the
/// matching one of the lower 16.
pub open spec fn spec_same_palette_entry(a: u16, b: u16) -> bool {
    let i = (a - 0x3F00) % 32;
    let j = (b - 0x3F00) % 32;
    i == j || (i % 4 == 0 && (i + 16) % 32 == j)
}

/// Law: two palette addresses select the same palette entry exactly when they
/// share an entry as `spec_same_palette_entry` says ($3F10, $3F14, $3F18, $3F1C
/// and their repeats are $3F00, $3F04, $3F08, $3F0C; all other addresses of a
/// 32-byte group are distinct entries), and every entry is one of the 32.
pub proof fn lemma_palette_entries(a: u16, b: u16)
    requires
        0x3F00 <= a <= 0x3FFF,
        0x3F00 <= b <= 0x3FFF,
    ensures
        0 <= spec_palette_index(a) < 32,
        (spec_palette_index(a) == spec_palette_index(b)) == spec_same_palette_entry(a, b),
{
}

/// Law: PPUDATA writes never change character ROM, and writes to the pattern
/// tables ($0000-$1FFF, which live in character ROM) are refused.
pub proof fn lemma_write_data_keeps_chr_rom(p: PpuView, value: u8)
    ensures
        p.write_data(value).chr_rom == p.chr_rom,
        p.address.data < 0x2000 ==> !p.write_data_ok(),
{
}

/// Law: $3000-$3EFF is a mirror of $2000-$2EFF.
pub proof fn lemma_mirror_upper_region(mirroring: MirroringType, addr: u16)
    requires
        0x2000 <= addr < 0x2F00,
    ensures
        spec_mirror_vram_addr(mirroring, (addr + 0x1000) as u16) == spec_mirror_vram_addr(
            mirroring,
            addr,
        ),
{
}

/// Law: horizontal mirroring makes $2000 and $2400 one nametable, $2800 and
/// $2C00 another, and the two distinct.
pub proof fn lemma_horizontal_mirroring(k: u16)
    requires
        k < 0x400,
    ensures
        spec_mirror_vram_addr(MirroringType::Horizontal, (0x2000 + k) as u16) == spec_mirror_vram_addr(
            MirroringType::Horizontal,
            (0x2400 + k) as u16,
        ),
        spec_mirror_vram_addr(MirroringType::Horizontal, (0x2800 + k) as u16) == spec_mirror_vram_addr(
            MirroringType::Horizontal,
            (0x2C00 + k) as u16,
        ),
        spec_mirror_vram_addr(MirroringType::Horizontal, (0x2000 + k) as u16) != spec_mirror_vram_addr(
            MirroringType::Horizontal,
            (0x2800 + k) as u16,
        ),
{
}

/// Law: vertical mirroring makes $2000 and $2800 one nametable, $2400 and
/// $2C00 another, and the two distinct.
pub proof fn lemma_vertical_mirroring(k: u16)
    requires
        k < 0x400,
    ensures
        spec_mirror_vram_addr(MirroringType::Vertical, (0x2000 + k) as u16) == spec_mirror_vram_addr(
            MirroringType::Vertical,
            (0x2800 + k) as u16,
        ),
        spec_mirror_vram_addr(MirroringType::Vertical, (0x2400 + k) as u16) == spec_mirror_vram_addr(
            MirroringType::Vertical,
            (0x2C00 + k) as u16,
        ),
        spec_mirror_vram_addr(MirroringType::Vertical, (0x2000 + k) as u16) != spec_mirror_vram_addr(
            MirroringType::Vertical,
            (0x2400 + k) as u16,
        ),
{
}

/// Law: a byte written through PPUDATA to a nametable address is what two
/// PPUDATA reads (the first only fills the buffer) give back from any address
/// that mirrors onto the same nametable byte, as long as the second read is not
/// a palette read.
pub proof fn lemma_vram_write_then_read(p: PpuView, value: u8, b: AddressRegisterView)
    requires
        p.wf(),
        p.write_data_ok(),
        0x2000 <= p.address.data < 0x3F00,
        0x2000 <= b.data < 0x3F00,
        spec_address_increment(b, spec_increment_count(p.control)).data < 0x3F00,
        spec_mirror_vram_addr(p.mirroring, b.data) == spec_mirror_vram_addr(
            p.mirroring,
            p.address.data,
        ),
    ensures
        ({
            let q = PpuView { address: b, ..p.write_data(value) };
            q.read_data_ok() && q.read_data().0.read_data().1 == value
        }),
{
    let m = spec_mirror_vram_addr(p.mirroring, p.address.data);
    let q = PpuView { address: b, ..p.write_data(value) };
    assert(q.vram == p.vram.update(m as int, value));
    assert(q.vram[m as int] == value);
    assert(q.read_data().0.internal_buffer == value);
}

/// Law: a byte written through PPUDATA to a palette address is what a PPUDATA
/// read (palette reads are not buffered) gives back from any palette address
/// that selects the same entry.
pub proof fn lemma_palette_write_then_read(p: PpuView, value: u8, b: AddressRegisterView)
    requires
        p.wf(),
        0x3F00 <= p.address.data <= 0x3FFF,
        0x3F00 <= b.data <= 0x3FFF,
        spec_palette_index(b.data) == spec_palette_index(p.address.data),
    ensures
        ({
            let q = PpuView { address: b, ..p.write_data(value) };
            q.read_data_ok() && q.read_data().1 == value
        }),
{
}

/// Law: an OAMDATA write followed by pointing OAMADDR back at it reads the byte back.
pub proof fn lemma_oam_write_then_read(p: PpuView, value: u8)
    requires
        p.wf(),
    ensures
        ({
            let q = PpuView { oam_address: p.oam_address, ..p.write_oam_data(value) };
            q.oam_data[q.oam_address as int] == value
        }),
{
}

/// Law: reading PPUSTATUS clears the vertical blank flag and resets the PPUADDR latch.
pub proof fn lemma_status_read_clears_vblank(p: PpuView)
    ensures
        p.read_status().status < 0x80,
        p.read_status().status % 0x80 == p.status % 0x80,
        p.read_status().address.high_next,
{
    let s = p.status;
    assert((s & !(1u8 << 7u8)) < 0x80 && (s & !(1u8 << 7u8)) % 0x80 == s % 0x80) by (bit_vector);
}

impl PPU {
    /// Whether a PPUDATA read is possible now.
    pub fn can_read_data(&self) -> (r: bool)
        ensures
            r == self@.read_data_ok(),
    {
        let a = self.address_register.get();
        if a < 0x2000 {
            (a as usize) < self.chr_rom.len()
        } else if a < 0x3F00 {
            self.mirror_vram_addr(a) < 0x800
        } else {
            0x3F00 <= a && a <= 0x3FFF
        }
    }

    /// Whether a PPUDATA write is possible now.
    pub fn can_write_data(&self) -> (r: bool)
        ensures
            r == self@.write_data_ok(),
    {
        let a = self.address_register.get();
        if 0x2000 <= a && a < 0x3F00 {
            self.mirror_vram_addr(a) < 0x800
        } else {
            0x3F00 <= a && a <= 0x3FFF
        }
    }

    /// Every PPU is well formed: its memories have their fixed sizes.
    pub proof fn lemma_wf(&self)
        ensures
            self@.wf(),
    {
    }

    /// A PPU in the same state.
    pub fn duplicate(&self) -> (r: PPU)
        ensures
            r@ == self@,
    {
        let r = PPU {
            chr_rom: self.chr_rom.clone(),
            palette_table: self.palette_table,
            vram: self.vram,
            oam_data: self.oam_data,
            oam_address: self.oam_address,
            mirroring: self.mirroring,
            internal_buffer: self.internal_buffer,
            address_register: self.address_register,
            control_register: self.control_register,
            mask_register: self.mask_register,
            scroll_register: self.scroll_register,
            status_register: self.status_register,
        };
        assert(r.chr_rom@ =~= self.chr_rom@);
        r
    }
}

} // verus!
