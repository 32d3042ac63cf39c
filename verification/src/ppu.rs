use crate::cartridge::MirrorMode;
use crate::mapper::{Mapper, MapperState};
use vstd::prelude::*;

verus! {

pub const SCREEN_WIDTH: usize = 256;

pub const SCREEN_HEIGHT: usize = 240;

/// Number of pixels in one frame.
pub const SCREEN_PIXELS: usize = 61440;

/// Dots of a scanline that emit a pixel: 1 through this one.
pub const SCANLINE_DOTS: u32 = 256;

/// Last dot of a full scanline.
pub const SCANLINE_END_CYCLE: u32 = 340;

/// The scanline before the first visible one.
pub const PRE_RENDER_LINE: u32 = 261;

/// The registers of the picture unit: the three the CPU sees as control,
/// mask and status, the OAM address, and the internal scroll state.
#[derive(Clone, Copy, Debug)]
pub struct PPURegisters {
    pub control: u8,
    pub mask: u8,
    pub status: u8,
    pub oam_addr: u8,
    /// The shared first/second write toggle of the scroll and address ports.
    pub address_latch: bool,
    pub fine_x: u8,
    /// The current VRAM address, 15 bits.
    pub vram_addr: u16,
    /// The temporary VRAM address, 15 bits.
    pub tmp_vram_addr: u16,
    pub data_buffer: u8,
}

impl PPURegisters {
    /// Every register zero and the write toggle clear.
    pub open spec fn power_on() -> PPURegisters {
        PPURegisters {
            control: 0,
            mask: 0,
            status: 0,
            oam_addr: 0,
            address_latch: false,
            fine_x: 0,
            vram_addr: 0,
            tmp_vram_addr: 0,
            data_buffer: 0,
        }
    }

    /// Both addresses fit in 15 bits and fine X in 3.
    pub open spec fn wf(self) -> bool {
        &&& self.vram_addr <= 0x7FFF
        &&& self.tmp_vram_addr <= 0x7FFF
        &&& self.fine_x <= 7
    }

    pub fn new() -> (r: Self)
        ensures
            r == PPURegisters::power_on(),
    {
        PPURegisters {
            control: 0,
            mask: 0,
            status: 0,
            oam_addr: 0,
            address_latch: false,
            fine_x: 0,
            vram_addr: 0,
            tmp_vram_addr: 0,
            data_buffer: 0,
        }
    }

    pub fn reset(&mut self)
        ensures
            *final(self) == PPURegisters::power_on(),
    {
        self.control = 0;
        self.mask = 0;
        self.status = 0;
        self.oam_addr = 0;
        self.address_latch = false;
        self.fine_x = 0;
        self.vram_addr = 0;
        self.tmp_vram_addr = 0;
        self.data_buffer = 0;
    }
}

/// The picture unit: registers, nametable RAM, palette RAM, sprite memory,
/// the frame being drawn and the last finished frame, and the beam position.
pub struct PPU {
    pub registers: PPURegisters,
    pub vram: Vec<u8>,
    pub palette_ram: Vec<u8>,
    pub oam_ram: Vec<u8>,
    pub back_buffer: Vec<u32>,
    pub frame_buffer: Vec<u32>,
    pub scanline: u32,
    pub scanline_cycle: u32,
    pub even_frame: bool,
    /// Sprites found for the line being drawn, in OAM order.
    pub line_sprites: Vec<u8>,
}

/// Mathematical content of a [`PPU`].
pub struct PpuState {
    pub registers: PPURegisters,
    pub vram: Seq<u8>,
    pub palette_ram: Seq<u8>,
    pub oam_ram: Seq<u8>,
    pub back_buffer: Seq<u32>,
    pub frame_buffer: Seq<u32>,
    pub scanline: u32,
    pub scanline_cycle: u32,
    pub even_frame: bool,
    pub line_sprites: Seq<u8>,
}

impl View for PPU {
    type V = PpuState;

    open spec fn view(&self) -> PpuState {
        PpuState {
            registers: self.registers,
            vram: self.vram@,
            palette_ram: self.palette_ram@,
            oam_ram: self.oam_ram@,
            back_buffer: self.back_buffer@,
            frame_buffer: self.frame_buffer@,
            scanline: self.scanline,
            scanline_cycle: self.scanline_cycle,
            even_frame: self.even_frame,
            line_sprites: self.line_sprites@,
        }
    }
}

/// Physical nametable address for a logical one. The offset within the
/// 4 KiB window is split into a table number and an offset within the table;
/// the mirror mode then picks one of the two physical tables.
pub open spec fn mirror_vram_addr(mode: MirrorMode, addr: u16) -> int {
    let offset = addr as int % 0x1000;
    let table = offset / 0x400;
    let inner = offset % 0x400;
    match mode {
        MirrorMode::Vertical => (table % 2) * 0x400 + inner,
        MirrorMode::Horizontal => (table / 2) * 0x400 + inner,
        MirrorMode::SingleScreenA => inner,
        MirrorMode::SingleScreenB => 0x400 + inner,
    }
}

/// Index into palette RAM for a PPU address: the low five bits, with the
/// four sprite backdrop entries folded onto the background ones.
pub open spec fn palette_index(addr: u16) -> int {
    let index = addr as int % 32;
    if index >= 16 && index % 4 == 0 {
        index - 16
    } else {
        index
    }
}

/// Amount the VRAM address grows by after a data port access.
pub open spec fn vram_step(control: u8) -> int {
    if control & 0x04 != 0 {
        32
    } else {
        1
    }
}

/// The VRAM address after a data port access, wrapped to 15 bits.
pub open spec fn vram_advance(v: u16, control: u8) -> u16 {
    ((v + vram_step(control)) % 0x8000) as u16
}

/// Bit facts behind the register writes: each keeps an address within 15
/// bits, and fine X within 3.
proof fn lemma_scroll_writes_fit(t: u16, val: u8)
    by (bit_vector)
    requires
        t <= 0x7FFF,
    ensures
        (t & 0xF3FF) | (((val as u16) & 0x03) << 10) <= 0x7FFF,
        (t & 0xFFE0) | ((val as u16) >> 3) <= 0x7FFF,
        (((t & 0x8FFF) | (((val as u16) & 0x07) << 12)) & 0xFC1F) | (((val as u16) & 0xF8) << 2)
            <= 0x7FFF,
        (t & 0x00FF) | (((val as u16) & 0x3F) << 8) <= 0x7FFF,
        (t & 0xFF00) | (val as u16) <= 0x7FFF,
        val & 0x07 <= 7,
{
}

impl PpuState {
    pub open spec fn wf(self) -> bool {
        &&& self.registers.wf()
        &&& self.vram.len() == 2048
        &&& self.palette_ram.len() == 32
        &&& self.oam_ram.len() == 256
        &&& self.back_buffer.len() == SCREEN_PIXELS
        &&& self.frame_buffer.len() == SCREEN_PIXELS
        &&& self.scanline <= PRE_RENDER_LINE
        &&& self.scanline_cycle <= SCANLINE_END_CYCLE
        &&& self.line_sprites.len() <= 8
        &&& forall|i: int| 0 <= i < self.line_sprites.len() ==> #[trigger] self.line_sprites[i] < 64
    }

    /// What the picture unit reads at a PPU address: pattern memory through
    /// the mapper, mirrored nametable RAM, or palette RAM.
    pub open spec fn read(self, mapper: MapperState, addr: u16) -> u8 {
        let a = (addr % 0x4000) as u16;
        if a < 0x2000 {
            mapper.ppu_read(a)
        } else if a < 0x3F00 {
            self.vram[mirror_vram_addr(mapper.mirror_mode(), a)]
        } else {
            self.palette_ram[palette_index(a)]
        }
    }

    /// Effect of a write at a PPU address.
    pub open spec fn write(self, mapper: MapperState, addr: u16, val: u8) -> (
        PpuState,
        MapperState,
    ) {
        let a = (addr % 0x4000) as u16;
        if a < 0x2000 {
            (self, mapper.ppu_write(a, val))
        } else if a < 0x3F00 {
            (
                PpuState {
                    vram: self.vram.update(mirror_vram_addr(mapper.mirror_mode(), a), val),
                    ..self
                },
                mapper,
            )
        } else {
            (
                PpuState { palette_ram: self.palette_ram.update(palette_index(a), val), ..self },
                mapper,
            )
        }
    }

    pub open spec fn with_registers(self, registers: PPURegisters) -> PpuState {
        PpuState { registers, ..self }
    }

    /// What the CPU reads from register `addr % 8`, and the state afterwards.
    /// Reading the status register clears VBlank and the write toggle;
    /// reading the data port returns the buffered byte (the fresh byte for
    /// palette addresses), refills the buffer and advances the address.
    pub open spec fn read_register(self, mapper: MapperState, addr: u16) -> (u8, PpuState) {
        let r = self.registers;
        let port = addr % 8;
        if port == 0 {
            (r.control, self)
        } else if port == 2 {
            (
                r.status,
                self.with_registers(
                    PPURegisters { status: r.status & 0x7F, address_latch: false, ..r },
                ),
            )
        } else if port == 4 {
            (self.oam_ram[r.oam_addr as int], self)
        } else if port == 6 {
            ((r.vram_addr >> 8) as u8, self)
        } else if port == 7 {
            let fresh = self.read(mapper, r.vram_addr);
            (
                if r.vram_addr % 0x4000 >= 0x3F00 {
                    fresh
                } else {
                    r.data_buffer
                },
                self.with_registers(
                    PPURegisters {
                        data_buffer: fresh,
                        vram_addr: vram_advance(r.vram_addr, r.control),
                        ..r
                    },
                ),
            )
        } else {
            (0, self)
        }
    }

    /// Effect of a CPU write to register `addr % 8`.
    pub open spec fn write_register(self, mapper: MapperState, addr: u16, val: u8) -> (
        PpuState,
        MapperState,
    ) {
        let r = self.registers;
        let port = addr % 8;
        if port == 0 {
            (
                self.with_registers(
                    PPURegisters {
                        control: val,
                        tmp_vram_addr: (r.tmp_vram_addr & 0xF3FF) | (((val as u16) & 0x03) << 10),
                        ..r
                    },
                ),
                mapper,
            )
        } else if port == 1 {
            (self.with_registers(PPURegisters { mask: val, ..r }), mapper)
        } else if port == 3 {
            (self.with_registers(PPURegisters { oam_addr: val, ..r }), mapper)
        } else if port == 4 {
            (
                PpuState {
                    oam_ram: self.oam_ram.update(r.oam_addr as int, val),
                    registers: PPURegisters { oam_addr: r.oam_addr.wrapping_add(1), ..r },
                    ..self
                },
                mapper,
            )
        } else if port == 5 {
            if !r.address_latch {
                (
                    self.with_registers(
                        PPURegisters {
                            fine_x: val & 0x07,
                            tmp_vram_addr: (r.tmp_vram_addr & 0xFFE0) | ((val as u16) >> 3),
                            address_latch: true,
                            ..r
                        },
                    ),
                    mapper,
                )
            } else {
                (
                    self.with_registers(
                        PPURegisters {
                            tmp_vram_addr: (((r.tmp_vram_addr & 0x8FFF) | (((val as u16) & 0x07)
                                << 12)) & 0xFC1F) | (((val as u16) & 0xF8) << 2),
                            address_latch: false,
                            ..r
                        },
                    ),
                    mapper,
                )
            }
        } else if port == 6 {
            if !r.address_latch {
                (
                    self.with_registers(
                        PPURegisters {
                            tmp_vram_addr: (r.tmp_vram_addr & 0x00FF) | (((val as u16) & 0x3F)
                                << 8),
                            address_latch: true,
                            ..r
                        },
                    ),
                    mapper,
                )
            } else {
                (
                    self.with_registers(
                        PPURegisters {
                            tmp_vram_addr: (r.tmp_vram_addr & 0xFF00) | (val as u16),
                            vram_addr: (r.tmp_vram_addr & 0xFF00) | (val as u16),
                            address_latch: false,
                            ..r
                        },
                    ),
                    mapper,
                )
            }
        } else if port == 7 {
            let (p, m) = self.write(mapper, r.vram_addr, val);
            (
                p.with_registers(
                    PPURegisters { vram_addr: vram_advance(r.vram_addr, r.control), ..r },
                ),
                m,
            )
        } else {
            (self, mapper)
        }
    }

    /// The state `new` builds and the starting point of every frame count:
    /// everything zero, the beam at the first dot of the pre-render line.
    pub open spec fn power_on() -> PpuState {
        PpuState {
            registers: PPURegisters::power_on(),
            vram: Seq::new(2048, |i: int| 0u8),
            palette_ram: Seq::new(32, |i: int| 0u8),
            oam_ram: Seq::new(256, |i: int| 0u8),
            back_buffer: Seq::new(SCREEN_PIXELS as nat, |i: int| 0x000000FFu32),
            frame_buffer: Seq::new(SCREEN_PIXELS as nat, |i: int| 0x000000FFu32),
            scanline: PRE_RENDER_LINE,
            scanline_cycle: 0,
            even_frame: true,
            line_sprites: Seq::empty(),
        }
    }

    /// The state after a reset: as at power-on, but palette RAM and the frame
    /// being drawn are kept.
    pub open spec fn reset(self) -> PpuState {
        PpuState {
            palette_ram: self.palette_ram,
            back_buffer: self.back_buffer,
            ..PpuState::power_on()
        }
    }
}

/// The four sprite backdrop entries of palette RAM are the background ones:
/// reading 0x3F10, 0x3F14, 0x3F18 or 0x3F1C gives what 0x3F00, 0x3F04,
/// 0x3F08 or 0x3F0C holds, and a byte written to one is read from the other.
pub proof fn lemma_palette_backdrops_alias(
    ppu: PpuState,
    mapper: MapperState,
    addr: u16,
    val: u8,
)
    requires
        ppu.wf(),
        addr == 0x3F10 || addr == 0x3F14 || addr == 0x3F18 || addr == 0x3F1C,
    ensures
        ppu.read(mapper, addr) == ppu.read(mapper, (addr - 0x10) as u16),
        ppu.read(mapper, addr) == ppu.palette_ram[addr - 0x3F10],
        ppu.write(mapper, (addr - 0x10) as u16, val).0.read(mapper, addr) == val,
        ppu.write(mapper, addr, val).0.read(mapper, (addr - 0x10) as u16) == val,
{
}

/// Reading the status register returns it, and leaves VBlank and the write
/// toggle clear.
pub proof fn lemma_status_read_clears(ppu: PpuState, mapper: MapperState, addr: u16)
    requires
        addr % 8 == 2,
    ensures
        ppu.read_register(mapper, addr).0 == ppu.registers.status,
        ppu.read_register(mapper, addr).1.registers.status & 0x80 == 0,
        ppu.read_register(mapper, addr).1.registers.status & 0x7F == ppu.registers.status & 0x7F,
        !ppu.read_register(mapper, addr).1.registers.address_latch,
{
    let s = ppu.registers.status;
    assert((s & 0x7F) & 0x80 == 0 && (s & 0x7F) & 0x7F == s & 0x7F) by (bit_vector);
}

/// The status register belongs to the hardware: no write to any register
/// changes it, and a read of any register changes at most VBlank.
pub proof fn lemma_status_is_hardware_controlled(
    ppu: PpuState,
    mapper: MapperState,
    addr: u16,
    val: u8,
)
    ensures
        ppu.write_register(mapper, addr, val).0.registers.status == ppu.registers.status,
        ppu.read_register(mapper, addr).1.registers.status & 0x7F == ppu.registers.status & 0x7F,
{
    let s = ppu.registers.status;
    assert((s & 0x7F) & 0x7F == s & 0x7F) by (bit_vector);
}

/// Which logical nametables share a physical one. With vertical mirroring
/// the tables 2 KiB apart coincide, with horizontal mirroring the tables
/// 1 KiB apart within each half; a single screen folds all four onto one.
pub proof fn lemma_nametables_mirror(addr: u16)
    requires
        0x2000 <= addr < 0x3000,
    ensures
        addr < 0x2800 ==> mirror_vram_addr(MirrorMode::Vertical, addr) == mirror_vram_addr(
            MirrorMode::Vertical,
            (addr + 0x800) as u16,
        ),
        addr % 0x800 < 0x400 ==> mirror_vram_addr(MirrorMode::Horizontal, addr)
            == mirror_vram_addr(MirrorMode::Horizontal, (addr + 0x400) as u16),
        mirror_vram_addr(MirrorMode::SingleScreenA, addr) == addr % 0x400,
        mirror_vram_addr(MirrorMode::SingleScreenB, addr) == 0x400 + addr % 0x400,
{
    let offset = addr as int % 0x1000;
    assert(offset == addr - 0x2000);
    assert(offset % 0x400 == addr % 0x400);
    if addr < 0x2800 {
        let other = (addr + 0x800) as u16;
        assert(other as int % 0x1000 == offset + 0x800);
        assert((offset + 0x800) / 0x400 == offset / 0x400 + 2);
        assert((offset + 0x800) % 0x400 == offset % 0x400);
    }
    if addr % 0x800 < 0x400 {
        let other = (addr + 0x400) as u16;
        assert(other as int % 0x1000 == offset + 0x400);
        assert((offset + 0x400) / 0x400 == offset / 0x400 + 1);
        assert((offset + 0x400) % 0x400 == offset % 0x400);
        assert(offset / 0x400 == 0 || offset / 0x400 == 2);
    }
}

/// A byte written to a nametable address is read from every address that
/// mirrors onto the same cell.
pub proof fn lemma_mirrored_write_reads_back(
    ppu: PpuState,
    mapper: MapperState,
    a: u16,
    b: u16,
    val: u8,
)
    requires
        ppu.wf(),
        0x2000 <= a % 0x4000 < 0x3F00,
        0x2000 <= b % 0x4000 < 0x3F00,
        mirror_vram_addr(mapper.mirror_mode(), (a % 0x4000) as u16) == mirror_vram_addr(
            mapper.mirror_mode(),
            (b % 0x4000) as u16,
        ),
    ensures
        ppu.write(mapper, a, val).0.read(mapper, b) == val,
        ppu.write(mapper, a, val).1 == mapper,
{
}

impl PPU {
    pub open spec fn wf(&self) -> bool {
        self@.wf()
    }

    pub fn new() -> (r: Self)
        ensures
            r.wf(),
            r@ == PpuState::power_on(),
    {
        let r = PPU {
            registers: PPURegisters::new(),
            vram: vec![0u8; 2048],
            palette_ram: vec![0u8; 32],
            oam_ram: vec![0u8; 256],
            back_buffer: vec![0x000000FFu32; SCREEN_PIXELS],
            frame_buffer: vec![0x000000FFu32; SCREEN_PIXELS],
            scanline: PRE_RENDER_LINE,
            scanline_cycle: 0,
            even_frame: true,
            line_sprites: Vec::with_capacity(8),
        };
        assert(r@.vram =~= PpuState::power_on().vram);
        assert(r@.palette_ram =~= PpuState::power_on().palette_ram);
        assert(r@.oam_ram =~= PpuState::power_on().oam_ram);
        assert(r@.back_buffer =~= PpuState::power_on().back_buffer);
        assert(r@.frame_buffer =~= PpuState::power_on().frame_buffer);
        assert(r@.line_sprites =~= PpuState::power_on().line_sprites);
        r
    }

    pub fn reset(&mut self)
        requires
            old(self).wf(),
        ensures
            final(self).wf(),
            final(self)@ == old(self)@.reset(),
    {
        self.registers.reset();
        self.vram = vec![0u8; 2048];
        self.oam_ram = vec![0u8; 256];
        self.frame_buffer = vec![0x000000FFu32; SCREEN_PIXELS];
        self.scanline = PRE_RENDER_LINE;
        self.scanline_cycle = 0;
        self.even_frame = true;
        self.line_sprites.clear();
        assert(self@.vram =~= PpuState::power_on().vram);
        assert(self@.oam_ram =~= PpuState::power_on().oam_ram);
        assert(self@.frame_buffer =~= PpuState::power_on().frame_buffer);
        assert(self@.line_sprites =~= PpuState::power_on().line_sprites);
    }

    /// Physical nametable address under the mapper's current mirror mode.
    pub fn mirror_vram_addr(mapper: &Mapper, addr: u16) -> (r: u16)
        ensures
            r == mirror_vram_addr(mapper@.mirror_mode(), addr),
            r < 2048,
    {
        let offset = addr % 0x1000;
        let table = offset / 0x400;
        let inner = offset % 0x400;
        match mapper.get_mirror_mode() {
            MirrorMode::Vertical => (table % 2) * 0x400 + inner,
            MirrorMode::Horizontal => (table / 2) * 0x400 + inner,
            MirrorMode::SingleScreenA => inner,
            MirrorMode::SingleScreenB => 0x400 + inner,
        }
    }

    /// Index into palette RAM for a PPU address.
    pub fn palette_index(addr: u16) -> (r: usize)
        ensures
            r == palette_index(addr),
            r < 32,
    {
        let index = (addr % 32) as usize;
        if index >= 16 && index % 4 == 0 {
            index - 16
        } else {
            index
        }
    }

    pub fn read(&self, mapper: &Mapper, addr: u16) -> (r: u8)
        requires
            self.wf(),
            mapper.wf(),
        ensures
            r == self@.read(mapper@, addr),
    {
        let a = addr % 0x4000;
        if a < 0x2000 {
            mapper.ppu_read(a)
        } else if a < 0x3F00 {
            self.vram[Self::mirror_vram_addr(mapper, a) as usize]
        } else {
            self.palette_ram[Self::palette_index(a)]
        }
    }

    pub fn write(&mut self, mapper: &mut Mapper, addr: u16, val: u8)
        requires
            old(self).wf(),
            old(mapper).wf(),
        ensures
            final(self).wf(),
            final(mapper).wf(),
            (final(self)@, final(mapper)@) == old(self)@.write(old(mapper)@, addr, val),
    {
        let a = addr % 0x4000;
        if a < 0x2000 {
            mapper.ppu_write(a, val);
        } else if a < 0x3F00 {
            let index = Self::mirror_vram_addr(mapper, a) as usize;
            self.vram.set(index, val);
        } else {
            self.palette_ram.set(Self::palette_index(a), val);
        }
    }

    /// The VRAM address after a data port access.
    fn advanced_address(&self) -> (r: u16)
        requires
            self.registers.vram_addr <= 0x7FFF,
        ensures
            r == vram_advance(self.registers.vram_addr, self.registers.control),
            r <= 0x7FFF,
    {
        let step: u16 = if self.registers.control & 0x04 != 0 {
            32
        } else {
            1
        };
        (self.registers.vram_addr + step) % 0x8000
    }

    /// A CPU read of register `addr % 8`.
    pub fn read_register(&mut self, mapper: &Mapper, addr: u16) -> (r: u8)
        requires
            old(self).wf(),
            mapper.wf(),
        ensures
            final(self).wf(),
            (r, final(self)@) == old(self)@.read_register(mapper@, addr),
    {
        let port = addr % 8;
        if port == 0 {
            self.registers.control
        } else if port == 2 {
            let result = self.registers.status;
            self.registers.status = result & 0x7F;
            self.registers.address_latch = false;
            result
        } else if port == 4 {
            self.oam_ram[self.registers.oam_addr as usize]
        } else if port == 6 {
            (self.registers.vram_addr >> 8) as u8
        } else if port == 7 {
            let address = self.registers.vram_addr;
            let fresh = self.read(mapper, address);
            let result = if address % 0x4000 >= 0x3F00 {
                fresh
            } else {
                self.registers.data_buffer
            };
            let next = self.advanced_address();
            self.registers.data_buffer = fresh;
            self.registers.vram_addr = next;
            result
        } else {
            0
        }
    }

    /// A CPU write to register `addr % 8`.
    pub fn write_register(&mut self, mapper: &mut Mapper, addr: u16, val: u8)
        requires
            old(self).wf(),
            old(mapper).wf(),
        ensures
            final(self).wf(),
            final(mapper).wf(),
            (final(self)@, final(mapper)@) == old(self)@.write_register(old(mapper)@, addr, val),
    {
        proof {
            lemma_scroll_writes_fit(self.registers.tmp_vram_addr, val);
        }
        let port = addr % 8;
        let t = self.registers.tmp_vram_addr;
        if port == 0 {
            self.registers.control = val;
            self.registers.tmp_vram_addr = (t & 0xF3FF) | (((val as u16) & 0x03) << 10);
        } else if port == 1 {
            self.registers.mask = val;
        } else if port == 3 {
            self.registers.oam_addr = val;
        } else if port == 4 {
            let at = self.registers.oam_addr;
            self.oam_ram.set(at as usize, val);
            self.registers.oam_addr = at.wrapping_add(1);
        } else if port == 5 {
            if !self.registers.address_latch {
                self.registers.fine_x = val & 0x07;
                self.registers.tmp_vram_addr = (t & 0xFFE0) | ((val as u16) >> 3);
                self.registers.address_latch = true;
            } else {
                self.registers.tmp_vram_addr = (((t & 0x8FFF) | (((val as u16) & 0x07) << 12))
                    & 0xFC1F) | (((val as u16) & 0xF8) << 2);
                self.registers.address_latch = false;
            }
        } else if port == 6 {
            if !self.registers.address_latch {
                self.registers.tmp_vram_addr = (t & 0x00FF) | (((val as u16) & 0x3F) << 8);
                self.registers.address_latch = true;
            } else {
                self.registers.tmp_vram_addr = (t & 0xFF00) | (val as u16);
                self.registers.vram_addr = (t & 0xFF00) | (val as u16);
                self.registers.address_latch = false;
            }
        } else if port == 7 {
            let address = self.registers.vram_addr;
            let next = self.advanced_address();
            self.write(mapper, address, val);
            self.registers.vram_addr = next;
        }
    }
}

} // verus!
