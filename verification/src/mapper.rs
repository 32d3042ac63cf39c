use crate::cartridge::{Cartridge, CartridgeState, LoadError, MirrorMode, CHR_BANK, PRG_BANK};
use vstd::prelude::*;

verus! {

/// Number of whole banks of `bank` bytes in `len` bytes, and never less than one.
pub open spec fn bank_count(len: int, bank: int) -> int {
    if len / bank < 1 {
        1
    } else {
        len / bank
    }
}

/// Mirror mode selected by the two low bits of the MMC1 control register.
pub open spec fn control_mirror_mode(control: u8) -> MirrorMode {
    let bits = control & 0x03;
    if bits == 0 {
        MirrorMode::SingleScreenA
    } else if bits == 1 {
        MirrorMode::SingleScreenB
    } else if bits == 2 {
        MirrorMode::Vertical
    } else {
        MirrorMode::Horizontal
    }
}

/// A cartridge behind an MMC1: the serial shift register, the four registers
/// it feeds, and the bank offsets derived from them.
#[derive(Debug)]
pub struct MMC1Cartridge {
    pub cart: Cartridge,
    pub shift_reg: u8,
    pub control: u8,
    pub chr_banks: (u8, u8),
    pub prg_bank: u8,
    pub shift_count: u8,
    pub prg_bank_offsets: (usize, usize),
    pub chr_bank_offsets: (usize, usize),
}

/// Mathematical content of an [`MMC1Cartridge`]. The bank offsets are not
/// part of it: they are a function of the registers and the ROM sizes.
pub struct Mmc1State {
    pub cart: CartridgeState,
    pub shift_reg: u8,
    pub control: u8,
    pub chr_banks: (u8, u8),
    pub prg_bank: u8,
    pub shift_count: u8,
}

impl Mmc1State {
    pub open spec fn wf(self) -> bool {
        self.cart.wf() && self.shift_count < 5
    }

    /// State after power-on or reset: empty shift register, both PRG mode
    /// bits set, every bank selector zero.
    pub open spec fn initial(cart: CartridgeState) -> Mmc1State {
        Mmc1State {
            cart: CartridgeState { mirror_mode: control_mirror_mode(0x0C), ..cart },
            shift_reg: 0x10,
            control: 0x0C,
            chr_banks: (0, 0),
            prg_bank: 0,
            shift_count: 0,
        }
    }

    pub open spec fn prg_mode(self) -> u8 {
        (self.control >> 2) & 0x03
    }

    pub open spec fn chr_mode(self) -> u8 {
        (self.control >> 4) & 0x01
    }

    /// Number of 16 KiB program banks, at least one.
    pub open spec fn prg_banks(self) -> int {
        bank_count(self.cart.prg_rom.len() as int, PRG_BANK as int)
    }

    /// Byte offsets into program ROM of the banks seen at 0x8000 and 0xC000.
    /// Modes 0 and 1 switch a 32 KiB pair, mode 2 fixes the first window to
    /// bank 0, mode 3 fixes the second window to the last bank. Every bank
    /// number is taken modulo the number of banks.
    pub open spec fn prg_offsets(self) -> (int, int) {
        let n = self.prg_banks();
        if self.prg_mode() == 2 {
            (0, ((self.prg_bank & 0x0F) as int % n) * PRG_BANK)
        } else if self.prg_mode() == 3 {
            (((self.prg_bank & 0x0F) as int % n) * PRG_BANK, (n - 1) * PRG_BANK)
        } else {
            let low = (self.prg_bank & 0x0E) as int % n;
            (low * PRG_BANK, ((low + 1) % n) * PRG_BANK)
        }
    }

    /// Byte offsets into pattern memory of the banks seen at 0x0000 and
    /// 0x1000. Mode 0 selects one 8 KiB bank with bit 0 of the first selector
    /// ignored; mode 1 selects two 4 KiB banks.
    pub open spec fn chr_offsets(self) -> (int, int) {
        let len = self.cart.chr().len() as int;
        if self.chr_mode() == 0 {
            let bank = (self.chr_banks.0 >> 1) as int % bank_count(len, CHR_BANK as int);
            (bank * CHR_BANK, bank * CHR_BANK + 0x1000)
        } else {
            let n = bank_count(len, 0x1000);
            ((self.chr_banks.0 as int % n) * 0x1000, (self.chr_banks.1 as int % n) * 0x1000)
        }
    }

    /// Index into program ROM of CPU address `addr`, for `addr >= 0x8000`.
    pub open spec fn prg_index(self, addr: u16) -> int {
        if addr < 0xC000 {
            self.prg_offsets().0 + (addr - 0x8000)
        } else {
            self.prg_offsets().1 + (addr - 0xC000)
        }
    }

    /// Index into pattern memory of PPU address `addr`, for `addr < 0x2000`.
    pub open spec fn chr_index(self, addr: u16) -> int {
        if addr < 0x1000 {
            self.chr_offsets().0 + addr
        } else {
            self.chr_offsets().1 + (addr - 0x1000)
        }
    }

    /// Stores a value assembled by the shift register into the register that
    /// address bits 13 and 14 select.
    pub open spec fn commit(self, reg: u16, value: u8) -> Mmc1State {
        if reg == 0 {
            Mmc1State {
                control: value,
                cart: CartridgeState { mirror_mode: control_mirror_mode(value), ..self.cart },
                ..self
            }
        } else if reg == 1 {
            Mmc1State { chr_banks: (value, self.chr_banks.1), ..self }
        } else if reg == 2 {
            Mmc1State { chr_banks: (self.chr_banks.0, value), ..self }
        } else {
            Mmc1State { prg_bank: value, ..self }
        }
    }

    /// Effect of a CPU write to 0x8000..=0xFFFF. A byte with bit 7 set empties
    /// the shift register and sets both PRG mode bits. Any other byte shifts
    /// its bit 0 in from the top; the fifth such write commits the five bits
    /// and empties the shift register.
    pub open spec fn write_register(self, addr: u16, val: u8) -> Mmc1State {
        if val & 0x80 != 0 {
            Mmc1State { shift_reg: 0x10, shift_count: 0, control: self.control | 0x0C, ..self }
        } else {
            let shifted = (self.shift_reg >> 1) | ((val & 0x01) << 4);
            if self.shift_count < 4 {
                Mmc1State { shift_reg: shifted, shift_count: (self.shift_count + 1) as u8, ..self }
            } else {
                (Mmc1State { shift_reg: 0x10, shift_count: 0, ..self }).commit(
                    (addr >> 13) & 0x03,
                    shifted & 0x1F,
                )
            }
        }
    }

    pub open spec fn cpu_read(self, addr: u16) -> u8 {
        if 0x6000 <= addr < 0x8000 {
            self.cart.prg_ram[addr - 0x6000]
        } else if addr >= 0x8000 && self.cart.prg_rom.len() > 0 {
            self.cart.prg_rom[self.prg_index(addr)]
        } else {
            0
        }
    }

    pub open spec fn cpu_write(self, addr: u16, val: u8) -> Mmc1State {
        if 0x6000 <= addr < 0x8000 {
            Mmc1State {
                cart: CartridgeState {
                    prg_ram: self.cart.prg_ram.update(addr - 0x6000, val),
                    ..self.cart
                },
                ..self
            }
        } else if addr >= 0x8000 {
            self.write_register(addr, val)
        } else {
            self
        }
    }

    pub open spec fn ppu_read(self, addr: u16) -> u8 {
        if addr < 0x2000 {
            self.cart.chr()[self.chr_index(addr)]
        } else {
            0
        }
    }

    pub open spec fn ppu_write(self, addr: u16, val: u8) -> Mmc1State {
        if addr < 0x2000 {
            Mmc1State { cart: self.cart.with_chr(self.chr_index(addr), val), ..self }
        } else {
            self
        }
    }
}

impl View for MMC1Cartridge {
    type V = Mmc1State;

    open spec fn view(&self) -> Mmc1State {
        Mmc1State {
            cart: self.cart@,
            shift_reg: self.shift_reg,
            control: self.control,
            chr_banks: self.chr_banks,
            prg_bank: self.prg_bank,
            shift_count: self.shift_count,
        }
    }
}

/// Within a well-formed cartridge every index the banking yields is in range.
pub proof fn lemma_mmc1_indices_in_range(m: Mmc1State, addr: u16)
    requires
        m.wf(),
    ensures
        addr >= 0x8000 && m.cart.prg_rom.len() > 0 ==> 0 <= m.prg_index(addr)
            < m.cart.prg_rom.len(),
        addr < 0x2000 ==> 0 <= m.chr_index(addr) < m.cart.chr().len(),
        0 <= m.prg_offsets().0 <= usize::MAX - 0x4000,
        0 <= m.prg_offsets().1 <= usize::MAX - 0x4000,
        0 <= m.chr_offsets().0 <= usize::MAX - 0x1000,
        0 <= m.chr_offsets().1 <= usize::MAX - 0x1000,
{
    let plen = m.cart.prg_rom.len() as int;
    let clen = m.cart.chr().len() as int;
    assert(clen > 0 && clen % 0x2000 == 0);
    assert(bank_count(clen, 0x2000) * 0x2000 == clen);
    assert(bank_count(clen, 0x1000) * 0x1000 == clen);
    if plen > 0 {
        assert(bank_count(plen, 0x4000) * 0x4000 == plen);
    }
}

/// The value five serial writes assemble: bit `i` is bit 0 of write `i`.
pub open spec fn serial_value(v0: u8, v1: u8, v2: u8, v3: u8, v4: u8) -> u8 {
    (v0 & 0x01) | ((v1 & 0x01) << 1) | ((v2 & 0x01) << 2) | ((v3 & 0x01) << 3) | ((v4 & 0x01)
        << 4)
}

proof fn lemma_serial_shifts(v0: u8, v1: u8, v2: u8, v3: u8, v4: u8)
    by (bit_vector)
    ensures
        ({
            let s1 = (0x10u8 >> 1) | ((v0 & 0x01) << 4);
            let s2 = (s1 >> 1) | ((v1 & 0x01) << 4);
            let s3 = (s2 >> 1) | ((v2 & 0x01) << 4);
            let s4 = (s3 >> 1) | ((v3 & 0x01) << 4);
            let s5 = (s4 >> 1) | ((v4 & 0x01) << 4);
            s5 & 0x1F == (v0 & 0x01) | ((v1 & 0x01) << 1) | ((v2 & 0x01) << 2) | ((v3 & 0x01) << 3)
                | ((v4 & 0x01) << 4)
        }),
{
}

/// Five writes with bit 7 clear, starting from an empty shift register, are
/// one commit: the register that the address of the fifth write selects
/// takes the five low bits in the order written, and the shift register is
/// empty again. The addresses of the first four writes do not matter.
pub proof fn lemma_five_writes_commit(
    m: Mmc1State,
    addrs: Seq<u16>,
    v0: u8,
    v1: u8,
    v2: u8,
    v3: u8,
    v4: u8,
)
    requires
        addrs.len() == 5,
        m.shift_count == 0,
        m.shift_reg == 0x10,
        v0 & 0x80 == 0,
        v1 & 0x80 == 0,
        v2 & 0x80 == 0,
        v3 & 0x80 == 0,
        v4 & 0x80 == 0,
    ensures
        m.write_register(addrs[0], v0).write_register(addrs[1], v1).write_register(
            addrs[2],
            v2,
        ).write_register(addrs[3], v3).write_register(addrs[4], v4) == m.commit(
            (addrs[4] >> 13) & 0x03,
            serial_value(v0, v1, v2, v3, v4),
        ),
{
    lemma_serial_shifts(v0, v1, v2, v3, v4);
}

impl MMC1Cartridge {
    /// The registers are well formed and the stored offsets are the ones the
    /// registers call for.
    pub open spec fn wf(&self) -> bool {
        &&& self@.wf()
        &&& self.prg_bank_offsets.0 == self@.prg_offsets().0
        &&& self.prg_bank_offsets.1 == self@.prg_offsets().1
        &&& self.chr_bank_offsets.0 == self@.chr_offsets().0
        &&& self.chr_bank_offsets.1 == self@.chr_offsets().1
    }

    /// Wraps a cartridge in an MMC1 in its power-on state.
    pub fn with_cartridge(cart: Cartridge) -> (r: Self)
        requires
            cart.wf(),
        ensures
            r.wf(),
            r@ == Mmc1State::initial(cart@),
    {
        let mut cartridge = MMC1Cartridge {
            cart,
            shift_reg: 0x10,
            control: 0x0C,
            chr_banks: (0, 0),
            prg_bank: 0,
            shift_count: 0,
            prg_bank_offsets: (0, 0),
            chr_bank_offsets: (0, 0),
        };
        cartridge.reset();
        cartridge
    }

    /// Returns the mapper to its power-on state; the memories are kept.
    pub fn reset(&mut self)
        requires
            old(self).cart.wf(),
        ensures
            final(self).wf(),
            final(self)@ == Mmc1State::initial(old(self).cart@),
    {
        self.shift_reg = 0x10;
        self.control = 0x0C;
        self.chr_banks = (0, 0);
        self.prg_bank = 0;
        self.shift_count = 0;
        self.apply_mirroring();
        self.apply_banks();
    }

    /// Sets the cartridge's mirror mode from the control register.
    pub fn apply_mirroring(&mut self)
        ensures
            final(self)@ == (Mmc1State {
                cart: CartridgeState {
                    mirror_mode: control_mirror_mode(old(self).control),
                    ..old(self).cart@
                },
                ..old(self)@
            }),
            final(self).prg_bank_offsets == old(self).prg_bank_offsets,
            final(self).chr_bank_offsets == old(self).chr_bank_offsets,
    {
        let bits = self.control & 0x03;
        let mode = if bits == 0 {
            MirrorMode::SingleScreenA
        } else if bits == 1 {
            MirrorMode::SingleScreenB
        } else if bits == 2 {
            MirrorMode::Vertical
        } else {
            MirrorMode::Horizontal
        };
        self.cart.set_mirroring(mode);
    }

    /// Recomputes both pairs of bank offsets from the registers.
    pub fn apply_banks(&mut self)
        requires
            old(self)@.wf(),
        ensures
            final(self).wf(),
            final(self)@ == old(self)@,
    {
        proof {
            lemma_mmc1_indices_in_range(self@, 0);
        }
        let chr_len = if self.cart.chr_rom.len() == 0 {
            self.cart.chr_ram.len()
        } else {
            self.cart.chr_rom.len()
        };
        let chr_mode = (self.control >> 4) & 0x01;
        if chr_mode == 0 {
            let count = if chr_len / CHR_BANK < 1 {
                1
            } else {
                chr_len / CHR_BANK
            };
            let bank = (self.chr_banks.0 >> 1) as usize % count;
            self.chr_bank_offsets = (bank * CHR_BANK, bank * CHR_BANK + 0x1000);
        } else {
            let count = if chr_len / 0x1000 < 1 {
                1
            } else {
                chr_len / 0x1000
            };
            self.chr_bank_offsets = (
                (self.chr_banks.0 as usize % count) * 0x1000,
                (self.chr_banks.1 as usize % count) * 0x1000,
            );
        }
        let prg_mode = (self.control >> 2) & 0x03;
        let prg_len = self.cart.prg_rom.len();
        let banks = if prg_len / PRG_BANK < 1 {
            1
        } else {
            prg_len / PRG_BANK
        };
        if prg_mode == 2 {
            self.prg_bank_offsets = (0, ((self.prg_bank & 0x0F) as usize % banks) * PRG_BANK);
        } else if prg_mode == 3 {
            self.prg_bank_offsets = (
                ((self.prg_bank & 0x0F) as usize % banks) * PRG_BANK,
                (banks - 1) * PRG_BANK,
            );
        } else {
            let low = (self.prg_bank & 0x0E) as usize % banks;
            self.prg_bank_offsets = (low * PRG_BANK, ((low + 1) % banks) * PRG_BANK);
        }
    }

    /// Handles a CPU write to 0x8000..=0xFFFF: one step of the serial port.
    pub fn write_register(&mut self, addr: u16, val: u8)
        requires
            old(self).wf(),
        ensures
            final(self).wf(),
            final(self)@ == old(self)@.write_register(addr, val),
    {
        if val & 0x80 != 0 {
            self.shift_reg = 0x10;
            self.control = self.control | 0x0C;
            self.shift_count = 0;
            self.apply_banks();
            return ;
        }
        let shifted = (self.shift_reg >> 1) | ((val & 0x01) << 4);
        if self.shift_count < 4 {
            self.shift_reg = shifted;
            self.shift_count = self.shift_count + 1;
            return ;
        }
        let reg = (addr >> 13) & 0x03;
        let value = shifted & 0x1F;
        self.shift_reg = 0x10;
        self.shift_count = 0;
        if reg == 0 {
            self.control = value;
            self.apply_mirroring();
        } else if reg == 1 {
            self.chr_banks = (value, self.chr_banks.1);
        } else if reg == 2 {
            self.chr_banks = (self.chr_banks.0, value);
        } else {
            self.prg_bank = value;
        }
        self.apply_banks();
    }
}

/// The cartridge slot: empty, or a cartridge behind one of the supported
/// mappers.
#[derive(Debug)]
pub enum Mapper {
    Empty,
    Mapper0(Cartridge),
    Mapper1(MMC1Cartridge),
}

/// Mathematical content of a [`Mapper`].
pub enum MapperState {
    Empty,
    Mapper0(CartridgeState),
    Mapper1(Mmc1State),
}

/// What the CPU reads from an NROM cartridge: work RAM at 0x6000..=0x7FFF,
/// program ROM repeated over 0x8000..=0xFFFF, zero elsewhere.
pub open spec fn nrom_cpu_read(c: CartridgeState, addr: u16) -> u8 {
    if 0x6000 <= addr < 0x8000 {
        c.prg_ram[addr - 0x6000]
    } else if addr >= 0x8000 && c.prg_rom.len() > 0 {
        c.prg_rom[(addr - 0x8000) % (c.prg_rom.len() as int)]
    } else {
        0
    }
}

impl MapperState {
    pub open spec fn wf(self) -> bool {
        match self {
            MapperState::Empty => true,
            MapperState::Mapper0(c) => c.wf(),
            MapperState::Mapper1(m) => m.wf(),
        }
    }

    pub open spec fn cpu_read(self, addr: u16) -> u8 {
        match self {
            MapperState::Empty => 0,
            MapperState::Mapper0(c) => nrom_cpu_read(c, addr),
            MapperState::Mapper1(m) => m.cpu_read(addr),
        }
    }

    pub open spec fn cpu_write(self, addr: u16, val: u8) -> MapperState {
        match self {
            MapperState::Empty => self,
            MapperState::Mapper0(c) => if 0x6000 <= addr < 0x8000 {
                MapperState::Mapper0(
                    CartridgeState { prg_ram: c.prg_ram.update(addr - 0x6000, val), ..c },
                )
            } else {
                self
            },
            MapperState::Mapper1(m) => MapperState::Mapper1(m.cpu_write(addr, val)),
        }
    }

    pub open spec fn ppu_read(self, addr: u16) -> u8 {
        match self {
            MapperState::Empty => 0,
            MapperState::Mapper0(c) => if addr < 0x2000 {
                c.chr()[addr as int]
            } else {
                0
            },
            MapperState::Mapper1(m) => m.ppu_read(addr),
        }
    }

    pub open spec fn ppu_write(self, addr: u16, val: u8) -> MapperState {
        match self {
            MapperState::Empty => self,
            MapperState::Mapper0(c) => if addr < 0x2000 {
                MapperState::Mapper0(c.with_chr(addr as int, val))
            } else {
                self
            },
            MapperState::Mapper1(m) => MapperState::Mapper1(m.ppu_write(addr, val)),
        }
    }

    /// The mirror mode in force; an empty slot mirrors horizontally.
    pub open spec fn mirror_mode(self) -> MirrorMode {
        match self {
            MapperState::Empty => MirrorMode::Horizontal,
            MapperState::Mapper0(c) => c.mirror_mode,
            MapperState::Mapper1(m) => m.cart.mirror_mode,
        }
    }
}

impl View for Mapper {
    type V = MapperState;

    open spec fn view(&self) -> MapperState {
        match self {
            Mapper::Empty => MapperState::Empty,
            Mapper::Mapper0(c) => MapperState::Mapper0(c@),
            Mapper::Mapper1(m) => MapperState::Mapper1(m@),
        }
    }
}

impl Mapper {
    pub open spec fn wf(&self) -> bool {
        match self {
            Mapper::Empty => true,
            Mapper::Mapper0(c) => c.wf(),
            Mapper::Mapper1(m) => m.wf(),
        }
    }

    /// Puts a cartridge behind the mapper its header names. Mappers 0 and 1
    /// are implemented; every other number is refused.
    pub fn with_cart(cart: Cartridge) -> (r: Result<Mapper, LoadError>)
        requires
            cart.wf(),
        ensures
            match r {
                Ok(m) => m.wf() && (cart.mapper_id == 0 || cart.mapper_id == 1) && m@ == (
                if cart.mapper_id == 0 {
                    MapperState::Mapper0(cart@)
                } else {
                    MapperState::Mapper1(Mmc1State::initial(cart@))
                }),
                Err(e) => cart.mapper_id != 0 && cart.mapper_id != 1 && e
                    == LoadError::UnsupportedMapper,
            },
    {
        if cart.mapper_id == 0 {
            Ok(Mapper::Mapper0(cart))
        } else if cart.mapper_id == 1 {
            Ok(Mapper::Mapper1(MMC1Cartridge::with_cartridge(cart)))
        } else {
            Err(LoadError::UnsupportedMapper)
        }
    }

    pub fn cpu_read(&self, addr: u16) -> (r: u8)
        requires
            self.wf(),
        ensures
            r == self@.cpu_read(addr),
    {
        match self {
            Mapper::Empty => 0,
            Mapper::Mapper0(cart) => {
                if addr >= 0x6000 && addr < 0x8000 {
                    cart.prg_ram[addr as usize - 0x6000]
                } else if addr >= 0x8000 && cart.prg_rom.len() > 0 {
                    cart.prg_rom[(addr as usize - 0x8000) % cart.prg_rom.len()]
                } else {
                    0
                }
            },
            Mapper::Mapper1(mmc1) => {
                proof {
                    lemma_mmc1_indices_in_range(mmc1@, addr);
                }
                if addr >= 0x6000 && addr < 0x8000 {
                    mmc1.cart.prg_ram[addr as usize - 0x6000]
                } else if addr >= 0xC000 && mmc1.cart.prg_rom.len() > 0 {
                    mmc1.cart.prg_rom[mmc1.prg_bank_offsets.1 + (addr as usize - 0xC000)]
                } else if addr >= 0x8000 && mmc1.cart.prg_rom.len() > 0 {
                    mmc1.cart.prg_rom[mmc1.prg_bank_offsets.0 + (addr as usize - 0x8000)]
                } else {
                    0
                }
            },
        }
    }

    pub fn cpu_write(&mut self, addr: u16, val: u8)
        requires
            old(self).wf(),
        ensures
            final(self).wf(),
            final(self)@ == old(self)@.cpu_write(addr, val),
    {
        match self {
            Mapper::Empty => {},
            Mapper::Mapper0(cart) => {
                if addr >= 0x6000 && addr < 0x8000 {
                    cart.prg_ram.set(addr as usize - 0x6000, val);
                }
            },
            Mapper::Mapper1(mmc1) => {
                if addr >= 0x6000 && addr < 0x8000 {
                    mmc1.cart.prg_ram.set(addr as usize - 0x6000, val);
                } else if addr >= 0x8000 {
                    mmc1.write_register(addr, val);
                }
            },
        }
    }

    pub fn ppu_read(&self, addr: u16) -> (r: u8)
        requires
            self.wf(),
        ensures
            r == self@.ppu_read(addr),
    {
        match self {
            Mapper::Empty => 0,
            Mapper::Mapper0(cart) => {
                if addr >= 0x2000 {
                    0
                } else if cart.chr_rom.len() == 0 {
                    cart.chr_ram[addr as usize]
                } else {
                    cart.chr_rom[addr as usize]
                }
            },
            Mapper::Mapper1(mmc1) => {
                proof {
                    lemma_mmc1_indices_in_range(mmc1@, addr);
                }
                if addr >= 0x2000 {
                    0
                } else {
                    let index = if addr < 0x1000 {
                        mmc1.chr_bank_offsets.0 + addr as usize
                    } else {
                        mmc1.chr_bank_offsets.1 + (addr as usize - 0x1000)
                    };
                    if mmc1.cart.chr_rom.len() == 0 {
                        mmc1.cart.chr_ram[index]
                    } else {
                        mmc1.cart.chr_rom[index]
                    }
                }
            },
        }
    }

    pub fn ppu_write(&mut self, addr: u16, val: u8)
        requires
            old(self).wf(),
        ensures
            final(self).wf(),
            final(self)@ == old(self)@.ppu_write(addr, val),
    {
        match self {
            Mapper::Empty => {},
            Mapper::Mapper0(cart) => {
                if addr < 0x2000 && cart.chr_rom.len() == 0 {
                    cart.chr_ram.set(addr as usize, val);
                }
            },
            Mapper::Mapper1(mmc1) => {
                proof {
                    lemma_mmc1_indices_in_range(mmc1@, addr);
                }
                if addr < 0x2000 && mmc1.cart.chr_rom.len() == 0 {
                    let index = if addr < 0x1000 {
                        mmc1.chr_bank_offsets.0 + addr as usize
                    } else {
                        mmc1.chr_bank_offsets.1 + (addr as usize - 0x1000)
                    };
                    mmc1.cart.chr_ram.set(index, val);
                }
            },
        }
    }

    pub fn get_mirror_mode(&self) -> (r: MirrorMode)
        ensures
            r == self@.mirror_mode(),
    {
        match self {
            Mapper::Empty => MirrorMode::Horizontal,
            Mapper::Mapper0(cart) => cart.mirror_mode,
            Mapper::Mapper1(mmc1) => mmc1.cart.mirror_mode,
        }
    }

    /// Clocks the mapper's scanline counter. Neither supported mapper has
    /// one, so nothing changes.
    pub fn run_scanline_irq(&mut self)
        ensures
            *final(self) == *old(self),
    {
    }

    /// Whether the mapper asserts the IRQ line. Neither supported mapper
    /// ever does.
    pub fn irq_pending(&self) -> (r: bool)
        ensures
            !r,
    {
        false
    }
}

} // verus!
