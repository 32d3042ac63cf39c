use vstd::prelude::*;

verus! {

/// How the four logical nametables map onto the two physical ones.
#[derive(Copy, Clone, PartialEq, Eq, Debug, Structural)]
pub enum MirrorMode {
    Vertical,
    Horizontal,
    SingleScreenA,
    SingleScreenB,
}

/// Why a ROM image could not be turned into a running cartridge.
#[derive(Copy, Clone, PartialEq, Eq, Debug, Structural)]
pub enum LoadError {
    /// The signature is wrong or the header promises more data than the image holds.
    InvalidRomFormat,
    /// The header names a mapper this core does not implement.
    UnsupportedMapper,
}

/// Size of one program-ROM bank.
pub const PRG_BANK: usize = 0x4000;

/// Size of one pattern (CHR) bank.
pub const CHR_BANK: usize = 0x2000;

/// Size of the cartridge work RAM and of the pattern RAM.
pub const RAM_SIZE: usize = 0x2000;

/// A parsed cartridge image.
#[derive(Clone, Debug)]
pub struct Cartridge {
    pub prg_rom: Vec<u8>,
    pub chr_rom: Vec<u8>,
    pub mapper_id: u8,
    pub mirror_mode: MirrorMode,
    pub prg_ram: Vec<u8>,
    pub chr_ram: Vec<u8>,
}

/// Mathematical content of a [`Cartridge`].
pub struct CartridgeState {
    pub prg_rom: Seq<u8>,
    pub chr_rom: Seq<u8>,
    pub mapper_id: u8,
    pub mirror_mode: MirrorMode,
    pub prg_ram: Seq<u8>,
    pub chr_ram: Seq<u8>,
}

impl CartridgeState {
    /// Both RAMs are 8 KiB and both ROMs are made of whole banks, at most
    /// 255 of them.
    pub open spec fn wf(self) -> bool {
        &&& self.prg_ram.len() == RAM_SIZE
        &&& self.chr_ram.len() == RAM_SIZE
        &&& self.prg_rom.len() % (PRG_BANK as nat) == 0
        &&& self.chr_rom.len() % (CHR_BANK as nat) == 0
        &&& self.prg_rom.len() <= 255 * PRG_BANK
        &&& self.chr_rom.len() <= 255 * CHR_BANK
    }

    /// A cartridge without pattern ROM carries writable pattern RAM instead.
    pub open spec fn has_chr_ram(self) -> bool {
        self.chr_rom.len() == 0
    }

    /// The pattern memory the PPU sees.
    pub open spec fn chr(self) -> Seq<u8> {
        if self.has_chr_ram() {
            self.chr_ram
        } else {
            self.chr_rom
        }
    }

    /// The same cartridge with one byte of pattern RAM replaced; pattern ROM
    /// ignores writes.
    pub open spec fn with_chr(self, index: int, val: u8) -> CartridgeState {
        if self.has_chr_ram() {
            CartridgeState { chr_ram: self.chr_ram.update(index, val), ..self }
        } else {
            self
        }
    }
}

impl View for Cartridge {
    type V = CartridgeState;

    open spec fn view(&self) -> CartridgeState {
        CartridgeState {
            prg_rom: self.prg_rom@,
            chr_rom: self.chr_rom@,
            mapper_id: self.mapper_id,
            mirror_mode: self.mirror_mode,
            prg_ram: self.prg_ram@,
            chr_ram: self.chr_ram@,
        }
    }
}

/// `n` zero bytes.
pub open spec fn zeros(n: nat) -> Seq<u8> {
    Seq::new(n, |i: int| 0u8)
}

/// The image is at least a header and opens with "NES" and 0x1A.
pub open spec fn has_signature(bytes: Seq<u8>) -> bool {
    &&& bytes.len() >= 16
    &&& bytes[0] == 0x4E
    &&& bytes[1] == 0x45
    &&& bytes[2] == 0x53
    &&& bytes[3] == 0x1A
}

/// Where program ROM starts: after the header and the 512-byte trainer, if any.
pub open spec fn prg_start(bytes: Seq<u8>) -> int {
    if bytes[6] & 0x04 != 0 {
        528
    } else {
        16
    }
}

/// Program-ROM size the header announces.
pub open spec fn prg_size(bytes: Seq<u8>) -> int {
    bytes[4] as int * PRG_BANK as int
}

/// Pattern-ROM size the header announces.
pub open spec fn chr_size(bytes: Seq<u8>) -> int {
    bytes[5] as int * CHR_BANK as int
}

/// The image carries the signature and all the data its header announces.
pub open spec fn rom_is_valid(bytes: Seq<u8>) -> bool {
    &&& has_signature(bytes)
    &&& prg_start(bytes) + prg_size(bytes) + chr_size(bytes) <= bytes.len()
}

/// Mirror mode chosen by header byte 6: vertical when bit 0 is set and the
/// four-screen bit is clear, horizontal otherwise.
pub open spec fn header_mirror_mode(flag6: u8) -> MirrorMode {
    if flag6 & 0x08 == 0 && flag6 & 0x01 != 0 {
        MirrorMode::Vertical
    } else {
        MirrorMode::Horizontal
    }
}

/// Mapper number: low nibble from byte 6, high nibble from byte 7.
pub open spec fn header_mapper_id(flag6: u8, flag7: u8) -> u8 {
    (flag6 >> 4) | (flag7 & 0xF0)
}

/// The cartridge a valid image describes.
pub open spec fn parse_rom(bytes: Seq<u8>) -> CartridgeState {
    let start = prg_start(bytes);
    let mid = start + prg_size(bytes);
    CartridgeState {
        prg_rom: bytes.subrange(start, mid),
        chr_rom: bytes.subrange(mid, mid + chr_size(bytes)),
        mapper_id: header_mapper_id(bytes[6], bytes[7]),
        mirror_mode: header_mirror_mode(bytes[6]),
        prg_ram: zeros(RAM_SIZE as nat),
        chr_ram: zeros(RAM_SIZE as nat),
    }
}

fn copy_range(src: &Vec<u8>, start: usize, len: usize) -> (out: Vec<u8>)
    requires
        start + len <= src.len(),
    ensures
        out@ == src@.subrange(start as int, start + len),
{
    let mut out: Vec<u8> = Vec::with_capacity(len);
    let mut i: usize = 0;
    while i < len
        invariant
            i <= len,
            start + len <= src.len(),
            out@ == src@.subrange(start as int, start + i),
        decreases len - i,
    {
        out.push(src[start + i]);
        i += 1;
        assert(out@ =~= src@.subrange(start as int, start + i));
    }
    out
}

/// A fresh 8 KiB RAM.
pub fn blank_ram() -> (out: Vec<u8>)
    ensures
        out@ == zeros(RAM_SIZE as nat),
{
    let out = vec![0u8; RAM_SIZE];
    assert(out@ =~= zeros(RAM_SIZE as nat));
    out
}

impl Cartridge {
    pub open spec fn wf(&self) -> bool {
        self@.wf()
    }

    /// Parses an iNES image. Succeeds exactly on the images that carry the
    /// signature and every byte their header announces.
    pub fn from_bytes(rom_data: Vec<u8>) -> (r: Result<Cartridge, LoadError>)
        ensures
            match r {
                Ok(cart) => rom_is_valid(rom_data@) && cart@ == parse_rom(rom_data@) && cart.wf(),
                Err(e) => !rom_is_valid(rom_data@) && e == LoadError::InvalidRomFormat,
            },
    {
        if rom_data.len() < 16 {
            return Err(LoadError::InvalidRomFormat);
        }
        if rom_data[0] != 0x4E || rom_data[1] != 0x45 || rom_data[2] != 0x53 || rom_data[3]
            != 0x1A {
            return Err(LoadError::InvalidRomFormat);
        }
        let flag6 = rom_data[6];
        let flag7 = rom_data[7];
        let prg_len: usize = rom_data[4] as usize * PRG_BANK;
        let chr_len: usize = rom_data[5] as usize * CHR_BANK;
        let start: usize = if flag6 & 0x04 != 0 {
            16 + 512
        } else {
            16
        };
        if start + prg_len + chr_len > rom_data.len() {
            return Err(LoadError::InvalidRomFormat);
        }
        let mirror_mode = if flag6 & 0x08 == 0 && flag6 & 0x01 != 0 {
            MirrorMode::Vertical
        } else {
            MirrorMode::Horizontal
        };
        let prg_rom = copy_range(&rom_data, start, prg_len);
        let chr_rom = copy_range(&rom_data, start + prg_len, chr_len);
        let cart = Cartridge {
            prg_rom,
            chr_rom,
            mapper_id: (flag6 >> 4) | (flag7 & 0xF0),
            mirror_mode,
            prg_ram: blank_ram(),
            chr_ram: blank_ram(),
        };
        Ok(cart)
    }

    /// Replaces the mirror mode and nothing else.
    pub fn set_mirroring(&mut self, mode: MirrorMode)
        ensures
            final(self)@ == (CartridgeState { mirror_mode: mode, ..old(self)@ }),
    {
        self.mirror_mode = mode;
    }
}

} // verus!
