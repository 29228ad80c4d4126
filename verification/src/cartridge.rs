//! iNES cartridge loader: parses the 16-byte header, extracts the PRG and
//! CHR regions (skipping a 512-byte trainer when the header announces one)
//! and hands them to the NROM mapper, the only mapper supported.

use vstd::prelude::*;
use crate::nrom::{Nrom, NromView, spec_nrom_cpu_read, spec_nrom_after_cpu_write,
    spec_nrom_ppu_read, spec_nrom_after_ppu_write};

verus! {

/// Nametable mirroring mode announced by the header.
#[derive(Clone, Copy, PartialEq, Eq, Structural, Debug)]
pub enum Mirroring {
    Horizontal,
    Vertical,
    FourScreen,
}

/// Why a ROM image was rejected.
#[derive(Clone, Copy, PartialEq, Eq, Structural, Debug)]
pub enum CartridgeError {
    /// The image is shorter than the 16-byte iNES header.
    HeaderTooSmall,
    /// The image does not start with "NES\x1A".
    InvalidMagic,
    /// The image is shorter than the header-announced regions require.
    Truncated,
    /// The header names a mapper other than 0 (NROM).
    UnsupportedMapper,
    /// A cartridge is already resident; unload it first.
    AlreadyLoaded,
}

impl CartridgeError {
    /// A short human-readable description of the rejection.
    pub fn message(&self) -> (r: &'static str)
        ensures
            r@ == match *self {
                CartridgeError::HeaderTooSmall => "ROM too small for iNES header"@,
                CartridgeError::InvalidMagic => "Invalid iNES magic number"@,
                CartridgeError::Truncated => "ROM file truncated"@,
                CartridgeError::UnsupportedMapper => "Unsupported mapper"@,
                CartridgeError::AlreadyLoaded => "Cartridge already loaded"@,
            },
    {
        match *self {
            CartridgeError::HeaderTooSmall => "ROM too small for iNES header",
            CartridgeError::InvalidMagic => "Invalid iNES magic number",
            CartridgeError::Truncated => "ROM file truncated",
            CartridgeError::UnsupportedMapper => "Unsupported mapper",
            CartridgeError::AlreadyLoaded => "Cartridge already loaded",
        }
    }
}

/// The image starts with the iNES magic "NES\x1A".
pub open spec fn spec_ines_magic_ok(rom: Seq<u8>) -> bool {
    &&& rom[0] == 0x4Eu8
    &&& rom[1] == 0x45u8
    &&& rom[2] == 0x53u8
    &&& rom[3] == 0x1Au8
}

/// PRG-ROM size in bytes: header byte 4 counts 16 KiB banks.
pub open spec fn spec_ines_prg_size(rom: Seq<u8>) -> int {
    rom[4] * 16384
}

/// CHR-ROM size in bytes: header byte 5 counts 8 KiB banks.
pub open spec fn spec_ines_chr_size(rom: Seq<u8>) -> int {
    rom[5] * 8192
}

/// Mapper id: high nibble of flags 6 is the low nibble, high nibble of
/// flags 7 is the high nibble.
pub open spec fn spec_ines_mapper_id(rom: Seq<u8>) -> u8 {
    (rom[6] >> 4) | (rom[7] & 0xF0)
}

/// Mirroring: four-screen beats the vertical/horizontal bit.
pub open spec fn spec_ines_mirroring(rom: Seq<u8>) -> Mirroring {
    if rom[6] & 0x08 != 0 {
        Mirroring::FourScreen
    } else if rom[6] & 0x01 != 0 {
        Mirroring::Vertical
    } else {
        Mirroring::Horizontal
    }
}

pub open spec fn spec_ines_has_battery(rom: Seq<u8>) -> bool {
    rom[6] & 0x02 != 0
}

pub open spec fn spec_ines_has_trainer(rom: Seq<u8>) -> bool {
    rom[6] & 0x04 != 0
}

/// Offset of the PRG region: header, then the optional 512-byte trainer.
pub open spec fn spec_ines_prg_start(rom: Seq<u8>) -> int {
    16 + if spec_ines_has_trainer(rom) {
        512int
    } else {
        0int
    }
}

/// One past the end of the CHR region.
pub open spec fn spec_ines_chr_end(rom: Seq<u8>) -> int {
    spec_ines_prg_start(rom) + spec_ines_prg_size(rom) + spec_ines_chr_size(rom)
}

/// The image parses: header present, magic right, regions all present, and
/// the mapper is NROM.
pub open spec fn spec_ines_ok(rom: Seq<u8>) -> bool {
    &&& rom.len() >= 16
    &&& spec_ines_magic_ok(rom)
    &&& rom.len() >= spec_ines_chr_end(rom)
    &&& spec_ines_mapper_id(rom) == 0
}

/// The error a rejected image earns, in the order the checks run.
pub open spec fn spec_ines_error(rom: Seq<u8>) -> CartridgeError {
    if rom.len() < 16 {
        CartridgeError::HeaderTooSmall
    } else if !spec_ines_magic_ok(rom) {
        CartridgeError::InvalidMagic
    } else if rom.len() < spec_ines_chr_end(rom) {
        CartridgeError::Truncated
    } else {
        CartridgeError::UnsupportedMapper
    }
}

/// The PRG-ROM bytes of a well-formed image.
pub open spec fn spec_ines_prg(rom: Seq<u8>) -> Seq<u8> {
    rom.subrange(spec_ines_prg_start(rom), spec_ines_prg_start(rom) + spec_ines_prg_size(rom))
}

/// The CHR bytes of a well-formed image: the CHR-ROM region, or 8 KiB of
/// zero-initialized CHR-RAM when the header reports zero CHR banks.
pub open spec fn spec_ines_chr(rom: Seq<u8>) -> Seq<u8> {
    if spec_ines_chr_size(rom) > 0 {
        rom.subrange(spec_ines_prg_start(rom) + spec_ines_prg_size(rom), spec_ines_chr_end(rom))
    } else {
        Seq::new(8192nat, |i: int| 0u8)
    }
}

/// Mathematical model of a loaded cartridge.
#[verifier::ext_equal]
pub ghost struct CartridgeView {
    pub mapper: NromView,
    pub prg_rom_size: int,
    pub chr_rom_size: int,
    pub mapper_id: u8,
    pub mirroring: Mirroring,
    pub has_battery: bool,
    pub has_trainer: bool,
}

/// A loaded cartridge: header metadata plus the mapper that owns the data.
pub struct Cartridge {
    pub mapper: Nrom,
    pub prg_rom_size: usize,
    pub chr_rom_size: usize,
    pub mapper_id: u8,
    pub mirroring: Mirroring,
    pub has_battery: bool,
    pub has_trainer: bool,
}

impl View for Cartridge {
    type V = CartridgeView;

    open spec fn view(&self) -> CartridgeView {
        CartridgeView {
            mapper: self.mapper@,
            prg_rom_size: self.prg_rom_size as int,
            chr_rom_size: self.chr_rom_size as int,
            mapper_id: self.mapper_id,
            mirroring: self.mirroring,
            has_battery: self.has_battery,
            has_trainer: self.has_trainer,
        }
    }
}

impl Cartridge {
    pub open spec fn wf(&self) -> bool {
        self.mapper.wf()
    }

    /// Parse an iNES image. Returns the loaded cartridge exactly when the
    /// header is present and sound, every announced region fits in the
    /// image, and the mapper is NROM; otherwise reports the first failing
    /// check.
    pub fn from_bytes(rom: &[u8]) -> (r: Result<Cartridge, CartridgeError>)
        ensures
            r is Ok <==> spec_ines_ok(rom@),
            r is Err ==> r->Err_0 == spec_ines_error(rom@),
            r is Ok ==> ({
                let c = r->Ok_0;
                &&& c.wf()
                &&& c@.mapper.prg_rom == spec_ines_prg(rom@)
                &&& c@.mapper.chr == spec_ines_chr(rom@)
                &&& c@.mapper.prg_ram == Seq::new(0x2000nat, |i: int| 0u8)
                &&& c@.mapper.prg_mask == (if spec_ines_prg_size(rom@) <= 0x4000 {
                    0x3FFFu16
                } else {
                    0x7FFFu16
                })
                &&& c@.mapper.mirroring == spec_ines_mirroring(rom@)
                &&& c@.prg_rom_size == spec_ines_prg_size(rom@)
                &&& c@.chr_rom_size == spec_ines_chr_size(rom@)
                &&& c@.mapper_id == 0
                &&& c@.mirroring == spec_ines_mirroring(rom@)
                &&& c@.has_battery == spec_ines_has_battery(rom@)
                &&& c@.has_trainer == spec_ines_has_trainer(rom@)
            }),
    {
        // Validate the header.
        if rom.len() < 16 {
            return Err(CartridgeError::HeaderTooSmall);
        }
        if !(rom[0] == 0x4E && rom[1] == 0x45 && rom[2] == 0x53 && rom[3] == 0x1A) {
            return Err(CartridgeError::InvalidMagic);
        }
        // Parse the header.
        let prg_banks = rom[4] as usize;
        let chr_banks = rom[5] as usize;
        let flags6 = rom[6];
        let flags7 = rom[7];

        let prg_rom_size = prg_banks * 16384;
        let chr_rom_size = chr_banks * 8192;
        let mapper_id = (flags6 >> 4) | (flags7 & 0xF0);

        let mirroring = if flags6 & 0x08 != 0 {
            Mirroring::FourScreen
        } else if flags6 & 0x01 != 0 {
            Mirroring::Vertical
        } else {
            Mirroring::Horizontal
        };

        let has_battery = flags6 & 0x02 != 0;
        let has_trainer = flags6 & 0x04 != 0;

        // Region offsets.
        let trainer_size: usize = if has_trainer {
            512
        } else {
            0
        };
        let prg_start = 16 + trainer_size;
        let prg_end = prg_start + prg_rom_size;
        let chr_start = prg_end;
        let chr_end = chr_start + chr_rom_size;

        // Validate the announced sizes against the image.
        if rom.len() < chr_end {
            return Err(CartridgeError::Truncated);
        }

        // Extract the regions.
        let prg_rom = vstd::slice::slice_to_vec(&rom[prg_start..prg_end]);
        let chr = if chr_rom_size > 0 {
            vstd::slice::slice_to_vec(&rom[chr_start..chr_end])
        } else {
            // CHR-RAM
            let mut chr_ram: Vec<u8> = Vec::new();
            let mut i: usize = 0;
            while i < 8192
                invariant
                    i <= 8192,
                    chr_ram@.len() == i,
                    forall|j: int| 0 <= j < i ==> chr_ram@[j] == 0u8,
                decreases 8192 - i,
            {
                chr_ram.push(0);
                i = i + 1;
            }
            proof {
                assert(chr_ram@ =~= Seq::new(8192nat, |i: int| 0u8));
            }
            chr_ram
        };

        // Create the mapper; only NROM is supported.
        if mapper_id != 0 {
            return Err(CartridgeError::UnsupportedMapper);
        }
        let mapper = Nrom::new(prg_rom, chr, mirroring);

        Ok(
            Cartridge {
                mapper,
                prg_rom_size,
                chr_rom_size,
                mapper_id,
                mirroring,
                has_battery,
                has_trainer,
            },
        )
    }

    pub fn cpu_read(&self, address: u16) -> (r: u8)
        requires
            self.wf(),
        ensures
            r == spec_nrom_cpu_read(self@.mapper, address),
    {
        self.mapper.cpu_read(address)
    }

    pub fn cpu_write(&mut self, address: u16, value: u8)
        requires
            old(self).wf(),
        ensures
            final(self).wf(),
            final(self)@ == (CartridgeView {
                mapper: spec_nrom_after_cpu_write(old(self)@.mapper, address, value),
                ..old(self)@
            }),
    {
        self.mapper.cpu_write(address, value);
    }

    pub fn ppu_read(&self, address: u16) -> (r: u8)
        ensures
            r == spec_nrom_ppu_read(self@.mapper, address),
    {
        self.mapper.ppu_read(address)
    }

    pub fn ppu_write(&mut self, address: u16, value: u8)
        requires
            old(self).wf(),
        ensures
            final(self).wf(),
            final(self)@ == (CartridgeView {
                mapper: spec_nrom_after_ppu_write(old(self)@.mapper, address, value),
                ..old(self)@
            }),
    {
        self.mapper.ppu_write(address, value);
    }
}

} // verus!
