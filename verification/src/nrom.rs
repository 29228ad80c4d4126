//! NROM (iNES mapper 0): fixed PRG banks, no bank switching. A 16 KiB cart
//! mirrors its single bank at both $8000 and $C000 (PRG mask $3FFF); a
//! 32 KiB cart maps straight through (mask $7FFF). An 8 KiB PRG-RAM window
//! sits at $6000-$7FFF, and CHR is read and written at $0000-$1FFF on the
//! PPU-side port.

use vstd::prelude::*;
use crate::cartridge::Mirroring;

verus! {

/// Mathematical model of the NROM state.
#[verifier::ext_equal]
pub ghost struct NromView {
    pub prg_rom: Seq<u8>,
    pub chr: Seq<u8>,
    pub prg_ram: Seq<u8>,
    pub mirroring: Mirroring,
    pub prg_mask: u16,
}

/// What a CPU-side read of the mapper returns: PRG-RAM at $6000-$7FFF,
/// PRG-ROM (folded with the mask) at $8000-$FFFF, 0 elsewhere. A masked
/// index beyond the ROM also reads 0, which only happens on images whose
/// PRG region is smaller than the mask implies.
pub open spec fn spec_nrom_cpu_read(n: NromView, address: u16) -> u8 {
    if 0x6000 <= address < 0x8000 {
        n.prg_ram[address - 0x6000]
    } else if address >= 0x8000 {
        let index = (((address - 0x8000) as u16) & n.prg_mask) as int;
        if index < n.prg_rom.len() {
            n.prg_rom[index]
        } else {
            0
        }
    } else {
        0
    }
}

/// A CPU-side write only lands in the PRG-RAM window; PRG-ROM is read-only.
pub open spec fn spec_nrom_after_cpu_write(n: NromView, address: u16, value: u8) -> NromView {
    if 0x6000 <= address < 0x8000 {
        NromView { prg_ram: n.prg_ram.update(address - 0x6000, value), ..n }
    } else {
        n
    }
}

/// A PPU-side read returns CHR below $2000, 0 elsewhere.
pub open spec fn spec_nrom_ppu_read(n: NromView, address: u16) -> u8 {
    if address < 0x2000 && address < n.chr.len() {
        n.chr[address as int]
    } else {
        0
    }
}

/// A PPU-side write lands in CHR below $2000 (CHR-RAM carts accept it; on
/// CHR-ROM carts the hardware would ignore it, which storage does not model).
pub open spec fn spec_nrom_after_ppu_write(n: NromView, address: u16, value: u8) -> NromView {
    if address < 0x2000 && address < n.chr.len() {
        NromView { chr: n.chr.update(address as int, value), ..n }
    } else {
        n
    }
}

/// The NROM mapper state.
pub struct Nrom {
    pub prg_rom: Vec<u8>,
    pub chr: Vec<u8>,
    pub prg_ram: Vec<u8>,
    pub mirroring: Mirroring,
    pub prg_mask: u16,
}

impl View for Nrom {
    type V = NromView;

    open spec fn view(&self) -> NromView {
        NromView {
            prg_rom: self.prg_rom@,
            chr: self.chr@,
            prg_ram: self.prg_ram@,
            mirroring: self.mirroring,
            prg_mask: self.prg_mask,
        }
    }
}

impl Nrom {
    pub open spec fn wf(&self) -> bool {
        &&& self@.prg_ram.len() == 0x2000
        &&& (self@.prg_mask == 0x3FFF || self@.prg_mask == 0x7FFF)
    }

    pub fn new(prg_rom: Vec<u8>, chr: Vec<u8>, mirroring: Mirroring) -> (r: Nrom)
        ensures
            r.wf(),
            r@.prg_rom == prg_rom@,
            r@.chr == chr@,
            r@.prg_ram == Seq::new(0x2000nat, |i: int| 0u8),
            r@.mirroring == mirroring,
            r@.prg_mask == (if prg_rom@.len() <= 0x4000 {
                0x3FFFu16
            } else {
                0x7FFFu16
            }),
    {
        let prg_mask: u16 = if prg_rom.len() <= 0x4000 {
            0x3FFF  // 16 KiB bank mirrored at $8000 and $C000
        } else {
            0x7FFF  // 32 KiB mapped straight through
        };
        let mut prg_ram: Vec<u8> = Vec::new();
        let mut i: usize = 0;
        while i < 0x2000
            invariant
                i <= 0x2000,
                prg_ram@.len() == i,
                forall|j: int| 0 <= j < i ==> prg_ram@[j] == 0u8,
            decreases 0x2000 - i,
        {
            prg_ram.push(0);
            i = i + 1;
        }
        proof {
            assert(prg_ram@ =~= Seq::new(0x2000nat, |i: int| 0u8));
        }
        Nrom { prg_rom, chr, prg_ram, mirroring, prg_mask }
    }

    pub fn cpu_read(&self, address: u16) -> (r: u8)
        requires
            self.wf(),
        ensures
            r == spec_nrom_cpu_read(self@, address),
    {
        if 0x6000 <= address && address < 0x8000 {
            self.prg_ram[(address - 0x6000) as usize]
        } else if address >= 0x8000 {
            let index = ((address - 0x8000) & self.prg_mask) as usize;
            if index < self.prg_rom.len() {
                self.prg_rom[index]
            } else {
                0
            }
        } else {
            0
        }
    }

    pub fn cpu_write(&mut self, address: u16, value: u8)
        requires
            old(self).wf(),
        ensures
            final(self).wf(),
            final(self)@ == spec_nrom_after_cpu_write(old(self)@, address, value),
    {
        if 0x6000 <= address && address < 0x8000 {
            self.prg_ram.set((address - 0x6000) as usize, value);
        }
    }

    pub fn ppu_read(&self, address: u16) -> (r: u8)
        ensures
            r == spec_nrom_ppu_read(self@, address),
    {
        if address < 0x2000 && (address as usize) < self.chr.len() {
            self.chr[address as usize]
        } else {
            0
        }
    }

    pub fn ppu_write(&mut self, address: u16, value: u8)
        requires
            old(self).wf(),
        ensures
            final(self).wf(),
            final(self)@ == spec_nrom_after_ppu_write(old(self)@, address, value),
    {
        if address < 0x2000 && (address as usize) < self.chr.len() {
            self.chr.set(address as usize, value);
        }
    }

    pub fn mirroring(&self) -> (r: Mirroring)
        ensures
            r == self@.mirroring,
    {
        self.mirroring
    }
}

} // verus!
