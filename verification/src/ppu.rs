//! Storage-level PPU facade: the internal register state, OAM, palette RAM
//! and nametable RAM that the CPU core shares with the graphics pipeline.
//! Pixel generation itself is out of scope; the core only needs the OAM DMA
//! target and the interrupt-relevant state to be modelled.

use vstd::prelude::*;
use crate::memory::{Oam, Palette, Vram};

verus! {

/// PPU internal and memory-mapped register state at the storage level.
#[derive(Clone, Copy)]
pub struct PpuRegisters {
    // Internal scroll/address state.
    pub current_vram_address: u16,
    pub temp_vram_address: u16,
    pub fine_x: u8,
    pub write_latch: bool,
    // Memory-mapped registers $2000-$2003.
    pub ppuctrl: u8,
    pub ppumask: u8,
    pub ppustatus: u8,
    pub oam_address: u8,
    // Buffered read for $2007.
    pub read_buffer: u8,
}

impl PpuRegisters {
    /// Power-up state: vblank flag set, everything else clear.
    pub fn new() -> (r: PpuRegisters)
        ensures
            r == (PpuRegisters {
                current_vram_address: 0,
                temp_vram_address: 0,
                fine_x: 0,
                write_latch: false,
                ppuctrl: 0,
                ppumask: 0,
                ppustatus: 0xA0,
                oam_address: 0,
                read_buffer: 0,
            }),
    {
        PpuRegisters {
            current_vram_address: 0,
            temp_vram_address: 0,
            fine_x: 0,
            write_latch: false,
            ppuctrl: 0,
            ppumask: 0,
            ppustatus: 0xA0,
            oam_address: 0,
            read_buffer: 0,
        }
    }
}

/// Mathematical model of the PPU state the CPU core interacts with.
#[verifier::ext_equal]
pub ghost struct PpuView {
    pub regs: PpuRegisters,
    pub oam: Seq<u8>,
    pub palette: Seq<u8>,
    pub vram: Seq<u8>,
}

/// The PPU-side state owned by the bus.
pub struct Ppu {
    pub registers: PpuRegisters,
    pub oam: Oam,
    pub palette: Palette,
    pub vram: Vram,
}

impl View for Ppu {
    type V = PpuView;

    open spec fn view(&self) -> PpuView {
        PpuView { regs: self.registers, oam: self.oam@, palette: self.palette@, vram: self.vram@ }
    }
}

impl Ppu {
    pub open spec fn wf(&self) -> bool {
        &&& self.oam.wf()
        &&& self.palette.wf()
        &&& self.vram.wf()
    }

    pub fn new() -> (r: Ppu)
        ensures
            r.wf(),
            r@.regs == (PpuRegisters {
                current_vram_address: 0,
                temp_vram_address: 0,
                fine_x: 0,
                write_latch: false,
                ppuctrl: 0,
                ppumask: 0,
                ppustatus: 0xA0,
                oam_address: 0,
                read_buffer: 0,
            }),
            r@.oam == Seq::new(0x100nat, |i: int| 0xFFu8),
            r@.palette == Seq::new(0x20nat, |i: int| 0u8),
            r@.vram == Seq::new(0x0800nat, |i: int| 0u8),
    {
        Ppu {
            registers: PpuRegisters::new(),
            oam: Oam::new(),
            palette: Palette::new(),
            vram: Vram::new(),
        }
    }

    /// The OAM address register $2003, the starting byte for a DMA fill.
    pub fn get_oam_address(&self) -> (r: u8)
        ensures
            r == self@.regs.oam_address,
    {
        self.registers.oam_address
    }
}

} // verus!
