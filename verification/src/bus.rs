//! The CPU address-space router. It owns the work RAM, the PPU-side state
//! and the optional cartridge, holds the open-bus latch, and carries the
//! interrupt lines (an edge-latched NMI and three OR-combined IRQ sources).
//!
//! Address map: $0000-$1FFF is RAM mirrored every $0800; $4020-$FFFF goes to
//! the cartridge (open bus without one). The PPU/APU/controller register
//! facades in $2000-$401F are not modelled beyond storage, so reads there
//! return the open-bus latch and writes are dropped; $4014 never reaches the
//! bus because the CPU intercepts it as the OAM DMA trigger.
//!
//! Every read and write is also recorded in a ghost access trace, which is
//! what lets the timing-fidelity properties (dummy reads, the three accesses
//! of a read-modify-write instruction) be stated exactly.

use vstd::prelude::*;
use crate::memory::{Ram, spec_oam_after_dma};
use crate::ppu::{Ppu, PpuView};
use crate::cartridge::{Cartridge, CartridgeView, CartridgeError};
use crate::nrom::{spec_nrom_cpu_read, spec_nrom_after_cpu_write};

verus! {

/// One bus transaction, as seen by the CPU.
pub ghost struct BusAccess {
    pub is_write: bool,
    pub address: u16,
    pub value: u8,
}

/// Mathematical model of the bus state.
#[verifier::ext_equal]
pub ghost struct BusView {
    pub ram: Seq<u8>,
    pub ppu: PpuView,
    pub last_read: u8,
    pub nmi_line: bool,
    pub nmi_edge_detected: bool,
    pub irq_apu_frame: bool,
    pub irq_apu_dmc: bool,
    pub irq_mapper: bool,
    pub cartridge: Option<CartridgeView>,
    pub trace: Seq<BusAccess>,
}

/// What a CPU read returns: RAM below $2000, the cartridge from $4020 up,
/// and the open-bus latch everywhere else (including cartridge space with no
/// cartridge resident).
pub open spec fn spec_bus_read_value(b: BusView, address: u16) -> u8 {
    if address < 0x2000 {
        b.ram[(address & 0x07FF) as int]
    } else if address >= 0x4020 {
        match b.cartridge {
            Some(c) => spec_nrom_cpu_read(c.mapper, address),
            None => b.last_read,
        }
    } else {
        b.last_read
    }
}

/// Whether a read of this address reaches a mapped device; only such reads
/// refresh the open-bus latch.
pub open spec fn spec_bus_read_mapped(b: BusView, address: u16) -> bool {
    ||| address < 0x2000
    ||| (address >= 0x4020 && b.cartridge is Some)
}

/// The bus after a CPU read: the value lands in the open-bus latch when the
/// read was mapped, and the access joins the trace. (An unmapped read
/// returns the latch itself, so the latch is unchanged either way.)
pub open spec fn spec_bus_after_cpu_read(b: BusView, address: u16) -> BusView {
    BusView {
        last_read: spec_bus_read_value(b, address),
        trace: b.trace.push(
            BusAccess { is_write: false, address, value: spec_bus_read_value(b, address) },
        ),
        ..b
    }
}

/// The bus after a CPU write: RAM below $2000, the cartridge's PRG-RAM
/// window from $4020 up, dropped everywhere else; the access joins the
/// trace unconditionally.
pub open spec fn spec_bus_after_cpu_write(b: BusView, address: u16, value: u8) -> BusView {
    let traced = BusView {
        trace: b.trace.push(BusAccess { is_write: true, address, value }),
        ..b
    };
    if address < 0x2000 {
        BusView { ram: b.ram.update((address & 0x07FF) as int, value), ..traced }
    } else if address >= 0x4020 {
        match b.cartridge {
            Some(c) => BusView {
                cartridge: Some(
                    CartridgeView {
                        mapper: spec_nrom_after_cpu_write(c.mapper, address, value),
                        ..c
                    },
                ),
                ..traced
            },
            None => traced,
        }
    } else {
        traced
    }
}

/// The bus after the OAM DMA engine hands over a 256-byte buffer: the PPU's
/// OAM is filled with wrap-around starting at its OAM address register.
pub open spec fn spec_bus_after_oam_load(b: BusView, buffer: Seq<u8>) -> BusView {
    BusView {
        ppu: PpuView {
            oam: spec_oam_after_dma(b.ppu.regs.oam_address, buffer),
            ..b.ppu
        },
        ..b
    }
}

/// The bus.
pub struct Bus {
    pub ram: Ram,
    pub ppu: Ppu,
    /// Open-bus latch: the last value a mapped read put on the data bus.
    pub last_read: u8,
    // NMI line with edge detection.
    pub nmi_line: bool,
    pub nmi_edge_detected: bool,
    // IRQ sources.
    pub irq_apu_frame: bool,
    pub irq_apu_dmc: bool,
    pub irq_mapper: bool,
    pub cartridge: Option<Cartridge>,
    /// Ghost log of every CPU-side bus access.
    pub trace: Ghost<Seq<BusAccess>>,
}

impl View for Bus {
    type V = BusView;

    open spec fn view(&self) -> BusView {
        BusView {
            ram: self.ram@,
            ppu: self.ppu@,
            last_read: self.last_read,
            nmi_line: self.nmi_line,
            nmi_edge_detected: self.nmi_edge_detected,
            irq_apu_frame: self.irq_apu_frame,
            irq_apu_dmc: self.irq_apu_dmc,
            irq_mapper: self.irq_mapper,
            cartridge: match self.cartridge {
                Some(c) => Some(c@),
                None => None,
            },
            trace: self.trace@,
        }
    }
}

impl Bus {
    pub open spec fn wf(&self) -> bool {
        &&& self.ram.wf()
        &&& self.ppu.wf()
        &&& match self.cartridge {
            Some(c) => c.wf(),
            None => true,
        }
    }

    pub fn new() -> (r: Bus)
        ensures
            r.wf(),
            r@.ram == Seq::new(0x0800nat, |i: int| 0u8),
            r@.last_read == 0,
            !r@.nmi_line,
            !r@.nmi_edge_detected,
            !r@.irq_apu_frame,
            !r@.irq_apu_dmc,
            !r@.irq_mapper,
            r@.cartridge is None,
            r@.trace == Seq::<BusAccess>::empty(),
            r@.ppu.oam == Seq::new(0x100nat, |i: int| 0xFFu8),
            r@.ppu.regs.oam_address == 0,
    {
        Bus {
            ram: Ram::new(),
            ppu: Ppu::new(),
            last_read: 0,
            nmi_line: false,
            nmi_edge_detected: false,
            irq_apu_frame: false,
            irq_apu_dmc: false,
            irq_mapper: false,
            cartridge: None,
            trace: Ghost(Seq::empty()),
        }
    }

    /// Parse and install a cartridge. Refused when one is already resident:
    /// the shell must unload first.
    pub fn load_cartridge(&mut self, data: &[u8]) -> (r: Result<(), CartridgeError>)
        requires
            old(self).wf(),
        ensures
            final(self).wf(),
            old(self)@.cartridge is Some ==> {
                &&& r == Result::<(), CartridgeError>::Err(CartridgeError::AlreadyLoaded)
                &&& final(self)@ == old(self)@
            },
            old(self)@.cartridge is None ==> {
                &&& (r is Ok <==> crate::cartridge::spec_ines_ok(data@))
                &&& (r is Err ==> r->Err_0 == crate::cartridge::spec_ines_error(data@)
                    && final(self)@ == old(self)@)
                &&& (r is Ok ==> final(self)@ == (BusView {
                    cartridge: Some(final(self)@.cartridge->0),
                    ..old(self)@
                }) && {
                    let c = final(self)@.cartridge->0;
                    &&& c.mapper.prg_rom == crate::cartridge::spec_ines_prg(data@)
                    &&& c.mapper.chr == crate::cartridge::spec_ines_chr(data@)
                    &&& c.mapper.prg_ram == Seq::new(0x2000nat, |i: int| 0u8)
                    &&& c.mirroring == crate::cartridge::spec_ines_mirroring(data@)
                })
            },
    {
        if self.cartridge.is_none() {
            match Cartridge::from_bytes(data) {
                Ok(cartridge) => {
                    self.cartridge = Some(cartridge);
                    Ok(())
                },
                Err(e) => Err(e),
            }
        } else {
            Err(CartridgeError::AlreadyLoaded)
        }
    }

    pub fn unload_cartridge(&mut self)
        requires
            old(self).wf(),
        ensures
            final(self).wf(),
            final(self)@ == (BusView { cartridge: None, ..old(self)@ }),
    {
        self.cartridge = None;
    }

    /// Drive the NMI line. The edge detector fires on a false-to-true
    /// transition and stays latched until the CPU consumes it.
    pub fn set_nmi(&mut self, level: bool)
        ensures
            final(self)@ == (BusView {
                nmi_line: level,
                nmi_edge_detected: old(self)@.nmi_edge_detected || (level && !old(self)@.nmi_line),
                ..old(self)@
            }),
            final(self).wf() == old(self).wf(),
    {
        if level && !self.nmi_line {
            self.nmi_edge_detected = true;
        }
        self.nmi_line = level;
    }

    /// Consume the NMI edge latch: returns whether an edge was pending and
    /// clears it, so each edge fires at most one NMI sequence.
    pub fn take_nmi_edge(&mut self) -> (r: bool)
        ensures
            r == old(self)@.nmi_edge_detected,
            final(self)@ == (BusView { nmi_edge_detected: false, ..old(self)@ }),
            final(self).wf() == old(self).wf(),
    {
        let edge = self.nmi_edge_detected;
        self.nmi_edge_detected = false;
        edge
    }

    pub fn set_irq_apu_frame(&mut self, asserted: bool)
        ensures
            final(self)@ == (BusView { irq_apu_frame: asserted, ..old(self)@ }),
            final(self).wf() == old(self).wf(),
    {
        self.irq_apu_frame = asserted;
    }

    pub fn set_irq_apu_dmc(&mut self, asserted: bool)
        ensures
            final(self)@ == (BusView { irq_apu_dmc: asserted, ..old(self)@ }),
            final(self).wf() == old(self).wf(),
    {
        self.irq_apu_dmc = asserted;
    }

    pub fn set_irq_mapper(&mut self, asserted: bool)
        ensures
            final(self)@ == (BusView { irq_mapper: asserted, ..old(self)@ }),
            final(self).wf() == old(self).wf(),
    {
        self.irq_mapper = asserted;
    }

    /// The IRQ line is the OR of the three sources.
    pub fn irq_asserted(&self) -> (r: bool)
        ensures
            r == (self@.irq_apu_frame || self@.irq_apu_dmc || self@.irq_mapper),
    {
        self.irq_apu_frame || self.irq_apu_dmc || self.irq_mapper
    }

    /// Placeholder for the PPU pipeline, which is out of scope.
    pub fn ppu_stub_tick(&self) {
    }

    pub fn cpu_read(&mut self, address: u16) -> (r: u8)
        requires
            old(self).wf(),
        ensures
            final(self).wf(),
            r == spec_bus_read_value(old(self)@, address),
            final(self)@ == spec_bus_after_cpu_read(old(self)@, address),
    {
        let value = if address < 0x2000 {
            self.ram.read(address)
        } else if address >= 0x4020 {
            match &self.cartridge {
                Some(cartridge) => cartridge.cpu_read(address),
                None => self.last_read,
            }
        } else {
            // PPU/APU/controller register facade: open bus at this level.
            self.last_read
        };
        self.last_read = value;
        proof {
            self.trace@ = self.trace@.push(
                BusAccess { is_write: false, address, value },
            );
        }
        value
    }

    pub fn cpu_write(&mut self, address: u16, value: u8)
        requires
            old(self).wf(),
        ensures
            final(self).wf(),
            final(self)@ == spec_bus_after_cpu_write(old(self)@, address, value),
    {
        proof {
            self.trace@ = self.trace@.push(BusAccess { is_write: true, address, value });
        }
        if address < 0x2000 {
            self.ram.write(address, value);
        } else if address >= 0x4020 {
            match &mut self.cartridge {
                Some(cartridge) => cartridge.cpu_write(address, value),
                None => (),
            }
        } else {
            // PPU/APU/controller register facade: dropped at this level.
        }
    }

    /// Hand a 256-byte DMA buffer to the PPU's OAM, which fills with
    /// wrap-around from its OAM address register.
    pub fn load_oam_data(&mut self, buffer: &Vec<u8>)
        requires
            old(self).wf(),
            buffer@.len() == 0x100,
        ensures
            final(self).wf(),
            final(self)@ == spec_bus_after_oam_load(old(self)@, buffer@),
    {
        let oam_address = self.ppu.get_oam_address();
        self.ppu.oam.dma_write(oam_address, buffer);
    }
}

} // verus!
