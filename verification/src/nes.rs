//! The console: owner of the bus and the CPU, driven by the master clock.
//! The CPU steps once every three master ticks and the PPU stub once per
//! tick; the run mode is the shell's stepping control.

use vstd::prelude::*;
use crate::bus::{Bus, BusView};
use crate::cpu::{Cpu, spec_tick, spec_reset, spec_load_vector, RESET_VECTOR};
use crate::cartridge::CartridgeError;

verus! {

/// Master ticks per CPU tick.
pub const TICKS_PER_CPU_TICK: u8 = 3;

/// Master ticks per PPU tick.
pub const TICKS_PER_PPU_TICK: u8 = 1;

/// The shell's stepping control.
#[derive(Clone, Copy, PartialEq, Eq, Structural, Debug)]
pub enum RunMode {
    Paused,
    Running,
    StepCycle,
    StepInstruction,
    StepFrame,
}

/// The console.
pub struct Nes {
    pub bus: Bus,
    pub cpu: Cpu,
    pub cpu_tick_counter: u8,
    pub ppu_tick_counter: u8,
    pub run_mode: RunMode,
    pub powered_on: bool,
}

impl Nes {
    pub open spec fn wf(&self) -> bool {
        &&& self.bus.wf()
        &&& self.cpu_tick_counter < TICKS_PER_CPU_TICK
        &&& self.ppu_tick_counter < TICKS_PER_PPU_TICK
    }

    /// A console at power-up: bus and CPU fresh, paused, not powered.
    pub fn new() -> (r: Nes)
        ensures
            r.wf(),
            r.bus@.cartridge is None,
            r.cpu.total_cycles == 0,
            r.cpu_tick_counter == 0,
            r.ppu_tick_counter == 0,
            r.run_mode is Paused,
            !r.powered_on,
    {
        Nes {
            bus: Bus::new(),
            cpu: Cpu::new(),
            cpu_tick_counter: 0,
            ppu_tick_counter: 0,
            run_mode: RunMode::Paused,
            powered_on: false,
        }
    }

    /// Parse and install a cartridge; refused while one is resident.
    pub fn load_cartridge(&mut self, data: &[u8]) -> (r: Result<(), CartridgeError>)
        requires
            old(self).wf(),
        ensures
            final(self).wf(),
            final(self).cpu == old(self).cpu,
            final(self).cpu_tick_counter == old(self).cpu_tick_counter,
            final(self).ppu_tick_counter == old(self).ppu_tick_counter,
            final(self).run_mode == old(self).run_mode,
            final(self).powered_on == old(self).powered_on,
            old(self).bus@.cartridge is Some ==> {
                &&& r == Result::<(), CartridgeError>::Err(CartridgeError::AlreadyLoaded)
                &&& final(self).bus@ == old(self).bus@
            },
            old(self).bus@.cartridge is None ==> {
                &&& (r is Ok <==> crate::cartridge::spec_ines_ok(data@))
                &&& (r is Err ==> r->Err_0 == crate::cartridge::spec_ines_error(data@)
                    && final(self).bus@ == old(self).bus@)
                &&& (r is Ok ==> final(self).bus@ == (BusView {
                    cartridge: Some(final(self).bus@.cartridge->0),
                    ..old(self).bus@
                }) && {
                    let c = final(self).bus@.cartridge->0;
                    &&& c.mapper.prg_rom == crate::cartridge::spec_ines_prg(data@)
                    &&& c.mapper.chr == crate::cartridge::spec_ines_chr(data@)
                    &&& c.mirroring == crate::cartridge::spec_ines_mirroring(data@)
                })
            },
    {
        self.bus.load_cartridge(data)
    }

    /// Eject the cartridge.
    pub fn unload_cartridge(&mut self)
        requires
            old(self).wf(),
        ensures
            final(self).wf(),
            final(self).bus@ == (BusView { cartridge: None, ..old(self).bus@ }),
            final(self).cpu == old(self).cpu,
            final(self).run_mode == old(self).run_mode,
            final(self).powered_on == old(self).powered_on,
    {
        self.bus.unload_cartridge();
    }

    /// Load the reset vector and arm the CPU.
    pub fn power_on(&mut self)
        requires
            old(self).wf(),
        ensures
            final(self).wf(),
            ({
                let r = spec_load_vector(old(self).cpu, old(self).bus@, RESET_VECTOR);
                &&& final(self).cpu == (Cpu { cycle_counter: 7, ..r.0 })
                &&& final(self).bus@ == r.1
            }),
            final(self).powered_on,
            final(self).run_mode == old(self).run_mode,
    {
        self.cpu.power_on(&mut self.bus);
        self.powered_on = true;
    }

    /// RESET as the CPU defines it: S loses 3, I set, PC from the RESET
    /// vector; registers otherwise preserved.
    pub fn reset(&mut self)
        requires
            old(self).wf(),
        ensures
            final(self).wf(),
            (final(self).cpu, final(self).bus@) == spec_reset(old(self).cpu, old(self).bus@),
            final(self).powered_on == old(self).powered_on,
            final(self).run_mode == old(self).run_mode,
    {
        self.cpu.reset(&mut self.bus);
    }

    pub fn is_powered_on(&self) -> (r: bool)
        ensures
            r == self.powered_on,
    {
        self.powered_on
    }

    pub fn get_run_mode(&self) -> (r: RunMode)
        ensures
            r == self.run_mode,
    {
        self.run_mode
    }

    pub fn set_run_mode(&mut self, mode: RunMode)
        ensures
            *final(self) == (Nes { run_mode: mode, ..*old(self) }),
    {
        self.run_mode = mode;
    }

    /// One master-clock tick: the PPU stub steps every tick, the CPU every
    /// third.
    pub fn tick(&mut self)
        requires
            old(self).wf(),
        ensures
            final(self).wf(),
            final(self).ppu_tick_counter == 0,
            final(self).run_mode == old(self).run_mode,
            final(self).powered_on == old(self).powered_on,
            old(self).cpu_tick_counter + 1 >= TICKS_PER_CPU_TICK ==> {
                &&& final(self).cpu_tick_counter == 0
                &&& (final(self).cpu, final(self).bus@) == spec_tick(
                    old(self).cpu,
                    old(self).bus@,
                )
            },
            old(self).cpu_tick_counter + 1 < TICKS_PER_CPU_TICK ==> {
                &&& final(self).cpu_tick_counter == old(self).cpu_tick_counter + 1
                &&& final(self).cpu == old(self).cpu
                &&& final(self).bus@ == old(self).bus@
            },
    {
        self.ppu_tick_counter = self.ppu_tick_counter + 1;
        if self.ppu_tick_counter >= TICKS_PER_PPU_TICK {
            self.ppu_tick_counter = 0;
            self.bus.ppu_stub_tick();
        }
        self.cpu_tick_counter = self.cpu_tick_counter + 1;
        if self.cpu_tick_counter >= TICKS_PER_CPU_TICK {
            self.cpu_tick_counter = 0;
            self.cpu.tick(&mut self.bus);
        }
    }

    /// Advance the master clock once. Stepping a whole PPU frame's worth
    /// of ticks belongs to the shell, which calls this in a loop.
    pub fn run_frame(&mut self)
        requires
            old(self).wf(),
        ensures
            final(self).wf(),
            final(self).ppu_tick_counter == 0,
            final(self).run_mode == old(self).run_mode,
            final(self).powered_on == old(self).powered_on,
            old(self).cpu_tick_counter + 1 >= TICKS_PER_CPU_TICK ==> {
                &&& final(self).cpu_tick_counter == 0
                &&& (final(self).cpu, final(self).bus@) == spec_tick(
                    old(self).cpu,
                    old(self).bus@,
                )
            },
            old(self).cpu_tick_counter + 1 < TICKS_PER_CPU_TICK ==> {
                &&& final(self).cpu_tick_counter == old(self).cpu_tick_counter + 1
                &&& final(self).cpu == old(self).cpu
                &&& final(self).bus@ == old(self).bus@
            },
    {
        self.tick();
    }
}

} // verus!
