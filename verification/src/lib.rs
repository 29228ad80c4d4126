//! Core of a cycle-accurate emulator for the 8-bit MOS 6502 CPU variant used
//! in the Nintendo Entertainment System (the 2A03, minus its audio unit),
//! together with the system-bus plumbing, iNES cartridge loader, OAM DMA
//! engine and interrupt sequencer needed to run the CPU against real program
//! images.
//!
//! The graphics pipeline, audio synthesis and the desktop shell are out of
//! scope; the pieces of state they share with the CPU (the PPU's object
//! attribute memory, the interrupt lines) are modelled here so that the bus
//! and the DMA engine can be specified exactly.

pub mod registers;

pub mod memory;

pub mod ppu;

pub mod cartridge;

pub mod nrom;

pub mod bus;

pub mod opcodes;

pub mod instructions;

pub mod cpu;

pub mod nes;

pub mod laws;

