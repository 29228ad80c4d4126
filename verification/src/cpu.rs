//! The CPU: programmer-visible registers plus the per-cycle sequencing
//! state, and the primitive bus steps (reads, writes with the OAM DMA
//! intercept, instruction fetches, stack pushes and pops, vector loads) that
//! the instruction handlers and the tick driver are built from.
//!
//! Every step has a spec-level counterpart that maps the CPU state and the
//! bus model to their successors, so the whole per-cycle algorithm can be
//! stated as a function.

use vstd::prelude::*;
use crate::registers::{CpuRegisters, spec_status_byte, STACK_PAGE};
use crate::bus::{Bus, BusView, spec_bus_read_value, spec_bus_after_cpu_read,
    spec_bus_after_cpu_write, spec_bus_after_oam_load};
use crate::opcodes::OpcodeRecord;

verus! {

/// NMI vector address ($FFFA/$FFFB).
pub const NMI_VECTOR: u16 = 0xFFFA;

/// RESET vector address ($FFFC/$FFFD).
pub const RESET_VECTOR: u16 = 0xFFFC;

/// IRQ/BRK vector address ($FFFE/$FFFF).
pub const IRQ_VECTOR: u16 = 0xFFFE;

/// The CPU state: registers plus the internal sequencing state of the
/// per-cycle driver. All fields are plain values, so the struct serves as
/// its own mathematical model.
pub struct Cpu {
    pub registers: CpuRegisters,
    /// Cycles still owed for the current instruction or DMA suspension.
    pub cycle_counter: u16,
    /// Wall-clock CPU cycle count; its parity steers the DMA stall length.
    pub total_cycles: u64,
    /// The decoded instruction scheduled to execute when the counter runs
    /// out; present only between fetch and execution.
    pub pending: Option<OpcodeRecord>,
    /// Latched by any KIL/JAM opcode; only RESET clears it.
    pub halted: bool,
    /// One-instruction lag latch for CLI/PLP clearing I.
    pub interrupt_disable_clear_delay: bool,
    /// One-instruction lag latch for SEI setting I.
    pub interrupt_disable_set_delay: bool,
    /// A BRK/IRQ sequence is mid-flight and its vector load may still be
    /// hijacked by an NMI.
    pub irq_vector_pending: bool,
}

/// A 16-bit word assembled from its little-endian bytes.
pub open spec fn spec_word(low: u8, high: u8) -> u16 {
    (low as u16) | ((high as u16) << 8)
}

/// The stack effective address: always inside page $01.
pub open spec fn spec_stack_addr(sp: u8) -> u16 {
    STACK_PAGE | (sp as u16)
}

/// The stack effective address is always in [$0100, $01FF] — in particular
/// it is RAM and never the DMA trigger.
pub proof fn lemma_stack_addr_range(sp: u8)
    by (bit_vector)
    ensures
        0x0100 <= (0x0100u16 | (sp as u16)) <= 0x01FF,
{
}

/// A CPU read step: the value returned and the bus afterwards.
pub open spec fn spec_read_step(b: BusView, address: u16) -> (BusView, u8) {
    (spec_bus_after_cpu_read(b, address), spec_bus_read_value(b, address))
}

/// The 256 DMA source reads, in ascending address order from `base`:
/// the bus after the first `n` reads and the bytes they returned.
pub open spec fn spec_dma_reads(b: BusView, base: u16, n: nat) -> (BusView, Seq<u8>)
    decreases n,
{
    if n == 0 {
        (b, Seq::empty())
    } else {
        let (b1, s) = spec_dma_reads(b, base, (n - 1) as nat);
        let address = (base + (n - 1)) as u16;
        let (b2, v) = spec_read_step(b1, address);
        (b2, s.push(v))
    }
}

/// The OAM DMA engine: 256 reads from the selected page, one OAM load, and
/// a stall of 513 cycles plus one more when entered on an odd cycle.
pub open spec fn spec_oamdma(c: Cpu, b: BusView, page: u8) -> (Cpu, BusView) {
    let odd = (c.total_cycles & 1) as u16;
    let base = (page as u16) << 8;
    let r = spec_dma_reads(b, base, 256);
    let b2 = spec_bus_after_oam_load(r.0, r.1);
    (Cpu { cycle_counter: (513 + odd) as u16, ..c }, b2)
}

/// A CPU write step: writes to $4014 never reach the bus — they trigger the
/// OAM DMA engine instead.
pub open spec fn spec_write_step(c: Cpu, b: BusView, address: u16, value: u8) -> (Cpu, BusView) {
    if address == 0x4014 {
        spec_oamdma(c, b, value)
    } else {
        (c, spec_bus_after_cpu_write(b, address, value))
    }
}

/// An opcode/operand fetch: a read at PC, which then advances (wrapping).
pub open spec fn spec_fetch_byte(c: Cpu, b: BusView) -> (Cpu, BusView, u8) {
    let r = spec_read_step(b, c.registers.program_counter);
    let c1 = Cpu {
        registers: CpuRegisters {
            program_counter: c.registers.program_counter.wrapping_add(1),
            ..c.registers
        },
        ..c
    };
    (c1, r.0, r.1)
}

/// Two fetches assemble a little-endian word.
pub open spec fn spec_fetch_word(c: Cpu, b: BusView) -> (Cpu, BusView, u16) {
    let r1 = spec_fetch_byte(c, b);
    let r2 = spec_fetch_byte(r1.0, r1.1);
    (r2.0, r2.1, spec_word(r1.2, r2.2))
}

/// A stack push: write at $0100 | S, then S decrements (wrapping).
pub open spec fn spec_push_byte(c: Cpu, b: BusView, value: u8) -> (Cpu, BusView) {
    let address = spec_stack_addr(c.registers.stack_pointer);
    let b1 = spec_bus_after_cpu_write(b, address, value);
    let c1 = Cpu {
        registers: CpuRegisters {
            stack_pointer: c.registers.stack_pointer.wrapping_sub(1),
            ..c.registers
        },
        ..c
    };
    (c1, b1)
}

/// A word push: high byte first, so the word reads back little-endian.
pub open spec fn spec_push_word(c: Cpu, b: BusView, value: u16) -> (Cpu, BusView) {
    let r1 = spec_push_byte(c, b, (value >> 8) as u8);
    spec_push_byte(r1.0, r1.1, value as u8)
}

/// A stack pop: S increments (wrapping), then a read at $0100 | S.
pub open spec fn spec_pop_byte(c: Cpu, b: BusView) -> (Cpu, BusView, u8) {
    let sp = c.registers.stack_pointer.wrapping_add(1);
    let c1 = Cpu { registers: CpuRegisters { stack_pointer: sp, ..c.registers }, ..c };
    let r = spec_read_step(b, spec_stack_addr(sp));
    (c1, r.0, r.1)
}

/// A word pop: low byte first.
pub open spec fn spec_pop_word(c: Cpu, b: BusView) -> (Cpu, BusView, u16) {
    let r1 = spec_pop_byte(c, b);
    let r2 = spec_pop_byte(r1.0, r1.1);
    (r2.0, r2.1, spec_word(r1.2, r2.2))
}

/// Loading a two-byte little-endian vector into PC.
pub open spec fn spec_load_vector(c: Cpu, b: BusView, vector: u16) -> (Cpu, BusView) {
    let r1 = spec_read_step(b, vector);
    let r2 = spec_read_step(r1.0, (vector + 1) as u16);
    let c1 = Cpu {
        registers: CpuRegisters { program_counter: spec_word(r1.1, r2.1), ..c.registers },
        ..c
    };
    (c1, r2.0)
}

impl Cpu {
    /// A CPU at the power-on register state, idle and with nothing
    /// scheduled.
    pub fn new() -> (r: Cpu)
        ensures
            r.registers == (CpuRegisters {
                accumulator: 0,
                index_x: 0,
                index_y: 0,
                program_counter: 0,
                stack_pointer: 0xFD,
                carry: false,
                zero: false,
                interrupt_disable: true,
                decimal: false,
                overflow: false,
                negative: false,
            }),
            r.cycle_counter == 0,
            r.total_cycles == 0,
            r.pending is None,
            !r.halted,
            !r.interrupt_disable_clear_delay,
            !r.interrupt_disable_set_delay,
            !r.irq_vector_pending,
    {
        Cpu {
            registers: CpuRegisters::new(),
            cycle_counter: 0,
            total_cycles: 0,
            pending: None,
            halted: false,
            interrupt_disable_clear_delay: false,
            interrupt_disable_set_delay: false,
            irq_vector_pending: false,
        }
    }

    /// Write through the CPU: a store to $4014 is intercepted as the OAM
    /// DMA trigger and never reaches the bus.
    pub fn write_bus(&mut self, bus: &mut Bus, address: u16, value: u8)
        requires
            old(bus).wf(),
        ensures
            final(bus).wf(),
            (*final(self), final(bus)@) == spec_write_step(
                *old(self),
                old(bus)@,
                address,
                value,
            ),
    {
        if address == 0x4014 {
            self.perform_oamdma_write(bus, value);
            return ;
        }
        bus.cpu_write(address, value);
    }

    /// The OAM DMA engine: copy 256 bytes from the selected page through
    /// normal reads, hand them to the bus in one OAM load, and charge the
    /// stall (513 cycles, plus one when entered on an odd cycle).
    fn perform_oamdma_write(&mut self, bus: &mut Bus, page: u8)
        requires
            old(bus).wf(),
        ensures
            final(bus).wf(),
            (*final(self), final(bus)@) == spec_oamdma(*old(self), old(bus)@, page),
    {
        let t = self.total_cycles;
        proof {
            assert((t & 1) < 2) by (bit_vector);
        }
        let odd_cycle: u16 = (t & 1) as u16;

        // Read 256 bytes from CPU memory.
        let page_start = (page as u16) << 8;
        let mut buffer: Vec<u8> = Vec::new();
        let mut i: usize = 0;
        while i < 256
            invariant
                i <= 256,
                bus.wf(),
                buffer@.len() == i,
                page_start == (page as u16) << 8,
                (bus@, buffer@) == spec_dma_reads(old(bus)@, page_start, i as nat),
                *self == *old(self),
            decreases 256 - i,
        {
            assert(page_start + 255 <= 0xFFFF) by (bit_vector)
                requires
                    page_start == (page as u16) << 8,
            ;
            let value = bus.cpu_read(page_start + (i as u16));
            buffer.push(value);
            i = i + 1;
        }

        // Hand the page to OAM in one load.
        bus.load_oam_data(&buffer);

        // Suspend: 513 transfer cycles, plus one for odd-cycle entry.
        self.cycle_counter = 513 + odd_cycle;
    }

    /// Fetch the byte at PC and advance PC.
    pub fn fetch_byte(&mut self, bus: &mut Bus) -> (r: u8)
        requires
            old(bus).wf(),
        ensures
            final(bus).wf(),
            (*final(self), final(bus)@, r) == spec_fetch_byte(*old(self), old(bus)@),
    {
        let byte = bus.cpu_read(self.registers.program_counter);
        self.registers.increment_pc();
        byte
    }

    /// Fetch a little-endian word at PC.
    pub fn fetch_word(&mut self, bus: &mut Bus) -> (r: u16)
        requires
            old(bus).wf(),
        ensures
            final(bus).wf(),
            (*final(self), final(bus)@, r) == spec_fetch_word(*old(self), old(bus)@),
    {
        let low = self.fetch_byte(bus);
        let high = self.fetch_byte(bus);
        (low as u16) | ((high as u16) << 8)
    }

    /// Push a byte at the stack effective address $0100 | S, then move S
    /// down with 8-bit wrap-around.
    pub fn push_byte(&mut self, bus: &mut Bus, value: u8)
        requires
            old(bus).wf(),
        ensures
            final(bus).wf(),
            (*final(self), final(bus)@) == spec_push_byte(*old(self), old(bus)@, value),
    {
        proof {
            lemma_stack_addr_range(self.registers.stack_pointer);
        }
        let stack_address = STACK_PAGE | (self.registers.stack_pointer as u16);
        self.write_bus(bus, stack_address, value);
        self.registers.decrement_sp();
    }

    pub fn push_word(&mut self, bus: &mut Bus, value: u16)
        requires
            old(bus).wf(),
        ensures
            final(bus).wf(),
            (*final(self), final(bus)@) == spec_push_word(*old(self), old(bus)@, value),
    {
        let high = (value >> 8) as u8;
        let low = value as u8;
        self.push_byte(bus, high);
        self.push_byte(bus, low);
    }

    /// Move S up with 8-bit wrap-around, then read the byte at $0100 | S.
    pub fn pop_byte(&mut self, bus: &mut Bus) -> (r: u8)
        requires
            old(bus).wf(),
        ensures
            final(bus).wf(),
            (*final(self), final(bus)@, r) == spec_pop_byte(*old(self), old(bus)@),
    {
        self.registers.increment_sp();
        let stack_address = STACK_PAGE | (self.registers.stack_pointer as u16);
        bus.cpu_read(stack_address)
    }

    pub fn pop_word(&mut self, bus: &mut Bus) -> (r: u16)
        requires
            old(bus).wf(),
        ensures
            final(bus).wf(),
            (*final(self), final(bus)@, r) == spec_pop_word(*old(self), old(bus)@),
    {
        let low = self.pop_byte(bus);
        let high = self.pop_byte(bus);
        (low as u16) | ((high as u16) << 8)
    }

    /// Load PC from the RESET vector and charge the 7 start-up cycles.
    pub fn load_reset_vector(&mut self, bus: &mut Bus)
        requires
            old(bus).wf(),
        ensures
            final(bus).wf(),
            ({
                let r = spec_load_vector(*old(self), old(bus)@, RESET_VECTOR);
                (*final(self), final(bus)@) == (Cpu { cycle_counter: 7, ..r.0 }, r.1)
            }),
    {
        let low = bus.cpu_read(RESET_VECTOR);
        let high = bus.cpu_read(RESET_VECTOR + 1);
        self.registers.program_counter = (low as u16) | ((high as u16) << 8);
        self.cycle_counter = 7;
    }

    /// Load PC from the IRQ/BRK vector.
    pub fn load_irq_vector(&mut self, bus: &mut Bus)
        requires
            old(bus).wf(),
        ensures
            final(bus).wf(),
            (*final(self), final(bus)@) == spec_load_vector(*old(self), old(bus)@, IRQ_VECTOR),
    {
        let low = bus.cpu_read(IRQ_VECTOR);
        let high = bus.cpu_read(IRQ_VECTOR + 1);
        self.registers.program_counter = (low as u16) | ((high as u16) << 8);
    }

    /// Load PC from the NMI vector.
    pub fn load_nmi_vector(&mut self, bus: &mut Bus)
        requires
            old(bus).wf(),
        ensures
            final(bus).wf(),
            (*final(self), final(bus)@) == spec_load_vector(*old(self), old(bus)@, NMI_VECTOR),
    {
        let low = bus.cpu_read(NMI_VECTOR);
        let high = bus.cpu_read(NMI_VECTOR + 1);
        self.registers.program_counter = (low as u16) | ((high as u16) << 8);
    }

    // Read-only views of the sequencing state, for the debugger shell and
    // for timing tests.

    pub fn registers(&self) -> (r: CpuRegisters)
        ensures
            r == self.registers,
    {
        self.registers
    }

    pub fn cycles_remaining(&self) -> (r: u16)
        ensures
            r == self.cycle_counter,
    {
        self.cycle_counter
    }

    pub fn total_cycles(&self) -> (r: u64)
        ensures
            r == self.total_cycles,
    {
        self.total_cycles
    }

    pub fn is_halted(&self) -> (r: bool)
        ensures
            r == self.halted,
    {
        self.halted
    }
}

/// Whether any of the three IRQ sources is asserted.
pub open spec fn spec_irq_asserted(b: BusView) -> bool {
    b.irq_apu_frame || b.irq_apu_dmc || b.irq_mapper
}

/// The NMI sequence: two dummy reads at PC, push PC (high then low), push
/// status with B = 0, set I, load the NMI vector, charge 7 cycles.
pub open spec fn spec_execute_nmi(c: Cpu, b: BusView) -> (Cpu, BusView) {
    let d1 = spec_read_step(b, c.registers.program_counter);
    let d2 = spec_read_step(d1.0, c.registers.program_counter);
    let w = spec_push_word(c, d2.0, c.registers.program_counter);
    let p = spec_push_byte(w.0, w.1, spec_status_byte(w.0.registers, false));
    let ci = Cpu { registers: CpuRegisters { interrupt_disable: true, ..p.0.registers }, ..p.0 };
    let lv = spec_load_vector(ci, p.1, NMI_VECTOR);
    (Cpu { cycle_counter: 7, ..lv.0 }, lv.1)
}

/// The IRQ sequence: like the NMI sequence, but the vector load is left to
/// the sequencer so a late NMI edge can hijack it.
pub open spec fn spec_execute_irq(c: Cpu, b: BusView) -> (Cpu, BusView) {
    let d1 = spec_read_step(b, c.registers.program_counter);
    let d2 = spec_read_step(d1.0, c.registers.program_counter);
    let w = spec_push_word(c, d2.0, c.registers.program_counter);
    let p = spec_push_byte(w.0, w.1, spec_status_byte(w.0.registers, false));
    (
        Cpu {
            registers: CpuRegisters { interrupt_disable: true, ..p.0.registers },
            irq_vector_pending: true,
            cycle_counter: 7,
            ..p.0
        },
        p.1,
    )
}

/// Fetching and scheduling the next instruction: the opcode byte is
/// fetched (burning one of the instruction's cycles), the record decoded,
/// the remaining cycles charged and the handler scheduled.
pub open spec fn spec_fetch_and_schedule(c: Cpu, b: BusView) -> (Cpu, BusView) {
    let f = spec_fetch_byte(c, b);
    let rec = crate::opcodes::spec_decode(f.2);
    (Cpu { cycle_counter: (rec.cycles - 1) as u16, pending: Some(rec), ..f.0 }, f.1)
}

/// RESET: S loses 3 (with wrap), I set, the halt and all sequencing
/// latches cleared, any scheduled handler dropped, PC loaded from the
/// RESET vector, 7 cycles charged. A, X, Y, the other flags and
/// `total_cycles` are preserved.
pub open spec fn spec_reset(c: Cpu, b: BusView) -> (Cpu, BusView) {
    let c1 = Cpu {
        registers: CpuRegisters {
            stack_pointer: c.registers.stack_pointer.wrapping_sub(3),
            interrupt_disable: true,
            ..c.registers
        },
        halted: false,
        pending: None,
        interrupt_disable_clear_delay: false,
        interrupt_disable_set_delay: false,
        irq_vector_pending: false,
        ..c
    };
    let r = spec_load_vector(c1, b, RESET_VECTOR);
    (Cpu { cycle_counter: 7, ..r.0 }, r.1)
}

/// One CPU cycle. `total_cycles` always advances by exactly 1 (wrapping);
/// a halted CPU does nothing else. While cycles are owed the counter burns
/// down, the mid-flight BRK/IRQ vector load fires (and may be hijacked by
/// a pending NMI edge) when the counter reaches 3, and the scheduled
/// handler executes when it reaches 0. Between instructions, a pending NMI
/// edge starts the NMI sequence; otherwise the one-instruction I-flag
/// delays are honoured and an asserted IRQ starts the IRQ sequence; and
/// otherwise the next instruction is fetched and scheduled.
pub open spec fn spec_tick(c: Cpu, b: BusView) -> (Cpu, BusView) {
    let c0 = Cpu { total_cycles: c.total_cycles.wrapping_add(1), ..c };
    if c0.halted {
        (c0, b)
    } else if c0.cycle_counter > 0 {
        let c1 = Cpu { cycle_counter: (c0.cycle_counter - 1) as u16, ..c0 };
        let mid = if c1.irq_vector_pending && c1.cycle_counter == 3 {
            let c2 = Cpu { irq_vector_pending: false, ..c1 };
            let b2 = BusView { nmi_edge_detected: false, ..b };
            if b.nmi_edge_detected {
                spec_load_vector(c2, b2, NMI_VECTOR)
            } else {
                spec_load_vector(c2, b2, IRQ_VECTOR)
            }
        } else {
            (c1, b)
        };
        if mid.0.cycle_counter == 0 && mid.0.pending is Some {
            let rec = mid.0.pending->0;
            let c3 = Cpu { pending: None, ..mid.0 };
            crate::instructions::spec_execute(c3, mid.1, rec)
        } else {
            mid
        }
    } else {
        if b.nmi_edge_detected {
            let b1 = BusView { nmi_edge_detected: false, ..b };
            spec_execute_nmi(c0, b1)
        } else if c0.interrupt_disable_clear_delay {
            let c1 = Cpu { interrupt_disable_clear_delay: false, ..c0 };
            spec_fetch_and_schedule(c1, b)
        } else if c0.interrupt_disable_set_delay {
            let c1 = Cpu { interrupt_disable_set_delay: false, ..c0 };
            if spec_irq_asserted(b) {
                spec_execute_irq(c1, b)
            } else {
                spec_fetch_and_schedule(c1, b)
            }
        } else if spec_irq_asserted(b) && !c0.registers.interrupt_disable {
            spec_execute_irq(c0, b)
        } else {
            spec_fetch_and_schedule(c0, b)
        }
    }
}

impl Cpu {
    /// The NMI sequence.
    pub fn execute_nmi(&mut self, bus: &mut Bus)
        requires
            old(bus).wf(),
        ensures
            final(bus).wf(),
            (*final(self), final(bus)@) == spec_execute_nmi(*old(self), old(bus)@),
    {
        let pc = self.registers.program_counter;
        let _ = bus.cpu_read(pc);  // Dummy read
        let _ = bus.cpu_read(pc);  // Dummy read
        self.push_word(bus, pc);
        let status = self.registers.status_for_stack_push(false);
        self.push_byte(bus, status);
        self.registers.set_interrupt_disable(true);
        self.load_nmi_vector(bus);
        self.cycle_counter = 7;
    }

    /// The IRQ sequence; the vector load is deferred to the sequencer so a
    /// late NMI edge can hijack it.
    pub fn execute_irq(&mut self, bus: &mut Bus)
        requires
            old(bus).wf(),
        ensures
            final(bus).wf(),
            (*final(self), final(bus)@) == spec_execute_irq(*old(self), old(bus)@),
    {
        let pc = self.registers.program_counter;
        let _ = bus.cpu_read(pc);  // Dummy read
        let _ = bus.cpu_read(pc);  // Dummy read
        self.push_word(bus, pc);
        let status = self.registers.status_for_stack_push(false);
        self.push_byte(bus, status);
        self.registers.set_interrupt_disable(true);
        self.irq_vector_pending = true;
        self.cycle_counter = 7;
    }

    /// Arm the CPU: load the RESET vector and charge the start-up cycles.
    pub fn power_on(&mut self, bus: &mut Bus)
        requires
            old(bus).wf(),
        ensures
            final(bus).wf(),
            ({
                let r = spec_load_vector(*old(self), old(bus)@, RESET_VECTOR);
                (*final(self), final(bus)@) == (Cpu { cycle_counter: 7, ..r.0 }, r.1)
            }),
    {
        self.load_reset_vector(bus);
    }

    /// RESET: cancel any in-flight instruction, subtract 3 from S (with
    /// wrap), set I, clear the halt and the sequencing latches, and load
    /// PC from the RESET vector. A, X, Y, the remaining flags and
    /// `total_cycles` are preserved.
    pub fn reset(&mut self, bus: &mut Bus)
        requires
            old(bus).wf(),
        ensures
            final(bus).wf(),
            (*final(self), final(bus)@) == spec_reset(*old(self), old(bus)@),
            final(self).registers.interrupt_disable,
            final(self).registers.stack_pointer == old(self).registers.stack_pointer.wrapping_sub(
                3,
            ),
            final(self).registers.program_counter == spec_word(
                spec_bus_read_value(old(bus)@, RESET_VECTOR),
                spec_bus_read_value(
                    spec_bus_after_cpu_read(old(bus)@, RESET_VECTOR),
                    (RESET_VECTOR + 1) as u16,
                ),
            ),
            final(self).registers.accumulator == old(self).registers.accumulator,
            final(self).registers.index_x == old(self).registers.index_x,
            final(self).registers.index_y == old(self).registers.index_y,
            final(self).total_cycles == old(self).total_cycles,
            !final(self).halted,
            final(self).cycle_counter == 7,
    {
        self.registers.stack_pointer = self.registers.stack_pointer.wrapping_sub(3);
        self.registers.set_interrupt_disable(true);
        self.halted = false;
        self.pending = None;
        self.interrupt_disable_clear_delay = false;
        self.interrupt_disable_set_delay = false;
        self.irq_vector_pending = false;
        self.load_reset_vector(bus);
    }

    /// One CPU cycle, as `spec_tick` states it. Every invocation advances
    /// `total_cycles` by exactly 1 (wrapping).
    pub fn tick(&mut self, bus: &mut Bus)
        requires
            old(bus).wf(),
        ensures
            final(bus).wf(),
            (*final(self), final(bus)@) == spec_tick(*old(self), old(bus)@),
            final(self).total_cycles == old(self).total_cycles.wrapping_add(1),
    {
        self.total_cycles = self.total_cycles.wrapping_add(1);

        if self.halted {
            proof {
                assert(bus@ =~= old(bus)@);
            }
            return ;
        }
        // Exhaust the owed cycles first, then execute on the last one:
        // mid-instruction quirks and the DMA suspension ride the same
        // counter.
        if self.cycle_counter > 0 {
            self.cycle_counter = self.cycle_counter - 1;
            if self.irq_vector_pending && self.cycle_counter == 3 {
                self.irq_vector_pending = false;
                // The vector commits now; a pending NMI edge hijacks it.
                if bus.take_nmi_edge() {
                    self.load_nmi_vector(bus);
                } else {
                    self.load_irq_vector(bus);
                }
            }
            if self.cycle_counter == 0 {
                // Penalty cycles only stretch the counter; the handler
                // still runs exactly once because the slot empties here.
                match self.pending {
                    Some(record) => {
                        self.pending = None;
                        self.execute(bus, record);
                    },
                    None => {},
                }
            }
            return ;
        }
        // Between instructions: poll the NMI edge first.
        if bus.take_nmi_edge() {
            self.execute_nmi(bus);
            return ;
        }
        proof {
            assert(bus@ =~= old(bus)@);
        }
        // Honour the one-instruction I-flag delays: CLI/PLP that cleared I
        // defer the first IRQ check once, and SEI's new I does not block
        // the instruction that follows it.
        if self.interrupt_disable_clear_delay {
            self.interrupt_disable_clear_delay = false;
        } else if self.interrupt_disable_set_delay {
            self.interrupt_disable_set_delay = false;
            if bus.irq_asserted() {
                self.execute_irq(bus);
                return ;
            }
        } else if bus.irq_asserted() && !self.registers.interrupt_disable() {
            self.execute_irq(bus);
            return ;
        }
        // Fetch, decode, and schedule; the fetch burns one cycle.
        let opcode = self.fetch_byte(bus);
        let record = crate::opcodes::decode(opcode);
        self.cycle_counter = (record.cycles - 1) as u16;
        self.pending = Some(record);
    }
}

} // verus!
