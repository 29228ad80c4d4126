//! The instruction handlers: one procedure per mnemonic over the full
//! official + unofficial opcode set, together with the addressing-mode
//! resolver and the flag/branch helpers they share.
//!
//! Each handler performs all the bus activity of its instruction (the
//! sequencer only decides when the handler runs) and is proved equal to a
//! spec-level effect function over the CPU state and the bus model. The
//! effect functions are opaque: each handler reveals its own, and callers
//! of `execute` reason through `spec_execute` without unfolding all of
//! them at once.

use vstd::prelude::*;
use crate::registers::{CpuRegisters, spec_status_byte, spec_regs_after_status_pop, PAGE_MASK,
    OFFSET_MASK};
use crate::bus::{Bus, BusView};
use crate::opcodes::{AddressingMode, Mnemonic, OpcodeRecord};
use crate::cpu::{Cpu, spec_word, spec_read_step, spec_write_step, spec_fetch_byte,
    spec_fetch_word, spec_push_byte, spec_push_word, spec_pop_byte, spec_pop_word,
    spec_load_vector, IRQ_VECTOR};

verus! {

/// Two addresses are on different pages when their high bytes differ.
pub open spec fn spec_page_crossed(a: u16, b: u16) -> bool {
    (a & 0xFF00) != (b & 0xFF00)
}

/// The "wrong page" address of a crossed index: the pre-cross high byte
/// with the post-cross low byte. Read-class indexed modes dummy-read it.
pub open spec fn spec_wrong_addr(base: u16, resolved: u16) -> u16 {
    (base & 0xFF00) | (resolved & 0x00FF)
}

/// Registers after a data transfer: Z mirrors `value == 0`, N mirrors
/// bit 7.
pub open spec fn spec_zn(r: CpuRegisters, value: u8) -> CpuRegisters {
    CpuRegisters { zero: value == 0, negative: value & 0x80 != 0, ..r }
}

/// Registers after an operation that also yields a carry.
pub open spec fn spec_czn(r: CpuRegisters, value: u8, carry: bool) -> CpuRegisters {
    spec_zn(CpuRegisters { carry, ..r }, value)
}

/// ADC: binary add with carry (the 2A03 has no decimal mode). C is the
/// unsigned carry out of bit 7; V is the signed overflow, by the formula
/// `(A ^ result) & (M ^ result) & $80`.
pub open spec fn spec_adc_regs(r: CpuRegisters, value: u8) -> CpuRegisters {
    let carry_in: u16 = if r.carry {
        1
    } else {
        0
    };
    let sum = (r.accumulator as u16) + (value as u16) + carry_in;
    let result = sum as u8;
    let v = (r.accumulator ^ result) & (value ^ result) & 0x80 != 0;
    spec_zn(
        CpuRegisters { accumulator: result, carry: sum > 0xFF, overflow: v, ..r },
        result,
    )
}

/// Compare: C when `reg >= value`, Z and N from the wrapping difference.
pub open spec fn spec_compare_regs(r: CpuRegisters, reg: u8, value: u8) -> CpuRegisters {
    spec_czn(r, reg.wrapping_sub(value), reg >= value)
}

/// One extra cycle charged onto the counter.
pub open spec fn spec_add_cycle(c: Cpu) -> Cpu {
    Cpu { cycle_counter: c.cycle_counter.wrapping_add(1), ..c }
}

/// The addressing-mode resolver: fetches the operand bytes (advancing PC),
/// computes the effective address, and—for the indexed modes AbsoluteX,
/// AbsoluteY and IndirectY—performs the dummy read at the wrong-page
/// address and charges the extra cycle: on a page cross for read-class
/// callers, always for store-class callers.
pub open spec fn spec_resolve(c: Cpu, b: BusView, mode: AddressingMode, is_store: bool) -> (
    Cpu,
    BusView,
    u16,
) {
    match mode {
        AddressingMode::Immediate => {
            let address = c.registers.program_counter;
            let c1 = Cpu {
                registers: CpuRegisters {
                    program_counter: c.registers.program_counter.wrapping_add(1),
                    ..c.registers
                },
                ..c
            };
            (c1, b, address)
        },
        AddressingMode::ZeroPage => {
            let r = spec_fetch_byte(c, b);
            (r.0, r.1, r.2 as u16)
        },
        AddressingMode::ZeroPageX => {
            let r = spec_fetch_byte(c, b);
            (r.0, r.1, r.2.wrapping_add(c.registers.index_x) as u16)
        },
        AddressingMode::ZeroPageY => {
            let r = spec_fetch_byte(c, b);
            (r.0, r.1, r.2.wrapping_add(c.registers.index_y) as u16)
        },
        AddressingMode::Absolute => {
            let r = spec_fetch_word(c, b);
            (r.0, r.1, r.2)
        },
        AddressingMode::AbsoluteX => {
            let r = spec_fetch_word(c, b);
            spec_indexed_tail(r.0, r.1, r.2, c.registers.index_x, is_store)
        },
        AddressingMode::AbsoluteY => {
            let r = spec_fetch_word(c, b);
            spec_indexed_tail(r.0, r.1, r.2, c.registers.index_y, is_store)
        },
        AddressingMode::Indirect => {
            let r = spec_fetch_word(c, b);
            let pointer = r.2;
            let lo = spec_read_step(r.1, pointer);
            // 6502 bug: the high byte is read without carrying into the
            // pointer's high byte.
            let high_address = (pointer & 0xFF00) | (pointer.wrapping_add(1) & 0x00FF);
            let hi = spec_read_step(lo.0, high_address);
            (r.0, hi.0, spec_word(lo.1, hi.1))
        },
        AddressingMode::IndirectX => {
            let r = spec_fetch_byte(c, b);
            let pointer = r.2.wrapping_add(c.registers.index_x);
            let lo = spec_read_step(r.1, pointer as u16);
            let hi = spec_read_step(lo.0, pointer.wrapping_add(1) as u16);
            (r.0, hi.0, spec_word(lo.1, hi.1))
        },
        AddressingMode::IndirectY => {
            let r = spec_fetch_byte(c, b);
            let lo = spec_read_step(r.1, r.2 as u16);
            let hi = spec_read_step(lo.0, r.2.wrapping_add(1) as u16);
            let base = spec_word(lo.1, hi.1);
            spec_indexed_tail(r.0, hi.0, base, c.registers.index_y, is_store)
        },
        AddressingMode::Relative => (c, b, c.registers.program_counter),
        AddressingMode::Accumulator => (c, b, 0),
        AddressingMode::Implicit => (c, b, 0),
    }
}

/// The shared tail of the indexed modes: add the index, then dummy-read
/// the wrong-page address and charge one cycle — on a page cross for
/// read-class callers, always for store-class callers.
pub open spec fn spec_indexed_tail(c: Cpu, b: BusView, base: u16, index: u8, is_store: bool) -> (
    Cpu,
    BusView,
    u16,
) {
    let resolved = base.wrapping_add(index as u16);
    if is_store || spec_page_crossed(base, resolved) {
        let rd = spec_read_step(b, spec_wrong_addr(base, resolved));
        (spec_add_cycle(c), rd.0, resolved)
    } else {
        (c, b, resolved)
    }
}

/// A branch: fetch the signed offset; when the condition holds, PC moves
/// by the offset (two's complement), one cycle is charged for the taken
/// branch and one more when the new PC is on a different page.
#[verifier::opaque]
pub open spec fn spec_branch(c: Cpu, b: BusView, condition: bool) -> (Cpu, BusView) {
    let r = spec_fetch_byte(c, b);
    let c1 = r.0;
    if condition {
        let previous = c1.registers.program_counter;
        let target = previous.wrapping_add(((r.2 as i8) as i16) as u16);
        let c2 = Cpu {
            registers: CpuRegisters { program_counter: target, ..c1.registers },
            ..spec_add_cycle(c1)
        };
        if spec_page_crossed(previous, target) {
            (spec_add_cycle(c2), r.1)
        } else {
            (c2, r.1)
        }
    } else {
        (c1, r.1)
    }
}

/// Resolving a read-class operand and reading it.
pub open spec fn spec_read_operand(c: Cpu, b: BusView, mode: AddressingMode) -> (Cpu, BusView, u8) {
    let r = spec_resolve(c, b, mode, false);
    let rd = spec_read_step(r.1, r.2);
    (r.0, rd.0, rd.1)
}

impl Cpu {
    /// Resolve the effective address for `mode`, performing the operand
    /// fetches and the indexed modes' dummy reads and cycle charges.
    /// Store-class instructions pass `is_store` so the indexed tail always
    /// pays; read-class instructions pay only on a page cross.
    pub fn get_operand_address(&mut self, bus: &mut Bus, mode: AddressingMode, is_store: bool) -> (r:
        u16)
        requires
            old(bus).wf(),
        ensures
            final(bus).wf(),
            (*final(self), final(bus)@, r) == spec_resolve(*old(self), old(bus)@, mode, is_store),
    {
        match mode {
            AddressingMode::Immediate => {
                let address = self.registers.program_counter;
                self.registers.increment_pc();
                address
            },
            AddressingMode::ZeroPage => self.fetch_byte(bus) as u16,
            AddressingMode::ZeroPageX => {
                let base = self.fetch_byte(bus);
                base.wrapping_add(self.registers.index_x) as u16
            },
            AddressingMode::ZeroPageY => {
                let base = self.fetch_byte(bus);
                base.wrapping_add(self.registers.index_y) as u16
            },
            AddressingMode::Absolute => self.fetch_word(bus),
            AddressingMode::AbsoluteX => {
                let base = self.fetch_word(bus);
                let index = self.registers.index_x;
                self.indexed_tail(bus, base, index, is_store)
            },
            AddressingMode::AbsoluteY => {
                let base = self.fetch_word(bus);
                let index = self.registers.index_y;
                self.indexed_tail(bus, base, index, is_store)
            },
            AddressingMode::Indirect => {
                let pointer = self.fetch_word(bus);
                let low = bus.cpu_read(pointer);
                // 6502 bug: the pointer's high byte read wraps within the
                // page instead of carrying.
                let high_address = (pointer & PAGE_MASK) | (pointer.wrapping_add(1) & OFFSET_MASK);
                let high = bus.cpu_read(high_address);
                (low as u16) | ((high as u16) << 8)
            },
            AddressingMode::IndirectX => {
                let base = self.fetch_byte(bus);
                let pointer = base.wrapping_add(self.registers.index_x);
                // Both pointer bytes live in the zero page.
                let low = bus.cpu_read(pointer as u16);
                let high = bus.cpu_read(pointer.wrapping_add(1) as u16);
                (low as u16) | ((high as u16) << 8)
            },
            AddressingMode::IndirectY => {
                let pointer = self.fetch_byte(bus);
                let low = bus.cpu_read(pointer as u16);
                let high = bus.cpu_read(pointer.wrapping_add(1) as u16);
                let base = (low as u16) | ((high as u16) << 8);
                let index = self.registers.index_y;
                self.indexed_tail(bus, base, index, is_store)
            },
            AddressingMode::Relative => {
                // The branch helper fetches the offset itself.
                self.registers.program_counter
            },
            AddressingMode::Accumulator => 0,
            AddressingMode::Implicit => 0,
        }
    }

    /// Add the index to the base; dummy-read the wrong-page address and
    /// charge one cycle on a page cross (always, for store-class callers).
    fn indexed_tail(&mut self, bus: &mut Bus, base: u16, index: u8, is_store: bool) -> (r: u16)
        requires
            old(bus).wf(),
        ensures
            final(bus).wf(),
            (*final(self), final(bus)@, r) == spec_indexed_tail(
                *old(self),
                old(bus)@,
                base,
                index,
                is_store,
            ),
    {
        let resolved = base.wrapping_add(index as u16);
        if is_store || (base & PAGE_MASK) != (resolved & PAGE_MASK) {
            let wrong_address = (base & PAGE_MASK) | (resolved & OFFSET_MASK);
            let _ = bus.cpu_read(wrong_address);
            self.cycle_counter = self.cycle_counter.wrapping_add(1);
        }
        resolved
    }

    /// Resolve a read-class operand and read it.
    fn read_operand(&mut self, bus: &mut Bus, mode: AddressingMode) -> (r: u8)
        requires
            old(bus).wf(),
        ensures
            final(bus).wf(),
            (*final(self), final(bus)@, r) == spec_read_operand(*old(self), old(bus)@, mode),
    {
        let address = self.get_operand_address(bus, mode, false);
        bus.cpu_read(address)
    }

    /// After any data transfer, Z reflects `value == 0` and N reflects
    /// bit 7.
    pub fn update_zero_and_negative(&mut self, value: u8)
        ensures
            *final(self) == (Cpu { registers: spec_zn(old(self).registers, value), ..*old(self) }),
    {
        self.registers.set_zero(value == 0);
        self.registers.set_negative(value & 0x80 != 0);
    }

    pub fn update_carry_zero_negative(&mut self, value: u8, carry: bool)
        ensures
            *final(self) == (Cpu {
                registers: spec_czn(old(self).registers, value, carry),
                ..*old(self)
            }),
    {
        self.registers.set_carry(carry);
        self.update_zero_and_negative(value);
    }

    /// The shared branch helper.
    pub fn branch(&mut self, bus: &mut Bus, condition: bool)
        requires
            old(bus).wf(),
        ensures
            final(bus).wf(),
            (*final(self), final(bus)@) == spec_branch(*old(self), old(bus)@, condition),
            final(self).total_cycles == old(self).total_cycles,
    {
        proof {
            reveal(spec_branch);
        }
        let offset = self.fetch_byte(bus) as i8;
        if condition {
            let previous_program_counter = self.registers.program_counter;
            // Negative offsets wrap around, subtracting in two's
            // complement.
            self.registers.program_counter = previous_program_counter.wrapping_add(
                (offset as i16) as u16,
            );
            self.cycle_counter = self.cycle_counter.wrapping_add(1);
            if (previous_program_counter & PAGE_MASK) != (self.registers.program_counter
                & PAGE_MASK) {
                self.cycle_counter = self.cycle_counter.wrapping_add(1);
            }
        }
    }
}

/// ORA: A |= M.
#[verifier::opaque]
pub open spec fn spec_eff_ora(c: Cpu, b: BusView, mode: AddressingMode) -> (Cpu, BusView) {
    let r = spec_read_operand(c, b, mode);
    let a = r.0.registers.accumulator | r.2;
    (
        Cpu {
            registers: spec_zn(CpuRegisters { accumulator: a, ..r.0.registers }, a),
            ..r.0
        },
        r.1,
    )
}

/// LDA: A = M.
#[verifier::opaque]
pub open spec fn spec_eff_lda(c: Cpu, b: BusView, mode: AddressingMode) -> (Cpu, BusView) {
    let r = spec_read_operand(c, b, mode);
    (
        Cpu {
            registers: spec_zn(CpuRegisters { accumulator: r.2, ..r.0.registers }, r.2),
            ..r.0
        },
        r.1,
    )
}

/// ADC: A += M + C.
#[verifier::opaque]
pub open spec fn spec_eff_adc(c: Cpu, b: BusView, mode: AddressingMode) -> (Cpu, BusView) {
    let r = spec_read_operand(c, b, mode);
    (Cpu { registers: spec_adc_regs(r.0.registers, r.2), ..r.0 }, r.1)
}

/// ASL: shift left; memory forms do the read, dummy write, write triple.
#[verifier::opaque]
pub open spec fn spec_eff_asl(c: Cpu, b: BusView, mode: AddressingMode) -> (Cpu, BusView) {
    if mode is Accumulator {
        let value = c.registers.accumulator;
        let shifted = value << 1;
        (
            Cpu {
                registers: spec_czn(
                    CpuRegisters { accumulator: shifted, ..c.registers },
                    shifted,
                    value & 0x80 != 0,
                ),
                ..c
            },
            b,
        )
    } else {
        let r = spec_resolve(c, b, mode, false);
        let rd = spec_read_step(r.1, r.2);
        let value = rd.1;
        let shifted = value << 1;
        let w1 = spec_write_step(r.0, rd.0, r.2, value);
        let w2 = spec_write_step(w1.0, w1.1, r.2, shifted);
        (
            Cpu { registers: spec_czn(w2.0.registers, shifted, value & 0x80 != 0), ..w2.0 },
            w2.1,
        )
    }
}

impl Cpu {
    pub fn ora(&mut self, bus: &mut Bus, mode: AddressingMode)
        requires
            old(bus).wf(),
        ensures
            final(bus).wf(),
            (*final(self), final(bus)@) == spec_eff_ora(*old(self), old(bus)@, mode),
            final(self).total_cycles == old(self).total_cycles,
    {
        proof {
            reveal(spec_eff_ora);
        }
        let value = self.read_operand(bus, mode);
        self.registers.accumulator = self.registers.accumulator | value;
        let a = self.registers.accumulator;
        self.update_zero_and_negative(a);
    }

    pub fn lda(&mut self, bus: &mut Bus, mode: AddressingMode)
        requires
            old(bus).wf(),
        ensures
            final(bus).wf(),
            (*final(self), final(bus)@) == spec_eff_lda(*old(self), old(bus)@, mode),
            final(self).total_cycles == old(self).total_cycles,
    {
        proof {
            reveal(spec_eff_lda);
        }
        let value = self.read_operand(bus, mode);
        self.registers.accumulator = value;
        self.update_zero_and_negative(value);
    }

    pub fn adc(&mut self, bus: &mut Bus, mode: AddressingMode)
        requires
            old(bus).wf(),
        ensures
            final(bus).wf(),
            (*final(self), final(bus)@) == spec_eff_adc(*old(self), old(bus)@, mode),
            final(self).total_cycles == old(self).total_cycles,
    {
        proof {
            reveal(spec_eff_adc);
        }
        let value = self.read_operand(bus, mode);
        self.adc_with(value);
    }

    /// The shared add-with-carry core, also used by RRA/SBC/ISC.
    fn adc_with(&mut self, value: u8)
        ensures
            *final(self) == (Cpu {
                registers: spec_adc_regs(old(self).registers, value),
                ..*old(self)
            }),
    {
        let carry_in: u16 = if self.registers.carry {
            1
        } else {
            0
        };
        let accumulator = self.registers.accumulator as u16;
        let sum = accumulator + (value as u16) + carry_in;
        let result = (sum & 0xFF) as u8;
        proof {
            assert(sum & 0xFF == sum % 0x100) by (bit_vector);
            assert((sum % 0x100) < 0x100) by (bit_vector);
            assert(result == sum as u8) by (bit_vector)
                requires
                    result == (sum & 0xFF) as u8,
            ;
        }
        let overflow = (self.registers.accumulator ^ result) & (value ^ result) & 0x80 != 0;
        let carry = sum > 0xFF;
        self.registers.accumulator = result;
        self.registers.set_overflow(overflow);
        self.registers.set_carry(carry);
        self.update_zero_and_negative(result);
    }

    pub fn asl(&mut self, bus: &mut Bus, mode: AddressingMode)
        requires
            old(bus).wf(),
        ensures
            final(bus).wf(),
            (*final(self), final(bus)@) == spec_eff_asl(*old(self), old(bus)@, mode),
            final(self).total_cycles == old(self).total_cycles,
    {
        proof {
            reveal(spec_eff_asl);
        }
        if matches!(mode, AddressingMode::Accumulator) {
            let value = self.registers.accumulator;
            let carry = value & 0x80 != 0;
            self.registers.accumulator = value << 1;
            let a = self.registers.accumulator;
            self.update_carry_zero_negative(a, carry);
        } else {
            let address = self.get_operand_address(bus, mode, false);
            let value = bus.cpu_read(address);
            // Dummy write of the unmodified value.
            self.write_bus(bus, address, value);
            let carry = value & 0x80 != 0;
            let shifted = value << 1;
            self.write_bus(bus, address, shifted);
            self.update_carry_zero_negative(shifted, carry);
        }
    }
}

/// AND: A &= M.
#[verifier::opaque]
pub open spec fn spec_eff_and(c: Cpu, b: BusView, mode: AddressingMode) -> (Cpu, BusView) {
    let r = spec_read_operand(c, b, mode);
    let a = r.0.registers.accumulator & r.2;
    (Cpu { registers: spec_zn(CpuRegisters { accumulator: a, ..r.0.registers }, a), ..r.0 }, r.1)
}

/// EOR: A ^= M.
#[verifier::opaque]
pub open spec fn spec_eff_eor(c: Cpu, b: BusView, mode: AddressingMode) -> (Cpu, BusView) {
    let r = spec_read_operand(c, b, mode);
    let a = r.0.registers.accumulator ^ r.2;
    (Cpu { registers: spec_zn(CpuRegisters { accumulator: a, ..r.0.registers }, a), ..r.0 }, r.1)
}

/// LDX: X = M.
#[verifier::opaque]
pub open spec fn spec_eff_ldx(c: Cpu, b: BusView, mode: AddressingMode) -> (Cpu, BusView) {
    let r = spec_read_operand(c, b, mode);
    (Cpu { registers: spec_zn(CpuRegisters { index_x: r.2, ..r.0.registers }, r.2), ..r.0 }, r.1)
}

/// LDY: Y = M.
#[verifier::opaque]
pub open spec fn spec_eff_ldy(c: Cpu, b: BusView, mode: AddressingMode) -> (Cpu, BusView) {
    let r = spec_read_operand(c, b, mode);
    (Cpu { registers: spec_zn(CpuRegisters { index_y: r.2, ..r.0.registers }, r.2), ..r.0 }, r.1)
}

/// LAX: A and X load simultaneously.
#[verifier::opaque]
pub open spec fn spec_eff_lax(c: Cpu, b: BusView, mode: AddressingMode) -> (Cpu, BusView) {
    let r = spec_read_operand(c, b, mode);
    (
        Cpu {
            registers: spec_zn(
                CpuRegisters { accumulator: r.2, index_x: r.2, ..r.0.registers },
                r.2,
            ),
            ..r.0
        },
        r.1,
    )
}

/// BIT: N and V from bits 7 and 6 of M, Z from A & M.
#[verifier::opaque]
pub open spec fn spec_eff_bit(c: Cpu, b: BusView, mode: AddressingMode) -> (Cpu, BusView) {
    let r = spec_read_operand(c, b, mode);
    (
        Cpu {
            registers: CpuRegisters {
                negative: r.2 & 0x80 != 0,
                overflow: r.2 & 0x40 != 0,
                zero: r.0.registers.accumulator & r.2 == 0,
                ..r.0.registers
            },
            ..r.0
        },
        r.1,
    )
}

/// CMP: compare A with M.
#[verifier::opaque]
pub open spec fn spec_eff_cmp(c: Cpu, b: BusView, mode: AddressingMode) -> (Cpu, BusView) {
    let r = spec_read_operand(c, b, mode);
    (
        Cpu { registers: spec_compare_regs(r.0.registers, r.0.registers.accumulator, r.2), ..r.0 },
        r.1,
    )
}

/// CPX: compare X with M.
#[verifier::opaque]
pub open spec fn spec_eff_cpx(c: Cpu, b: BusView, mode: AddressingMode) -> (Cpu, BusView) {
    let r = spec_read_operand(c, b, mode);
    (Cpu { registers: spec_compare_regs(r.0.registers, r.0.registers.index_x, r.2), ..r.0 }, r.1)
}

/// CPY: compare Y with M.
#[verifier::opaque]
pub open spec fn spec_eff_cpy(c: Cpu, b: BusView, mode: AddressingMode) -> (Cpu, BusView) {
    let r = spec_read_operand(c, b, mode);
    (Cpu { registers: spec_compare_regs(r.0.registers, r.0.registers.index_y, r.2), ..r.0 }, r.1)
}

/// SBC: subtract with borrow, as ADC of the one's complement of M.
#[verifier::opaque]
pub open spec fn spec_eff_sbc(c: Cpu, b: BusView, mode: AddressingMode) -> (Cpu, BusView) {
    let r = spec_read_operand(c, b, mode);
    (Cpu { registers: spec_adc_regs(r.0.registers, r.2 ^ 0xFF), ..r.0 }, r.1)
}

/// ANC: AND, then C mirrors N.
#[verifier::opaque]
pub open spec fn spec_eff_anc(c: Cpu, b: BusView, mode: AddressingMode) -> (Cpu, BusView) {
    let r = spec_read_operand(c, b, mode);
    let a = r.0.registers.accumulator & r.2;
    (
        Cpu {
            registers: spec_czn(CpuRegisters { accumulator: a, ..r.0.registers }, a, a & 0x80 != 0),
            ..r.0
        },
        r.1,
    )
}

/// ALR: AND, then LSR of the accumulator.
#[verifier::opaque]
pub open spec fn spec_eff_alr(c: Cpu, b: BusView, mode: AddressingMode) -> (Cpu, BusView) {
    let r = spec_read_operand(c, b, mode);
    let anded = r.0.registers.accumulator & r.2;
    let a = anded >> 1;
    (
        Cpu {
            registers: spec_czn(
                CpuRegisters { accumulator: a, ..r.0.registers },
                a,
                anded & 0x01 != 0,
            ),
            ..r.0
        },
        r.1,
    )
}

/// ARR: AND, then ROR; C = bit 6 of the result, V = bit 6 XOR bit 5.
#[verifier::opaque]
pub open spec fn spec_eff_arr(c: Cpu, b: BusView, mode: AddressingMode) -> (Cpu, BusView) {
    let r = spec_read_operand(c, b, mode);
    let anded = r.0.registers.accumulator & r.2;
    let result = (anded >> 1) | (if r.0.registers.carry {
        0x80u8
    } else {
        0u8
    });
    let bit_6 = result & 0x40 != 0;
    let bit_5 = result & 0x20 != 0;
    (
        Cpu {
            registers: spec_zn(
                CpuRegisters {
                    accumulator: result,
                    carry: bit_6,
                    overflow: bit_6 != bit_5,
                    ..r.0.registers
                },
                result,
            ),
            ..r.0
        },
        r.1,
    )
}

/// XAA: A = (A | $EE) & X & M (the "magic constant" form).
#[verifier::opaque]
pub open spec fn spec_eff_xaa(c: Cpu, b: BusView, mode: AddressingMode) -> (Cpu, BusView) {
    let r = spec_read_operand(c, b, mode);
    let a = (r.0.registers.accumulator | 0xEE) & r.0.registers.index_x & r.2;
    (Cpu { registers: spec_zn(CpuRegisters { accumulator: a, ..r.0.registers }, a), ..r.0 }, r.1)
}

/// AXS (SBX): X = (A & X) - M, with C set as a compare.
#[verifier::opaque]
pub open spec fn spec_eff_axs(c: Cpu, b: BusView, mode: AddressingMode) -> (Cpu, BusView) {
    let r = spec_read_operand(c, b, mode);
    let anded = r.0.registers.accumulator & r.0.registers.index_x;
    let result = anded.wrapping_sub(r.2);
    (
        Cpu {
            registers: spec_czn(
                CpuRegisters { index_x: result, ..r.0.registers },
                result,
                anded >= r.2,
            ),
            ..r.0
        },
        r.1,
    )
}

/// LAS: A, X and S all become M & S.
#[verifier::opaque]
pub open spec fn spec_eff_las(c: Cpu, b: BusView, mode: AddressingMode) -> (Cpu, BusView) {
    let r = spec_read_operand(c, b, mode);
    let result = r.2 & r.0.registers.stack_pointer;
    (
        Cpu {
            registers: spec_zn(
                CpuRegisters {
                    accumulator: result,
                    index_x: result,
                    stack_pointer: result,
                    ..r.0.registers
                },
                result,
            ),
            ..r.0
        },
        r.1,
    )
}

/// NOP: resolves its operand (with the fetches and dummy reads that
/// entails) and discards it.
#[verifier::opaque]
pub open spec fn spec_eff_nop(c: Cpu, b: BusView, mode: AddressingMode) -> (Cpu, BusView) {
    let r = spec_resolve(c, b, mode, false);
    (r.0, r.1)
}

impl Cpu {
    pub fn and(&mut self, bus: &mut Bus, mode: AddressingMode)
        requires
            old(bus).wf(),
        ensures
            final(bus).wf(),
            (*final(self), final(bus)@) == spec_eff_and(*old(self), old(bus)@, mode),
            final(self).total_cycles == old(self).total_cycles,
    {
        proof {
            reveal(spec_eff_and);
        }
        let value = self.read_operand(bus, mode);
        self.registers.accumulator = self.registers.accumulator & value;
        let a = self.registers.accumulator;
        self.update_zero_and_negative(a);
    }

    pub fn eor(&mut self, bus: &mut Bus, mode: AddressingMode)
        requires
            old(bus).wf(),
        ensures
            final(bus).wf(),
            (*final(self), final(bus)@) == spec_eff_eor(*old(self), old(bus)@, mode),
            final(self).total_cycles == old(self).total_cycles,
    {
        proof {
            reveal(spec_eff_eor);
        }
        let value = self.read_operand(bus, mode);
        self.registers.accumulator = self.registers.accumulator ^ value;
        let a = self.registers.accumulator;
        self.update_zero_and_negative(a);
    }

    pub fn ldx(&mut self, bus: &mut Bus, mode: AddressingMode)
        requires
            old(bus).wf(),
        ensures
            final(bus).wf(),
            (*final(self), final(bus)@) == spec_eff_ldx(*old(self), old(bus)@, mode),
            final(self).total_cycles == old(self).total_cycles,
    {
        proof {
            reveal(spec_eff_ldx);
        }
        let value = self.read_operand(bus, mode);
        self.registers.index_x = value;
        self.update_zero_and_negative(value);
    }

    pub fn ldy(&mut self, bus: &mut Bus, mode: AddressingMode)
        requires
            old(bus).wf(),
        ensures
            final(bus).wf(),
            (*final(self), final(bus)@) == spec_eff_ldy(*old(self), old(bus)@, mode),
            final(self).total_cycles == old(self).total_cycles,
    {
        proof {
            reveal(spec_eff_ldy);
        }
        let value = self.read_operand(bus, mode);
        self.registers.index_y = value;
        self.update_zero_and_negative(value);
    }

    pub fn lax(&mut self, bus: &mut Bus, mode: AddressingMode)
        requires
            old(bus).wf(),
        ensures
            final(bus).wf(),
            (*final(self), final(bus)@) == spec_eff_lax(*old(self), old(bus)@, mode),
            final(self).total_cycles == old(self).total_cycles,
    {
        proof {
            reveal(spec_eff_lax);
        }
        let value = self.read_operand(bus, mode);
        self.registers.accumulator = value;
        self.registers.index_x = value;
        self.update_zero_and_negative(value);
    }

    pub fn bit(&mut self, bus: &mut Bus, mode: AddressingMode)
        requires
            old(bus).wf(),
        ensures
            final(bus).wf(),
            (*final(self), final(bus)@) == spec_eff_bit(*old(self), old(bus)@, mode),
            final(self).total_cycles == old(self).total_cycles,
    {
        proof {
            reveal(spec_eff_bit);
        }
        let value = self.read_operand(bus, mode);
        self.registers.set_negative(value & 0x80 != 0);
        self.registers.set_overflow(value & 0x40 != 0);
        let zero = self.registers.accumulator & value == 0;
        self.registers.set_zero(zero);
    }

    pub fn cmp(&mut self, bus: &mut Bus, mode: AddressingMode)
        requires
            old(bus).wf(),
        ensures
            final(bus).wf(),
            (*final(self), final(bus)@) == spec_eff_cmp(*old(self), old(bus)@, mode),
            final(self).total_cycles == old(self).total_cycles,
    {
        proof {
            reveal(spec_eff_cmp);
        }
        let value = self.read_operand(bus, mode);
        let result = self.registers.accumulator.wrapping_sub(value);
        let carry = self.registers.accumulator >= value;
        self.update_carry_zero_negative(result, carry);
    }

    pub fn cpx(&mut self, bus: &mut Bus, mode: AddressingMode)
        requires
            old(bus).wf(),
        ensures
            final(bus).wf(),
            (*final(self), final(bus)@) == spec_eff_cpx(*old(self), old(bus)@, mode),
            final(self).total_cycles == old(self).total_cycles,
    {
        proof {
            reveal(spec_eff_cpx);
        }
        let value = self.read_operand(bus, mode);
        let result = self.registers.index_x.wrapping_sub(value);
        let carry = self.registers.index_x >= value;
        self.update_carry_zero_negative(result, carry);
    }

    pub fn cpy(&mut self, bus: &mut Bus, mode: AddressingMode)
        requires
            old(bus).wf(),
        ensures
            final(bus).wf(),
            (*final(self), final(bus)@) == spec_eff_cpy(*old(self), old(bus)@, mode),
            final(self).total_cycles == old(self).total_cycles,
    {
        proof {
            reveal(spec_eff_cpy);
        }
        let value = self.read_operand(bus, mode);
        let result = self.registers.index_y.wrapping_sub(value);
        let carry = self.registers.index_y >= value;
        self.update_carry_zero_negative(result, carry);
    }

    pub fn sbc(&mut self, bus: &mut Bus, mode: AddressingMode)
        requires
            old(bus).wf(),
        ensures
            final(bus).wf(),
            (*final(self), final(bus)@) == spec_eff_sbc(*old(self), old(bus)@, mode),
            final(self).total_cycles == old(self).total_cycles,
    {
        proof {
            reveal(spec_eff_sbc);
        }
        let value = self.read_operand(bus, mode);
        // One's complement turns the subtraction into ADC.
        let inverted = value ^ 0xFF;
        self.adc_with(inverted);
    }

    pub fn anc(&mut self, bus: &mut Bus, mode: AddressingMode)
        requires
            old(bus).wf(),
        ensures
            final(bus).wf(),
            (*final(self), final(bus)@) == spec_eff_anc(*old(self), old(bus)@, mode),
            final(self).total_cycles == old(self).total_cycles,
    {
        proof {
            reveal(spec_eff_anc);
        }
        let value = self.read_operand(bus, mode);
        self.registers.accumulator = self.registers.accumulator & value;
        let a = self.registers.accumulator;
        let carry = a & 0x80 != 0;
        self.update_carry_zero_negative(a, carry);
    }

    pub fn alr(&mut self, bus: &mut Bus, mode: AddressingMode)
        requires
            old(bus).wf(),
        ensures
            final(bus).wf(),
            (*final(self), final(bus)@) == spec_eff_alr(*old(self), old(bus)@, mode),
            final(self).total_cycles == old(self).total_cycles,
    {
        proof {
            reveal(spec_eff_alr);
        }
        let value = self.read_operand(bus, mode);
        let anded = self.registers.accumulator & value;
        let carry = anded & 0x01 != 0;
        self.registers.accumulator = anded >> 1;
        let a = self.registers.accumulator;
        self.update_carry_zero_negative(a, carry);
    }

    pub fn arr(&mut self, bus: &mut Bus, mode: AddressingMode)
        requires
            old(bus).wf(),
        ensures
            final(bus).wf(),
            (*final(self), final(bus)@) == spec_eff_arr(*old(self), old(bus)@, mode),
            final(self).total_cycles == old(self).total_cycles,
    {
        proof {
            reveal(spec_eff_arr);
        }
        let value = self.read_operand(bus, mode);
        let anded = self.registers.accumulator & value;
        let carry_in: u8 = if self.registers.carry {
            0x80
        } else {
            0
        };
        let result = (anded >> 1) | carry_in;
        self.registers.accumulator = result;
        // The documented flag quirks of ARR.
        let bit_6 = result & 0x40 != 0;
        let bit_5 = result & 0x20 != 0;
        self.registers.set_carry(bit_6);
        self.registers.set_overflow(bit_6 != bit_5);
        self.update_zero_and_negative(result);
    }

    pub fn xaa(&mut self, bus: &mut Bus, mode: AddressingMode)
        requires
            old(bus).wf(),
        ensures
            final(bus).wf(),
            (*final(self), final(bus)@) == spec_eff_xaa(*old(self), old(bus)@, mode),
            final(self).total_cycles == old(self).total_cycles,
    {
        proof {
            reveal(spec_eff_xaa);
        }
        let value = self.read_operand(bus, mode);
        self.registers.accumulator = (self.registers.accumulator | 0xEE) & self.registers.index_x
            & value;
        let a = self.registers.accumulator;
        self.update_zero_and_negative(a);
    }

    pub fn axs(&mut self, bus: &mut Bus, mode: AddressingMode)
        requires
            old(bus).wf(),
        ensures
            final(bus).wf(),
            (*final(self), final(bus)@) == spec_eff_axs(*old(self), old(bus)@, mode),
            final(self).total_cycles == old(self).total_cycles,
    {
        proof {
            reveal(spec_eff_axs);
        }
        let value = self.read_operand(bus, mode);
        let anded = self.registers.accumulator & self.registers.index_x;
        let result = anded.wrapping_sub(value);
        self.registers.index_x = result;
        let carry = anded >= value;
        self.update_carry_zero_negative(result, carry);
    }

    pub fn las(&mut self, bus: &mut Bus, mode: AddressingMode)
        requires
            old(bus).wf(),
        ensures
            final(bus).wf(),
            (*final(self), final(bus)@) == spec_eff_las(*old(self), old(bus)@, mode),
            final(self).total_cycles == old(self).total_cycles,
    {
        proof {
            reveal(spec_eff_las);
        }
        let value = self.read_operand(bus, mode);
        let result = value & self.registers.stack_pointer;
        self.registers.accumulator = result;
        self.registers.index_x = result;
        self.registers.stack_pointer = result;
        self.update_zero_and_negative(result);
    }

    pub fn nop(&mut self, bus: &mut Bus, mode: AddressingMode)
        requires
            old(bus).wf(),
        ensures
            final(bus).wf(),
            (*final(self), final(bus)@) == spec_eff_nop(*old(self), old(bus)@, mode),
            final(self).total_cycles == old(self).total_cycles,
    {
        proof {
            reveal(spec_eff_nop);
        }
        let _ = self.get_operand_address(bus, mode, false);
    }
}

/// LSR: shift right; memory forms do the read, dummy write, write triple.
#[verifier::opaque]
pub open spec fn spec_eff_lsr(c: Cpu, b: BusView, mode: AddressingMode) -> (Cpu, BusView) {
    if mode is Accumulator {
        let value = c.registers.accumulator;
        let shifted = value >> 1;
        (
            Cpu {
                registers: spec_czn(
                    CpuRegisters { accumulator: shifted, ..c.registers },
                    shifted,
                    value & 0x01 != 0,
                ),
                ..c
            },
            b,
        )
    } else {
        let r = spec_resolve(c, b, mode, false);
        let rd = spec_read_step(r.1, r.2);
        let value = rd.1;
        let shifted = value >> 1;
        let w1 = spec_write_step(r.0, rd.0, r.2, value);
        let w2 = spec_write_step(w1.0, w1.1, r.2, shifted);
        (Cpu { registers: spec_czn(w2.0.registers, shifted, value & 0x01 != 0), ..w2.0 }, w2.1)
    }
}

/// ROL: rotate left through carry.
#[verifier::opaque]
pub open spec fn spec_eff_rol(c: Cpu, b: BusView, mode: AddressingMode) -> (Cpu, BusView) {
    if mode is Accumulator {
        let value = c.registers.accumulator;
        let rolled = (value << 1) | (if c.registers.carry {
            1u8
        } else {
            0u8
        });
        (
            Cpu {
                registers: spec_czn(
                    CpuRegisters { accumulator: rolled, ..c.registers },
                    rolled,
                    value & 0x80 != 0,
                ),
                ..c
            },
            b,
        )
    } else {
        let r = spec_resolve(c, b, mode, false);
        let rd = spec_read_step(r.1, r.2);
        let value = rd.1;
        let rolled = (value << 1) | (if r.0.registers.carry {
            1u8
        } else {
            0u8
        });
        let w1 = spec_write_step(r.0, rd.0, r.2, value);
        let w2 = spec_write_step(w1.0, w1.1, r.2, rolled);
        (Cpu { registers: spec_czn(w2.0.registers, rolled, value & 0x80 != 0), ..w2.0 }, w2.1)
    }
}

/// ROR: rotate right through carry.
#[verifier::opaque]
pub open spec fn spec_eff_ror(c: Cpu, b: BusView, mode: AddressingMode) -> (Cpu, BusView) {
    if mode is Accumulator {
        let value = c.registers.accumulator;
        let rotated = (value >> 1) | (if c.registers.carry {
            0x80u8
        } else {
            0u8
        });
        (
            Cpu {
                registers: spec_czn(
                    CpuRegisters { accumulator: rotated, ..c.registers },
                    rotated,
                    value & 0x01 != 0,
                ),
                ..c
            },
            b,
        )
    } else {
        let r = spec_resolve(c, b, mode, false);
        let rd = spec_read_step(r.1, r.2);
        let value = rd.1;
        let rotated = (value >> 1) | (if r.0.registers.carry {
            0x80u8
        } else {
            0u8
        });
        let w1 = spec_write_step(r.0, rd.0, r.2, value);
        let w2 = spec_write_step(w1.0, w1.1, r.2, rotated);
        (Cpu { registers: spec_czn(w2.0.registers, rotated, value & 0x01 != 0), ..w2.0 }, w2.1)
    }
}

/// INC: increment memory (wrapping).
#[verifier::opaque]
pub open spec fn spec_eff_inc(c: Cpu, b: BusView, mode: AddressingMode) -> (Cpu, BusView) {
    let r = spec_resolve(c, b, mode, false);
    let rd = spec_read_step(r.1, r.2);
    let incremented = rd.1.wrapping_add(1);
    let w1 = spec_write_step(r.0, rd.0, r.2, rd.1);
    let w2 = spec_write_step(w1.0, w1.1, r.2, incremented);
    (Cpu { registers: spec_zn(w2.0.registers, incremented), ..w2.0 }, w2.1)
}

/// DEC: decrement memory (wrapping).
#[verifier::opaque]
pub open spec fn spec_eff_dec(c: Cpu, b: BusView, mode: AddressingMode) -> (Cpu, BusView) {
    let r = spec_resolve(c, b, mode, false);
    let rd = spec_read_step(r.1, r.2);
    let decremented = rd.1.wrapping_sub(1);
    let w1 = spec_write_step(r.0, rd.0, r.2, rd.1);
    let w2 = spec_write_step(w1.0, w1.1, r.2, decremented);
    (Cpu { registers: spec_zn(w2.0.registers, decremented), ..w2.0 }, w2.1)
}

/// SLO: ASL on memory, then ORA of the shifted value.
#[verifier::opaque]
pub open spec fn spec_eff_slo(c: Cpu, b: BusView, mode: AddressingMode) -> (Cpu, BusView) {
    let r = spec_resolve(c, b, mode, false);
    let rd = spec_read_step(r.1, r.2);
    let value = rd.1;
    let shifted = value << 1;
    let w1 = spec_write_step(r.0, rd.0, r.2, value);
    let w2 = spec_write_step(w1.0, w1.1, r.2, shifted);
    let a = w2.0.registers.accumulator | shifted;
    (
        Cpu {
            registers: spec_czn(
                CpuRegisters { accumulator: a, ..w2.0.registers },
                a,
                value & 0x80 != 0,
            ),
            ..w2.0
        },
        w2.1,
    )
}

/// SRE: LSR on memory, then EOR of the shifted value.
#[verifier::opaque]
pub open spec fn spec_eff_sre(c: Cpu, b: BusView, mode: AddressingMode) -> (Cpu, BusView) {
    let r = spec_resolve(c, b, mode, false);
    let rd = spec_read_step(r.1, r.2);
    let value = rd.1;
    let shifted = value >> 1;
    let w1 = spec_write_step(r.0, rd.0, r.2, value);
    let w2 = spec_write_step(w1.0, w1.1, r.2, shifted);
    let a = w2.0.registers.accumulator ^ shifted;
    (
        Cpu {
            registers: spec_czn(
                CpuRegisters { accumulator: a, ..w2.0.registers },
                a,
                value & 0x01 != 0,
            ),
            ..w2.0
        },
        w2.1,
    )
}

/// RLA: ROL on memory, then AND of the rotated value.
#[verifier::opaque]
pub open spec fn spec_eff_rla(c: Cpu, b: BusView, mode: AddressingMode) -> (Cpu, BusView) {
    let r = spec_resolve(c, b, mode, false);
    let rd = spec_read_step(r.1, r.2);
    let value = rd.1;
    let rotated = (value << 1) | (if r.0.registers.carry {
        1u8
    } else {
        0u8
    });
    let w1 = spec_write_step(r.0, rd.0, r.2, value);
    let w2 = spec_write_step(w1.0, w1.1, r.2, rotated);
    let a = w2.0.registers.accumulator & rotated;
    (
        Cpu {
            registers: spec_czn(
                CpuRegisters { accumulator: a, ..w2.0.registers },
                a,
                value & 0x80 != 0,
            ),
            ..w2.0
        },
        w2.1,
    )
}

/// RRA: ROR on memory, then ADC of the rotated value (the rotate's carry
/// feeds the add).
#[verifier::opaque]
pub open spec fn spec_eff_rra(c: Cpu, b: BusView, mode: AddressingMode) -> (Cpu, BusView) {
    let r = spec_resolve(c, b, mode, false);
    let rd = spec_read_step(r.1, r.2);
    let value = rd.1;
    let rotated = (value >> 1) | (if r.0.registers.carry {
        0x80u8
    } else {
        0u8
    });
    let w1 = spec_write_step(r.0, rd.0, r.2, value);
    let w2 = spec_write_step(w1.0, w1.1, r.2, rotated);
    let with_carry = CpuRegisters { carry: value & 0x01 != 0, ..w2.0.registers };
    (Cpu { registers: spec_adc_regs(with_carry, rotated), ..w2.0 }, w2.1)
}

/// DCP: DEC on memory, then CMP with the decremented value.
#[verifier::opaque]
pub open spec fn spec_eff_dcp(c: Cpu, b: BusView, mode: AddressingMode) -> (Cpu, BusView) {
    let r = spec_resolve(c, b, mode, false);
    let rd = spec_read_step(r.1, r.2);
    let decremented = rd.1.wrapping_sub(1);
    let w1 = spec_write_step(r.0, rd.0, r.2, rd.1);
    let w2 = spec_write_step(w1.0, w1.1, r.2, decremented);
    (
        Cpu {
            registers: spec_compare_regs(
                w2.0.registers,
                w2.0.registers.accumulator,
                decremented,
            ),
            ..w2.0
        },
        w2.1,
    )
}

/// ISC: INC on memory, then SBC of the incremented value.
#[verifier::opaque]
pub open spec fn spec_eff_isc(c: Cpu, b: BusView, mode: AddressingMode) -> (Cpu, BusView) {
    let r = spec_resolve(c, b, mode, false);
    let rd = spec_read_step(r.1, r.2);
    let incremented = rd.1.wrapping_add(1);
    let w1 = spec_write_step(r.0, rd.0, r.2, rd.1);
    let w2 = spec_write_step(w1.0, w1.1, r.2, incremented);
    (Cpu { registers: spec_adc_regs(w2.0.registers, incremented ^ 0xFF), ..w2.0 }, w2.1)
}

/// STA: store A.
#[verifier::opaque]
pub open spec fn spec_eff_sta(c: Cpu, b: BusView, mode: AddressingMode) -> (Cpu, BusView) {
    let r = spec_resolve(c, b, mode, true);
    spec_write_step(r.0, r.1, r.2, r.0.registers.accumulator)
}

/// STX: store X.
#[verifier::opaque]
pub open spec fn spec_eff_stx(c: Cpu, b: BusView, mode: AddressingMode) -> (Cpu, BusView) {
    let r = spec_resolve(c, b, mode, true);
    spec_write_step(r.0, r.1, r.2, r.0.registers.index_x)
}

/// STY: store Y.
#[verifier::opaque]
pub open spec fn spec_eff_sty(c: Cpu, b: BusView, mode: AddressingMode) -> (Cpu, BusView) {
    let r = spec_resolve(c, b, mode, true);
    spec_write_step(r.0, r.1, r.2, r.0.registers.index_y)
}

/// SAX: store A & X.
#[verifier::opaque]
pub open spec fn spec_eff_sax(c: Cpu, b: BusView, mode: AddressingMode) -> (Cpu, BusView) {
    let r = spec_resolve(c, b, mode, true);
    spec_write_step(r.0, r.1, r.2, r.0.registers.accumulator & r.0.registers.index_x)
}

/// The "high byte plus one" mask shared by AHX/SHX/SHY/TAS.
pub open spec fn spec_high_plus_one(address: u16) -> u8 {
    ((address >> 8) as u8).wrapping_add(1)
}

/// AHX: store A & X & (high byte of the address + 1).
#[verifier::opaque]
pub open spec fn spec_eff_ahx(c: Cpu, b: BusView, mode: AddressingMode) -> (Cpu, BusView) {
    let r = spec_resolve(c, b, mode, true);
    let value = r.0.registers.accumulator & r.0.registers.index_x & spec_high_plus_one(r.2);
    spec_write_step(r.0, r.1, r.2, value)
}

/// SHY: store Y & (high byte of the address + 1).
#[verifier::opaque]
pub open spec fn spec_eff_shy(c: Cpu, b: BusView, mode: AddressingMode) -> (Cpu, BusView) {
    let r = spec_resolve(c, b, mode, true);
    let value = r.0.registers.index_y & spec_high_plus_one(r.2);
    spec_write_step(r.0, r.1, r.2, value)
}

/// SHX: store X & (high byte of the address + 1).
#[verifier::opaque]
pub open spec fn spec_eff_shx(c: Cpu, b: BusView, mode: AddressingMode) -> (Cpu, BusView) {
    let r = spec_resolve(c, b, mode, true);
    let value = r.0.registers.index_x & spec_high_plus_one(r.2);
    spec_write_step(r.0, r.1, r.2, value)
}

/// TAS: S = A & X, then store S & (high byte of the address + 1).
#[verifier::opaque]
pub open spec fn spec_eff_tas(c: Cpu, b: BusView, mode: AddressingMode) -> (Cpu, BusView) {
    let r = spec_resolve(c, b, mode, true);
    let sp = r.0.registers.accumulator & r.0.registers.index_x;
    let c1 = Cpu { registers: CpuRegisters { stack_pointer: sp, ..r.0.registers }, ..r.0 };
    let value = sp & spec_high_plus_one(r.2);
    spec_write_step(c1, r.1, r.2, value)
}

impl Cpu {
    pub fn lsr(&mut self, bus: &mut Bus, mode: AddressingMode)
        requires
            old(bus).wf(),
        ensures
            final(bus).wf(),
            (*final(self), final(bus)@) == spec_eff_lsr(*old(self), old(bus)@, mode),
            final(self).total_cycles == old(self).total_cycles,
    {
        proof {
            reveal(spec_eff_lsr);
        }
        if matches!(mode, AddressingMode::Accumulator) {
            let value = self.registers.accumulator;
            let carry = value & 0x01 != 0;
            self.registers.accumulator = value >> 1;
            let a = self.registers.accumulator;
            self.update_carry_zero_negative(a, carry);
        } else {
            let address = self.get_operand_address(bus, mode, false);
            let value = bus.cpu_read(address);
            // Dummy write of the unmodified value.
            self.write_bus(bus, address, value);
            let carry = value & 0x01 != 0;
            let shifted = value >> 1;
            self.write_bus(bus, address, shifted);
            self.update_carry_zero_negative(shifted, carry);
        }
    }

    pub fn rol(&mut self, bus: &mut Bus, mode: AddressingMode)
        requires
            old(bus).wf(),
        ensures
            final(bus).wf(),
            (*final(self), final(bus)@) == spec_eff_rol(*old(self), old(bus)@, mode),
            final(self).total_cycles == old(self).total_cycles,
    {
        proof {
            reveal(spec_eff_rol);
        }
        if matches!(mode, AddressingMode::Accumulator) {
            let value = self.registers.accumulator;
            let new_carry = value & 0x80 != 0;
            let carry_in: u8 = if self.registers.carry {
                1
            } else {
                0
            };
            self.registers.accumulator = (value << 1) | carry_in;
            let a = self.registers.accumulator;
            self.update_carry_zero_negative(a, new_carry);
        } else {
            let address = self.get_operand_address(bus, mode, false);
            let value = bus.cpu_read(address);
            // Dummy write of the unmodified value.
            self.write_bus(bus, address, value);
            let new_carry = value & 0x80 != 0;
            let carry_in: u8 = if self.registers.carry {
                1
            } else {
                0
            };
            let rolled = (value << 1) | carry_in;
            self.write_bus(bus, address, rolled);
            self.update_carry_zero_negative(rolled, new_carry);
        }
    }

    pub fn ror(&mut self, bus: &mut Bus, mode: AddressingMode)
        requires
            old(bus).wf(),
        ensures
            final(bus).wf(),
            (*final(self), final(bus)@) == spec_eff_ror(*old(self), old(bus)@, mode),
            final(self).total_cycles == old(self).total_cycles,
    {
        proof {
            reveal(spec_eff_ror);
        }
        if matches!(mode, AddressingMode::Accumulator) {
            let value = self.registers.accumulator;
            let new_carry = value & 0x01 != 0;
            let carry_in: u8 = if self.registers.carry {
                0x80
            } else {
                0
            };
            self.registers.accumulator = (value >> 1) | carry_in;
            let a = self.registers.accumulator;
            self.update_carry_zero_negative(a, new_carry);
        } else {
            let address = self.get_operand_address(bus, mode, false);
            let value = bus.cpu_read(address);
            // Dummy write of the unmodified value.
            self.write_bus(bus, address, value);
            let new_carry = value & 0x01 != 0;
            let carry_in: u8 = if self.registers.carry {
                0x80
            } else {
                0
            };
            let rotated = (value >> 1) | carry_in;
            self.write_bus(bus, address, rotated);
            self.update_carry_zero_negative(rotated, new_carry);
        }
    }

    pub fn inc(&mut self, bus: &mut Bus, mode: AddressingMode)
        requires
            old(bus).wf(),
        ensures
            final(bus).wf(),
            (*final(self), final(bus)@) == spec_eff_inc(*old(self), old(bus)@, mode),
            final(self).total_cycles == old(self).total_cycles,
    {
        proof {
            reveal(spec_eff_inc);
        }
        let address = self.get_operand_address(bus, mode, false);
        let value = bus.cpu_read(address);
        // Dummy write of the unmodified value.
        self.write_bus(bus, address, value);
        let incremented = value.wrapping_add(1);
        self.write_bus(bus, address, incremented);
        self.update_zero_and_negative(incremented);
    }

    pub fn dec(&mut self, bus: &mut Bus, mode: AddressingMode)
        requires
            old(bus).wf(),
        ensures
            final(bus).wf(),
            (*final(self), final(bus)@) == spec_eff_dec(*old(self), old(bus)@, mode),
            final(self).total_cycles == old(self).total_cycles,
    {
        proof {
            reveal(spec_eff_dec);
        }
        let address = self.get_operand_address(bus, mode, false);
        let value = bus.cpu_read(address);
        // Dummy write of the unmodified value.
        self.write_bus(bus, address, value);
        let decremented = value.wrapping_sub(1);
        self.write_bus(bus, address, decremented);
        self.update_zero_and_negative(decremented);
    }

    pub fn slo(&mut self, bus: &mut Bus, mode: AddressingMode)
        requires
            old(bus).wf(),
        ensures
            final(bus).wf(),
            (*final(self), final(bus)@) == spec_eff_slo(*old(self), old(bus)@, mode),
            final(self).total_cycles == old(self).total_cycles,
    {
        proof {
            reveal(spec_eff_slo);
        }
        let address = self.get_operand_address(bus, mode, false);
        let value = bus.cpu_read(address);
        // Dummy write of the unmodified value.
        self.write_bus(bus, address, value);
        let carry = value & 0x80 != 0;
        let shifted = value << 1;
        self.write_bus(bus, address, shifted);
        self.registers.accumulator = self.registers.accumulator | shifted;
        let a = self.registers.accumulator;
        self.update_carry_zero_negative(a, carry);
    }

    pub fn sre(&mut self, bus: &mut Bus, mode: AddressingMode)
        requires
            old(bus).wf(),
        ensures
            final(bus).wf(),
            (*final(self), final(bus)@) == spec_eff_sre(*old(self), old(bus)@, mode),
            final(self).total_cycles == old(self).total_cycles,
    {
        proof {
            reveal(spec_eff_sre);
        }
        let address = self.get_operand_address(bus, mode, false);
        let value = bus.cpu_read(address);
        // Dummy write of the unmodified value.
        self.write_bus(bus, address, value);
        let carry = value & 0x01 != 0;
        let shifted = value >> 1;
        self.write_bus(bus, address, shifted);
        self.registers.accumulator = self.registers.accumulator ^ shifted;
        let a = self.registers.accumulator;
        self.update_carry_zero_negative(a, carry);
    }

    pub fn rla(&mut self, bus: &mut Bus, mode: AddressingMode)
        requires
            old(bus).wf(),
        ensures
            final(bus).wf(),
            (*final(self), final(bus)@) == spec_eff_rla(*old(self), old(bus)@, mode),
            final(self).total_cycles == old(self).total_cycles,
    {
        proof {
            reveal(spec_eff_rla);
        }
        let address = self.get_operand_address(bus, mode, false);
        let value = bus.cpu_read(address);
        // Dummy write of the unmodified value.
        self.write_bus(bus, address, value);
        let old_carry: u8 = if self.registers.carry {
            1
        } else {
            0
        };
        let new_carry = value & 0x80 != 0;
        let rotated = (value << 1) | old_carry;
        self.write_bus(bus, address, rotated);
        self.registers.accumulator = self.registers.accumulator & rotated;
        let a = self.registers.accumulator;
        self.update_carry_zero_negative(a, new_carry);
    }

    pub fn rra(&mut self, bus: &mut Bus, mode: AddressingMode)
        requires
            old(bus).wf(),
        ensures
            final(bus).wf(),
            (*final(self), final(bus)@) == spec_eff_rra(*old(self), old(bus)@, mode),
            final(self).total_cycles == old(self).total_cycles,
    {
        proof {
            reveal(spec_eff_rra);
        }
        let address = self.get_operand_address(bus, mode, false);
        let value = bus.cpu_read(address);
        // Dummy write of the unmodified value.
        self.write_bus(bus, address, value);
        // ROR: old carry into bit 7, old bit 0 into carry.
        let old_carry: u8 = if self.registers.carry {
            0x80
        } else {
            0
        };
        let new_carry = value & 0x01 != 0;
        let rotated = (value >> 1) | old_carry;
        self.write_bus(bus, address, rotated);
        // The rotate's carry feeds the add.
        self.registers.set_carry(new_carry);
        self.adc_with(rotated);
    }

    pub fn dcp(&mut self, bus: &mut Bus, mode: AddressingMode)
        requires
            old(bus).wf(),
        ensures
            final(bus).wf(),
            (*final(self), final(bus)@) == spec_eff_dcp(*old(self), old(bus)@, mode),
            final(self).total_cycles == old(self).total_cycles,
    {
        proof {
            reveal(spec_eff_dcp);
        }
        let address = self.get_operand_address(bus, mode, false);
        let value = bus.cpu_read(address);
        // Dummy write of the unmodified value.
        self.write_bus(bus, address, value);
        let decremented = value.wrapping_sub(1);
        self.write_bus(bus, address, decremented);
        let result = self.registers.accumulator.wrapping_sub(decremented);
        let carry = self.registers.accumulator >= decremented;
        self.update_carry_zero_negative(result, carry);
    }

    pub fn isc(&mut self, bus: &mut Bus, mode: AddressingMode)
        requires
            old(bus).wf(),
        ensures
            final(bus).wf(),
            (*final(self), final(bus)@) == spec_eff_isc(*old(self), old(bus)@, mode),
            final(self).total_cycles == old(self).total_cycles,
    {
        proof {
            reveal(spec_eff_isc);
        }
        let address = self.get_operand_address(bus, mode, false);
        let value = bus.cpu_read(address);
        // Dummy write of the unmodified value.
        self.write_bus(bus, address, value);
        let incremented = value.wrapping_add(1);
        self.write_bus(bus, address, incremented);
        // SBC of the incremented value.
        let inverted = incremented ^ 0xFF;
        self.adc_with(inverted);
    }

    pub fn sta(&mut self, bus: &mut Bus, mode: AddressingMode)
        requires
            old(bus).wf(),
        ensures
            final(bus).wf(),
            (*final(self), final(bus)@) == spec_eff_sta(*old(self), old(bus)@, mode),
            final(self).total_cycles == old(self).total_cycles,
    {
        proof {
            reveal(spec_eff_sta);
        }
        let address = self.get_operand_address(bus, mode, true);
        let value = self.registers.accumulator;
        self.write_bus(bus, address, value);
    }

    pub fn stx(&mut self, bus: &mut Bus, mode: AddressingMode)
        requires
            old(bus).wf(),
        ensures
            final(bus).wf(),
            (*final(self), final(bus)@) == spec_eff_stx(*old(self), old(bus)@, mode),
            final(self).total_cycles == old(self).total_cycles,
    {
        proof {
            reveal(spec_eff_stx);
        }
        let address = self.get_operand_address(bus, mode, true);
        let value = self.registers.index_x;
        self.write_bus(bus, address, value);
    }

    pub fn sty(&mut self, bus: &mut Bus, mode: AddressingMode)
        requires
            old(bus).wf(),
        ensures
            final(bus).wf(),
            (*final(self), final(bus)@) == spec_eff_sty(*old(self), old(bus)@, mode),
            final(self).total_cycles == old(self).total_cycles,
    {
        proof {
            reveal(spec_eff_sty);
        }
        let address = self.get_operand_address(bus, mode, true);
        let value = self.registers.index_y;
        self.write_bus(bus, address, value);
    }

    pub fn sax(&mut self, bus: &mut Bus, mode: AddressingMode)
        requires
            old(bus).wf(),
        ensures
            final(bus).wf(),
            (*final(self), final(bus)@) == spec_eff_sax(*old(self), old(bus)@, mode),
            final(self).total_cycles == old(self).total_cycles,
    {
        proof {
            reveal(spec_eff_sax);
        }
        let address = self.get_operand_address(bus, mode, true);
        let value = self.registers.accumulator & self.registers.index_x;
        self.write_bus(bus, address, value);
    }

    pub fn ahx(&mut self, bus: &mut Bus, mode: AddressingMode)
        requires
            old(bus).wf(),
        ensures
            final(bus).wf(),
            (*final(self), final(bus)@) == spec_eff_ahx(*old(self), old(bus)@, mode),
            final(self).total_cycles == old(self).total_cycles,
    {
        proof {
            reveal(spec_eff_ahx);
        }
        let address = self.get_operand_address(bus, mode, true);
        let high_byte = ((address >> 8) as u8).wrapping_add(1);
        let value = self.registers.accumulator & self.registers.index_x & high_byte;
        self.write_bus(bus, address, value);
    }

    pub fn shy(&mut self, bus: &mut Bus, mode: AddressingMode)
        requires
            old(bus).wf(),
        ensures
            final(bus).wf(),
            (*final(self), final(bus)@) == spec_eff_shy(*old(self), old(bus)@, mode),
            final(self).total_cycles == old(self).total_cycles,
    {
        proof {
            reveal(spec_eff_shy);
        }
        let address = self.get_operand_address(bus, mode, true);
        let high_byte = ((address >> 8) as u8).wrapping_add(1);
        let value = self.registers.index_y & high_byte;
        self.write_bus(bus, address, value);
    }

    pub fn shx(&mut self, bus: &mut Bus, mode: AddressingMode)
        requires
            old(bus).wf(),
        ensures
            final(bus).wf(),
            (*final(self), final(bus)@) == spec_eff_shx(*old(self), old(bus)@, mode),
            final(self).total_cycles == old(self).total_cycles,
    {
        proof {
            reveal(spec_eff_shx);
        }
        let address = self.get_operand_address(bus, mode, true);
        let high_byte = ((address >> 8) as u8).wrapping_add(1);
        let value = self.registers.index_x & high_byte;
        self.write_bus(bus, address, value);
    }

    pub fn tas(&mut self, bus: &mut Bus, mode: AddressingMode)
        requires
            old(bus).wf(),
        ensures
            final(bus).wf(),
            (*final(self), final(bus)@) == spec_eff_tas(*old(self), old(bus)@, mode),
            final(self).total_cycles == old(self).total_cycles,
    {
        proof {
            reveal(spec_eff_tas);
        }
        let address = self.get_operand_address(bus, mode, true);
        self.registers.stack_pointer = self.registers.accumulator & self.registers.index_x;
        let high_byte = ((address >> 8) as u8).wrapping_add(1);
        let value = self.registers.stack_pointer & high_byte;
        self.write_bus(bus, address, value);
    }
}

/// PHP: push the status byte with the B convention (bit 4 set).
#[verifier::opaque]
pub open spec fn spec_eff_php(c: Cpu, b: BusView) -> (Cpu, BusView) {
    spec_push_byte(c, b, spec_status_byte(c.registers, true))
}

/// PHA: push A.
#[verifier::opaque]
pub open spec fn spec_eff_pha(c: Cpu, b: BusView) -> (Cpu, BusView) {
    spec_push_byte(c, b, c.registers.accumulator)
}

/// PLP: pop the status byte; B is discarded and bit 5 forced. A pop that
/// clears I arms the one-instruction delay, like CLI.
#[verifier::opaque]
pub open spec fn spec_eff_plp(c: Cpu, b: BusView) -> (Cpu, BusView) {
    let r = spec_pop_byte(c, b);
    let popped = spec_regs_after_status_pop(r.0.registers, r.2);
    (
        Cpu {
            registers: popped,
            interrupt_disable_clear_delay: (c.registers.interrupt_disable
                && !popped.interrupt_disable) || c.interrupt_disable_clear_delay,
            ..r.0
        },
        r.1,
    )
}

/// PLA: pop into A.
#[verifier::opaque]
pub open spec fn spec_eff_pla(c: Cpu, b: BusView) -> (Cpu, BusView) {
    let r = spec_pop_byte(c, b);
    (
        Cpu {
            registers: spec_zn(CpuRegisters { accumulator: r.2, ..r.0.registers }, r.2),
            ..r.0
        },
        r.1,
    )
}

/// BRK: PC is pre-incremented once (the pushed PC is opcode + 2), status
/// pushed with B = 1 (the sequence began as BRK), I set. The vector load
/// commits last: an NMI edge that arrived before it hijacks the load, so
/// PC comes from the NMI vector while the pushed status keeps B = 1.
#[verifier::opaque]
pub open spec fn spec_eff_brk(c: Cpu, b: BusView) -> (Cpu, BusView) {
    let c1 = Cpu {
        registers: CpuRegisters {
            program_counter: c.registers.program_counter.wrapping_add(1),
            ..c.registers
        },
        ..c
    };
    let w = spec_push_word(c1, b, c1.registers.program_counter);
    let p = spec_push_byte(w.0, w.1, spec_status_byte(w.0.registers, true));
    let ci = Cpu { registers: CpuRegisters { interrupt_disable: true, ..p.0.registers }, ..p.0 };
    let b2 = BusView { nmi_edge_detected: false, ..p.1 };
    if p.1.nmi_edge_detected {
        spec_load_vector(ci, b2, crate::cpu::NMI_VECTOR)
    } else {
        spec_load_vector(ci, b2, IRQ_VECTOR)
    }
}

/// RTI: pop status (B discarded, bit 5 forced), then pop PC directly.
#[verifier::opaque]
pub open spec fn spec_eff_rti(c: Cpu, b: BusView) -> (Cpu, BusView) {
    let r1 = spec_pop_byte(c, b);
    let c1 = Cpu { registers: spec_regs_after_status_pop(r1.0.registers, r1.2), ..r1.0 };
    let r2 = spec_pop_word(c1, r1.1);
    (
        Cpu { registers: CpuRegisters { program_counter: r2.2, ..r2.0.registers }, ..r2.0 },
        r2.1,
    )
}

/// RTS: pop PC, then increment it by 1.
#[verifier::opaque]
pub open spec fn spec_eff_rts(c: Cpu, b: BusView) -> (Cpu, BusView) {
    let r = spec_pop_word(c, b);
    (
        Cpu {
            registers: CpuRegisters {
                program_counter: r.2.wrapping_add(1),
                ..r.0.registers
            },
            ..r.0
        },
        r.1,
    )
}

/// JSR: push the address of the last byte of the instruction (PC after the
/// first operand byte, before the second), then jump.
#[verifier::opaque]
pub open spec fn spec_eff_jsr(c: Cpu, b: BusView) -> (Cpu, BusView) {
    let f1 = spec_fetch_byte(c, b);
    let w = spec_push_word(f1.0, f1.1, f1.0.registers.program_counter);
    let f2 = spec_fetch_byte(w.0, w.1);
    (
        Cpu {
            registers: CpuRegisters {
                program_counter: spec_word(f1.2, f2.2),
                ..f2.0.registers
            },
            ..f2.0
        },
        f2.1,
    )
}

/// JMP: PC = the resolved address (Absolute, or Indirect with the 6502
/// page-wrap bug).
#[verifier::opaque]
pub open spec fn spec_eff_jmp(c: Cpu, b: BusView, mode: AddressingMode) -> (Cpu, BusView) {
    let r = spec_resolve(c, b, mode, false);
    (Cpu { registers: CpuRegisters { program_counter: r.2, ..r.0.registers }, ..r.0 }, r.1)
}

/// KIL/JAM: latch the halt; only RESET recovers.
pub open spec fn spec_eff_kil(c: Cpu) -> Cpu {
    Cpu { halted: true, ..c }
}

pub open spec fn spec_eff_clc(c: Cpu) -> Cpu {
    Cpu { registers: CpuRegisters { carry: false, ..c.registers }, ..c }
}

pub open spec fn spec_eff_sec(c: Cpu) -> Cpu {
    Cpu { registers: CpuRegisters { carry: true, ..c.registers }, ..c }
}

/// CLI that actually clears I arms the one-instruction delay before the
/// cleared flag is exposed to the IRQ check.
pub open spec fn spec_eff_cli(c: Cpu) -> Cpu {
    Cpu {
        registers: CpuRegisters { interrupt_disable: false, ..c.registers },
        interrupt_disable_clear_delay: c.registers.interrupt_disable
            || c.interrupt_disable_clear_delay,
        ..c
    }
}

/// SEI that actually sets I arms the one-instruction delay: the IRQ check
/// of the following instruction still sees the pre-SEI sense.
pub open spec fn spec_eff_sei(c: Cpu) -> Cpu {
    Cpu {
        registers: CpuRegisters { interrupt_disable: true, ..c.registers },
        interrupt_disable_set_delay: !c.registers.interrupt_disable
            || c.interrupt_disable_set_delay,
        ..c
    }
}

pub open spec fn spec_eff_cld(c: Cpu) -> Cpu {
    Cpu { registers: CpuRegisters { decimal: false, ..c.registers }, ..c }
}

pub open spec fn spec_eff_sed(c: Cpu) -> Cpu {
    Cpu { registers: CpuRegisters { decimal: true, ..c.registers }, ..c }
}

pub open spec fn spec_eff_clv(c: Cpu) -> Cpu {
    Cpu { registers: CpuRegisters { overflow: false, ..c.registers }, ..c }
}

pub open spec fn spec_eff_tax(c: Cpu) -> Cpu {
    let v = c.registers.accumulator;
    Cpu { registers: spec_zn(CpuRegisters { index_x: v, ..c.registers }, v), ..c }
}

pub open spec fn spec_eff_tay(c: Cpu) -> Cpu {
    let v = c.registers.accumulator;
    Cpu { registers: spec_zn(CpuRegisters { index_y: v, ..c.registers }, v), ..c }
}

pub open spec fn spec_eff_txa(c: Cpu) -> Cpu {
    let v = c.registers.index_x;
    Cpu { registers: spec_zn(CpuRegisters { accumulator: v, ..c.registers }, v), ..c }
}

pub open spec fn spec_eff_tya(c: Cpu) -> Cpu {
    let v = c.registers.index_y;
    Cpu { registers: spec_zn(CpuRegisters { accumulator: v, ..c.registers }, v), ..c }
}

pub open spec fn spec_eff_tsx(c: Cpu) -> Cpu {
    let v = c.registers.stack_pointer;
    Cpu { registers: spec_zn(CpuRegisters { index_x: v, ..c.registers }, v), ..c }
}

/// TXS sets no flags.
pub open spec fn spec_eff_txs(c: Cpu) -> Cpu {
    Cpu { registers: CpuRegisters { stack_pointer: c.registers.index_x, ..c.registers }, ..c }
}

pub open spec fn spec_eff_dex(c: Cpu) -> Cpu {
    let v = c.registers.index_x.wrapping_sub(1);
    Cpu { registers: spec_zn(CpuRegisters { index_x: v, ..c.registers }, v), ..c }
}

pub open spec fn spec_eff_dey(c: Cpu) -> Cpu {
    let v = c.registers.index_y.wrapping_sub(1);
    Cpu { registers: spec_zn(CpuRegisters { index_y: v, ..c.registers }, v), ..c }
}

pub open spec fn spec_eff_inx(c: Cpu) -> Cpu {
    let v = c.registers.index_x.wrapping_add(1);
    Cpu { registers: spec_zn(CpuRegisters { index_x: v, ..c.registers }, v), ..c }
}

pub open spec fn spec_eff_iny(c: Cpu) -> Cpu {
    let v = c.registers.index_y.wrapping_add(1);
    Cpu { registers: spec_zn(CpuRegisters { index_y: v, ..c.registers }, v), ..c }
}

/// The effect of one decoded instruction: dispatch on the mnemonic, with
/// the addressing mode taken from the record.
pub open spec fn spec_execute(c: Cpu, b: BusView, rec: OpcodeRecord) -> (Cpu, BusView) {
    match rec.mnemonic {
        Mnemonic::Adc => spec_eff_adc(c, b, rec.mode),
        Mnemonic::Ahx => spec_eff_ahx(c, b, rec.mode),
        Mnemonic::Alr => spec_eff_alr(c, b, rec.mode),
        Mnemonic::Anc => spec_eff_anc(c, b, rec.mode),
        Mnemonic::And => spec_eff_and(c, b, rec.mode),
        Mnemonic::Arr => spec_eff_arr(c, b, rec.mode),
        Mnemonic::Asl => spec_eff_asl(c, b, rec.mode),
        Mnemonic::Axs => spec_eff_axs(c, b, rec.mode),
        Mnemonic::Bcc => spec_branch(c, b, !c.registers.carry),
        Mnemonic::Bcs => spec_branch(c, b, c.registers.carry),
        Mnemonic::Beq => spec_branch(c, b, c.registers.zero),
        Mnemonic::Bit => spec_eff_bit(c, b, rec.mode),
        Mnemonic::Bmi => spec_branch(c, b, c.registers.negative),
        Mnemonic::Bne => spec_branch(c, b, !c.registers.zero),
        Mnemonic::Bpl => spec_branch(c, b, !c.registers.negative),
        Mnemonic::Brk => spec_eff_brk(c, b),
        Mnemonic::Bvc => spec_branch(c, b, !c.registers.overflow),
        Mnemonic::Bvs => spec_branch(c, b, c.registers.overflow),
        Mnemonic::Clc => (spec_eff_clc(c), b),
        Mnemonic::Cld => (spec_eff_cld(c), b),
        Mnemonic::Cli => (spec_eff_cli(c), b),
        Mnemonic::Clv => (spec_eff_clv(c), b),
        Mnemonic::Cmp => spec_eff_cmp(c, b, rec.mode),
        Mnemonic::Cpx => spec_eff_cpx(c, b, rec.mode),
        Mnemonic::Cpy => spec_eff_cpy(c, b, rec.mode),
        Mnemonic::Dcp => spec_eff_dcp(c, b, rec.mode),
        Mnemonic::Dec => spec_eff_dec(c, b, rec.mode),
        Mnemonic::Dex => (spec_eff_dex(c), b),
        Mnemonic::Dey => (spec_eff_dey(c), b),
        Mnemonic::Eor => spec_eff_eor(c, b, rec.mode),
        Mnemonic::Inc => spec_eff_inc(c, b, rec.mode),
        Mnemonic::Inx => (spec_eff_inx(c), b),
        Mnemonic::Iny => (spec_eff_iny(c), b),
        Mnemonic::Isc => spec_eff_isc(c, b, rec.mode),
        Mnemonic::Jmp => spec_eff_jmp(c, b, rec.mode),
        Mnemonic::Jsr => spec_eff_jsr(c, b),
        Mnemonic::Kil => (spec_eff_kil(c), b),
        Mnemonic::Las => spec_eff_las(c, b, rec.mode),
        Mnemonic::Lax => spec_eff_lax(c, b, rec.mode),
        Mnemonic::Lda => spec_eff_lda(c, b, rec.mode),
        Mnemonic::Ldx => spec_eff_ldx(c, b, rec.mode),
        Mnemonic::Ldy => spec_eff_ldy(c, b, rec.mode),
        Mnemonic::Lsr => spec_eff_lsr(c, b, rec.mode),
        Mnemonic::Nop => spec_eff_nop(c, b, rec.mode),
        Mnemonic::Ora => spec_eff_ora(c, b, rec.mode),
        Mnemonic::Pha => spec_eff_pha(c, b),
        Mnemonic::Php => spec_eff_php(c, b),
        Mnemonic::Pla => spec_eff_pla(c, b),
        Mnemonic::Plp => spec_eff_plp(c, b),
        Mnemonic::Rla => spec_eff_rla(c, b, rec.mode),
        Mnemonic::Rol => spec_eff_rol(c, b, rec.mode),
        Mnemonic::Ror => spec_eff_ror(c, b, rec.mode),
        Mnemonic::Rra => spec_eff_rra(c, b, rec.mode),
        Mnemonic::Rti => spec_eff_rti(c, b),
        Mnemonic::Rts => spec_eff_rts(c, b),
        Mnemonic::Sax => spec_eff_sax(c, b, rec.mode),
        Mnemonic::Sbc => spec_eff_sbc(c, b, rec.mode),
        Mnemonic::Sec => (spec_eff_sec(c), b),
        Mnemonic::Sed => (spec_eff_sed(c), b),
        Mnemonic::Sei => (spec_eff_sei(c), b),
        Mnemonic::Shx => spec_eff_shx(c, b, rec.mode),
        Mnemonic::Shy => spec_eff_shy(c, b, rec.mode),
        Mnemonic::Slo => spec_eff_slo(c, b, rec.mode),
        Mnemonic::Sre => spec_eff_sre(c, b, rec.mode),
        Mnemonic::Sta => spec_eff_sta(c, b, rec.mode),
        Mnemonic::Stx => spec_eff_stx(c, b, rec.mode),
        Mnemonic::Sty => spec_eff_sty(c, b, rec.mode),
        Mnemonic::Tas => spec_eff_tas(c, b, rec.mode),
        Mnemonic::Tax => (spec_eff_tax(c), b),
        Mnemonic::Tay => (spec_eff_tay(c), b),
        Mnemonic::Tsx => (spec_eff_tsx(c), b),
        Mnemonic::Txa => (spec_eff_txa(c), b),
        Mnemonic::Txs => (spec_eff_txs(c), b),
        Mnemonic::Tya => (spec_eff_tya(c), b),
        Mnemonic::Xaa => spec_eff_xaa(c, b, rec.mode),
    }
}

impl Cpu {
    pub fn php(&mut self, bus: &mut Bus)
        requires
            old(bus).wf(),
        ensures
            final(bus).wf(),
            (*final(self), final(bus)@) == spec_eff_php(*old(self), old(bus)@),
            final(self).total_cycles == old(self).total_cycles,
    {
        proof {
            reveal(spec_eff_php);
        }
        let status = self.registers.status_for_stack_push(true);
        self.push_byte(bus, status);
    }

    pub fn pha(&mut self, bus: &mut Bus)
        requires
            old(bus).wf(),
        ensures
            final(bus).wf(),
            (*final(self), final(bus)@) == spec_eff_pha(*old(self), old(bus)@),
            final(self).total_cycles == old(self).total_cycles,
    {
        proof {
            reveal(spec_eff_pha);
        }
        let a = self.registers.accumulator;
        self.push_byte(bus, a);
    }

    pub fn plp(&mut self, bus: &mut Bus)
        requires
            old(bus).wf(),
        ensures
            final(bus).wf(),
            (*final(self), final(bus)@) == spec_eff_plp(*old(self), old(bus)@),
            final(self).total_cycles == old(self).total_cycles,
    {
        proof {
            reveal(spec_eff_plp);
        }
        let had_interrupt_disable = self.registers.interrupt_disable;
        let status_value = self.pop_byte(bus);
        self.registers.set_status_from_stack_pop(status_value);
        if had_interrupt_disable && !self.registers.interrupt_disable {
            self.interrupt_disable_clear_delay = true;
        }
    }

    pub fn pla(&mut self, bus: &mut Bus)
        requires
            old(bus).wf(),
        ensures
            final(bus).wf(),
            (*final(self), final(bus)@) == spec_eff_pla(*old(self), old(bus)@),
            final(self).total_cycles == old(self).total_cycles,
    {
        proof {
            reveal(spec_eff_pla);
        }
        let value = self.pop_byte(bus);
        self.registers.accumulator = value;
        self.update_zero_and_negative(value);
    }

    pub fn brk(&mut self, bus: &mut Bus)
        requires
            old(bus).wf(),
        ensures
            final(bus).wf(),
            (*final(self), final(bus)@) == spec_eff_brk(*old(self), old(bus)@),
            final(self).total_cycles == old(self).total_cycles,
    {
        proof {
            reveal(spec_eff_brk);
        }
        // Pre-increment so the pushed PC is opcode + 2, counting the fetch.
        self.registers.increment_pc();
        let pc = self.registers.program_counter;
        self.push_word(bus, pc);
        let status = self.registers.status_for_stack_push(true);
        self.push_byte(bus, status);
        self.registers.set_interrupt_disable(true);
        // The vector commits here; an NMI edge that already arrived
        // hijacks it (the pushed status above keeps B = 1).
        if bus.take_nmi_edge() {
            self.load_nmi_vector(bus);
        } else {
            self.load_irq_vector(bus);
        }
    }

    pub fn rti(&mut self, bus: &mut Bus)
        requires
            old(bus).wf(),
        ensures
            final(bus).wf(),
            (*final(self), final(bus)@) == spec_eff_rti(*old(self), old(bus)@),
            final(self).total_cycles == old(self).total_cycles,
    {
        proof {
            reveal(spec_eff_rti);
        }
        let status_value = self.pop_byte(bus);
        self.registers.set_status_from_stack_pop(status_value);
        let program_counter_value = self.pop_word(bus);
        self.registers.program_counter = program_counter_value;
    }

    pub fn rts(&mut self, bus: &mut Bus)
        requires
            old(bus).wf(),
        ensures
            final(bus).wf(),
            (*final(self), final(bus)@) == spec_eff_rts(*old(self), old(bus)@),
            final(self).total_cycles == old(self).total_cycles,
    {
        proof {
            reveal(spec_eff_rts);
        }
        let address = self.pop_word(bus);
        self.registers.program_counter = address;
        self.registers.increment_pc();
    }

    pub fn jsr(&mut self, bus: &mut Bus)
        requires
            old(bus).wf(),
        ensures
            final(bus).wf(),
            (*final(self), final(bus)@) == spec_eff_jsr(*old(self), old(bus)@),
            final(self).total_cycles == old(self).total_cycles,
    {
        proof {
            reveal(spec_eff_jsr);
        }
        let target_low = self.fetch_byte(bus);
        // PC now sits on the last byte of the instruction; RTS pops this
        // and then increments.
        let pc = self.registers.program_counter;
        self.push_word(bus, pc);
        let target_high = self.fetch_byte(bus);
        self.registers.program_counter = (target_low as u16) | ((target_high as u16) << 8);
    }

    pub fn jmp(&mut self, bus: &mut Bus, mode: AddressingMode)
        requires
            old(bus).wf(),
        ensures
            final(bus).wf(),
            (*final(self), final(bus)@) == spec_eff_jmp(*old(self), old(bus)@, mode),
            final(self).total_cycles == old(self).total_cycles,
    {
        proof {
            reveal(spec_eff_jmp);
        }
        let address = self.get_operand_address(bus, mode, false);
        self.registers.program_counter = address;
    }

    pub fn kil(&mut self)
        ensures
            *final(self) == spec_eff_kil(*old(self)),
    {
        self.halted = true;
    }

    pub fn bpl(&mut self, bus: &mut Bus)
        requires
            old(bus).wf(),
        ensures
            final(bus).wf(),
            (*final(self), final(bus)@) == spec_branch(
                *old(self),
                old(bus)@,
                !old(self).registers.negative,
            ),
            final(self).total_cycles == old(self).total_cycles,
    {
        let condition = !self.registers.negative;
        self.branch(bus, condition);
    }

    pub fn bmi(&mut self, bus: &mut Bus)
        requires
            old(bus).wf(),
        ensures
            final(bus).wf(),
            (*final(self), final(bus)@) == spec_branch(
                *old(self),
                old(bus)@,
                old(self).registers.negative,
            ),
            final(self).total_cycles == old(self).total_cycles,
    {
        let condition = self.registers.negative;
        self.branch(bus, condition);
    }

    pub fn bvc(&mut self, bus: &mut Bus)
        requires
            old(bus).wf(),
        ensures
            final(bus).wf(),
            (*final(self), final(bus)@) == spec_branch(
                *old(self),
                old(bus)@,
                !old(self).registers.overflow,
            ),
            final(self).total_cycles == old(self).total_cycles,
    {
        let condition = !self.registers.overflow;
        self.branch(bus, condition);
    }

    pub fn bvs(&mut self, bus: &mut Bus)
        requires
            old(bus).wf(),
        ensures
            final(bus).wf(),
            (*final(self), final(bus)@) == spec_branch(
                *old(self),
                old(bus)@,
                old(self).registers.overflow,
            ),
            final(self).total_cycles == old(self).total_cycles,
    {
        let condition = self.registers.overflow;
        self.branch(bus, condition);
    }

    pub fn bcc(&mut self, bus: &mut Bus)
        requires
            old(bus).wf(),
        ensures
            final(bus).wf(),
            (*final(self), final(bus)@) == spec_branch(
                *old(self),
                old(bus)@,
                !old(self).registers.carry,
            ),
            final(self).total_cycles == old(self).total_cycles,
    {
        let condition = !self.registers.carry;
        self.branch(bus, condition);
    }

    pub fn bcs(&mut self, bus: &mut Bus)
        requires
            old(bus).wf(),
        ensures
            final(bus).wf(),
            (*final(self), final(bus)@) == spec_branch(
                *old(self),
                old(bus)@,
                old(self).registers.carry,
            ),
            final(self).total_cycles == old(self).total_cycles,
    {
        let condition = self.registers.carry;
        self.branch(bus, condition);
    }

    pub fn bne(&mut self, bus: &mut Bus)
        requires
            old(bus).wf(),
        ensures
            final(bus).wf(),
            (*final(self), final(bus)@) == spec_branch(
                *old(self),
                old(bus)@,
                !old(self).registers.zero,
            ),
            final(self).total_cycles == old(self).total_cycles,
    {
        let condition = !self.registers.zero;
        self.branch(bus, condition);
    }

    pub fn beq(&mut self, bus: &mut Bus)
        requires
            old(bus).wf(),
        ensures
            final(bus).wf(),
            (*final(self), final(bus)@) == spec_branch(
                *old(self),
                old(bus)@,
                old(self).registers.zero,
            ),
            final(self).total_cycles == old(self).total_cycles,
    {
        let condition = self.registers.zero;
        self.branch(bus, condition);
    }

    pub fn clc(&mut self)
        ensures
            *final(self) == spec_eff_clc(*old(self)),
    {
        self.registers.set_carry(false);
    }

    pub fn sec(&mut self)
        ensures
            *final(self) == spec_eff_sec(*old(self)),
    {
        self.registers.set_carry(true);
    }

    pub fn cli(&mut self)
        ensures
            *final(self) == spec_eff_cli(*old(self)),
    {
        if self.registers.interrupt_disable {
            self.interrupt_disable_clear_delay = true;
        }
        self.registers.set_interrupt_disable(false);
    }

    pub fn sei(&mut self)
        ensures
            *final(self) == spec_eff_sei(*old(self)),
    {
        if !self.registers.interrupt_disable {
            self.interrupt_disable_set_delay = true;
        }
        self.registers.set_interrupt_disable(true);
    }

    pub fn cld(&mut self)
        ensures
            *final(self) == spec_eff_cld(*old(self)),
    {
        self.registers.set_decimal(false);
    }

    pub fn sed(&mut self)
        ensures
            *final(self) == spec_eff_sed(*old(self)),
    {
        self.registers.set_decimal(true);
    }

    pub fn clv(&mut self)
        ensures
            *final(self) == spec_eff_clv(*old(self)),
    {
        self.registers.set_overflow(false);
    }

    pub fn tax(&mut self)
        ensures
            *final(self) == spec_eff_tax(*old(self)),
    {
        self.registers.index_x = self.registers.accumulator;
        let v = self.registers.index_x;
        self.update_zero_and_negative(v);
    }

    pub fn tay(&mut self)
        ensures
            *final(self) == spec_eff_tay(*old(self)),
    {
        self.registers.index_y = self.registers.accumulator;
        let v = self.registers.index_y;
        self.update_zero_and_negative(v);
    }

    pub fn txa(&mut self)
        ensures
            *final(self) == spec_eff_txa(*old(self)),
    {
        self.registers.accumulator = self.registers.index_x;
        let v = self.registers.accumulator;
        self.update_zero_and_negative(v);
    }

    pub fn tya(&mut self)
        ensures
            *final(self) == spec_eff_tya(*old(self)),
    {
        self.registers.accumulator = self.registers.index_y;
        let v = self.registers.accumulator;
        self.update_zero_and_negative(v);
    }

    pub fn tsx(&mut self)
        ensures
            *final(self) == spec_eff_tsx(*old(self)),
    {
        self.registers.index_x = self.registers.stack_pointer;
        let v = self.registers.index_x;
        self.update_zero_and_negative(v);
    }

    pub fn txs(&mut self)
        ensures
            *final(self) == spec_eff_txs(*old(self)),
    {
        self.registers.stack_pointer = self.registers.index_x;
    }

    pub fn dex(&mut self)
        ensures
            *final(self) == spec_eff_dex(*old(self)),
    {
        self.registers.index_x = self.registers.index_x.wrapping_sub(1);
        let v = self.registers.index_x;
        self.update_zero_and_negative(v);
    }

    pub fn dey(&mut self)
        ensures
            *final(self) == spec_eff_dey(*old(self)),
    {
        self.registers.index_y = self.registers.index_y.wrapping_sub(1);
        let v = self.registers.index_y;
        self.update_zero_and_negative(v);
    }

    pub fn inx(&mut self)
        ensures
            *final(self) == spec_eff_inx(*old(self)),
    {
        self.registers.index_x = self.registers.index_x.wrapping_add(1);
        let v = self.registers.index_x;
        self.update_zero_and_negative(v);
    }

    pub fn iny(&mut self)
        ensures
            *final(self) == spec_eff_iny(*old(self)),
    {
        self.registers.index_y = self.registers.index_y.wrapping_add(1);
        let v = self.registers.index_y;
        self.update_zero_and_negative(v);
    }

    fn execute_read_class(&mut self, bus: &mut Bus, rec: OpcodeRecord)
        requires
            old(bus).wf(),
            ({
            ||| rec.mnemonic is Adc
            ||| rec.mnemonic is Alr
            ||| rec.mnemonic is Anc
            ||| rec.mnemonic is And
            ||| rec.mnemonic is Arr
            ||| rec.mnemonic is Axs
            ||| rec.mnemonic is Bit
            ||| rec.mnemonic is Cmp
            ||| rec.mnemonic is Cpx
            ||| rec.mnemonic is Cpy
            ||| rec.mnemonic is Eor
            ||| rec.mnemonic is Las
            ||| rec.mnemonic is Lax
            ||| rec.mnemonic is Lda
            ||| rec.mnemonic is Ldx
            ||| rec.mnemonic is Ldy
            ||| rec.mnemonic is Nop
            ||| rec.mnemonic is Ora
            ||| rec.mnemonic is Sbc
            ||| rec.mnemonic is Xaa
            }),
        ensures
            final(bus).wf(),
            (*final(self), final(bus)@) == spec_execute(*old(self), old(bus)@, rec),
            final(self).total_cycles == old(self).total_cycles,
    {
        match rec.mnemonic {
            Mnemonic::Adc => self.adc(bus, rec.mode),
            Mnemonic::Alr => self.alr(bus, rec.mode),
            Mnemonic::Anc => self.anc(bus, rec.mode),
            Mnemonic::And => self.and(bus, rec.mode),
            Mnemonic::Arr => self.arr(bus, rec.mode),
            Mnemonic::Axs => self.axs(bus, rec.mode),
            Mnemonic::Bit => self.bit(bus, rec.mode),
            Mnemonic::Cmp => self.cmp(bus, rec.mode),
            Mnemonic::Cpx => self.cpx(bus, rec.mode),
            Mnemonic::Cpy => self.cpy(bus, rec.mode),
            Mnemonic::Eor => self.eor(bus, rec.mode),
            Mnemonic::Las => self.las(bus, rec.mode),
            Mnemonic::Lax => self.lax(bus, rec.mode),
            Mnemonic::Lda => self.lda(bus, rec.mode),
            Mnemonic::Ldx => self.ldx(bus, rec.mode),
            Mnemonic::Ldy => self.ldy(bus, rec.mode),
            Mnemonic::Nop => self.nop(bus, rec.mode),
            Mnemonic::Ora => self.ora(bus, rec.mode),
            Mnemonic::Sbc => self.sbc(bus, rec.mode),
            Mnemonic::Xaa => self.xaa(bus, rec.mode),
            _ => {
                // The dispatcher only routes this class here; the
                // requires clause rules every other mnemonic out.
                proof {
                    assert(false);
                }
            },
        }
    }

    fn execute_rmw_class(&mut self, bus: &mut Bus, rec: OpcodeRecord)
        requires
            old(bus).wf(),
            ({
            ||| rec.mnemonic is Asl
            ||| rec.mnemonic is Dcp
            ||| rec.mnemonic is Dec
            ||| rec.mnemonic is Inc
            ||| rec.mnemonic is Isc
            ||| rec.mnemonic is Lsr
            ||| rec.mnemonic is Rla
            ||| rec.mnemonic is Rol
            ||| rec.mnemonic is Ror
            ||| rec.mnemonic is Rra
            ||| rec.mnemonic is Slo
            ||| rec.mnemonic is Sre
            }),
        ensures
            final(bus).wf(),
            (*final(self), final(bus)@) == spec_execute(*old(self), old(bus)@, rec),
            final(self).total_cycles == old(self).total_cycles,
    {
        match rec.mnemonic {
            Mnemonic::Asl => self.asl(bus, rec.mode),
            Mnemonic::Dcp => self.dcp(bus, rec.mode),
            Mnemonic::Dec => self.dec(bus, rec.mode),
            Mnemonic::Inc => self.inc(bus, rec.mode),
            Mnemonic::Isc => self.isc(bus, rec.mode),
            Mnemonic::Lsr => self.lsr(bus, rec.mode),
            Mnemonic::Rla => self.rla(bus, rec.mode),
            Mnemonic::Rol => self.rol(bus, rec.mode),
            Mnemonic::Ror => self.ror(bus, rec.mode),
            Mnemonic::Rra => self.rra(bus, rec.mode),
            Mnemonic::Slo => self.slo(bus, rec.mode),
            Mnemonic::Sre => self.sre(bus, rec.mode),
            _ => {
                // The dispatcher only routes this class here; the
                // requires clause rules every other mnemonic out.
                proof {
                    assert(false);
                }
            },
        }
    }

    fn execute_store_class(&mut self, bus: &mut Bus, rec: OpcodeRecord)
        requires
            old(bus).wf(),
            ({
            ||| rec.mnemonic is Ahx
            ||| rec.mnemonic is Sax
            ||| rec.mnemonic is Shx
            ||| rec.mnemonic is Shy
            ||| rec.mnemonic is Sta
            ||| rec.mnemonic is Stx
            ||| rec.mnemonic is Sty
            ||| rec.mnemonic is Tas
            }),
        ensures
            final(bus).wf(),
            (*final(self), final(bus)@) == spec_execute(*old(self), old(bus)@, rec),
            final(self).total_cycles == old(self).total_cycles,
    {
        match rec.mnemonic {
            Mnemonic::Ahx => self.ahx(bus, rec.mode),
            Mnemonic::Sax => self.sax(bus, rec.mode),
            Mnemonic::Shx => self.shx(bus, rec.mode),
            Mnemonic::Shy => self.shy(bus, rec.mode),
            Mnemonic::Sta => self.sta(bus, rec.mode),
            Mnemonic::Stx => self.stx(bus, rec.mode),
            Mnemonic::Sty => self.sty(bus, rec.mode),
            Mnemonic::Tas => self.tas(bus, rec.mode),
            _ => {
                // The dispatcher only routes this class here; the
                // requires clause rules every other mnemonic out.
                proof {
                    assert(false);
                }
            },
        }
    }

    fn execute_branch_class(&mut self, bus: &mut Bus, rec: OpcodeRecord)
        requires
            old(bus).wf(),
            ({
            ||| rec.mnemonic is Bcc
            ||| rec.mnemonic is Bcs
            ||| rec.mnemonic is Beq
            ||| rec.mnemonic is Bmi
            ||| rec.mnemonic is Bne
            ||| rec.mnemonic is Bpl
            ||| rec.mnemonic is Bvc
            ||| rec.mnemonic is Bvs
            }),
        ensures
            final(bus).wf(),
            (*final(self), final(bus)@) == spec_execute(*old(self), old(bus)@, rec),
            final(self).total_cycles == old(self).total_cycles,
    {
        match rec.mnemonic {
            Mnemonic::Bcc => self.bcc(bus),
            Mnemonic::Bcs => self.bcs(bus),
            Mnemonic::Beq => self.beq(bus),
            Mnemonic::Bmi => self.bmi(bus),
            Mnemonic::Bne => self.bne(bus),
            Mnemonic::Bpl => self.bpl(bus),
            Mnemonic::Bvc => self.bvc(bus),
            Mnemonic::Bvs => self.bvs(bus),
            _ => {
                // The dispatcher only routes this class here; the
                // requires clause rules every other mnemonic out.
                proof {
                    assert(false);
                }
            },
        }
    }

    fn execute_flow_class(&mut self, bus: &mut Bus, rec: OpcodeRecord)
        requires
            old(bus).wf(),
            ({
            ||| rec.mnemonic is Brk
            ||| rec.mnemonic is Jmp
            ||| rec.mnemonic is Jsr
            ||| rec.mnemonic is Kil
            ||| rec.mnemonic is Pha
            ||| rec.mnemonic is Php
            ||| rec.mnemonic is Pla
            ||| rec.mnemonic is Plp
            ||| rec.mnemonic is Rti
            ||| rec.mnemonic is Rts
            }),
        ensures
            final(bus).wf(),
            (*final(self), final(bus)@) == spec_execute(*old(self), old(bus)@, rec),
            final(self).total_cycles == old(self).total_cycles,
    {
        match rec.mnemonic {
            Mnemonic::Brk => self.brk(bus),
            Mnemonic::Jmp => self.jmp(bus, rec.mode),
            Mnemonic::Jsr => self.jsr(bus),
            Mnemonic::Kil => self.kil(),
            Mnemonic::Pha => self.pha(bus),
            Mnemonic::Php => self.php(bus),
            Mnemonic::Pla => self.pla(bus),
            Mnemonic::Plp => self.plp(bus),
            Mnemonic::Rti => self.rti(bus),
            Mnemonic::Rts => self.rts(bus),
            _ => {
                // The dispatcher only routes this class here; the
                // requires clause rules every other mnemonic out.
                proof {
                    assert(false);
                }
            },
        }
    }

    fn execute_implied_class(&mut self, bus: &mut Bus, rec: OpcodeRecord)
        requires
            old(bus).wf(),
            ({
            ||| rec.mnemonic is Clc
            ||| rec.mnemonic is Cld
            ||| rec.mnemonic is Cli
            ||| rec.mnemonic is Clv
            ||| rec.mnemonic is Dex
            ||| rec.mnemonic is Dey
            ||| rec.mnemonic is Inx
            ||| rec.mnemonic is Iny
            ||| rec.mnemonic is Sec
            ||| rec.mnemonic is Sed
            ||| rec.mnemonic is Sei
            ||| rec.mnemonic is Tax
            ||| rec.mnemonic is Tay
            ||| rec.mnemonic is Tsx
            ||| rec.mnemonic is Txa
            ||| rec.mnemonic is Txs
            ||| rec.mnemonic is Tya
            }),
        ensures
            final(bus).wf(),
            (*final(self), final(bus)@) == spec_execute(*old(self), old(bus)@, rec),
            final(self).total_cycles == old(self).total_cycles,
    {
        match rec.mnemonic {
            Mnemonic::Clc => self.clc(),
            Mnemonic::Cld => self.cld(),
            Mnemonic::Cli => self.cli(),
            Mnemonic::Clv => self.clv(),
            Mnemonic::Dex => self.dex(),
            Mnemonic::Dey => self.dey(),
            Mnemonic::Inx => self.inx(),
            Mnemonic::Iny => self.iny(),
            Mnemonic::Sec => self.sec(),
            Mnemonic::Sed => self.sed(),
            Mnemonic::Sei => self.sei(),
            Mnemonic::Tax => self.tax(),
            Mnemonic::Tay => self.tay(),
            Mnemonic::Tsx => self.tsx(),
            Mnemonic::Txa => self.txa(),
            Mnemonic::Txs => self.txs(),
            Mnemonic::Tya => self.tya(),
            _ => {
                // The dispatcher only routes this class here; the
                // requires clause rules every other mnemonic out.
                proof {
                    assert(false);
                }
            },
        }
    }

    /// Run one decoded instruction: dispatch to its handler, which does
    /// all the instruction's bus activity.
    pub fn execute(&mut self, bus: &mut Bus, rec: OpcodeRecord)
        requires
            old(bus).wf(),
        ensures
            final(bus).wf(),
            (*final(self), final(bus)@) == spec_execute(*old(self), old(bus)@, rec),
            final(self).total_cycles == old(self).total_cycles,
    {
        match rec.mnemonic {
            Mnemonic::Adc | Mnemonic::Alr | Mnemonic::Anc | Mnemonic::And | Mnemonic::Arr | Mnemonic::Axs | Mnemonic::Bit | Mnemonic::Cmp | Mnemonic::Cpx | Mnemonic::Cpy | Mnemonic::Eor | Mnemonic::Las | Mnemonic::Lax | Mnemonic::Lda | Mnemonic::Ldx | Mnemonic::Ldy | Mnemonic::Nop | Mnemonic::Ora | Mnemonic::Sbc | Mnemonic::Xaa => self.execute_read_class(bus, rec),
            Mnemonic::Asl | Mnemonic::Dcp | Mnemonic::Dec | Mnemonic::Inc | Mnemonic::Isc | Mnemonic::Lsr | Mnemonic::Rla | Mnemonic::Rol | Mnemonic::Ror | Mnemonic::Rra | Mnemonic::Slo | Mnemonic::Sre => self.execute_rmw_class(bus, rec),
            Mnemonic::Ahx | Mnemonic::Sax | Mnemonic::Shx | Mnemonic::Shy | Mnemonic::Sta | Mnemonic::Stx | Mnemonic::Sty | Mnemonic::Tas => self.execute_store_class(bus, rec),
            Mnemonic::Bcc | Mnemonic::Bcs | Mnemonic::Beq | Mnemonic::Bmi | Mnemonic::Bne | Mnemonic::Bpl | Mnemonic::Bvc | Mnemonic::Bvs => self.execute_branch_class(bus, rec),
            Mnemonic::Brk | Mnemonic::Jmp | Mnemonic::Jsr | Mnemonic::Kil | Mnemonic::Pha | Mnemonic::Php | Mnemonic::Pla | Mnemonic::Plp | Mnemonic::Rti | Mnemonic::Rts => self.execute_flow_class(bus, rec),
            Mnemonic::Clc | Mnemonic::Cld | Mnemonic::Cli | Mnemonic::Clv | Mnemonic::Dex | Mnemonic::Dey | Mnemonic::Inx | Mnemonic::Iny | Mnemonic::Sec | Mnemonic::Sed | Mnemonic::Sei | Mnemonic::Tax | Mnemonic::Tay | Mnemonic::Tsx | Mnemonic::Txa | Mnemonic::Txs | Mnemonic::Tya => self.execute_implied_class(bus, rec),
        }
    }

}

} // verus!
