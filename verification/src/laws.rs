//! Laws of the core, stated over the spec-level model and proved once and
//! for all: the stack stays in page $01, the Z/N convention, the bit-5
//! convention of status pushes, the meaning of the ADC/SBC overflow
//! formula, the PHP/PLP round trip, the JSR/RTS return discipline, and the
//! three-bus-access shape of read-modify-write instructions.

use vstd::prelude::*;
use crate::registers::{CpuRegisters, spec_status_byte, spec_regs_after_status_pop,
    lemma_status_byte_bits};
use crate::bus::{BusView, BusAccess, spec_bus_read_value, spec_bus_after_cpu_write};
use crate::cpu::{Cpu, spec_stack_addr, spec_push_byte, spec_read_step,
    spec_write_step, spec_word, lemma_stack_addr_range};
use crate::instructions::{spec_adc_regs, spec_zn, spec_eff_php, spec_eff_plp, spec_eff_jsr,
    spec_eff_rts, spec_eff_asl, spec_resolve};
use crate::opcodes::AddressingMode;

verus! {

/// The stack effective address of every push lies in [$0100, $01FF]: the
/// bus access a push records is a write inside page $01, one slot below
/// which the stack pointer then sits (with 8-bit wrap).
pub proof fn lemma_push_stays_in_stack_page(c: Cpu, b: BusView, value: u8)
    ensures
        ({
            let r = spec_push_byte(c, b, value);
            let address = spec_stack_addr(c.registers.stack_pointer);
            &&& 0x0100 <= address <= 0x01FF
            &&& r.1.trace == b.trace.push(BusAccess { is_write: true, address, value })
            &&& r.0.registers.stack_pointer == c.registers.stack_pointer.wrapping_sub(1)
        }),
{
    lemma_stack_addr_range(c.registers.stack_pointer);
}

/// The Z/N convention: after any operation that routes its value through
/// the shared flag update, Z holds exactly when the value is zero and N
/// mirrors bit 7.
pub proof fn lemma_zn_flags(r: CpuRegisters, value: u8)
    ensures
        spec_zn(r, value).zero == (value == 0),
        spec_zn(r, value).negative == (value & 0x80 != 0),
        spec_zn(r, value).carry == r.carry,
        spec_zn(r, value).overflow == r.overflow,
        spec_zn(r, value).interrupt_disable == r.interrupt_disable,
{
}

/// Bit 5 of the status byte is 1 in every stack push, and bit 4 is the B
/// flag: 1 for BRK/PHP pushes, 0 for IRQ/NMI pushes.
pub proof fn lemma_status_push_bit5(r: CpuRegisters, is_break: bool)
    ensures
        spec_status_byte(r, is_break) & 0x20 != 0,
        (spec_status_byte(r, is_break) & 0x10 != 0) == is_break,
{
    let c: u8 = if r.carry {
        1
    } else {
        0
    };
    let z: u8 = if r.zero {
        1
    } else {
        0
    };
    let i: u8 = if r.interrupt_disable {
        1
    } else {
        0
    };
    let d: u8 = if r.decimal {
        1
    } else {
        0
    };
    let bb: u8 = if is_break {
        1
    } else {
        0
    };
    let v: u8 = if r.overflow {
        1
    } else {
        0
    };
    let n: u8 = if r.negative {
        1
    } else {
        0
    };
    lemma_status_byte_bits(c, z, i, d, bb, v, n);
}

/// Popping a pushed status byte restores all six stored flags, whatever
/// the B bit of the push was and whatever flags the popping state held:
/// the byte's B bit and bit 5 are discarded on the way in.
pub proof fn lemma_status_round_trip(r: CpuRegisters, r2: CpuRegisters, is_break: bool)
    ensures
        ({
            let popped = spec_regs_after_status_pop(r2, spec_status_byte(r, is_break));
            &&& popped.carry == r.carry
            &&& popped.zero == r.zero
            &&& popped.interrupt_disable == r.interrupt_disable
            &&& popped.decimal == r.decimal
            &&& popped.overflow == r.overflow
            &&& popped.negative == r.negative
        }),
{
    let c: u8 = if r.carry {
        1
    } else {
        0
    };
    let z: u8 = if r.zero {
        1
    } else {
        0
    };
    let i: u8 = if r.interrupt_disable {
        1
    } else {
        0
    };
    let d: u8 = if r.decimal {
        1
    } else {
        0
    };
    let bb: u8 = if is_break {
        1
    } else {
        0
    };
    let v: u8 = if r.overflow {
        1
    } else {
        0
    };
    let n: u8 = if r.negative {
        1
    } else {
        0
    };
    lemma_status_byte_bits(c, z, i, d, bb, v, n);
    let byte = spec_status_byte(r, is_break);
    assert((byte & 0x02 != 0) == (z == 1));
    assert((byte & 0x04 != 0) == (i == 1));
    assert((byte & 0x08 != 0) == (d == 1));
    assert((byte & 0x40 != 0) == (v == 1));
    assert((byte & 0x80 != 0) == (n == 1));
}

/// The ADC/SBC carry is the unsigned carry out of bit 7, and the overflow
/// formula `(A ^ R) & (M ^ R) & $80` holds exactly when both addends have
/// the same sign bit and the result's differs — the signed-overflow
/// condition.
pub proof fn lemma_adc_flags_meaning(a: u8, m: u8, carry_in: bool)
    ensures
        ({
            let cin: u8 = if carry_in {
                1
            } else {
                0
            };
            let result = ((a + m + cin) % 0x100) as u8;
            let formula = (a ^ result) & (m ^ result) & 0x80 != 0;
            &&& formula == ((a < 0x80 && m < 0x80 && result >= 0x80) || (a >= 0x80 && m >= 0x80
                && result < 0x80))
            &&& (a + m + cin > 0xFF) == (a + m + cin >= 0x100)
        }),
{
    let cin: u8 = if carry_in {
        1u8
    } else {
        0u8
    };
    assert(({
        let result = ((a + m + cin) % 0x100) as u8;
        let formula = (a ^ result) & (m ^ result) & 0x80 != 0;
        formula == ((a < 0x80 && m < 0x80 && result >= 0x80) || (a >= 0x80 && m >= 0x80 && result
            < 0x80))
    })) by (bit_vector)
        requires
            cin <= 1,
    ;
}

/// The ADC register update agrees with that reading: its carry is the
/// unsigned carry of A + M + C, and its accumulator is the wrapped sum.
pub proof fn lemma_adc_regs_meaning(r: CpuRegisters, m: u8)
    ensures
        ({
            let cin: int = if r.carry {
                1
            } else {
                0
            };
            let after = spec_adc_regs(r, m);
            &&& after.accumulator == (r.accumulator + m + cin) % 0x100
            &&& after.carry == (r.accumulator + m + cin >= 0x100)
            &&& after.zero == (after.accumulator == 0)
            &&& after.negative == (after.accumulator >= 0x80)
        }),
{
    let a = r.accumulator;
    let cin: u8 = if r.carry {
        1u8
    } else {
        0u8
    };
    assert(((a + m + cin) as u8) == (a + m + cin) % 0x100) by (bit_vector);
    assert((((a + m + cin) as u8) & 0x80 != 0) == (((a + m + cin) as u8) >= 0x80)) by (bit_vector);
}

/// PHP followed by PLP restores the status byte up to the B and bit-5
/// normalization: all six stored flags return, A, X, Y and PC are
/// untouched, and the stack pointer comes back to where it started.
pub proof fn lemma_php_plp_round_trip(c: Cpu, b: BusView)
    requires
        b.ram.len() == 0x0800,
    ensures
        ({
            let p = spec_eff_php(c, b);
            let q = spec_eff_plp(p.0, p.1);
            &&& q.0.registers.carry == c.registers.carry
            &&& q.0.registers.zero == c.registers.zero
            &&& q.0.registers.interrupt_disable == c.registers.interrupt_disable
            &&& q.0.registers.decimal == c.registers.decimal
            &&& q.0.registers.overflow == c.registers.overflow
            &&& q.0.registers.negative == c.registers.negative
            &&& q.0.registers.accumulator == c.registers.accumulator
            &&& q.0.registers.index_x == c.registers.index_x
            &&& q.0.registers.index_y == c.registers.index_y
            &&& q.0.registers.program_counter == c.registers.program_counter
            &&& q.0.registers.stack_pointer == c.registers.stack_pointer
        }),
{
    reveal(spec_eff_php);
    reveal(spec_eff_plp);
    let sp = c.registers.stack_pointer;
    let address = spec_stack_addr(sp);
    lemma_stack_addr_range(sp);
    let byte = spec_status_byte(c.registers, true);
    // The push writes the byte into RAM inside page $01; the pop reads the
    // same cell back, because S returns to its pre-push value first.
    assert(sp.wrapping_sub(1).wrapping_add(1) == sp) by (bit_vector);
    crate::memory::lemma_mask_07ff(address);
    let b1 = spec_bus_after_cpu_write(b, address, byte);
    assert(spec_bus_read_value(b1, address) == byte);
    lemma_status_round_trip(c.registers, c.registers, true);
}

/// JSR pushes the address of the last byte of its own instruction, so an
/// RTS executed later — from any state whose stack pointer and two stack
/// cells are as JSR left them, regardless of intervening stack-safe code —
/// returns to the instruction after the JSR operand (the JSR's PC plus 2,
/// counting from the operand fetch).
pub proof fn lemma_jsr_rts_round_trip(c: Cpu, b: BusView, c2: Cpu, b2: BusView)
    requires
        b.ram.len() == 0x0800,
        ({
            let j = spec_eff_jsr(c, b);
            &&& c2.registers.stack_pointer == j.0.registers.stack_pointer
            &&& b2.ram.len() == j.1.ram.len()
            &&& b2.ram.len() == 0x0800
            &&& b2.ram[(spec_stack_addr(c.registers.stack_pointer) & 0x07FF) as int] == j.1.ram[(
                spec_stack_addr(c.registers.stack_pointer) & 0x07FF) as int]
            &&& b2.ram[(spec_stack_addr(c.registers.stack_pointer.wrapping_sub(1)) & 0x07FF)
                as int] == j.1.ram[(spec_stack_addr(c.registers.stack_pointer.wrapping_sub(1))
                & 0x07FF) as int]
        }),
    ensures
        ({
            let r = spec_eff_rts(c2, b2);
            r.0.registers.program_counter == c.registers.program_counter.wrapping_add(2)
        }),
{
    reveal(spec_eff_jsr);
    reveal(spec_eff_rts);
    let sp = c.registers.stack_pointer;
    let pushed = c.registers.program_counter.wrapping_add(1);
    let high_slot = spec_stack_addr(sp);
    let low_slot = spec_stack_addr(sp.wrapping_sub(1));
    lemma_stack_addr_range(sp);
    lemma_stack_addr_range(sp.wrapping_sub(1));
    // The two stack slots are distinct RAM cells.
    assert((0x0100u16 | (sp as u16)) & 0x07FF == 0x0100 + (sp as u16)) by (bit_vector);
    assert(({
        let d = sp.wrapping_sub(1);
        (0x0100u16 | (d as u16)) & 0x07FF == 0x0100 + (d as u16)
    })) by (bit_vector);
    assert(sp.wrapping_sub(1) != sp) by (bit_vector);
    // JSR leaves S two below; RTS pops low then high from the same cells.
    assert(sp.wrapping_sub(2).wrapping_add(1) == sp.wrapping_sub(1)) by (bit_vector);
    assert(sp.wrapping_sub(1).wrapping_add(1) == sp) by (bit_vector);
    // The popped word is the pushed word.
    assert(spec_bus_read_value(b2, low_slot) == (pushed as u8)) by {
        assert(b2.ram[(low_slot & 0x07FF) as int] == (pushed as u8));
    }
    assert(spec_bus_read_value(spec_read_step(b2, low_slot).0, high_slot) == ((pushed >> 8) as u8))
        by {
        assert(b2.ram[(high_slot & 0x07FF) as int] == ((pushed >> 8) as u8));
    }
    // Reassembling the bytes gives the pushed address back.
    assert(spec_word((pushed as u8), ((pushed >> 8) as u8)) == pushed) by (bit_vector);
    // And RTS increments once more: opcode + 2, the byte after the operand.
    let pc = c.registers.program_counter;
    assert(pc.wrapping_add(1).wrapping_add(1) == pc.wrapping_add(2)) by (bit_vector);
}

/// Read-modify-write instructions produce exactly three bus accesses at
/// the target: the read, the dummy write of the unmodified value, and the
/// write of the new value — for every target except the DMA trigger
/// $4014, which a write never reaches.
pub proof fn lemma_rmw_three_accesses(c: Cpu, b: BusView, address: u16, new_value: u8)
    requires
        address != 0x4014,
    ensures
        ({
            let rd = spec_read_step(b, address);
            let w1 = spec_write_step(c, rd.0, address, rd.1);
            let w2 = spec_write_step(w1.0, w1.1, address, new_value);
            w2.1.trace == b.trace.push(
                BusAccess { is_write: false, address, value: rd.1 },
            ).push(BusAccess { is_write: true, address, value: rd.1 }).push(
                BusAccess { is_write: true, address, value: new_value },
            )
        }),
{
}


/// A byte read as a two's-complement signed value.
pub open spec fn spec_signed(v: u8) -> int {
    if v < 0x80 {
        v as int
    } else {
        v - 0x100
    }
}

/// The same overflow formula, read over signed values: it holds exactly
/// when the signed sum of the addends and the carry falls outside the
/// representable range [-128, 127].
pub proof fn lemma_adc_overflow_is_signed_overflow(a: u8, m: u8, carry_in: bool)
    ensures
        ({
            let cin: u8 = if carry_in {
                1
            } else {
                0
            };
            let result = ((a + m + cin) % 0x100) as u8;
            let formula = (a ^ result) & (m ^ result) & 0x80 != 0;
            formula == (spec_signed(a) + spec_signed(m) + cin < -128 || spec_signed(a)
                + spec_signed(m) + cin > 127)
        }),
{
    let cin: u8 = if carry_in {
        1u8
    } else {
        0u8
    };
    lemma_adc_flags_meaning(a, m, carry_in);
    let result = ((a + m + cin) % 0x100) as u8;
    assert((a < 0x80 && m < 0x80 && result >= 0x80) == (spec_signed(a) + spec_signed(m) + cin
        > 127) && (a >= 0x80 && m >= 0x80 && result < 0x80) == (spec_signed(a) + spec_signed(m)
        + cin < -128)) by (bit_vector)
        requires
            cin <= 1,
            result == ((a + m + cin) % 0x100) as u8,
    ;
}



/// The shape holds of the instructions themselves: ASL on memory (the
/// pattern every read-modify-write handler shares) appends exactly the
/// read, the dummy write of the old value, and the write of the shifted
/// value at the resolved target, after whatever accesses resolution made.
pub proof fn lemma_asl_rmw_accesses(c: Cpu, b: BusView, mode: AddressingMode)
    requires
        !(mode is Accumulator),
        ({
            let r = spec_resolve(c, b, mode, false);
            r.2 != 0x4014
        }),
    ensures
        ({
            let r = spec_resolve(c, b, mode, false);
            let rd = spec_read_step(r.1, r.2);
            spec_eff_asl(c, b, mode).1.trace == r.1.trace.push(
                BusAccess { is_write: false, address: r.2, value: rd.1 },
            ).push(BusAccess { is_write: true, address: r.2, value: rd.1 }).push(
                BusAccess { is_write: true, address: r.2, value: (rd.1 << 1) as u8 },
            )
        }),
{
    reveal(spec_eff_asl);
    let r = spec_resolve(c, b, mode, false);
    let rd = spec_read_step(r.1, r.2);
    lemma_rmw_three_accesses(r.0, r.1, r.2, (rd.1 << 1) as u8);
}

} // verus!
