//! The 6502 programmer-visible register file: accumulator, index registers,
//! program counter, stack pointer and the six stored status flags.
//!
//! The B flag and bit 5 of the status byte are not stored: they exist only in
//! the byte that a stack push produces, where bit 5 is always 1 and bit 4
//! carries whether the push came from BRK/PHP (1) or from an interrupt (0).

use vstd::prelude::*;

verus! {

/// The stack always lives in page $01: the effective address is $0100 | S.
pub const STACK_PAGE: u16 = 0x0100;

/// Mask selecting the high byte of an address (its page).
pub const PAGE_MASK: u16 = 0xFF00;

/// Mask selecting the low byte of an address (its offset within a page).
pub const OFFSET_MASK: u16 = 0x00FF;

/// Programmer-visible CPU state. Every combination of field values is a
/// legal 6502 state, so the fields are public and carry no invariant.
#[derive(Clone, Copy)]
pub struct CpuRegisters {
    pub accumulator: u8,
    pub index_x: u8,
    pub index_y: u8,
    pub program_counter: u16,
    pub stack_pointer: u8,
    pub carry: bool,
    pub zero: bool,
    pub interrupt_disable: bool,
    pub decimal: bool,
    pub overflow: bool,
    pub negative: bool,
}

/// The status byte as pushed to the stack: bit 5 forced to 1, bit 4 from
/// `is_break`, the six stored flags in their hardware positions.
pub open spec fn spec_status_byte(r: CpuRegisters, is_break: bool) -> u8 {
    (if r.carry { 0x01u8 } else { 0u8 })
    | ((if r.zero { 1u8 } else { 0u8 }) << 1)
    | ((if r.interrupt_disable { 1u8 } else { 0u8 }) << 2)
    | ((if r.decimal { 1u8 } else { 0u8 }) << 3)
    | ((if is_break { 1u8 } else { 0u8 }) << 4)
    | 0x20u8
    | ((if r.overflow { 1u8 } else { 0u8 }) << 6)
    | ((if r.negative { 1u8 } else { 0u8 }) << 7)
}

/// Bits 0-3, 6 and 7 of a popped status byte become the stored flags; the
/// incoming B bit and bit 5 are discarded.
pub open spec fn spec_regs_after_status_pop(r: CpuRegisters, value: u8) -> CpuRegisters {
    CpuRegisters {
        carry: value & 0x01 != 0,
        zero: value & 0x02 != 0,
        interrupt_disable: value & 0x04 != 0,
        decimal: value & 0x08 != 0,
        overflow: value & 0x40 != 0,
        negative: value & 0x80 != 0,
        ..r
    }
}

/// Packing six flag bits (each 0 or 1) into a status byte is inverted by
/// masking the byte at the matching positions; bit 5 of the byte is always
/// set, and bit 4 is exactly the break bit.
pub proof fn lemma_status_byte_bits(c: u8, z: u8, i: u8, d: u8, b: u8, v: u8, n: u8)
    by (bit_vector)
    requires
        c <= 1,
        z <= 1,
        i <= 1,
        d <= 1,
        b <= 1,
        v <= 1,
        n <= 1,
    ensures
        ({
            let byte = c | (z << 1) | (i << 2) | (d << 3) | (b << 4) | 0x20u8 | (v << 6) | (n
                << 7);
            &&& (byte & 0x01 != 0) == (c == 1)
            &&& (byte & 0x02 != 0) == (z == 1)
            &&& (byte & 0x04 != 0) == (i == 1)
            &&& (byte & 0x08 != 0) == (d == 1)
            &&& (byte & 0x10 != 0) == (b == 1)
            &&& byte & 0x20 != 0
            &&& (byte & 0x40 != 0) == (v == 1)
            &&& (byte & 0x80 != 0) == (n == 1)
        }),
{
}

impl CpuRegisters {
    /// Post-reset power-up state: registers clear, S at $FD, I and the
    /// (stored image of) bit 5 convention leave only I set among the flags.
    pub fn new() -> (r: CpuRegisters)
        ensures
            r.accumulator == 0,
            r.index_x == 0,
            r.index_y == 0,
            r.program_counter == 0,
            r.stack_pointer == 0xFD,
            !r.carry,
            !r.zero,
            r.interrupt_disable,
            !r.decimal,
            !r.overflow,
            !r.negative,
    {
        CpuRegisters {
            accumulator: 0,
            index_x: 0,
            index_y: 0,
            program_counter: 0x0000,
            stack_pointer: 0xFD,
            carry: false,
            zero: false,
            interrupt_disable: true,
            decimal: false,
            overflow: false,
            negative: false,
        }
    }

    // Register getters for the debugger shell.

    pub fn accumulator(&self) -> (r: u8)
        ensures
            r == self.accumulator,
    {
        self.accumulator
    }

    pub fn index_x(&self) -> (r: u8)
        ensures
            r == self.index_x,
    {
        self.index_x
    }

    pub fn index_y(&self) -> (r: u8)
        ensures
            r == self.index_y,
    {
        self.index_y
    }

    pub fn program_counter(&self) -> (r: u16)
        ensures
            r == self.program_counter,
    {
        self.program_counter
    }

    pub fn stack_pointer(&self) -> (r: u8)
        ensures
            r == self.stack_pointer,
    {
        self.stack_pointer
    }

    // Status flag getters and setters.

    pub fn carry(&self) -> (r: bool)
        ensures
            r == self.carry,
    {
        self.carry
    }

    pub fn set_carry(&mut self, value: bool)
        ensures
            *final(self) == (CpuRegisters { carry: value, ..*old(self) }),
    {
        self.carry = value;
    }

    pub fn zero(&self) -> (r: bool)
        ensures
            r == self.zero,
    {
        self.zero
    }

    pub fn set_zero(&mut self, value: bool)
        ensures
            *final(self) == (CpuRegisters { zero: value, ..*old(self) }),
    {
        self.zero = value;
    }

    pub fn interrupt_disable(&self) -> (r: bool)
        ensures
            r == self.interrupt_disable,
    {
        self.interrupt_disable
    }

    pub fn set_interrupt_disable(&mut self, value: bool)
        ensures
            *final(self) == (CpuRegisters { interrupt_disable: value, ..*old(self) }),
    {
        self.interrupt_disable = value;
    }

    pub fn decimal(&self) -> (r: bool)
        ensures
            r == self.decimal,
    {
        self.decimal
    }

    pub fn set_decimal(&mut self, value: bool)
        ensures
            *final(self) == (CpuRegisters { decimal: value, ..*old(self) }),
    {
        self.decimal = value;
    }

    pub fn overflow(&self) -> (r: bool)
        ensures
            r == self.overflow,
    {
        self.overflow
    }

    pub fn set_overflow(&mut self, value: bool)
        ensures
            *final(self) == (CpuRegisters { overflow: value, ..*old(self) }),
    {
        self.overflow = value;
    }

    pub fn negative(&self) -> (r: bool)
        ensures
            r == self.negative,
    {
        self.negative
    }

    pub fn set_negative(&mut self, value: bool)
        ensures
            *final(self) == (CpuRegisters { negative: value, ..*old(self) }),
    {
        self.negative = value;
    }

    /// The status byte for a stack push: bit 5 is always 1, bit 4 carries
    /// `is_break` (1 for BRK/PHP, 0 for IRQ/NMI).
    pub fn status_for_stack_push(&self, is_break: bool) -> (r: u8)
        ensures
            r == spec_status_byte(*self, is_break),
            r & 0x20 != 0,
            (r & 0x10 != 0) == is_break,
    {
        let c: u8 = if self.carry {
            1
        } else {
            0
        };
        let z: u8 = if self.zero {
            1
        } else {
            0
        };
        let i: u8 = if self.interrupt_disable {
            1
        } else {
            0
        };
        let d: u8 = if self.decimal {
            1
        } else {
            0
        };
        let b: u8 = if is_break {
            1
        } else {
            0
        };
        let v: u8 = if self.overflow {
            1
        } else {
            0
        };
        let n: u8 = if self.negative {
            1
        } else {
            0
        };
        proof {
            lemma_status_byte_bits(c, z, i, d, b, v, n);
        }
        c | (z << 1) | (i << 2) | (d << 3) | (b << 4) | 0x20 | (v << 6) | (n << 7)
    }

    /// Install the six stored flags from a byte popped off the stack,
    /// discarding its B bit and bit 5.
    pub fn set_status_from_stack_pop(&mut self, value: u8)
        ensures
            *final(self) == spec_regs_after_status_pop(*old(self), value),
    {
        self.carry = value & 0x01 != 0;
        self.zero = value & 0x02 != 0;
        self.interrupt_disable = value & 0x04 != 0;
        self.decimal = value & 0x08 != 0;
        self.overflow = value & 0x40 != 0;
        self.negative = value & 0x80 != 0;
    }

    /// S wraps with 8-bit arithmetic.
    pub fn decrement_sp(&mut self)
        ensures
            *final(self) == (CpuRegisters {
                stack_pointer: old(self).stack_pointer.wrapping_sub(1),
                ..*old(self)
            }),
    {
        self.stack_pointer = self.stack_pointer.wrapping_sub(1);
    }

    pub fn increment_sp(&mut self)
        ensures
            *final(self) == (CpuRegisters {
                stack_pointer: old(self).stack_pointer.wrapping_add(1),
                ..*old(self)
            }),
    {
        self.stack_pointer = self.stack_pointer.wrapping_add(1);
    }

    /// PC wraps with 16-bit arithmetic.
    pub fn increment_pc(&mut self)
        ensures
            *final(self) == (CpuRegisters {
                program_counter: old(self).program_counter.wrapping_add(1),
                ..*old(self)
            }),
    {
        self.program_counter = self.program_counter.wrapping_add(1);
    }
}

} // verus!
