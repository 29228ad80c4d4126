//! The 256-entry opcode decoding table: every official opcode and the
//! unofficial ones of the complete 151-mnemonic set (SLO, RLA, SRE, RRA,
//! SAX, LAX, DCP, ISC, ANC, ALR, ARR, AXS, LAS, XAA, AHX, TAS, SHX, SHY,
//! the multi-byte NOPs, and KIL/JAM).
//!
//! Base cycle counts follow the convention that the address resolver adds
//! the variable costs on top: one cycle for a page cross on read-class
//! opcodes under AbsoluteX/AbsoluteY/IndirectY (the `page_cross_penalty`
//! entries), always one cycle for store-class opcodes under those modes,
//! and one or two cycles for taken branches. The table is pure data; the
//! spec-level copy below is its mathematical statement, and the decoder is
//! proved to match it entry by entry.

use vstd::prelude::*;

verus! {

/// The thirteen 6502 addressing modes.
#[derive(Clone, Copy, PartialEq, Eq, Structural, Debug)]
pub enum AddressingMode {
    ZeroPage,
    ZeroPageX,
    ZeroPageY,
    Absolute,
    AbsoluteX,
    AbsoluteY,
    Indirect,
    IndirectX,
    IndirectY,
    Implicit,
    Accumulator,
    Immediate,
    Relative,
}

/// Every mnemonic of the full opcode set, official and unofficial.
#[derive(Clone, Copy, PartialEq, Eq, Structural, Debug)]
pub enum Mnemonic {
    Adc,
    Ahx,
    Alr,
    Anc,
    And,
    Arr,
    Asl,
    Axs,
    Bcc,
    Bcs,
    Beq,
    Bit,
    Bmi,
    Bne,
    Bpl,
    Brk,
    Bvc,
    Bvs,
    Clc,
    Cld,
    Cli,
    Clv,
    Cmp,
    Cpx,
    Cpy,
    Dcp,
    Dec,
    Dex,
    Dey,
    Eor,
    Inc,
    Inx,
    Iny,
    Isc,
    Jmp,
    Jsr,
    Kil,
    Las,
    Lax,
    Lda,
    Ldx,
    Ldy,
    Lsr,
    Nop,
    Ora,
    Pha,
    Php,
    Pla,
    Plp,
    Rla,
    Rol,
    Ror,
    Rra,
    Rti,
    Rts,
    Sax,
    Sbc,
    Sec,
    Sed,
    Sei,
    Shx,
    Shy,
    Slo,
    Sre,
    Sta,
    Stx,
    Sty,
    Tas,
    Tax,
    Tay,
    Tsx,
    Txa,
    Txs,
    Tya,
    Xaa,
}

impl Mnemonic {
    /// The conventional assembler name, for the debugger shell.
    pub fn name(&self) -> (r: &'static str)
        ensures
            r@ == match *self {
                Mnemonic::Adc => "ADC"@,
                Mnemonic::Ahx => "AHX"@,
                Mnemonic::Alr => "ALR"@,
                Mnemonic::Anc => "ANC"@,
                Mnemonic::And => "AND"@,
                Mnemonic::Arr => "ARR"@,
                Mnemonic::Asl => "ASL"@,
                Mnemonic::Axs => "AXS"@,
                Mnemonic::Bcc => "BCC"@,
                Mnemonic::Bcs => "BCS"@,
                Mnemonic::Beq => "BEQ"@,
                Mnemonic::Bit => "BIT"@,
                Mnemonic::Bmi => "BMI"@,
                Mnemonic::Bne => "BNE"@,
                Mnemonic::Bpl => "BPL"@,
                Mnemonic::Brk => "BRK"@,
                Mnemonic::Bvc => "BVC"@,
                Mnemonic::Bvs => "BVS"@,
                Mnemonic::Clc => "CLC"@,
                Mnemonic::Cld => "CLD"@,
                Mnemonic::Cli => "CLI"@,
                Mnemonic::Clv => "CLV"@,
                Mnemonic::Cmp => "CMP"@,
                Mnemonic::Cpx => "CPX"@,
                Mnemonic::Cpy => "CPY"@,
                Mnemonic::Dcp => "DCP"@,
                Mnemonic::Dec => "DEC"@,
                Mnemonic::Dex => "DEX"@,
                Mnemonic::Dey => "DEY"@,
                Mnemonic::Eor => "EOR"@,
                Mnemonic::Inc => "INC"@,
                Mnemonic::Inx => "INX"@,
                Mnemonic::Iny => "INY"@,
                Mnemonic::Isc => "ISC"@,
                Mnemonic::Jmp => "JMP"@,
                Mnemonic::Jsr => "JSR"@,
                Mnemonic::Kil => "KIL"@,
                Mnemonic::Las => "LAS"@,
                Mnemonic::Lax => "LAX"@,
                Mnemonic::Lda => "LDA"@,
                Mnemonic::Ldx => "LDX"@,
                Mnemonic::Ldy => "LDY"@,
                Mnemonic::Lsr => "LSR"@,
                Mnemonic::Nop => "NOP"@,
                Mnemonic::Ora => "ORA"@,
                Mnemonic::Pha => "PHA"@,
                Mnemonic::Php => "PHP"@,
                Mnemonic::Pla => "PLA"@,
                Mnemonic::Plp => "PLP"@,
                Mnemonic::Rla => "RLA"@,
                Mnemonic::Rol => "ROL"@,
                Mnemonic::Ror => "ROR"@,
                Mnemonic::Rra => "RRA"@,
                Mnemonic::Rti => "RTI"@,
                Mnemonic::Rts => "RTS"@,
                Mnemonic::Sax => "SAX"@,
                Mnemonic::Sbc => "SBC"@,
                Mnemonic::Sec => "SEC"@,
                Mnemonic::Sed => "SED"@,
                Mnemonic::Sei => "SEI"@,
                Mnemonic::Shx => "SHX"@,
                Mnemonic::Shy => "SHY"@,
                Mnemonic::Slo => "SLO"@,
                Mnemonic::Sre => "SRE"@,
                Mnemonic::Sta => "STA"@,
                Mnemonic::Stx => "STX"@,
                Mnemonic::Sty => "STY"@,
                Mnemonic::Tas => "TAS"@,
                Mnemonic::Tax => "TAX"@,
                Mnemonic::Tay => "TAY"@,
                Mnemonic::Tsx => "TSX"@,
                Mnemonic::Txa => "TXA"@,
                Mnemonic::Txs => "TXS"@,
                Mnemonic::Tya => "TYA"@,
                Mnemonic::Xaa => "XAA"@,
            },
    {
        match *self {
            Mnemonic::Adc => "ADC",
            Mnemonic::Ahx => "AHX",
            Mnemonic::Alr => "ALR",
            Mnemonic::Anc => "ANC",
            Mnemonic::And => "AND",
            Mnemonic::Arr => "ARR",
            Mnemonic::Asl => "ASL",
            Mnemonic::Axs => "AXS",
            Mnemonic::Bcc => "BCC",
            Mnemonic::Bcs => "BCS",
            Mnemonic::Beq => "BEQ",
            Mnemonic::Bit => "BIT",
            Mnemonic::Bmi => "BMI",
            Mnemonic::Bne => "BNE",
            Mnemonic::Bpl => "BPL",
            Mnemonic::Brk => "BRK",
            Mnemonic::Bvc => "BVC",
            Mnemonic::Bvs => "BVS",
            Mnemonic::Clc => "CLC",
            Mnemonic::Cld => "CLD",
            Mnemonic::Cli => "CLI",
            Mnemonic::Clv => "CLV",
            Mnemonic::Cmp => "CMP",
            Mnemonic::Cpx => "CPX",
            Mnemonic::Cpy => "CPY",
            Mnemonic::Dcp => "DCP",
            Mnemonic::Dec => "DEC",
            Mnemonic::Dex => "DEX",
            Mnemonic::Dey => "DEY",
            Mnemonic::Eor => "EOR",
            Mnemonic::Inc => "INC",
            Mnemonic::Inx => "INX",
            Mnemonic::Iny => "INY",
            Mnemonic::Isc => "ISC",
            Mnemonic::Jmp => "JMP",
            Mnemonic::Jsr => "JSR",
            Mnemonic::Kil => "KIL",
            Mnemonic::Las => "LAS",
            Mnemonic::Lax => "LAX",
            Mnemonic::Lda => "LDA",
            Mnemonic::Ldx => "LDX",
            Mnemonic::Ldy => "LDY",
            Mnemonic::Lsr => "LSR",
            Mnemonic::Nop => "NOP",
            Mnemonic::Ora => "ORA",
            Mnemonic::Pha => "PHA",
            Mnemonic::Php => "PHP",
            Mnemonic::Pla => "PLA",
            Mnemonic::Plp => "PLP",
            Mnemonic::Rla => "RLA",
            Mnemonic::Rol => "ROL",
            Mnemonic::Ror => "ROR",
            Mnemonic::Rra => "RRA",
            Mnemonic::Rti => "RTI",
            Mnemonic::Rts => "RTS",
            Mnemonic::Sax => "SAX",
            Mnemonic::Sbc => "SBC",
            Mnemonic::Sec => "SEC",
            Mnemonic::Sed => "SED",
            Mnemonic::Sei => "SEI",
            Mnemonic::Shx => "SHX",
            Mnemonic::Shy => "SHY",
            Mnemonic::Slo => "SLO",
            Mnemonic::Sre => "SRE",
            Mnemonic::Sta => "STA",
            Mnemonic::Stx => "STX",
            Mnemonic::Sty => "STY",
            Mnemonic::Tas => "TAS",
            Mnemonic::Tax => "TAX",
            Mnemonic::Tay => "TAY",
            Mnemonic::Tsx => "TSX",
            Mnemonic::Txa => "TXA",
            Mnemonic::Txs => "TXS",
            Mnemonic::Tya => "TYA",
            Mnemonic::Xaa => "XAA",
        }
    }
}

/// One entry of the decoding table.
#[derive(Clone, Copy, PartialEq, Eq, Structural, Debug)]
pub struct OpcodeRecord {
    pub mnemonic: Mnemonic,
    /// Base cycle count; the resolver and the branch helper add the
    /// variable costs.
    pub cycles: u8,
    pub mode: AddressingMode,
    /// Whether this opcode can incur the one-cycle read-class page-cross
    /// penalty (or, for branches, the taken/page-cross extra cycles).
    pub page_cross_penalty: bool,
}

/// The decoding table as a function: what each opcode byte decodes to.
pub open spec fn spec_decode(op: u8) -> OpcodeRecord {
    match op {
        0x00 => OpcodeRecord { mnemonic: Mnemonic::Brk, cycles: 7, mode: AddressingMode::Implicit, page_cross_penalty: false },
        0x01 => OpcodeRecord { mnemonic: Mnemonic::Ora, cycles: 6, mode: AddressingMode::IndirectX, page_cross_penalty: false },
        0x02 => OpcodeRecord { mnemonic: Mnemonic::Kil, cycles: 2, mode: AddressingMode::Implicit, page_cross_penalty: false },
        0x03 => OpcodeRecord { mnemonic: Mnemonic::Slo, cycles: 8, mode: AddressingMode::IndirectX, page_cross_penalty: false },
        0x04 => OpcodeRecord { mnemonic: Mnemonic::Nop, cycles: 3, mode: AddressingMode::ZeroPage, page_cross_penalty: false },
        0x05 => OpcodeRecord { mnemonic: Mnemonic::Ora, cycles: 3, mode: AddressingMode::ZeroPage, page_cross_penalty: false },
        0x06 => OpcodeRecord { mnemonic: Mnemonic::Asl, cycles: 5, mode: AddressingMode::ZeroPage, page_cross_penalty: false },
        0x07 => OpcodeRecord { mnemonic: Mnemonic::Slo, cycles: 5, mode: AddressingMode::ZeroPage, page_cross_penalty: false },
        0x08 => OpcodeRecord { mnemonic: Mnemonic::Php, cycles: 3, mode: AddressingMode::Implicit, page_cross_penalty: false },
        0x09 => OpcodeRecord { mnemonic: Mnemonic::Ora, cycles: 2, mode: AddressingMode::Immediate, page_cross_penalty: false },
        0x0A => OpcodeRecord { mnemonic: Mnemonic::Asl, cycles: 2, mode: AddressingMode::Accumulator, page_cross_penalty: false },
        0x0B => OpcodeRecord { mnemonic: Mnemonic::Anc, cycles: 2, mode: AddressingMode::Immediate, page_cross_penalty: false },
        0x0C => OpcodeRecord { mnemonic: Mnemonic::Nop, cycles: 4, mode: AddressingMode::Absolute, page_cross_penalty: false },
        0x0D => OpcodeRecord { mnemonic: Mnemonic::Ora, cycles: 4, mode: AddressingMode::Absolute, page_cross_penalty: false },
        0x0E => OpcodeRecord { mnemonic: Mnemonic::Asl, cycles: 6, mode: AddressingMode::Absolute, page_cross_penalty: false },
        0x0F => OpcodeRecord { mnemonic: Mnemonic::Slo, cycles: 6, mode: AddressingMode::Absolute, page_cross_penalty: false },
        0x10 => OpcodeRecord { mnemonic: Mnemonic::Bpl, cycles: 2, mode: AddressingMode::Relative, page_cross_penalty: true },
        0x11 => OpcodeRecord { mnemonic: Mnemonic::Ora, cycles: 5, mode: AddressingMode::IndirectY, page_cross_penalty: true },
        0x12 => OpcodeRecord { mnemonic: Mnemonic::Kil, cycles: 2, mode: AddressingMode::Implicit, page_cross_penalty: false },
        0x13 => OpcodeRecord { mnemonic: Mnemonic::Slo, cycles: 8, mode: AddressingMode::IndirectY, page_cross_penalty: true },
        0x14 => OpcodeRecord { mnemonic: Mnemonic::Nop, cycles: 4, mode: AddressingMode::ZeroPageX, page_cross_penalty: false },
        0x15 => OpcodeRecord { mnemonic: Mnemonic::Ora, cycles: 4, mode: AddressingMode::ZeroPageX, page_cross_penalty: false },
        0x16 => OpcodeRecord { mnemonic: Mnemonic::Asl, cycles: 6, mode: AddressingMode::ZeroPageX, page_cross_penalty: false },
        0x17 => OpcodeRecord { mnemonic: Mnemonic::Slo, cycles: 6, mode: AddressingMode::ZeroPageX, page_cross_penalty: false },
        0x18 => OpcodeRecord { mnemonic: Mnemonic::Clc, cycles: 2, mode: AddressingMode::Implicit, page_cross_penalty: false },
        0x19 => OpcodeRecord { mnemonic: Mnemonic::Ora, cycles: 4, mode: AddressingMode::AbsoluteY, page_cross_penalty: true },
        0x1A => OpcodeRecord { mnemonic: Mnemonic::Nop, cycles: 2, mode: AddressingMode::Implicit, page_cross_penalty: false },
        0x1B => OpcodeRecord { mnemonic: Mnemonic::Slo, cycles: 7, mode: AddressingMode::AbsoluteY, page_cross_penalty: true },
        0x1C => OpcodeRecord { mnemonic: Mnemonic::Nop, cycles: 4, mode: AddressingMode::AbsoluteX, page_cross_penalty: true },
        0x1D => OpcodeRecord { mnemonic: Mnemonic::Ora, cycles: 4, mode: AddressingMode::AbsoluteX, page_cross_penalty: true },
        0x1E => OpcodeRecord { mnemonic: Mnemonic::Asl, cycles: 7, mode: AddressingMode::AbsoluteX, page_cross_penalty: true },
        0x1F => OpcodeRecord { mnemonic: Mnemonic::Slo, cycles: 7, mode: AddressingMode::AbsoluteX, page_cross_penalty: true },
        0x20 => OpcodeRecord { mnemonic: Mnemonic::Jsr, cycles: 6, mode: AddressingMode::Absolute, page_cross_penalty: false },
        0x21 => OpcodeRecord { mnemonic: Mnemonic::And, cycles: 6, mode: AddressingMode::IndirectX, page_cross_penalty: false },
        0x22 => OpcodeRecord { mnemonic: Mnemonic::Kil, cycles: 2, mode: AddressingMode::Implicit, page_cross_penalty: false },
        0x23 => OpcodeRecord { mnemonic: Mnemonic::Rla, cycles: 8, mode: AddressingMode::IndirectX, page_cross_penalty: false },
        0x24 => OpcodeRecord { mnemonic: Mnemonic::Bit, cycles: 3, mode: AddressingMode::ZeroPage, page_cross_penalty: false },
        0x25 => OpcodeRecord { mnemonic: Mnemonic::And, cycles: 3, mode: AddressingMode::ZeroPage, page_cross_penalty: false },
        0x26 => OpcodeRecord { mnemonic: Mnemonic::Rol, cycles: 5, mode: AddressingMode::ZeroPage, page_cross_penalty: false },
        0x27 => OpcodeRecord { mnemonic: Mnemonic::Rla, cycles: 5, mode: AddressingMode::ZeroPage, page_cross_penalty: false },
        0x28 => OpcodeRecord { mnemonic: Mnemonic::Plp, cycles: 4, mode: AddressingMode::Implicit, page_cross_penalty: false },
        0x29 => OpcodeRecord { mnemonic: Mnemonic::And, cycles: 2, mode: AddressingMode::Immediate, page_cross_penalty: false },
        0x2A => OpcodeRecord { mnemonic: Mnemonic::Rol, cycles: 2, mode: AddressingMode::Accumulator, page_cross_penalty: false },
        0x2B => OpcodeRecord { mnemonic: Mnemonic::Anc, cycles: 2, mode: AddressingMode::Immediate, page_cross_penalty: false },
        0x2C => OpcodeRecord { mnemonic: Mnemonic::Bit, cycles: 4, mode: AddressingMode::Absolute, page_cross_penalty: false },
        0x2D => OpcodeRecord { mnemonic: Mnemonic::And, cycles: 4, mode: AddressingMode::Absolute, page_cross_penalty: false },
        0x2E => OpcodeRecord { mnemonic: Mnemonic::Rol, cycles: 6, mode: AddressingMode::Absolute, page_cross_penalty: false },
        0x2F => OpcodeRecord { mnemonic: Mnemonic::Rla, cycles: 6, mode: AddressingMode::Absolute, page_cross_penalty: false },
        0x30 => OpcodeRecord { mnemonic: Mnemonic::Bmi, cycles: 2, mode: AddressingMode::Relative, page_cross_penalty: true },
        0x31 => OpcodeRecord { mnemonic: Mnemonic::And, cycles: 5, mode: AddressingMode::IndirectY, page_cross_penalty: true },
        0x32 => OpcodeRecord { mnemonic: Mnemonic::Kil, cycles: 2, mode: AddressingMode::Implicit, page_cross_penalty: false },
        0x33 => OpcodeRecord { mnemonic: Mnemonic::Rla, cycles: 8, mode: AddressingMode::IndirectY, page_cross_penalty: true },
        0x34 => OpcodeRecord { mnemonic: Mnemonic::Nop, cycles: 4, mode: AddressingMode::ZeroPageX, page_cross_penalty: false },
        0x35 => OpcodeRecord { mnemonic: Mnemonic::And, cycles: 4, mode: AddressingMode::ZeroPageX, page_cross_penalty: false },
        0x36 => OpcodeRecord { mnemonic: Mnemonic::Rol, cycles: 6, mode: AddressingMode::ZeroPageX, page_cross_penalty: false },
        0x37 => OpcodeRecord { mnemonic: Mnemonic::Rla, cycles: 6, mode: AddressingMode::ZeroPageX, page_cross_penalty: false },
        0x38 => OpcodeRecord { mnemonic: Mnemonic::Sec, cycles: 2, mode: AddressingMode::Implicit, page_cross_penalty: false },
        0x39 => OpcodeRecord { mnemonic: Mnemonic::And, cycles: 4, mode: AddressingMode::AbsoluteY, page_cross_penalty: true },
        0x3A => OpcodeRecord { mnemonic: Mnemonic::Nop, cycles: 2, mode: AddressingMode::Implicit, page_cross_penalty: false },
        0x3B => OpcodeRecord { mnemonic: Mnemonic::Rla, cycles: 7, mode: AddressingMode::AbsoluteY, page_cross_penalty: true },
        0x3C => OpcodeRecord { mnemonic: Mnemonic::Nop, cycles: 4, mode: AddressingMode::AbsoluteX, page_cross_penalty: true },
        0x3D => OpcodeRecord { mnemonic: Mnemonic::And, cycles: 4, mode: AddressingMode::AbsoluteX, page_cross_penalty: true },
        0x3E => OpcodeRecord { mnemonic: Mnemonic::Rol, cycles: 7, mode: AddressingMode::AbsoluteX, page_cross_penalty: true },
        0x3F => OpcodeRecord { mnemonic: Mnemonic::Rla, cycles: 7, mode: AddressingMode::AbsoluteX, page_cross_penalty: true },
        0x40 => OpcodeRecord { mnemonic: Mnemonic::Rti, cycles: 6, mode: AddressingMode::Implicit, page_cross_penalty: false },
        0x41 => OpcodeRecord { mnemonic: Mnemonic::Eor, cycles: 6, mode: AddressingMode::IndirectX, page_cross_penalty: false },
        0x42 => OpcodeRecord { mnemonic: Mnemonic::Kil, cycles: 2, mode: AddressingMode::Implicit, page_cross_penalty: false },
        0x43 => OpcodeRecord { mnemonic: Mnemonic::Sre, cycles: 8, mode: AddressingMode::IndirectX, page_cross_penalty: false },
        0x44 => OpcodeRecord { mnemonic: Mnemonic::Nop, cycles: 3, mode: AddressingMode::ZeroPage, page_cross_penalty: false },
        0x45 => OpcodeRecord { mnemonic: Mnemonic::Eor, cycles: 3, mode: AddressingMode::ZeroPage, page_cross_penalty: false },
        0x46 => OpcodeRecord { mnemonic: Mnemonic::Lsr, cycles: 5, mode: AddressingMode::ZeroPage, page_cross_penalty: false },
        0x47 => OpcodeRecord { mnemonic: Mnemonic::Sre, cycles: 5, mode: AddressingMode::ZeroPage, page_cross_penalty: false },
        0x48 => OpcodeRecord { mnemonic: Mnemonic::Pha, cycles: 3, mode: AddressingMode::Implicit, page_cross_penalty: false },
        0x49 => OpcodeRecord { mnemonic: Mnemonic::Eor, cycles: 2, mode: AddressingMode::Immediate, page_cross_penalty: false },
        0x4A => OpcodeRecord { mnemonic: Mnemonic::Lsr, cycles: 2, mode: AddressingMode::Accumulator, page_cross_penalty: false },
        0x4B => OpcodeRecord { mnemonic: Mnemonic::Alr, cycles: 2, mode: AddressingMode::Immediate, page_cross_penalty: false },
        0x4C => OpcodeRecord { mnemonic: Mnemonic::Jmp, cycles: 3, mode: AddressingMode::Absolute, page_cross_penalty: false },
        0x4D => OpcodeRecord { mnemonic: Mnemonic::Eor, cycles: 4, mode: AddressingMode::Absolute, page_cross_penalty: false },
        0x4E => OpcodeRecord { mnemonic: Mnemonic::Lsr, cycles: 6, mode: AddressingMode::Absolute, page_cross_penalty: false },
        0x4F => OpcodeRecord { mnemonic: Mnemonic::Sre, cycles: 6, mode: AddressingMode::Absolute, page_cross_penalty: false },
        0x50 => OpcodeRecord { mnemonic: Mnemonic::Bvc, cycles: 2, mode: AddressingMode::Relative, page_cross_penalty: true },
        0x51 => OpcodeRecord { mnemonic: Mnemonic::Eor, cycles: 5, mode: AddressingMode::IndirectY, page_cross_penalty: true },
        0x52 => OpcodeRecord { mnemonic: Mnemonic::Kil, cycles: 2, mode: AddressingMode::Implicit, page_cross_penalty: false },
        0x53 => OpcodeRecord { mnemonic: Mnemonic::Sre, cycles: 8, mode: AddressingMode::IndirectY, page_cross_penalty: true },
        0x54 => OpcodeRecord { mnemonic: Mnemonic::Nop, cycles: 4, mode: AddressingMode::ZeroPageX, page_cross_penalty: false },
        0x55 => OpcodeRecord { mnemonic: Mnemonic::Eor, cycles: 4, mode: AddressingMode::ZeroPageX, page_cross_penalty: false },
        0x56 => OpcodeRecord { mnemonic: Mnemonic::Lsr, cycles: 6, mode: AddressingMode::ZeroPageX, page_cross_penalty: false },
        0x57 => OpcodeRecord { mnemonic: Mnemonic::Sre, cycles: 6, mode: AddressingMode::ZeroPageX, page_cross_penalty: false },
        0x58 => OpcodeRecord { mnemonic: Mnemonic::Cli, cycles: 2, mode: AddressingMode::Implicit, page_cross_penalty: false },
        0x59 => OpcodeRecord { mnemonic: Mnemonic::Eor, cycles: 4, mode: AddressingMode::AbsoluteY, page_cross_penalty: true },
        0x5A => OpcodeRecord { mnemonic: Mnemonic::Nop, cycles: 2, mode: AddressingMode::Implicit, page_cross_penalty: false },
        0x5B => OpcodeRecord { mnemonic: Mnemonic::Sre, cycles: 7, mode: AddressingMode::AbsoluteY, page_cross_penalty: true },
        0x5C => OpcodeRecord { mnemonic: Mnemonic::Nop, cycles: 4, mode: AddressingMode::AbsoluteX, page_cross_penalty: true },
        0x5D => OpcodeRecord { mnemonic: Mnemonic::Eor, cycles: 4, mode: AddressingMode::AbsoluteX, page_cross_penalty: true },
        0x5E => OpcodeRecord { mnemonic: Mnemonic::Lsr, cycles: 7, mode: AddressingMode::AbsoluteX, page_cross_penalty: true },
        0x5F => OpcodeRecord { mnemonic: Mnemonic::Sre, cycles: 7, mode: AddressingMode::AbsoluteX, page_cross_penalty: true },
        0x60 => OpcodeRecord { mnemonic: Mnemonic::Rts, cycles: 6, mode: AddressingMode::Implicit, page_cross_penalty: false },
        0x61 => OpcodeRecord { mnemonic: Mnemonic::Adc, cycles: 6, mode: AddressingMode::IndirectX, page_cross_penalty: false },
        0x62 => OpcodeRecord { mnemonic: Mnemonic::Kil, cycles: 2, mode: AddressingMode::Implicit, page_cross_penalty: false },
        0x63 => OpcodeRecord { mnemonic: Mnemonic::Rra, cycles: 8, mode: AddressingMode::IndirectX, page_cross_penalty: false },
        0x64 => OpcodeRecord { mnemonic: Mnemonic::Nop, cycles: 3, mode: AddressingMode::ZeroPage, page_cross_penalty: false },
        0x65 => OpcodeRecord { mnemonic: Mnemonic::Adc, cycles: 3, mode: AddressingMode::ZeroPage, page_cross_penalty: false },
        0x66 => OpcodeRecord { mnemonic: Mnemonic::Ror, cycles: 5, mode: AddressingMode::ZeroPage, page_cross_penalty: false },
        0x67 => OpcodeRecord { mnemonic: Mnemonic::Rra, cycles: 5, mode: AddressingMode::ZeroPage, page_cross_penalty: false },
        0x68 => OpcodeRecord { mnemonic: Mnemonic::Pla, cycles: 4, mode: AddressingMode::Implicit, page_cross_penalty: false },
        0x69 => OpcodeRecord { mnemonic: Mnemonic::Adc, cycles: 2, mode: AddressingMode::Immediate, page_cross_penalty: false },
        0x6A => OpcodeRecord { mnemonic: Mnemonic::Ror, cycles: 2, mode: AddressingMode::Accumulator, page_cross_penalty: false },
        0x6B => OpcodeRecord { mnemonic: Mnemonic::Arr, cycles: 2, mode: AddressingMode::Immediate, page_cross_penalty: false },
        0x6C => OpcodeRecord { mnemonic: Mnemonic::Jmp, cycles: 5, mode: AddressingMode::Indirect, page_cross_penalty: false },
        0x6D => OpcodeRecord { mnemonic: Mnemonic::Adc, cycles: 4, mode: AddressingMode::Absolute, page_cross_penalty: false },
        0x6E => OpcodeRecord { mnemonic: Mnemonic::Ror, cycles: 6, mode: AddressingMode::Absolute, page_cross_penalty: false },
        0x6F => OpcodeRecord { mnemonic: Mnemonic::Rra, cycles: 6, mode: AddressingMode::Absolute, page_cross_penalty: false },
        0x70 => OpcodeRecord { mnemonic: Mnemonic::Bvs, cycles: 2, mode: AddressingMode::Relative, page_cross_penalty: true },
        0x71 => OpcodeRecord { mnemonic: Mnemonic::Adc, cycles: 5, mode: AddressingMode::IndirectY, page_cross_penalty: true },
        0x72 => OpcodeRecord { mnemonic: Mnemonic::Kil, cycles: 2, mode: AddressingMode::Implicit, page_cross_penalty: false },
        0x73 => OpcodeRecord { mnemonic: Mnemonic::Rra, cycles: 8, mode: AddressingMode::IndirectY, page_cross_penalty: true },
        0x74 => OpcodeRecord { mnemonic: Mnemonic::Nop, cycles: 4, mode: AddressingMode::ZeroPageX, page_cross_penalty: false },
        0x75 => OpcodeRecord { mnemonic: Mnemonic::Adc, cycles: 4, mode: AddressingMode::ZeroPageX, page_cross_penalty: false },
        0x76 => OpcodeRecord { mnemonic: Mnemonic::Ror, cycles: 6, mode: AddressingMode::ZeroPageX, page_cross_penalty: false },
        0x77 => OpcodeRecord { mnemonic: Mnemonic::Rra, cycles: 6, mode: AddressingMode::ZeroPageX, page_cross_penalty: false },
        0x78 => OpcodeRecord { mnemonic: Mnemonic::Sei, cycles: 2, mode: AddressingMode::Implicit, page_cross_penalty: false },
        0x79 => OpcodeRecord { mnemonic: Mnemonic::Adc, cycles: 4, mode: AddressingMode::AbsoluteY, page_cross_penalty: true },
        0x7A => OpcodeRecord { mnemonic: Mnemonic::Nop, cycles: 2, mode: AddressingMode::Implicit, page_cross_penalty: false },
        0x7B => OpcodeRecord { mnemonic: Mnemonic::Rra, cycles: 7, mode: AddressingMode::AbsoluteY, page_cross_penalty: true },
        0x7C => OpcodeRecord { mnemonic: Mnemonic::Nop, cycles: 4, mode: AddressingMode::AbsoluteX, page_cross_penalty: true },
        0x7D => OpcodeRecord { mnemonic: Mnemonic::Adc, cycles: 4, mode: AddressingMode::AbsoluteX, page_cross_penalty: true },
        0x7E => OpcodeRecord { mnemonic: Mnemonic::Ror, cycles: 7, mode: AddressingMode::AbsoluteX, page_cross_penalty: true },
        0x7F => OpcodeRecord { mnemonic: Mnemonic::Rra, cycles: 7, mode: AddressingMode::AbsoluteX, page_cross_penalty: true },
        0x80 => OpcodeRecord { mnemonic: Mnemonic::Nop, cycles: 2, mode: AddressingMode::Immediate, page_cross_penalty: false },
        0x81 => OpcodeRecord { mnemonic: Mnemonic::Sta, cycles: 6, mode: AddressingMode::IndirectX, page_cross_penalty: false },
        0x82 => OpcodeRecord { mnemonic: Mnemonic::Nop, cycles: 2, mode: AddressingMode::Immediate, page_cross_penalty: false },
        0x83 => OpcodeRecord { mnemonic: Mnemonic::Sax, cycles: 6, mode: AddressingMode::IndirectX, page_cross_penalty: false },
        0x84 => OpcodeRecord { mnemonic: Mnemonic::Sty, cycles: 3, mode: AddressingMode::ZeroPage, page_cross_penalty: false },
        0x85 => OpcodeRecord { mnemonic: Mnemonic::Sta, cycles: 3, mode: AddressingMode::ZeroPage, page_cross_penalty: false },
        0x86 => OpcodeRecord { mnemonic: Mnemonic::Stx, cycles: 3, mode: AddressingMode::ZeroPage, page_cross_penalty: false },
        0x87 => OpcodeRecord { mnemonic: Mnemonic::Sax, cycles: 3, mode: AddressingMode::ZeroPage, page_cross_penalty: false },
        0x88 => OpcodeRecord { mnemonic: Mnemonic::Dey, cycles: 2, mode: AddressingMode::Implicit, page_cross_penalty: false },
        0x89 => OpcodeRecord { mnemonic: Mnemonic::Nop, cycles: 2, mode: AddressingMode::Immediate, page_cross_penalty: false },
        0x8A => OpcodeRecord { mnemonic: Mnemonic::Txa, cycles: 2, mode: AddressingMode::Implicit, page_cross_penalty: false },
        0x8B => OpcodeRecord { mnemonic: Mnemonic::Xaa, cycles: 2, mode: AddressingMode::Immediate, page_cross_penalty: false },
        0x8C => OpcodeRecord { mnemonic: Mnemonic::Sty, cycles: 4, mode: AddressingMode::Absolute, page_cross_penalty: false },
        0x8D => OpcodeRecord { mnemonic: Mnemonic::Sta, cycles: 4, mode: AddressingMode::Absolute, page_cross_penalty: false },
        0x8E => OpcodeRecord { mnemonic: Mnemonic::Stx, cycles: 4, mode: AddressingMode::Absolute, page_cross_penalty: false },
        0x8F => OpcodeRecord { mnemonic: Mnemonic::Sax, cycles: 4, mode: AddressingMode::Absolute, page_cross_penalty: false },
        0x90 => OpcodeRecord { mnemonic: Mnemonic::Bcc, cycles: 2, mode: AddressingMode::Relative, page_cross_penalty: true },
        0x91 => OpcodeRecord { mnemonic: Mnemonic::Sta, cycles: 5, mode: AddressingMode::IndirectY, page_cross_penalty: false },
        0x92 => OpcodeRecord { mnemonic: Mnemonic::Kil, cycles: 2, mode: AddressingMode::Implicit, page_cross_penalty: false },
        0x93 => OpcodeRecord { mnemonic: Mnemonic::Ahx, cycles: 5, mode: AddressingMode::IndirectY, page_cross_penalty: false },
        0x94 => OpcodeRecord { mnemonic: Mnemonic::Sty, cycles: 4, mode: AddressingMode::ZeroPageX, page_cross_penalty: false },
        0x95 => OpcodeRecord { mnemonic: Mnemonic::Sta, cycles: 4, mode: AddressingMode::ZeroPageX, page_cross_penalty: false },
        0x96 => OpcodeRecord { mnemonic: Mnemonic::Stx, cycles: 4, mode: AddressingMode::ZeroPageY, page_cross_penalty: false },
        0x97 => OpcodeRecord { mnemonic: Mnemonic::Sax, cycles: 4, mode: AddressingMode::ZeroPageY, page_cross_penalty: false },
        0x98 => OpcodeRecord { mnemonic: Mnemonic::Tya, cycles: 2, mode: AddressingMode::Implicit, page_cross_penalty: false },
        0x99 => OpcodeRecord { mnemonic: Mnemonic::Sta, cycles: 4, mode: AddressingMode::AbsoluteY, page_cross_penalty: false },
        0x9A => OpcodeRecord { mnemonic: Mnemonic::Txs, cycles: 2, mode: AddressingMode::Implicit, page_cross_penalty: false },
        0x9B => OpcodeRecord { mnemonic: Mnemonic::Tas, cycles: 4, mode: AddressingMode::AbsoluteY, page_cross_penalty: false },
        0x9C => OpcodeRecord { mnemonic: Mnemonic::Shy, cycles: 4, mode: AddressingMode::AbsoluteX, page_cross_penalty: false },
        0x9D => OpcodeRecord { mnemonic: Mnemonic::Sta, cycles: 4, mode: AddressingMode::AbsoluteX, page_cross_penalty: false },
        0x9E => OpcodeRecord { mnemonic: Mnemonic::Shx, cycles: 4, mode: AddressingMode::AbsoluteY, page_cross_penalty: false },
        0x9F => OpcodeRecord { mnemonic: Mnemonic::Ahx, cycles: 4, mode: AddressingMode::AbsoluteY, page_cross_penalty: false },
        0xA0 => OpcodeRecord { mnemonic: Mnemonic::Ldy, cycles: 2, mode: AddressingMode::Immediate, page_cross_penalty: false },
        0xA1 => OpcodeRecord { mnemonic: Mnemonic::Lda, cycles: 6, mode: AddressingMode::IndirectX, page_cross_penalty: false },
        0xA2 => OpcodeRecord { mnemonic: Mnemonic::Ldx, cycles: 2, mode: AddressingMode::Immediate, page_cross_penalty: false },
        0xA3 => OpcodeRecord { mnemonic: Mnemonic::Lax, cycles: 6, mode: AddressingMode::IndirectX, page_cross_penalty: false },
        0xA4 => OpcodeRecord { mnemonic: Mnemonic::Ldy, cycles: 3, mode: AddressingMode::ZeroPage, page_cross_penalty: false },
        0xA5 => OpcodeRecord { mnemonic: Mnemonic::Lda, cycles: 3, mode: AddressingMode::ZeroPage, page_cross_penalty: false },
        0xA6 => OpcodeRecord { mnemonic: Mnemonic::Ldx, cycles: 3, mode: AddressingMode::ZeroPage, page_cross_penalty: false },
        0xA7 => OpcodeRecord { mnemonic: Mnemonic::Lax, cycles: 3, mode: AddressingMode::ZeroPage, page_cross_penalty: false },
        0xA8 => OpcodeRecord { mnemonic: Mnemonic::Tay, cycles: 2, mode: AddressingMode::Implicit, page_cross_penalty: false },
        0xA9 => OpcodeRecord { mnemonic: Mnemonic::Lda, cycles: 2, mode: AddressingMode::Immediate, page_cross_penalty: false },
        0xAA => OpcodeRecord { mnemonic: Mnemonic::Tax, cycles: 2, mode: AddressingMode::Implicit, page_cross_penalty: false },
        0xAB => OpcodeRecord { mnemonic: Mnemonic::Lax, cycles: 2, mode: AddressingMode::Immediate, page_cross_penalty: false },
        0xAC => OpcodeRecord { mnemonic: Mnemonic::Ldy, cycles: 4, mode: AddressingMode::Absolute, page_cross_penalty: false },
        0xAD => OpcodeRecord { mnemonic: Mnemonic::Lda, cycles: 4, mode: AddressingMode::Absolute, page_cross_penalty: false },
        0xAE => OpcodeRecord { mnemonic: Mnemonic::Ldx, cycles: 4, mode: AddressingMode::Absolute, page_cross_penalty: false },
        0xAF => OpcodeRecord { mnemonic: Mnemonic::Lax, cycles: 4, mode: AddressingMode::Absolute, page_cross_penalty: false },
        0xB0 => OpcodeRecord { mnemonic: Mnemonic::Bcs, cycles: 2, mode: AddressingMode::Relative, page_cross_penalty: true },
        0xB1 => OpcodeRecord { mnemonic: Mnemonic::Lda, cycles: 5, mode: AddressingMode::IndirectY, page_cross_penalty: true },
        0xB2 => OpcodeRecord { mnemonic: Mnemonic::Kil, cycles: 2, mode: AddressingMode::Implicit, page_cross_penalty: false },
        0xB3 => OpcodeRecord { mnemonic: Mnemonic::Lax, cycles: 5, mode: AddressingMode::IndirectY, page_cross_penalty: true },
        0xB4 => OpcodeRecord { mnemonic: Mnemonic::Ldy, cycles: 4, mode: AddressingMode::ZeroPageX, page_cross_penalty: false },
        0xB5 => OpcodeRecord { mnemonic: Mnemonic::Lda, cycles: 4, mode: AddressingMode::ZeroPageX, page_cross_penalty: false },
        0xB6 => OpcodeRecord { mnemonic: Mnemonic::Ldx, cycles: 4, mode: AddressingMode::ZeroPageY, page_cross_penalty: false },
        0xB7 => OpcodeRecord { mnemonic: Mnemonic::Lax, cycles: 4, mode: AddressingMode::ZeroPageY, page_cross_penalty: false },
        0xB8 => OpcodeRecord { mnemonic: Mnemonic::Clv, cycles: 2, mode: AddressingMode::Implicit, page_cross_penalty: false },
        0xB9 => OpcodeRecord { mnemonic: Mnemonic::Lda, cycles: 4, mode: AddressingMode::AbsoluteY, page_cross_penalty: true },
        0xBA => OpcodeRecord { mnemonic: Mnemonic::Tsx, cycles: 2, mode: AddressingMode::Implicit, page_cross_penalty: false },
        0xBB => OpcodeRecord { mnemonic: Mnemonic::Las, cycles: 4, mode: AddressingMode::AbsoluteY, page_cross_penalty: true },
        0xBC => OpcodeRecord { mnemonic: Mnemonic::Ldy, cycles: 4, mode: AddressingMode::AbsoluteX, page_cross_penalty: true },
        0xBD => OpcodeRecord { mnemonic: Mnemonic::Lda, cycles: 4, mode: AddressingMode::AbsoluteX, page_cross_penalty: true },
        0xBE => OpcodeRecord { mnemonic: Mnemonic::Ldx, cycles: 4, mode: AddressingMode::AbsoluteY, page_cross_penalty: true },
        0xBF => OpcodeRecord { mnemonic: Mnemonic::Lax, cycles: 4, mode: AddressingMode::AbsoluteY, page_cross_penalty: true },
        0xC0 => OpcodeRecord { mnemonic: Mnemonic::Cpy, cycles: 2, mode: AddressingMode::Immediate, page_cross_penalty: false },
        0xC1 => OpcodeRecord { mnemonic: Mnemonic::Cmp, cycles: 6, mode: AddressingMode::IndirectX, page_cross_penalty: false },
        0xC2 => OpcodeRecord { mnemonic: Mnemonic::Nop, cycles: 2, mode: AddressingMode::Immediate, page_cross_penalty: false },
        0xC3 => OpcodeRecord { mnemonic: Mnemonic::Dcp, cycles: 8, mode: AddressingMode::IndirectX, page_cross_penalty: false },
        0xC4 => OpcodeRecord { mnemonic: Mnemonic::Cpy, cycles: 3, mode: AddressingMode::ZeroPage, page_cross_penalty: false },
        0xC5 => OpcodeRecord { mnemonic: Mnemonic::Cmp, cycles: 3, mode: AddressingMode::ZeroPage, page_cross_penalty: false },
        0xC6 => OpcodeRecord { mnemonic: Mnemonic::Dec, cycles: 5, mode: AddressingMode::ZeroPage, page_cross_penalty: false },
        0xC7 => OpcodeRecord { mnemonic: Mnemonic::Dcp, cycles: 5, mode: AddressingMode::ZeroPage, page_cross_penalty: false },
        0xC8 => OpcodeRecord { mnemonic: Mnemonic::Iny, cycles: 2, mode: AddressingMode::Implicit, page_cross_penalty: false },
        0xC9 => OpcodeRecord { mnemonic: Mnemonic::Cmp, cycles: 2, mode: AddressingMode::Immediate, page_cross_penalty: false },
        0xCA => OpcodeRecord { mnemonic: Mnemonic::Dex, cycles: 2, mode: AddressingMode::Implicit, page_cross_penalty: false },
        0xCB => OpcodeRecord { mnemonic: Mnemonic::Axs, cycles: 2, mode: AddressingMode::Immediate, page_cross_penalty: false },
        0xCC => OpcodeRecord { mnemonic: Mnemonic::Cpy, cycles: 4, mode: AddressingMode::Absolute, page_cross_penalty: false },
        0xCD => OpcodeRecord { mnemonic: Mnemonic::Cmp, cycles: 4, mode: AddressingMode::Absolute, page_cross_penalty: false },
        0xCE => OpcodeRecord { mnemonic: Mnemonic::Dec, cycles: 6, mode: AddressingMode::Absolute, page_cross_penalty: false },
        0xCF => OpcodeRecord { mnemonic: Mnemonic::Dcp, cycles: 6, mode: AddressingMode::Absolute, page_cross_penalty: false },
        0xD0 => OpcodeRecord { mnemonic: Mnemonic::Bne, cycles: 2, mode: AddressingMode::Relative, page_cross_penalty: true },
        0xD1 => OpcodeRecord { mnemonic: Mnemonic::Cmp, cycles: 5, mode: AddressingMode::IndirectY, page_cross_penalty: true },
        0xD2 => OpcodeRecord { mnemonic: Mnemonic::Kil, cycles: 2, mode: AddressingMode::Implicit, page_cross_penalty: false },
        0xD3 => OpcodeRecord { mnemonic: Mnemonic::Dcp, cycles: 8, mode: AddressingMode::IndirectY, page_cross_penalty: true },
        0xD4 => OpcodeRecord { mnemonic: Mnemonic::Nop, cycles: 4, mode: AddressingMode::ZeroPageX, page_cross_penalty: false },
        0xD5 => OpcodeRecord { mnemonic: Mnemonic::Cmp, cycles: 4, mode: AddressingMode::ZeroPageX, page_cross_penalty: false },
        0xD6 => OpcodeRecord { mnemonic: Mnemonic::Dec, cycles: 6, mode: AddressingMode::ZeroPageX, page_cross_penalty: false },
        0xD7 => OpcodeRecord { mnemonic: Mnemonic::Dcp, cycles: 6, mode: AddressingMode::ZeroPageX, page_cross_penalty: false },
        0xD8 => OpcodeRecord { mnemonic: Mnemonic::Cld, cycles: 2, mode: AddressingMode::Implicit, page_cross_penalty: false },
        0xD9 => OpcodeRecord { mnemonic: Mnemonic::Cmp, cycles: 4, mode: AddressingMode::AbsoluteY, page_cross_penalty: true },
        0xDA => OpcodeRecord { mnemonic: Mnemonic::Nop, cycles: 2, mode: AddressingMode::Implicit, page_cross_penalty: false },
        0xDB => OpcodeRecord { mnemonic: Mnemonic::Dcp, cycles: 7, mode: AddressingMode::AbsoluteY, page_cross_penalty: true },
        0xDC => OpcodeRecord { mnemonic: Mnemonic::Nop, cycles: 4, mode: AddressingMode::AbsoluteX, page_cross_penalty: true },
        0xDD => OpcodeRecord { mnemonic: Mnemonic::Cmp, cycles: 4, mode: AddressingMode::AbsoluteX, page_cross_penalty: true },
        0xDE => OpcodeRecord { mnemonic: Mnemonic::Dec, cycles: 7, mode: AddressingMode::AbsoluteX, page_cross_penalty: true },
        0xDF => OpcodeRecord { mnemonic: Mnemonic::Dcp, cycles: 7, mode: AddressingMode::AbsoluteX, page_cross_penalty: true },
        0xE0 => OpcodeRecord { mnemonic: Mnemonic::Cpx, cycles: 2, mode: AddressingMode::Immediate, page_cross_penalty: false },
        0xE1 => OpcodeRecord { mnemonic: Mnemonic::Sbc, cycles: 6, mode: AddressingMode::IndirectX, page_cross_penalty: false },
        0xE2 => OpcodeRecord { mnemonic: Mnemonic::Nop, cycles: 2, mode: AddressingMode::Immediate, page_cross_penalty: false },
        0xE3 => OpcodeRecord { mnemonic: Mnemonic::Isc, cycles: 8, mode: AddressingMode::IndirectX, page_cross_penalty: false },
        0xE4 => OpcodeRecord { mnemonic: Mnemonic::Cpx, cycles: 3, mode: AddressingMode::ZeroPage, page_cross_penalty: false },
        0xE5 => OpcodeRecord { mnemonic: Mnemonic::Sbc, cycles: 3, mode: AddressingMode::ZeroPage, page_cross_penalty: false },
        0xE6 => OpcodeRecord { mnemonic: Mnemonic::Inc, cycles: 5, mode: AddressingMode::ZeroPage, page_cross_penalty: false },
        0xE7 => OpcodeRecord { mnemonic: Mnemonic::Isc, cycles: 5, mode: AddressingMode::ZeroPage, page_cross_penalty: false },
        0xE8 => OpcodeRecord { mnemonic: Mnemonic::Inx, cycles: 2, mode: AddressingMode::Implicit, page_cross_penalty: false },
        0xE9 => OpcodeRecord { mnemonic: Mnemonic::Sbc, cycles: 2, mode: AddressingMode::Immediate, page_cross_penalty: false },
        0xEA => OpcodeRecord { mnemonic: Mnemonic::Nop, cycles: 2, mode: AddressingMode::Implicit, page_cross_penalty: false },
        0xEB => OpcodeRecord { mnemonic: Mnemonic::Sbc, cycles: 2, mode: AddressingMode::Immediate, page_cross_penalty: false },
        0xEC => OpcodeRecord { mnemonic: Mnemonic::Cpx, cycles: 4, mode: AddressingMode::Absolute, page_cross_penalty: false },
        0xED => OpcodeRecord { mnemonic: Mnemonic::Sbc, cycles: 4, mode: AddressingMode::Absolute, page_cross_penalty: false },
        0xEE => OpcodeRecord { mnemonic: Mnemonic::Inc, cycles: 6, mode: AddressingMode::Absolute, page_cross_penalty: false },
        0xEF => OpcodeRecord { mnemonic: Mnemonic::Isc, cycles: 6, mode: AddressingMode::Absolute, page_cross_penalty: false },
        0xF0 => OpcodeRecord { mnemonic: Mnemonic::Beq, cycles: 2, mode: AddressingMode::Relative, page_cross_penalty: true },
        0xF1 => OpcodeRecord { mnemonic: Mnemonic::Sbc, cycles: 5, mode: AddressingMode::IndirectY, page_cross_penalty: true },
        0xF2 => OpcodeRecord { mnemonic: Mnemonic::Kil, cycles: 2, mode: AddressingMode::Implicit, page_cross_penalty: false },
        0xF3 => OpcodeRecord { mnemonic: Mnemonic::Isc, cycles: 8, mode: AddressingMode::IndirectY, page_cross_penalty: true },
        0xF4 => OpcodeRecord { mnemonic: Mnemonic::Nop, cycles: 4, mode: AddressingMode::ZeroPageX, page_cross_penalty: false },
        0xF5 => OpcodeRecord { mnemonic: Mnemonic::Sbc, cycles: 4, mode: AddressingMode::ZeroPageX, page_cross_penalty: false },
        0xF6 => OpcodeRecord { mnemonic: Mnemonic::Inc, cycles: 6, mode: AddressingMode::ZeroPageX, page_cross_penalty: false },
        0xF7 => OpcodeRecord { mnemonic: Mnemonic::Isc, cycles: 6, mode: AddressingMode::ZeroPageX, page_cross_penalty: false },
        0xF8 => OpcodeRecord { mnemonic: Mnemonic::Sed, cycles: 2, mode: AddressingMode::Implicit, page_cross_penalty: false },
        0xF9 => OpcodeRecord { mnemonic: Mnemonic::Sbc, cycles: 4, mode: AddressingMode::AbsoluteY, page_cross_penalty: true },
        0xFA => OpcodeRecord { mnemonic: Mnemonic::Nop, cycles: 2, mode: AddressingMode::Implicit, page_cross_penalty: false },
        0xFB => OpcodeRecord { mnemonic: Mnemonic::Isc, cycles: 7, mode: AddressingMode::AbsoluteY, page_cross_penalty: true },
        0xFC => OpcodeRecord { mnemonic: Mnemonic::Nop, cycles: 4, mode: AddressingMode::AbsoluteX, page_cross_penalty: true },
        0xFD => OpcodeRecord { mnemonic: Mnemonic::Sbc, cycles: 4, mode: AddressingMode::AbsoluteX, page_cross_penalty: true },
        0xFE => OpcodeRecord { mnemonic: Mnemonic::Inc, cycles: 7, mode: AddressingMode::AbsoluteX, page_cross_penalty: true },
        _ => OpcodeRecord { mnemonic: Mnemonic::Isc, cycles: 7, mode: AddressingMode::AbsoluteX, page_cross_penalty: true },
    }
}

/// Decode an opcode byte. Every byte decodes to something: unofficial
/// opcodes are implemented and KIL halts deterministically, so there is no
/// "unknown opcode" error. Every entry owes at least its fetch cycle.
pub fn decode(op: u8) -> (r: OpcodeRecord)
    ensures
        r == spec_decode(op),
        1 <= r.cycles <= 8,
{
    match op {
        0x00 => OpcodeRecord { mnemonic: Mnemonic::Brk, cycles: 7, mode: AddressingMode::Implicit, page_cross_penalty: false },
        0x01 => OpcodeRecord { mnemonic: Mnemonic::Ora, cycles: 6, mode: AddressingMode::IndirectX, page_cross_penalty: false },
        0x02 => OpcodeRecord { mnemonic: Mnemonic::Kil, cycles: 2, mode: AddressingMode::Implicit, page_cross_penalty: false },
        0x03 => OpcodeRecord { mnemonic: Mnemonic::Slo, cycles: 8, mode: AddressingMode::IndirectX, page_cross_penalty: false },
        0x04 => OpcodeRecord { mnemonic: Mnemonic::Nop, cycles: 3, mode: AddressingMode::ZeroPage, page_cross_penalty: false },
        0x05 => OpcodeRecord { mnemonic: Mnemonic::Ora, cycles: 3, mode: AddressingMode::ZeroPage, page_cross_penalty: false },
        0x06 => OpcodeRecord { mnemonic: Mnemonic::Asl, cycles: 5, mode: AddressingMode::ZeroPage, page_cross_penalty: false },
        0x07 => OpcodeRecord { mnemonic: Mnemonic::Slo, cycles: 5, mode: AddressingMode::ZeroPage, page_cross_penalty: false },
        0x08 => OpcodeRecord { mnemonic: Mnemonic::Php, cycles: 3, mode: AddressingMode::Implicit, page_cross_penalty: false },
        0x09 => OpcodeRecord { mnemonic: Mnemonic::Ora, cycles: 2, mode: AddressingMode::Immediate, page_cross_penalty: false },
        0x0A => OpcodeRecord { mnemonic: Mnemonic::Asl, cycles: 2, mode: AddressingMode::Accumulator, page_cross_penalty: false },
        0x0B => OpcodeRecord { mnemonic: Mnemonic::Anc, cycles: 2, mode: AddressingMode::Immediate, page_cross_penalty: false },
        0x0C => OpcodeRecord { mnemonic: Mnemonic::Nop, cycles: 4, mode: AddressingMode::Absolute, page_cross_penalty: false },
        0x0D => OpcodeRecord { mnemonic: Mnemonic::Ora, cycles: 4, mode: AddressingMode::Absolute, page_cross_penalty: false },
        0x0E => OpcodeRecord { mnemonic: Mnemonic::Asl, cycles: 6, mode: AddressingMode::Absolute, page_cross_penalty: false },
        0x0F => OpcodeRecord { mnemonic: Mnemonic::Slo, cycles: 6, mode: AddressingMode::Absolute, page_cross_penalty: false },
        0x10 => OpcodeRecord { mnemonic: Mnemonic::Bpl, cycles: 2, mode: AddressingMode::Relative, page_cross_penalty: true },
        0x11 => OpcodeRecord { mnemonic: Mnemonic::Ora, cycles: 5, mode: AddressingMode::IndirectY, page_cross_penalty: true },
        0x12 => OpcodeRecord { mnemonic: Mnemonic::Kil, cycles: 2, mode: AddressingMode::Implicit, page_cross_penalty: false },
        0x13 => OpcodeRecord { mnemonic: Mnemonic::Slo, cycles: 8, mode: AddressingMode::IndirectY, page_cross_penalty: true },
        0x14 => OpcodeRecord { mnemonic: Mnemonic::Nop, cycles: 4, mode: AddressingMode::ZeroPageX, page_cross_penalty: false },
        0x15 => OpcodeRecord { mnemonic: Mnemonic::Ora, cycles: 4, mode: AddressingMode::ZeroPageX, page_cross_penalty: false },
        0x16 => OpcodeRecord { mnemonic: Mnemonic::Asl, cycles: 6, mode: AddressingMode::ZeroPageX, page_cross_penalty: false },
        0x17 => OpcodeRecord { mnemonic: Mnemonic::Slo, cycles: 6, mode: AddressingMode::ZeroPageX, page_cross_penalty: false },
        0x18 => OpcodeRecord { mnemonic: Mnemonic::Clc, cycles: 2, mode: AddressingMode::Implicit, page_cross_penalty: false },
        0x19 => OpcodeRecord { mnemonic: Mnemonic::Ora, cycles: 4, mode: AddressingMode::AbsoluteY, page_cross_penalty: true },
        0x1A => OpcodeRecord { mnemonic: Mnemonic::Nop, cycles: 2, mode: AddressingMode::Implicit, page_cross_penalty: false },
        0x1B => OpcodeRecord { mnemonic: Mnemonic::Slo, cycles: 7, mode: AddressingMode::AbsoluteY, page_cross_penalty: true },
        0x1C => OpcodeRecord { mnemonic: Mnemonic::Nop, cycles: 4, mode: AddressingMode::AbsoluteX, page_cross_penalty: true },
        0x1D => OpcodeRecord { mnemonic: Mnemonic::Ora, cycles: 4, mode: AddressingMode::AbsoluteX, page_cross_penalty: true },
        0x1E => OpcodeRecord { mnemonic: Mnemonic::Asl, cycles: 7, mode: AddressingMode::AbsoluteX, page_cross_penalty: true },
        0x1F => OpcodeRecord { mnemonic: Mnemonic::Slo, cycles: 7, mode: AddressingMode::AbsoluteX, page_cross_penalty: true },
        0x20 => OpcodeRecord { mnemonic: Mnemonic::Jsr, cycles: 6, mode: AddressingMode::Absolute, page_cross_penalty: false },
        0x21 => OpcodeRecord { mnemonic: Mnemonic::And, cycles: 6, mode: AddressingMode::IndirectX, page_cross_penalty: false },
        0x22 => OpcodeRecord { mnemonic: Mnemonic::Kil, cycles: 2, mode: AddressingMode::Implicit, page_cross_penalty: false },
        0x23 => OpcodeRecord { mnemonic: Mnemonic::Rla, cycles: 8, mode: AddressingMode::IndirectX, page_cross_penalty: false },
        0x24 => OpcodeRecord { mnemonic: Mnemonic::Bit, cycles: 3, mode: AddressingMode::ZeroPage, page_cross_penalty: false },
        0x25 => OpcodeRecord { mnemonic: Mnemonic::And, cycles: 3, mode: AddressingMode::ZeroPage, page_cross_penalty: false },
        0x26 => OpcodeRecord { mnemonic: Mnemonic::Rol, cycles: 5, mode: AddressingMode::ZeroPage, page_cross_penalty: false },
        0x27 => OpcodeRecord { mnemonic: Mnemonic::Rla, cycles: 5, mode: AddressingMode::ZeroPage, page_cross_penalty: false },
        0x28 => OpcodeRecord { mnemonic: Mnemonic::Plp, cycles: 4, mode: AddressingMode::Implicit, page_cross_penalty: false },
        0x29 => OpcodeRecord { mnemonic: Mnemonic::And, cycles: 2, mode: AddressingMode::Immediate, page_cross_penalty: false },
        0x2A => OpcodeRecord { mnemonic: Mnemonic::Rol, cycles: 2, mode: AddressingMode::Accumulator, page_cross_penalty: false },
        0x2B => OpcodeRecord { mnemonic: Mnemonic::Anc, cycles: 2, mode: AddressingMode::Immediate, page_cross_penalty: false },
        0x2C => OpcodeRecord { mnemonic: Mnemonic::Bit, cycles: 4, mode: AddressingMode::Absolute, page_cross_penalty: false },
        0x2D => OpcodeRecord { mnemonic: Mnemonic::And, cycles: 4, mode: AddressingMode::Absolute, page_cross_penalty: false },
        0x2E => OpcodeRecord { mnemonic: Mnemonic::Rol, cycles: 6, mode: AddressingMode::Absolute, page_cross_penalty: false },
        0x2F => OpcodeRecord { mnemonic: Mnemonic::Rla, cycles: 6, mode: AddressingMode::Absolute, page_cross_penalty: false },
        0x30 => OpcodeRecord { mnemonic: Mnemonic::Bmi, cycles: 2, mode: AddressingMode::Relative, page_cross_penalty: true },
        0x31 => OpcodeRecord { mnemonic: Mnemonic::And, cycles: 5, mode: AddressingMode::IndirectY, page_cross_penalty: true },
        0x32 => OpcodeRecord { mnemonic: Mnemonic::Kil, cycles: 2, mode: AddressingMode::Implicit, page_cross_penalty: false },
        0x33 => OpcodeRecord { mnemonic: Mnemonic::Rla, cycles: 8, mode: AddressingMode::IndirectY, page_cross_penalty: true },
        0x34 => OpcodeRecord { mnemonic: Mnemonic::Nop, cycles: 4, mode: AddressingMode::ZeroPageX, page_cross_penalty: false },
        0x35 => OpcodeRecord { mnemonic: Mnemonic::And, cycles: 4, mode: AddressingMode::ZeroPageX, page_cross_penalty: false },
        0x36 => OpcodeRecord { mnemonic: Mnemonic::Rol, cycles: 6, mode: AddressingMode::ZeroPageX, page_cross_penalty: false },
        0x37 => OpcodeRecord { mnemonic: Mnemonic::Rla, cycles: 6, mode: AddressingMode::ZeroPageX, page_cross_penalty: false },
        0x38 => OpcodeRecord { mnemonic: Mnemonic::Sec, cycles: 2, mode: AddressingMode::Implicit, page_cross_penalty: false },
        0x39 => OpcodeRecord { mnemonic: Mnemonic::And, cycles: 4, mode: AddressingMode::AbsoluteY, page_cross_penalty: true },
        0x3A => OpcodeRecord { mnemonic: Mnemonic::Nop, cycles: 2, mode: AddressingMode::Implicit, page_cross_penalty: false },
        0x3B => OpcodeRecord { mnemonic: Mnemonic::Rla, cycles: 7, mode: AddressingMode::AbsoluteY, page_cross_penalty: true },
        0x3C => OpcodeRecord { mnemonic: Mnemonic::Nop, cycles: 4, mode: AddressingMode::AbsoluteX, page_cross_penalty: true },
        0x3D => OpcodeRecord { mnemonic: Mnemonic::And, cycles: 4, mode: AddressingMode::AbsoluteX, page_cross_penalty: true },
        0x3E => OpcodeRecord { mnemonic: Mnemonic::Rol, cycles: 7, mode: AddressingMode::AbsoluteX, page_cross_penalty: true },
        0x3F => OpcodeRecord { mnemonic: Mnemonic::Rla, cycles: 7, mode: AddressingMode::AbsoluteX, page_cross_penalty: true },
        0x40 => OpcodeRecord { mnemonic: Mnemonic::Rti, cycles: 6, mode: AddressingMode::Implicit, page_cross_penalty: false },
        0x41 => OpcodeRecord { mnemonic: Mnemonic::Eor, cycles: 6, mode: AddressingMode::IndirectX, page_cross_penalty: false },
        0x42 => OpcodeRecord { mnemonic: Mnemonic::Kil, cycles: 2, mode: AddressingMode::Implicit, page_cross_penalty: false },
        0x43 => OpcodeRecord { mnemonic: Mnemonic::Sre, cycles: 8, mode: AddressingMode::IndirectX, page_cross_penalty: false },
        0x44 => OpcodeRecord { mnemonic: Mnemonic::Nop, cycles: 3, mode: AddressingMode::ZeroPage, page_cross_penalty: false },
        0x45 => OpcodeRecord { mnemonic: Mnemonic::Eor, cycles: 3, mode: AddressingMode::ZeroPage, page_cross_penalty: false },
        0x46 => OpcodeRecord { mnemonic: Mnemonic::Lsr, cycles: 5, mode: AddressingMode::ZeroPage, page_cross_penalty: false },
        0x47 => OpcodeRecord { mnemonic: Mnemonic::Sre, cycles: 5, mode: AddressingMode::ZeroPage, page_cross_penalty: false },
        0x48 => OpcodeRecord { mnemonic: Mnemonic::Pha, cycles: 3, mode: AddressingMode::Implicit, page_cross_penalty: false },
        0x49 => OpcodeRecord { mnemonic: Mnemonic::Eor, cycles: 2, mode: AddressingMode::Immediate, page_cross_penalty: false },
        0x4A => OpcodeRecord { mnemonic: Mnemonic::Lsr, cycles: 2, mode: AddressingMode::Accumulator, page_cross_penalty: false },
        0x4B => OpcodeRecord { mnemonic: Mnemonic::Alr, cycles: 2, mode: AddressingMode::Immediate, page_cross_penalty: false },
        0x4C => OpcodeRecord { mnemonic: Mnemonic::Jmp, cycles: 3, mode: AddressingMode::Absolute, page_cross_penalty: false },
        0x4D => OpcodeRecord { mnemonic: Mnemonic::Eor, cycles: 4, mode: AddressingMode::Absolute, page_cross_penalty: false },
        0x4E => OpcodeRecord { mnemonic: Mnemonic::Lsr, cycles: 6, mode: AddressingMode::Absolute, page_cross_penalty: false },
        0x4F => OpcodeRecord { mnemonic: Mnemonic::Sre, cycles: 6, mode: AddressingMode::Absolute, page_cross_penalty: false },
        0x50 => OpcodeRecord { mnemonic: Mnemonic::Bvc, cycles: 2, mode: AddressingMode::Relative, page_cross_penalty: true },
        0x51 => OpcodeRecord { mnemonic: Mnemonic::Eor, cycles: 5, mode: AddressingMode::IndirectY, page_cross_penalty: true },
        0x52 => OpcodeRecord { mnemonic: Mnemonic::Kil, cycles: 2, mode: AddressingMode::Implicit, page_cross_penalty: false },
        0x53 => OpcodeRecord { mnemonic: Mnemonic::Sre, cycles: 8, mode: AddressingMode::IndirectY, page_cross_penalty: true },
        0x54 => OpcodeRecord { mnemonic: Mnemonic::Nop, cycles: 4, mode: AddressingMode::ZeroPageX, page_cross_penalty: false },
        0x55 => OpcodeRecord { mnemonic: Mnemonic::Eor, cycles: 4, mode: AddressingMode::ZeroPageX, page_cross_penalty: false },
        0x56 => OpcodeRecord { mnemonic: Mnemonic::Lsr, cycles: 6, mode: AddressingMode::ZeroPageX, page_cross_penalty: false },
        0x57 => OpcodeRecord { mnemonic: Mnemonic::Sre, cycles: 6, mode: AddressingMode::ZeroPageX, page_cross_penalty: false },
        0x58 => OpcodeRecord { mnemonic: Mnemonic::Cli, cycles: 2, mode: AddressingMode::Implicit, page_cross_penalty: false },
        0x59 => OpcodeRecord { mnemonic: Mnemonic::Eor, cycles: 4, mode: AddressingMode::AbsoluteY, page_cross_penalty: true },
        0x5A => OpcodeRecord { mnemonic: Mnemonic::Nop, cycles: 2, mode: AddressingMode::Implicit, page_cross_penalty: false },
        0x5B => OpcodeRecord { mnemonic: Mnemonic::Sre, cycles: 7, mode: AddressingMode::AbsoluteY, page_cross_penalty: true },
        0x5C => OpcodeRecord { mnemonic: Mnemonic::Nop, cycles: 4, mode: AddressingMode::AbsoluteX, page_cross_penalty: true },
        0x5D => OpcodeRecord { mnemonic: Mnemonic::Eor, cycles: 4, mode: AddressingMode::AbsoluteX, page_cross_penalty: true },
        0x5E => OpcodeRecord { mnemonic: Mnemonic::Lsr, cycles: 7, mode: AddressingMode::AbsoluteX, page_cross_penalty: true },
        0x5F => OpcodeRecord { mnemonic: Mnemonic::Sre, cycles: 7, mode: AddressingMode::AbsoluteX, page_cross_penalty: true },
        0x60 => OpcodeRecord { mnemonic: Mnemonic::Rts, cycles: 6, mode: AddressingMode::Implicit, page_cross_penalty: false },
        0x61 => OpcodeRecord { mnemonic: Mnemonic::Adc, cycles: 6, mode: AddressingMode::IndirectX, page_cross_penalty: false },
        0x62 => OpcodeRecord { mnemonic: Mnemonic::Kil, cycles: 2, mode: AddressingMode::Implicit, page_cross_penalty: false },
        0x63 => OpcodeRecord { mnemonic: Mnemonic::Rra, cycles: 8, mode: AddressingMode::IndirectX, page_cross_penalty: false },
        0x64 => OpcodeRecord { mnemonic: Mnemonic::Nop, cycles: 3, mode: AddressingMode::ZeroPage, page_cross_penalty: false },
        0x65 => OpcodeRecord { mnemonic: Mnemonic::Adc, cycles: 3, mode: AddressingMode::ZeroPage, page_cross_penalty: false },
        0x66 => OpcodeRecord { mnemonic: Mnemonic::Ror, cycles: 5, mode: AddressingMode::ZeroPage, page_cross_penalty: false },
        0x67 => OpcodeRecord { mnemonic: Mnemonic::Rra, cycles: 5, mode: AddressingMode::ZeroPage, page_cross_penalty: false },
        0x68 => OpcodeRecord { mnemonic: Mnemonic::Pla, cycles: 4, mode: AddressingMode::Implicit, page_cross_penalty: false },
        0x69 => OpcodeRecord { mnemonic: Mnemonic::Adc, cycles: 2, mode: AddressingMode::Immediate, page_cross_penalty: false },
        0x6A => OpcodeRecord { mnemonic: Mnemonic::Ror, cycles: 2, mode: AddressingMode::Accumulator, page_cross_penalty: false },
        0x6B => OpcodeRecord { mnemonic: Mnemonic::Arr, cycles: 2, mode: AddressingMode::Immediate, page_cross_penalty: false },
        0x6C => OpcodeRecord { mnemonic: Mnemonic::Jmp, cycles: 5, mode: AddressingMode::Indirect, page_cross_penalty: false },
        0x6D => OpcodeRecord { mnemonic: Mnemonic::Adc, cycles: 4, mode: AddressingMode::Absolute, page_cross_penalty: false },
        0x6E => OpcodeRecord { mnemonic: Mnemonic::Ror, cycles: 6, mode: AddressingMode::Absolute, page_cross_penalty: false },
        0x6F => OpcodeRecord { mnemonic: Mnemonic::Rra, cycles: 6, mode: AddressingMode::Absolute, page_cross_penalty: false },
        0x70 => OpcodeRecord { mnemonic: Mnemonic::Bvs, cycles: 2, mode: AddressingMode::Relative, page_cross_penalty: true },
        0x71 => OpcodeRecord { mnemonic: Mnemonic::Adc, cycles: 5, mode: AddressingMode::IndirectY, page_cross_penalty: true },
        0x72 => OpcodeRecord { mnemonic: Mnemonic::Kil, cycles: 2, mode: AddressingMode::Implicit, page_cross_penalty: false },
        0x73 => OpcodeRecord { mnemonic: Mnemonic::Rra, cycles: 8, mode: AddressingMode::IndirectY, page_cross_penalty: true },
        0x74 => OpcodeRecord { mnemonic: Mnemonic::Nop, cycles: 4, mode: AddressingMode::ZeroPageX, page_cross_penalty: false },
        0x75 => OpcodeRecord { mnemonic: Mnemonic::Adc, cycles: 4, mode: AddressingMode::ZeroPageX, page_cross_penalty: false },
        0x76 => OpcodeRecord { mnemonic: Mnemonic::Ror, cycles: 6, mode: AddressingMode::ZeroPageX, page_cross_penalty: false },
        0x77 => OpcodeRecord { mnemonic: Mnemonic::Rra, cycles: 6, mode: AddressingMode::ZeroPageX, page_cross_penalty: false },
        0x78 => OpcodeRecord { mnemonic: Mnemonic::Sei, cycles: 2, mode: AddressingMode::Implicit, page_cross_penalty: false },
        0x79 => OpcodeRecord { mnemonic: Mnemonic::Adc, cycles: 4, mode: AddressingMode::AbsoluteY, page_cross_penalty: true },
        0x7A => OpcodeRecord { mnemonic: Mnemonic::Nop, cycles: 2, mode: AddressingMode::Implicit, page_cross_penalty: false },
        0x7B => OpcodeRecord { mnemonic: Mnemonic::Rra, cycles: 7, mode: AddressingMode::AbsoluteY, page_cross_penalty: true },
        0x7C => OpcodeRecord { mnemonic: Mnemonic::Nop, cycles: 4, mode: AddressingMode::AbsoluteX, page_cross_penalty: true },
        0x7D => OpcodeRecord { mnemonic: Mnemonic::Adc, cycles: 4, mode: AddressingMode::AbsoluteX, page_cross_penalty: true },
        0x7E => OpcodeRecord { mnemonic: Mnemonic::Ror, cycles: 7, mode: AddressingMode::AbsoluteX, page_cross_penalty: true },
        0x7F => OpcodeRecord { mnemonic: Mnemonic::Rra, cycles: 7, mode: AddressingMode::AbsoluteX, page_cross_penalty: true },
        0x80 => OpcodeRecord { mnemonic: Mnemonic::Nop, cycles: 2, mode: AddressingMode::Immediate, page_cross_penalty: false },
        0x81 => OpcodeRecord { mnemonic: Mnemonic::Sta, cycles: 6, mode: AddressingMode::IndirectX, page_cross_penalty: false },
        0x82 => OpcodeRecord { mnemonic: Mnemonic::Nop, cycles: 2, mode: AddressingMode::Immediate, page_cross_penalty: false },
        0x83 => OpcodeRecord { mnemonic: Mnemonic::Sax, cycles: 6, mode: AddressingMode::IndirectX, page_cross_penalty: false },
        0x84 => OpcodeRecord { mnemonic: Mnemonic::Sty, cycles: 3, mode: AddressingMode::ZeroPage, page_cross_penalty: false },
        0x85 => OpcodeRecord { mnemonic: Mnemonic::Sta, cycles: 3, mode: AddressingMode::ZeroPage, page_cross_penalty: false },
        0x86 => OpcodeRecord { mnemonic: Mnemonic::Stx, cycles: 3, mode: AddressingMode::ZeroPage, page_cross_penalty: false },
        0x87 => OpcodeRecord { mnemonic: Mnemonic::Sax, cycles: 3, mode: AddressingMode::ZeroPage, page_cross_penalty: false },
        0x88 => OpcodeRecord { mnemonic: Mnemonic::Dey, cycles: 2, mode: AddressingMode::Implicit, page_cross_penalty: false },
        0x89 => OpcodeRecord { mnemonic: Mnemonic::Nop, cycles: 2, mode: AddressingMode::Immediate, page_cross_penalty: false },
        0x8A => OpcodeRecord { mnemonic: Mnemonic::Txa, cycles: 2, mode: AddressingMode::Implicit, page_cross_penalty: false },
        0x8B => OpcodeRecord { mnemonic: Mnemonic::Xaa, cycles: 2, mode: AddressingMode::Immediate, page_cross_penalty: false },
        0x8C => OpcodeRecord { mnemonic: Mnemonic::Sty, cycles: 4, mode: AddressingMode::Absolute, page_cross_penalty: false },
        0x8D => OpcodeRecord { mnemonic: Mnemonic::Sta, cycles: 4, mode: AddressingMode::Absolute, page_cross_penalty: false },
        0x8E => OpcodeRecord { mnemonic: Mnemonic::Stx, cycles: 4, mode: AddressingMode::Absolute, page_cross_penalty: false },
        0x8F => OpcodeRecord { mnemonic: Mnemonic::Sax, cycles: 4, mode: AddressingMode::Absolute, page_cross_penalty: false },
        0x90 => OpcodeRecord { mnemonic: Mnemonic::Bcc, cycles: 2, mode: AddressingMode::Relative, page_cross_penalty: true },
        0x91 => OpcodeRecord { mnemonic: Mnemonic::Sta, cycles: 5, mode: AddressingMode::IndirectY, page_cross_penalty: false },
        0x92 => OpcodeRecord { mnemonic: Mnemonic::Kil, cycles: 2, mode: AddressingMode::Implicit, page_cross_penalty: false },
        0x93 => OpcodeRecord { mnemonic: Mnemonic::Ahx, cycles: 5, mode: AddressingMode::IndirectY, page_cross_penalty: false },
        0x94 => OpcodeRecord { mnemonic: Mnemonic::Sty, cycles: 4, mode: AddressingMode::ZeroPageX, page_cross_penalty: false },
        0x95 => OpcodeRecord { mnemonic: Mnemonic::Sta, cycles: 4, mode: AddressingMode::ZeroPageX, page_cross_penalty: false },
        0x96 => OpcodeRecord { mnemonic: Mnemonic::Stx, cycles: 4, mode: AddressingMode::ZeroPageY, page_cross_penalty: false },
        0x97 => OpcodeRecord { mnemonic: Mnemonic::Sax, cycles: 4, mode: AddressingMode::ZeroPageY, page_cross_penalty: false },
        0x98 => OpcodeRecord { mnemonic: Mnemonic::Tya, cycles: 2, mode: AddressingMode::Implicit, page_cross_penalty: false },
        0x99 => OpcodeRecord { mnemonic: Mnemonic::Sta, cycles: 4, mode: AddressingMode::AbsoluteY, page_cross_penalty: false },
        0x9A => OpcodeRecord { mnemonic: Mnemonic::Txs, cycles: 2, mode: AddressingMode::Implicit, page_cross_penalty: false },
        0x9B => OpcodeRecord { mnemonic: Mnemonic::Tas, cycles: 4, mode: AddressingMode::AbsoluteY, page_cross_penalty: false },
        0x9C => OpcodeRecord { mnemonic: Mnemonic::Shy, cycles: 4, mode: AddressingMode::AbsoluteX, page_cross_penalty: false },
        0x9D => OpcodeRecord { mnemonic: Mnemonic::Sta, cycles: 4, mode: AddressingMode::AbsoluteX, page_cross_penalty: false },
        0x9E => OpcodeRecord { mnemonic: Mnemonic::Shx, cycles: 4, mode: AddressingMode::AbsoluteY, page_cross_penalty: false },
        0x9F => OpcodeRecord { mnemonic: Mnemonic::Ahx, cycles: 4, mode: AddressingMode::AbsoluteY, page_cross_penalty: false },
        0xA0 => OpcodeRecord { mnemonic: Mnemonic::Ldy, cycles: 2, mode: AddressingMode::Immediate, page_cross_penalty: false },
        0xA1 => OpcodeRecord { mnemonic: Mnemonic::Lda, cycles: 6, mode: AddressingMode::IndirectX, page_cross_penalty: false },
        0xA2 => OpcodeRecord { mnemonic: Mnemonic::Ldx, cycles: 2, mode: AddressingMode::Immediate, page_cross_penalty: false },
        0xA3 => OpcodeRecord { mnemonic: Mnemonic::Lax, cycles: 6, mode: AddressingMode::IndirectX, page_cross_penalty: false },
        0xA4 => OpcodeRecord { mnemonic: Mnemonic::Ldy, cycles: 3, mode: AddressingMode::ZeroPage, page_cross_penalty: false },
        0xA5 => OpcodeRecord { mnemonic: Mnemonic::Lda, cycles: 3, mode: AddressingMode::ZeroPage, page_cross_penalty: false },
        0xA6 => OpcodeRecord { mnemonic: Mnemonic::Ldx, cycles: 3, mode: AddressingMode::ZeroPage, page_cross_penalty: false },
        0xA7 => OpcodeRecord { mnemonic: Mnemonic::Lax, cycles: 3, mode: AddressingMode::ZeroPage, page_cross_penalty: false },
        0xA8 => OpcodeRecord { mnemonic: Mnemonic::Tay, cycles: 2, mode: AddressingMode::Implicit, page_cross_penalty: false },
        0xA9 => OpcodeRecord { mnemonic: Mnemonic::Lda, cycles: 2, mode: AddressingMode::Immediate, page_cross_penalty: false },
        0xAA => OpcodeRecord { mnemonic: Mnemonic::Tax, cycles: 2, mode: AddressingMode::Implicit, page_cross_penalty: false },
        0xAB => OpcodeRecord { mnemonic: Mnemonic::Lax, cycles: 2, mode: AddressingMode::Immediate, page_cross_penalty: false },
        0xAC => OpcodeRecord { mnemonic: Mnemonic::Ldy, cycles: 4, mode: AddressingMode::Absolute, page_cross_penalty: false },
        0xAD => OpcodeRecord { mnemonic: Mnemonic::Lda, cycles: 4, mode: AddressingMode::Absolute, page_cross_penalty: false },
        0xAE => OpcodeRecord { mnemonic: Mnemonic::Ldx, cycles: 4, mode: AddressingMode::Absolute, page_cross_penalty: false },
        0xAF => OpcodeRecord { mnemonic: Mnemonic::Lax, cycles: 4, mode: AddressingMode::Absolute, page_cross_penalty: false },
        0xB0 => OpcodeRecord { mnemonic: Mnemonic::Bcs, cycles: 2, mode: AddressingMode::Relative, page_cross_penalty: true },
        0xB1 => OpcodeRecord { mnemonic: Mnemonic::Lda, cycles: 5, mode: AddressingMode::IndirectY, page_cross_penalty: true },
        0xB2 => OpcodeRecord { mnemonic: Mnemonic::Kil, cycles: 2, mode: AddressingMode::Implicit, page_cross_penalty: false },
        0xB3 => OpcodeRecord { mnemonic: Mnemonic::Lax, cycles: 5, mode: AddressingMode::IndirectY, page_cross_penalty: true },
        0xB4 => OpcodeRecord { mnemonic: Mnemonic::Ldy, cycles: 4, mode: AddressingMode::ZeroPageX, page_cross_penalty: false },
        0xB5 => OpcodeRecord { mnemonic: Mnemonic::Lda, cycles: 4, mode: AddressingMode::ZeroPageX, page_cross_penalty: false },
        0xB6 => OpcodeRecord { mnemonic: Mnemonic::Ldx, cycles: 4, mode: AddressingMode::ZeroPageY, page_cross_penalty: false },
        0xB7 => OpcodeRecord { mnemonic: Mnemonic::Lax, cycles: 4, mode: AddressingMode::ZeroPageY, page_cross_penalty: false },
        0xB8 => OpcodeRecord { mnemonic: Mnemonic::Clv, cycles: 2, mode: AddressingMode::Implicit, page_cross_penalty: false },
        0xB9 => OpcodeRecord { mnemonic: Mnemonic::Lda, cycles: 4, mode: AddressingMode::AbsoluteY, page_cross_penalty: true },
        0xBA => OpcodeRecord { mnemonic: Mnemonic::Tsx, cycles: 2, mode: AddressingMode::Implicit, page_cross_penalty: false },
        0xBB => OpcodeRecord { mnemonic: Mnemonic::Las, cycles: 4, mode: AddressingMode::AbsoluteY, page_cross_penalty: true },
        0xBC => OpcodeRecord { mnemonic: Mnemonic::Ldy, cycles: 4, mode: AddressingMode::AbsoluteX, page_cross_penalty: true },
        0xBD => OpcodeRecord { mnemonic: Mnemonic::Lda, cycles: 4, mode: AddressingMode::AbsoluteX, page_cross_penalty: true },
        0xBE => OpcodeRecord { mnemonic: Mnemonic::Ldx, cycles: 4, mode: AddressingMode::AbsoluteY, page_cross_penalty: true },
        0xBF => OpcodeRecord { mnemonic: Mnemonic::Lax, cycles: 4, mode: AddressingMode::AbsoluteY, page_cross_penalty: true },
        0xC0 => OpcodeRecord { mnemonic: Mnemonic::Cpy, cycles: 2, mode: AddressingMode::Immediate, page_cross_penalty: false },
        0xC1 => OpcodeRecord { mnemonic: Mnemonic::Cmp, cycles: 6, mode: AddressingMode::IndirectX, page_cross_penalty: false },
        0xC2 => OpcodeRecord { mnemonic: Mnemonic::Nop, cycles: 2, mode: AddressingMode::Immediate, page_cross_penalty: false },
        0xC3 => OpcodeRecord { mnemonic: Mnemonic::Dcp, cycles: 8, mode: AddressingMode::IndirectX, page_cross_penalty: false },
        0xC4 => OpcodeRecord { mnemonic: Mnemonic::Cpy, cycles: 3, mode: AddressingMode::ZeroPage, page_cross_penalty: false },
        0xC5 => OpcodeRecord { mnemonic: Mnemonic::Cmp, cycles: 3, mode: AddressingMode::ZeroPage, page_cross_penalty: false },
        0xC6 => OpcodeRecord { mnemonic: Mnemonic::Dec, cycles: 5, mode: AddressingMode::ZeroPage, page_cross_penalty: false },
        0xC7 => OpcodeRecord { mnemonic: Mnemonic::Dcp, cycles: 5, mode: AddressingMode::ZeroPage, page_cross_penalty: false },
        0xC8 => OpcodeRecord { mnemonic: Mnemonic::Iny, cycles: 2, mode: AddressingMode::Implicit, page_cross_penalty: false },
        0xC9 => OpcodeRecord { mnemonic: Mnemonic::Cmp, cycles: 2, mode: AddressingMode::Immediate, page_cross_penalty: false },
        0xCA => OpcodeRecord { mnemonic: Mnemonic::Dex, cycles: 2, mode: AddressingMode::Implicit, page_cross_penalty: false },
        0xCB => OpcodeRecord { mnemonic: Mnemonic::Axs, cycles: 2, mode: AddressingMode::Immediate, page_cross_penalty: false },
        0xCC => OpcodeRecord { mnemonic: Mnemonic::Cpy, cycles: 4, mode: AddressingMode::Absolute, page_cross_penalty: false },
        0xCD => OpcodeRecord { mnemonic: Mnemonic::Cmp, cycles: 4, mode: AddressingMode::Absolute, page_cross_penalty: false },
        0xCE => OpcodeRecord { mnemonic: Mnemonic::Dec, cycles: 6, mode: AddressingMode::Absolute, page_cross_penalty: false },
        0xCF => OpcodeRecord { mnemonic: Mnemonic::Dcp, cycles: 6, mode: AddressingMode::Absolute, page_cross_penalty: false },
        0xD0 => OpcodeRecord { mnemonic: Mnemonic::Bne, cycles: 2, mode: AddressingMode::Relative, page_cross_penalty: true },
        0xD1 => OpcodeRecord { mnemonic: Mnemonic::Cmp, cycles: 5, mode: AddressingMode::IndirectY, page_cross_penalty: true },
        0xD2 => OpcodeRecord { mnemonic: Mnemonic::Kil, cycles: 2, mode: AddressingMode::Implicit, page_cross_penalty: false },
        0xD3 => OpcodeRecord { mnemonic: Mnemonic::Dcp, cycles: 8, mode: AddressingMode::IndirectY, page_cross_penalty: true },
        0xD4 => OpcodeRecord { mnemonic: Mnemonic::Nop, cycles: 4, mode: AddressingMode::ZeroPageX, page_cross_penalty: false },
        0xD5 => OpcodeRecord { mnemonic: Mnemonic::Cmp, cycles: 4, mode: AddressingMode::ZeroPageX, page_cross_penalty: false },
        0xD6 => OpcodeRecord { mnemonic: Mnemonic::Dec, cycles: 6, mode: AddressingMode::ZeroPageX, page_cross_penalty: false },
        0xD7 => OpcodeRecord { mnemonic: Mnemonic::Dcp, cycles: 6, mode: AddressingMode::ZeroPageX, page_cross_penalty: false },
        0xD8 => OpcodeRecord { mnemonic: Mnemonic::Cld, cycles: 2, mode: AddressingMode::Implicit, page_cross_penalty: false },
        0xD9 => OpcodeRecord { mnemonic: Mnemonic::Cmp, cycles: 4, mode: AddressingMode::AbsoluteY, page_cross_penalty: true },
        0xDA => OpcodeRecord { mnemonic: Mnemonic::Nop, cycles: 2, mode: AddressingMode::Implicit, page_cross_penalty: false },
        0xDB => OpcodeRecord { mnemonic: Mnemonic::Dcp, cycles: 7, mode: AddressingMode::AbsoluteY, page_cross_penalty: true },
        0xDC => OpcodeRecord { mnemonic: Mnemonic::Nop, cycles: 4, mode: AddressingMode::AbsoluteX, page_cross_penalty: true },
        0xDD => OpcodeRecord { mnemonic: Mnemonic::Cmp, cycles: 4, mode: AddressingMode::AbsoluteX, page_cross_penalty: true },
        0xDE => OpcodeRecord { mnemonic: Mnemonic::Dec, cycles: 7, mode: AddressingMode::AbsoluteX, page_cross_penalty: true },
        0xDF => OpcodeRecord { mnemonic: Mnemonic::Dcp, cycles: 7, mode: AddressingMode::AbsoluteX, page_cross_penalty: true },
        0xE0 => OpcodeRecord { mnemonic: Mnemonic::Cpx, cycles: 2, mode: AddressingMode::Immediate, page_cross_penalty: false },
        0xE1 => OpcodeRecord { mnemonic: Mnemonic::Sbc, cycles: 6, mode: AddressingMode::IndirectX, page_cross_penalty: false },
        0xE2 => OpcodeRecord { mnemonic: Mnemonic::Nop, cycles: 2, mode: AddressingMode::Immediate, page_cross_penalty: false },
        0xE3 => OpcodeRecord { mnemonic: Mnemonic::Isc, cycles: 8, mode: AddressingMode::IndirectX, page_cross_penalty: false },
        0xE4 => OpcodeRecord { mnemonic: Mnemonic::Cpx, cycles: 3, mode: AddressingMode::ZeroPage, page_cross_penalty: false },
        0xE5 => OpcodeRecord { mnemonic: Mnemonic::Sbc, cycles: 3, mode: AddressingMode::ZeroPage, page_cross_penalty: false },
        0xE6 => OpcodeRecord { mnemonic: Mnemonic::Inc, cycles: 5, mode: AddressingMode::ZeroPage, page_cross_penalty: false },
        0xE7 => OpcodeRecord { mnemonic: Mnemonic::Isc, cycles: 5, mode: AddressingMode::ZeroPage, page_cross_penalty: false },
        0xE8 => OpcodeRecord { mnemonic: Mnemonic::Inx, cycles: 2, mode: AddressingMode::Implicit, page_cross_penalty: false },
        0xE9 => OpcodeRecord { mnemonic: Mnemonic::Sbc, cycles: 2, mode: AddressingMode::Immediate, page_cross_penalty: false },
        0xEA => OpcodeRecord { mnemonic: Mnemonic::Nop, cycles: 2, mode: AddressingMode::Implicit, page_cross_penalty: false },
        0xEB => OpcodeRecord { mnemonic: Mnemonic::Sbc, cycles: 2, mode: AddressingMode::Immediate, page_cross_penalty: false },
        0xEC => OpcodeRecord { mnemonic: Mnemonic::Cpx, cycles: 4, mode: AddressingMode::Absolute, page_cross_penalty: false },
        0xED => OpcodeRecord { mnemonic: Mnemonic::Sbc, cycles: 4, mode: AddressingMode::Absolute, page_cross_penalty: false },
        0xEE => OpcodeRecord { mnemonic: Mnemonic::Inc, cycles: 6, mode: AddressingMode::Absolute, page_cross_penalty: false },
        0xEF => OpcodeRecord { mnemonic: Mnemonic::Isc, cycles: 6, mode: AddressingMode::Absolute, page_cross_penalty: false },
        0xF0 => OpcodeRecord { mnemonic: Mnemonic::Beq, cycles: 2, mode: AddressingMode::Relative, page_cross_penalty: true },
        0xF1 => OpcodeRecord { mnemonic: Mnemonic::Sbc, cycles: 5, mode: AddressingMode::IndirectY, page_cross_penalty: true },
        0xF2 => OpcodeRecord { mnemonic: Mnemonic::Kil, cycles: 2, mode: AddressingMode::Implicit, page_cross_penalty: false },
        0xF3 => OpcodeRecord { mnemonic: Mnemonic::Isc, cycles: 8, mode: AddressingMode::IndirectY, page_cross_penalty: true },
        0xF4 => OpcodeRecord { mnemonic: Mnemonic::Nop, cycles: 4, mode: AddressingMode::ZeroPageX, page_cross_penalty: false },
        0xF5 => OpcodeRecord { mnemonic: Mnemonic::Sbc, cycles: 4, mode: AddressingMode::ZeroPageX, page_cross_penalty: false },
        0xF6 => OpcodeRecord { mnemonic: Mnemonic::Inc, cycles: 6, mode: AddressingMode::ZeroPageX, page_cross_penalty: false },
        0xF7 => OpcodeRecord { mnemonic: Mnemonic::Isc, cycles: 6, mode: AddressingMode::ZeroPageX, page_cross_penalty: false },
        0xF8 => OpcodeRecord { mnemonic: Mnemonic::Sed, cycles: 2, mode: AddressingMode::Implicit, page_cross_penalty: false },
        0xF9 => OpcodeRecord { mnemonic: Mnemonic::Sbc, cycles: 4, mode: AddressingMode::AbsoluteY, page_cross_penalty: true },
        0xFA => OpcodeRecord { mnemonic: Mnemonic::Nop, cycles: 2, mode: AddressingMode::Implicit, page_cross_penalty: false },
        0xFB => OpcodeRecord { mnemonic: Mnemonic::Isc, cycles: 7, mode: AddressingMode::AbsoluteY, page_cross_penalty: true },
        0xFC => OpcodeRecord { mnemonic: Mnemonic::Nop, cycles: 4, mode: AddressingMode::AbsoluteX, page_cross_penalty: true },
        0xFD => OpcodeRecord { mnemonic: Mnemonic::Sbc, cycles: 4, mode: AddressingMode::AbsoluteX, page_cross_penalty: true },
        0xFE => OpcodeRecord { mnemonic: Mnemonic::Inc, cycles: 7, mode: AddressingMode::AbsoluteX, page_cross_penalty: true },
        _ => OpcodeRecord { mnemonic: Mnemonic::Isc, cycles: 7, mode: AddressingMode::AbsoluteX, page_cross_penalty: true },
    }
}

} // verus!
