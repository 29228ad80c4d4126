use rustendulator_core::opcodes::{decode, AddressingMode, Mnemonic};

#[test]
fn table_spot_checks() {
    let nop = decode(0xEA);
    assert_eq!(nop.mnemonic, Mnemonic::Nop);
    assert_eq!(nop.cycles, 2);
    assert_eq!(nop.mode, AddressingMode::Implicit);
    assert!(!nop.page_cross_penalty);

    let brk = decode(0x00);
    assert_eq!(brk.mnemonic, Mnemonic::Brk);
    assert_eq!(brk.cycles, 7);

    let lda = decode(0xA9);
    assert_eq!(lda.mnemonic, Mnemonic::Lda);
    assert_eq!(lda.mode, AddressingMode::Immediate);
    assert_eq!(lda.cycles, 2);

    let lda_abx = decode(0xBD);
    assert_eq!(lda_abx.mode, AddressingMode::AbsoluteX);
    assert_eq!(lda_abx.cycles, 4);
    assert!(lda_abx.page_cross_penalty);

    // Store-class indexed entries carry the always-paid cycle outside the
    // base count: STA $nnnn,X totals 5.
    let sta_abx = decode(0x9D);
    assert_eq!(sta_abx.mnemonic, Mnemonic::Sta);
    assert_eq!(sta_abx.cycles, 4);
    assert!(!sta_abx.page_cross_penalty);

    let jmp_ind = decode(0x6C);
    assert_eq!(jmp_ind.mnemonic, Mnemonic::Jmp);
    assert_eq!(jmp_ind.mode, AddressingMode::Indirect);
    assert_eq!(jmp_ind.cycles, 5);

    let slo_izx = decode(0x03);
    assert_eq!(slo_izx.mnemonic, Mnemonic::Slo);
    assert_eq!(slo_izx.mode, AddressingMode::IndirectX);
    assert_eq!(slo_izx.cycles, 8);

    let kil = decode(0x02);
    assert_eq!(kil.mnemonic, Mnemonic::Kil);
}

#[test]
fn every_opcode_decodes_with_sane_cycles() {
    for op in 0..=255u8 {
        let rec = decode(op);
        assert!(rec.cycles >= 1 && rec.cycles <= 8, "opcode {:#04X}", op);
    }
}

#[test]
fn branch_entries_are_relative() {
    for op in [0x10u8, 0x30, 0x50, 0x70, 0x90, 0xB0, 0xD0, 0xF0] {
        let rec = decode(op);
        assert_eq!(rec.mode, AddressingMode::Relative);
        assert_eq!(rec.cycles, 2);
        assert!(rec.page_cross_penalty);
    }
}

#[test]
fn mnemonic_names_match() {
    assert_eq!(decode(0xEA).mnemonic.name(), "NOP");
    assert_eq!(decode(0xA9).mnemonic.name(), "LDA");
    assert_eq!(decode(0x03).mnemonic.name(), "SLO");
    assert_eq!(decode(0xCB).mnemonic.name(), "AXS");
}
