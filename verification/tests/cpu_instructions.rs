use rustendulator_core::bus::Bus;
use rustendulator_core::cpu::Cpu;

/// A CPU over an empty bus whose RAM holds `program` at $0000. With no
/// cartridge the reset vector reads as open bus ($0000), so execution
/// starts at the top of RAM after the 7 start-up cycles.
fn ram_machine(program: &[u8]) -> (Cpu, Bus) {
    let mut bus = Bus::new();
    for (i, byte) in program.iter().enumerate() {
        bus.cpu_write(i as u16, *byte);
    }
    let mut cpu = Cpu::new();
    cpu.power_on(&mut bus);
    for _ in 0..7 {
        cpu.tick(&mut bus);
    }
    (cpu, bus)
}

fn run(cpu: &mut Cpu, bus: &mut Bus, ticks: u32) {
    for _ in 0..ticks {
        cpu.tick(bus);
    }
}

#[test]
fn adc_overflow_scenario() {
    // A = $50, M = $50, C = 0: result $A0, C = 0, V = 1, N = 1, Z = 0.
    let (mut cpu, mut bus) = ram_machine(&[0xA9, 0x50, 0x69, 0x50]);
    run(&mut cpu, &mut bus, 2 + 2);
    let regs = cpu.registers();
    assert_eq!(regs.accumulator(), 0xA0);
    assert!(!regs.carry());
    assert!(regs.overflow());
    assert!(regs.negative());
    assert!(!regs.zero());
}

#[test]
fn adc_carry_and_zero() {
    // $FF + $01 = $00 with carry out, no signed overflow.
    let (mut cpu, mut bus) = ram_machine(&[0xA9, 0xFF, 0x69, 0x01]);
    run(&mut cpu, &mut bus, 4);
    let regs = cpu.registers();
    assert_eq!(regs.accumulator(), 0x00);
    assert!(regs.carry());
    assert!(!regs.overflow());
    assert!(regs.zero());
}

#[test]
fn adc_both_negative_overflow() {
    // $80 + $80 = $00 with carry and signed overflow.
    let (mut cpu, mut bus) = ram_machine(&[0xA9, 0x80, 0x69, 0x80]);
    run(&mut cpu, &mut bus, 4);
    let regs = cpu.registers();
    assert_eq!(regs.accumulator(), 0x00);
    assert!(regs.carry());
    assert!(regs.overflow());
    assert!(regs.zero());
}

#[test]
fn sbc_underflow_scenario() {
    // A = $50, M = $B0, C = 1: result $A0, C = 0, V = 1, N = 1.
    let (mut cpu, mut bus) = ram_machine(&[0x38, 0xA9, 0x50, 0xE9, 0xB0]);
    run(&mut cpu, &mut bus, 2 + 2 + 2);
    let regs = cpu.registers();
    assert_eq!(regs.accumulator(), 0xA0);
    assert!(!regs.carry());
    assert!(regs.overflow());
    assert!(regs.negative());
}

#[test]
fn php_plp_round_trip_restores_flags() {
    // SEC, SED, PHP, CLC, CLD, PLP: carry and decimal come back.
    let (mut cpu, mut bus) = ram_machine(&[0x38, 0xF8, 0x08, 0x18, 0xD8, 0x28]);
    run(&mut cpu, &mut bus, 2 + 2 + 3);
    // The pushed byte sits at $01FD: C, I (power-up), D, B and bit 5.
    assert_eq!(bus.cpu_read(0x01FD), 0x3D);
    run(&mut cpu, &mut bus, 2 + 2);
    let mid = cpu.registers();
    assert!(!mid.carry());
    assert!(!mid.decimal());
    run(&mut cpu, &mut bus, 4);
    let regs = cpu.registers();
    assert!(regs.carry());
    assert!(regs.decimal());
    assert_eq!(regs.stack_pointer(), 0xFD);
}

#[test]
fn jsr_rts_returns_after_operand() {
    // JSR $0010 at $0000; RTS at $0010: PC comes back to $0003.
    let mut program = vec![0x20, 0x10, 0x00, 0xEA];
    program.resize(0x10, 0xEA);
    program.push(0x60);
    let (mut cpu, mut bus) = ram_machine(&program);
    run(&mut cpu, &mut bus, 6);
    assert_eq!(cpu.registers().program_counter(), 0x0010);
    // JSR pushed the address of its own last byte ($0002).
    assert_eq!(bus.cpu_read(0x01FD), 0x00);
    assert_eq!(bus.cpu_read(0x01FC), 0x02);
    run(&mut cpu, &mut bus, 6);
    assert_eq!(cpu.registers().program_counter(), 0x0003);
    assert_eq!(cpu.registers().stack_pointer(), 0xFD);
}

#[test]
fn inc_memory_and_flags() {
    let (mut cpu, mut bus) = {
        let mut bus = Bus::new();
        for (i, byte) in [0xE6u8, 0x10].iter().enumerate() {
            bus.cpu_write(i as u16, *byte);
        }
        bus.cpu_write(0x0010, 0x7F);
        let mut cpu = Cpu::new();
        cpu.power_on(&mut bus);
        for _ in 0..7 {
            cpu.tick(&mut bus);
        }
        (cpu, bus)
    };
    run(&mut cpu, &mut bus, 5);
    assert_eq!(bus.cpu_read(0x0010), 0x80);
    assert!(cpu.registers().negative());
    assert!(!cpu.registers().zero());
}

#[test]
fn compare_sets_carry_zero_negative() {
    // LDA #$40, CMP #$30: C = 1 (A >= M), Z = 0; then CMP #$40: Z = 1.
    let (mut cpu, mut bus) = ram_machine(&[0xA9, 0x40, 0xC9, 0x30, 0xC9, 0x40, 0xC9, 0x50]);
    run(&mut cpu, &mut bus, 4);
    assert!(cpu.registers().carry());
    assert!(!cpu.registers().zero());
    run(&mut cpu, &mut bus, 2);
    assert!(cpu.registers().carry());
    assert!(cpu.registers().zero());
    run(&mut cpu, &mut bus, 2);
    assert!(!cpu.registers().carry());
    assert!(cpu.registers().negative());
}

#[test]
fn loads_set_zero_and_negative() {
    let (mut cpu, mut bus) = ram_machine(&[0xA9, 0x00, 0xA2, 0x80, 0xA0, 0x7F]);
    run(&mut cpu, &mut bus, 2);
    assert!(cpu.registers().zero());
    assert!(!cpu.registers().negative());
    run(&mut cpu, &mut bus, 2);
    assert_eq!(cpu.registers().index_x(), 0x80);
    assert!(!cpu.registers().zero());
    assert!(cpu.registers().negative());
    run(&mut cpu, &mut bus, 2);
    assert_eq!(cpu.registers().index_y(), 0x7F);
    assert!(!cpu.registers().zero());
    assert!(!cpu.registers().negative());
}

#[test]
fn asl_and_ror_through_carry() {
    // LDA #$81, ASL A: A = $02, C = 1; then ROR A: C into bit 7.
    let (mut cpu, mut bus) = ram_machine(&[0xA9, 0x81, 0x0A, 0x6A]);
    run(&mut cpu, &mut bus, 4);
    assert_eq!(cpu.registers().accumulator(), 0x02);
    assert!(cpu.registers().carry());
    run(&mut cpu, &mut bus, 2);
    assert_eq!(cpu.registers().accumulator(), 0x81);
    assert!(!cpu.registers().carry());
}

#[test]
fn kil_halts_until_reset() {
    let (mut cpu, mut bus) = ram_machine(&[0x02]);
    run(&mut cpu, &mut bus, 2);
    assert!(cpu.is_halted());
    let before = cpu.total_cycles();
    let pc = cpu.registers().program_counter();
    run(&mut cpu, &mut bus, 5);
    // The clock still counts, but nothing else moves.
    assert_eq!(cpu.total_cycles(), before + 5);
    assert_eq!(cpu.registers().program_counter(), pc);
    cpu.reset(&mut bus);
    assert!(!cpu.is_halted());
}

#[test]
fn lax_loads_a_and_x_together() {
    let (mut cpu, mut bus) = {
        let mut bus = rustendulator_core::bus::Bus::new();
        for (i, byte) in [0xA7u8, 0x20].iter().enumerate() {
            bus.cpu_write(i as u16, *byte);
        }
        bus.cpu_write(0x0020, 0x5A);
        let mut cpu = Cpu::new();
        cpu.power_on(&mut bus);
        for _ in 0..7 {
            cpu.tick(&mut bus);
        }
        (cpu, bus)
    };
    run(&mut cpu, &mut bus, 3);
    assert_eq!(cpu.registers().accumulator(), 0x5A);
    assert_eq!(cpu.registers().index_x(), 0x5A);
}

#[test]
fn slo_shifts_memory_and_ors() {
    // LDA #$01, SLO $20 with $20 = $81: memory becomes $02, C from the
    // shifted-out bit 7, A = $01 | $02.
    let (mut cpu, mut bus) = {
        let mut bus = rustendulator_core::bus::Bus::new();
        for (i, byte) in [0xA9u8, 0x01, 0x07, 0x20].iter().enumerate() {
            bus.cpu_write(i as u16, *byte);
        }
        bus.cpu_write(0x0020, 0x81);
        let mut cpu = Cpu::new();
        cpu.power_on(&mut bus);
        for _ in 0..7 {
            cpu.tick(&mut bus);
        }
        (cpu, bus)
    };
    run(&mut cpu, &mut bus, 2 + 5);
    assert_eq!(bus.cpu_read(0x0020), 0x02);
    assert_eq!(cpu.registers().accumulator(), 0x03);
    assert!(cpu.registers().carry());
}

#[test]
fn axs_subtracts_from_a_and_x() {
    // LDA #$F0, LDX #$CC, AXS #$20: X = ($F0 & $CC) - $20 = $A0, C set.
    let (mut cpu, mut bus) = ram_machine(&[0xA9, 0xF0, 0xA2, 0xCC, 0xCB, 0x20]);
    run(&mut cpu, &mut bus, 2 + 2 + 2);
    assert_eq!(cpu.registers().index_x(), 0xA0);
    assert!(cpu.registers().carry());
    assert!(cpu.registers().negative());
    // A keeps its value: AXS only writes X.
    assert_eq!(cpu.registers().accumulator(), 0xF0);
}

#[test]
fn anc_copies_bit7_into_carry() {
    let (mut cpu, mut bus) = ram_machine(&[0xA9, 0xF0, 0x0B, 0x80]);
    run(&mut cpu, &mut bus, 2 + 2);
    assert_eq!(cpu.registers().accumulator(), 0x80);
    assert!(cpu.registers().carry());
    assert!(cpu.registers().negative());
}

#[test]
fn sta_indexed_stores_pay_the_fixed_extra_cycle() {
    // STA $0100,Y with Y = 2 and no page cross still costs 5 cycles: the
    // store-class indexed tail always performs the dummy read and charge.
    let (mut cpu, mut bus) = ram_machine(&[0xA9, 0x77, 0xA0, 0x02, 0x99, 0x00, 0x01]);
    run(&mut cpu, &mut bus, 2 + 2);
    cpu.tick(&mut bus);
    assert_eq!(cpu.cycles_remaining(), 3);
    run(&mut cpu, &mut bus, 3);
    // The handler ran on the last base cycle and charged the extra one.
    assert_eq!(cpu.cycles_remaining(), 1);
    assert_eq!(bus.cpu_read(0x0102), 0x77);
    cpu.tick(&mut bus);
    assert_eq!(cpu.cycles_remaining(), 0);
}
