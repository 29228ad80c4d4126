use rustendulator_core::nes::{Nes, RunMode};

fn rom_nops() -> Vec<u8> {
    let mut prg = vec![0xEAu8; 0x8000];
    prg[0x7FFC] = 0x00;
    prg[0x7FFD] = 0x80;
    let mut rom = vec![0x4E, 0x45, 0x53, 0x1A, 2, 1, 0, 0];
    rom.extend_from_slice(&[0u8; 8]);
    rom.extend(prg);
    rom.extend(std::iter::repeat(0u8).take(8192));
    rom
}

#[test]
fn console_powers_on_and_steps() {
    let mut nes = Nes::new();
    assert!(!nes.is_powered_on());
    assert_eq!(nes.get_run_mode(), RunMode::Paused);
    nes.load_cartridge(&rom_nops()).unwrap();
    nes.power_on();
    assert!(nes.is_powered_on());
    assert_eq!(nes.cpu.registers().program_counter(), 0x8000);
    assert_eq!(nes.cpu.cycles_remaining(), 7);
    // The CPU steps once every three master ticks.
    nes.tick();
    nes.tick();
    assert_eq!(nes.cpu.total_cycles(), 0);
    nes.tick();
    assert_eq!(nes.cpu.total_cycles(), 1);
    for _ in 0..3 {
        nes.run_frame();
    }
    assert_eq!(nes.cpu.total_cycles(), 2);
}

#[test]
fn console_run_mode_is_stored() {
    let mut nes = Nes::new();
    nes.set_run_mode(RunMode::Running);
    assert_eq!(nes.get_run_mode(), RunMode::Running);
    nes.set_run_mode(RunMode::StepInstruction);
    assert_eq!(nes.get_run_mode(), RunMode::StepInstruction);
}

#[test]
fn console_reset_follows_cpu_reset() {
    let mut nes = Nes::new();
    nes.load_cartridge(&rom_nops()).unwrap();
    nes.power_on();
    for _ in 0..30 {
        nes.tick();
    }
    nes.reset();
    assert_eq!(nes.cpu.registers().stack_pointer(), 0xFA);
    assert!(nes.cpu.registers().interrupt_disable());
    assert_eq!(nes.cpu.registers().program_counter(), 0x8000);
}
