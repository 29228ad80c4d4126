use rustendulator_core::bus::Bus;
use rustendulator_core::cpu::Cpu;

/// A 32 KiB NROM image filled with NOPs, with the given bytes patched in
/// at their CPU addresses ($8000-$FFFF covers the vectors too).
fn rom_with(patches: &[(u16, u8)]) -> Vec<u8> {
    let mut prg = vec![0xEAu8; 0x8000];
    // Default reset vector: $8000.
    prg[0x7FFC] = 0x00;
    prg[0x7FFD] = 0x80;
    for &(address, value) in patches {
        prg[(address - 0x8000) as usize] = value;
    }
    let mut rom = vec![0x4E, 0x45, 0x53, 0x1A, 2, 1, 0, 0];
    rom.extend_from_slice(&[0u8; 8]);
    rom.extend(prg);
    rom.extend(std::iter::repeat(0u8).take(8192));
    rom
}

fn cart_machine(patches: &[(u16, u8)]) -> (Cpu, Bus) {
    let mut bus = Bus::new();
    bus.load_cartridge(&rom_with(patches)).unwrap();
    let mut cpu = Cpu::new();
    cpu.power_on(&mut bus);
    for _ in 0..7 {
        cpu.tick(&mut bus);
    }
    (cpu, bus)
}

fn run(cpu: &mut Cpu, bus: &mut Bus, ticks: u32) {
    for _ in 0..ticks {
        cpu.tick(bus);
    }
}

#[test]
fn reset_state() {
    let (mut cpu, mut bus) = cart_machine(&[]);
    run(&mut cpu, &mut bus, 10);
    cpu.reset(&mut bus);
    let regs = cpu.registers();
    // S loses 3 with wrap, I set, PC from $FFFC/$FFFD, 7 cycles owed.
    assert_eq!(regs.stack_pointer(), 0xFA);
    assert!(regs.interrupt_disable());
    assert_eq!(regs.program_counter(), 0x8000);
    assert_eq!(cpu.cycles_remaining(), 7);
    cpu.reset(&mut bus);
    assert_eq!(cpu.registers().stack_pointer(), 0xF7);
}

#[test]
fn tick_advances_total_cycles_by_one() {
    let (mut cpu, mut bus) = cart_machine(&[]);
    let start = cpu.total_cycles();
    for i in 1..=20u64 {
        cpu.tick(&mut bus);
        assert_eq!(cpu.total_cycles(), start + i);
    }
}

#[test]
fn branch_taken_with_page_cross_costs_four() {
    // LDA #$00 at $80FB, BEQ +5 at $80FD: base 2, +1 taken, +1 page
    // cross of the new PC: 4 cycles in all.
    let (mut cpu, mut bus) = cart_machine(&[
        (0xFFFC, 0xFB),
        (0x80FB, 0xA9),
        (0x80FC, 0x00),
        (0x80FD, 0xF0),
        (0x80FE, 0x05),
    ]);
    run(&mut cpu, &mut bus, 2);
    assert!(cpu.registers().zero());
    // Fetch burns the first of the base cycles.
    cpu.tick(&mut bus);
    assert_eq!(cpu.cycles_remaining(), 1);
    // The handler runs on the last base cycle and charges the extras.
    cpu.tick(&mut bus);
    assert_eq!(cpu.registers().program_counter(), 0x8104);
    assert_eq!(cpu.cycles_remaining(), 2);
    run(&mut cpu, &mut bus, 2);
    assert_eq!(cpu.cycles_remaining(), 0);
}

#[test]
fn branch_not_taken_costs_two() {
    // LDA #$01 clears Z; BEQ falls through in 2 cycles.
    let (mut cpu, mut bus) = cart_machine(&[
        (0x8000, 0xA9),
        (0x8001, 0x01),
        (0x8002, 0xF0),
        (0x8003, 0x05),
    ]);
    run(&mut cpu, &mut bus, 2);
    cpu.tick(&mut bus);
    assert_eq!(cpu.cycles_remaining(), 1);
    cpu.tick(&mut bus);
    assert_eq!(cpu.registers().program_counter(), 0x8004);
    assert_eq!(cpu.cycles_remaining(), 0);
}

#[test]
fn nmi_interrupts_between_instructions() {
    let (mut cpu, mut bus) = cart_machine(&[(0xFFFA, 0x00), (0xFFFB, 0x81)]);
    // Let one NOP finish, then raise the NMI line.
    run(&mut cpu, &mut bus, 2);
    bus.set_nmi(true);
    // The next boundary tick starts the 7-cycle NMI sequence.
    cpu.tick(&mut bus);
    assert_eq!(cpu.cycles_remaining(), 7);
    assert_eq!(cpu.registers().program_counter(), 0x8100);
    assert!(cpu.registers().interrupt_disable());
    // The pushed status has B = 0 (an interrupt, not BRK/PHP).
    assert_eq!(bus.cpu_read(0x01FB) & 0x10, 0);
    assert_ne!(bus.cpu_read(0x01FB) & 0x20, 0);
    // The edge was consumed: holding the line high fires no second NMI.
    run(&mut cpu, &mut bus, 7 + 2);
    assert_ne!(cpu.registers().program_counter(), 0x8100);
}

#[test]
fn brk_pushes_and_vectors() {
    let (mut cpu, mut bus) = cart_machine(&[(0x8000, 0x00), (0xFFFE, 0x00), (0xFFFF, 0x82)]);
    run(&mut cpu, &mut bus, 7);
    // BRK pushed opcode + 2 and a status byte with B = 1.
    assert_eq!(cpu.registers().program_counter(), 0x8200);
    assert_eq!(bus.cpu_read(0x01FD), 0x80);
    assert_eq!(bus.cpu_read(0x01FC), 0x02);
    assert_ne!(bus.cpu_read(0x01FB) & 0x10, 0);
    assert!(cpu.registers().interrupt_disable());
}

#[test]
fn nmi_hijacks_brk_vector() {
    // The NMI edge lands during BRK's cycles, before the vector commits:
    // PC comes from $FFFA/$FFFB while the pushed status keeps B = 1.
    let (mut cpu, mut bus) = cart_machine(&[
        (0x8000, 0x00),
        (0xFFFA, 0x00),
        (0xFFFB, 0x81),
        (0xFFFE, 0x00),
        (0xFFFF, 0x82),
    ]);
    // Fetch BRK, then raise the line mid-sequence.
    run(&mut cpu, &mut bus, 3);
    bus.set_nmi(true);
    run(&mut cpu, &mut bus, 4);
    assert_eq!(cpu.registers().program_counter(), 0x8100);
    assert_ne!(bus.cpu_read(0x01FB) & 0x10, 0);
}

#[test]
fn nmi_hijacks_irq_vector_load() {
    // A hardware IRQ sequence commits its vector when 3 cycles remain; an
    // NMI edge that arrives first steals the load. CLI runs first so the
    // IRQ can fire at all.
    let (mut cpu, mut bus) = cart_machine(&[
        (0x8000, 0x58),
        (0xFFFA, 0x00),
        (0xFFFB, 0x81),
        (0xFFFE, 0x00),
        (0xFFFF, 0x82),
    ]);
    run(&mut cpu, &mut bus, 2);
    // CLI's delay defers the first check one instruction.
    run(&mut cpu, &mut bus, 2);
    bus.set_irq_apu_frame(true);
    // Boundary: the IRQ sequence starts, vector still pending.
    cpu.tick(&mut bus);
    assert_eq!(cpu.cycles_remaining(), 7);
    // Two cycles in, the NMI edge arrives — before the commit point.
    run(&mut cpu, &mut bus, 2);
    bus.set_nmi(true);
    run(&mut cpu, &mut bus, 2);
    // The vector committed at 3 remaining: hijacked to the NMI vector.
    assert_eq!(cpu.registers().program_counter(), 0x8100);
    // B = 0: the sequence began as an interrupt.
    assert_eq!(bus.cpu_read(0x01FB) & 0x10, 0);
}

#[test]
fn cli_delays_irq_by_one_instruction() {
    let (mut cpu, mut bus) = cart_machine(&[
        (0x8000, 0x58),
        (0xFFFE, 0x00),
        (0xFFFF, 0x82),
    ]);
    bus.set_irq_apu_frame(true);
    // CLI executes (I was set at power-up, so the IRQ is blocked first).
    run(&mut cpu, &mut bus, 2);
    assert!(!cpu.registers().interrupt_disable());
    // The next instruction still runs: the cleared I is not yet exposed.
    cpu.tick(&mut bus);
    assert_eq!(cpu.registers().program_counter(), 0x8002);
    assert_eq!(cpu.cycles_remaining(), 1);
    cpu.tick(&mut bus);
    // Only now does the IRQ sequence begin.
    cpu.tick(&mut bus);
    assert_eq!(cpu.cycles_remaining(), 7);
    run(&mut cpu, &mut bus, 4);
    assert_eq!(cpu.registers().program_counter(), 0x8200);
}

#[test]
fn sei_does_not_block_the_pending_irq_check() {
    let (mut cpu, mut bus) = cart_machine(&[
        (0x8000, 0x58),
        (0x8002, 0x78),
        (0xFFFE, 0x00),
        (0xFFFF, 0x82),
    ]);
    // CLI (2), its delayed NOP (2), then SEI (2).
    run(&mut cpu, &mut bus, 2 + 2 + 2);
    assert!(cpu.registers().interrupt_disable());
    // The line rises only now; SEI's new I does not block this check.
    bus.set_irq_apu_frame(true);
    cpu.tick(&mut bus);
    assert_eq!(cpu.cycles_remaining(), 7);
    run(&mut cpu, &mut bus, 7);
    assert_eq!(cpu.registers().program_counter(), 0x8200);
}

#[test]
fn oam_dma_stall_even_entry() {
    // LDA #$02, NOP zp, STA $4014: the write lands on an even cycle.
    let mut bus = Bus::new();
    for (i, byte) in [0xA9u8, 0x02, 0x04, 0x00, 0x8D, 0x14, 0x40].iter().enumerate() {
        bus.cpu_write(i as u16, *byte);
    }
    for i in 0..256u16 {
        bus.cpu_write(0x0200 + i, i as u8);
    }
    let mut cpu = Cpu::new();
    cpu.power_on(&mut bus);
    for _ in 0..(7 + 2 + 3 + 3) {
        cpu.tick(&mut bus);
    }
    // The STA executes on this tick; total cycles are even.
    cpu.tick(&mut bus);
    assert_eq!(cpu.total_cycles() & 1, 0);
    assert_eq!(cpu.cycles_remaining(), 513);
    // The whole page reached OAM in one load.
    assert_eq!(bus.ppu.oam.data[0], 0);
    assert_eq!(bus.ppu.oam.data[5], 5);
    assert_eq!(bus.ppu.oam.data[255], 255);
}

#[test]
fn oam_dma_stall_odd_entry() {
    // LDA #$02, STA $4014: the write lands on an odd cycle.
    let mut bus = Bus::new();
    for (i, byte) in [0xA9u8, 0x02, 0x8D, 0x14, 0x40].iter().enumerate() {
        bus.cpu_write(i as u16, *byte);
    }
    let mut cpu = Cpu::new();
    cpu.power_on(&mut bus);
    for _ in 0..(7 + 2 + 3) {
        cpu.tick(&mut bus);
    }
    cpu.tick(&mut bus);
    assert_eq!(cpu.total_cycles() & 1, 1);
    assert_eq!(cpu.cycles_remaining(), 514);
}

#[test]
fn absolute_x_read_page_cross_costs_extra() {
    // LDX #$01, LDA $80FF,X: the index crosses into $8100: 5 cycles.
    let (mut cpu, mut bus) = cart_machine(&[
        (0x8000, 0xA2),
        (0x8001, 0x01),
        (0x8002, 0xBD),
        (0x8003, 0xFF),
        (0x8004, 0x80),
        (0x8100, 0x77),
    ]);
    run(&mut cpu, &mut bus, 2);
    cpu.tick(&mut bus);
    assert_eq!(cpu.cycles_remaining(), 3);
    run(&mut cpu, &mut bus, 3);
    // The handler ran and charged the page-cross penalty.
    assert_eq!(cpu.registers().accumulator(), 0x77);
    assert_eq!(cpu.cycles_remaining(), 1);
    cpu.tick(&mut bus);
    assert_eq!(cpu.cycles_remaining(), 0);
}

#[test]
fn jmp_indirect_page_wrap_bug() {
    // Pointer $10FF; memory $10FF = $34, $1100 = $12, $1000 = $56.
    // The high pointer byte is read from $1000, not $1100 (no carry into
    // the pointer's high byte): target $5634, not $1234.
    let (mut cpu, mut bus) = cart_machine(&[
        (0x8000, 0x6C),
        (0x8001, 0xFF),
        (0x8002, 0x10),
    ]);
    // The pointer cells live in RAM (mirrored every $0800).
    bus.cpu_write(0x10FF, 0x34);
    bus.cpu_write(0x1100, 0x12);
    bus.cpu_write(0x1000, 0x56);
    run(&mut cpu, &mut bus, 5);
    assert_eq!(cpu.registers().program_counter(), 0x5634);
}
