use rustendulator_core::registers::CpuRegisters;

#[test]
fn status_push_sets_bit5_and_break() {
    let regs = CpuRegisters::new();
    let pushed_break = regs.status_for_stack_push(true);
    let pushed_irq = regs.status_for_stack_push(false);
    // Power-up flags: only I set; bit 5 always rides along on a push.
    assert_eq!(pushed_break, 0b0011_0100);
    assert_eq!(pushed_irq, 0b0010_0100);
    assert!(pushed_break & 0x20 != 0);
    assert!(pushed_irq & 0x20 != 0);
}

#[test]
fn status_push_packs_all_flags() {
    let mut regs = CpuRegisters::new();
    regs.set_carry(true);
    regs.set_zero(true);
    regs.set_interrupt_disable(true);
    regs.set_decimal(true);
    regs.set_overflow(true);
    regs.set_negative(true);
    assert_eq!(regs.status_for_stack_push(true), 0xFF);
    assert_eq!(regs.status_for_stack_push(false), 0xEF);
}

#[test]
fn status_pop_discards_break_and_bit5() {
    let mut regs = CpuRegisters::new();
    regs.set_status_from_stack_pop(0xFF);
    // All six stored flags come in; B and bit 5 have no storage.
    assert!(regs.carry());
    assert!(regs.zero());
    assert!(regs.interrupt_disable());
    assert!(regs.decimal());
    assert!(regs.overflow());
    assert!(regs.negative());
    // A push right after reports bit 5 as 1 and B as asked, regardless of
    // what the popped byte held there.
    assert_eq!(regs.status_for_stack_push(false), 0xEF);

    regs.set_status_from_stack_pop(0x30);
    // Only B and bit 5 were set in the byte: every stored flag clears.
    assert!(!regs.carry());
    assert!(!regs.zero());
    assert!(!regs.interrupt_disable());
    assert!(!regs.decimal());
    assert!(!regs.overflow());
    assert!(!regs.negative());
    assert_eq!(regs.status_for_stack_push(false), 0x20);
}

#[test]
fn status_round_trip_restores_flags() {
    let mut regs = CpuRegisters::new();
    regs.set_carry(true);
    regs.set_negative(true);
    regs.set_decimal(true);
    let byte = regs.status_for_stack_push(true);
    let mut other = CpuRegisters::new();
    other.set_status_from_stack_pop(byte);
    assert_eq!(other.carry(), regs.carry());
    assert_eq!(other.zero(), regs.zero());
    assert_eq!(other.interrupt_disable(), regs.interrupt_disable());
    assert_eq!(other.decimal(), regs.decimal());
    assert_eq!(other.overflow(), regs.overflow());
    assert_eq!(other.negative(), regs.negative());
}

#[test]
fn pointer_helpers_wrap() {
    let mut regs = CpuRegisters::new();
    regs.stack_pointer = 0x00;
    regs.decrement_sp();
    assert_eq!(regs.stack_pointer(), 0xFF);
    regs.increment_sp();
    assert_eq!(regs.stack_pointer(), 0x00);
    regs.program_counter = 0xFFFF;
    regs.increment_pc();
    assert_eq!(regs.program_counter(), 0x0000);
}

#[test]
fn power_up_register_state() {
    let regs = CpuRegisters::new();
    assert_eq!(regs.accumulator(), 0);
    assert_eq!(regs.index_x(), 0);
    assert_eq!(regs.index_y(), 0);
    assert_eq!(regs.program_counter(), 0);
    assert_eq!(regs.stack_pointer(), 0xFD);
    assert!(regs.interrupt_disable());
    assert!(!regs.carry());
    assert!(!regs.zero());
    assert!(!regs.decimal());
    assert!(!regs.overflow());
    assert!(!regs.negative());
}
