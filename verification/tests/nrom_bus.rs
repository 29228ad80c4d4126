use rustendulator_core::bus::Bus;
use rustendulator_core::cartridge::{Cartridge, Mirroring};
use rustendulator_core::nrom::Nrom;

fn cart_16k(first_byte: u8) -> Cartridge {
    let mut rom = vec![0x4E, 0x45, 0x53, 0x1A, 1, 1, 0, 0];
    rom.extend_from_slice(&[0u8; 8]);
    rom.extend(std::iter::repeat(0u8).take(16384));
    rom.extend(std::iter::repeat(0u8).take(8192));
    rom[16] = first_byte;
    Cartridge::from_bytes(&rom).unwrap()
}

#[test]
fn nrom_16k_mirrors_at_c000() {
    let cart = cart_16k(0x42);
    assert_eq!(cart.cpu_read(0x8000), 0x42);
    assert_eq!(cart.cpu_read(0xC000), 0x42);
}

#[test]
fn nrom_32k_maps_straight_through() {
    let mut prg = vec![0u8; 32768];
    prg[0] = 0x11;
    prg[0x4000] = 0x22;
    let nrom = Nrom::new(prg, vec![0u8; 8192], Mirroring::Horizontal);
    assert_eq!(nrom.cpu_read(0x8000), 0x11);
    assert_eq!(nrom.cpu_read(0xC000), 0x22);
    assert_eq!(nrom.mirroring(), Mirroring::Horizontal);
}

#[test]
fn nrom_prg_ram_window() {
    let mut cart = cart_16k(0);
    cart.cpu_write(0x6000, 9);
    cart.cpu_write(0x7FFF, 8);
    assert_eq!(cart.cpu_read(0x6000), 9);
    assert_eq!(cart.cpu_read(0x7FFF), 8);
}

#[test]
fn nrom_rom_writes_are_ignored() {
    let mut cart = cart_16k(0x42);
    cart.cpu_write(0x8000, 0x99);
    assert_eq!(cart.cpu_read(0x8000), 0x42);
}

#[test]
fn bus_routes_ram_and_mirrors() {
    let mut bus = Bus::new();
    bus.cpu_write(0x0000, 0x12);
    assert_eq!(bus.cpu_read(0x0000), 0x12);
    assert_eq!(bus.cpu_read(0x0800), 0x12);
    assert_eq!(bus.cpu_read(0x1800), 0x12);
}

#[test]
fn bus_open_bus_returns_last_mapped_read() {
    let mut bus = Bus::new();
    bus.cpu_write(0x0000, 0xAB);
    // A mapped read refreshes the open-bus latch; an unmapped one
    // returns it unchanged.
    assert_eq!(bus.cpu_read(0x0000), 0xAB);
    assert_eq!(bus.cpu_read(0x5000), 0xAB);
    assert_eq!(bus.cpu_read(0x2002), 0xAB);
    // Writes to unmapped addresses are dropped.
    bus.cpu_write(0x5000, 0x77);
    assert_eq!(bus.cpu_read(0x5000), 0xAB);
}

#[test]
fn bus_nmi_edge_is_latched_and_consumed_once() {
    let mut bus = Bus::new();
    assert!(!bus.take_nmi_edge());
    bus.set_nmi(true);
    // Holding the line high produces no further edges.
    bus.set_nmi(true);
    assert!(bus.take_nmi_edge());
    assert!(!bus.take_nmi_edge());
    // A fall and a new rise latch a new edge.
    bus.set_nmi(false);
    assert!(!bus.take_nmi_edge());
    bus.set_nmi(true);
    assert!(bus.take_nmi_edge());
}

#[test]
fn bus_irq_is_or_of_sources() {
    let mut bus = Bus::new();
    assert!(!bus.irq_asserted());
    bus.set_irq_apu_frame(true);
    assert!(bus.irq_asserted());
    bus.set_irq_apu_dmc(true);
    bus.set_irq_apu_frame(false);
    assert!(bus.irq_asserted());
    bus.set_irq_apu_dmc(false);
    bus.set_irq_mapper(true);
    assert!(bus.irq_asserted());
    bus.set_irq_mapper(false);
    assert!(!bus.irq_asserted());
}
