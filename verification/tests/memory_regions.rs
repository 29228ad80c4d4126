use rustendulator_core::memory::{Oam, Palette, Ram, Vram};

#[test]
fn ram_mirrors_every_0800() {
    let mut ram = Ram::new();
    ram.write(0x0000, 5);
    assert_eq!(ram.read(0x0000), 5);
    assert_eq!(ram.read(0x0800), 5);
    assert_eq!(ram.read(0x1800), 5);
    ram.write(0x1FFF, 9);
    assert_eq!(ram.read(0x07FF), 9);
}

#[test]
fn vram_mirrors_every_0800() {
    let mut vram = Vram::new();
    vram.write(0x0123, 0x42);
    assert_eq!(vram.read(0x0923), 0x42);
}

#[test]
fn palette_folds_sprite_transparent_entries() {
    let mut palette = Palette::new();
    // $10/$14/$18/$1C fold onto $00/$04/$08/$0C.
    palette.write(0x10, 7);
    assert_eq!(palette.read(0x00), 7);
    palette.write(0x04, 3);
    assert_eq!(palette.read(0x14), 3);
    // Non-multiple-of-four sprite entries do not fold.
    palette.write(0x11, 9);
    assert_eq!(palette.read(0x11), 9);
    assert_ne!(palette.read(0x01), 9);
    // The address is masked with $1F first.
    palette.write(0x3F, 1);
    assert_eq!(palette.read(0x1F), 1);
}

#[test]
fn oam_starts_filled_with_ff() {
    let oam = Oam::new();
    assert_eq!(oam.data[0], 0xFF);
    assert_eq!(oam.data[0xFF], 0xFF);
}

#[test]
fn oam_dma_write_wraps_around() {
    let mut oam = Oam::new();
    let source: Vec<u8> = (0..=255u8).map(|i| i).collect();
    oam.dma_write(0xFE, &source);
    // The copy starts at byte $FE and wraps back to offset 0.
    assert_eq!(oam.data[0xFE], 0);
    assert_eq!(oam.data[0xFF], 1);
    assert_eq!(oam.data[0x00], 2);
    assert_eq!(oam.data[0xFD], 255);
}

#[test]
fn oam_dma_write_from_zero_copies_straight() {
    let mut oam = Oam::new();
    let source: Vec<u8> = (0..=255u8).map(|i| i.wrapping_mul(3)).collect();
    oam.dma_write(0, &source);
    for i in 0..256usize {
        assert_eq!(oam.data[i], (i as u8).wrapping_mul(3));
    }
}
