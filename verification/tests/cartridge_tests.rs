use nes_core::cartridge::{Cartridge, Mapper, RomError};
use nes_core::console::Console;
use nes_core::nrom::Nrom;

/// A minimal valid image: 16-byte header, one 16 KiB PRG bank, no CHR, no
/// trainer. The reset vector (CPU address 0xFFFC) lies at PRG offset 0x3FFC.
fn minimal_rom(vector: u16) -> Vec<u8> {
    let mut rom = vec![0u8; 16 + 16384];
    rom[0] = 0x4e;
    rom[1] = 0x45;
    rom[2] = 0x53;
    rom[3] = 0x1a;
    rom[4] = 1;
    rom[5] = 0;
    rom[16 + 0x3ffc] = (vector & 0xff) as u8;
    rom[16 + 0x3ffd] = (vector >> 8) as u8;
    rom
}

#[test]
fn load_and_reset_reads_the_reset_vector() {
    let rom = minimal_rom(0xc123);
    let cart = Cartridge::load_rom(&rom).unwrap();
    let mut console = Console::new(cart);
    console.cpu.reset(&console.cart, true);
    assert_eq!(console.cpu.program_counter(), 0xc123);
}

#[test]
fn load_rejects_short_images() {
    assert!(matches!(Cartridge::load_rom(&vec![0x4e, 0x45, 0x53]), Err(RomError::TooShort)));
}

#[test]
fn load_rejects_bad_magic() {
    let mut rom = minimal_rom(0x8000);
    rom[3] = 0x00;
    assert!(matches!(Cartridge::load_rom(&rom), Err(RomError::BadMagic)));
}

#[test]
fn load_rejects_zero_prg_banks() {
    let mut rom = minimal_rom(0x8000);
    rom[4] = 0;
    assert!(matches!(Cartridge::load_rom(&rom), Err(RomError::NoPrgBanks)));
}

#[test]
fn load_rejects_truncated_images() {
    let mut rom = minimal_rom(0x8000);
    rom.truncate(16 + 16383);
    assert!(matches!(Cartridge::load_rom(&rom), Err(RomError::Truncated)));
    let mut rom2 = minimal_rom(0x8000);
    rom2[5] = 1; // declares 8 KiB of CHR that is not there
    assert!(matches!(Cartridge::load_rom(&rom2), Err(RomError::Truncated)));
}

#[test]
fn load_skips_a_trainer_block() {
    let mut rom = vec![0u8; 16 + 512 + 16384];
    rom[0] = 0x4e;
    rom[1] = 0x45;
    rom[2] = 0x53;
    rom[3] = 0x1a;
    rom[4] = 1;
    rom[6] = 0x04; // trainer present
    rom[16 + 511] = 0xee; // last trainer byte, must not reach PRG
    rom[16 + 512] = 0x99; // first PRG byte
    let cart = Cartridge::load_rom(&rom).unwrap();
    assert_eq!(cart.prg_rom[0], 0x99);
    assert_eq!(cart.cpu_read(0x8000), 0x99);
}

#[test]
fn single_bank_prg_is_mirrored_across_both_halves() {
    let m = Nrom::new(true);
    assert_eq!(m.cpu_read(0x8000), m.cpu_read(0xc000));
    assert_eq!(m.cpu_read(0x9abc), m.cpu_read(0xdabc));
    assert_eq!(m.cpu_read(0x8000), 0);
    assert_eq!(m.cpu_read(0xbfff), 0x3fff);
}

#[test]
fn double_bank_prg_is_mapped_straight_through() {
    let m = Nrom::new(false);
    assert_eq!(m.cpu_read(0x8000), 0);
    assert_eq!(m.cpu_read(0xc000), 0x4000);
    assert_eq!(m.cpu_read(0xffff), 0x7fff);
}

#[test]
fn cartridge_reads_route_through_the_mapper() {
    let mut rom = minimal_rom(0x8000);
    rom[16 + 0x0123] = 0x42;
    let cart = Cartridge::load_rom(&rom).unwrap();
    assert_eq!(cart.cpu_read(0x8123), 0x42);
    assert_eq!(cart.cpu_read(0xc123), 0x42, "mirrored half");
    assert_eq!(cart.cpu_read(0x6000), 0, "work-RAM space is unpopulated");
}

#[test]
fn chr_space_reads_directly_or_returns_zero() {
    let mut rom = minimal_rom(0x8000);
    rom[5] = 1;
    rom.resize(16 + 16384 + 8192, 0);
    rom[16 + 16384 + 7] = 0x31;
    let cart = Cartridge::load_rom(&rom).unwrap();
    assert_eq!(cart.ppu_read(7), 0x31);
    // A cartridge without CHR reads as zero rather than failing.
    let bare = Cartridge::load_rom(&minimal_rom(0x8000)).unwrap();
    assert_eq!(bare.ppu_read(7), 0);
}

#[test]
fn console_runs_a_bounded_program() {
    // A two-instruction loop: LDX #$10; INX; JMP $8002.
    let mut rom = minimal_rom(0x8000);
    rom[16] = 0xa2;
    rom[17] = 0x10;
    rom[18] = 0xe8;
    rom[19] = 0x4c;
    rom[20] = 0x02;
    rom[21] = 0x80;
    let cart = Cartridge::load_rom(&rom).unwrap();
    let mut console = Console::new(cart);
    console.start_console(5);
    // LDX, INX, JMP, INX: X has been incremented twice.
    assert_eq!(console.cpu.x_index(), 0x12);
}
