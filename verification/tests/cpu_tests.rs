use nes_core::cartridge::Cartridge;
use nes_core::cpu::Mos6502;
use nes_core::nrom::Nrom;
use nes_core::ppu::Ricoh2c02;

/// A single-bank cartridge whose PRG starts with `program` (CPU address
/// 0x8000) and whose reset vector points at 0x8000.
fn make_cart(program: &[u8]) -> Cartridge<Nrom> {
    let mut prg = vec![0u8; 16384];
    prg[..program.len()].copy_from_slice(program);
    prg[0x3ffc] = 0x00;
    prg[0x3ffd] = 0x80;
    Cartridge { mapper: Nrom::new(true), prg_rom: prg, chr_rom: Vec::new() }
}

fn boot(program: &[u8]) -> (Mos6502, Ricoh2c02, Cartridge<Nrom>) {
    let cart = make_cart(program);
    let mut cpu = Mos6502::new();
    let ppu = Ricoh2c02::new();
    cpu.reset(&cart, true);
    (cpu, ppu, cart)
}

const C: u8 = 0x01;
const Z: u8 = 0x02;
const V: u8 = 0x40;
const N: u8 = 0x80;

#[test]
fn fixed_cycle_counts() {
    // LDA #: 2, LDA zp: 3, LDA abs: 4, INX: 2, JSR: 6, RTS: 6, NOP: 2,
    // ASL abs: 6, PHA: 3, PLA: 4.
    let (mut cpu, mut ppu, cart) = boot(&[
        0xa9, 0x11, // LDA #$11
        0xa5, 0x00, // LDA $00
        0xad, 0x00, 0x02, // LDA $0200
        0xe8, // INX
        0x20, 0x10, 0x80, // JSR $8010
        0xea, // NOP
        0x0e, 0x00, 0x02, // ASL $0200
        0x48, // PHA
        0x68, // PLA
    ]);
    assert_eq!(cpu.execute_instruction(&cart, &mut ppu), 2);
    assert_eq!(cpu.execute_instruction(&cart, &mut ppu), 3);
    assert_eq!(cpu.execute_instruction(&cart, &mut ppu), 4);
    assert_eq!(cpu.execute_instruction(&cart, &mut ppu), 2);
    assert_eq!(cpu.execute_instruction(&cart, &mut ppu), 6);
    assert_eq!(cpu.program_counter(), 0x8010);
}

#[test]
fn unassigned_opcode_costs_one_cycle_and_skips_itself() {
    let (mut cpu, mut ppu, cart) = boot(&[0x02, 0xe8]);
    let before = cpu.status();
    assert_eq!(cpu.execute_instruction(&cart, &mut ppu), 1);
    assert_eq!(cpu.program_counter(), 0x8001);
    assert_eq!(cpu.status(), before);
}

fn adc_oracle(a: u8, m: u8, c: u8) -> (u8, bool, bool, bool, bool) {
    let sum = a as u16 + m as u16 + c as u16;
    let res = (sum & 0xff) as u8;
    let carry = sum > 0xff;
    let overflow = (!(a ^ m) & (a ^ res) & 0x80) != 0;
    (res, res & 0x80 != 0, overflow, res == 0, carry)
}

#[test]
fn adc_matches_oracle_exhaustively() {
    let template = make_cart(&[]);
    for a in 0..=255u8 {
        for m in 0..=255u8 {
            for c in 0..=1u8 {
                let mut prg = template.prg_rom.clone();
                prg[0] = if c == 1 { 0x38 } else { 0x18 }; // SEC / CLC
                prg[1] = 0xa9; // LDA #a
                prg[2] = a;
                prg[3] = 0x69; // ADC #m
                prg[4] = m;
                let cart = Cartridge {
                    mapper: Nrom::new(true),
                    prg_rom: prg,
                    chr_rom: Vec::new(),
                };
                let mut cpu = Mos6502::new();
                let mut ppu = Ricoh2c02::new();
                cpu.reset(&cart, true);
                cpu.execute_instruction(&cart, &mut ppu);
                cpu.execute_instruction(&cart, &mut ppu);
                cpu.execute_instruction(&cart, &mut ppu);
                let (res, n, v, z, carry) = adc_oracle(a, m, c);
                let s = cpu.status();
                assert_eq!(cpu.accumulator(), res, "A'={:02x} a={} m={} c={}", res, a, m, c);
                assert_eq!(s & N != 0, n, "N a={} m={} c={}", a, m, c);
                assert_eq!(s & V != 0, v, "V a={} m={} c={}", a, m, c);
                assert_eq!(s & Z != 0, z, "Z a={} m={} c={}", a, m, c);
                assert_eq!(s & C != 0, carry, "C a={} m={} c={}", a, m, c);
            }
        }
    }
}

#[test]
fn sbc_matches_oracle_exhaustively() {
    let template = make_cart(&[]);
    for a in 0..=255u8 {
        for m in 0..=255u8 {
            for c in 0..=1u8 {
                let mut prg = template.prg_rom.clone();
                prg[0] = if c == 1 { 0x38 } else { 0x18 };
                prg[1] = 0xa9;
                prg[2] = a;
                prg[3] = 0xe9; // SBC #m
                prg[4] = m;
                let cart = Cartridge {
                    mapper: Nrom::new(true),
                    prg_rom: prg,
                    chr_rom: Vec::new(),
                };
                let mut cpu = Mos6502::new();
                let mut ppu = Ricoh2c02::new();
                cpu.reset(&cart, true);
                cpu.execute_instruction(&cart, &mut ppu);
                cpu.execute_instruction(&cart, &mut ppu);
                cpu.execute_instruction(&cart, &mut ppu);
                let (res, n, v, z, carry) = adc_oracle(a, m ^ 0xff, c);
                let s = cpu.status();
                assert_eq!(cpu.accumulator(), res, "A' a={} m={} c={}", a, m, c);
                assert_eq!(s & N != 0, n);
                assert_eq!(s & V != 0, v);
                assert_eq!(s & Z != 0, z);
                assert_eq!(s & C != 0, carry);
            }
        }
    }
}

#[test]
fn adc_signed_overflow_example() {
    // 0x50 + 0x50 with carry clear: result 0xA0, V and N set, C clear.
    let (mut cpu, mut ppu, cart) = boot(&[0x18, 0xa9, 0x50, 0x69, 0x50]);
    cpu.execute_instruction(&cart, &mut ppu);
    cpu.execute_instruction(&cart, &mut ppu);
    cpu.execute_instruction(&cart, &mut ppu);
    assert_eq!(cpu.accumulator(), 0xa0);
    let s = cpu.status();
    assert!(s & V != 0);
    assert!(s & N != 0);
    assert!(s & C == 0);
    assert!(s & Z == 0);
}

#[test]
fn jsr_rts_round_trip_returns_past_the_call() {
    // JSR to a subroutine holding only RTS; execution resumes at 0x8003.
    let mut program = vec![0x20, 0x10, 0x80]; // JSR $8010
    program.resize(0x10, 0xea);
    program.push(0x60); // RTS at $8010
    let (mut cpu, mut ppu, cart) = boot(&program);
    let sp0 = cpu.stack_pointer();
    assert_eq!(cpu.execute_instruction(&cart, &mut ppu), 6);
    assert_eq!(cpu.program_counter(), 0x8010);
    assert_eq!(cpu.stack_pointer(), sp0.wrapping_sub(2));
    assert_eq!(cpu.execute_instruction(&cart, &mut ppu), 6);
    assert_eq!(cpu.program_counter(), 0x8003);
    assert_eq!(cpu.stack_pointer(), sp0);
}

#[test]
fn brk_rti_round_trip_restores_status() {
    // BRK vectors through 0xFFFE/0xFFFF; RTI comes back with the status
    // bits (outside break/unused) intact.
    let mut program = vec![0u8; 0x30];
    program[0] = 0x38; // SEC, to give the status a recognisable bit
    program[1] = 0x00; // BRK at $8001
    program[0x20] = 0x40; // RTI at $8020
    let mut prg = vec![0u8; 16384];
    prg[..program.len()].copy_from_slice(&program);
    prg[0x3ffc] = 0x00;
    prg[0x3ffd] = 0x80;
    prg[0x3ffe] = 0x20; // interrupt vector $8020
    prg[0x3fff] = 0x80;
    let cart = Cartridge { mapper: Nrom::new(true), prg_rom: prg, chr_rom: Vec::new() };
    let mut cpu = Mos6502::new();
    let mut ppu = Ricoh2c02::new();
    cpu.reset(&cart, true);
    cpu.execute_instruction(&cart, &mut ppu); // SEC
    let status_before = cpu.status();
    let sp0 = cpu.stack_pointer();
    assert_eq!(cpu.execute_instruction(&cart, &mut ppu), 7); // BRK
    assert_eq!(cpu.program_counter(), 0x8020);
    cpu.execute_instruction(&cart, &mut ppu); // RTI
    // Resumes one past BRK's padding byte.
    assert_eq!(cpu.program_counter(), 0x8003);
    assert_eq!(cpu.stack_pointer(), sp0);
    assert_eq!(cpu.status() & 0xcf, status_before & 0xcf);
}

#[test]
fn php_plp_round_trip_restores_flags() {
    // SEC; PHP; CLC; PLP: the pull brings the carry back.
    let (mut cpu, mut ppu, cart) = boot(&[0x38, 0x08, 0x18, 0x28]);
    cpu.execute_instruction(&cart, &mut ppu);
    assert_eq!(cpu.execute_instruction(&cart, &mut ppu), 3);
    cpu.execute_instruction(&cart, &mut ppu);
    assert!(cpu.status() & C == 0);
    assert_eq!(cpu.execute_instruction(&cart, &mut ppu), 4);
    assert!(cpu.status() & C != 0);
}

#[test]
fn absolute_indexed_page_cross_costs_one_extra_cycle() {
    // LDX #1; LDA $12FF,X crosses into $1300: 4 + 1 cycles.
    let (mut cpu, mut ppu, cart) = boot(&[0xa2, 0x01, 0xbd, 0xff, 0x12]);
    cpu.execute_instruction(&cart, &mut ppu);
    assert_eq!(cpu.execute_instruction(&cart, &mut ppu), 5);
}

#[test]
fn absolute_indexed_without_page_cross_costs_base_cycles() {
    // LDX #1; LDA $1200,X stays in page $12: 4 cycles.
    let (mut cpu, mut ppu, cart) = boot(&[0xa2, 0x01, 0xbd, 0x00, 0x12]);
    cpu.execute_instruction(&cart, &mut ppu);
    assert_eq!(cpu.execute_instruction(&cart, &mut ppu), 4);
}

#[test]
fn store_never_pays_the_page_cross_cycle() {
    // LDX #1; STA $12FF,X: always 5 cycles, crossing or not.
    let (mut cpu, mut ppu, cart) = boot(&[0xa2, 0x01, 0x9d, 0xff, 0x12]);
    cpu.execute_instruction(&cart, &mut ppu);
    assert_eq!(cpu.execute_instruction(&cart, &mut ppu), 5);
}

#[test]
fn branch_cycles_not_taken_taken_and_page_cross() {
    // BNE with Z set: 2 cycles, falls through.
    let (mut cpu, mut ppu, cart) = boot(&[0xa9, 0x00, 0xd0, 0x10]);
    cpu.execute_instruction(&cart, &mut ppu); // LDA #0 sets Z
    assert_eq!(cpu.execute_instruction(&cart, &mut ppu), 2);
    assert_eq!(cpu.program_counter(), 0x8004);

    // BEQ with Z set, target in the same page: 3 cycles.
    let (mut cpu, mut ppu, cart) = boot(&[0xa9, 0x00, 0xf0, 0x10]);
    cpu.execute_instruction(&cart, &mut ppu);
    assert_eq!(cpu.execute_instruction(&cart, &mut ppu), 3);
    assert_eq!(cpu.program_counter(), 0x8014);

    // BEQ crossing into the previous page: 4 cycles.
    let (mut cpu, mut ppu, cart) = boot(&[0xa9, 0x00, 0xf0, 0xf0]);
    cpu.execute_instruction(&cart, &mut ppu);
    assert_eq!(cpu.execute_instruction(&cart, &mut ppu), 4);
    assert_eq!(cpu.program_counter(), 0x7ff4);
}

#[test]
fn jmp_indirect_reproduces_page_wrap_quirk() {
    // Pointer at $02FF: low byte from $02FF, high byte from $0200 (not $0300).
    let (mut cpu, mut ppu, cart) = boot(&[
        0xa9, 0x34, // LDA #$34
        0x8d, 0xff, 0x02, // STA $02FF
        0xa9, 0x12, // LDA #$12
        0x8d, 0x00, 0x02, // STA $0200
        0x6c, 0xff, 0x02, // JMP ($02FF)
    ]);
    for _ in 0..4 {
        cpu.execute_instruction(&cart, &mut ppu);
    }
    assert_eq!(cpu.execute_instruction(&cart, &mut ppu), 5);
    assert_eq!(cpu.program_counter(), 0x1234);
}

#[test]
fn zero_page_indexed_wraps_within_page_zero() {
    // LDX #5; STA $FE,X writes $0003, not $0103.
    let (mut cpu, mut ppu, cart) = boot(&[0xa9, 0x77, 0xa2, 0x05, 0xa0, 0x09, 0x95, 0xfe]);
    cpu.execute_instruction(&cart, &mut ppu);
    cpu.execute_instruction(&cart, &mut ppu);
    cpu.execute_instruction(&cart, &mut ppu);
    cpu.execute_instruction(&cart, &mut ppu);
    assert_eq!(cpu.x_index(), 0x05);
    assert_eq!(cpu.y_index(), 0x09);
    assert_eq!(cpu.ram_byte(0x0003), 0x77);
    assert_eq!(cpu.ram_byte(0x0103), 0x00);
}

#[test]
fn compare_sets_carry_zero_negative() {
    // LDA #$40; CMP #$30 -> C set, Z clear; CMP #$40 -> C and Z; CMP #$50 -> N.
    let (mut cpu, mut ppu, cart) = boot(&[0xa9, 0x40, 0xc9, 0x30, 0xc9, 0x40, 0xc9, 0x50]);
    cpu.execute_instruction(&cart, &mut ppu);
    cpu.execute_instruction(&cart, &mut ppu);
    assert_eq!(cpu.status() & (C | Z), C);
    cpu.execute_instruction(&cart, &mut ppu);
    assert_eq!(cpu.status() & (C | Z), C | Z);
    cpu.execute_instruction(&cart, &mut ppu);
    assert_eq!(cpu.status() & (C | Z | N), N);
}

#[test]
fn shifts_and_rotates_move_carry() {
    // LDA #$81; ASL: A=$02, C=1; ROL: A=$05 (carry in), C=0.
    let (mut cpu, mut ppu, cart) = boot(&[0xa9, 0x81, 0x0a, 0x2a]);
    cpu.execute_instruction(&cart, &mut ppu);
    cpu.execute_instruction(&cart, &mut ppu);
    assert_eq!(cpu.accumulator(), 0x02);
    assert_eq!(cpu.status() & C, C);
    cpu.execute_instruction(&cart, &mut ppu);
    assert_eq!(cpu.accumulator(), 0x05);
    assert_eq!(cpu.status() & C, 0);
}

#[test]
fn ram_mirrors_every_two_kib() {
    // STA $0005 is visible at $0805 and $1005 through the bus.
    let (mut cpu, mut ppu, cart) = boot(&[
        0xa9, 0x5a, // LDA #$5A
        0x8d, 0x05, 0x00, // STA $0005
        0xad, 0x05, 0x08, // LDA $0805
    ]);
    cpu.execute_instruction(&cart, &mut ppu);
    cpu.execute_instruction(&cart, &mut ppu);
    cpu.execute_instruction(&cart, &mut ppu);
    assert_eq!(cpu.accumulator(), 0x5a);
}

#[test]
fn reset_loads_the_reset_vector() {
    let mut prg = vec![0u8; 16384];
    prg[0x3ffc] = 0xcd;
    prg[0x3ffd] = 0xab;
    let cart = Cartridge { mapper: Nrom::new(true), prg_rom: prg, chr_rom: Vec::new() };
    let mut cpu = Mos6502::new();
    cpu.reset(&cart, true);
    assert_eq!(cpu.program_counter(), 0xabcd);
    // A non-power-up reset also drops the stack pointer by 3 and sets I.
    let sp0 = cpu.stack_pointer();
    cpu.reset(&cart, false);
    assert_eq!(cpu.stack_pointer(), sp0.wrapping_sub(3));
    assert!(cpu.status() & 0x04 != 0);
}
