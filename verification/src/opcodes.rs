//! The instruction table: the fixed mapping from the 256 opcode byte values
//! to (operation, addressing mode) pairs, and the parallel base cycle-count
//! table. Both are total functions of the opcode byte, written as exhaustive
//! matches so that no opcode can be left undecoded; byte values carrying no
//! assigned operation decode to `Nai` ("not an instruction"), which the
//! interpreter treats as a reportable anomaly, not an error.

use vstd::prelude::*;

verus! {

/// The thirteen ways an instruction names its operand.
#[derive(Clone, Copy, Debug, PartialEq, Eq)]
pub enum AddressingMode {
    Implied,
    Accumulator,
    Immediate,
    ZeroPage,
    Absolute,
    Relative,
    Indirect,
    AbsoluteIndexX,
    AbsoluteIndexY,
    ZeroPageX,
    ZeroPageY,
    IndirectX,
    IndirectY,
}

/// Every assigned operation of the instruction set, each carrying its
/// addressing mode; `Nai` stands for the unassigned ("unofficial") opcode
/// byte values.
#[derive(Clone, Copy, Debug, PartialEq, Eq)]
pub enum Instruction {
    Adc(AddressingMode),
    And(AddressingMode),
    Asl(AddressingMode),
    Bcc(AddressingMode),
    Bcs(AddressingMode),
    Beq(AddressingMode),
    Bit(AddressingMode),
    Bmi(AddressingMode),
    Bne(AddressingMode),
    Bpl(AddressingMode),
    Brk(AddressingMode),
    Bvc(AddressingMode),
    Bvs(AddressingMode),
    Clc(AddressingMode),
    Cld(AddressingMode),
    Cli(AddressingMode),
    Clv(AddressingMode),
    Cmp(AddressingMode),
    Cpx(AddressingMode),
    Cpy(AddressingMode),
    Dec(AddressingMode),
    Dex(AddressingMode),
    Dey(AddressingMode),
    Eor(AddressingMode),
    Inc(AddressingMode),
    Inx(AddressingMode),
    Iny(AddressingMode),
    Jmp(AddressingMode),
    Jsr(AddressingMode),
    Lda(AddressingMode),
    Ldx(AddressingMode),
    Ldy(AddressingMode),
    Lsr(AddressingMode),
    Nop(AddressingMode),
    Ora(AddressingMode),
    Pha(AddressingMode),
    Php(AddressingMode),
    Pla(AddressingMode),
    Plp(AddressingMode),
    Rol(AddressingMode),
    Ror(AddressingMode),
    Rti(AddressingMode),
    Rts(AddressingMode),
    Sbc(AddressingMode),
    Sec(AddressingMode),
    Sed(AddressingMode),
    Sei(AddressingMode),
    Sta(AddressingMode),
    Stx(AddressingMode),
    Sty(AddressingMode),
    Tax(AddressingMode),
    Tay(AddressingMode),
    Tsx(AddressingMode),
    Txa(AddressingMode),
    Txs(AddressingMode),
    Tya(AddressingMode),
    Nai,
}

/// The fixed opcode table as a mathematical function.
pub open spec fn spec_decode(op: u8) -> Instruction {
    match op {
        0x00 => Instruction::Brk(AddressingMode::Implied),
        0x01 => Instruction::Ora(AddressingMode::IndirectX),
        0x04 => Instruction::Nop(AddressingMode::ZeroPage),
        0x05 => Instruction::Ora(AddressingMode::ZeroPage),
        0x06 => Instruction::Asl(AddressingMode::ZeroPage),
        0x08 => Instruction::Php(AddressingMode::Implied),
        0x09 => Instruction::Ora(AddressingMode::Immediate),
        0x0a => Instruction::Asl(AddressingMode::Accumulator),
        0x0c => Instruction::Nop(AddressingMode::Absolute),
        0x0d => Instruction::Ora(AddressingMode::Absolute),
        0x0e => Instruction::Asl(AddressingMode::Absolute),
        0x10 => Instruction::Bpl(AddressingMode::Relative),
        0x11 => Instruction::Ora(AddressingMode::IndirectY),
        0x14 => Instruction::Nop(AddressingMode::ZeroPageX),
        0x15 => Instruction::Ora(AddressingMode::ZeroPageX),
        0x16 => Instruction::Asl(AddressingMode::ZeroPageX),
        0x18 => Instruction::Clc(AddressingMode::Implied),
        0x19 => Instruction::Ora(AddressingMode::AbsoluteIndexY),
        0x1a => Instruction::Nop(AddressingMode::Implied),
        0x1c => Instruction::Nop(AddressingMode::AbsoluteIndexX),
        0x1d => Instruction::Ora(AddressingMode::AbsoluteIndexX),
        0x1e => Instruction::Asl(AddressingMode::AbsoluteIndexX),
        0x20 => Instruction::Jsr(AddressingMode::Absolute),
        0x21 => Instruction::And(AddressingMode::IndirectX),
        0x24 => Instruction::Bit(AddressingMode::ZeroPage),
        0x25 => Instruction::And(AddressingMode::ZeroPage),
        0x26 => Instruction::Rol(AddressingMode::ZeroPage),
        0x28 => Instruction::Plp(AddressingMode::Implied),
        0x29 => Instruction::And(AddressingMode::Immediate),
        0x2a => Instruction::Rol(AddressingMode::Accumulator),
        0x2c => Instruction::Bit(AddressingMode::Absolute),
        0x2d => Instruction::And(AddressingMode::Absolute),
        0x2e => Instruction::Rol(AddressingMode::Absolute),
        0x30 => Instruction::Bmi(AddressingMode::Relative),
        0x31 => Instruction::And(AddressingMode::IndirectY),
        0x34 => Instruction::Nop(AddressingMode::ZeroPageX),
        0x35 => Instruction::And(AddressingMode::ZeroPageX),
        0x36 => Instruction::Rol(AddressingMode::ZeroPageX),
        0x38 => Instruction::Sec(AddressingMode::Implied),
        0x39 => Instruction::And(AddressingMode::AbsoluteIndexY),
        0x3a => Instruction::Nop(AddressingMode::Implied),
        0x3c => Instruction::Nop(AddressingMode::AbsoluteIndexX),
        0x3d => Instruction::And(AddressingMode::AbsoluteIndexX),
        0x3e => Instruction::Rol(AddressingMode::AbsoluteIndexX),
        0x40 => Instruction::Rti(AddressingMode::Implied),
        0x41 => Instruction::Eor(AddressingMode::IndirectX),
        0x44 => Instruction::Nop(AddressingMode::ZeroPage),
        0x45 => Instruction::Eor(AddressingMode::ZeroPage),
        0x46 => Instruction::Lsr(AddressingMode::ZeroPage),
        0x48 => Instruction::Pha(AddressingMode::Implied),
        0x49 => Instruction::Eor(AddressingMode::Immediate),
        0x4a => Instruction::Lsr(AddressingMode::Accumulator),
        0x4c => Instruction::Jmp(AddressingMode::Absolute),
        0x4d => Instruction::Eor(AddressingMode::Absolute),
        0x4e => Instruction::Lsr(AddressingMode::Absolute),
        0x50 => Instruction::Bvc(AddressingMode::Relative),
        0x51 => Instruction::Eor(AddressingMode::IndirectY),
        0x54 => Instruction::Nop(AddressingMode::ZeroPageX),
        0x55 => Instruction::Eor(AddressingMode::ZeroPageX),
        0x56 => Instruction::Lsr(AddressingMode::ZeroPageX),
        0x58 => Instruction::Cli(AddressingMode::Implied),
        0x59 => Instruction::Eor(AddressingMode::AbsoluteIndexY),
        0x5a => Instruction::Nop(AddressingMode::Implied),
        0x5c => Instruction::Nop(AddressingMode::AbsoluteIndexX),
        0x5d => Instruction::Eor(AddressingMode::AbsoluteIndexX),
        0x5e => Instruction::Lsr(AddressingMode::AbsoluteIndexX),
        0x60 => Instruction::Rts(AddressingMode::Implied),
        0x61 => Instruction::Adc(AddressingMode::IndirectX),
        0x64 => Instruction::Nop(AddressingMode::ZeroPage),
        0x65 => Instruction::Adc(AddressingMode::ZeroPage),
        0x66 => Instruction::Ror(AddressingMode::ZeroPage),
        0x68 => Instruction::Pla(AddressingMode::Implied),
        0x69 => Instruction::Adc(AddressingMode::Immediate),
        0x6a => Instruction::Ror(AddressingMode::Accumulator),
        0x6c => Instruction::Jmp(AddressingMode::Indirect),
        0x6d => Instruction::Adc(AddressingMode::Absolute),
        0x6e => Instruction::Ror(AddressingMode::Absolute),
        0x70 => Instruction::Bvs(AddressingMode::Relative),
        0x71 => Instruction::Adc(AddressingMode::IndirectY),
        0x74 => Instruction::Nop(AddressingMode::ZeroPageX),
        0x75 => Instruction::Adc(AddressingMode::ZeroPageX),
        0x76 => Instruction::Ror(AddressingMode::ZeroPageX),
        0x78 => Instruction::Sei(AddressingMode::Implied),
        0x79 => Instruction::Adc(AddressingMode::AbsoluteIndexY),
        0x7a => Instruction::Nop(AddressingMode::Implied),
        0x7c => Instruction::Nop(AddressingMode::AbsoluteIndexX),
        0x7d => Instruction::Adc(AddressingMode::AbsoluteIndexX),
        0x7e => Instruction::Ror(AddressingMode::AbsoluteIndexX),
        0x80 => Instruction::Nop(AddressingMode::Immediate),
        0x81 => Instruction::Sta(AddressingMode::IndirectX),
        0x82 => Instruction::Nop(AddressingMode::Immediate),
        0x84 => Instruction::Sty(AddressingMode::ZeroPage),
        0x85 => Instruction::Sta(AddressingMode::ZeroPage),
        0x86 => Instruction::Stx(AddressingMode::ZeroPage),
        0x88 => Instruction::Dey(AddressingMode::Implied),
        0x89 => Instruction::Nop(AddressingMode::Immediate),
        0x8a => Instruction::Txa(AddressingMode::Implied),
        0x8c => Instruction::Sty(AddressingMode::Absolute),
        0x8d => Instruction::Sta(AddressingMode::Absolute),
        0x8e => Instruction::Stx(AddressingMode::Absolute),
        0x90 => Instruction::Bcc(AddressingMode::Relative),
        0x91 => Instruction::Sta(AddressingMode::IndirectY),
        0x94 => Instruction::Sty(AddressingMode::ZeroPageX),
        0x95 => Instruction::Sta(AddressingMode::ZeroPageX),
        0x96 => Instruction::Stx(AddressingMode::ZeroPageY),
        0x98 => Instruction::Tya(AddressingMode::Implied),
        0x99 => Instruction::Sta(AddressingMode::AbsoluteIndexY),
        0x9a => Instruction::Txs(AddressingMode::Implied),
        0x9d => Instruction::Sta(AddressingMode::AbsoluteIndexX),
        0xa0 => Instruction::Ldy(AddressingMode::Immediate),
        0xa1 => Instruction::Lda(AddressingMode::IndirectX),
        0xa2 => Instruction::Ldx(AddressingMode::Immediate),
        0xa4 => Instruction::Ldy(AddressingMode::ZeroPage),
        0xa5 => Instruction::Lda(AddressingMode::ZeroPage),
        0xa6 => Instruction::Ldx(AddressingMode::ZeroPage),
        0xa8 => Instruction::Tay(AddressingMode::Implied),
        0xa9 => Instruction::Lda(AddressingMode::Immediate),
        0xaa => Instruction::Tax(AddressingMode::Implied),
        0xac => Instruction::Ldy(AddressingMode::Absolute),
        0xad => Instruction::Lda(AddressingMode::Absolute),
        0xae => Instruction::Ldx(AddressingMode::Absolute),
        0xb0 => Instruction::Bcs(AddressingMode::Relative),
        0xb1 => Instruction::Lda(AddressingMode::IndirectY),
        0xb4 => Instruction::Ldy(AddressingMode::ZeroPageX),
        0xb5 => Instruction::Lda(AddressingMode::ZeroPageX),
        0xb6 => Instruction::Ldx(AddressingMode::ZeroPageY),
        0xb8 => Instruction::Clv(AddressingMode::Implied),
        0xb9 => Instruction::Lda(AddressingMode::AbsoluteIndexY),
        0xba => Instruction::Tsx(AddressingMode::Implied),
        0xbc => Instruction::Ldy(AddressingMode::AbsoluteIndexX),
        0xbd => Instruction::Lda(AddressingMode::AbsoluteIndexX),
        0xbe => Instruction::Ldx(AddressingMode::AbsoluteIndexY),
        0xc0 => Instruction::Cpy(AddressingMode::Immediate),
        0xc1 => Instruction::Cmp(AddressingMode::IndirectX),
        0xc2 => Instruction::Nop(AddressingMode::Immediate),
        0xc4 => Instruction::Cpy(AddressingMode::ZeroPage),
        0xc5 => Instruction::Cmp(AddressingMode::ZeroPage),
        0xc6 => Instruction::Dec(AddressingMode::ZeroPage),
        0xc8 => Instruction::Iny(AddressingMode::Implied),
        0xc9 => Instruction::Cmp(AddressingMode::Immediate),
        0xca => Instruction::Dex(AddressingMode::Implied),
        0xcc => Instruction::Cpy(AddressingMode::Absolute),
        0xcd => Instruction::Cmp(AddressingMode::Absolute),
        0xce => Instruction::Dec(AddressingMode::Absolute),
        0xd0 => Instruction::Bne(AddressingMode::Relative),
        0xd1 => Instruction::Cmp(AddressingMode::IndirectY),
        0xd4 => Instruction::Nop(AddressingMode::ZeroPageX),
        0xd5 => Instruction::Cmp(AddressingMode::ZeroPageX),
        0xd6 => Instruction::Dec(AddressingMode::ZeroPageX),
        0xd8 => Instruction::Cld(AddressingMode::Implied),
        0xd9 => Instruction::Cmp(AddressingMode::AbsoluteIndexY),
        0xda => Instruction::Nop(AddressingMode::Implied),
        0xdc => Instruction::Nop(AddressingMode::AbsoluteIndexX),
        0xdd => Instruction::Cmp(AddressingMode::AbsoluteIndexX),
        0xde => Instruction::Dec(AddressingMode::AbsoluteIndexX),
        0xe0 => Instruction::Cpx(AddressingMode::Immediate),
        0xe1 => Instruction::Sbc(AddressingMode::IndirectX),
        0xe2 => Instruction::Nop(AddressingMode::Immediate),
        0xe4 => Instruction::Cpx(AddressingMode::ZeroPage),
        0xe5 => Instruction::Sbc(AddressingMode::ZeroPage),
        0xe6 => Instruction::Inc(AddressingMode::ZeroPage),
        0xe8 => Instruction::Inx(AddressingMode::Implied),
        0xe9 => Instruction::Sbc(AddressingMode::Immediate),
        0xea => Instruction::Nop(AddressingMode::Implied),
        0xeb => Instruction::Sbc(AddressingMode::Immediate),
        0xec => Instruction::Cpx(AddressingMode::Absolute),
        0xed => Instruction::Sbc(AddressingMode::Absolute),
        0xee => Instruction::Inc(AddressingMode::Absolute),
        0xf0 => Instruction::Beq(AddressingMode::Relative),
        0xf1 => Instruction::Sbc(AddressingMode::IndirectY),
        0xf4 => Instruction::Nop(AddressingMode::ZeroPageX),
        0xf5 => Instruction::Sbc(AddressingMode::ZeroPageX),
        0xf6 => Instruction::Inc(AddressingMode::ZeroPageX),
        0xf8 => Instruction::Sed(AddressingMode::Implied),
        0xf9 => Instruction::Sbc(AddressingMode::AbsoluteIndexY),
        0xfa => Instruction::Nop(AddressingMode::Implied),
        0xfc => Instruction::Nop(AddressingMode::AbsoluteIndexX),
        0xfd => Instruction::Sbc(AddressingMode::AbsoluteIndexX),
        0xfe => Instruction::Inc(AddressingMode::AbsoluteIndexX),
        _ => Instruction::Nai,
    }
}

/// Look an opcode up in the fixed table.
pub fn decode(op: u8) -> (r: Instruction)
    ensures
        r == spec_decode(op),
{
    match op {
        0x00 => Instruction::Brk(AddressingMode::Implied),
        0x01 => Instruction::Ora(AddressingMode::IndirectX),
        0x04 => Instruction::Nop(AddressingMode::ZeroPage),
        0x05 => Instruction::Ora(AddressingMode::ZeroPage),
        0x06 => Instruction::Asl(AddressingMode::ZeroPage),
        0x08 => Instruction::Php(AddressingMode::Implied),
        0x09 => Instruction::Ora(AddressingMode::Immediate),
        0x0a => Instruction::Asl(AddressingMode::Accumulator),
        0x0c => Instruction::Nop(AddressingMode::Absolute),
        0x0d => Instruction::Ora(AddressingMode::Absolute),
        0x0e => Instruction::Asl(AddressingMode::Absolute),
        0x10 => Instruction::Bpl(AddressingMode::Relative),
        0x11 => Instruction::Ora(AddressingMode::IndirectY),
        0x14 => Instruction::Nop(AddressingMode::ZeroPageX),
        0x15 => Instruction::Ora(AddressingMode::ZeroPageX),
        0x16 => Instruction::Asl(AddressingMode::ZeroPageX),
        0x18 => Instruction::Clc(AddressingMode::Implied),
        0x19 => Instruction::Ora(AddressingMode::AbsoluteIndexY),
        0x1a => Instruction::Nop(AddressingMode::Implied),
        0x1c => Instruction::Nop(AddressingMode::AbsoluteIndexX),
        0x1d => Instruction::Ora(AddressingMode::AbsoluteIndexX),
        0x1e => Instruction::Asl(AddressingMode::AbsoluteIndexX),
        0x20 => Instruction::Jsr(AddressingMode::Absolute),
        0x21 => Instruction::And(AddressingMode::IndirectX),
        0x24 => Instruction::Bit(AddressingMode::ZeroPage),
        0x25 => Instruction::And(AddressingMode::ZeroPage),
        0x26 => Instruction::Rol(AddressingMode::ZeroPage),
        0x28 => Instruction::Plp(AddressingMode::Implied),
        0x29 => Instruction::And(AddressingMode::Immediate),
        0x2a => Instruction::Rol(AddressingMode::Accumulator),
        0x2c => Instruction::Bit(AddressingMode::Absolute),
        0x2d => Instruction::And(AddressingMode::Absolute),
        0x2e => Instruction::Rol(AddressingMode::Absolute),
        0x30 => Instruction::Bmi(AddressingMode::Relative),
        0x31 => Instruction::And(AddressingMode::IndirectY),
        0x34 => Instruction::Nop(AddressingMode::ZeroPageX),
        0x35 => Instruction::And(AddressingMode::ZeroPageX),
        0x36 => Instruction::Rol(AddressingMode::ZeroPageX),
        0x38 => Instruction::Sec(AddressingMode::Implied),
        0x39 => Instruction::And(AddressingMode::AbsoluteIndexY),
        0x3a => Instruction::Nop(AddressingMode::Implied),
        0x3c => Instruction::Nop(AddressingMode::AbsoluteIndexX),
        0x3d => Instruction::And(AddressingMode::AbsoluteIndexX),
        0x3e => Instruction::Rol(AddressingMode::AbsoluteIndexX),
        0x40 => Instruction::Rti(AddressingMode::Implied),
        0x41 => Instruction::Eor(AddressingMode::IndirectX),
        0x44 => Instruction::Nop(AddressingMode::ZeroPage),
        0x45 => Instruction::Eor(AddressingMode::ZeroPage),
        0x46 => Instruction::Lsr(AddressingMode::ZeroPage),
        0x48 => Instruction::Pha(AddressingMode::Implied),
        0x49 => Instruction::Eor(AddressingMode::Immediate),
        0x4a => Instruction::Lsr(AddressingMode::Accumulator),
        0x4c => Instruction::Jmp(AddressingMode::Absolute),
        0x4d => Instruction::Eor(AddressingMode::Absolute),
        0x4e => Instruction::Lsr(AddressingMode::Absolute),
        0x50 => Instruction::Bvc(AddressingMode::Relative),
        0x51 => Instruction::Eor(AddressingMode::IndirectY),
        0x54 => Instruction::Nop(AddressingMode::ZeroPageX),
        0x55 => Instruction::Eor(AddressingMode::ZeroPageX),
        0x56 => Instruction::Lsr(AddressingMode::ZeroPageX),
        0x58 => Instruction::Cli(AddressingMode::Implied),
        0x59 => Instruction::Eor(AddressingMode::AbsoluteIndexY),
        0x5a => Instruction::Nop(AddressingMode::Implied),
        0x5c => Instruction::Nop(AddressingMode::AbsoluteIndexX),
        0x5d => Instruction::Eor(AddressingMode::AbsoluteIndexX),
        0x5e => Instruction::Lsr(AddressingMode::AbsoluteIndexX),
        0x60 => Instruction::Rts(AddressingMode::Implied),
        0x61 => Instruction::Adc(AddressingMode::IndirectX),
        0x64 => Instruction::Nop(AddressingMode::ZeroPage),
        0x65 => Instruction::Adc(AddressingMode::ZeroPage),
        0x66 => Instruction::Ror(AddressingMode::ZeroPage),
        0x68 => Instruction::Pla(AddressingMode::Implied),
        0x69 => Instruction::Adc(AddressingMode::Immediate),
        0x6a => Instruction::Ror(AddressingMode::Accumulator),
        0x6c => Instruction::Jmp(AddressingMode::Indirect),
        0x6d => Instruction::Adc(AddressingMode::Absolute),
        0x6e => Instruction::Ror(AddressingMode::Absolute),
        0x70 => Instruction::Bvs(AddressingMode::Relative),
        0x71 => Instruction::Adc(AddressingMode::IndirectY),
        0x74 => Instruction::Nop(AddressingMode::ZeroPageX),
        0x75 => Instruction::Adc(AddressingMode::ZeroPageX),
        0x76 => Instruction::Ror(AddressingMode::ZeroPageX),
        0x78 => Instruction::Sei(AddressingMode::Implied),
        0x79 => Instruction::Adc(AddressingMode::AbsoluteIndexY),
        0x7a => Instruction::Nop(AddressingMode::Implied),
        0x7c => Instruction::Nop(AddressingMode::AbsoluteIndexX),
        0x7d => Instruction::Adc(AddressingMode::AbsoluteIndexX),
        0x7e => Instruction::Ror(AddressingMode::AbsoluteIndexX),
        0x80 => Instruction::Nop(AddressingMode::Immediate),
        0x81 => Instruction::Sta(AddressingMode::IndirectX),
        0x82 => Instruction::Nop(AddressingMode::Immediate),
        0x84 => Instruction::Sty(AddressingMode::ZeroPage),
        0x85 => Instruction::Sta(AddressingMode::ZeroPage),
        0x86 => Instruction::Stx(AddressingMode::ZeroPage),
        0x88 => Instruction::Dey(AddressingMode::Implied),
        0x89 => Instruction::Nop(AddressingMode::Immediate),
        0x8a => Instruction::Txa(AddressingMode::Implied),
        0x8c => Instruction::Sty(AddressingMode::Absolute),
        0x8d => Instruction::Sta(AddressingMode::Absolute),
        0x8e => Instruction::Stx(AddressingMode::Absolute),
        0x90 => Instruction::Bcc(AddressingMode::Relative),
        0x91 => Instruction::Sta(AddressingMode::IndirectY),
        0x94 => Instruction::Sty(AddressingMode::ZeroPageX),
        0x95 => Instruction::Sta(AddressingMode::ZeroPageX),
        0x96 => Instruction::Stx(AddressingMode::ZeroPageY),
        0x98 => Instruction::Tya(AddressingMode::Implied),
        0x99 => Instruction::Sta(AddressingMode::AbsoluteIndexY),
        0x9a => Instruction::Txs(AddressingMode::Implied),
        0x9d => Instruction::Sta(AddressingMode::AbsoluteIndexX),
        0xa0 => Instruction::Ldy(AddressingMode::Immediate),
        0xa1 => Instruction::Lda(AddressingMode::IndirectX),
        0xa2 => Instruction::Ldx(AddressingMode::Immediate),
        0xa4 => Instruction::Ldy(AddressingMode::ZeroPage),
        0xa5 => Instruction::Lda(AddressingMode::ZeroPage),
        0xa6 => Instruction::Ldx(AddressingMode::ZeroPage),
        0xa8 => Instruction::Tay(AddressingMode::Implied),
        0xa9 => Instruction::Lda(AddressingMode::Immediate),
        0xaa => Instruction::Tax(AddressingMode::Implied),
        0xac => Instruction::Ldy(AddressingMode::Absolute),
        0xad => Instruction::Lda(AddressingMode::Absolute),
        0xae => Instruction::Ldx(AddressingMode::Absolute),
        0xb0 => Instruction::Bcs(AddressingMode::Relative),
        0xb1 => Instruction::Lda(AddressingMode::IndirectY),
        0xb4 => Instruction::Ldy(AddressingMode::ZeroPageX),
        0xb5 => Instruction::Lda(AddressingMode::ZeroPageX),
        0xb6 => Instruction::Ldx(AddressingMode::ZeroPageY),
        0xb8 => Instruction::Clv(AddressingMode::Implied),
        0xb9 => Instruction::Lda(AddressingMode::AbsoluteIndexY),
        0xba => Instruction::Tsx(AddressingMode::Implied),
        0xbc => Instruction::Ldy(AddressingMode::AbsoluteIndexX),
        0xbd => Instruction::Lda(AddressingMode::AbsoluteIndexX),
        0xbe => Instruction::Ldx(AddressingMode::AbsoluteIndexY),
        0xc0 => Instruction::Cpy(AddressingMode::Immediate),
        0xc1 => Instruction::Cmp(AddressingMode::IndirectX),
        0xc2 => Instruction::Nop(AddressingMode::Immediate),
        0xc4 => Instruction::Cpy(AddressingMode::ZeroPage),
        0xc5 => Instruction::Cmp(AddressingMode::ZeroPage),
        0xc6 => Instruction::Dec(AddressingMode::ZeroPage),
        0xc8 => Instruction::Iny(AddressingMode::Implied),
        0xc9 => Instruction::Cmp(AddressingMode::Immediate),
        0xca => Instruction::Dex(AddressingMode::Implied),
        0xcc => Instruction::Cpy(AddressingMode::Absolute),
        0xcd => Instruction::Cmp(AddressingMode::Absolute),
        0xce => Instruction::Dec(AddressingMode::Absolute),
        0xd0 => Instruction::Bne(AddressingMode::Relative),
        0xd1 => Instruction::Cmp(AddressingMode::IndirectY),
        0xd4 => Instruction::Nop(AddressingMode::ZeroPageX),
        0xd5 => Instruction::Cmp(AddressingMode::ZeroPageX),
        0xd6 => Instruction::Dec(AddressingMode::ZeroPageX),
        0xd8 => Instruction::Cld(AddressingMode::Implied),
        0xd9 => Instruction::Cmp(AddressingMode::AbsoluteIndexY),
        0xda => Instruction::Nop(AddressingMode::Implied),
        0xdc => Instruction::Nop(AddressingMode::AbsoluteIndexX),
        0xdd => Instruction::Cmp(AddressingMode::AbsoluteIndexX),
        0xde => Instruction::Dec(AddressingMode::AbsoluteIndexX),
        0xe0 => Instruction::Cpx(AddressingMode::Immediate),
        0xe1 => Instruction::Sbc(AddressingMode::IndirectX),
        0xe2 => Instruction::Nop(AddressingMode::Immediate),
        0xe4 => Instruction::Cpx(AddressingMode::ZeroPage),
        0xe5 => Instruction::Sbc(AddressingMode::ZeroPage),
        0xe6 => Instruction::Inc(AddressingMode::ZeroPage),
        0xe8 => Instruction::Inx(AddressingMode::Implied),
        0xe9 => Instruction::Sbc(AddressingMode::Immediate),
        0xea => Instruction::Nop(AddressingMode::Implied),
        0xeb => Instruction::Sbc(AddressingMode::Immediate),
        0xec => Instruction::Cpx(AddressingMode::Absolute),
        0xed => Instruction::Sbc(AddressingMode::Absolute),
        0xee => Instruction::Inc(AddressingMode::Absolute),
        0xf0 => Instruction::Beq(AddressingMode::Relative),
        0xf1 => Instruction::Sbc(AddressingMode::IndirectY),
        0xf4 => Instruction::Nop(AddressingMode::ZeroPageX),
        0xf5 => Instruction::Sbc(AddressingMode::ZeroPageX),
        0xf6 => Instruction::Inc(AddressingMode::ZeroPageX),
        0xf8 => Instruction::Sed(AddressingMode::Implied),
        0xf9 => Instruction::Sbc(AddressingMode::AbsoluteIndexY),
        0xfa => Instruction::Nop(AddressingMode::Implied),
        0xfc => Instruction::Nop(AddressingMode::AbsoluteIndexX),
        0xfd => Instruction::Sbc(AddressingMode::AbsoluteIndexX),
        0xfe => Instruction::Inc(AddressingMode::AbsoluteIndexX),
        _ => Instruction::Nai,
    }
}

/// The fixed base cycle-count table as a mathematical function. Unassigned
/// opcode bytes take no entry: the interpreter charges them one cycle.
pub open spec fn spec_base_cycles(op: u8) -> u8 {
    match op {
        0x00 => 7,
        0x01 => 6,
        0x04 => 3,
        0x05 => 3,
        0x06 => 5,
        0x08 => 3,
        0x09 => 2,
        0x0a => 2,
        0x0c => 4,
        0x0d => 4,
        0x0e => 6,
        0x10 => 2,
        0x11 => 5,
        0x14 => 4,
        0x15 => 4,
        0x16 => 6,
        0x18 => 2,
        0x19 => 4,
        0x1a => 2,
        0x1c => 4,
        0x1d => 4,
        0x1e => 7,
        0x20 => 6,
        0x21 => 6,
        0x24 => 3,
        0x25 => 3,
        0x26 => 5,
        0x28 => 4,
        0x29 => 2,
        0x2a => 2,
        0x2c => 4,
        0x2d => 4,
        0x2e => 6,
        0x30 => 2,
        0x31 => 5,
        0x34 => 4,
        0x35 => 4,
        0x36 => 6,
        0x38 => 2,
        0x39 => 4,
        0x3a => 2,
        0x3c => 4,
        0x3d => 4,
        0x3e => 7,
        0x40 => 6,
        0x41 => 6,
        0x44 => 3,
        0x45 => 3,
        0x46 => 5,
        0x48 => 3,
        0x49 => 2,
        0x4a => 2,
        0x4c => 3,
        0x4d => 4,
        0x4e => 6,
        0x50 => 2,
        0x51 => 5,
        0x54 => 4,
        0x55 => 4,
        0x56 => 6,
        0x58 => 2,
        0x59 => 4,
        0x5a => 2,
        0x5c => 4,
        0x5d => 4,
        0x5e => 7,
        0x60 => 6,
        0x61 => 6,
        0x64 => 3,
        0x65 => 3,
        0x66 => 5,
        0x68 => 4,
        0x69 => 2,
        0x6a => 2,
        0x6c => 5,
        0x6d => 4,
        0x6e => 6,
        0x70 => 2,
        0x71 => 5,
        0x74 => 4,
        0x75 => 4,
        0x76 => 6,
        0x78 => 2,
        0x79 => 4,
        0x7a => 2,
        0x7c => 4,
        0x7d => 4,
        0x7e => 7,
        0x80 => 2,
        0x81 => 6,
        0x82 => 2,
        0x84 => 3,
        0x85 => 3,
        0x86 => 3,
        0x88 => 2,
        0x89 => 2,
        0x8a => 2,
        0x8c => 4,
        0x8d => 4,
        0x8e => 4,
        0x90 => 2,
        0x91 => 6,
        0x94 => 4,
        0x95 => 4,
        0x96 => 4,
        0x98 => 2,
        0x99 => 5,
        0x9a => 2,
        0x9d => 5,
        0xa0 => 2,
        0xa1 => 6,
        0xa2 => 2,
        0xa4 => 3,
        0xa5 => 3,
        0xa6 => 3,
        0xa8 => 2,
        0xa9 => 2,
        0xaa => 2,
        0xac => 4,
        0xad => 4,
        0xae => 4,
        0xb0 => 2,
        0xb1 => 5,
        0xb4 => 4,
        0xb5 => 4,
        0xb6 => 4,
        0xb8 => 2,
        0xb9 => 4,
        0xba => 2,
        0xbc => 4,
        0xbd => 4,
        0xbe => 4,
        0xc0 => 2,
        0xc1 => 6,
        0xc2 => 2,
        0xc4 => 3,
        0xc5 => 3,
        0xc6 => 5,
        0xc8 => 2,
        0xc9 => 2,
        0xca => 2,
        0xcc => 4,
        0xcd => 4,
        0xce => 6,
        0xd0 => 2,
        0xd1 => 5,
        0xd4 => 4,
        0xd5 => 4,
        0xd6 => 6,
        0xd8 => 2,
        0xd9 => 4,
        0xda => 2,
        0xdc => 4,
        0xdd => 4,
        0xde => 7,
        0xe0 => 2,
        0xe1 => 6,
        0xe2 => 2,
        0xe4 => 3,
        0xe5 => 3,
        0xe6 => 5,
        0xe8 => 2,
        0xe9 => 2,
        0xea => 2,
        0xeb => 2,
        0xec => 4,
        0xed => 4,
        0xee => 6,
        0xf0 => 2,
        0xf1 => 5,
        0xf4 => 4,
        0xf5 => 4,
        0xf6 => 6,
        0xf8 => 2,
        0xf9 => 4,
        0xfa => 2,
        0xfc => 4,
        0xfd => 4,
        0xfe => 7,
        _ => 0,
    }
}

/// Look an opcode's base cycle count up in the fixed table.
pub fn base_cycles(op: u8) -> (r: u8)
    ensures
        r == spec_base_cycles(op),
{
    match op {
        0x00 => 7,
        0x01 => 6,
        0x04 => 3,
        0x05 => 3,
        0x06 => 5,
        0x08 => 3,
        0x09 => 2,
        0x0a => 2,
        0x0c => 4,
        0x0d => 4,
        0x0e => 6,
        0x10 => 2,
        0x11 => 5,
        0x14 => 4,
        0x15 => 4,
        0x16 => 6,
        0x18 => 2,
        0x19 => 4,
        0x1a => 2,
        0x1c => 4,
        0x1d => 4,
        0x1e => 7,
        0x20 => 6,
        0x21 => 6,
        0x24 => 3,
        0x25 => 3,
        0x26 => 5,
        0x28 => 4,
        0x29 => 2,
        0x2a => 2,
        0x2c => 4,
        0x2d => 4,
        0x2e => 6,
        0x30 => 2,
        0x31 => 5,
        0x34 => 4,
        0x35 => 4,
        0x36 => 6,
        0x38 => 2,
        0x39 => 4,
        0x3a => 2,
        0x3c => 4,
        0x3d => 4,
        0x3e => 7,
        0x40 => 6,
        0x41 => 6,
        0x44 => 3,
        0x45 => 3,
        0x46 => 5,
        0x48 => 3,
        0x49 => 2,
        0x4a => 2,
        0x4c => 3,
        0x4d => 4,
        0x4e => 6,
        0x50 => 2,
        0x51 => 5,
        0x54 => 4,
        0x55 => 4,
        0x56 => 6,
        0x58 => 2,
        0x59 => 4,
        0x5a => 2,
        0x5c => 4,
        0x5d => 4,
        0x5e => 7,
        0x60 => 6,
        0x61 => 6,
        0x64 => 3,
        0x65 => 3,
        0x66 => 5,
        0x68 => 4,
        0x69 => 2,
        0x6a => 2,
        0x6c => 5,
        0x6d => 4,
        0x6e => 6,
        0x70 => 2,
        0x71 => 5,
        0x74 => 4,
        0x75 => 4,
        0x76 => 6,
        0x78 => 2,
        0x79 => 4,
        0x7a => 2,
        0x7c => 4,
        0x7d => 4,
        0x7e => 7,
        0x80 => 2,
        0x81 => 6,
        0x82 => 2,
        0x84 => 3,
        0x85 => 3,
        0x86 => 3,
        0x88 => 2,
        0x89 => 2,
        0x8a => 2,
        0x8c => 4,
        0x8d => 4,
        0x8e => 4,
        0x90 => 2,
        0x91 => 6,
        0x94 => 4,
        0x95 => 4,
        0x96 => 4,
        0x98 => 2,
        0x99 => 5,
        0x9a => 2,
        0x9d => 5,
        0xa0 => 2,
        0xa1 => 6,
        0xa2 => 2,
        0xa4 => 3,
        0xa5 => 3,
        0xa6 => 3,
        0xa8 => 2,
        0xa9 => 2,
        0xaa => 2,
        0xac => 4,
        0xad => 4,
        0xae => 4,
        0xb0 => 2,
        0xb1 => 5,
        0xb4 => 4,
        0xb5 => 4,
        0xb6 => 4,
        0xb8 => 2,
        0xb9 => 4,
        0xba => 2,
        0xbc => 4,
        0xbd => 4,
        0xbe => 4,
        0xc0 => 2,
        0xc1 => 6,
        0xc2 => 2,
        0xc4 => 3,
        0xc5 => 3,
        0xc6 => 5,
        0xc8 => 2,
        0xc9 => 2,
        0xca => 2,
        0xcc => 4,
        0xcd => 4,
        0xce => 6,
        0xd0 => 2,
        0xd1 => 5,
        0xd4 => 4,
        0xd5 => 4,
        0xd6 => 6,
        0xd8 => 2,
        0xd9 => 4,
        0xda => 2,
        0xdc => 4,
        0xdd => 4,
        0xde => 7,
        0xe0 => 2,
        0xe1 => 6,
        0xe2 => 2,
        0xe4 => 3,
        0xe5 => 3,
        0xe6 => 5,
        0xe8 => 2,
        0xe9 => 2,
        0xea => 2,
        0xeb => 2,
        0xec => 4,
        0xed => 4,
        0xee => 6,
        0xf0 => 2,
        0xf1 => 5,
        0xf4 => 4,
        0xf5 => 4,
        0xf6 => 6,
        0xf8 => 2,
        0xf9 => 4,
        0xfa => 2,
        0xfc => 4,
        0xfd => 4,
        0xfe => 7,
        _ => 0,
    }
}

/// Addressing modes whose address computation can cross a page and cost the
/// extra "oops" cycle.
pub open spec fn spec_mode_can_cross(mode: AddressingMode) -> bool {
    ||| mode is AbsoluteIndexX
    ||| mode is AbsoluteIndexY
    ||| mode is IndirectY
}

/// Operations that pay the extra cycle when their address computation
/// crosses a page: the read-class operations. Write and read-modify-write
/// operations always take their full base count instead.
pub open spec fn spec_counts_oops(i: Instruction) -> bool {
    match i {
        Instruction::Adc(_) => true,
        Instruction::And(_) => true,
        Instruction::Bit(_) => true,
        Instruction::Cmp(_) => true,
        Instruction::Cpx(_) => true,
        Instruction::Cpy(_) => true,
        Instruction::Eor(_) => true,
        Instruction::Lda(_) => true,
        Instruction::Ldx(_) => true,
        Instruction::Ldy(_) => true,
        Instruction::Nop(_) => true,
        Instruction::Ora(_) => true,
        Instruction::Sbc(_) => true,
        _ => false,
    }
}

/// The branch operations, the other source of extra cycles.
pub open spec fn spec_is_branch(i: Instruction) -> bool {
    match i {
        Instruction::Bcc(_) => true,
        Instruction::Bcs(_) => true,
        Instruction::Beq(_) => true,
        Instruction::Bmi(_) => true,
        Instruction::Bne(_) => true,
        Instruction::Bpl(_) => true,
        Instruction::Bvc(_) => true,
        Instruction::Bvs(_) => true,
        _ => false,
    }
}

/// Every base cycle count lies between 2 and 8 for the assigned opcodes.
pub proof fn lemma_base_cycles_bounds(op: u8)
    ensures
        spec_base_cycles(op) <= 8,
        !(spec_decode(op) is Nai) ==> 2 <= spec_base_cycles(op),
{
}

/// The addressing mode an instruction carries (`Implied` for `Nai`).
pub open spec fn spec_instr_mode(i: Instruction) -> AddressingMode {
    match i {
        Instruction::Adc(m) => m,
        Instruction::And(m) => m,
        Instruction::Asl(m) => m,
        Instruction::Bcc(m) => m,
        Instruction::Bcs(m) => m,
        Instruction::Beq(m) => m,
        Instruction::Bit(m) => m,
        Instruction::Bmi(m) => m,
        Instruction::Bne(m) => m,
        Instruction::Bpl(m) => m,
        Instruction::Brk(m) => m,
        Instruction::Bvc(m) => m,
        Instruction::Bvs(m) => m,
        Instruction::Clc(m) => m,
        Instruction::Cld(m) => m,
        Instruction::Cli(m) => m,
        Instruction::Clv(m) => m,
        Instruction::Cmp(m) => m,
        Instruction::Cpx(m) => m,
        Instruction::Cpy(m) => m,
        Instruction::Dec(m) => m,
        Instruction::Dex(m) => m,
        Instruction::Dey(m) => m,
        Instruction::Eor(m) => m,
        Instruction::Inc(m) => m,
        Instruction::Inx(m) => m,
        Instruction::Iny(m) => m,
        Instruction::Jmp(m) => m,
        Instruction::Jsr(m) => m,
        Instruction::Lda(m) => m,
        Instruction::Ldx(m) => m,
        Instruction::Ldy(m) => m,
        Instruction::Lsr(m) => m,
        Instruction::Nop(m) => m,
        Instruction::Ora(m) => m,
        Instruction::Pha(m) => m,
        Instruction::Php(m) => m,
        Instruction::Pla(m) => m,
        Instruction::Plp(m) => m,
        Instruction::Rol(m) => m,
        Instruction::Ror(m) => m,
        Instruction::Rti(m) => m,
        Instruction::Rts(m) => m,
        Instruction::Sbc(m) => m,
        Instruction::Sec(m) => m,
        Instruction::Sed(m) => m,
        Instruction::Sei(m) => m,
        Instruction::Sta(m) => m,
        Instruction::Stx(m) => m,
        Instruction::Sty(m) => m,
        Instruction::Tax(m) => m,
        Instruction::Tay(m) => m,
        Instruction::Tsx(m) => m,
        Instruction::Txa(m) => m,
        Instruction::Txs(m) => m,
        Instruction::Tya(m) => m,
        Instruction::Nai => AddressingMode::Implied,
    }
}

/// An instruction with a single fixed cost: assigned, not a branch, and not
/// a read-class operation on a page-crossing mode.
pub open spec fn spec_fixed_cycle_instr(i: Instruction) -> bool {
    &&& !(i is Nai)
    &&& !spec_is_branch(i)
    &&& !(spec_counts_oops(i) && spec_mode_can_cross(spec_instr_mode(i)))
}

/// An opcode with a single fixed cost. Executing such an opcode consumes
/// exactly its base cycle count.
pub open spec fn spec_fixed_cycle_opcode(op: u8) -> bool {
    spec_fixed_cycle_instr(spec_decode(op))
}

} // verus!
