//! The 6502 opcode table.
//!
//! A dense map from opcode byte to descriptor: operation tag, addressing
//! mode, base cycle count, and whether crossing a page boundary during
//! operand resolution costs one extra cycle. Undocumented opcode bytes
//! behave as a two-cycle no-op with implied addressing.

use vstd::prelude::*;

verus! {

/// One tag per documented 6502 instruction class.
#[derive(Clone, Copy, PartialEq, Eq, Structural, Debug)]
pub enum Mnemonic {
    Adc,
    And,
    Asl,
    Bcc,
    Bcs,
    Beq,
    Bit,
    Bmi,
    Bne,
    Bpl,
    Brk,
    Bvc,
    Bvs,
    Clc,
    Cld,
    Cli,
    Clv,
    Cmp,
    Cpx,
    Cpy,
    Dec,
    Dex,
    Dey,
    Eor,
    Inc,
    Inx,
    Iny,
    Jmp,
    Jsr,
    Lda,
    Ldx,
    Ldy,
    Lsr,
    Nop,
    Ora,
    Pha,
    Php,
    Pla,
    Plp,
    Rol,
    Ror,
    Rti,
    Rts,
    Sbc,
    Sec,
    Sed,
    Sei,
    Sta,
    Stx,
    Sty,
    Tax,
    Tay,
    Tsx,
    Txa,
    Txs,
    Tya,
}

/// The thirteen operand-resolution strategies.
#[derive(Clone, Copy, PartialEq, Eq, Structural, Debug)]
pub enum AddressingMode {
    Implied,
    Accumulator,
    Immediate,
    ZeroPage,
    ZeroPageX,
    ZeroPageY,
    Absolute,
    AbsoluteX,
    AbsoluteY,
    Indirect,
    IndirectX,
    IndirectY,
    Relative,
}

/// Descriptor for one opcode byte.
#[derive(Clone, Copy, PartialEq, Eq, Structural, Debug)]
pub struct Opcode {
    pub mnemonic: Mnemonic,
    pub mode: AddressingMode,
    pub cycles: u8,
    pub page_boundary_cycle: bool,
}

/// The opcode table as a function from opcode byte to descriptor.
pub open spec fn opcode_spec(b: u8) -> Opcode {
    match b {
        0x00 => Opcode { mnemonic: Mnemonic::Brk, mode: AddressingMode::Implied, cycles: 7, page_boundary_cycle: false },
        0x01 => Opcode { mnemonic: Mnemonic::Ora, mode: AddressingMode::IndirectX, cycles: 6, page_boundary_cycle: false },
        0x05 => Opcode { mnemonic: Mnemonic::Ora, mode: AddressingMode::ZeroPage, cycles: 3, page_boundary_cycle: false },
        0x06 => Opcode { mnemonic: Mnemonic::Asl, mode: AddressingMode::ZeroPage, cycles: 5, page_boundary_cycle: false },
        0x08 => Opcode { mnemonic: Mnemonic::Php, mode: AddressingMode::Implied, cycles: 3, page_boundary_cycle: false },
        0x09 => Opcode { mnemonic: Mnemonic::Ora, mode: AddressingMode::Immediate, cycles: 2, page_boundary_cycle: false },
        0x0A => Opcode { mnemonic: Mnemonic::Asl, mode: AddressingMode::Accumulator, cycles: 2, page_boundary_cycle: false },
        0x0D => Opcode { mnemonic: Mnemonic::Ora, mode: AddressingMode::Absolute, cycles: 4, page_boundary_cycle: false },
        0x0E => Opcode { mnemonic: Mnemonic::Asl, mode: AddressingMode::Absolute, cycles: 6, page_boundary_cycle: false },
        0x10 => Opcode { mnemonic: Mnemonic::Bpl, mode: AddressingMode::Relative, cycles: 2, page_boundary_cycle: false },
        0x11 => Opcode { mnemonic: Mnemonic::Ora, mode: AddressingMode::IndirectY, cycles: 5, page_boundary_cycle: true },
        0x15 => Opcode { mnemonic: Mnemonic::Ora, mode: AddressingMode::ZeroPageX, cycles: 4, page_boundary_cycle: false },
        0x16 => Opcode { mnemonic: Mnemonic::Asl, mode: AddressingMode::ZeroPageX, cycles: 6, page_boundary_cycle: false },
        0x18 => Opcode { mnemonic: Mnemonic::Clc, mode: AddressingMode::Implied, cycles: 2, page_boundary_cycle: false },
        0x19 => Opcode { mnemonic: Mnemonic::Ora, mode: AddressingMode::AbsoluteY, cycles: 4, page_boundary_cycle: true },
        0x1D => Opcode { mnemonic: Mnemonic::Ora, mode: AddressingMode::AbsoluteX, cycles: 4, page_boundary_cycle: true },
        0x1E => Opcode { mnemonic: Mnemonic::Asl, mode: AddressingMode::AbsoluteX, cycles: 7, page_boundary_cycle: false },
        0x20 => Opcode { mnemonic: Mnemonic::Jsr, mode: AddressingMode::Absolute, cycles: 6, page_boundary_cycle: false },
        0x21 => Opcode { mnemonic: Mnemonic::And, mode: AddressingMode::IndirectX, cycles: 6, page_boundary_cycle: false },
        0x24 => Opcode { mnemonic: Mnemonic::Bit, mode: AddressingMode::ZeroPage, cycles: 3, page_boundary_cycle: false },
        0x25 => Opcode { mnemonic: Mnemonic::And, mode: AddressingMode::ZeroPage, cycles: 3, page_boundary_cycle: false },
        0x26 => Opcode { mnemonic: Mnemonic::Rol, mode: AddressingMode::ZeroPage, cycles: 5, page_boundary_cycle: false },
        0x28 => Opcode { mnemonic: Mnemonic::Plp, mode: AddressingMode::Implied, cycles: 4, page_boundary_cycle: false },
        0x29 => Opcode { mnemonic: Mnemonic::And, mode: AddressingMode::Immediate, cycles: 2, page_boundary_cycle: false },
        0x2A => Opcode { mnemonic: Mnemonic::Rol, mode: AddressingMode::Accumulator, cycles: 2, page_boundary_cycle: false },
        0x2C => Opcode { mnemonic: Mnemonic::Bit, mode: AddressingMode::Absolute, cycles: 4, page_boundary_cycle: false },
        0x2D => Opcode { mnemonic: Mnemonic::And, mode: AddressingMode::Absolute, cycles: 4, page_boundary_cycle: false },
        0x2E => Opcode { mnemonic: Mnemonic::Rol, mode: AddressingMode::Absolute, cycles: 6, page_boundary_cycle: false },
        0x30 => Opcode { mnemonic: Mnemonic::Bmi, mode: AddressingMode::Relative, cycles: 2, page_boundary_cycle: false },
        0x31 => Opcode { mnemonic: Mnemonic::And, mode: AddressingMode::IndirectY, cycles: 5, page_boundary_cycle: true },
        0x35 => Opcode { mnemonic: Mnemonic::And, mode: AddressingMode::ZeroPageX, cycles: 4, page_boundary_cycle: false },
        0x36 => Opcode { mnemonic: Mnemonic::Rol, mode: AddressingMode::ZeroPageX, cycles: 6, page_boundary_cycle: false },
        0x38 => Opcode { mnemonic: Mnemonic::Sec, mode: AddressingMode::Implied, cycles: 2, page_boundary_cycle: false },
        0x39 => Opcode { mnemonic: Mnemonic::And, mode: AddressingMode::AbsoluteY, cycles: 4, page_boundary_cycle: true },
        0x3D => Opcode { mnemonic: Mnemonic::And, mode: AddressingMode::AbsoluteX, cycles: 4, page_boundary_cycle: true },
        0x3E => Opcode { mnemonic: Mnemonic::Rol, mode: AddressingMode::AbsoluteX, cycles: 7, page_boundary_cycle: false },
        0x40 => Opcode { mnemonic: Mnemonic::Rti, mode: AddressingMode::Implied, cycles: 6, page_boundary_cycle: false },
        0x41 => Opcode { mnemonic: Mnemonic::Eor, mode: AddressingMode::IndirectX, cycles: 6, page_boundary_cycle: false },
        0x45 => Opcode { mnemonic: Mnemonic::Eor, mode: AddressingMode::ZeroPage, cycles: 3, page_boundary_cycle: false },
        0x46 => Opcode { mnemonic: Mnemonic::Lsr, mode: AddressingMode::ZeroPage, cycles: 5, page_boundary_cycle: false },
        0x48 => Opcode { mnemonic: Mnemonic::Pha, mode: AddressingMode::Implied, cycles: 3, page_boundary_cycle: false },
        0x49 => Opcode { mnemonic: Mnemonic::Eor, mode: AddressingMode::Immediate, cycles: 2, page_boundary_cycle: false },
        0x4A => Opcode { mnemonic: Mnemonic::Lsr, mode: AddressingMode::Accumulator, cycles: 2, page_boundary_cycle: false },
        0x4C => Opcode { mnemonic: Mnemonic::Jmp, mode: AddressingMode::Absolute, cycles: 3, page_boundary_cycle: false },
        0x4D => Opcode { mnemonic: Mnemonic::Eor, mode: AddressingMode::Absolute, cycles: 4, page_boundary_cycle: false },
        0x4E => Opcode { mnemonic: Mnemonic::Lsr, mode: AddressingMode::Absolute, cycles: 6, page_boundary_cycle: false },
        0x50 => Opcode { mnemonic: Mnemonic::Bvc, mode: AddressingMode::Relative, cycles: 2, page_boundary_cycle: false },
        0x51 => Opcode { mnemonic: Mnemonic::Eor, mode: AddressingMode::IndirectY, cycles: 5, page_boundary_cycle: true },
        0x55 => Opcode { mnemonic: Mnemonic::Eor, mode: AddressingMode::ZeroPageX, cycles: 4, page_boundary_cycle: false },
        0x56 => Opcode { mnemonic: Mnemonic::Lsr, mode: AddressingMode::ZeroPageX, cycles: 6, page_boundary_cycle: false },
        0x58 => Opcode { mnemonic: Mnemonic::Cli, mode: AddressingMode::Implied, cycles: 2, page_boundary_cycle: false },
        0x59 => Opcode { mnemonic: Mnemonic::Eor, mode: AddressingMode::AbsoluteY, cycles: 4, page_boundary_cycle: true },
        0x5D => Opcode { mnemonic: Mnemonic::Eor, mode: AddressingMode::AbsoluteX, cycles: 4, page_boundary_cycle: true },
        0x5E => Opcode { mnemonic: Mnemonic::Lsr, mode: AddressingMode::AbsoluteX, cycles: 7, page_boundary_cycle: false },
        0x60 => Opcode { mnemonic: Mnemonic::Rts, mode: AddressingMode::Implied, cycles: 6, page_boundary_cycle: false },
        0x61 => Opcode { mnemonic: Mnemonic::Adc, mode: AddressingMode::IndirectX, cycles: 6, page_boundary_cycle: false },
        0x65 => Opcode { mnemonic: Mnemonic::Adc, mode: AddressingMode::ZeroPage, cycles: 3, page_boundary_cycle: false },
        0x66 => Opcode { mnemonic: Mnemonic::Ror, mode: AddressingMode::ZeroPage, cycles: 5, page_boundary_cycle: false },
        0x68 => Opcode { mnemonic: Mnemonic::Pla, mode: AddressingMode::Implied, cycles: 4, page_boundary_cycle: false },
        0x69 => Opcode { mnemonic: Mnemonic::Adc, mode: AddressingMode::Immediate, cycles: 2, page_boundary_cycle: false },
        0x6A => Opcode { mnemonic: Mnemonic::Ror, mode: AddressingMode::Accumulator, cycles: 2, page_boundary_cycle: false },
        0x6C => Opcode { mnemonic: Mnemonic::Jmp, mode: AddressingMode::Indirect, cycles: 5, page_boundary_cycle: false },
        0x6D => Opcode { mnemonic: Mnemonic::Adc, mode: AddressingMode::Absolute, cycles: 4, page_boundary_cycle: false },
        0x6E => Opcode { mnemonic: Mnemonic::Ror, mode: AddressingMode::Absolute, cycles: 6, page_boundary_cycle: false },
        0x70 => Opcode { mnemonic: Mnemonic::Bvs, mode: AddressingMode::Relative, cycles: 2, page_boundary_cycle: false },
        0x71 => Opcode { mnemonic: Mnemonic::Adc, mode: AddressingMode::IndirectY, cycles: 5, page_boundary_cycle: true },
        0x75 => Opcode { mnemonic: Mnemonic::Adc, mode: AddressingMode::ZeroPageX, cycles: 4, page_boundary_cycle: false },
        0x76 => Opcode { mnemonic: Mnemonic::Ror, mode: AddressingMode::ZeroPageX, cycles: 6, page_boundary_cycle: false },
        0x78 => Opcode { mnemonic: Mnemonic::Sei, mode: AddressingMode::Implied, cycles: 2, page_boundary_cycle: false },
        0x79 => Opcode { mnemonic: Mnemonic::Adc, mode: AddressingMode::AbsoluteY, cycles: 4, page_boundary_cycle: true },
        0x7D => Opcode { mnemonic: Mnemonic::Adc, mode: AddressingMode::AbsoluteX, cycles: 4, page_boundary_cycle: true },
        0x7E => Opcode { mnemonic: Mnemonic::Ror, mode: AddressingMode::AbsoluteX, cycles: 7, page_boundary_cycle: false },
        0x81 => Opcode { mnemonic: Mnemonic::Sta, mode: AddressingMode::IndirectX, cycles: 6, page_boundary_cycle: false },
        0x84 => Opcode { mnemonic: Mnemonic::Sty, mode: AddressingMode::ZeroPage, cycles: 3, page_boundary_cycle: false },
        0x85 => Opcode { mnemonic: Mnemonic::Sta, mode: AddressingMode::ZeroPage, cycles: 3, page_boundary_cycle: false },
        0x86 => Opcode { mnemonic: Mnemonic::Stx, mode: AddressingMode::ZeroPage, cycles: 3, page_boundary_cycle: false },
        0x88 => Opcode { mnemonic: Mnemonic::Dey, mode: AddressingMode::Implied, cycles: 2, page_boundary_cycle: false },
        0x8A => Opcode { mnemonic: Mnemonic::Txa, mode: AddressingMode::Implied, cycles: 2, page_boundary_cycle: false },
        0x8C => Opcode { mnemonic: Mnemonic::Sty, mode: AddressingMode::Absolute, cycles: 4, page_boundary_cycle: false },
        0x8D => Opcode { mnemonic: Mnemonic::Sta, mode: AddressingMode::Absolute, cycles: 4, page_boundary_cycle: false },
        0x8E => Opcode { mnemonic: Mnemonic::Stx, mode: AddressingMode::Absolute, cycles: 4, page_boundary_cycle: false },
        0x90 => Opcode { mnemonic: Mnemonic::Bcc, mode: AddressingMode::Relative, cycles: 2, page_boundary_cycle: false },
        0x91 => Opcode { mnemonic: Mnemonic::Sta, mode: AddressingMode::IndirectY, cycles: 6, page_boundary_cycle: false },
        0x94 => Opcode { mnemonic: Mnemonic::Sty, mode: AddressingMode::ZeroPageX, cycles: 4, page_boundary_cycle: false },
        0x95 => Opcode { mnemonic: Mnemonic::Sta, mode: AddressingMode::ZeroPageX, cycles: 4, page_boundary_cycle: false },
        0x96 => Opcode { mnemonic: Mnemonic::Stx, mode: AddressingMode::ZeroPageY, cycles: 4, page_boundary_cycle: false },
        0x98 => Opcode { mnemonic: Mnemonic::Tya, mode: AddressingMode::Implied, cycles: 2, page_boundary_cycle: false },
        0x99 => Opcode { mnemonic: Mnemonic::Sta, mode: AddressingMode::AbsoluteY, cycles: 5, page_boundary_cycle: false },
        0x9A => Opcode { mnemonic: Mnemonic::Txs, mode: AddressingMode::Implied, cycles: 2, page_boundary_cycle: false },
        0x9D => Opcode { mnemonic: Mnemonic::Sta, mode: AddressingMode::AbsoluteX, cycles: 5, page_boundary_cycle: false },
        0xA0 => Opcode { mnemonic: Mnemonic::Ldy, mode: AddressingMode::Immediate, cycles: 2, page_boundary_cycle: false },
        0xA1 => Opcode { mnemonic: Mnemonic::Lda, mode: AddressingMode::IndirectX, cycles: 6, page_boundary_cycle: false },
        0xA2 => Opcode { mnemonic: Mnemonic::Ldx, mode: AddressingMode::Immediate, cycles: 2, page_boundary_cycle: false },
        0xA4 => Opcode { mnemonic: Mnemonic::Ldy, mode: AddressingMode::ZeroPage, cycles: 3, page_boundary_cycle: false },
        0xA5 => Opcode { mnemonic: Mnemonic::Lda, mode: AddressingMode::ZeroPage, cycles: 3, page_boundary_cycle: false },
        0xA6 => Opcode { mnemonic: Mnemonic::Ldx, mode: AddressingMode::ZeroPage, cycles: 3, page_boundary_cycle: false },
        0xA8 => Opcode { mnemonic: Mnemonic::Tay, mode: AddressingMode::Implied, cycles: 2, page_boundary_cycle: false },
        0xA9 => Opcode { mnemonic: Mnemonic::Lda, mode: AddressingMode::Immediate, cycles: 2, page_boundary_cycle: false },
        0xAA => Opcode { mnemonic: Mnemonic::Tax, mode: AddressingMode::Implied, cycles: 2, page_boundary_cycle: false },
        0xAC => Opcode { mnemonic: Mnemonic::Ldy, mode: AddressingMode::Absolute, cycles: 4, page_boundary_cycle: false },
        0xAD => Opcode { mnemonic: Mnemonic::Lda, mode: AddressingMode::Absolute, cycles: 4, page_boundary_cycle: false },
        0xAE => Opcode { mnemonic: Mnemonic::Ldx, mode: AddressingMode::Absolute, cycles: 4, page_boundary_cycle: false },
        0xB0 => Opcode { mnemonic: Mnemonic::Bcs, mode: AddressingMode::Relative, cycles: 2, page_boundary_cycle: false },
        0xB1 => Opcode { mnemonic: Mnemonic::Lda, mode: AddressingMode::IndirectY, cycles: 5, page_boundary_cycle: true },
        0xB4 => Opcode { mnemonic: Mnemonic::Ldy, mode: AddressingMode::ZeroPageX, cycles: 4, page_boundary_cycle: false },
        0xB5 => Opcode { mnemonic: Mnemonic::Lda, mode: AddressingMode::ZeroPageX, cycles: 4, page_boundary_cycle: false },
        0xB6 => Opcode { mnemonic: Mnemonic::Ldx, mode: AddressingMode::ZeroPageY, cycles: 4, page_boundary_cycle: false },
        0xB8 => Opcode { mnemonic: Mnemonic::Clv, mode: AddressingMode::Implied, cycles: 2, page_boundary_cycle: false },
        0xB9 => Opcode { mnemonic: Mnemonic::Lda, mode: AddressingMode::AbsoluteY, cycles: 4, page_boundary_cycle: true },
        0xBA => Opcode { mnemonic: Mnemonic::Tsx, mode: AddressingMode::Implied, cycles: 2, page_boundary_cycle: false },
        0xBC => Opcode { mnemonic: Mnemonic::Ldy, mode: AddressingMode::AbsoluteX, cycles: 4, page_boundary_cycle: true },
        0xBD => Opcode { mnemonic: Mnemonic::Lda, mode: AddressingMode::AbsoluteX, cycles: 4, page_boundary_cycle: true },
        0xBE => Opcode { mnemonic: Mnemonic::Ldx, mode: AddressingMode::AbsoluteY, cycles: 4, page_boundary_cycle: true },
        0xC0 => Opcode { mnemonic: Mnemonic::Cpy, mode: AddressingMode::Immediate, cycles: 2, page_boundary_cycle: false },
        0xC1 => Opcode { mnemonic: Mnemonic::Cmp, mode: AddressingMode::IndirectX, cycles: 6, page_boundary_cycle: false },
        0xC4 => Opcode { mnemonic: Mnemonic::Cpy, mode: AddressingMode::ZeroPage, cycles: 3, page_boundary_cycle: false },
        0xC5 => Opcode { mnemonic: Mnemonic::Cmp, mode: AddressingMode::ZeroPage, cycles: 3, page_boundary_cycle: false },
        0xC6 => Opcode { mnemonic: Mnemonic::Dec, mode: AddressingMode::ZeroPage, cycles: 5, page_boundary_cycle: false },
        0xC8 => Opcode { mnemonic: Mnemonic::Iny, mode: AddressingMode::Implied, cycles: 2, page_boundary_cycle: false },
        0xC9 => Opcode { mnemonic: Mnemonic::Cmp, mode: AddressingMode::Immediate, cycles: 2, page_boundary_cycle: false },
        0xCA => Opcode { mnemonic: Mnemonic::Dex, mode: AddressingMode::Implied, cycles: 2, page_boundary_cycle: false },
        0xCC => Opcode { mnemonic: Mnemonic::Cpy, mode: AddressingMode::Absolute, cycles: 4, page_boundary_cycle: false },
        0xCD => Opcode { mnemonic: Mnemonic::Cmp, mode: AddressingMode::Absolute, cycles: 4, page_boundary_cycle: false },
        0xCE => Opcode { mnemonic: Mnemonic::Dec, mode: AddressingMode::Absolute, cycles: 6, page_boundary_cycle: false },
        0xD0 => Opcode { mnemonic: Mnemonic::Bne, mode: AddressingMode::Relative, cycles: 2, page_boundary_cycle: false },
        0xD1 => Opcode { mnemonic: Mnemonic::Cmp, mode: AddressingMode::IndirectY, cycles: 5, page_boundary_cycle: true },
        0xD5 => Opcode { mnemonic: Mnemonic::Cmp, mode: AddressingMode::ZeroPageX, cycles: 4, page_boundary_cycle: false },
        0xD6 => Opcode { mnemonic: Mnemonic::Dec, mode: AddressingMode::ZeroPageX, cycles: 6, page_boundary_cycle: false },
        0xD8 => Opcode { mnemonic: Mnemonic::Cld, mode: AddressingMode::Implied, cycles: 2, page_boundary_cycle: false },
        0xD9 => Opcode { mnemonic: Mnemonic::Cmp, mode: AddressingMode::AbsoluteY, cycles: 4, page_boundary_cycle: true },
        0xDD => Opcode { mnemonic: Mnemonic::Cmp, mode: AddressingMode::AbsoluteX, cycles: 4, page_boundary_cycle: true },
        0xDE => Opcode { mnemonic: Mnemonic::Dec, mode: AddressingMode::AbsoluteX, cycles: 7, page_boundary_cycle: false },
        0xE0 => Opcode { mnemonic: Mnemonic::Cpx, mode: AddressingMode::Immediate, cycles: 2, page_boundary_cycle: false },
        0xE1 => Opcode { mnemonic: Mnemonic::Sbc, mode: AddressingMode::IndirectX, cycles: 6, page_boundary_cycle: false },
        0xE4 => Opcode { mnemonic: Mnemonic::Cpx, mode: AddressingMode::ZeroPage, cycles: 3, page_boundary_cycle: false },
        0xE5 => Opcode { mnemonic: Mnemonic::Sbc, mode: AddressingMode::ZeroPage, cycles: 3, page_boundary_cycle: false },
        0xE6 => Opcode { mnemonic: Mnemonic::Inc, mode: AddressingMode::ZeroPage, cycles: 5, page_boundary_cycle: false },
        0xE8 => Opcode { mnemonic: Mnemonic::Inx, mode: AddressingMode::Implied, cycles: 2, page_boundary_cycle: false },
        0xE9 => Opcode { mnemonic: Mnemonic::Sbc, mode: AddressingMode::Immediate, cycles: 2, page_boundary_cycle: false },
        0xEA => Opcode { mnemonic: Mnemonic::Nop, mode: AddressingMode::Implied, cycles: 2, page_boundary_cycle: false },
        0xEC => Opcode { mnemonic: Mnemonic::Cpx, mode: AddressingMode::Absolute, cycles: 4, page_boundary_cycle: false },
        0xED => Opcode { mnemonic: Mnemonic::Sbc, mode: AddressingMode::Absolute, cycles: 4, page_boundary_cycle: false },
        0xEE => Opcode { mnemonic: Mnemonic::Inc, mode: AddressingMode::Absolute, cycles: 6, page_boundary_cycle: false },
        0xF0 => Opcode { mnemonic: Mnemonic::Beq, mode: AddressingMode::Relative, cycles: 2, page_boundary_cycle: false },
        0xF1 => Opcode { mnemonic: Mnemonic::Sbc, mode: AddressingMode::IndirectY, cycles: 5, page_boundary_cycle: true },
        0xF5 => Opcode { mnemonic: Mnemonic::Sbc, mode: AddressingMode::ZeroPageX, cycles: 4, page_boundary_cycle: false },
        0xF6 => Opcode { mnemonic: Mnemonic::Inc, mode: AddressingMode::ZeroPageX, cycles: 6, page_boundary_cycle: false },
        0xF8 => Opcode { mnemonic: Mnemonic::Sed, mode: AddressingMode::Implied, cycles: 2, page_boundary_cycle: false },
        0xF9 => Opcode { mnemonic: Mnemonic::Sbc, mode: AddressingMode::AbsoluteY, cycles: 4, page_boundary_cycle: true },
        0xFD => Opcode { mnemonic: Mnemonic::Sbc, mode: AddressingMode::AbsoluteX, cycles: 4, page_boundary_cycle: true },
        0xFE => Opcode { mnemonic: Mnemonic::Inc, mode: AddressingMode::AbsoluteX, cycles: 7, page_boundary_cycle: false },
        _ => Opcode { mnemonic: Mnemonic::Nop, mode: AddressingMode::Implied, cycles: 2, page_boundary_cycle: false },
    }
}

/// Looks an opcode byte up in the table.
///
/// Every descriptor's base cycle count lies between 2 and 7, which rules
/// out underflow and overflow in the cycle accounting of the execute step.
pub fn get_opcode(b: u8) -> (r: Opcode)
    ensures
        r == opcode_spec(b),
        2 <= r.cycles <= 7,
{
    match b {
            0x00 => Opcode { mnemonic: Mnemonic::Brk, mode: AddressingMode::Implied, cycles: 7, page_boundary_cycle: false },
            0x01 => Opcode { mnemonic: Mnemonic::Ora, mode: AddressingMode::IndirectX, cycles: 6, page_boundary_cycle: false },
            0x05 => Opcode { mnemonic: Mnemonic::Ora, mode: AddressingMode::ZeroPage, cycles: 3, page_boundary_cycle: false },
            0x06 => Opcode { mnemonic: Mnemonic::Asl, mode: AddressingMode::ZeroPage, cycles: 5, page_boundary_cycle: false },
            0x08 => Opcode { mnemonic: Mnemonic::Php, mode: AddressingMode::Implied, cycles: 3, page_boundary_cycle: false },
            0x09 => Opcode { mnemonic: Mnemonic::Ora, mode: AddressingMode::Immediate, cycles: 2, page_boundary_cycle: false },
            0x0A => Opcode { mnemonic: Mnemonic::Asl, mode: AddressingMode::Accumulator, cycles: 2, page_boundary_cycle: false },
            0x0D => Opcode { mnemonic: Mnemonic::Ora, mode: AddressingMode::Absolute, cycles: 4, page_boundary_cycle: false },
            0x0E => Opcode { mnemonic: Mnemonic::Asl, mode: AddressingMode::Absolute, cycles: 6, page_boundary_cycle: false },
            0x10 => Opcode { mnemonic: Mnemonic::Bpl, mode: AddressingMode::Relative, cycles: 2, page_boundary_cycle: false },
            0x11 => Opcode { mnemonic: Mnemonic::Ora, mode: AddressingMode::IndirectY, cycles: 5, page_boundary_cycle: true },
            0x15 => Opcode { mnemonic: Mnemonic::Ora, mode: AddressingMode::ZeroPageX, cycles: 4, page_boundary_cycle: false },
            0x16 => Opcode { mnemonic: Mnemonic::Asl, mode: AddressingMode::ZeroPageX, cycles: 6, page_boundary_cycle: false },
            0x18 => Opcode { mnemonic: Mnemonic::Clc, mode: AddressingMode::Implied, cycles: 2, page_boundary_cycle: false },
            0x19 => Opcode { mnemonic: Mnemonic::Ora, mode: AddressingMode::AbsoluteY, cycles: 4, page_boundary_cycle: true },
            0x1D => Opcode { mnemonic: Mnemonic::Ora, mode: AddressingMode::AbsoluteX, cycles: 4, page_boundary_cycle: true },
            0x1E => Opcode { mnemonic: Mnemonic::Asl, mode: AddressingMode::AbsoluteX, cycles: 7, page_boundary_cycle: false },
            0x20 => Opcode { mnemonic: Mnemonic::Jsr, mode: AddressingMode::Absolute, cycles: 6, page_boundary_cycle: false },
            0x21 => Opcode { mnemonic: Mnemonic::And, mode: AddressingMode::IndirectX, cycles: 6, page_boundary_cycle: false },
            0x24 => Opcode { mnemonic: Mnemonic::Bit, mode: AddressingMode::ZeroPage, cycles: 3, page_boundary_cycle: false },
            0x25 => Opcode { mnemonic: Mnemonic::And, mode: AddressingMode::ZeroPage, cycles: 3, page_boundary_cycle: false },
            0x26 => Opcode { mnemonic: Mnemonic::Rol, mode: AddressingMode::ZeroPage, cycles: 5, page_boundary_cycle: false },
            0x28 => Opcode { mnemonic: Mnemonic::Plp, mode: AddressingMode::Implied, cycles: 4, page_boundary_cycle: false },
            0x29 => Opcode { mnemonic: Mnemonic::And, mode: AddressingMode::Immediate, cycles: 2, page_boundary_cycle: false },
            0x2A => Opcode { mnemonic: Mnemonic::Rol, mode: AddressingMode::Accumulator, cycles: 2, page_boundary_cycle: false },
            0x2C => Opcode { mnemonic: Mnemonic::Bit, mode: AddressingMode::Absolute, cycles: 4, page_boundary_cycle: false },
            0x2D => Opcode { mnemonic: Mnemonic::And, mode: AddressingMode::Absolute, cycles: 4, page_boundary_cycle: false },
            0x2E => Opcode { mnemonic: Mnemonic::Rol, mode: AddressingMode::Absolute, cycles: 6, page_boundary_cycle: false },
            0x30 => Opcode { mnemonic: Mnemonic::Bmi, mode: AddressingMode::Relative, cycles: 2, page_boundary_cycle: false },
            0x31 => Opcode { mnemonic: Mnemonic::And, mode: AddressingMode::IndirectY, cycles: 5, page_boundary_cycle: true },
            0x35 => Opcode { mnemonic: Mnemonic::And, mode: AddressingMode::ZeroPageX, cycles: 4, page_boundary_cycle: false },
            0x36 => Opcode { mnemonic: Mnemonic::Rol, mode: AddressingMode::ZeroPageX, cycles: 6, page_boundary_cycle: false },
            0x38 => Opcode { mnemonic: Mnemonic::Sec, mode: AddressingMode::Implied, cycles: 2, page_boundary_cycle: false },
            0x39 => Opcode { mnemonic: Mnemonic::And, mode: AddressingMode::AbsoluteY, cycles: 4, page_boundary_cycle: true },
            0x3D => Opcode { mnemonic: Mnemonic::And, mode: AddressingMode::AbsoluteX, cycles: 4, page_boundary_cycle: true },
            0x3E => Opcode { mnemonic: Mnemonic::Rol, mode: AddressingMode::AbsoluteX, cycles: 7, page_boundary_cycle: false },
            0x40 => Opcode { mnemonic: Mnemonic::Rti, mode: AddressingMode::Implied, cycles: 6, page_boundary_cycle: false },
            0x41 => Opcode { mnemonic: Mnemonic::Eor, mode: AddressingMode::IndirectX, cycles: 6, page_boundary_cycle: false },
            0x45 => Opcode { mnemonic: Mnemonic::Eor, mode: AddressingMode::ZeroPage, cycles: 3, page_boundary_cycle: false },
            0x46 => Opcode { mnemonic: Mnemonic::Lsr, mode: AddressingMode::ZeroPage, cycles: 5, page_boundary_cycle: false },
            0x48 => Opcode { mnemonic: Mnemonic::Pha, mode: AddressingMode::Implied, cycles: 3, page_boundary_cycle: false },
            0x49 => Opcode { mnemonic: Mnemonic::Eor, mode: AddressingMode::Immediate, cycles: 2, page_boundary_cycle: false },
            0x4A => Opcode { mnemonic: Mnemonic::Lsr, mode: AddressingMode::Accumulator, cycles: 2, page_boundary_cycle: false },
            0x4C => Opcode { mnemonic: Mnemonic::Jmp, mode: AddressingMode::Absolute, cycles: 3, page_boundary_cycle: false },
            0x4D => Opcode { mnemonic: Mnemonic::Eor, mode: AddressingMode::Absolute, cycles: 4, page_boundary_cycle: false },
            0x4E => Opcode { mnemonic: Mnemonic::Lsr, mode: AddressingMode::Absolute, cycles: 6, page_boundary_cycle: false },
            0x50 => Opcode { mnemonic: Mnemonic::Bvc, mode: AddressingMode::Relative, cycles: 2, page_boundary_cycle: false },
            0x51 => Opcode { mnemonic: Mnemonic::Eor, mode: AddressingMode::IndirectY, cycles: 5, page_boundary_cycle: true },
            0x55 => Opcode { mnemonic: Mnemonic::Eor, mode: AddressingMode::ZeroPageX, cycles: 4, page_boundary_cycle: false },
            0x56 => Opcode { mnemonic: Mnemonic::Lsr, mode: AddressingMode::ZeroPageX, cycles: 6, page_boundary_cycle: false },
            0x58 => Opcode { mnemonic: Mnemonic::Cli, mode: AddressingMode::Implied, cycles: 2, page_boundary_cycle: false },
            0x59 => Opcode { mnemonic: Mnemonic::Eor, mode: AddressingMode::AbsoluteY, cycles: 4, page_boundary_cycle: true },
            0x5D => Opcode { mnemonic: Mnemonic::Eor, mode: AddressingMode::AbsoluteX, cycles: 4, page_boundary_cycle: true },
            0x5E => Opcode { mnemonic: Mnemonic::Lsr, mode: AddressingMode::AbsoluteX, cycles: 7, page_boundary_cycle: false },
            0x60 => Opcode { mnemonic: Mnemonic::Rts, mode: AddressingMode::Implied, cycles: 6, page_boundary_cycle: false },
            0x61 => Opcode { mnemonic: Mnemonic::Adc, mode: AddressingMode::IndirectX, cycles: 6, page_boundary_cycle: false },
            0x65 => Opcode { mnemonic: Mnemonic::Adc, mode: AddressingMode::ZeroPage, cycles: 3, page_boundary_cycle: false },
            0x66 => Opcode { mnemonic: Mnemonic::Ror, mode: AddressingMode::ZeroPage, cycles: 5, page_boundary_cycle: false },
            0x68 => Opcode { mnemonic: Mnemonic::Pla, mode: AddressingMode::Implied, cycles: 4, page_boundary_cycle: false },
            0x69 => Opcode { mnemonic: Mnemonic::Adc, mode: AddressingMode::Immediate, cycles: 2, page_boundary_cycle: false },
            0x6A => Opcode { mnemonic: Mnemonic::Ror, mode: AddressingMode::Accumulator, cycles: 2, page_boundary_cycle: false },
            0x6C => Opcode { mnemonic: Mnemonic::Jmp, mode: AddressingMode::Indirect, cycles: 5, page_boundary_cycle: false },
            0x6D => Opcode { mnemonic: Mnemonic::Adc, mode: AddressingMode::Absolute, cycles: 4, page_boundary_cycle: false },
            0x6E => Opcode { mnemonic: Mnemonic::Ror, mode: AddressingMode::Absolute, cycles: 6, page_boundary_cycle: false },
            0x70 => Opcode { mnemonic: Mnemonic::Bvs, mode: AddressingMode::Relative, cycles: 2, page_boundary_cycle: false },
            0x71 => Opcode { mnemonic: Mnemonic::Adc, mode: AddressingMode::IndirectY, cycles: 5, page_boundary_cycle: true },
            0x75 => Opcode { mnemonic: Mnemonic::Adc, mode: AddressingMode::ZeroPageX, cycles: 4, page_boundary_cycle: false },
            0x76 => Opcode { mnemonic: Mnemonic::Ror, mode: AddressingMode::ZeroPageX, cycles: 6, page_boundary_cycle: false },
            0x78 => Opcode { mnemonic: Mnemonic::Sei, mode: AddressingMode::Implied, cycles: 2, page_boundary_cycle: false },
            0x79 => Opcode { mnemonic: Mnemonic::Adc, mode: AddressingMode::AbsoluteY, cycles: 4, page_boundary_cycle: true },
            0x7D => Opcode { mnemonic: Mnemonic::Adc, mode: AddressingMode::AbsoluteX, cycles: 4, page_boundary_cycle: true },
            0x7E => Opcode { mnemonic: Mnemonic::Ror, mode: AddressingMode::AbsoluteX, cycles: 7, page_boundary_cycle: false },
            0x81 => Opcode { mnemonic: Mnemonic::Sta, mode: AddressingMode::IndirectX, cycles: 6, page_boundary_cycle: false },
            0x84 => Opcode { mnemonic: Mnemonic::Sty, mode: AddressingMode::ZeroPage, cycles: 3, page_boundary_cycle: false },
            0x85 => Opcode { mnemonic: Mnemonic::Sta, mode: AddressingMode::ZeroPage, cycles: 3, page_boundary_cycle: false },
            0x86 => Opcode { mnemonic: Mnemonic::Stx, mode: AddressingMode::ZeroPage, cycles: 3, page_boundary_cycle: false },
            0x88 => Opcode { mnemonic: Mnemonic::Dey, mode: AddressingMode::Implied, cycles: 2, page_boundary_cycle: false },
            0x8A => Opcode { mnemonic: Mnemonic::Txa, mode: AddressingMode::Implied, cycles: 2, page_boundary_cycle: false },
            0x8C => Opcode { mnemonic: Mnemonic::Sty, mode: AddressingMode::Absolute, cycles: 4, page_boundary_cycle: false },
            0x8D => Opcode { mnemonic: Mnemonic::Sta, mode: AddressingMode::Absolute, cycles: 4, page_boundary_cycle: false },
            0x8E => Opcode { mnemonic: Mnemonic::Stx, mode: AddressingMode::Absolute, cycles: 4, page_boundary_cycle: false },
            0x90 => Opcode { mnemonic: Mnemonic::Bcc, mode: AddressingMode::Relative, cycles: 2, page_boundary_cycle: false },
            0x91 => Opcode { mnemonic: Mnemonic::Sta, mode: AddressingMode::IndirectY, cycles: 6, page_boundary_cycle: false },
            0x94 => Opcode { mnemonic: Mnemonic::Sty, mode: AddressingMode::ZeroPageX, cycles: 4, page_boundary_cycle: false },
            0x95 => Opcode { mnemonic: Mnemonic::Sta, mode: AddressingMode::ZeroPageX, cycles: 4, page_boundary_cycle: false },
            0x96 => Opcode { mnemonic: Mnemonic::Stx, mode: AddressingMode::ZeroPageY, cycles: 4, page_boundary_cycle: false },
            0x98 => Opcode { mnemonic: Mnemonic::Tya, mode: AddressingMode::Implied, cycles: 2, page_boundary_cycle: false },
            0x99 => Opcode { mnemonic: Mnemonic::Sta, mode: AddressingMode::AbsoluteY, cycles: 5, page_boundary_cycle: false },
            0x9A => Opcode { mnemonic: Mnemonic::Txs, mode: AddressingMode::Implied, cycles: 2, page_boundary_cycle: false },
            0x9D => Opcode { mnemonic: Mnemonic::Sta, mode: AddressingMode::AbsoluteX, cycles: 5, page_boundary_cycle: false },
            0xA0 => Opcode { mnemonic: Mnemonic::Ldy, mode: AddressingMode::Immediate, cycles: 2, page_boundary_cycle: false },
            0xA1 => Opcode { mnemonic: Mnemonic::Lda, mode: AddressingMode::IndirectX, cycles: 6, page_boundary_cycle: false },
            0xA2 => Opcode { mnemonic: Mnemonic::Ldx, mode: AddressingMode::Immediate, cycles: 2, page_boundary_cycle: false },
            0xA4 => Opcode { mnemonic: Mnemonic::Ldy, mode: AddressingMode::ZeroPage, cycles: 3, page_boundary_cycle: false },
            0xA5 => Opcode { mnemonic: Mnemonic::Lda, mode: AddressingMode::ZeroPage, cycles: 3, page_boundary_cycle: false },
            0xA6 => Opcode { mnemonic: Mnemonic::Ldx, mode: AddressingMode::ZeroPage, cycles: 3, page_boundary_cycle: false },
            0xA8 => Opcode { mnemonic: Mnemonic::Tay, mode: AddressingMode::Implied, cycles: 2, page_boundary_cycle: false },
            0xA9 => Opcode { mnemonic: Mnemonic::Lda, mode: AddressingMode::Immediate, cycles: 2, page_boundary_cycle: false },
            0xAA => Opcode { mnemonic: Mnemonic::Tax, mode: AddressingMode::Implied, cycles: 2, page_boundary_cycle: false },
            0xAC => Opcode { mnemonic: Mnemonic::Ldy, mode: AddressingMode::Absolute, cycles: 4, page_boundary_cycle: false },
            0xAD => Opcode { mnemonic: Mnemonic::Lda, mode: AddressingMode::Absolute, cycles: 4, page_boundary_cycle: false },
            0xAE => Opcode { mnemonic: Mnemonic::Ldx, mode: AddressingMode::Absolute, cycles: 4, page_boundary_cycle: false },
            0xB0 => Opcode { mnemonic: Mnemonic::Bcs, mode: AddressingMode::Relative, cycles: 2, page_boundary_cycle: false },
            0xB1 => Opcode { mnemonic: Mnemonic::Lda, mode: AddressingMode::IndirectY, cycles: 5, page_boundary_cycle: true },
            0xB4 => Opcode { mnemonic: Mnemonic::Ldy, mode: AddressingMode::ZeroPageX, cycles: 4, page_boundary_cycle: false },
            0xB5 => Opcode { mnemonic: Mnemonic::Lda, mode: AddressingMode::ZeroPageX, cycles: 4, page_boundary_cycle: false },
            0xB6 => Opcode { mnemonic: Mnemonic::Ldx, mode: AddressingMode::ZeroPageY, cycles: 4, page_boundary_cycle: false },
            0xB8 => Opcode { mnemonic: Mnemonic::Clv, mode: AddressingMode::Implied, cycles: 2, page_boundary_cycle: false },
            0xB9 => Opcode { mnemonic: Mnemonic::Lda, mode: AddressingMode::AbsoluteY, cycles: 4, page_boundary_cycle: true },
            0xBA => Opcode { mnemonic: Mnemonic::Tsx, mode: AddressingMode::Implied, cycles: 2, page_boundary_cycle: false },
            0xBC => Opcode { mnemonic: Mnemonic::Ldy, mode: AddressingMode::AbsoluteX, cycles: 4, page_boundary_cycle: true },
            0xBD => Opcode { mnemonic: Mnemonic::Lda, mode: AddressingMode::AbsoluteX, cycles: 4, page_boundary_cycle: true },
            0xBE => Opcode { mnemonic: Mnemonic::Ldx, mode: AddressingMode::AbsoluteY, cycles: 4, page_boundary_cycle: true },
            0xC0 => Opcode { mnemonic: Mnemonic::Cpy, mode: AddressingMode::Immediate, cycles: 2, page_boundary_cycle: false },
            0xC1 => Opcode { mnemonic: Mnemonic::Cmp, mode: AddressingMode::IndirectX, cycles: 6, page_boundary_cycle: false },
            0xC4 => Opcode { mnemonic: Mnemonic::Cpy, mode: AddressingMode::ZeroPage, cycles: 3, page_boundary_cycle: false },
            0xC5 => Opcode { mnemonic: Mnemonic::Cmp, mode: AddressingMode::ZeroPage, cycles: 3, page_boundary_cycle: false },
            0xC6 => Opcode { mnemonic: Mnemonic::Dec, mode: AddressingMode::ZeroPage, cycles: 5, page_boundary_cycle: false },
            0xC8 => Opcode { mnemonic: Mnemonic::Iny, mode: AddressingMode::Implied, cycles: 2, page_boundary_cycle: false },
            0xC9 => Opcode { mnemonic: Mnemonic::Cmp, mode: AddressingMode::Immediate, cycles: 2, page_boundary_cycle: false },
            0xCA => Opcode { mnemonic: Mnemonic::Dex, mode: AddressingMode::Implied, cycles: 2, page_boundary_cycle: false },
            0xCC => Opcode { mnemonic: Mnemonic::Cpy, mode: AddressingMode::Absolute, cycles: 4, page_boundary_cycle: false },
            0xCD => Opcode { mnemonic: Mnemonic::Cmp, mode: AddressingMode::Absolute, cycles: 4, page_boundary_cycle: false },
            0xCE => Opcode { mnemonic: Mnemonic::Dec, mode: AddressingMode::Absolute, cycles: 6, page_boundary_cycle: false },
            0xD0 => Opcode { mnemonic: Mnemonic::Bne, mode: AddressingMode::Relative, cycles: 2, page_boundary_cycle: false },
            0xD1 => Opcode { mnemonic: Mnemonic::Cmp, mode: AddressingMode::IndirectY, cycles: 5, page_boundary_cycle: true },
            0xD5 => Opcode { mnemonic: Mnemonic::Cmp, mode: AddressingMode::ZeroPageX, cycles: 4, page_boundary_cycle: false },
            0xD6 => Opcode { mnemonic: Mnemonic::Dec, mode: AddressingMode::ZeroPageX, cycles: 6, page_boundary_cycle: false },
            0xD8 => Opcode { mnemonic: Mnemonic::Cld, mode: AddressingMode::Implied, cycles: 2, page_boundary_cycle: false },
            0xD9 => Opcode { mnemonic: Mnemonic::Cmp, mode: AddressingMode::AbsoluteY, cycles: 4, page_boundary_cycle: true },
            0xDD => Opcode { mnemonic: Mnemonic::Cmp, mode: AddressingMode::AbsoluteX, cycles: 4, page_boundary_cycle: true },
            0xDE => Opcode { mnemonic: Mnemonic::Dec, mode: AddressingMode::AbsoluteX, cycles: 7, page_boundary_cycle: false },
            0xE0 => Opcode { mnemonic: Mnemonic::Cpx, mode: AddressingMode::Immediate, cycles: 2, page_boundary_cycle: false },
            0xE1 => Opcode { mnemonic: Mnemonic::Sbc, mode: AddressingMode::IndirectX, cycles: 6, page_boundary_cycle: false },
            0xE4 => Opcode { mnemonic: Mnemonic::Cpx, mode: AddressingMode::ZeroPage, cycles: 3, page_boundary_cycle: false },
            0xE5 => Opcode { mnemonic: Mnemonic::Sbc, mode: AddressingMode::ZeroPage, cycles: 3, page_boundary_cycle: false },
            0xE6 => Opcode { mnemonic: Mnemonic::Inc, mode: AddressingMode::ZeroPage, cycles: 5, page_boundary_cycle: false },
            0xE8 => Opcode { mnemonic: Mnemonic::Inx, mode: AddressingMode::Implied, cycles: 2, page_boundary_cycle: false },
            0xE9 => Opcode { mnemonic: Mnemonic::Sbc, mode: AddressingMode::Immediate, cycles: 2, page_boundary_cycle: false },
            0xEA => Opcode { mnemonic: Mnemonic::Nop, mode: AddressingMode::Implied, cycles: 2, page_boundary_cycle: false },
            0xEC => Opcode { mnemonic: Mnemonic::Cpx, mode: AddressingMode::Absolute, cycles: 4, page_boundary_cycle: false },
            0xED => Opcode { mnemonic: Mnemonic::Sbc, mode: AddressingMode::Absolute, cycles: 4, page_boundary_cycle: false },
            0xEE => Opcode { mnemonic: Mnemonic::Inc, mode: AddressingMode::Absolute, cycles: 6, page_boundary_cycle: false },
            0xF0 => Opcode { mnemonic: Mnemonic::Beq, mode: AddressingMode::Relative, cycles: 2, page_boundary_cycle: false },
            0xF1 => Opcode { mnemonic: Mnemonic::Sbc, mode: AddressingMode::IndirectY, cycles: 5, page_boundary_cycle: true },
            0xF5 => Opcode { mnemonic: Mnemonic::Sbc, mode: AddressingMode::ZeroPageX, cycles: 4, page_boundary_cycle: false },
            0xF6 => Opcode { mnemonic: Mnemonic::Inc, mode: AddressingMode::ZeroPageX, cycles: 6, page_boundary_cycle: false },
            0xF8 => Opcode { mnemonic: Mnemonic::Sed, mode: AddressingMode::Implied, cycles: 2, page_boundary_cycle: false },
            0xF9 => Opcode { mnemonic: Mnemonic::Sbc, mode: AddressingMode::AbsoluteY, cycles: 4, page_boundary_cycle: true },
            0xFD => Opcode { mnemonic: Mnemonic::Sbc, mode: AddressingMode::AbsoluteX, cycles: 4, page_boundary_cycle: true },
            0xFE => Opcode { mnemonic: Mnemonic::Inc, mode: AddressingMode::AbsoluteX, cycles: 7, page_boundary_cycle: false },
            _ => Opcode { mnemonic: Mnemonic::Nop, mode: AddressingMode::Implied, cycles: 2, page_boundary_cycle: false },
    }
}

} // verus!
