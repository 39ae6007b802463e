//! The opcode table: the total mapping from every byte value to the
//! instruction it encodes.
//!
//! Every one of the 256 byte values decodes, either to the descriptor of
//! one of the 56 official instructions or, explicitly, to no instruction
//! at all. The mnemonic, addressing mode, byte length and base cycle
//! count of each entry follow the published 6502 opcode matrix.

use vstd::prelude::*;

verus! {

/// One of the thirteen rules for locating an instruction's operand.
#[derive(Clone, Copy, PartialEq, Eq, Debug, Structural)]
pub enum AddressingMode {
    Implicit,
    Accumulator,
    Immediate,
    ZeroPage,
    ZeroPageX,
    ZeroPageY,
    Relative,
    Absolute,
    AbsoluteX,
    AbsoluteY,
    Indirect,
    IndexedIndirect,
    IndirectIndexed,
}

/// One of the 56 official instruction mnemonics.
#[derive(Clone, Copy, PartialEq, Eq, Debug, Structural)]
pub enum Instruction {
    Adc,
    And,
    Asl,
    Bcc,
    Bcs,
    Beq,
    Bit,
    Bmi,
    Bne,
    Bpl,
    Brk,
    Bvc,
    Bvs,
    Clc,
    Cld,
    Cli,
    Clv,
    Cmp,
    Cpx,
    Cpy,
    Dec,
    Dex,
    Dey,
    Eor,
    Inc,
    Inx,
    Iny,
    Jmp,
    Jsr,
    Lda,
    Ldx,
    Ldy,
    Lsr,
    Nop,
    Ora,
    Pha,
    Php,
    Pla,
    Plp,
    Rol,
    Ror,
    Rti,
    Rts,
    Sbc,
    Sec,
    Sed,
    Sei,
    Sta,
    Stx,
    Sty,
    Tax,
    Tay,
    Tsx,
    Txa,
    Txs,
    Tya,
}

/// What one opcode byte stands for: the instruction, how its operand is
/// addressed, the instruction's total length in bytes, and the cycles it
/// takes before any page-cross or taken-branch penalty.
#[derive(Clone, Copy, PartialEq, Eq, Debug, Structural)]
pub struct Opcode {
    pub instruction: Instruction,
    pub mode: AddressingMode,
    pub bytes: u8,
    pub cycles: u8,
}

/// The decode table as a mathematical function: the descriptor of every
/// official opcode byte, and `None` for every byte with no official
/// meaning.
pub open spec fn spec_decode(byte: u8) -> Option<Opcode> {
    match byte {
        0x00 => Some(
            Opcode {
                instruction: Instruction::Brk,
                mode: AddressingMode::Implicit,
                bytes: 1,
                cycles: 7,
            },
        ),
        0x01 => Some(
            Opcode {
                instruction: Instruction::Ora,
                mode: AddressingMode::IndexedIndirect,
                bytes: 2,
                cycles: 6,
            },
        ),
        0x05 => Some(
            Opcode {
                instruction: Instruction::Ora,
                mode: AddressingMode::ZeroPage,
                bytes: 2,
                cycles: 3,
            },
        ),
        0x06 => Some(
            Opcode {
                instruction: Instruction::Asl,
                mode: AddressingMode::ZeroPage,
                bytes: 2,
                cycles: 5,
            },
        ),
        0x08 => Some(
            Opcode {
                instruction: Instruction::Php,
                mode: AddressingMode::Implicit,
                bytes: 1,
                cycles: 3,
            },
        ),
        0x09 => Some(
            Opcode {
                instruction: Instruction::Ora,
                mode: AddressingMode::Immediate,
                bytes: 2,
                cycles: 2,
            },
        ),
        0x0A => Some(
            Opcode {
                instruction: Instruction::Asl,
                mode: AddressingMode::Accumulator,
                bytes: 1,
                cycles: 2,
            },
        ),
        0x0D => Some(
            Opcode {
                instruction: Instruction::Ora,
                mode: AddressingMode::Absolute,
                bytes: 3,
                cycles: 4,
            },
        ),
        0x0E => Some(
            Opcode {
                instruction: Instruction::Asl,
                mode: AddressingMode::Absolute,
                bytes: 3,
                cycles: 6,
            },
        ),
        0x10 => Some(
            Opcode {
                instruction: Instruction::Bpl,
                mode: AddressingMode::Relative,
                bytes: 2,
                cycles: 2,
            },
        ),
        0x11 => Some(
            Opcode {
                instruction: Instruction::Ora,
                mode: AddressingMode::IndirectIndexed,
                bytes: 2,
                cycles: 5,
            },
        ),
        0x15 => Some(
            Opcode {
                instruction: Instruction::Ora,
                mode: AddressingMode::ZeroPageX,
                bytes: 2,
                cycles: 4,
            },
        ),
        0x16 => Some(
            Opcode {
                instruction: Instruction::Asl,
                mode: AddressingMode::ZeroPageX,
                bytes: 2,
                cycles: 6,
            },
        ),
        0x18 => Some(
            Opcode {
                instruction: Instruction::Clc,
                mode: AddressingMode::Implicit,
                bytes: 1,
                cycles: 2,
            },
        ),
        0x19 => Some(
            Opcode {
                instruction: Instruction::Ora,
                mode: AddressingMode::AbsoluteY,
                bytes: 3,
                cycles: 4,
            },
        ),
        0x1D => Some(
            Opcode {
                instruction: Instruction::Ora,
                mode: AddressingMode::AbsoluteX,
                bytes: 3,
                cycles: 4,
            },
        ),
        0x1E => Some(
            Opcode {
                instruction: Instruction::Asl,
                mode: AddressingMode::AbsoluteX,
                bytes: 3,
                cycles: 7,
            },
        ),
        0x20 => Some(
            Opcode {
                instruction: Instruction::Jsr,
                mode: AddressingMode::Absolute,
                bytes: 3,
                cycles: 6,
            },
        ),
        0x21 => Some(
            Opcode {
                instruction: Instruction::And,
                mode: AddressingMode::IndexedIndirect,
                bytes: 2,
                cycles: 6,
            },
        ),
        0x24 => Some(
            Opcode {
                instruction: Instruction::Bit,
                mode: AddressingMode::ZeroPage,
                bytes: 2,
                cycles: 3,
            },
        ),
        0x25 => Some(
            Opcode {
                instruction: Instruction::And,
                mode: AddressingMode::ZeroPage,
                bytes: 2,
                cycles: 3,
            },
        ),
        0x26 => Some(
            Opcode {
                instruction: Instruction::Rol,
                mode: AddressingMode::ZeroPage,
                bytes: 2,
                cycles: 5,
            },
        ),
        0x28 => Some(
            Opcode {
                instruction: Instruction::Plp,
                mode: AddressingMode::Implicit,
                bytes: 1,
                cycles: 4,
            },
        ),
        0x29 => Some(
            Opcode {
                instruction: Instruction::And,
                mode: AddressingMode::Immediate,
                bytes: 2,
                cycles: 2,
            },
        ),
        0x2A => Some(
            Opcode {
                instruction: Instruction::Rol,
                mode: AddressingMode::Accumulator,
                bytes: 1,
                cycles: 2,
            },
        ),
        0x2C => Some(
            Opcode {
                instruction: Instruction::Bit,
                mode: AddressingMode::Absolute,
                bytes: 3,
                cycles: 4,
            },
        ),
        0x2D => Some(
            Opcode {
                instruction: Instruction::And,
                mode: AddressingMode::Absolute,
                bytes: 3,
                cycles: 4,
            },
        ),
        0x2E => Some(
            Opcode {
                instruction: Instruction::Rol,
                mode: AddressingMode::Absolute,
                bytes: 3,
                cycles: 6,
            },
        ),
        0x30 => Some(
            Opcode {
                instruction: Instruction::Bmi,
                mode: AddressingMode::Relative,
                bytes: 2,
                cycles: 2,
            },
        ),
        0x31 => Some(
            Opcode {
                instruction: Instruction::And,
                mode: AddressingMode::IndirectIndexed,
                bytes: 2,
                cycles: 5,
            },
        ),
        0x35 => Some(
            Opcode {
                instruction: Instruction::And,
                mode: AddressingMode::ZeroPageX,
                bytes: 2,
                cycles: 4,
            },
        ),
        0x36 => Some(
            Opcode {
                instruction: Instruction::Rol,
                mode: AddressingMode::ZeroPageX,
                bytes: 2,
                cycles: 6,
            },
        ),
        0x38 => Some(
            Opcode {
                instruction: Instruction::Sec,
                mode: AddressingMode::Implicit,
                bytes: 1,
                cycles: 2,
            },
        ),
        0x39 => Some(
            Opcode {
                instruction: Instruction::And,
                mode: AddressingMode::AbsoluteY,
                bytes: 3,
                cycles: 4,
            },
        ),
        0x3D => Some(
            Opcode {
                instruction: Instruction::And,
                mode: AddressingMode::AbsoluteX,
                bytes: 3,
                cycles: 4,
            },
        ),
        0x3E => Some(
            Opcode {
                instruction: Instruction::Rol,
                mode: AddressingMode::AbsoluteX,
                bytes: 3,
                cycles: 7,
            },
        ),
        0x40 => Some(
            Opcode {
                instruction: Instruction::Rti,
                mode: AddressingMode::Implicit,
                bytes: 1,
                cycles: 6,
            },
        ),
        0x41 => Some(
            Opcode {
                instruction: Instruction::Eor,
                mode: AddressingMode::IndexedIndirect,
                bytes: 2,
                cycles: 6,
            },
        ),
        0x45 => Some(
            Opcode {
                instruction: Instruction::Eor,
                mode: AddressingMode::ZeroPage,
                bytes: 2,
                cycles: 3,
            },
        ),
        0x46 => Some(
            Opcode {
                instruction: Instruction::Lsr,
                mode: AddressingMode::ZeroPage,
                bytes: 2,
                cycles: 5,
            },
        ),
        0x48 => Some(
            Opcode {
                instruction: Instruction::Pha,
                mode: AddressingMode::Implicit,
                bytes: 1,
                cycles: 3,
            },
        ),
        0x49 => Some(
            Opcode {
                instruction: Instruction::Eor,
                mode: AddressingMode::Immediate,
                bytes: 2,
                cycles: 2,
            },
        ),
        0x4A => Some(
            Opcode {
                instruction: Instruction::Lsr,
                mode: AddressingMode::Accumulator,
                bytes: 1,
                cycles: 2,
            },
        ),
        0x4C => Some(
            Opcode {
                instruction: Instruction::Jmp,
                mode: AddressingMode::Absolute,
                bytes: 3,
                cycles: 3,
            },
        ),
        0x4D => Some(
            Opcode {
                instruction: Instruction::Eor,
                mode: AddressingMode::Absolute,
                bytes: 3,
                cycles: 4,
            },
        ),
        0x4E => Some(
            Opcode {
                instruction: Instruction::Lsr,
                mode: AddressingMode::Absolute,
                bytes: 3,
                cycles: 6,
            },
        ),
        0x50 => Some(
            Opcode {
                instruction: Instruction::Bvc,
                mode: AddressingMode::Relative,
                bytes: 2,
                cycles: 2,
            },
        ),
        0x51 => Some(
            Opcode {
                instruction: Instruction::Eor,
                mode: AddressingMode::IndirectIndexed,
                bytes: 2,
                cycles: 5,
            },
        ),
        0x55 => Some(
            Opcode {
                instruction: Instruction::Eor,
                mode: AddressingMode::ZeroPageX,
                bytes: 2,
                cycles: 4,
            },
        ),
        0x56 => Some(
            Opcode {
                instruction: Instruction::Lsr,
                mode: AddressingMode::ZeroPageX,
                bytes: 2,
                cycles: 6,
            },
        ),
        0x58 => Some(
            Opcode {
                instruction: Instruction::Cli,
                mode: AddressingMode::Implicit,
                bytes: 1,
                cycles: 2,
            },
        ),
        0x59 => Some(
            Opcode {
                instruction: Instruction::Eor,
                mode: AddressingMode::AbsoluteY,
                bytes: 3,
                cycles: 4,
            },
        ),
        0x5D => Some(
            Opcode {
                instruction: Instruction::Eor,
                mode: AddressingMode::AbsoluteX,
                bytes: 3,
                cycles: 4,
            },
        ),
        0x5E => Some(
            Opcode {
                instruction: Instruction::Lsr,
                mode: AddressingMode::AbsoluteX,
                bytes: 3,
                cycles: 7,
            },
        ),
        0x60 => Some(
            Opcode {
                instruction: Instruction::Rts,
                mode: AddressingMode::Implicit,
                bytes: 1,
                cycles: 6,
            },
        ),
        0x61 => Some(
            Opcode {
                instruction: Instruction::Adc,
                mode: AddressingMode::IndexedIndirect,
                bytes: 2,
                cycles: 6,
            },
        ),
        0x65 => Some(
            Opcode {
                instruction: Instruction::Adc,
                mode: AddressingMode::ZeroPage,
                bytes: 2,
                cycles: 3,
            },
        ),
        0x66 => Some(
            Opcode {
                instruction: Instruction::Ror,
                mode: AddressingMode::ZeroPage,
                bytes: 2,
                cycles: 5,
            },
        ),
        0x68 => Some(
            Opcode {
                instruction: Instruction::Pla,
                mode: AddressingMode::Implicit,
                bytes: 1,
                cycles: 4,
            },
        ),
        0x69 => Some(
            Opcode {
                instruction: Instruction::Adc,
                mode: AddressingMode::Immediate,
                bytes: 2,
                cycles: 2,
            },
        ),
        0x6A => Some(
            Opcode {
                instruction: Instruction::Ror,
                mode: AddressingMode::Accumulator,
                bytes: 1,
                cycles: 2,
            },
        ),
        0x6C => Some(
            Opcode {
                instruction: Instruction::Jmp,
                mode: AddressingMode::Indirect,
                bytes: 3,
                cycles: 5,
            },
        ),
        0x6D => Some(
            Opcode {
                instruction: Instruction::Adc,
                mode: AddressingMode::Absolute,
                bytes: 3,
                cycles: 4,
            },
        ),
        0x6E => Some(
            Opcode {
                instruction: Instruction::Ror,
                mode: AddressingMode::Absolute,
                bytes: 3,
                cycles: 6,
            },
        ),
        0x70 => Some(
            Opcode {
                instruction: Instruction::Bvs,
                mode: AddressingMode::Relative,
                bytes: 2,
                cycles: 2,
            },
        ),
        0x71 => Some(
            Opcode {
                instruction: Instruction::Adc,
                mode: AddressingMode::IndirectIndexed,
                bytes: 2,
                cycles: 5,
            },
        ),
        0x75 => Some(
            Opcode {
                instruction: Instruction::Adc,
                mode: AddressingMode::ZeroPageX,
                bytes: 2,
                cycles: 4,
            },
        ),
        0x76 => Some(
            Opcode {
                instruction: Instruction::Ror,
                mode: AddressingMode::ZeroPageX,
                bytes: 2,
                cycles: 6,
            },
        ),
        0x78 => Some(
            Opcode {
                instruction: Instruction::Sei,
                mode: AddressingMode::Implicit,
                bytes: 1,
                cycles: 2,
            },
        ),
        0x79 => Some(
            Opcode {
                instruction: Instruction::Adc,
                mode: AddressingMode::AbsoluteY,
                bytes: 3,
                cycles: 4,
            },
        ),
        0x7D => Some(
            Opcode {
                instruction: Instruction::Adc,
                mode: AddressingMode::AbsoluteX,
                bytes: 3,
                cycles: 4,
            },
        ),
        0x7E => Some(
            Opcode {
                instruction: Instruction::Ror,
                mode: AddressingMode::AbsoluteX,
                bytes: 3,
                cycles: 7,
            },
        ),
        0x81 => Some(
            Opcode {
                instruction: Instruction::Sta,
                mode: AddressingMode::IndexedIndirect,
                bytes: 2,
                cycles: 6,
            },
        ),
        0x84 => Some(
            Opcode {
                instruction: Instruction::Sty,
                mode: AddressingMode::ZeroPage,
                bytes: 2,
                cycles: 3,
            },
        ),
        0x85 => Some(
            Opcode {
                instruction: Instruction::Sta,
                mode: AddressingMode::ZeroPage,
                bytes: 2,
                cycles: 3,
            },
        ),
        0x86 => Some(
            Opcode {
                instruction: Instruction::Stx,
                mode: AddressingMode::ZeroPage,
                bytes: 2,
                cycles: 3,
            },
        ),
        0x88 => Some(
            Opcode {
                instruction: Instruction::Dey,
                mode: AddressingMode::Implicit,
                bytes: 1,
                cycles: 2,
            },
        ),
        0x8A => Some(
            Opcode {
                instruction: Instruction::Txa,
                mode: AddressingMode::Implicit,
                bytes: 1,
                cycles: 2,
            },
        ),
        0x8C => Some(
            Opcode {
                instruction: Instruction::Sty,
                mode: AddressingMode::Absolute,
                bytes: 3,
                cycles: 4,
            },
        ),
        0x8D => Some(
            Opcode {
                instruction: Instruction::Sta,
                mode: AddressingMode::Absolute,
                bytes: 3,
                cycles: 4,
            },
        ),
        0x8E => Some(
            Opcode {
                instruction: Instruction::Stx,
                mode: AddressingMode::Absolute,
                bytes: 3,
                cycles: 4,
            },
        ),
        0x90 => Some(
            Opcode {
                instruction: Instruction::Bcc,
                mode: AddressingMode::Relative,
                bytes: 2,
                cycles: 2,
            },
        ),
        0x91 => Some(
            Opcode {
                instruction: Instruction::Sta,
                mode: AddressingMode::IndirectIndexed,
                bytes: 2,
                cycles: 6,
            },
        ),
        0x94 => Some(
            Opcode {
                instruction: Instruction::Sty,
                mode: AddressingMode::ZeroPageX,
                bytes: 2,
                cycles: 4,
            },
        ),
        0x95 => Some(
            Opcode {
                instruction: Instruction::Sta,
                mode: AddressingMode::ZeroPageX,
                bytes: 2,
                cycles: 4,
            },
        ),
        0x96 => Some(
            Opcode {
                instruction: Instruction::Stx,
                mode: AddressingMode::ZeroPageY,
                bytes: 2,
                cycles: 4,
            },
        ),
        0x98 => Some(
            Opcode {
                instruction: Instruction::Tya,
                mode: AddressingMode::Implicit,
                bytes: 1,
                cycles: 2,
            },
        ),
        0x99 => Some(
            Opcode {
                instruction: Instruction::Sta,
                mode: AddressingMode::AbsoluteY,
                bytes: 3,
                cycles: 5,
            },
        ),
        0x9A => Some(
            Opcode {
                instruction: Instruction::Txs,
                mode: AddressingMode::Implicit,
                bytes: 1,
                cycles: 2,
            },
        ),
        0x9D => Some(
            Opcode {
                instruction: Instruction::Sta,
                mode: AddressingMode::AbsoluteX,
                bytes: 3,
                cycles: 5,
            },
        ),
        0xA0 => Some(
            Opcode {
                instruction: Instruction::Ldy,
                mode: AddressingMode::Immediate,
                bytes: 2,
                cycles: 2,
            },
        ),
        0xA1 => Some(
            Opcode {
                instruction: Instruction::Lda,
                mode: AddressingMode::IndexedIndirect,
                bytes: 2,
                cycles: 6,
            },
        ),
        0xA2 => Some(
            Opcode {
                instruction: Instruction::Ldx,
                mode: AddressingMode::Immediate,
                bytes: 2,
                cycles: 2,
            },
        ),
        0xA4 => Some(
            Opcode {
                instruction: Instruction::Ldy,
                mode: AddressingMode::ZeroPage,
                bytes: 2,
                cycles: 3,
            },
        ),
        0xA5 => Some(
            Opcode {
                instruction: Instruction::Lda,
                mode: AddressingMode::ZeroPage,
                bytes: 2,
                cycles: 3,
            },
        ),
        0xA6 => Some(
            Opcode {
                instruction: Instruction::Ldx,
                mode: AddressingMode::ZeroPage,
                bytes: 2,
                cycles: 3,
            },
        ),
        0xA8 => Some(
            Opcode {
                instruction: Instruction::Tay,
                mode: AddressingMode::Implicit,
                bytes: 1,
                cycles: 2,
            },
        ),
        0xA9 => Some(
            Opcode {
                instruction: Instruction::Lda,
                mode: AddressingMode::Immediate,
                bytes: 2,
                cycles: 2,
            },
        ),
        0xAA => Some(
            Opcode {
                instruction: Instruction::Tax,
                mode: AddressingMode::Implicit,
                bytes: 1,
                cycles: 2,
            },
        ),
        0xAC => Some(
            Opcode {
                instruction: Instruction::Ldy,
                mode: AddressingMode::Absolute,
                bytes: 3,
                cycles: 4,
            },
        ),
        0xAD => Some(
            Opcode {
                instruction: Instruction::Lda,
                mode: AddressingMode::Absolute,
                bytes: 3,
                cycles: 4,
            },
        ),
        0xAE => Some(
            Opcode {
                instruction: Instruction::Ldx,
                mode: AddressingMode::Absolute,
                bytes: 3,
                cycles: 4,
            },
        ),
        0xB0 => Some(
            Opcode {
                instruction: Instruction::Bcs,
                mode: AddressingMode::Relative,
                bytes: 2,
                cycles: 2,
            },
        ),
        0xB1 => Some(
            Opcode {
                instruction: Instruction::Lda,
                mode: AddressingMode::IndirectIndexed,
                bytes: 2,
                cycles: 5,
            },
        ),
        0xB4 => Some(
            Opcode {
                instruction: Instruction::Ldy,
                mode: AddressingMode::ZeroPageX,
                bytes: 2,
                cycles: 4,
            },
        ),
        0xB5 => Some(
            Opcode {
                instruction: Instruction::Lda,
                mode: AddressingMode::ZeroPageX,
                bytes: 2,
                cycles: 4,
            },
        ),
        0xB6 => Some(
            Opcode {
                instruction: Instruction::Ldx,
                mode: AddressingMode::ZeroPageY,
                bytes: 2,
                cycles: 4,
            },
        ),
        0xB8 => Some(
            Opcode {
                instruction: Instruction::Clv,
                mode: AddressingMode::Implicit,
                bytes: 1,
                cycles: 2,
            },
        ),
        0xB9 => Some(
            Opcode {
                instruction: Instruction::Lda,
                mode: AddressingMode::AbsoluteY,
                bytes: 3,
                cycles: 4,
            },
        ),
        0xBA => Some(
            Opcode {
                instruction: Instruction::Tsx,
                mode: AddressingMode::Implicit,
                bytes: 1,
                cycles: 2,
            },
        ),
        0xBC => Some(
            Opcode {
                instruction: Instruction::Ldy,
                mode: AddressingMode::AbsoluteX,
                bytes: 3,
                cycles: 4,
            },
        ),
        0xBD => Some(
            Opcode {
                instruction: Instruction::Lda,
                mode: AddressingMode::AbsoluteX,
                bytes: 3,
                cycles: 4,
            },
        ),
        0xBE => Some(
            Opcode {
                instruction: Instruction::Ldx,
                mode: AddressingMode::AbsoluteY,
                bytes: 3,
                cycles: 4,
            },
        ),
        0xC0 => Some(
            Opcode {
                instruction: Instruction::Cpy,
                mode: AddressingMode::Immediate,
                bytes: 2,
                cycles: 2,
            },
        ),
        0xC1 => Some(
            Opcode {
                instruction: Instruction::Cmp,
                mode: AddressingMode::IndexedIndirect,
                bytes: 2,
                cycles: 6,
            },
        ),
        0xC4 => Some(
            Opcode {
                instruction: Instruction::Cpy,
                mode: AddressingMode::ZeroPage,
                bytes: 2,
                cycles: 3,
            },
        ),
        0xC5 => Some(
            Opcode {
                instruction: Instruction::Cmp,
                mode: AddressingMode::ZeroPage,
                bytes: 2,
                cycles: 3,
            },
        ),
        0xC6 => Some(
            Opcode {
                instruction: Instruction::Dec,
                mode: AddressingMode::ZeroPage,
                bytes: 2,
                cycles: 5,
            },
        ),
        0xC8 => Some(
            Opcode {
                instruction: Instruction::Iny,
                mode: AddressingMode::Implicit,
                bytes: 1,
                cycles: 2,
            },
        ),
        0xC9 => Some(
            Opcode {
                instruction: Instruction::Cmp,
                mode: AddressingMode::Immediate,
                bytes: 2,
                cycles: 2,
            },
        ),
        0xCA => Some(
            Opcode {
                instruction: Instruction::Dex,
                mode: AddressingMode::Implicit,
                bytes: 1,
                cycles: 2,
            },
        ),
        0xCC => Some(
            Opcode {
                instruction: Instruction::Cpy,
                mode: AddressingMode::Absolute,
                bytes: 3,
                cycles: 4,
            },
        ),
        0xCD => Some(
            Opcode {
                instruction: Instruction::Cmp,
                mode: AddressingMode::Absolute,
                bytes: 3,
                cycles: 4,
            },
        ),
        0xCE => Some(
            Opcode {
                instruction: Instruction::Dec,
                mode: AddressingMode::Absolute,
                bytes: 3,
                cycles: 6,
            },
        ),
        0xD0 => Some(
            Opcode {
                instruction: Instruction::Bne,
                mode: AddressingMode::Relative,
                bytes: 2,
                cycles: 2,
            },
        ),
        0xD1 => Some(
            Opcode {
                instruction: Instruction::Cmp,
                mode: AddressingMode::IndirectIndexed,
                bytes: 2,
                cycles: 5,
            },
        ),
        0xD5 => Some(
            Opcode {
                instruction: Instruction::Cmp,
                mode: AddressingMode::ZeroPageX,
                bytes: 2,
                cycles: 4,
            },
        ),
        0xD6 => Some(
            Opcode {
                instruction: Instruction::Dec,
                mode: AddressingMode::ZeroPageX,
                bytes: 2,
                cycles: 6,
            },
        ),
        0xD8 => Some(
            Opcode {
                instruction: Instruction::Cld,
                mode: AddressingMode::Implicit,
                bytes: 1,
                cycles: 2,
            },
        ),
        0xD9 => Some(
            Opcode {
                instruction: Instruction::Cmp,
                mode: AddressingMode::AbsoluteY,
                bytes: 3,
                cycles: 4,
            },
        ),
        0xDD => Some(
            Opcode {
                instruction: Instruction::Cmp,
                mode: AddressingMode::AbsoluteX,
                bytes: 3,
                cycles: 4,
            },
        ),
        0xDE => Some(
            Opcode {
                instruction: Instruction::Dec,
                mode: AddressingMode::AbsoluteX,
                bytes: 3,
                cycles: 7,
            },
        ),
        0xE0 => Some(
            Opcode {
                instruction: Instruction::Cpx,
                mode: AddressingMode::Immediate,
                bytes: 2,
                cycles: 2,
            },
        ),
        0xE1 => Some(
            Opcode {
                instruction: Instruction::Sbc,
                mode: AddressingMode::IndexedIndirect,
                bytes: 2,
                cycles: 6,
            },
        ),
        0xE4 => Some(
            Opcode {
                instruction: Instruction::Cpx,
                mode: AddressingMode::ZeroPage,
                bytes: 2,
                cycles: 3,
            },
        ),
        0xE5 => Some(
            Opcode {
                instruction: Instruction::Sbc,
                mode: AddressingMode::ZeroPage,
                bytes: 2,
                cycles: 3,
            },
        ),
        0xE6 => Some(
            Opcode {
                instruction: Instruction::Inc,
                mode: AddressingMode::ZeroPage,
                bytes: 2,
                cycles: 5,
            },
        ),
        0xE8 => Some(
            Opcode {
                instruction: Instruction::Inx,
                mode: AddressingMode::Implicit,
                bytes: 1,
                cycles: 2,
            },
        ),
        0xE9 => Some(
            Opcode {
                instruction: Instruction::Sbc,
                mode: AddressingMode::Immediate,
                bytes: 2,
                cycles: 2,
            },
        ),
        0xEA => Some(
            Opcode {
                instruction: Instruction::Nop,
                mode: AddressingMode::Implicit,
                bytes: 1,
                cycles: 2,
            },
        ),
        0xEC => Some(
            Opcode {
                instruction: Instruction::Cpx,
                mode: AddressingMode::Absolute,
                bytes: 3,
                cycles: 4,
            },
        ),
        0xED => Some(
            Opcode {
                instruction: Instruction::Sbc,
                mode: AddressingMode::Absolute,
                bytes: 3,
                cycles: 4,
            },
        ),
        0xEE => Some(
            Opcode {
                instruction: Instruction::Inc,
                mode: AddressingMode::Absolute,
                bytes: 3,
                cycles: 6,
            },
        ),
        0xF0 => Some(
            Opcode {
                instruction: Instruction::Beq,
                mode: AddressingMode::Relative,
                bytes: 2,
                cycles: 2,
            },
        ),
        0xF1 => Some(
            Opcode {
                instruction: Instruction::Sbc,
                mode: AddressingMode::IndirectIndexed,
                bytes: 2,
                cycles: 5,
            },
        ),
        0xF5 => Some(
            Opcode {
                instruction: Instruction::Sbc,
                mode: AddressingMode::ZeroPageX,
                bytes: 2,
                cycles: 4,
            },
        ),
        0xF6 => Some(
            Opcode {
                instruction: Instruction::Inc,
                mode: AddressingMode::ZeroPageX,
                bytes: 2,
                cycles: 6,
            },
        ),
        0xF8 => Some(
            Opcode {
                instruction: Instruction::Sed,
                mode: AddressingMode::Implicit,
                bytes: 1,
                cycles: 2,
            },
        ),
        0xF9 => Some(
            Opcode {
                instruction: Instruction::Sbc,
                mode: AddressingMode::AbsoluteY,
                bytes: 3,
                cycles: 4,
            },
        ),
        0xFD => Some(
            Opcode {
                instruction: Instruction::Sbc,
                mode: AddressingMode::AbsoluteX,
                bytes: 3,
                cycles: 4,
            },
        ),
        0xFE => Some(
            Opcode {
                instruction: Instruction::Inc,
                mode: AddressingMode::AbsoluteX,
                bytes: 3,
                cycles: 7,
            },
        ),
        _ => None,
    }
}

/// The instruction length each addressing mode dictates: the opcode
/// byte plus the operand bytes the mode consumes.
pub open spec fn mode_length(mode: AddressingMode) -> u8 {
    match mode {
        AddressingMode::Implicit => 1,
        AddressingMode::Accumulator => 1,
        AddressingMode::Immediate => 2,
        AddressingMode::ZeroPage => 2,
        AddressingMode::ZeroPageX => 2,
        AddressingMode::ZeroPageY => 2,
        AddressingMode::Relative => 2,
        AddressingMode::Absolute => 3,
        AddressingMode::AbsoluteX => 3,
        AddressingMode::AbsoluteY => 3,
        AddressingMode::Indirect => 3,
        AddressingMode::IndexedIndirect => 2,
        AddressingMode::IndirectIndexed => 2,
    }
}

/// Decodes one opcode byte. Total over all 256 byte values: official
/// opcodes yield their descriptor, every other byte yields `None`.
/// Every descriptor's length is the one its addressing mode dictates,
/// and its base cycle count lies between two and seven.
pub fn decode(byte: u8) -> (r: Option<Opcode>)
    ensures
        r == spec_decode(byte),
        match r {
            Some(op) => op.bytes == mode_length(op.mode) && 2 <= op.cycles <= 7,
            None => true,
        },
{
    match byte {
        0x00 => Some(
            Opcode {
                instruction: Instruction::Brk,
                mode: AddressingMode::Implicit,
                bytes: 1,
                cycles: 7,
            },
        ),
        0x01 => Some(
            Opcode {
                instruction: Instruction::Ora,
                mode: AddressingMode::IndexedIndirect,
                bytes: 2,
                cycles: 6,
            },
        ),
        0x05 => Some(
            Opcode {
                instruction: Instruction::Ora,
                mode: AddressingMode::ZeroPage,
                bytes: 2,
                cycles: 3,
            },
        ),
        0x06 => Some(
            Opcode {
                instruction: Instruction::Asl,
                mode: AddressingMode::ZeroPage,
                bytes: 2,
                cycles: 5,
            },
        ),
        0x08 => Some(
            Opcode {
                instruction: Instruction::Php,
                mode: AddressingMode::Implicit,
                bytes: 1,
                cycles: 3,
            },
        ),
        0x09 => Some(
            Opcode {
                instruction: Instruction::Ora,
                mode: AddressingMode::Immediate,
                bytes: 2,
                cycles: 2,
            },
        ),
        0x0A => Some(
            Opcode {
                instruction: Instruction::Asl,
                mode: AddressingMode::Accumulator,
                bytes: 1,
                cycles: 2,
            },
        ),
        0x0D => Some(
            Opcode {
                instruction: Instruction::Ora,
                mode: AddressingMode::Absolute,
                bytes: 3,
                cycles: 4,
            },
        ),
        0x0E => Some(
            Opcode {
                instruction: Instruction::Asl,
                mode: AddressingMode::Absolute,
                bytes: 3,
                cycles: 6,
            },
        ),
        0x10 => Some(
            Opcode {
                instruction: Instruction::Bpl,
                mode: AddressingMode::Relative,
                bytes: 2,
                cycles: 2,
            },
        ),
        0x11 => Some(
            Opcode {
                instruction: Instruction::Ora,
                mode: AddressingMode::IndirectIndexed,
                bytes: 2,
                cycles: 5,
            },
        ),
        0x15 => Some(
            Opcode {
                instruction: Instruction::Ora,
                mode: AddressingMode::ZeroPageX,
                bytes: 2,
                cycles: 4,
            },
        ),
        0x16 => Some(
            Opcode {
                instruction: Instruction::Asl,
                mode: AddressingMode::ZeroPageX,
                bytes: 2,
                cycles: 6,
            },
        ),
        0x18 => Some(
            Opcode {
                instruction: Instruction::Clc,
                mode: AddressingMode::Implicit,
                bytes: 1,
                cycles: 2,
            },
        ),
        0x19 => Some(
            Opcode {
                instruction: Instruction::Ora,
                mode: AddressingMode::AbsoluteY,
                bytes: 3,
                cycles: 4,
            },
        ),
        0x1D => Some(
            Opcode {
                instruction: Instruction::Ora,
                mode: AddressingMode::AbsoluteX,
                bytes: 3,
                cycles: 4,
            },
        ),
        0x1E => Some(
            Opcode {
                instruction: Instruction::Asl,
                mode: AddressingMode::AbsoluteX,
                bytes: 3,
                cycles: 7,
            },
        ),
        0x20 => Some(
            Opcode {
                instruction: Instruction::Jsr,
                mode: AddressingMode::Absolute,
                bytes: 3,
                cycles: 6,
            },
        ),
        0x21 => Some(
            Opcode {
                instruction: Instruction::And,
                mode: AddressingMode::IndexedIndirect,
                bytes: 2,
                cycles: 6,
            },
        ),
        0x24 => Some(
            Opcode {
                instruction: Instruction::Bit,
                mode: AddressingMode::ZeroPage,
                bytes: 2,
                cycles: 3,
            },
        ),
        0x25 => Some(
            Opcode {
                instruction: Instruction::And,
                mode: AddressingMode::ZeroPage,
                bytes: 2,
                cycles: 3,
            },
        ),
        0x26 => Some(
            Opcode {
                instruction: Instruction::Rol,
                mode: AddressingMode::ZeroPage,
                bytes: 2,
                cycles: 5,
            },
        ),
        0x28 => Some(
            Opcode {
                instruction: Instruction::Plp,
                mode: AddressingMode::Implicit,
                bytes: 1,
                cycles: 4,
            },
        ),
        0x29 => Some(
            Opcode {
                instruction: Instruction::And,
                mode: AddressingMode::Immediate,
                bytes: 2,
                cycles: 2,
            },
        ),
        0x2A => Some(
            Opcode {
                instruction: Instruction::Rol,
                mode: AddressingMode::Accumulator,
                bytes: 1,
                cycles: 2,
            },
        ),
        0x2C => Some(
            Opcode {
                instruction: Instruction::Bit,
                mode: AddressingMode::Absolute,
                bytes: 3,
                cycles: 4,
            },
        ),
        0x2D => Some(
            Opcode {
                instruction: Instruction::And,
                mode: AddressingMode::Absolute,
                bytes: 3,
                cycles: 4,
            },
        ),
        0x2E => Some(
            Opcode {
                instruction: Instruction::Rol,
                mode: AddressingMode::Absolute,
                bytes: 3,
                cycles: 6,
            },
        ),
        0x30 => Some(
            Opcode {
                instruction: Instruction::Bmi,
                mode: AddressingMode::Relative,
                bytes: 2,
                cycles: 2,
            },
        ),
        0x31 => Some(
            Opcode {
                instruction: Instruction::And,
                mode: AddressingMode::IndirectIndexed,
                bytes: 2,
                cycles: 5,
            },
        ),
        0x35 => Some(
            Opcode {
                instruction: Instruction::And,
                mode: AddressingMode::ZeroPageX,
                bytes: 2,
                cycles: 4,
            },
        ),
        0x36 => Some(
            Opcode {
                instruction: Instruction::Rol,
                mode: AddressingMode::ZeroPageX,
                bytes: 2,
                cycles: 6,
            },
        ),
        0x38 => Some(
            Opcode {
                instruction: Instruction::Sec,
                mode: AddressingMode::Implicit,
                bytes: 1,
                cycles: 2,
            },
        ),
        0x39 => Some(
            Opcode {
                instruction: Instruction::And,
                mode: AddressingMode::AbsoluteY,
                bytes: 3,
                cycles: 4,
            },
        ),
        0x3D => Some(
            Opcode {
                instruction: Instruction::And,
                mode: AddressingMode::AbsoluteX,
                bytes: 3,
                cycles: 4,
            },
        ),
        0x3E => Some(
            Opcode {
                instruction: Instruction::Rol,
                mode: AddressingMode::AbsoluteX,
                bytes: 3,
                cycles: 7,
            },
        ),
        0x40 => Some(
            Opcode {
                instruction: Instruction::Rti,
                mode: AddressingMode::Implicit,
                bytes: 1,
                cycles: 6,
            },
        ),
        0x41 => Some(
            Opcode {
                instruction: Instruction::Eor,
                mode: AddressingMode::IndexedIndirect,
                bytes: 2,
                cycles: 6,
            },
        ),
        0x45 => Some(
            Opcode {
                instruction: Instruction::Eor,
                mode: AddressingMode::ZeroPage,
                bytes: 2,
                cycles: 3,
            },
        ),
        0x46 => Some(
            Opcode {
                instruction: Instruction::Lsr,
                mode: AddressingMode::ZeroPage,
                bytes: 2,
                cycles: 5,
            },
        ),
        0x48 => Some(
            Opcode {
                instruction: Instruction::Pha,
                mode: AddressingMode::Implicit,
                bytes: 1,
                cycles: 3,
            },
        ),
        0x49 => Some(
            Opcode {
                instruction: Instruction::Eor,
                mode: AddressingMode::Immediate,
                bytes: 2,
                cycles: 2,
            },
        ),
        0x4A => Some(
            Opcode {
                instruction: Instruction::Lsr,
                mode: AddressingMode::Accumulator,
                bytes: 1,
                cycles: 2,
            },
        ),
        0x4C => Some(
            Opcode {
                instruction: Instruction::Jmp,
                mode: AddressingMode::Absolute,
                bytes: 3,
                cycles: 3,
            },
        ),
        0x4D => Some(
            Opcode {
                instruction: Instruction::Eor,
                mode: AddressingMode::Absolute,
                bytes: 3,
                cycles: 4,
            },
        ),
        0x4E => Some(
            Opcode {
                instruction: Instruction::Lsr,
                mode: AddressingMode::Absolute,
                bytes: 3,
                cycles: 6,
            },
        ),
        0x50 => Some(
            Opcode {
                instruction: Instruction::Bvc,
                mode: AddressingMode::Relative,
                bytes: 2,
                cycles: 2,
            },
        ),
        0x51 => Some(
            Opcode {
                instruction: Instruction::Eor,
                mode: AddressingMode::IndirectIndexed,
                bytes: 2,
                cycles: 5,
            },
        ),
        0x55 => Some(
            Opcode {
                instruction: Instruction::Eor,
                mode: AddressingMode::ZeroPageX,
                bytes: 2,
                cycles: 4,
            },
        ),
        0x56 => Some(
            Opcode {
                instruction: Instruction::Lsr,
                mode: AddressingMode::ZeroPageX,
                bytes: 2,
                cycles: 6,
            },
        ),
        0x58 => Some(
            Opcode {
                instruction: Instruction::Cli,
                mode: AddressingMode::Implicit,
                bytes: 1,
                cycles: 2,
            },
        ),
        0x59 => Some(
            Opcode {
                instruction: Instruction::Eor,
                mode: AddressingMode::AbsoluteY,
                bytes: 3,
                cycles: 4,
            },
        ),
        0x5D => Some(
            Opcode {
                instruction: Instruction::Eor,
                mode: AddressingMode::AbsoluteX,
                bytes: 3,
                cycles: 4,
            },
        ),
        0x5E => Some(
            Opcode {
                instruction: Instruction::Lsr,
                mode: AddressingMode::AbsoluteX,
                bytes: 3,
                cycles: 7,
            },
        ),
        0x60 => Some(
            Opcode {
                instruction: Instruction::Rts,
                mode: AddressingMode::Implicit,
                bytes: 1,
                cycles: 6,
            },
        ),
        0x61 => Some(
            Opcode {
                instruction: Instruction::Adc,
                mode: AddressingMode::IndexedIndirect,
                bytes: 2,
                cycles: 6,
            },
        ),
        0x65 => Some(
            Opcode {
                instruction: Instruction::Adc,
                mode: AddressingMode::ZeroPage,
                bytes: 2,
                cycles: 3,
            },
        ),
        0x66 => Some(
            Opcode {
                instruction: Instruction::Ror,
                mode: AddressingMode::ZeroPage,
                bytes: 2,
                cycles: 5,
            },
        ),
        0x68 => Some(
            Opcode {
                instruction: Instruction::Pla,
                mode: AddressingMode::Implicit,
                bytes: 1,
                cycles: 4,
            },
        ),
        0x69 => Some(
            Opcode {
                instruction: Instruction::Adc,
                mode: AddressingMode::Immediate,
                bytes: 2,
                cycles: 2,
            },
        ),
        0x6A => Some(
            Opcode {
                instruction: Instruction::Ror,
                mode: AddressingMode::Accumulator,
                bytes: 1,
                cycles: 2,
            },
        ),
        0x6C => Some(
            Opcode {
                instruction: Instruction::Jmp,
                mode: AddressingMode::Indirect,
                bytes: 3,
                cycles: 5,
            },
        ),
        0x6D => Some(
            Opcode {
                instruction: Instruction::Adc,
                mode: AddressingMode::Absolute,
                bytes: 3,
                cycles: 4,
            },
        ),
        0x6E => Some(
            Opcode {
                instruction: Instruction::Ror,
                mode: AddressingMode::Absolute,
                bytes: 3,
                cycles: 6,
            },
        ),
        0x70 => Some(
            Opcode {
                instruction: Instruction::Bvs,
                mode: AddressingMode::Relative,
                bytes: 2,
                cycles: 2,
            },
        ),
        0x71 => Some(
            Opcode {
                instruction: Instruction::Adc,
                mode: AddressingMode::IndirectIndexed,
                bytes: 2,
                cycles: 5,
            },
        ),
        0x75 => Some(
            Opcode {
                instruction: Instruction::Adc,
                mode: AddressingMode::ZeroPageX,
                bytes: 2,
                cycles: 4,
            },
        ),
        0x76 => Some(
            Opcode {
                instruction: Instruction::Ror,
                mode: AddressingMode::ZeroPageX,
                bytes: 2,
                cycles: 6,
            },
        ),
        0x78 => Some(
            Opcode {
                instruction: Instruction::Sei,
                mode: AddressingMode::Implicit,
                bytes: 1,
                cycles: 2,
            },
        ),
        0x79 => Some(
            Opcode {
                instruction: Instruction::Adc,
                mode: AddressingMode::AbsoluteY,
                bytes: 3,
                cycles: 4,
            },
        ),
        0x7D => Some(
            Opcode {
                instruction: Instruction::Adc,
                mode: AddressingMode::AbsoluteX,
                bytes: 3,
                cycles: 4,
            },
        ),
        0x7E => Some(
            Opcode {
                instruction: Instruction::Ror,
                mode: AddressingMode::AbsoluteX,
                bytes: 3,
                cycles: 7,
            },
        ),
        0x81 => Some(
            Opcode {
                instruction: Instruction::Sta,
                mode: AddressingMode::IndexedIndirect,
                bytes: 2,
                cycles: 6,
            },
        ),
        0x84 => Some(
            Opcode {
                instruction: Instruction::Sty,
                mode: AddressingMode::ZeroPage,
                bytes: 2,
                cycles: 3,
            },
        ),
        0x85 => Some(
            Opcode {
                instruction: Instruction::Sta,
                mode: AddressingMode::ZeroPage,
                bytes: 2,
                cycles: 3,
            },
        ),
        0x86 => Some(
            Opcode {
                instruction: Instruction::Stx,
                mode: AddressingMode::ZeroPage,
                bytes: 2,
                cycles: 3,
            },
        ),
        0x88 => Some(
            Opcode {
                instruction: Instruction::Dey,
                mode: AddressingMode::Implicit,
                bytes: 1,
                cycles: 2,
            },
        ),
        0x8A => Some(
            Opcode {
                instruction: Instruction::Txa,
                mode: AddressingMode::Implicit,
                bytes: 1,
                cycles: 2,
            },
        ),
        0x8C => Some(
            Opcode {
                instruction: Instruction::Sty,
                mode: AddressingMode::Absolute,
                bytes: 3,
                cycles: 4,
            },
        ),
        0x8D => Some(
            Opcode {
                instruction: Instruction::Sta,
                mode: AddressingMode::Absolute,
                bytes: 3,
                cycles: 4,
            },
        ),
        0x8E => Some(
            Opcode {
                instruction: Instruction::Stx,
                mode: AddressingMode::Absolute,
                bytes: 3,
                cycles: 4,
            },
        ),
        0x90 => Some(
            Opcode {
                instruction: Instruction::Bcc,
                mode: AddressingMode::Relative,
                bytes: 2,
                cycles: 2,
            },
        ),
        0x91 => Some(
            Opcode {
                instruction: Instruction::Sta,
                mode: AddressingMode::IndirectIndexed,
                bytes: 2,
                cycles: 6,
            },
        ),
        0x94 => Some(
            Opcode {
                instruction: Instruction::Sty,
                mode: AddressingMode::ZeroPageX,
                bytes: 2,
                cycles: 4,
            },
        ),
        0x95 => Some(
            Opcode {
                instruction: Instruction::Sta,
                mode: AddressingMode::ZeroPageX,
                bytes: 2,
                cycles: 4,
            },
        ),
        0x96 => Some(
            Opcode {
                instruction: Instruction::Stx,
                mode: AddressingMode::ZeroPageY,
                bytes: 2,
                cycles: 4,
            },
        ),
        0x98 => Some(
            Opcode {
                instruction: Instruction::Tya,
                mode: AddressingMode::Implicit,
                bytes: 1,
                cycles: 2,
            },
        ),
        0x99 => Some(
            Opcode {
                instruction: Instruction::Sta,
                mode: AddressingMode::AbsoluteY,
                bytes: 3,
                cycles: 5,
            },
        ),
        0x9A => Some(
            Opcode {
                instruction: Instruction::Txs,
                mode: AddressingMode::Implicit,
                bytes: 1,
                cycles: 2,
            },
        ),
        0x9D => Some(
            Opcode {
                instruction: Instruction::Sta,
                mode: AddressingMode::AbsoluteX,
                bytes: 3,
                cycles: 5,
            },
        ),
        0xA0 => Some(
            Opcode {
                instruction: Instruction::Ldy,
                mode: AddressingMode::Immediate,
                bytes: 2,
                cycles: 2,
            },
        ),
        0xA1 => Some(
            Opcode {
                instruction: Instruction::Lda,
                mode: AddressingMode::IndexedIndirect,
                bytes: 2,
                cycles: 6,
            },
        ),
        0xA2 => Some(
            Opcode {
                instruction: Instruction::Ldx,
                mode: AddressingMode::Immediate,
                bytes: 2,
                cycles: 2,
            },
        ),
        0xA4 => Some(
            Opcode {
                instruction: Instruction::Ldy,
                mode: AddressingMode::ZeroPage,
                bytes: 2,
                cycles: 3,
            },
        ),
        0xA5 => Some(
            Opcode {
                instruction: Instruction::Lda,
                mode: AddressingMode::ZeroPage,
                bytes: 2,
                cycles: 3,
            },
        ),
        0xA6 => Some(
            Opcode {
                instruction: Instruction::Ldx,
                mode: AddressingMode::ZeroPage,
                bytes: 2,
                cycles: 3,
            },
        ),
        0xA8 => Some(
            Opcode {
                instruction: Instruction::Tay,
                mode: AddressingMode::Implicit,
                bytes: 1,
                cycles: 2,
            },
        ),
        0xA9 => Some(
            Opcode {
                instruction: Instruction::Lda,
                mode: AddressingMode::Immediate,
                bytes: 2,
                cycles: 2,
            },
        ),
        0xAA => Some(
            Opcode {
                instruction: Instruction::Tax,
                mode: AddressingMode::Implicit,
                bytes: 1,
                cycles: 2,
            },
        ),
        0xAC => Some(
            Opcode {
                instruction: Instruction::Ldy,
                mode: AddressingMode::Absolute,
                bytes: 3,
                cycles: 4,
            },
        ),
        0xAD => Some(
            Opcode {
                instruction: Instruction::Lda,
                mode: AddressingMode::Absolute,
                bytes: 3,
                cycles: 4,
            },
        ),
        0xAE => Some(
            Opcode {
                instruction: Instruction::Ldx,
                mode: AddressingMode::Absolute,
                bytes: 3,
                cycles: 4,
            },
        ),
        0xB0 => Some(
            Opcode {
                instruction: Instruction::Bcs,
                mode: AddressingMode::Relative,
                bytes: 2,
                cycles: 2,
            },
        ),
        0xB1 => Some(
            Opcode {
                instruction: Instruction::Lda,
                mode: AddressingMode::IndirectIndexed,
                bytes: 2,
                cycles: 5,
            },
        ),
        0xB4 => Some(
            Opcode {
                instruction: Instruction::Ldy,
                mode: AddressingMode::ZeroPageX,
                bytes: 2,
                cycles: 4,
            },
        ),
        0xB5 => Some(
            Opcode {
                instruction: Instruction::Lda,
                mode: AddressingMode::ZeroPageX,
                bytes: 2,
                cycles: 4,
            },
        ),
        0xB6 => Some(
            Opcode {
                instruction: Instruction::Ldx,
                mode: AddressingMode::ZeroPageY,
                bytes: 2,
                cycles: 4,
            },
        ),
        0xB8 => Some(
            Opcode {
                instruction: Instruction::Clv,
                mode: AddressingMode::Implicit,
                bytes: 1,
                cycles: 2,
            },
        ),
        0xB9 => Some(
            Opcode {
                instruction: Instruction::Lda,
                mode: AddressingMode::AbsoluteY,
                bytes: 3,
                cycles: 4,
            },
        ),
        0xBA => Some(
            Opcode {
                instruction: Instruction::Tsx,
                mode: AddressingMode::Implicit,
                bytes: 1,
                cycles: 2,
            },
        ),
        0xBC => Some(
            Opcode {
                instruction: Instruction::Ldy,
                mode: AddressingMode::AbsoluteX,
                bytes: 3,
                cycles: 4,
            },
        ),
        0xBD => Some(
            Opcode {
                instruction: Instruction::Lda,
                mode: AddressingMode::AbsoluteX,
                bytes: 3,
                cycles: 4,
            },
        ),
        0xBE => Some(
            Opcode {
                instruction: Instruction::Ldx,
                mode: AddressingMode::AbsoluteY,
                bytes: 3,
                cycles: 4,
            },
        ),
        0xC0 => Some(
            Opcode {
                instruction: Instruction::Cpy,
                mode: AddressingMode::Immediate,
                bytes: 2,
                cycles: 2,
            },
        ),
        0xC1 => Some(
            Opcode {
                instruction: Instruction::Cmp,
                mode: AddressingMode::IndexedIndirect,
                bytes: 2,
                cycles: 6,
            },
        ),
        0xC4 => Some(
            Opcode {
                instruction: Instruction::Cpy,
                mode: AddressingMode::ZeroPage,
                bytes: 2,
                cycles: 3,
            },
        ),
        0xC5 => Some(
            Opcode {
                instruction: Instruction::Cmp,
                mode: AddressingMode::ZeroPage,
                bytes: 2,
                cycles: 3,
            },
        ),
        0xC6 => Some(
            Opcode {
                instruction: Instruction::Dec,
                mode: AddressingMode::ZeroPage,
                bytes: 2,
                cycles: 5,
            },
        ),
        0xC8 => Some(
            Opcode {
                instruction: Instruction::Iny,
                mode: AddressingMode::Implicit,
                bytes: 1,
                cycles: 2,
            },
        ),
        0xC9 => Some(
            Opcode {
                instruction: Instruction::Cmp,
                mode: AddressingMode::Immediate,
                bytes: 2,
                cycles: 2,
            },
        ),
        0xCA => Some(
            Opcode {
                instruction: Instruction::Dex,
                mode: AddressingMode::Implicit,
                bytes: 1,
                cycles: 2,
            },
        ),
        0xCC => Some(
            Opcode {
                instruction: Instruction::Cpy,
                mode: AddressingMode::Absolute,
                bytes: 3,
                cycles: 4,
            },
        ),
        0xCD => Some(
            Opcode {
                instruction: Instruction::Cmp,
                mode: AddressingMode::Absolute,
                bytes: 3,
                cycles: 4,
            },
        ),
        0xCE => Some(
            Opcode {
                instruction: Instruction::Dec,
                mode: AddressingMode::Absolute,
                bytes: 3,
                cycles: 6,
            },
        ),
        0xD0 => Some(
            Opcode {
                instruction: Instruction::Bne,
                mode: AddressingMode::Relative,
                bytes: 2,
                cycles: 2,
            },
        ),
        0xD1 => Some(
            Opcode {
                instruction: Instruction::Cmp,
                mode: AddressingMode::IndirectIndexed,
                bytes: 2,
                cycles: 5,
            },
        ),
        0xD5 => Some(
            Opcode {
                instruction: Instruction::Cmp,
                mode: AddressingMode::ZeroPageX,
                bytes: 2,
                cycles: 4,
            },
        ),
        0xD6 => Some(
            Opcode {
                instruction: Instruction::Dec,
                mode: AddressingMode::ZeroPageX,
                bytes: 2,
                cycles: 6,
            },
        ),
        0xD8 => Some(
            Opcode {
                instruction: Instruction::Cld,
                mode: AddressingMode::Implicit,
                bytes: 1,
                cycles: 2,
            },
        ),
        0xD9 => Some(
            Opcode {
                instruction: Instruction::Cmp,
                mode: AddressingMode::AbsoluteY,
                bytes: 3,
                cycles: 4,
            },
        ),
        0xDD => Some(
            Opcode {
                instruction: Instruction::Cmp,
                mode: AddressingMode::AbsoluteX,
                bytes: 3,
                cycles: 4,
            },
        ),
        0xDE => Some(
            Opcode {
                instruction: Instruction::Dec,
                mode: AddressingMode::AbsoluteX,
                bytes: 3,
                cycles: 7,
            },
        ),
        0xE0 => Some(
            Opcode {
                instruction: Instruction::Cpx,
                mode: AddressingMode::Immediate,
                bytes: 2,
                cycles: 2,
            },
        ),
        0xE1 => Some(
            Opcode {
                instruction: Instruction::Sbc,
                mode: AddressingMode::IndexedIndirect,
                bytes: 2,
                cycles: 6,
            },
        ),
        0xE4 => Some(
            Opcode {
                instruction: Instruction::Cpx,
                mode: AddressingMode::ZeroPage,
                bytes: 2,
                cycles: 3,
            },
        ),
        0xE5 => Some(
            Opcode {
                instruction: Instruction::Sbc,
                mode: AddressingMode::ZeroPage,
                bytes: 2,
                cycles: 3,
            },
        ),
        0xE6 => Some(
            Opcode {
                instruction: Instruction::Inc,
                mode: AddressingMode::ZeroPage,
                bytes: 2,
                cycles: 5,
            },
        ),
        0xE8 => Some(
            Opcode {
                instruction: Instruction::Inx,
                mode: AddressingMode::Implicit,
                bytes: 1,
                cycles: 2,
            },
        ),
        0xE9 => Some(
            Opcode {
                instruction: Instruction::Sbc,
                mode: AddressingMode::Immediate,
                bytes: 2,
                cycles: 2,
            },
        ),
        0xEA => Some(
            Opcode {
                instruction: Instruction::Nop,
                mode: AddressingMode::Implicit,
                bytes: 1,
                cycles: 2,
            },
        ),
        0xEC => Some(
            Opcode {
                instruction: Instruction::Cpx,
                mode: AddressingMode::Absolute,
                bytes: 3,
                cycles: 4,
            },
        ),
        0xED => Some(
            Opcode {
                instruction: Instruction::Sbc,
                mode: AddressingMode::Absolute,
                bytes: 3,
                cycles: 4,
            },
        ),
        0xEE => Some(
            Opcode {
                instruction: Instruction::Inc,
                mode: AddressingMode::Absolute,
                bytes: 3,
                cycles: 6,
            },
        ),
        0xF0 => Some(
            Opcode {
                instruction: Instruction::Beq,
                mode: AddressingMode::Relative,
                bytes: 2,
                cycles: 2,
            },
        ),
        0xF1 => Some(
            Opcode {
                instruction: Instruction::Sbc,
                mode: AddressingMode::IndirectIndexed,
                bytes: 2,
                cycles: 5,
            },
        ),
        0xF5 => Some(
            Opcode {
                instruction: Instruction::Sbc,
                mode: AddressingMode::ZeroPageX,
                bytes: 2,
                cycles: 4,
            },
        ),
        0xF6 => Some(
            Opcode {
                instruction: Instruction::Inc,
                mode: AddressingMode::ZeroPageX,
                bytes: 2,
                cycles: 6,
            },
        ),
        0xF8 => Some(
            Opcode {
                instruction: Instruction::Sed,
                mode: AddressingMode::Implicit,
                bytes: 1,
                cycles: 2,
            },
        ),
        0xF9 => Some(
            Opcode {
                instruction: Instruction::Sbc,
                mode: AddressingMode::AbsoluteY,
                bytes: 3,
                cycles: 4,
            },
        ),
        0xFD => Some(
            Opcode {
                instruction: Instruction::Sbc,
                mode: AddressingMode::AbsoluteX,
                bytes: 3,
                cycles: 4,
            },
        ),
        0xFE => Some(
            Opcode {
                instruction: Instruction::Inc,
                mode: AddressingMode::AbsoluteX,
                bytes: 3,
                cycles: 7,
            },
        ),
        _ => None,
    }
}

/// Whether crossing a page boundary while forming the operand address
/// costs the instruction an extra cycle. It does for the instructions
/// that only read their operand; stores and read-modify-write
/// instructions already include the extra cycle in their base count.
pub open spec fn page_penalty_applies(instruction: Instruction) -> bool {
    match instruction {
        Instruction::Adc => true,
        Instruction::And => true,
        Instruction::Cmp => true,
        Instruction::Eor => true,
        Instruction::Lda => true,
        Instruction::Ldx => true,
        Instruction::Ldy => true,
        Instruction::Ora => true,
        Instruction::Sbc => true,
        _ => false,
    }
}

/// Runtime counterpart of [`page_penalty_applies`].
pub fn page_penalty(instruction: Instruction) -> (b: bool)
    ensures
        b == page_penalty_applies(instruction),
{
    match instruction {
        Instruction::Adc => true,
        Instruction::And => true,
        Instruction::Cmp => true,
        Instruction::Eor => true,
        Instruction::Lda => true,
        Instruction::Ldx => true,
        Instruction::Ldy => true,
        Instruction::Ora => true,
        Instruction::Sbc => true,
        _ => false,
    }
}

} // verus!
