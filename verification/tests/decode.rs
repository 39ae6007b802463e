use mos6502::AddressingMode;
use mos6502::Instruction;
use mos6502::decode;

#[test]
fn decode_is_total_over_all_bytes() {
    // Every byte value decodes to something: an official descriptor or
    // an explicit None. The official 6502 matrix has 151 entries.
    let mut official: u32 = 0;
    for byte in 0..=255u8 {
        if decode(byte).is_some() {
            official += 1;
        }
    }
    assert_eq!(official, 151);
}

#[test]
fn decode_brk() {
    let op = decode(0x00).unwrap();
    assert_eq!(op.instruction, Instruction::Brk);
    assert_eq!(op.mode, AddressingMode::Implicit);
    assert_eq!(op.bytes, 1);
    assert_eq!(op.cycles, 7);
}

#[test]
fn decode_lda_immediate() {
    let op = decode(0xA9).unwrap();
    assert_eq!(op.instruction, Instruction::Lda);
    assert_eq!(op.mode, AddressingMode::Immediate);
    assert_eq!(op.bytes, 2);
    assert_eq!(op.cycles, 2);
}

#[test]
fn decode_asl_accumulator() {
    let op = decode(0x0A).unwrap();
    assert_eq!(op.instruction, Instruction::Asl);
    assert_eq!(op.mode, AddressingMode::Accumulator);
    assert_eq!(op.bytes, 1);
    assert_eq!(op.cycles, 2);
}

#[test]
fn decode_lda_zero_page() {
    let op = decode(0xA5).unwrap();
    assert_eq!(op.instruction, Instruction::Lda);
    assert_eq!(op.mode, AddressingMode::ZeroPage);
    assert_eq!(op.bytes, 2);
    assert_eq!(op.cycles, 3);
}

#[test]
fn decode_lda_zero_page_x() {
    let op = decode(0xB5).unwrap();
    assert_eq!(op.instruction, Instruction::Lda);
    assert_eq!(op.mode, AddressingMode::ZeroPageX);
    assert_eq!(op.bytes, 2);
    assert_eq!(op.cycles, 4);
}

#[test]
fn decode_ldx_zero_page_y() {
    let op = decode(0xB6).unwrap();
    assert_eq!(op.instruction, Instruction::Ldx);
    assert_eq!(op.mode, AddressingMode::ZeroPageY);
    assert_eq!(op.bytes, 2);
    assert_eq!(op.cycles, 4);
}

#[test]
fn decode_bne_relative() {
    let op = decode(0xD0).unwrap();
    assert_eq!(op.instruction, Instruction::Bne);
    assert_eq!(op.mode, AddressingMode::Relative);
    assert_eq!(op.bytes, 2);
    assert_eq!(op.cycles, 2);
}

#[test]
fn decode_jmp_absolute() {
    let op = decode(0x4C).unwrap();
    assert_eq!(op.instruction, Instruction::Jmp);
    assert_eq!(op.mode, AddressingMode::Absolute);
    assert_eq!(op.bytes, 3);
    assert_eq!(op.cycles, 3);
}

#[test]
fn decode_lda_absolute_x() {
    let op = decode(0xBD).unwrap();
    assert_eq!(op.instruction, Instruction::Lda);
    assert_eq!(op.mode, AddressingMode::AbsoluteX);
    assert_eq!(op.bytes, 3);
    assert_eq!(op.cycles, 4);
}

#[test]
fn decode_lda_absolute_y() {
    let op = decode(0xB9).unwrap();
    assert_eq!(op.instruction, Instruction::Lda);
    assert_eq!(op.mode, AddressingMode::AbsoluteY);
    assert_eq!(op.bytes, 3);
    assert_eq!(op.cycles, 4);
}

#[test]
fn decode_jmp_indirect() {
    let op = decode(0x6C).unwrap();
    assert_eq!(op.instruction, Instruction::Jmp);
    assert_eq!(op.mode, AddressingMode::Indirect);
    assert_eq!(op.bytes, 3);
    assert_eq!(op.cycles, 5);
}

#[test]
fn decode_lda_indexed_indirect() {
    let op = decode(0xA1).unwrap();
    assert_eq!(op.instruction, Instruction::Lda);
    assert_eq!(op.mode, AddressingMode::IndexedIndirect);
    assert_eq!(op.bytes, 2);
    assert_eq!(op.cycles, 6);
}

#[test]
fn decode_lda_indirect_indexed() {
    let op = decode(0xB1).unwrap();
    assert_eq!(op.instruction, Instruction::Lda);
    assert_eq!(op.mode, AddressingMode::IndirectIndexed);
    assert_eq!(op.bytes, 2);
    assert_eq!(op.cycles, 5);
}

#[test]
fn decode_sta_absolute_x_has_no_penalty_base() {
    // Stores carry their indexed cost in the base count.
    let op = decode(0x9D).unwrap();
    assert_eq!(op.instruction, Instruction::Sta);
    assert_eq!(op.mode, AddressingMode::AbsoluteX);
    assert_eq!(op.bytes, 3);
    assert_eq!(op.cycles, 5);
}

#[test]
fn decode_rejects_unofficial_bytes() {
    for byte in [0x02u8, 0x80, 0x9E, 0xFF, 0x44, 0x5C] {
        assert!(decode(byte).is_none(), "0x{byte:02X} has no official meaning");
    }
}

#[test]
fn decode_jsr_and_returns() {
    let jsr = decode(0x20).unwrap();
    assert_eq!(jsr.instruction, Instruction::Jsr);
    assert_eq!(jsr.mode, AddressingMode::Absolute);
    assert_eq!(jsr.bytes, 3);
    assert_eq!(jsr.cycles, 6);
    let rts = decode(0x60).unwrap();
    assert_eq!(rts.instruction, Instruction::Rts);
    assert_eq!(rts.cycles, 6);
    let rti = decode(0x40).unwrap();
    assert_eq!(rti.instruction, Instruction::Rti);
    assert_eq!(rti.cycles, 6);
}
