use mos6502::Cpu;

fn program(start: u16, bytes: &[u8]) -> Cpu {
    let mut cpu = Cpu::new_with_program_counter(start);
    for (offset, byte) in bytes.iter().enumerate() {
        cpu.mem_write(start.wrapping_add(offset as u16), *byte);
    }
    cpu
}

#[test]
fn and_combines_and_sets_flags() {
    let mut cpu = program(0x0600, &[0xA9, 0xF0, 0x29, 0x8F]); // LDA #$F0; AND #$8F
    cpu.run();
    cpu.run();
    assert_eq!(cpu.accumulator, 0x80);
    assert!(cpu.negative);
    assert!(!cpu.zero);
}

#[test]
fn and_to_zero_sets_zero() {
    let mut cpu = program(0x0600, &[0xA9, 0x0F, 0x29, 0xF0]);
    cpu.run();
    cpu.run();
    assert_eq!(cpu.accumulator, 0x00);
    assert!(cpu.zero);
}

#[test]
fn ora_combines() {
    let mut cpu = program(0x0600, &[0xA9, 0x0F, 0x09, 0x80]); // LDA #$0F; ORA #$80
    cpu.run();
    cpu.run();
    assert_eq!(cpu.accumulator, 0x8F);
    assert!(cpu.negative);
}

#[test]
fn eor_combines() {
    let mut cpu = program(0x0600, &[0xA9, 0xFF, 0x49, 0xFF]); // LDA #$FF; EOR #$FF
    cpu.run();
    cpu.run();
    assert_eq!(cpu.accumulator, 0x00);
    assert!(cpu.zero);
}

#[test]
fn logical_ops_leave_carry_and_overflow_alone() {
    // SEC first; AND must not touch Carry or Overflow.
    let mut cpu = program(0x0600, &[0x38, 0xA9, 0xF0, 0x29, 0x0F]);
    cpu.run();
    cpu.run();
    cpu.run();
    assert!(cpu.carry);
    assert!(!cpu.overflow);
}

#[test]
fn bit_takes_flags_from_the_operand() {
    // A=0x0F against operand 0xC0: the conjunction is zero, Negative
    // comes from bit 7 and Overflow from bit 6 of the operand itself.
    let mut cpu = program(0x0600, &[0xA9, 0x0F, 0x24, 0x10]); // LDA #$0F; BIT $10
    cpu.mem_write(0x0010, 0xC0);
    cpu.run();
    cpu.run();
    assert!(cpu.zero);
    assert!(cpu.negative);
    assert!(cpu.overflow);
    assert_eq!(cpu.accumulator, 0x0F); // the conjunction is not stored
}

#[test]
fn bit_nonzero_conjunction_clears_zero() {
    let mut cpu = program(0x0600, &[0xA9, 0x40, 0x24, 0x10]);
    cpu.mem_write(0x0010, 0x40);
    cpu.run();
    cpu.run();
    assert!(!cpu.zero);
    assert!(!cpu.negative);
    assert!(cpu.overflow);
}

#[test]
fn asl_memory_shifts_in_place() {
    let mut cpu = program(0x0600, &[0x06, 0x10]); // ASL $10
    cpu.mem_write(0x0010, 0xC1);
    cpu.run();
    assert_eq!(cpu.mem_read(0x0010), 0x82);
    assert!(cpu.carry);
    assert!(cpu.negative);
}

#[test]
fn lsr_shifts_bit_zero_into_carry() {
    let mut cpu = program(0x0600, &[0xA9, 0x01, 0x4A]); // LDA #$01; LSR A
    cpu.run();
    cpu.run();
    assert_eq!(cpu.accumulator, 0x00);
    assert!(cpu.carry);
    assert!(cpu.zero);
    assert!(!cpu.negative);
}

#[test]
fn rol_feeds_carry_into_bit_zero() {
    // SEC; LDA #$80; ROL A: carry out from bit 7, carry in to bit 0.
    let mut cpu = program(0x0600, &[0x38, 0xA9, 0x80, 0x2A]);
    cpu.run();
    cpu.run();
    cpu.run();
    assert_eq!(cpu.accumulator, 0x01);
    assert!(cpu.carry);
}

#[test]
fn ror_feeds_carry_into_bit_seven() {
    // SEC; LDA #$01; ROR A.
    let mut cpu = program(0x0600, &[0x38, 0xA9, 0x01, 0x6A]);
    cpu.run();
    cpu.run();
    cpu.run();
    assert_eq!(cpu.accumulator, 0x80);
    assert!(cpu.carry);
    assert!(cpu.negative);
}

#[test]
fn ror_memory_operand() {
    let mut cpu = program(0x0600, &[0x66, 0x10]); // ROR $10, carry clear
    cpu.mem_write(0x0010, 0x03);
    cpu.run();
    assert_eq!(cpu.mem_read(0x0010), 0x01);
    assert!(cpu.carry);
}

#[test]
fn loads_and_transfers_update_flags() {
    let mut cpu = program(0x0600, &[0xA9, 0x00, 0xAA, 0xA8]); // LDA #$00; TAX; TAY
    cpu.run();
    assert!(cpu.zero);
    cpu.run();
    assert_eq!(cpu.index_x, 0x00);
    assert!(cpu.zero);
    cpu.run();
    assert_eq!(cpu.index_y, 0x00);
    assert!(cpu.zero);
}

#[test]
fn transfers_move_values_each_way() {
    let mut cpu = program(
        0x0600,
        &[0xA2, 0x9A, 0x8A, 0xA0, 0x41, 0x98], // LDX #$9A; TXA; LDY #$41; TYA
    );
    cpu.run();
    cpu.run();
    assert_eq!(cpu.accumulator, 0x9A);
    assert!(cpu.negative);
    cpu.run();
    cpu.run();
    assert_eq!(cpu.accumulator, 0x41);
    assert!(!cpu.negative);
}

#[test]
fn txs_moves_without_flags_and_tsx_with() {
    // LDX #$00; TXS must not set Zero afterwards; clear X, then TSX
    // reads the zero stack pointer and sets it.
    let mut cpu = program(0x0600, &[0xA2, 0x00, 0xA9, 0x01, 0x9A, 0xBA]);
    cpu.run(); // LDX #$00, sets Zero
    cpu.run(); // LDA #$01, clears Zero
    cpu.run(); // TXS
    assert_eq!(cpu.stack_pointer, 0x00);
    assert!(!cpu.zero);
    cpu.run(); // TSX
    assert_eq!(cpu.index_x, 0x00);
    assert!(cpu.zero);
}

#[test]
fn stores_write_without_touching_flags() {
    let mut cpu = program(
        0x0600,
        &[0xA9, 0x00, 0x85, 0x20, 0xA2, 0x35, 0x86, 0x21, 0xA0, 0x36, 0x84, 0x22],
    ); // LDA #$00; STA $20; LDX #$35; STX $21; LDY #$36; STY $22
    cpu.run();
    cpu.run();
    assert!(cpu.zero); // STA left the Zero from LDA alone
    cpu.run();
    cpu.run();
    cpu.run();
    cpu.run();
    assert_eq!(cpu.mem_read(0x0020), 0x00);
    assert_eq!(cpu.mem_read(0x0021), 0x35);
    assert_eq!(cpu.mem_read(0x0022), 0x36);
}

#[test]
fn flag_instructions_set_and_clear_one_bit() {
    let mut cpu = program(0x0600, &[0x38, 0xF8, 0x78, 0x18, 0xD8, 0x58]);
    cpu.run(); // SEC
    assert!(cpu.carry);
    cpu.run(); // SED
    assert!(cpu.decimal);
    cpu.run(); // SEI
    assert!(cpu.interrupt_disable);
    cpu.run(); // CLC
    assert!(!cpu.carry);
    cpu.run(); // CLD
    assert!(!cpu.decimal);
    cpu.run(); // CLI
    assert!(!cpu.interrupt_disable);
    assert!(cpu.decimal == false && cpu.carry == false);
}

#[test]
fn clv_clears_overflow() {
    // Produce a signed overflow, then CLV.
    let mut cpu = program(0x0600, &[0xA9, 0x50, 0x69, 0x50, 0xB8]);
    cpu.run();
    cpu.run();
    assert!(cpu.overflow);
    cpu.run();
    assert!(!cpu.overflow);
}

#[test]
fn nop_changes_nothing_but_the_counter() {
    let mut cpu = program(0x0600, &[0xEA]);
    let outcome = cpu.run();
    assert_eq!(cpu.program_counter, 0x0601);
    assert_eq!(outcome, mos6502::StepOutcome::Executed { cycles: 2 });
    assert_eq!(cpu.accumulator, 0);
    assert_eq!(cpu.stack_pointer, 0xFD);
}

#[test]
fn asl_absolute_x_always_takes_seven_cycles() {
    // Read-modify-write instructions include the indexed cost in their
    // base count, page cross or not.
    let mut cpu = program(0x0600, &[0x1E, 0xF0, 0x01]); // ASL $01F0,X
    cpu.index_x = 0x20;
    cpu.mem_write(0x0210, 0x01);
    let outcome = cpu.run();
    assert_eq!(cpu.mem_read(0x0210), 0x02);
    assert_eq!(outcome, mos6502::StepOutcome::Executed { cycles: 7 });
}

#[test]
fn eor_and_ora_through_memory_operands() {
    let mut cpu = program(0x0600, &[0xA9, 0x55, 0x45, 0x10, 0x05, 0x11]);
    cpu.mem_write(0x0010, 0xFF); // EOR $10
    cpu.mem_write(0x0011, 0x01); // ORA $11
    cpu.run();
    cpu.run();
    assert_eq!(cpu.accumulator, 0xAA);
    cpu.run();
    assert_eq!(cpu.accumulator, 0xAB);
}

#[test]
fn inc_absolute_x_takes_seven_cycles() {
    let mut cpu = program(0x0600, &[0xFE, 0x00, 0x02]); // INC $0200,X
    cpu.index_x = 0x05;
    cpu.mem_write(0x0205, 0x41);
    let outcome = cpu.run();
    assert_eq!(cpu.mem_read(0x0205), 0x42);
    assert_eq!(outcome, mos6502::StepOutcome::Executed { cycles: 7 });
}
