use mos6502::Cpu;

fn program(start: u16, bytes: &[u8]) -> Cpu {
    let mut cpu = Cpu::new_with_program_counter(start);
    for (offset, byte) in bytes.iter().enumerate() {
        cpu.mem_write(start.wrapping_add(offset as u16), *byte);
    }
    cpu
}

#[test]
fn adc_signed_overflow_case() {
    // 0x50 + 0x50 = 0xA0: two positive addends with a negative result,
    // so Overflow and Negative set, Carry clear.
    let mut cpu = program(0x0600, &[0xA9, 0x50, 0x69, 0x50]);
    cpu.run();
    cpu.run();
    assert_eq!(cpu.accumulator, 0xA0);
    assert!(!cpu.carry);
    assert!(cpu.overflow);
    assert!(cpu.negative);
    assert!(!cpu.zero);
}

#[test]
fn adc_unsigned_carry_out() {
    let mut cpu = program(0x0600, &[0xA9, 0xFF, 0x69, 0x01]);
    cpu.run();
    cpu.run();
    assert_eq!(cpu.accumulator, 0x00);
    assert!(cpu.carry);
    assert!(cpu.zero);
    assert!(!cpu.overflow);
}

#[test]
fn adc_consumes_carry_in() {
    // SEC; LDA #$10; ADC #$05 adds the carry-in: 0x16.
    let mut cpu = program(0x0600, &[0x38, 0xA9, 0x10, 0x69, 0x05]);
    cpu.run();
    cpu.run();
    cpu.run();
    assert_eq!(cpu.accumulator, 0x16);
    assert!(!cpu.carry);
}

#[test]
fn adc_ignores_decimal_flag() {
    // SED; LDA #$09; ADC #$01: pure binary 0x0A, not decimal 0x10.
    let mut cpu = program(0x0600, &[0xF8, 0xA9, 0x09, 0x69, 0x01]);
    cpu.run();
    cpu.run();
    cpu.run();
    assert!(cpu.decimal);
    assert_eq!(cpu.accumulator, 0x0A);
}

#[test]
fn sbc_without_borrow() {
    // SEC; LDA #$50; SBC #$30 = 0x20 with Carry still set.
    let mut cpu = program(0x0600, &[0x38, 0xA9, 0x50, 0xE9, 0x30]);
    cpu.run();
    cpu.run();
    cpu.run();
    assert_eq!(cpu.accumulator, 0x20);
    assert!(cpu.carry);
    assert!(!cpu.overflow);
    assert!(!cpu.negative);
}

#[test]
fn sbc_with_borrow_clears_carry() {
    // SEC; LDA #$30; SBC #$50 = 0xE0 with Carry clear: a borrow.
    let mut cpu = program(0x0600, &[0x38, 0xA9, 0x30, 0xE9, 0x50]);
    cpu.run();
    cpu.run();
    cpu.run();
    assert_eq!(cpu.accumulator, 0xE0);
    assert!(!cpu.carry);
    assert!(cpu.negative);
}

#[test]
fn cmp_greater_sets_carry() {
    let mut cpu = program(0x0600, &[0xA9, 0x50, 0xC9, 0x30]);
    cpu.run();
    cpu.run();
    assert!(cpu.carry);
    assert!(!cpu.zero);
    assert_eq!(cpu.accumulator, 0x50);
}

#[test]
fn cmp_equal_sets_carry_and_zero() {
    let mut cpu = program(0x0600, &[0xA9, 0x42, 0xC9, 0x42]);
    cpu.run();
    cpu.run();
    assert!(cpu.carry);
    assert!(cpu.zero);
}

#[test]
fn cmp_less_clears_carry() {
    let mut cpu = program(0x0600, &[0xA9, 0x30, 0xC9, 0x50]);
    cpu.run();
    cpu.run();
    assert!(!cpu.carry);
    assert!(!cpu.zero);
    assert!(cpu.negative); // 0x30 - 0x50 wraps to 0xE0
}

#[test]
fn cpx_compares_index_x() {
    let mut cpu = program(0x0600, &[0xA2, 0x10, 0xE0, 0x10]);
    cpu.run();
    cpu.run();
    assert!(cpu.carry);
    assert!(cpu.zero);
}

#[test]
fn cpy_compares_index_y() {
    let mut cpu = program(0x0600, &[0xA0, 0x01, 0xC0, 0x02]);
    cpu.run();
    cpu.run();
    assert!(!cpu.carry);
    assert!(!cpu.zero);
}

#[test]
fn inc_memory_wraps_to_zero() {
    let mut cpu = program(0x0600, &[0xE6, 0x10]); // INC $10
    cpu.mem_write(0x0010, 0xFF);
    cpu.run();
    assert_eq!(cpu.mem_read(0x0010), 0x00);
    assert!(cpu.zero);
    assert!(!cpu.negative);
}

#[test]
fn dec_memory_wraps_to_ff() {
    let mut cpu = program(0x0600, &[0xC6, 0x10]); // DEC $10
    cpu.mem_write(0x0010, 0x00);
    cpu.run();
    assert_eq!(cpu.mem_read(0x0010), 0xFF);
    assert!(!cpu.zero);
    assert!(cpu.negative);
}

#[test]
fn inx_wraps_and_sets_zero() {
    let mut cpu = program(0x0600, &[0xA2, 0xFF, 0xE8]); // LDX #$FF; INX
    cpu.run();
    cpu.run();
    assert_eq!(cpu.index_x, 0x00);
    assert!(cpu.zero);
}

#[test]
fn dex_wraps_and_sets_negative() {
    let mut cpu = program(0x0600, &[0xA2, 0x00, 0xCA]); // LDX #$00; DEX
    cpu.run();
    cpu.run();
    assert_eq!(cpu.index_x, 0xFF);
    assert!(cpu.negative);
}

#[test]
fn iny_and_dey_update_flags() {
    let mut cpu = program(0x0600, &[0xA0, 0x7F, 0xC8, 0x88]); // LDY #$7F; INY; DEY
    cpu.run();
    cpu.run();
    assert_eq!(cpu.index_y, 0x80);
    assert!(cpu.negative);
    cpu.run();
    assert_eq!(cpu.index_y, 0x7F);
    assert!(!cpu.negative);
}

#[test]
fn sbc_through_a_memory_operand() {
    // SEC; LDA #$40; SBC $10 where $10 holds 0x0F.
    let mut cpu = program(0x0600, &[0x38, 0xA9, 0x40, 0xE5, 0x10]);
    cpu.mem_write(0x0010, 0x0F);
    cpu.run();
    cpu.run();
    cpu.run();
    assert_eq!(cpu.accumulator, 0x31);
    assert!(cpu.carry);
}

#[test]
fn adc_absolute_y_page_cross_costs_one_cycle() {
    let mut cpu = program(0x0600, &[0x79, 0xFF, 0x01]); // ADC $01FF,Y
    cpu.index_y = 0x01;
    cpu.mem_write(0x0200, 0x07);
    let outcome = cpu.run();
    assert_eq!(cpu.accumulator, 0x07);
    assert_eq!(outcome, mos6502::StepOutcome::Executed { cycles: 5 });
}
