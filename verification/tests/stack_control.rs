use mos6502::Cpu;
use mos6502::StepOutcome;

fn program(start: u16, bytes: &[u8]) -> Cpu {
    let mut cpu = Cpu::new_with_program_counter(start);
    for (offset, byte) in bytes.iter().enumerate() {
        cpu.mem_write(start.wrapping_add(offset as u16), *byte);
    }
    cpu
}

#[test]
fn pha_pla_restores_accumulator_and_stack_pointer() {
    // LDA #$42; PHA; LDA #$00; PLA: the accumulator comes back and the
    // stack pointer ends where it began.
    let mut cpu = program(0x0600, &[0xA9, 0x42, 0x48, 0xA9, 0x00, 0x68]);
    cpu.run();
    let sp_before = cpu.stack_pointer;
    cpu.run(); // PHA
    assert_eq!(cpu.stack_pointer, sp_before.wrapping_sub(1));
    assert_eq!(cpu.mem_read(0x0100 + sp_before as u16), 0x42);
    cpu.run(); // LDA #$00
    assert_eq!(cpu.accumulator, 0x00);
    cpu.run(); // PLA
    assert_eq!(cpu.accumulator, 0x42);
    assert_eq!(cpu.stack_pointer, sp_before);
    assert!(!cpu.zero);
}

#[test]
fn php_plp_restores_every_status_bit() {
    // SEC; SED; PHP; CLC; CLD; PLP: Carry and Decimal come back.
    let mut cpu = program(0x0600, &[0x38, 0xF8, 0x08, 0x18, 0xD8, 0x28]);
    cpu.run();
    cpu.run();
    cpu.run(); // PHP
    cpu.run();
    cpu.run();
    assert!(!cpu.carry && !cpu.decimal);
    cpu.run(); // PLP
    assert!(cpu.carry);
    assert!(cpu.decimal);
    assert!(cpu.interrupt_disable); // the power-up value, pushed and pulled
    assert_eq!(cpu.stack_pointer, 0xFD);
}

#[test]
fn php_pushes_bit_five_set() {
    // After SEC, the pushed byte is Carry | Interrupt-Disable | bit 5.
    let mut cpu = program(0x0600, &[0x38, 0x08]);
    cpu.run();
    cpu.run();
    assert_eq!(cpu.mem_read(0x01FD), 0x25);
}

#[test]
fn status_byte_reads_bit_five_set() {
    let cpu = Cpu::new();
    // Power-up: Interrupt-Disable plus the fixed bit 5.
    assert_eq!(cpu.status_byte(), 0x24);
}

#[test]
fn stack_wraps_within_page_one() {
    // With the stack pointer at 0x00 a push writes 0x0100 and wraps the
    // pointer to 0xFF; it never leaves page 1.
    let mut cpu = program(0x0600, &[0xA9, 0x7B, 0x48, 0xA9, 0x00, 0x68]);
    cpu.stack_pointer = 0x00;
    cpu.run();
    cpu.run(); // PHA
    assert_eq!(cpu.stack_pointer, 0xFF);
    assert_eq!(cpu.mem_read(0x0100), 0x7B);
    assert_eq!(cpu.mem_read(0x00FF), 0x00);
    assert_eq!(cpu.mem_read(0x0200), 0x00);
    cpu.run();
    cpu.run(); // PLA wraps back
    assert_eq!(cpu.stack_pointer, 0x00);
    assert_eq!(cpu.accumulator, 0x7B);
}

#[test]
fn jmp_absolute_sets_the_counter() {
    let mut cpu = program(0x0600, &[0x4C, 0x00, 0x80]); // JMP $8000
    let outcome = cpu.run();
    assert_eq!(cpu.program_counter, 0x8000);
    assert_eq!(outcome, StepOutcome::Executed { cycles: 3 });
}

#[test]
fn jsr_rts_round_trip_at_0600() {
    // JSR at 0x0600 pushes 0x0602 — the return address minus one — and
    // the RTS at the target restores 0x0603.
    let mut cpu = program(0x0600, &[0x20, 0x34, 0x12]); // JSR $1234
    cpu.mem_write(0x1234, 0x60); // RTS
    let call = cpu.run();
    assert_eq!(cpu.program_counter, 0x1234);
    assert_eq!(cpu.stack_pointer, 0xFB);
    assert_eq!(cpu.mem_read(0x01FD), 0x06); // high byte first
    assert_eq!(cpu.mem_read(0x01FC), 0x02);
    assert_eq!(call, StepOutcome::Executed { cycles: 6 });
    let ret = cpu.run();
    assert_eq!(cpu.program_counter, 0x0603);
    assert_eq!(cpu.stack_pointer, 0xFD);
    assert_eq!(ret, StepOutcome::Executed { cycles: 6 });
}

#[test]
fn brk_pushes_state_and_takes_the_vector() {
    let mut cpu = program(0x0600, &[0x00]); // BRK
    cpu.mem_write(0xFFFE, 0x00);
    cpu.mem_write(0xFFFF, 0x80);
    let outcome = cpu.run();
    assert_eq!(cpu.program_counter, 0x8000);
    assert!(cpu.interrupt_disable);
    assert_eq!(cpu.stack_pointer, 0xFA);
    assert_eq!(cpu.mem_read(0x01FD), 0x06); // return address 0x0602, high first
    assert_eq!(cpu.mem_read(0x01FC), 0x02);
    assert_eq!(cpu.mem_read(0x01FB), 0x34); // status: Break, bit 5, Interrupt-Disable
    assert_eq!(outcome, StepOutcome::Executed { cycles: 7 });
}

#[test]
fn rti_reverses_brk() {
    let mut cpu = program(0x0600, &[0x00]); // BRK
    cpu.mem_write(0xFFFE, 0x00);
    cpu.mem_write(0xFFFF, 0x80);
    cpu.mem_write(0x8000, 0x40); // RTI
    cpu.run();
    let outcome = cpu.run();
    assert_eq!(cpu.program_counter, 0x0602);
    assert_eq!(cpu.stack_pointer, 0xFD);
    assert!(cpu.break_flag); // pushed forced set, pulled back set
    assert!(cpu.interrupt_disable); // as pushed before BRK set it
    assert!(!cpu.carry && !cpu.zero && !cpu.negative && !cpu.overflow);
    assert_eq!(outcome, StepOutcome::Executed { cycles: 6 });
}

#[test]
fn rts_adds_one_where_rti_does_not() {
    // Hand-laid stack frames: RTS pulls 0x12FF and resumes at 0x1300;
    // RTI pulls a status byte and 0x12FF and resumes at 0x12FF itself.
    let mut cpu = program(0x0600, &[0x60]); // RTS
    cpu.stack_pointer = 0xFB;
    cpu.mem_write(0x01FC, 0xFF);
    cpu.mem_write(0x01FD, 0x12);
    cpu.run();
    assert_eq!(cpu.program_counter, 0x1300);

    let mut cpu = program(0x0600, &[0x40]); // RTI
    cpu.stack_pointer = 0xFA;
    cpu.mem_write(0x01FB, 0x20); // status: only bit 5
    cpu.mem_write(0x01FC, 0xFF);
    cpu.mem_write(0x01FD, 0x12);
    cpu.run();
    assert_eq!(cpu.program_counter, 0x12FF);
    assert!(!cpu.interrupt_disable);
    assert!(!cpu.break_flag);
}

#[test]
fn illegal_opcode_reports_and_preserves_state() {
    let mut cpu = program(0x0600, &[0x02]);
    let outcome = cpu.run();
    assert_eq!(outcome, StepOutcome::IllegalOpcode { opcode: 0x02 });
    assert_eq!(cpu.program_counter, 0x0600);
    assert_eq!(cpu.stack_pointer, 0xFD);
    assert_eq!(cpu.accumulator, 0x00);
}

#[test]
fn new_starts_with_documented_defaults() {
    let cpu = Cpu::new();
    assert_eq!(cpu.accumulator, 0);
    assert_eq!(cpu.index_x, 0);
    assert_eq!(cpu.index_y, 0);
    assert_eq!(cpu.program_counter, 0);
    assert_eq!(cpu.stack_pointer, 0xFD);
    assert!(cpu.interrupt_disable);
    assert!(!cpu.carry && !cpu.zero && !cpu.decimal && !cpu.break_flag);
    assert!(!cpu.overflow && !cpu.negative);
    assert_eq!(cpu.mem_read(0x0000), 0);
    assert_eq!(cpu.mem_read(0xFFFF), 0);
}

#[test]
fn reset_loads_the_reset_vector() {
    let mut cpu = Cpu::new();
    cpu.mem_write(0xFFFC, 0x34);
    cpu.mem_write(0xFFFD, 0x12);
    cpu.accumulator = 0x55;
    cpu.reset();
    assert_eq!(cpu.program_counter, 0x1234);
    assert_eq!(cpu.accumulator, 0);
    assert_eq!(cpu.stack_pointer, 0xFD);
    assert!(cpu.interrupt_disable);
    assert_eq!(cpu.mem_read(0xFFFC), 0x34); // memory untouched
}

#[test]
fn fetch_reads_the_opcode_byte() {
    let cpu = program(0x0600, &[0xEA]);
    assert_eq!(cpu.fetch(), 0xEA);
}
