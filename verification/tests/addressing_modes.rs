use mos6502::Cpu;
use mos6502::StepOutcome;

#[test]
fn immediate_operand_is_the_following_byte() {
    let mut cpu = Cpu::new_with_program_counter(0x0600);
    cpu.mem_write(0x0600, 0xA9); // LDA #$7F
    cpu.mem_write(0x0601, 0x7F);
    let outcome = cpu.run();
    assert_eq!(cpu.accumulator, 0x7F);
    assert_eq!(cpu.program_counter, 0x0602);
    assert_eq!(outcome, StepOutcome::Executed { cycles: 2 });
}

#[test]
fn zero_page_reads_page_zero() {
    let mut cpu = Cpu::new_with_program_counter(0x0600);
    cpu.mem_write(0x0010, 0x42);
    cpu.mem_write(0x0600, 0xA5); // LDA $10
    cpu.mem_write(0x0601, 0x10);
    let outcome = cpu.run();
    assert_eq!(cpu.accumulator, 0x42);
    assert_eq!(outcome, StepOutcome::Executed { cycles: 3 });
}

#[test]
fn zero_page_x_wraps_within_page_zero() {
    // Base 0xFF plus X=0x02 wraps to 0x01, never reaching 0x0101.
    let mut cpu = Cpu::new_with_program_counter(0x0600);
    cpu.index_x = 0x02;
    cpu.mem_write(0x0001, 0x77);
    cpu.mem_write(0x0101, 0x55);
    cpu.mem_write(0x0600, 0xB5); // LDA $FF,X
    cpu.mem_write(0x0601, 0xFF);
    cpu.run();
    assert_eq!(cpu.accumulator, 0x77);
}

#[test]
fn zero_page_y_indexes_with_y() {
    let mut cpu = Cpu::new_with_program_counter(0x0600);
    cpu.index_y = 0x05;
    cpu.mem_write(0x0015, 0x31);
    cpu.mem_write(0x0600, 0xB6); // LDX $10,Y
    cpu.mem_write(0x0601, 0x10);
    cpu.run();
    assert_eq!(cpu.index_x, 0x31);
}

#[test]
fn absolute_reads_little_endian_address() {
    let mut cpu = Cpu::new_with_program_counter(0x0600);
    cpu.mem_write(0x1234, 0x99);
    cpu.mem_write(0x0600, 0xAD); // LDA $1234
    cpu.mem_write(0x0601, 0x34);
    cpu.mem_write(0x0602, 0x12);
    let outcome = cpu.run();
    assert_eq!(cpu.accumulator, 0x99);
    assert_eq!(cpu.program_counter, 0x0603);
    assert_eq!(outcome, StepOutcome::Executed { cycles: 4 });
}

#[test]
fn absolute_x_page_cross_costs_one_cycle() {
    // Base 0x01F0 plus X=0x20 reaches 0x0210 on the next page: the
    // four-cycle load takes five.
    let mut cpu = Cpu::new_with_program_counter(0x0600);
    cpu.index_x = 0x20;
    cpu.mem_write(0x0210, 0xAB);
    cpu.mem_write(0x0600, 0xBD); // LDA $01F0,X
    cpu.mem_write(0x0601, 0xF0);
    cpu.mem_write(0x0602, 0x01);
    let outcome = cpu.run();
    assert_eq!(cpu.accumulator, 0xAB);
    assert_eq!(outcome, StepOutcome::Executed { cycles: 5 });
}

#[test]
fn absolute_x_same_page_has_no_penalty() {
    let mut cpu = Cpu::new_with_program_counter(0x0600);
    cpu.index_x = 0x05;
    cpu.mem_write(0x01F5, 0xCD);
    cpu.mem_write(0x0600, 0xBD); // LDA $01F0,X
    cpu.mem_write(0x0601, 0xF0);
    cpu.mem_write(0x0602, 0x01);
    let outcome = cpu.run();
    assert_eq!(cpu.accumulator, 0xCD);
    assert_eq!(outcome, StepOutcome::Executed { cycles: 4 });
}

#[test]
fn absolute_y_page_cross_costs_one_cycle() {
    let mut cpu = Cpu::new_with_program_counter(0x0600);
    cpu.index_y = 0x11;
    cpu.mem_write(0x0300, 0x5A);
    cpu.mem_write(0x0600, 0xB9); // LDA $02EF,Y
    cpu.mem_write(0x0601, 0xEF);
    cpu.mem_write(0x0602, 0x02);
    let outcome = cpu.run();
    assert_eq!(cpu.accumulator, 0x5A);
    assert_eq!(outcome, StepOutcome::Executed { cycles: 5 });
}

#[test]
fn store_absolute_x_never_takes_the_penalty() {
    // STA $01F0,X crossing a page still takes its base five cycles.
    let mut cpu = Cpu::new_with_program_counter(0x0600);
    cpu.index_x = 0x20;
    cpu.mem_write(0x0600, 0xA9); // LDA #$3C
    cpu.mem_write(0x0601, 0x3C);
    cpu.mem_write(0x0602, 0x9D); // STA $01F0,X
    cpu.mem_write(0x0603, 0xF0);
    cpu.mem_write(0x0604, 0x01);
    cpu.run();
    let outcome = cpu.run();
    assert_eq!(cpu.mem_read(0x0210), 0x3C);
    assert_eq!(outcome, StepOutcome::Executed { cycles: 5 });
}

#[test]
fn indirect_jmp_follows_the_pointer() {
    let mut cpu = Cpu::new_with_program_counter(0x0600);
    cpu.mem_write(0x0250, 0x34);
    cpu.mem_write(0x0251, 0x12);
    cpu.mem_write(0x0600, 0x6C); // JMP ($0250)
    cpu.mem_write(0x0601, 0x50);
    cpu.mem_write(0x0602, 0x02);
    let outcome = cpu.run();
    assert_eq!(cpu.program_counter, 0x1234);
    assert_eq!(outcome, StepOutcome::Executed { cycles: 5 });
}

#[test]
fn indirect_jmp_reproduces_page_wrap_quirk() {
    // A pointer at 0x02FF takes its high byte from 0x0200, not 0x0300.
    let mut cpu = Cpu::new_with_program_counter(0x0600);
    cpu.mem_write(0x02FF, 0x34);
    cpu.mem_write(0x0200, 0x12);
    cpu.mem_write(0x0300, 0x77);
    cpu.mem_write(0x0600, 0x6C); // JMP ($02FF)
    cpu.mem_write(0x0601, 0xFF);
    cpu.mem_write(0x0602, 0x02);
    cpu.run();
    assert_eq!(cpu.program_counter, 0x1234);
}

#[test]
fn indexed_indirect_wraps_the_pointer_in_page_zero() {
    // Operand 0xFE plus X=0x03 points at 0x01; the pointer's bytes are
    // read from 0x01 and 0x02.
    let mut cpu = Cpu::new_with_program_counter(0x0600);
    cpu.index_x = 0x03;
    cpu.mem_write(0x0001, 0x34);
    cpu.mem_write(0x0002, 0x12);
    cpu.mem_write(0x1234, 0x99);
    cpu.mem_write(0x0600, 0xA1); // LDA ($FE,X)
    cpu.mem_write(0x0601, 0xFE);
    let outcome = cpu.run();
    assert_eq!(cpu.accumulator, 0x99);
    assert_eq!(outcome, StepOutcome::Executed { cycles: 6 });
}

#[test]
fn indirect_indexed_adds_y_after_the_pointer() {
    let mut cpu = Cpu::new_with_program_counter(0x0600);
    cpu.index_y = 0x20;
    cpu.mem_write(0x0010, 0xF0);
    cpu.mem_write(0x0011, 0x01);
    cpu.mem_write(0x0210, 0x66);
    cpu.mem_write(0x0600, 0xB1); // LDA ($10),Y
    cpu.mem_write(0x0601, 0x10);
    let outcome = cpu.run();
    assert_eq!(cpu.accumulator, 0x66);
    // Base 0x01F0 plus 0x20 crosses into page 2: five cycles plus one.
    assert_eq!(outcome, StepOutcome::Executed { cycles: 6 });
}

#[test]
fn accumulator_mode_shifts_the_accumulator() {
    let mut cpu = Cpu::new_with_program_counter(0x0600);
    cpu.mem_write(0x0600, 0xA9); // LDA #$81
    cpu.mem_write(0x0601, 0x81);
    cpu.mem_write(0x0602, 0x0A); // ASL A
    cpu.run();
    let outcome = cpu.run();
    assert_eq!(cpu.accumulator, 0x02);
    assert!(cpu.carry);
    assert_eq!(outcome, StepOutcome::Executed { cycles: 2 });
}
