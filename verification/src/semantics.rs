//! The meaning of each instruction: what one executed instruction does
//! to the registers, the status bits and memory, and what one whole
//! fetch-decode-execute step does to the processor.
//!
//! `spec_execute` gives the effect of a single instruction on the model
//! state with the program counter already moved past the instruction;
//! `spec_step` composes fetch, decode, operand resolution, the program
//! counter advance and execution into the meaning of one step.
//!
//! The Decimal flag can be set and cleared but does not change how ADC
//! and SBC compute: both always operate in pure binary, the behaviour of
//! the 6502 derivatives that omit binary-coded-decimal arithmetic.

use vstd::prelude::*;

use crate::addressing::Operand;
use crate::addressing::branch_target;
use crate::addressing::page_crossed;
use crate::addressing::spec_resolve;
use crate::opcode::Instruction;
use crate::opcode::page_penalty_applies;
use crate::opcode::spec_decode;
use crate::state::CpuState;
use crate::state::bit6_set;
use crate::state::bit7_set;
use crate::state::flag_bit;
use crate::state::make_word;
use crate::state::sp_inc;
use crate::state::sp_dec;
use crate::state::spec_advance;
use crate::state::stack_addr;
use crate::state::status_pack;
use crate::state::with_status;
use crate::state::word_dec;
use crate::state::word_hi;
use crate::state::word_inc;
use crate::state::word_lo;

verus! {

/// The address of the low byte of the interrupt vector that BRK loads
/// the program counter from; the high byte follows at the next address.
pub const BREAK_VECTOR_LOW: u16 = 0xFFFE;

/// The address of the high byte of the interrupt vector.
pub const BREAK_VECTOR_HIGH: u16 = 0xFFFF;

/// What one step of the processor reported.
#[derive(Clone, Copy, PartialEq, Eq, Debug, Structural)]
pub enum StepOutcome {
    /// One instruction completed, consuming this many cycles.
    Executed { cycles: u8 },
    /// The fetched byte is no official opcode; the processor state is
    /// left unchanged and the fault is reported instead.
    IllegalOpcode { opcode: u8 },
}

/// The byte an instruction operates on: an immediate or displacement
/// byte as such, a memory operand read from its effective address, the
/// accumulator, and zero where the instruction takes no operand.
pub open spec fn operand_value(operand: Operand, s: CpuState) -> u8 {
    match operand {
        Operand::Implied => 0,
        Operand::Acc => s.accumulator,
        Operand::Value(v) => v,
        Operand::Location(addr) => s.mem[addr as int],
    }
}

/// The state with Zero and Negative set from the given result byte.
pub open spec fn with_nz(s: CpuState, result: u8) -> CpuState {
    CpuState { zero: result == 0, negative: bit7_set(result), ..s }
}

/// A byte incremented, wrapping from 0xFF to 0x00.
pub open spec fn byte_inc(v: u8) -> u8 {
    ((v + 1) % 0x100) as u8
}

/// A byte decremented, wrapping from 0x00 to 0xFF.
pub open spec fn byte_dec(v: u8) -> u8 {
    ((v + 0xFF) % 0x100) as u8
}

/// ADC: accumulator plus operand plus carry-in, in pure binary. Carry is
/// the unsigned overflow of the 8-bit sum; Overflow the signed one: it
/// is set exactly when both addends share a sign and the result's sign
/// differs.
pub open spec fn spec_adc(s: CpuState, value: u8) -> CpuState {
    let total: int = s.accumulator + value + flag_bit(s.carry);
    let result: u8 = (total % 0x100) as u8;
    CpuState {
        accumulator: result,
        carry: total > 0xFF,
        overflow: bit7_set(s.accumulator) == bit7_set(value) && bit7_set(result) != bit7_set(
            s.accumulator,
        ),
        ..with_nz(s, result)
    }
}

/// SBC: accumulator minus operand minus the borrow (the carry's
/// complement), in pure binary: the sum of the accumulator, the
/// operand's ones' complement and the carry-in. Carry is set exactly
/// when no borrow occurred; Overflow is the signed overflow.
pub open spec fn spec_sbc(s: CpuState, value: u8) -> CpuState {
    let total: int = s.accumulator + 0xFF - value + flag_bit(s.carry);
    let result: u8 = (total % 0x100) as u8;
    CpuState {
        accumulator: result,
        carry: total > 0xFF,
        overflow: bit7_set(s.accumulator) != bit7_set(value) && bit7_set(result) != bit7_set(
            s.accumulator,
        ),
        ..with_nz(s, result)
    }
}

/// CMP, CPX, CPY: the flags of `register - operand` without storing the
/// difference. Carry is set exactly when the register is at least the
/// operand, unsigned; Zero exactly on equality; Negative from bit 7 of
/// the wrapped difference.
pub open spec fn compare_flags(s: CpuState, register: u8, value: u8) -> CpuState {
    let difference: u8 = ((register + 0x100 - value) % 0x100) as u8;
    CpuState { carry: register >= value, ..with_nz(s, difference) }
}

/// AND: bitwise conjunction into the accumulator.
pub open spec fn spec_and(s: CpuState, value: u8) -> CpuState {
    CpuState { accumulator: s.accumulator & value, ..with_nz(s, s.accumulator & value) }
}

/// EOR: bitwise exclusive disjunction into the accumulator.
pub open spec fn spec_eor(s: CpuState, value: u8) -> CpuState {
    CpuState { accumulator: s.accumulator ^ value, ..with_nz(s, s.accumulator ^ value) }
}

/// ORA: bitwise inclusive disjunction into the accumulator.
pub open spec fn spec_ora(s: CpuState, value: u8) -> CpuState {
    CpuState { accumulator: s.accumulator | value, ..with_nz(s, s.accumulator | value) }
}

/// BIT: Zero from accumulator AND operand, discarding that conjunction;
/// Negative and Overflow straight from bits 7 and 6 of the operand
/// itself, a quirk the hardware defines.
pub open spec fn spec_bit(s: CpuState, value: u8) -> CpuState {
    CpuState {
        zero: s.accumulator & value == 0,
        negative: bit7_set(value),
        overflow: bit6_set(value),
        ..s
    }
}

/// An ASL result: the byte shifted left once; bit 0 becomes 0.
pub open spec fn asl_result(v: u8) -> u8 {
    ((v * 2) % 0x100) as u8
}

/// An LSR result: the byte shifted right once; bit 7 becomes 0.
pub open spec fn lsr_result(v: u8) -> u8 {
    v / 2
}

/// A ROL result: shifted left once with the carry-in in bit 0.
pub open spec fn rol_result(v: u8, carry_in: bool) -> u8 {
    ((v * 2) % 0x100 + flag_bit(carry_in)) as u8
}

/// A ROR result: shifted right once with the carry-in in bit 7.
pub open spec fn ror_result(v: u8, carry_in: bool) -> u8 {
    (v / 2 + 0x80 * flag_bit(carry_in)) as u8
}

/// A shift or rotate written back where it came from: the accumulator or
/// the operand's memory location, with Carry receiving the bit shifted
/// out and Zero and Negative set from the result.
pub open spec fn shift_apply(s: CpuState, operand: Operand, result: u8, carry_out: bool) -> CpuState {
    match operand {
        Operand::Acc => CpuState { accumulator: result, carry: carry_out, ..with_nz(s, result) },
        Operand::Location(addr) => CpuState {
            mem: s.mem.update(addr as int, result),
            carry: carry_out,
            ..with_nz(s, result)
        },
        _ => s,
    }
}

/// ASL: shift left; the bit shifted out of bit 7 goes to Carry.
pub open spec fn spec_asl(s: CpuState, operand: Operand) -> CpuState {
    let v: u8 = operand_value(operand, s);
    shift_apply(s, operand, asl_result(v), bit7_set(v))
}

/// LSR: shift right; the bit shifted out of bit 0 goes to Carry.
pub open spec fn spec_lsr(s: CpuState, operand: Operand) -> CpuState {
    let v: u8 = operand_value(operand, s);
    shift_apply(s, operand, lsr_result(v), v % 2 == 1)
}

/// ROL: rotate left through Carry.
pub open spec fn spec_rol(s: CpuState, operand: Operand) -> CpuState {
    let v: u8 = operand_value(operand, s);
    shift_apply(s, operand, rol_result(v, s.carry), bit7_set(v))
}

/// ROR: rotate right through Carry.
pub open spec fn spec_ror(s: CpuState, operand: Operand) -> CpuState {
    let v: u8 = operand_value(operand, s);
    shift_apply(s, operand, ror_result(v, s.carry), v % 2 == 1)
}

/// INC: the memory operand incremented in place, wrapping, with Zero and
/// Negative from the result; Carry is untouched.
pub open spec fn spec_inc_mem(s: CpuState, operand: Operand) -> CpuState {
    match operand {
        Operand::Location(addr) => {
            let result: u8 = byte_inc(s.mem[addr as int]);
            CpuState { mem: s.mem.update(addr as int, result), ..with_nz(s, result) }
        },
        _ => s,
    }
}

/// DEC: the memory operand decremented in place, wrapping, with Zero and
/// Negative from the result; Carry is untouched.
pub open spec fn spec_dec_mem(s: CpuState, operand: Operand) -> CpuState {
    match operand {
        Operand::Location(addr) => {
            let result: u8 = byte_dec(s.mem[addr as int]);
            CpuState { mem: s.mem.update(addr as int, result), ..with_nz(s, result) }
        },
        _ => s,
    }
}

/// STA, STX, STY: the register's value written to the operand's memory
/// location; no flag changes.
pub open spec fn spec_store(s: CpuState, operand: Operand, value: u8) -> CpuState {
    match operand {
        Operand::Location(addr) => CpuState { mem: s.mem.update(addr as int, value), ..s },
        _ => s,
    }
}

/// One byte pushed: written at the stack pointer's address in page 1,
/// the stack pointer then decremented, wrapping within the page.
pub open spec fn spec_push(s: CpuState, value: u8) -> CpuState {
    CpuState {
        mem: s.mem.update(stack_addr(s.stack_pointer) as int, value),
        stack_pointer: sp_dec(s.stack_pointer),
        ..s
    }
}

/// The byte a pull reads: the stack pointer is first incremented,
/// wrapping within page 1, and the byte at its new address is read.
pub open spec fn pull_value(s: CpuState) -> u8 {
    s.mem[stack_addr(sp_inc(s.stack_pointer)) as int]
}

/// PHA: the accumulator pushed; no flag changes.
pub open spec fn spec_pha(s: CpuState) -> CpuState {
    spec_push(s, s.accumulator)
}

/// PHP: the packed status byte pushed, with the Break bit as stored and
/// bit 5 set; no flag changes.
pub open spec fn spec_php(s: CpuState) -> CpuState {
    spec_push(
        s,
        status_pack(s.carry, s.zero, s.interrupt_disable, s.decimal, s.break_flag, s.overflow, s.negative),
    )
}

/// PLA: the accumulator pulled from the stack, with Zero and Negative
/// set from the pulled value.
pub open spec fn spec_pla(s: CpuState) -> CpuState {
    let v: u8 = pull_value(s);
    CpuState { accumulator: v, stack_pointer: sp_inc(s.stack_pointer), ..with_nz(s, v) }
}

/// PLP: the whole status byte pulled; every stored bit is loaded from
/// it, and bit 5, which is not stored, is ignored.
pub open spec fn spec_plp(s: CpuState) -> CpuState {
    CpuState { stack_pointer: sp_inc(s.stack_pointer), ..with_status(s, pull_value(s)) }
}

/// JMP: the program counter set to the resolved address.
pub open spec fn spec_jmp(s: CpuState, operand: Operand) -> CpuState {
    match operand {
        Operand::Location(target) => CpuState { program_counter: target, ..s },
        _ => s,
    }
}

/// JSR: the return address — the address of the instruction after the
/// JSR, minus one, per the architecture's convention — pushed high byte
/// first, then the jump. The program counter stands past the JSR here,
/// so that return address is one below it.
pub open spec fn spec_jsr(s: CpuState, operand: Operand) -> CpuState {
    match operand {
        Operand::Location(target) => {
            let ret: u16 = word_dec(s.program_counter);
            let pushed: CpuState = spec_push(spec_push(s, word_hi(ret)), word_lo(ret));
            CpuState { program_counter: target, ..pushed }
        },
        _ => s,
    }
}

/// RTS: two bytes pulled, low byte first, and the program counter set to
/// that address plus one.
pub open spec fn spec_rts(s: CpuState) -> CpuState {
    let sp1: u8 = sp_inc(s.stack_pointer);
    let lo: u8 = s.mem[stack_addr(sp1) as int];
    let sp2: u8 = sp_inc(sp1);
    let hi: u8 = s.mem[stack_addr(sp2) as int];
    CpuState { stack_pointer: sp2, program_counter: word_inc(make_word(lo, hi)), ..s }
}

/// BRK: the address two past the opcode pushed high byte first, then the
/// status with the Break bit forced set; Interrupt-Disable is set and
/// the program counter loaded from the interrupt vector. The program
/// counter stands one past the opcode here, so the pushed address is one
/// above it.
pub open spec fn spec_brk(s: CpuState) -> CpuState {
    let ret: u16 = word_inc(s.program_counter);
    let pushed: CpuState = spec_push(
        spec_push(spec_push(s, word_hi(ret)), word_lo(ret)),
        status_pack(s.carry, s.zero, s.interrupt_disable, s.decimal, true, s.overflow, s.negative),
    );
    CpuState {
        interrupt_disable: true,
        program_counter: make_word(
            pushed.mem[BREAK_VECTOR_LOW as int],
            pushed.mem[BREAK_VECTOR_HIGH as int],
        ),
        ..pushed
    }
}

/// RTI: the status byte pulled first, then the program counter, low
/// byte before high, with nothing added to it — unlike RTS.
pub open spec fn spec_rti(s: CpuState) -> CpuState {
    let sp1: u8 = sp_inc(s.stack_pointer);
    let status: u8 = s.mem[stack_addr(sp1) as int];
    let sp2: u8 = sp_inc(sp1);
    let lo: u8 = s.mem[stack_addr(sp2) as int];
    let sp3: u8 = sp_inc(sp2);
    let hi: u8 = s.mem[stack_addr(sp3) as int];
    CpuState {
        stack_pointer: sp3,
        program_counter: make_word(lo, hi),
        ..with_status(s, status)
    }
}

/// The cycles a branch adds to its base count: none when not taken, one
/// when taken within the page, one more when the target lies on another
/// page than the instruction's end.
pub open spec fn branch_extra(taken: bool, crossed: bool) -> u8 {
    if !taken {
        0
    } else if crossed {
        2
    } else {
        1
    }
}

/// A conditional branch: when the condition holds, the signed
/// displacement is added to the program counter already moved past the
/// branch; the second component is the extra cycle count of
/// [`branch_extra`].
pub open spec fn spec_branch(s: CpuState, condition: bool, displacement: u8) -> (CpuState, u8) {
    let target: u16 = branch_target(s.program_counter, displacement);
    let crossed: bool = page_crossed(s.program_counter, target);
    if condition {
        (CpuState { program_counter: target, ..s }, branch_extra(true, crossed))
    } else {
        (s, 0)
    }
}

/// The effect of one instruction on the state, with the program counter
/// already moved past the instruction, paired with the extra cycles a
/// taken branch consumes.
pub open spec fn spec_execute(instruction: Instruction, operand: Operand, s: CpuState) -> (
    CpuState,
    u8,
) {
    let value: u8 = operand_value(operand, s);
    match instruction {
        Instruction::Adc => (spec_adc(s, value), 0),
        Instruction::And => (spec_and(s, value), 0),
        Instruction::Asl => (spec_asl(s, operand), 0),
        Instruction::Bcc => spec_branch(s, !s.carry, value),
        Instruction::Bcs => spec_branch(s, s.carry, value),
        Instruction::Beq => spec_branch(s, s.zero, value),
        Instruction::Bit => (spec_bit(s, value), 0),
        Instruction::Bmi => spec_branch(s, s.negative, value),
        Instruction::Bne => spec_branch(s, !s.zero, value),
        Instruction::Bpl => spec_branch(s, !s.negative, value),
        Instruction::Brk => (spec_brk(s), 0),
        Instruction::Bvc => spec_branch(s, !s.overflow, value),
        Instruction::Bvs => spec_branch(s, s.overflow, value),
        Instruction::Clc => (CpuState { carry: false, ..s }, 0),
        Instruction::Cld => (CpuState { decimal: false, ..s }, 0),
        Instruction::Cli => (CpuState { interrupt_disable: false, ..s }, 0),
        Instruction::Clv => (CpuState { overflow: false, ..s }, 0),
        Instruction::Cmp => (compare_flags(s, s.accumulator, value), 0),
        Instruction::Cpx => (compare_flags(s, s.index_x, value), 0),
        Instruction::Cpy => (compare_flags(s, s.index_y, value), 0),
        Instruction::Dec => (spec_dec_mem(s, operand), 0),
        Instruction::Dex => (
            CpuState { index_x: byte_dec(s.index_x), ..with_nz(s, byte_dec(s.index_x)) },
            0,
        ),
        Instruction::Dey => (
            CpuState { index_y: byte_dec(s.index_y), ..with_nz(s, byte_dec(s.index_y)) },
            0,
        ),
        Instruction::Eor => (spec_eor(s, value), 0),
        Instruction::Inc => (spec_inc_mem(s, operand), 0),
        Instruction::Inx => (
            CpuState { index_x: byte_inc(s.index_x), ..with_nz(s, byte_inc(s.index_x)) },
            0,
        ),
        Instruction::Iny => (
            CpuState { index_y: byte_inc(s.index_y), ..with_nz(s, byte_inc(s.index_y)) },
            0,
        ),
        Instruction::Jmp => (spec_jmp(s, operand), 0),
        Instruction::Jsr => (spec_jsr(s, operand), 0),
        Instruction::Lda => (CpuState { accumulator: value, ..with_nz(s, value) }, 0),
        Instruction::Ldx => (CpuState { index_x: value, ..with_nz(s, value) }, 0),
        Instruction::Ldy => (CpuState { index_y: value, ..with_nz(s, value) }, 0),
        Instruction::Lsr => (spec_lsr(s, operand), 0),
        Instruction::Nop => (s, 0),
        Instruction::Ora => (spec_ora(s, value), 0),
        Instruction::Pha => (spec_pha(s), 0),
        Instruction::Php => (spec_php(s), 0),
        Instruction::Pla => (spec_pla(s), 0),
        Instruction::Plp => (spec_plp(s), 0),
        Instruction::Rol => (spec_rol(s, operand), 0),
        Instruction::Ror => (spec_ror(s, operand), 0),
        Instruction::Rti => (spec_rti(s), 0),
        Instruction::Rts => (spec_rts(s), 0),
        Instruction::Sbc => (spec_sbc(s, value), 0),
        Instruction::Sec => (CpuState { carry: true, ..s }, 0),
        Instruction::Sed => (CpuState { decimal: true, ..s }, 0),
        Instruction::Sei => (CpuState { interrupt_disable: true, ..s }, 0),
        Instruction::Sta => (spec_store(s, operand, s.accumulator), 0),
        Instruction::Stx => (spec_store(s, operand, s.index_x), 0),
        Instruction::Sty => (spec_store(s, operand, s.index_y), 0),
        Instruction::Tax => (CpuState { index_x: s.accumulator, ..with_nz(s, s.accumulator) }, 0),
        Instruction::Tay => (CpuState { index_y: s.accumulator, ..with_nz(s, s.accumulator) }, 0),
        Instruction::Tsx => (
            CpuState { index_x: s.stack_pointer, ..with_nz(s, s.stack_pointer) },
            0,
        ),
        Instruction::Txa => (CpuState { accumulator: s.index_x, ..with_nz(s, s.index_x) }, 0),
        Instruction::Txs => (CpuState { stack_pointer: s.index_x, ..s }, 0),
        Instruction::Tya => (CpuState { accumulator: s.index_y, ..with_nz(s, s.index_y) }, 0),
    }
}

/// One whole step: the byte at the program counter is fetched and
/// decoded; an illegal opcode is reported with the state unchanged. For
/// an official opcode the operand is resolved, the program counter
/// advances by the instruction's length, the instruction's effect is
/// applied, and the cycles consumed are the opcode's base count plus a
/// taken branch's extra cycles plus the page-cross penalty where one
/// applies.
pub open spec fn spec_step(s: CpuState) -> (CpuState, StepOutcome) {
    let byte: u8 = s.mem[s.program_counter as int];
    match spec_decode(byte) {
        Option::None => (s, StepOutcome::IllegalOpcode { opcode: byte }),
        Option::Some(op) => {
            let resolved: (Operand, bool) = spec_resolve(op.mode, s);
            let advanced: CpuState = spec_advance(s, op.bytes as u16);
            let executed: (CpuState, u8) = spec_execute(op.instruction, resolved.0, advanced);
            let penalty: u8 = if resolved.1 && page_penalty_applies(op.instruction) {
                1
            } else {
                0
            };
            (
                executed.0,
                StepOutcome::Executed { cycles: (op.cycles + executed.1 + penalty) as u8 },
            )
        },
    }
}

} // verus!
