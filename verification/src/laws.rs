//! Laws the instruction semantics obey, stated over the model and
//! proved once for all states: the compare family's Carry rule, the
//! stack round trips, call and return, branch timing, and the interrupt
//! round trip.

use vstd::prelude::*;

use crate::addressing::Operand;
use crate::addressing::branch_target;
use crate::addressing::page_crossed;
use crate::addressing::spec_resolve;
use crate::opcode::Instruction;
use crate::opcode::spec_decode;
use crate::semantics::StepOutcome;
use crate::semantics::compare_flags;
use crate::semantics::spec_branch;
use crate::semantics::spec_brk;
use crate::semantics::spec_jsr;
use crate::semantics::spec_pha;
use crate::semantics::spec_php;
use crate::semantics::spec_pla;
use crate::semantics::spec_plp;
use crate::semantics::spec_push;
use crate::semantics::spec_rti;
use crate::semantics::spec_rts;
use crate::semantics::spec_sbc;
use crate::semantics::spec_step;
use crate::state::CpuState;
use crate::state::flag_bit;
use crate::state::lemma_status_round_trip;
use crate::state::make_word;
use crate::state::sp_dec;
use crate::state::sp_inc;
use crate::state::spec_advance;
use crate::state::stack_addr;
use crate::semantics::spec_execute;
use crate::state::wf_state;
use crate::state::word_dec;
use crate::state::word_hi;
use crate::state::word_inc;
use crate::state::word_lo;
use crate::state::wrap_add16;

verus! {

/// Splitting a 16-bit word into its bytes and joining them again gives
/// the word back.
pub proof fn lemma_word_round_trip(w: u16)
    ensures
        make_word(word_lo(w), word_hi(w)) == w,
{
    assert((((w % 0x100) as u8) + 0x100 * ((w / 0x100) as u8)) as u16 == w) by (bit_vector);
}

/// For every register and operand value, a compare — CMP, CPX or CPY
/// alike — sets Carry exactly when the register is at least the
/// operand, unsigned, and Zero exactly when the two are equal.
pub proof fn lemma_compare_carry(s: CpuState, register: u8, value: u8)
    ensures
        compare_flags(s, register, value).carry == (register >= value),
        compare_flags(s, register, value).zero == (register == value),
{
}

/// For every accumulator and operand value, SBC sets Carry exactly when
/// no borrow occurred: when the accumulator plus the carry-in exceeds
/// the operand. With the carry-in set — the convention before a
/// subtraction — that is exactly accumulator ≥ operand, unsigned.
pub proof fn lemma_sbc_carry(s: CpuState, value: u8)
    ensures
        spec_sbc(s, value).carry == (s.accumulator + flag_bit(s.carry) > value),
        s.carry ==> spec_sbc(s, value).carry == (s.accumulator >= value),
{
}

/// PHA followed at once by PLA restores the accumulator and leaves the
/// stack pointer where it was; only the pushed byte below the stack top
/// and the Zero and Negative flags bear traces of the round trip.
pub proof fn lemma_pha_pla_round_trip(s: CpuState)
    requires
        wf_state(s),
    ensures
        spec_pla(spec_pha(s)).accumulator == s.accumulator,
        spec_pla(spec_pha(s)).stack_pointer == s.stack_pointer,
        spec_pla(spec_pha(s)).program_counter == s.program_counter,
        spec_pla(spec_pha(s)) == (CpuState {
            mem: spec_pha(s).mem,
            zero: s.accumulator == 0,
            negative: s.accumulator >= 0x80,
            ..s
        }),
{
    assert(sp_inc(sp_dec(s.stack_pointer)) == s.stack_pointer);
}

/// PHP followed at once by PLP restores every stored status bit and the
/// stack pointer. Nothing is lost to the packed byte's fixed bit 5,
/// which corresponds to no stored bit.
pub proof fn lemma_php_plp_round_trip(s: CpuState)
    requires
        wf_state(s),
    ensures
        spec_plp(spec_php(s)) == (CpuState { mem: spec_php(s).mem, ..s }),
{
    lemma_status_round_trip(
        s.carry,
        s.zero,
        s.interrupt_disable,
        s.decimal,
        s.break_flag,
        s.overflow,
        s.negative,
    );
    assert(sp_inc(sp_dec(s.stack_pointer)) == s.stack_pointer);
}

/// JSR followed by RTS returns the program counter to exactly the
/// instruction after the JSR — the call pushed that address minus one,
/// and the return adds the one back — and restores the stack pointer.
/// `s` is the state fetched at the JSR opcode, so the call executes
/// with the counter moved past the three-byte instruction, and the
/// return with it moved past the one-byte RTS.
pub proof fn lemma_jsr_rts_round_trip(s: CpuState, target: u16)
    requires
        wf_state(s),
    ensures
        ({
            let called = spec_jsr(spec_advance(s, 3), Operand::Location(target));
            let returned = spec_rts(spec_advance(called, 1));
            returned.program_counter == wrap_add16(s.program_counter, 3)
                && returned.stack_pointer == s.stack_pointer
                && called.program_counter == target
        }),
{
    let pc_after: u16 = wrap_add16(s.program_counter, 3);
    let ret: u16 = word_dec(pc_after);
    assert(sp_inc(sp_dec(sp_dec(s.stack_pointer))) == sp_dec(s.stack_pointer));
    assert(sp_inc(sp_dec(s.stack_pointer)) == s.stack_pointer);
    assert(stack_addr(sp_dec(s.stack_pointer)) != stack_addr(s.stack_pointer));
    lemma_word_round_trip(ret);
    assert(word_inc(ret) == pc_after);
}

/// A taken branch whose target lies on another page than the
/// instruction's end consumes one cycle more than a taken branch that
/// stays on the page, and two more than an untaken branch, whose extra
/// count is zero.
pub proof fn lemma_branch_cycles(s: CpuState, displacement: u8)
    ensures
        spec_branch(s, false, displacement).1 == 0,
        page_crossed(s.program_counter, branch_target(s.program_counter, displacement))
            ==> spec_branch(s, true, displacement).1 == 2,
        !page_crossed(s.program_counter, branch_target(s.program_counter, displacement))
            ==> spec_branch(s, true, displacement).1 == 1,
{
}

/// BRK pushes the address two past its opcode and the status with the
/// Break bit forced set; RTI exactly reverses it: the program counter
/// resumes at that address, the stack pointer and every stored status
/// bit other than Break come back — Interrupt-Disable too, since BRK
/// sets it only after pushing — and Break reads as set, as pushed.
/// `s` is the state fetched at the BRK opcode; the interrupt handler is
/// assumed to reach its RTI with the stack pointer unmoved.
pub proof fn lemma_brk_rti_round_trip(s: CpuState)
    requires
        wf_state(s),
    ensures
        ({
            let interrupted = spec_brk(spec_advance(s, 1));
            let returned = spec_rti(spec_advance(interrupted, 1));
            returned.program_counter == wrap_add16(s.program_counter, 2)
                && returned.stack_pointer == s.stack_pointer
                && returned.accumulator == s.accumulator
                && returned.carry == s.carry
                && returned.zero == s.zero
                && returned.interrupt_disable == s.interrupt_disable
                && returned.decimal == s.decimal
                && returned.break_flag
                && returned.overflow == s.overflow
                && returned.negative == s.negative
        }),
{
    let pc1: u16 = wrap_add16(s.program_counter, 1);
    let ret: u16 = word_inc(pc1);
    let d1: u8 = sp_dec(s.stack_pointer);
    let d2: u8 = sp_dec(d1);
    assert(sp_inc(sp_dec(d2)) == d2);
    assert(sp_inc(d2) == d1);
    assert(sp_inc(d1) == s.stack_pointer);
    assert(stack_addr(d2) != stack_addr(d1));
    assert(stack_addr(d2) != stack_addr(s.stack_pointer));
    assert(stack_addr(d1) != stack_addr(s.stack_pointer));
    lemma_status_round_trip(
        s.carry,
        s.zero,
        s.interrupt_disable,
        s.decimal,
        true,
        s.overflow,
        s.negative,
    );
    lemma_word_round_trip(ret);
    assert(word_inc(pc1) == wrap_add16(s.program_counter, 2));
}

/// A byte with no official meaning never advances the machine: a step
/// fetched at such a byte reports the fault and leaves every register,
/// flag and memory byte exactly as it found them.
pub proof fn lemma_illegal_opcode_preserves_state(s: CpuState)
    requires
        wf_state(s),
        spec_decode(s.mem[s.program_counter as int]) is None,
    ensures
        spec_step(s).0 == s,
        spec_step(s).1 == (StepOutcome::IllegalOpcode {
            opcode: s.mem[s.program_counter as int],
        }),
{
}

/// A push writes exactly one byte, at the stack pointer's address
/// inside page 1, and moves the pointer down within that page: however
/// far the pointer wraps, the stack never spills into adjacent memory.
pub proof fn lemma_push_confined_to_page_one(s: CpuState, value: u8)
    requires
        wf_state(s),
    ensures
        0x0100 <= stack_addr(s.stack_pointer) <= 0x01FF,
        0x0100 <= stack_addr(spec_push(s, value).stack_pointer) <= 0x01FF,
        spec_push(s, value).mem[stack_addr(s.stack_pointer) as int] == value,
        forall|a: int|
            0 <= a < s.mem.len() && a != stack_addr(s.stack_pointer)
                ==> spec_push(s, value).mem[a] == s.mem[a],
        spec_push(s, value).stack_pointer == sp_dec(s.stack_pointer),
{
}

/// One instruction never grows or shrinks memory: executing any
/// instruction on a well-formed state leaves a well-formed state, so
/// the machine can step forever without its address space decaying.
#[verifier::rlimit(60)]
pub proof fn lemma_execute_preserves_wf(instruction: Instruction, operand: Operand, s: CpuState)
    requires
        wf_state(s),
    ensures
        wf_state(spec_execute(instruction, operand, s).0),
{
}

/// One whole step — legal or illegal opcode alike — preserves
/// well-formedness.
pub proof fn lemma_step_preserves_wf(s: CpuState)
    requires
        wf_state(s),
    ensures
        wf_state(spec_step(s).0),
{
    let byte: u8 = s.mem[s.program_counter as int];
    match spec_decode(byte) {
        Option::None => {},
        Option::Some(op) => {
            let resolved = spec_resolve(op.mode, s);
            lemma_execute_preserves_wf(op.instruction, resolved.0, spec_advance(s, op.bytes as u16));
        },
    }
}

} // verus!
