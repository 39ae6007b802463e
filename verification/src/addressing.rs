//! Addressing-mode resolution: how each of the thirteen modes turns the
//! bytes after the opcode, together with the index registers, into the
//! instruction's operand.
//!
//! All zero-page arithmetic wraps within page 0 (modulo 256) and all
//! 16-bit address arithmetic wraps modulo 65,536. The functions that
//! report a page crossing do so exactly when the indexed address lies on
//! a different 256-byte page than the base address.

use vstd::prelude::*;

use crate::opcode::AddressingMode;
use crate::state::CpuState;
use crate::state::make_word;
use crate::state::wrap_add16;

verus! {

/// An instruction's resolved operand: none at all, the accumulator, a
/// byte taken from the instruction stream, or the effective address of a
/// memory location.
#[derive(Clone, Copy, PartialEq, Eq, Debug, Structural)]
pub enum Operand {
    /// The instruction takes no operand.
    Implied,
    /// The instruction operates on the accumulator itself.
    Acc,
    /// An immediate byte, or a branch's displacement byte.
    Value(u8),
    /// The effective address of the memory location operated on.
    Location(u16),
}

/// A zero-page address indexed by a register: the sum wraps within
/// page 0 and never carries into page 1.
pub open spec fn zero_page_indexed(base: u8, index: u8) -> u16 {
    ((base + index) % 0x100) as u16
}

/// True when the two addresses lie on different 256-byte pages.
pub open spec fn page_crossed(base: u16, target: u16) -> bool {
    base / 0x100 != target / 0x100
}

/// The address holding the high byte of a pointer read by the
/// `Indirect` mode. When the pointer's low byte is 0xFF the processor
/// wraps within the pointer's page instead of carrying into the next
/// one; this reproduces the original hardware's behaviour.
pub open spec fn indirect_high_addr(ptr: u16) -> u16 {
    if ptr % 0x100 == 0xFF {
        (ptr - 0xFF) as u16
    } else {
        (ptr + 1) as u16
    }
}

/// The branch target: the displacement byte, read as a signed 8-bit
/// quantity, added to the program counter already moved past the branch
/// instruction, wrapping modulo 65,536.
pub open spec fn branch_target(pc: u16, displacement: u8) -> u16 {
    if displacement < 0x80 {
        ((pc + displacement) % 0x10000) as u16
    } else {
        ((pc + displacement + 0xFF00) % 0x10000) as u16
    }
}

/// The operand of one instruction, resolved per addressing mode with the
/// program counter still at the opcode byte, and whether forming it
/// crossed a page boundary.
pub open spec fn spec_resolve(mode: AddressingMode, s: CpuState) -> (Operand, bool) {
    let op1 = s.mem[wrap_add16(s.program_counter, 1) as int];
    let op2 = s.mem[wrap_add16(s.program_counter, 2) as int];
    match mode {
        AddressingMode::Implicit => (Operand::Implied, false),
        AddressingMode::Accumulator => (Operand::Acc, false),
        AddressingMode::Immediate => (Operand::Value(op1), false),
        AddressingMode::Relative => (Operand::Value(op1), false),
        AddressingMode::ZeroPage => (Operand::Location(op1 as u16), false),
        AddressingMode::ZeroPageX => (Operand::Location(zero_page_indexed(op1, s.index_x)), false),
        AddressingMode::ZeroPageY => (Operand::Location(zero_page_indexed(op1, s.index_y)), false),
        AddressingMode::Absolute => (Operand::Location(make_word(op1, op2)), false),
        AddressingMode::AbsoluteX => {
            let base = make_word(op1, op2);
            let target = wrap_add16(base, s.index_x as u16);
            (Operand::Location(target), page_crossed(base, target))
        },
        AddressingMode::AbsoluteY => {
            let base = make_word(op1, op2);
            let target = wrap_add16(base, s.index_y as u16);
            (Operand::Location(target), page_crossed(base, target))
        },
        AddressingMode::Indirect => {
            let ptr = make_word(op1, op2);
            let lo = s.mem[ptr as int];
            let hi = s.mem[indirect_high_addr(ptr) as int];
            (Operand::Location(make_word(lo, hi)), false)
        },
        AddressingMode::IndexedIndirect => {
            let ptr = zero_page_indexed(op1, s.index_x);
            let lo = s.mem[ptr as int];
            let hi = s.mem[((ptr + 1) % 0x100) as int];
            (Operand::Location(make_word(lo, hi)), false)
        },
        AddressingMode::IndirectIndexed => {
            let lo = s.mem[op1 as int];
            let hi = s.mem[((op1 + 1) % 0x100) as int];
            let base = make_word(lo, hi);
            let target = wrap_add16(base, s.index_y as u16);
            (Operand::Location(target), page_crossed(base, target))
        },
    }
}

} // verus!
