//! The mathematical model of the processor.
//!
//! `CpuState` mirrors the register file, the individually stored status
//! bits, and the full 64 KiB address space as a sequence of bytes.
//! Contracts throughout the crate are stated over this model.

use vstd::prelude::*;

verus! {

/// The processor as contracts see it: the register file, the seven stored
/// status bits, and the 65,536-byte address space.
///
/// The status register's bit 5 is not stored: it has no meaning on the
/// processor and reads as set in every packed status byte
/// (see [`status_pack`]).
#[verifier::ext_equal]
pub ghost struct CpuState {
    pub accumulator: u8,
    pub index_x: u8,
    pub index_y: u8,
    pub program_counter: u16,
    pub stack_pointer: u8,
    pub carry: bool,
    pub zero: bool,
    pub interrupt_disable: bool,
    pub decimal: bool,
    pub break_flag: bool,
    pub overflow: bool,
    pub negative: bool,
    pub mem: Seq<u8>,
}

/// A state is well formed when its memory covers the processor's whole
/// 16-bit address space, one byte per address.
pub open spec fn wf_state(s: CpuState) -> bool {
    s.mem.len() == 0x10000
}

/// The numeric weight of one status bit.
pub open spec fn flag_bit(b: bool) -> u8 {
    if b {
        1
    } else {
        0
    }
}

/// True when bit 7 of the byte is set, i.e. the byte is negative as a
/// signed 8-bit quantity.
pub open spec fn bit7_set(v: u8) -> bool {
    v >= 0x80
}

/// True when bit 6 of the byte is set.
pub open spec fn bit6_set(v: u8) -> bool {
    v / 0x40 % 2 == 1
}

/// The status byte as pushed on the stack: Carry in bit 0, Zero in bit 1,
/// Interrupt-Disable in bit 2, Decimal in bit 3, Break in bit 4, Overflow
/// in bit 6 and Negative in bit 7. Bit 5 is always set.
pub open spec fn status_pack(
    c: bool,
    z: bool,
    i: bool,
    d: bool,
    brk: bool,
    v: bool,
    n: bool,
) -> u8 {
    (flag_bit(c) + 2 * flag_bit(z) + 4 * flag_bit(i) + 8 * flag_bit(d) + 16 * flag_bit(brk) + 32
        + 64 * flag_bit(v) + 128 * flag_bit(n)) as u8
}

/// The packed status byte of a state, with the Break bit as stored.
pub open spec fn status_of(s: CpuState) -> u8 {
    status_pack(s.carry, s.zero, s.interrupt_disable, s.decimal, s.break_flag, s.overflow, s.negative)
}

/// Carry, bit 0 of a packed status byte.
pub open spec fn status_carry(p: u8) -> bool {
    p % 2 == 1
}

/// Zero, bit 1 of a packed status byte.
pub open spec fn status_zero(p: u8) -> bool {
    p / 2 % 2 == 1
}

/// Interrupt-Disable, bit 2 of a packed status byte.
pub open spec fn status_interrupt(p: u8) -> bool {
    p / 4 % 2 == 1
}

/// Decimal, bit 3 of a packed status byte.
pub open spec fn status_decimal(p: u8) -> bool {
    p / 8 % 2 == 1
}

/// Break, bit 4 of a packed status byte.
pub open spec fn status_break(p: u8) -> bool {
    p / 16 % 2 == 1
}

/// Overflow, bit 6 of a packed status byte.
pub open spec fn status_overflow(p: u8) -> bool {
    p / 64 % 2 == 1
}

/// Negative, bit 7 of a packed status byte.
pub open spec fn status_negative(p: u8) -> bool {
    p / 128 % 2 == 1
}

/// A state with the seven stored status bits taken from a packed status
/// byte; bit 5 of the byte is ignored, as no stored bit corresponds to it.
pub open spec fn with_status(s: CpuState, p: u8) -> CpuState {
    CpuState {
        carry: status_carry(p),
        zero: status_zero(p),
        interrupt_disable: status_interrupt(p),
        decimal: status_decimal(p),
        break_flag: status_break(p),
        overflow: status_overflow(p),
        negative: status_negative(p),
        ..s
    }
}

proof fn lemma_status_bits(cb: u8, zb: u8, ib: u8, db: u8, bb: u8, vb: u8, nb: u8)
    requires
        cb <= 1,
        zb <= 1,
        ib <= 1,
        db <= 1,
        bb <= 1,
        vb <= 1,
        nb <= 1,
    ensures
        ((cb + 2 * zb + 4 * ib + 8 * db + 16 * bb + 32 + 64 * vb + 128 * nb) as u8) % 2 == cb,
        ((cb + 2 * zb + 4 * ib + 8 * db + 16 * bb + 32 + 64 * vb + 128 * nb) as u8) / 2 % 2 == zb,
        ((cb + 2 * zb + 4 * ib + 8 * db + 16 * bb + 32 + 64 * vb + 128 * nb) as u8) / 4 % 2 == ib,
        ((cb + 2 * zb + 4 * ib + 8 * db + 16 * bb + 32 + 64 * vb + 128 * nb) as u8) / 8 % 2 == db,
        ((cb + 2 * zb + 4 * ib + 8 * db + 16 * bb + 32 + 64 * vb + 128 * nb) as u8) / 16 % 2 == bb,
        ((cb + 2 * zb + 4 * ib + 8 * db + 16 * bb + 32 + 64 * vb + 128 * nb) as u8) / 64 % 2 == vb,
        ((cb + 2 * zb + 4 * ib + 8 * db + 16 * bb + 32 + 64 * vb + 128 * nb) as u8) / 128 % 2 == nb,
{
    assert(((cb + 2 * zb + 4 * ib + 8 * db + 16 * bb + 32 + 64 * vb + 128 * nb) as u8) % 2 == cb
        && ((cb + 2 * zb + 4 * ib + 8 * db + 16 * bb + 32 + 64 * vb + 128 * nb) as u8) / 2 % 2
        == zb && ((cb + 2 * zb + 4 * ib + 8 * db + 16 * bb + 32 + 64 * vb + 128 * nb) as u8) / 4
        % 2 == ib && ((cb + 2 * zb + 4 * ib + 8 * db + 16 * bb + 32 + 64 * vb + 128 * nb) as u8)
        / 8 % 2 == db && ((cb + 2 * zb + 4 * ib + 8 * db + 16 * bb + 32 + 64 * vb + 128 * nb) as u8)
        / 16 % 2 == bb && ((cb + 2 * zb + 4 * ib + 8 * db + 16 * bb + 32 + 64 * vb + 128 * nb) as u8)
        / 64 % 2 == vb && ((cb + 2 * zb + 4 * ib + 8 * db + 16 * bb + 32 + 64 * vb + 128 * nb) as u8)
        / 128 % 2 == nb) by (bit_vector)
        requires
            cb <= 1,
            zb <= 1,
            ib <= 1,
            db <= 1,
            bb <= 1,
            vb <= 1,
            nb <= 1,
    ;
}

/// Packing the seven status bits into a byte and reading them back
/// recovers every bit: the status byte loses nothing but the fixed bit 5.
pub proof fn lemma_status_round_trip(c: bool, z: bool, i: bool, d: bool, brk: bool, v: bool, n: bool)
    ensures
        status_carry(status_pack(c, z, i, d, brk, v, n)) == c,
        status_zero(status_pack(c, z, i, d, brk, v, n)) == z,
        status_interrupt(status_pack(c, z, i, d, brk, v, n)) == i,
        status_decimal(status_pack(c, z, i, d, brk, v, n)) == d,
        status_break(status_pack(c, z, i, d, brk, v, n)) == brk,
        status_overflow(status_pack(c, z, i, d, brk, v, n)) == v,
        status_negative(status_pack(c, z, i, d, brk, v, n)) == n,
{
    lemma_status_bits(
        flag_bit(c),
        flag_bit(z),
        flag_bit(i),
        flag_bit(d),
        flag_bit(brk),
        flag_bit(v),
        flag_bit(n),
    );
}

/// The 16-bit word with the given low and high bytes.
pub open spec fn make_word(lo: u8, hi: u8) -> u16 {
    (lo + 0x100 * hi) as u16
}

/// The low byte of a 16-bit word.
pub open spec fn word_lo(w: u16) -> u8 {
    (w % 0x100) as u8
}

/// The high byte of a 16-bit word.
pub open spec fn word_hi(w: u16) -> u8 {
    (w / 0x100) as u8
}

/// 16-bit addition, wrapping modulo 65,536 as all address arithmetic does.
pub open spec fn wrap_add16(a: u16, b: u16) -> u16 {
    ((a + b) % 0x10000) as u16
}

/// The address one below the given one, wrapping from 0x0000 to 0xFFFF.
pub open spec fn word_dec(w: u16) -> u16 {
    if w == 0 {
        0xFFFF
    } else {
        (w - 1) as u16
    }
}

/// The address one above the given one, wrapping from 0xFFFF to 0x0000.
pub open spec fn word_inc(w: u16) -> u16 {
    if w == 0xFFFF {
        0
    } else {
        (w + 1) as u16
    }
}

/// The stack pointer after a push: one less, wrapping within page 1.
pub open spec fn sp_dec(sp: u8) -> u8 {
    if sp == 0 {
        0xFF
    } else {
        (sp - 1) as u8
    }
}

/// The stack pointer after a pull: one more, wrapping within page 1.
pub open spec fn sp_inc(sp: u8) -> u8 {
    if sp == 0xFF {
        0
    } else {
        (sp + 1) as u8
    }
}

/// The memory address the stack pointer designates: page 1, offset `sp`.
pub open spec fn stack_addr(sp: u8) -> u16 {
    (0x100 + sp) as u16
}

/// The state after the program counter moved `count` bytes forward,
/// wrapping modulo 65,536.
pub open spec fn spec_advance(s: CpuState, count: u16) -> CpuState {
    CpuState { program_counter: wrap_add16(s.program_counter, count), ..s }
}

} // verus!
