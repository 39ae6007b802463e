//! The processor itself: the register file, the status bits, the 64 KiB
//! address space, and one verified method per instruction.
//!
//! Every method's contract states its exact effect over the `CpuState`
//! model; `Cpu::run` executes one whole fetch-decode-execute step and is
//! proved equal to `spec_step`.

use vstd::prelude::*;

use crate::addressing::Operand;
use crate::addressing::branch_target;
use crate::addressing::page_crossed;
use crate::addressing::spec_resolve;
use crate::opcode::AddressingMode;
use crate::opcode::Instruction;
use crate::opcode::decode;
use crate::opcode::page_penalty;
use crate::semantics::BREAK_VECTOR_HIGH;
use crate::semantics::BREAK_VECTOR_LOW;
use crate::semantics::StepOutcome;
use crate::semantics::branch_extra;
use crate::semantics::byte_dec;
use crate::semantics::byte_inc;
use crate::semantics::compare_flags;
use crate::semantics::operand_value;
use crate::semantics::pull_value;
use crate::semantics::spec_adc;
use crate::semantics::spec_and;
use crate::semantics::spec_asl;
use crate::semantics::spec_bit;
use crate::semantics::spec_branch;
use crate::semantics::spec_brk;
use crate::semantics::spec_dec_mem;
use crate::semantics::spec_eor;
use crate::semantics::spec_execute;
use crate::semantics::spec_inc_mem;
use crate::semantics::spec_jmp;
use crate::semantics::spec_jsr;
use crate::semantics::spec_lsr;
use crate::semantics::spec_ora;
use crate::semantics::spec_pha;
use crate::semantics::spec_php;
use crate::semantics::spec_pla;
use crate::semantics::spec_plp;
use crate::semantics::spec_push;
use crate::semantics::spec_rol;
use crate::semantics::spec_ror;
use crate::semantics::spec_rti;
use crate::semantics::spec_rts;
use crate::semantics::spec_sbc;
use crate::semantics::spec_step;
use crate::semantics::spec_store;
use crate::semantics::with_nz;
use crate::state::CpuState;
use crate::state::make_word;
use crate::state::sp_inc;
use crate::state::stack_addr;
use crate::state::status_of;
use crate::state::status_pack;
use crate::state::wf_state;
use crate::state::with_status;
use crate::state::wrap_add16;

verus! {

/// The address of the low byte of the reset vector, from which `reset`
/// loads the program counter; the high byte follows at the next address.
pub const RESET_VECTOR_LOW: u16 = 0xFFFC;

/// The address of the high byte of the reset vector.
pub const RESET_VECTOR_HIGH: u16 = 0xFFFD;

/// One MOS 6502 processor: registers, status bits, and the full 64 KiB
/// byte-addressable space it reads its instruction stream and data from.
///
/// The status register's bits live in the seven `bool` fields; the fixed
/// bit 5 is not stored and reads as set in every packed status byte. The
/// Decimal flag is stored and can be set, cleared, pushed and pulled,
/// but ADC and SBC always compute in pure binary.
pub struct Cpu {
    pub accumulator: u8,
    pub index_x: u8,
    pub index_y: u8,
    pub program_counter: u16,
    pub stack_pointer: u8,
    pub carry: bool,
    pub zero: bool,
    pub interrupt_disable: bool,
    pub decimal: bool,
    pub break_flag: bool,
    pub overflow: bool,
    pub negative: bool,
    memory: Vec<u8>,
}

impl View for Cpu {
    type V = CpuState;

    closed spec fn view(&self) -> CpuState {
        CpuState {
            accumulator: self.accumulator,
            index_x: self.index_x,
            index_y: self.index_y,
            program_counter: self.program_counter,
            stack_pointer: self.stack_pointer,
            carry: self.carry,
            zero: self.zero,
            interrupt_disable: self.interrupt_disable,
            decimal: self.decimal,
            break_flag: self.break_flag,
            overflow: self.overflow,
            negative: self.negative,
            mem: self.memory@,
        }
    }
}

/// The state a freshly constructed processor is in: registers zero,
/// stack pointer 0xFD, Interrupt-Disable set and every other stored
/// status bit clear, program counter zero, memory all zero.
pub open spec fn spec_initial() -> CpuState {
    CpuState {
        accumulator: 0,
        index_x: 0,
        index_y: 0,
        program_counter: 0,
        stack_pointer: 0xFD,
        carry: false,
        zero: false,
        interrupt_disable: true,
        decimal: false,
        break_flag: false,
        overflow: false,
        negative: false,
        mem: Seq::new(0x10000, |k: int| 0u8),
    }
}

/// 16-bit addition wrapping modulo 65,536.
fn wrapping_add_word(a: u16, b: u16) -> (r: u16)
    ensures
        r == wrap_add16(a, b),
{
    (((a as u32) + (b as u32)) % 0x10000) as u16
}

impl Cpu {
    /// A processor is well formed when its memory holds one byte for
    /// each of the 65,536 addresses. Construction establishes this and
    /// every method preserves it.
    pub open spec fn wf(&self) -> bool {
        wf_state(self@)
    }

    /// A freshly powered-up processor: accumulator and index registers
    /// zero, stack pointer 0xFD, Interrupt-Disable set, all memory
    /// zero, and the program counter at zero until `reset` or the
    /// caller supplies a start address.
    pub fn new() -> (cpu: Cpu)
        ensures
            cpu.wf(),
            cpu@ == spec_initial(),
    {
        let mut memory: Vec<u8> = Vec::new();
        let mut filled: usize = 0;
        while filled < 0x10000
            invariant
                memory@.len() == filled,
                filled <= 0x10000,
                forall|k: int| 0 <= k < filled ==> memory@[k] == 0u8,
            decreases 0x10000 - filled,
        {
            memory.push(0);
            filled = filled + 1;
        }
        let cpu = Cpu {
            accumulator: 0,
            index_x: 0,
            index_y: 0,
            program_counter: 0,
            stack_pointer: 0xFD,
            carry: false,
            zero: false,
            interrupt_disable: true,
            decimal: false,
            break_flag: false,
            overflow: false,
            negative: false,
            memory,
        };
        proof {
            assert(cpu@.mem =~= Seq::new(0x10000, |k: int| 0u8));
            assert(cpu@ =~= spec_initial());
        }
        cpu
    }

    /// A freshly powered-up processor whose program counter starts at
    /// the given address.
    pub fn new_with_program_counter(start: u16) -> (cpu: Cpu)
        ensures
            cpu.wf(),
            cpu@ == (CpuState { program_counter: start, ..spec_initial() }),
    {
        let mut cpu = Cpu::new();
        cpu.program_counter = start;
        cpu
    }

    /// Returns the register file to its power-up defaults and loads the
    /// program counter from the reset vector; memory is untouched.
    pub fn reset(&mut self)
        requires
            old(self).wf(),
        ensures
            final(self).wf(),
            final(self)@ == (CpuState {
                program_counter: make_word(
                    old(self)@.mem[RESET_VECTOR_LOW as int],
                    old(self)@.mem[RESET_VECTOR_HIGH as int],
                ),
                mem: old(self)@.mem,
                ..spec_initial()
            }),
    {
        let lo: u8 = self.mem_read(RESET_VECTOR_LOW);
        let hi: u8 = self.mem_read(RESET_VECTOR_HIGH);
        self.accumulator = 0;
        self.index_x = 0;
        self.index_y = 0;
        self.stack_pointer = 0xFD;
        self.carry = false;
        self.zero = false;
        self.interrupt_disable = true;
        self.decimal = false;
        self.break_flag = false;
        self.overflow = false;
        self.negative = false;
        self.program_counter = (lo as u16) + 0x100 * (hi as u16);
    }

    /// The byte at the given address.
    pub fn mem_read(&self, address: u16) -> (value: u8)
        requires
            self.wf(),
        ensures
            value == self@.mem[address as int],
    {
        self.memory[address as usize]
    }

    /// Writes one byte at the given address.
    pub fn mem_write(&mut self, address: u16, value: u8)
        requires
            old(self).wf(),
        ensures
            final(self).wf(),
            final(self)@ == (CpuState {
                mem: old(self)@.mem.update(address as int, value),
                ..old(self)@
            }),
    {
        self.memory.set(address as usize, value);
    }

    /// The opcode byte at the program counter.
    pub fn fetch(&self) -> (byte: u8)
        requires
            self.wf(),
        ensures
            byte == self@.mem[self@.program_counter as int],
    {
        self.mem_read(self.program_counter)
    }

    /// The packed status byte: the seven stored bits in their
    /// architectural positions, with bit 5 reading as set.
    pub fn status_byte(&self) -> (p: u8)
        ensures
            p == status_of(self@),
    {
        self.pack_status(self.break_flag)
    }

    /// The status byte with the Break bit as given; BRK pushes it
    /// forced set, PHP pushes it as stored.
    fn pack_status(&self, break_bit: bool) -> (p: u8)
        ensures
            p == status_pack(
                self@.carry,
                self@.zero,
                self@.interrupt_disable,
                self@.decimal,
                break_bit,
                self@.overflow,
                self@.negative,
            ),
    {
        (if self.carry {
            1u8
        } else {
            0u8
        }) + (if self.zero {
            2u8
        } else {
            0u8
        }) + (if self.interrupt_disable {
            4u8
        } else {
            0u8
        }) + (if self.decimal {
            8u8
        } else {
            0u8
        }) + (if break_bit {
            16u8
        } else {
            0u8
        }) + 32 + (if self.overflow {
            64u8
        } else {
            0u8
        }) + (if self.negative {
            128u8
        } else {
            0u8
        })
    }

    /// Loads all seven stored status bits from a packed status byte;
    /// bit 5 of the byte is ignored.
    fn load_status_byte(&mut self, p: u8)
        ensures
            final(self)@ == with_status(old(self)@, p),
    {
        self.carry = p % 2 == 1;
        self.zero = p / 2 % 2 == 1;
        self.interrupt_disable = p / 4 % 2 == 1;
        self.decimal = p / 8 % 2 == 1;
        self.break_flag = p / 16 % 2 == 1;
        self.overflow = p / 64 % 2 == 1;
        self.negative = p / 128 % 2 == 1;
    }

    /// Sets the Zero flag exactly when the operand is zero.
    fn update_zero_flag(&mut self, operand: u8)
        ensures
            final(self)@ == (CpuState { zero: operand == 0, ..old(self)@ }),
    {
        self.zero = operand == 0;
    }

    /// Sets the Negative flag exactly when bit 7 of the operand is set.
    fn update_negative_flag(&mut self, operand: u8)
        ensures
            final(self)@ == (CpuState { negative: operand >= 0x80, ..old(self)@ }),
    {
        self.negative = operand >= 0x80;
    }

    /// The byte the operand designates: an immediate or displacement
    /// byte itself, the byte at a resolved address, the accumulator, or
    /// zero where there is no operand.
    fn read_operand(&self, operand: Operand) -> (value: u8)
        requires
            self.wf(),
        ensures
            value == operand_value(operand, self@),
    {
        match operand {
            Operand::Implied => 0,
            Operand::Acc => self.accumulator,
            Operand::Value(immediate) => immediate,
            Operand::Location(address) => self.mem_read(address),
        }
    }

    /// Resolves the operand of the instruction at the program counter
    /// per addressing mode, reading the bytes that follow the opcode,
    /// and reports whether forming the address crossed a page boundary.
    pub fn resolve_operand(&self, mode: AddressingMode) -> (resolved: (Operand, bool))
        requires
            self.wf(),
        ensures
            resolved == spec_resolve(mode, self@),
    {
        let op1: u8 = self.mem_read(wrapping_add_word(self.program_counter, 1));
        let op2: u8 = self.mem_read(wrapping_add_word(self.program_counter, 2));
        match mode {
            AddressingMode::Implicit => (Operand::Implied, false),
            AddressingMode::Accumulator => (Operand::Acc, false),
            AddressingMode::Immediate => (Operand::Value(op1), false),
            AddressingMode::Relative => (Operand::Value(op1), false),
            AddressingMode::ZeroPage => (Operand::Location(op1 as u16), false),
            AddressingMode::ZeroPageX => (
                Operand::Location((op1 as u16 + self.index_x as u16) % 0x100),
                false,
            ),
            AddressingMode::ZeroPageY => (
                Operand::Location((op1 as u16 + self.index_y as u16) % 0x100),
                false,
            ),
            AddressingMode::Absolute => (
                Operand::Location(op1 as u16 + 0x100 * op2 as u16),
                false,
            ),
            AddressingMode::AbsoluteX => {
                let base: u16 = op1 as u16 + 0x100 * op2 as u16;
                let target: u16 = wrapping_add_word(base, self.index_x as u16);
                (Operand::Location(target), base / 0x100 != target / 0x100)
            },
            AddressingMode::AbsoluteY => {
                let base: u16 = op1 as u16 + 0x100 * op2 as u16;
                let target: u16 = wrapping_add_word(base, self.index_y as u16);
                (Operand::Location(target), base / 0x100 != target / 0x100)
            },
            AddressingMode::Indirect => {
                let pointer: u16 = op1 as u16 + 0x100 * op2 as u16;
                let high_addr: u16 = if pointer % 0x100 == 0xFF {
                    pointer - 0xFF
                } else {
                    pointer + 1
                };
                let lo: u8 = self.mem_read(pointer);
                let hi: u8 = self.mem_read(high_addr);
                (Operand::Location(lo as u16 + 0x100 * hi as u16), false)
            },
            AddressingMode::IndexedIndirect => {
                let pointer: u16 = (op1 as u16 + self.index_x as u16) % 0x100;
                let lo: u8 = self.mem_read(pointer);
                let hi: u8 = self.mem_read((pointer + 1) % 0x100);
                (Operand::Location(lo as u16 + 0x100 * hi as u16), false)
            },
            AddressingMode::IndirectIndexed => {
                let lo: u8 = self.mem_read(op1 as u16);
                let hi: u8 = self.mem_read((op1 as u16 + 1) % 0x100);
                let base: u16 = lo as u16 + 0x100 * hi as u16;
                let target: u16 = wrapping_add_word(base, self.index_y as u16);
                (Operand::Location(target), base / 0x100 != target / 0x100)
            },
        }
    }

    /// ADC: adds the operand and the carry-in to the accumulator in
    /// pure binary. Carry reflects unsigned overflow of the 8-bit sum,
    /// Overflow the signed one.
    pub fn add_with_carry(&mut self, value: u8)
        requires
            old(self).wf(),
        ensures
            final(self).wf(),
            final(self)@ == spec_adc(old(self)@, value),
    {
        let total: u16 = self.accumulator as u16 + value as u16 + (if self.carry {
            1u16
        } else {
            0u16
        });
        let result: u8 = (total % 0x100) as u8;
        let same_sign: bool = (self.accumulator >= 0x80) == (value >= 0x80);
        self.overflow = same_sign && (result >= 0x80) != (self.accumulator >= 0x80);
        self.carry = total > 0xFF;
        self.accumulator = result;
        self.update_zero_flag(result);
        self.update_negative_flag(result);
    }

    /// SBC: subtracts the operand and the borrow (the carry's
    /// complement) from the accumulator in pure binary. Carry is set
    /// exactly when no borrow occurred.
    pub fn subtract_with_carry(&mut self, value: u8)
        requires
            old(self).wf(),
        ensures
            final(self).wf(),
            final(self)@ == spec_sbc(old(self)@, value),
    {
        let total: u16 = self.accumulator as u16 + 0xFF - value as u16 + (if self.carry {
            1u16
        } else {
            0u16
        });
        let result: u8 = (total % 0x100) as u8;
        let differing_sign: bool = (self.accumulator >= 0x80) != (value >= 0x80);
        self.overflow = differing_sign && (result >= 0x80) != (self.accumulator >= 0x80);
        self.carry = total > 0xFF;
        self.accumulator = result;
        self.update_zero_flag(result);
        self.update_negative_flag(result);
    }

    /// AND: bitwise conjunction into the accumulator.
    pub fn logical_and(&mut self, value: u8)
        requires
            old(self).wf(),
        ensures
            final(self).wf(),
            final(self)@ == spec_and(old(self)@, value),
    {
        let result: u8 = self.accumulator & value;
        self.accumulator = result;
        self.update_zero_flag(result);
        self.update_negative_flag(result);
    }

    /// EOR: bitwise exclusive disjunction into the accumulator.
    pub fn exclusive_or(&mut self, value: u8)
        requires
            old(self).wf(),
        ensures
            final(self).wf(),
            final(self)@ == spec_eor(old(self)@, value),
    {
        let result: u8 = self.accumulator ^ value;
        self.accumulator = result;
        self.update_zero_flag(result);
        self.update_negative_flag(result);
    }

    /// ORA: bitwise inclusive disjunction into the accumulator.
    pub fn inclusive_or(&mut self, value: u8)
        requires
            old(self).wf(),
        ensures
            final(self).wf(),
            final(self)@ == spec_ora(old(self)@, value),
    {
        let result: u8 = self.accumulator | value;
        self.accumulator = result;
        self.update_zero_flag(result);
        self.update_negative_flag(result);
    }

    /// BIT: Zero from accumulator AND operand without storing it;
    /// Negative and Overflow straight from bits 7 and 6 of the operand.
    pub fn bit_test(&mut self, value: u8)
        requires
            old(self).wf(),
        ensures
            final(self).wf(),
            final(self)@ == spec_bit(old(self)@, value),
    {
        self.zero = self.accumulator & value == 0;
        self.negative = value >= 0x80;
        self.overflow = value / 0x40 % 2 == 1;
    }

    /// CMP: the flags of accumulator minus operand, without storing.
    pub fn compare_accumulator(&mut self, value: u8)
        requires
            old(self).wf(),
        ensures
            final(self).wf(),
            final(self)@ == compare_flags(old(self)@, old(self)@.accumulator, value),
    {
        let register: u8 = self.accumulator;
        self.compare(register, value);
    }

    /// CPX: the flags of index X minus operand, without storing.
    pub fn compare_x_register(&mut self, value: u8)
        requires
            old(self).wf(),
        ensures
            final(self).wf(),
            final(self)@ == compare_flags(old(self)@, old(self)@.index_x, value),
    {
        let register: u8 = self.index_x;
        self.compare(register, value);
    }

    /// CPY: the flags of index Y minus operand, without storing.
    pub fn compare_y_register(&mut self, value: u8)
        requires
            old(self).wf(),
        ensures
            final(self).wf(),
            final(self)@ == compare_flags(old(self)@, old(self)@.index_y, value),
    {
        let register: u8 = self.index_y;
        self.compare(register, value);
    }

    /// The shared comparison: Carry exactly when the register is at
    /// least the operand, Zero on equality, Negative from bit 7 of the
    /// wrapped difference.
    fn compare(&mut self, register: u8, value: u8)
        requires
            old(self).wf(),
        ensures
            final(self).wf(),
            final(self)@ == compare_flags(old(self)@, register, value),
    {
        let difference: u8 = ((register as u16 + 0x100 - value as u16) % 0x100) as u8;
        self.carry = register >= value;
        self.update_zero_flag(difference);
        self.update_negative_flag(difference);
    }

    /// ASL: shifts the accumulator or the memory operand left once;
    /// the bit shifted out of bit 7 goes to Carry.
    pub fn arithmetic_shift_left(&mut self, operand: Operand)
        requires
            old(self).wf(),
        ensures
            final(self).wf(),
            final(self)@ == spec_asl(old(self)@, operand),
    {
        let source: u8 = self.read_operand(operand);
        let result: u8 = ((source as u16 * 2) % 0x100) as u8;
        self.write_shift_result(operand, result, source >= 0x80);
    }

    /// LSR: shifts the accumulator or the memory operand right once;
    /// the bit shifted out of bit 0 goes to Carry.
    pub fn logical_shift_right(&mut self, operand: Operand)
        requires
            old(self).wf(),
        ensures
            final(self).wf(),
            final(self)@ == spec_lsr(old(self)@, operand),
    {
        let source: u8 = self.read_operand(operand);
        let result: u8 = source / 2;
        self.write_shift_result(operand, result, source % 2 == 1);
    }

    /// ROL: rotates left through Carry; the prior Carry enters bit 0.
    pub fn rotate_left(&mut self, operand: Operand)
        requires
            old(self).wf(),
        ensures
            final(self).wf(),
            final(self)@ == spec_rol(old(self)@, operand),
    {
        let source: u8 = self.read_operand(operand);
        let result: u8 = ((source as u16 * 2) % 0x100) as u8 + (if self.carry {
            1u8
        } else {
            0u8
        });
        self.write_shift_result(operand, result, source >= 0x80);
    }

    /// ROR: rotates right through Carry; the prior Carry enters bit 7.
    pub fn rotate_right(&mut self, operand: Operand)
        requires
            old(self).wf(),
        ensures
            final(self).wf(),
            final(self)@ == spec_ror(old(self)@, operand),
    {
        let source: u8 = self.read_operand(operand);
        let result: u8 = source / 2 + (if self.carry {
            0x80u8
        } else {
            0u8
        });
        self.write_shift_result(operand, result, source % 2 == 1);
    }

    /// Writes a shift or rotate result back to the accumulator or the
    /// memory operand and sets Carry, Zero and Negative from it.
    fn write_shift_result(&mut self, operand: Operand, result: u8, carry_out: bool)
        requires
            old(self).wf(),
        ensures
            final(self).wf(),
            final(self)@ == crate::semantics::shift_apply(old(self)@, operand, result, carry_out),
    {
        match operand {
            Operand::Acc => {
                self.accumulator = result;
                self.carry = carry_out;
                self.update_zero_flag(result);
                self.update_negative_flag(result);
            },
            Operand::Location(address) => {
                self.mem_write(address, result);
                self.carry = carry_out;
                self.update_zero_flag(result);
                self.update_negative_flag(result);
            },
            _ => {},
        }
    }

    /// INC: increments the memory operand in place, wrapping.
    pub fn increment_memory(&mut self, operand: Operand)
        requires
            old(self).wf(),
        ensures
            final(self).wf(),
            final(self)@ == spec_inc_mem(old(self)@, operand),
    {
        match operand {
            Operand::Location(address) => {
                let result: u8 = ((self.mem_read(address) as u16 + 1) % 0x100) as u8;
                self.mem_write(address, result);
                self.update_zero_flag(result);
                self.update_negative_flag(result);
            },
            _ => {},
        }
    }

    /// DEC: decrements the memory operand in place, wrapping.
    pub fn decrement_memory(&mut self, operand: Operand)
        requires
            old(self).wf(),
        ensures
            final(self).wf(),
            final(self)@ == spec_dec_mem(old(self)@, operand),
    {
        match operand {
            Operand::Location(address) => {
                let result: u8 = ((self.mem_read(address) as u16 + 0xFF) % 0x100) as u8;
                self.mem_write(address, result);
                self.update_zero_flag(result);
                self.update_negative_flag(result);
            },
            _ => {},
        }
    }

    /// INX: increments index X, wrapping.
    pub fn increment_x_register(&mut self)
        requires
            old(self).wf(),
        ensures
            final(self).wf(),
            final(self)@ == (CpuState {
                index_x: byte_inc(old(self)@.index_x),
                ..with_nz(old(self)@, byte_inc(old(self)@.index_x))
            }),
    {
        let result: u8 = ((self.index_x as u16 + 1) % 0x100) as u8;
        self.index_x = result;
        self.update_zero_flag(result);
        self.update_negative_flag(result);
    }

    /// INY: increments index Y, wrapping.
    pub fn increment_y_register(&mut self)
        requires
            old(self).wf(),
        ensures
            final(self).wf(),
            final(self)@ == (CpuState {
                index_y: byte_inc(old(self)@.index_y),
                ..with_nz(old(self)@, byte_inc(old(self)@.index_y))
            }),
    {
        let result: u8 = ((self.index_y as u16 + 1) % 0x100) as u8;
        self.index_y = result;
        self.update_zero_flag(result);
        self.update_negative_flag(result);
    }

    /// DEX: decrements index X, wrapping.
    pub fn decrement_x_register(&mut self)
        requires
            old(self).wf(),
        ensures
            final(self).wf(),
            final(self)@ == (CpuState {
                index_x: byte_dec(old(self)@.index_x),
                ..with_nz(old(self)@, byte_dec(old(self)@.index_x))
            }),
    {
        let result: u8 = ((self.index_x as u16 + 0xFF) % 0x100) as u8;
        self.index_x = result;
        self.update_zero_flag(result);
        self.update_negative_flag(result);
    }

    /// DEY: decrements index Y, wrapping.
    pub fn decrement_y_register(&mut self)
        requires
            old(self).wf(),
        ensures
            final(self).wf(),
            final(self)@ == (CpuState {
                index_y: byte_dec(old(self)@.index_y),
                ..with_nz(old(self)@, byte_dec(old(self)@.index_y))
            }),
    {
        let result: u8 = ((self.index_y as u16 + 0xFF) % 0x100) as u8;
        self.index_y = result;
        self.update_zero_flag(result);
        self.update_negative_flag(result);
    }

    /// LDA: loads the accumulator, setting Zero and Negative.
    pub fn load_accumulator(&mut self, value: u8)
        requires
            old(self).wf(),
        ensures
            final(self).wf(),
            final(self)@ == (CpuState { accumulator: value, ..with_nz(old(self)@, value) }),
    {
        self.accumulator = value;
        self.update_zero_flag(value);
        self.update_negative_flag(value);
    }

    /// LDX: loads index X, setting Zero and Negative.
    pub fn load_x_register(&mut self, value: u8)
        requires
            old(self).wf(),
        ensures
            final(self).wf(),
            final(self)@ == (CpuState { index_x: value, ..with_nz(old(self)@, value) }),
    {
        self.index_x = value;
        self.update_zero_flag(value);
        self.update_negative_flag(value);
    }

    /// LDY: loads index Y, setting Zero and Negative.
    pub fn load_y_register(&mut self, value: u8)
        requires
            old(self).wf(),
        ensures
            final(self).wf(),
            final(self)@ == (CpuState { index_y: value, ..with_nz(old(self)@, value) }),
    {
        self.index_y = value;
        self.update_zero_flag(value);
        self.update_negative_flag(value);
    }

    /// STA: stores the accumulator at the operand's address; no flags.
    pub fn store_accumulator(&mut self, operand: Operand)
        requires
            old(self).wf(),
        ensures
            final(self).wf(),
            final(self)@ == spec_store(old(self)@, operand, old(self)@.accumulator),
    {
        match operand {
            Operand::Location(address) => {
                let value: u8 = self.accumulator;
                self.mem_write(address, value);
            },
            _ => {},
        }
    }

    /// STX: stores index X at the operand's address; no flags.
    pub fn store_x_register(&mut self, operand: Operand)
        requires
            old(self).wf(),
        ensures
            final(self).wf(),
            final(self)@ == spec_store(old(self)@, operand, old(self)@.index_x),
    {
        match operand {
            Operand::Location(address) => {
                let value: u8 = self.index_x;
                self.mem_write(address, value);
            },
            _ => {},
        }
    }

    /// STY: stores index Y at the operand's address; no flags.
    pub fn store_y_register(&mut self, operand: Operand)
        requires
            old(self).wf(),
        ensures
            final(self).wf(),
            final(self)@ == spec_store(old(self)@, operand, old(self)@.index_y),
    {
        match operand {
            Operand::Location(address) => {
                let value: u8 = self.index_y;
                self.mem_write(address, value);
            },
            _ => {},
        }
    }

    /// Pushes one byte: writes it at the stack pointer's page-1 address
    /// and decrements the pointer, wrapping within the page.
    fn push_byte(&mut self, value: u8)
        requires
            old(self).wf(),
        ensures
            final(self).wf(),
            final(self)@ == spec_push(old(self)@, value),
    {
        let address: u16 = 0x100 + self.stack_pointer as u16;
        self.mem_write(address, value);
        self.stack_pointer = if self.stack_pointer == 0 {
            0xFF
        } else {
            self.stack_pointer - 1
        };
    }

    /// Pulls one byte: increments the stack pointer, wrapping within
    /// page 1, and reads the byte at its new address.
    fn pull_byte(&mut self) -> (value: u8)
        requires
            old(self).wf(),
        ensures
            final(self).wf(),
            value == pull_value(old(self)@),
            final(self)@ == (CpuState {
                stack_pointer: sp_inc(old(self)@.stack_pointer),
                ..old(self)@
            }),
    {
        self.stack_pointer = if self.stack_pointer == 0xFF {
            0
        } else {
            self.stack_pointer + 1
        };
        self.mem_read(0x100 + self.stack_pointer as u16)
    }

    /// PHA: pushes the accumulator; no flag changes.
    pub fn push_accumulator(&mut self)
        requires
            old(self).wf(),
        ensures
            final(self).wf(),
            final(self)@ == spec_pha(old(self)@),
    {
        let value: u8 = self.accumulator;
        self.push_byte(value);
    }

    /// PHP: pushes the packed status byte, Break as stored, bit 5 set.
    pub fn push_processor_status(&mut self)
        requires
            old(self).wf(),
        ensures
            final(self).wf(),
            final(self)@ == spec_php(old(self)@),
    {
        let value: u8 = self.pack_status(self.break_flag);
        self.push_byte(value);
    }

    /// PLA: pulls the accumulator, setting Zero and Negative from it.
    pub fn pull_accumulator(&mut self)
        requires
            old(self).wf(),
        ensures
            final(self).wf(),
            final(self)@ == spec_pla(old(self)@),
    {
        let value: u8 = self.pull_byte();
        self.accumulator = value;
        self.update_zero_flag(value);
        self.update_negative_flag(value);
    }

    /// PLP: pulls the whole status byte; every stored bit is loaded
    /// from it, and the fixed bit 5 is ignored.
    pub fn pull_processor_status(&mut self)
        requires
            old(self).wf(),
        ensures
            final(self).wf(),
            final(self)@ == spec_plp(old(self)@),
    {
        let value: u8 = self.pull_byte();
        self.load_status_byte(value);
    }

    /// JMP: sets the program counter to the resolved address.
    pub fn jump(&mut self, operand: Operand)
        requires
            old(self).wf(),
        ensures
            final(self).wf(),
            final(self)@ == spec_jmp(old(self)@, operand),
    {
        match operand {
            Operand::Location(target) => {
                self.program_counter = target;
            },
            _ => {},
        }
    }

    /// JSR: pushes the return address — one below the instruction that
    /// follows, per the architecture's convention — high byte first,
    /// then jumps. The program counter already stands past the JSR.
    pub fn jump_to_subroutine(&mut self, operand: Operand)
        requires
            old(self).wf(),
        ensures
            final(self).wf(),
            final(self)@ == spec_jsr(old(self)@, operand),
    {
        match operand {
            Operand::Location(target) => {
                let ret: u16 = if self.program_counter == 0 {
                    0xFFFF
                } else {
                    self.program_counter - 1
                };
                self.push_byte((ret / 0x100) as u8);
                self.push_byte((ret % 0x100) as u8);
                self.program_counter = target;
            },
            _ => {},
        }
    }

    /// RTS: pulls two bytes, low first, and sets the program counter to
    /// that address plus one.
    pub fn return_from_subroutine(&mut self)
        requires
            old(self).wf(),
        ensures
            final(self).wf(),
            final(self)@ == spec_rts(old(self)@),
    {
        let lo: u8 = self.pull_byte();
        let hi: u8 = self.pull_byte();
        let address: u16 = lo as u16 + 0x100 * hi as u16;
        self.program_counter = if address == 0xFFFF {
            0
        } else {
            address + 1
        };
    }

    /// BRK: pushes the address two past the opcode, high byte first,
    /// then the status with Break forced set; sets Interrupt-Disable
    /// and loads the program counter from the interrupt vector.
    pub fn force_interrupt(&mut self)
        requires
            old(self).wf(),
        ensures
            final(self).wf(),
            final(self)@ == spec_brk(old(self)@),
    {
        let ret: u16 = if self.program_counter == 0xFFFF {
            0
        } else {
            self.program_counter + 1
        };
        self.push_byte((ret / 0x100) as u8);
        self.push_byte((ret % 0x100) as u8);
        let status: u8 = self.pack_status(true);
        self.push_byte(status);
        self.interrupt_disable = true;
        let lo: u8 = self.mem_read(BREAK_VECTOR_LOW);
        let hi: u8 = self.mem_read(BREAK_VECTOR_HIGH);
        self.program_counter = lo as u16 + 0x100 * hi as u16;
    }

    /// RTI: pulls the status byte, then the program counter, low byte
    /// before high, adding nothing to it — unlike RTS.
    pub fn return_from_interrupt(&mut self)
        requires
            old(self).wf(),
        ensures
            final(self).wf(),
            final(self)@ == spec_rti(old(self)@),
    {
        let status: u8 = self.pull_byte();
        self.load_status_byte(status);
        let lo: u8 = self.pull_byte();
        let hi: u8 = self.pull_byte();
        self.program_counter = lo as u16 + 0x100 * hi as u16;
    }

    /// Takes a branch: moves the program counter by the signed
    /// displacement and returns the extra cycles consumed — one, or two
    /// when the target lies on another page.
    fn take_branch(&mut self, displacement: u8) -> (extra: u8)
        requires
            old(self).wf(),
        ensures
            final(self).wf(),
            final(self)@ == (CpuState {
                program_counter: branch_target(old(self)@.program_counter, displacement),
                ..old(self)@
            }),
            extra == branch_extra(
                true,
                page_crossed(
                    old(self)@.program_counter,
                    branch_target(old(self)@.program_counter, displacement),
                ),
            ),
    {
        let target: u16 = if displacement < 0x80 {
            ((self.program_counter as u32 + displacement as u32) % 0x10000) as u16
        } else {
            ((self.program_counter as u32 + displacement as u32 + 0xFF00) % 0x10000) as u16
        };
        let crossed: bool = self.program_counter / 0x100 != target / 0x100;
        self.program_counter = target;
        if crossed {
            2
        } else {
            1
        }
    }

    /// BCC: branches when Carry is clear.
    pub fn branch_if_carry_clear(&mut self, displacement: u8) -> (extra: u8)
        requires
            old(self).wf(),
        ensures
            final(self).wf(),
            final(self)@ == spec_branch(old(self)@, !old(self)@.carry, displacement).0,
            extra == spec_branch(old(self)@, !old(self)@.carry, displacement).1,
    {
        if !self.carry {
            self.take_branch(displacement)
        } else {
            0
        }
    }

    /// BCS: branches when Carry is set.
    pub fn branch_if_carry_set(&mut self, displacement: u8) -> (extra: u8)
        requires
            old(self).wf(),
        ensures
            final(self).wf(),
            final(self)@ == spec_branch(old(self)@, old(self)@.carry, displacement).0,
            extra == spec_branch(old(self)@, old(self)@.carry, displacement).1,
    {
        if self.carry {
            self.take_branch(displacement)
        } else {
            0
        }
    }

    /// BEQ: branches when Zero is set.
    pub fn branch_if_equal(&mut self, displacement: u8) -> (extra: u8)
        requires
            old(self).wf(),
        ensures
            final(self).wf(),
            final(self)@ == spec_branch(old(self)@, old(self)@.zero, displacement).0,
            extra == spec_branch(old(self)@, old(self)@.zero, displacement).1,
    {
        if self.zero {
            self.take_branch(displacement)
        } else {
            0
        }
    }

    /// BNE: branches when Zero is clear.
    pub fn branch_if_not_equal(&mut self, displacement: u8) -> (extra: u8)
        requires
            old(self).wf(),
        ensures
            final(self).wf(),
            final(self)@ == spec_branch(old(self)@, !old(self)@.zero, displacement).0,
            extra == spec_branch(old(self)@, !old(self)@.zero, displacement).1,
    {
        if !self.zero {
            self.take_branch(displacement)
        } else {
            0
        }
    }

    /// BMI: branches when Negative is set.
    pub fn branch_if_minus(&mut self, displacement: u8) -> (extra: u8)
        requires
            old(self).wf(),
        ensures
            final(self).wf(),
            final(self)@ == spec_branch(old(self)@, old(self)@.negative, displacement).0,
            extra == spec_branch(old(self)@, old(self)@.negative, displacement).1,
    {
        if self.negative {
            self.take_branch(displacement)
        } else {
            0
        }
    }

    /// BPL: branches when Negative is clear.
    pub fn branch_if_positive(&mut self, displacement: u8) -> (extra: u8)
        requires
            old(self).wf(),
        ensures
            final(self).wf(),
            final(self)@ == spec_branch(old(self)@, !old(self)@.negative, displacement).0,
            extra == spec_branch(old(self)@, !old(self)@.negative, displacement).1,
    {
        if !self.negative {
            self.take_branch(displacement)
        } else {
            0
        }
    }

    /// BVC: branches when Overflow is clear.
    pub fn branch_if_overflow_clear(&mut self, displacement: u8) -> (extra: u8)
        requires
            old(self).wf(),
        ensures
            final(self).wf(),
            final(self)@ == spec_branch(old(self)@, !old(self)@.overflow, displacement).0,
            extra == spec_branch(old(self)@, !old(self)@.overflow, displacement).1,
    {
        if !self.overflow {
            self.take_branch(displacement)
        } else {
            0
        }
    }

    /// BVS: branches when Overflow is set.
    pub fn branch_if_overflow_set(&mut self, displacement: u8) -> (extra: u8)
        requires
            old(self).wf(),
        ensures
            final(self).wf(),
            final(self)@ == spec_branch(old(self)@, old(self)@.overflow, displacement).0,
            extra == spec_branch(old(self)@, old(self)@.overflow, displacement).1,
    {
        if self.overflow {
            self.take_branch(displacement)
        } else {
            0
        }
    }

    /// CLC: clears Carry.
    pub fn clear_carry_flag(&mut self)
        ensures
            final(self)@ == (CpuState { carry: false, ..old(self)@ }),
    {
        self.carry = false;
    }

    /// CLD: clears Decimal.
    pub fn clear_decimal_mode(&mut self)
        ensures
            final(self)@ == (CpuState { decimal: false, ..old(self)@ }),
    {
        self.decimal = false;
    }

    /// CLI: clears Interrupt-Disable.
    pub fn clear_interrupt_disable(&mut self)
        ensures
            final(self)@ == (CpuState { interrupt_disable: false, ..old(self)@ }),
    {
        self.interrupt_disable = false;
    }

    /// CLV: clears Overflow.
    pub fn clear_overflow_flag(&mut self)
        ensures
            final(self)@ == (CpuState { overflow: false, ..old(self)@ }),
    {
        self.overflow = false;
    }

    /// SEC: sets Carry.
    pub fn set_carry_flag(&mut self)
        ensures
            final(self)@ == (CpuState { carry: true, ..old(self)@ }),
    {
        self.carry = true;
    }

    /// SED: sets Decimal.
    pub fn set_decimal_flag(&mut self)
        ensures
            final(self)@ == (CpuState { decimal: true, ..old(self)@ }),
    {
        self.decimal = true;
    }

    /// SEI: sets Interrupt-Disable.
    pub fn set_interrupt_disable(&mut self)
        ensures
            final(self)@ == (CpuState { interrupt_disable: true, ..old(self)@ }),
    {
        self.interrupt_disable = true;
    }

    /// TAX: copies the accumulator to index X, setting Zero and
    /// Negative.
    pub fn transfer_accumulator_to_x(&mut self)
        requires
            old(self).wf(),
        ensures
            final(self).wf(),
            final(self)@ == (CpuState {
                index_x: old(self)@.accumulator,
                ..with_nz(old(self)@, old(self)@.accumulator)
            }),
    {
        let value: u8 = self.accumulator;
        self.index_x = value;
        self.update_zero_flag(value);
        self.update_negative_flag(value);
    }

    /// TAY: copies the accumulator to index Y, setting Zero and
    /// Negative.
    pub fn transfer_accumulator_to_y(&mut self)
        requires
            old(self).wf(),
        ensures
            final(self).wf(),
            final(self)@ == (CpuState {
                index_y: old(self)@.accumulator,
                ..with_nz(old(self)@, old(self)@.accumulator)
            }),
    {
        let value: u8 = self.accumulator;
        self.index_y = value;
        self.update_zero_flag(value);
        self.update_negative_flag(value);
    }

    /// TSX: copies the stack pointer to index X, setting Zero and
    /// Negative.
    pub fn transfer_stack_pointer_to_x(&mut self)
        requires
            old(self).wf(),
        ensures
            final(self).wf(),
            final(self)@ == (CpuState {
                index_x: old(self)@.stack_pointer,
                ..with_nz(old(self)@, old(self)@.stack_pointer)
            }),
    {
        let value: u8 = self.stack_pointer;
        self.index_x = value;
        self.update_zero_flag(value);
        self.update_negative_flag(value);
    }

    /// TXA: copies index X to the accumulator, setting Zero and
    /// Negative.
    pub fn transfer_x_to_accumulator(&mut self)
        requires
            old(self).wf(),
        ensures
            final(self).wf(),
            final(self)@ == (CpuState {
                accumulator: old(self)@.index_x,
                ..with_nz(old(self)@, old(self)@.index_x)
            }),
    {
        let value: u8 = self.index_x;
        self.accumulator = value;
        self.update_zero_flag(value);
        self.update_negative_flag(value);
    }

    /// TXS: copies index X to the stack pointer; no flag changes.
    pub fn transfer_x_to_stack_pointer(&mut self)
        ensures
            final(self)@ == (CpuState { stack_pointer: old(self)@.index_x, ..old(self)@ }),
    {
        self.stack_pointer = self.index_x;
    }

    /// TYA: copies index Y to the accumulator, setting Zero and
    /// Negative.
    pub fn transfer_y_to_accumulator(&mut self)
        requires
            old(self).wf(),
        ensures
            final(self).wf(),
            final(self)@ == (CpuState {
                accumulator: old(self)@.index_y,
                ..with_nz(old(self)@, old(self)@.index_y)
            }),
    {
        let value: u8 = self.index_y;
        self.accumulator = value;
        self.update_zero_flag(value);
        self.update_negative_flag(value);
    }

    /// NOP: no state change beyond the program-counter advance the
    /// caller performs.
    pub fn no_operation(&mut self)
        ensures
            final(self)@ == old(self)@,
    {
    }

    /// Dispatches one decoded instruction to its handler, with the
    /// program counter already moved past the instruction, and returns
    /// the extra cycles a taken branch consumed.
    pub fn execute(&mut self, instruction: Instruction, operand: Operand) -> (extra: u8)
        requires
            old(self).wf(),
        ensures
            final(self).wf(),
            final(self)@ == spec_execute(instruction, operand, old(self)@).0,
            extra == spec_execute(instruction, operand, old(self)@).1,
            extra <= 2,
    {
        match instruction {
            Instruction::Adc => {
                let value: u8 = self.read_operand(operand);
                self.add_with_carry(value);
                0
            },
            Instruction::And => {
                let value: u8 = self.read_operand(operand);
                self.logical_and(value);
                0
            },
            Instruction::Asl => {
                self.arithmetic_shift_left(operand);
                0
            },
            Instruction::Bcc => {
                let value: u8 = self.read_operand(operand);
                self.branch_if_carry_clear(value)
            },
            Instruction::Bcs => {
                let value: u8 = self.read_operand(operand);
                self.branch_if_carry_set(value)
            },
            Instruction::Beq => {
                let value: u8 = self.read_operand(operand);
                self.branch_if_equal(value)
            },
            Instruction::Bit => {
                let value: u8 = self.read_operand(operand);
                self.bit_test(value);
                0
            },
            Instruction::Bmi => {
                let value: u8 = self.read_operand(operand);
                self.branch_if_minus(value)
            },
            Instruction::Bne => {
                let value: u8 = self.read_operand(operand);
                self.branch_if_not_equal(value)
            },
            Instruction::Bpl => {
                let value: u8 = self.read_operand(operand);
                self.branch_if_positive(value)
            },
            Instruction::Brk => {
                self.force_interrupt();
                0
            },
            Instruction::Bvc => {
                let value: u8 = self.read_operand(operand);
                self.branch_if_overflow_clear(value)
            },
            Instruction::Bvs => {
                let value: u8 = self.read_operand(operand);
                self.branch_if_overflow_set(value)
            },
            Instruction::Clc => {
                self.clear_carry_flag();
                0
            },
            Instruction::Cld => {
                self.clear_decimal_mode();
                0
            },
            Instruction::Cli => {
                self.clear_interrupt_disable();
                0
            },
            Instruction::Clv => {
                self.clear_overflow_flag();
                0
            },
            Instruction::Cmp => {
                let value: u8 = self.read_operand(operand);
                self.compare_accumulator(value);
                0
            },
            Instruction::Cpx => {
                let value: u8 = self.read_operand(operand);
                self.compare_x_register(value);
                0
            },
            Instruction::Cpy => {
                let value: u8 = self.read_operand(operand);
                self.compare_y_register(value);
                0
            },
            Instruction::Dec => {
                self.decrement_memory(operand);
                0
            },
            Instruction::Dex => {
                self.decrement_x_register();
                0
            },
            Instruction::Dey => {
                self.decrement_y_register();
                0
            },
            Instruction::Eor => {
                let value: u8 = self.read_operand(operand);
                self.exclusive_or(value);
                0
            },
            Instruction::Inc => {
                self.increment_memory(operand);
                0
            },
            Instruction::Inx => {
                self.increment_x_register();
                0
            },
            Instruction::Iny => {
                self.increment_y_register();
                0
            },
            Instruction::Jmp => {
                self.jump(operand);
                0
            },
            Instruction::Jsr => {
                self.jump_to_subroutine(operand);
                0
            },
            Instruction::Lda => {
                let value: u8 = self.read_operand(operand);
                self.load_accumulator(value);
                0
            },
            Instruction::Ldx => {
                let value: u8 = self.read_operand(operand);
                self.load_x_register(value);
                0
            },
            Instruction::Ldy => {
                let value: u8 = self.read_operand(operand);
                self.load_y_register(value);
                0
            },
            Instruction::Lsr => {
                self.logical_shift_right(operand);
                0
            },
            Instruction::Nop => {
                self.no_operation();
                0
            },
            Instruction::Ora => {
                let value: u8 = self.read_operand(operand);
                self.inclusive_or(value);
                0
            },
            Instruction::Pha => {
                self.push_accumulator();
                0
            },
            Instruction::Php => {
                self.push_processor_status();
                0
            },
            Instruction::Pla => {
                self.pull_accumulator();
                0
            },
            Instruction::Plp => {
                self.pull_processor_status();
                0
            },
            Instruction::Rol => {
                self.rotate_left(operand);
                0
            },
            Instruction::Ror => {
                self.rotate_right(operand);
                0
            },
            Instruction::Rti => {
                self.return_from_interrupt();
                0
            },
            Instruction::Rts => {
                self.return_from_subroutine();
                0
            },
            Instruction::Sbc => {
                let value: u8 = self.read_operand(operand);
                self.subtract_with_carry(value);
                0
            },
            Instruction::Sec => {
                self.set_carry_flag();
                0
            },
            Instruction::Sed => {
                self.set_decimal_flag();
                0
            },
            Instruction::Sei => {
                self.set_interrupt_disable();
                0
            },
            Instruction::Sta => {
                self.store_accumulator(operand);
                0
            },
            Instruction::Stx => {
                self.store_x_register(operand);
                0
            },
            Instruction::Sty => {
                self.store_y_register(operand);
                0
            },
            Instruction::Tax => {
                self.transfer_accumulator_to_x();
                0
            },
            Instruction::Tay => {
                self.transfer_accumulator_to_y();
                0
            },
            Instruction::Tsx => {
                self.transfer_stack_pointer_to_x();
                0
            },
            Instruction::Txa => {
                self.transfer_x_to_accumulator();
                0
            },
            Instruction::Txs => {
                self.transfer_x_to_stack_pointer();
                0
            },
            Instruction::Tya => {
                self.transfer_y_to_accumulator();
                0
            },
        }
    }

    /// Executes exactly one fetch-decode-execute step.
    ///
    /// The byte at the program counter is decoded; a byte with no
    /// official meaning is reported as a fault with the whole state
    /// unchanged. Otherwise the operand is resolved, the program
    /// counter advances by the instruction's length, the instruction
    /// runs — jumps, calls, returns and taken branches set the counter
    /// themselves — and the outcome reports the cycles consumed: the
    /// opcode's base count, plus a taken branch's extra cycles, plus
    /// one where an indexed read crossed a page boundary.
    pub fn run(&mut self) -> (outcome: StepOutcome)
        requires
            old(self).wf(),
        ensures
            final(self).wf(),
            final(self)@ == spec_step(old(self)@).0,
            outcome == spec_step(old(self)@).1,
    {
        let byte: u8 = self.fetch();
        match decode(byte) {
            None => StepOutcome::IllegalOpcode { opcode: byte },
            Some(op) => {
                let resolved: (Operand, bool) = self.resolve_operand(op.mode);
                self.program_counter = wrapping_add_word(self.program_counter, op.bytes as u16);
                let extra: u8 = self.execute(op.instruction, resolved.0);
                let penalty: u8 = if resolved.1 && page_penalty(op.instruction) {
                    1
                } else {
                    0
                };
                StepOutcome::Executed { cycles: op.cycles + extra + penalty }
            },
        }
    }
}

} // verus!
