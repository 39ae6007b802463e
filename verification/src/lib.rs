//! An interpreter for the MOS 6502 instruction set.
//!
//! The crate models the processor's externally observable behaviour
//! instruction by instruction: a total decode table over all 256 opcode
//! bytes, the thirteen addressing modes with their page-cross cycle
//! penalties, the per-instruction register/flag/memory effects, and the
//! fetch-decode-execute step that ties them together.

pub mod addressing;
pub mod cpu;
pub mod laws;
pub mod opcode;
pub mod semantics;
pub mod state;

pub use addressing::Operand;
pub use cpu::Cpu;
pub use opcode::AddressingMode;
pub use opcode::Instruction;
pub use opcode::Opcode;
pub use opcode::decode;
pub use semantics::StepOutcome;
pub use state::CpuState;
