//! Instruction-execution core of an SM83 (LR35902) CPU emulator: bit utilities, the register
//! file, the cycle clock, the banked memory map, operand resolution and the
//! fetch/decode/execute loop, each with its behaviour stated as a contract.
//!
//! The run loop has no success state: HALT, STOP and interrupts are not modelled, so a run ends
//! only with an error (an illegal opcode, a failed memory access, or a clock with no room left
//! for another instruction).
pub mod cpu;
pub mod emulator;
pub mod error;
pub mod mem;
pub mod rom;
