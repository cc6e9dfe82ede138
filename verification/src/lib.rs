//! Execution core of an 8-bit 6502-family processor.
//!
//! The crate models the registers, the status flags and a 64 KiB memory bus,
//! and executes the documented instruction set one instruction at a time.
//! Every executable function is verified against a mathematical model of the
//! machine: [`state::State`] describes what the processor holds, and the spec
//! functions on it say what each instruction does.
pub mod addressing;
pub mod alu;
pub mod bus;
pub mod cpu;
pub mod error;
pub mod instructions;
pub mod laws;
pub mod opcode;
pub mod state;
pub mod status;

pub use addressing::{AddressingMode, Operand};
pub use bus::Bus;
pub use cpu::CPU;
pub use error::CpuError;
pub use opcode::{OpcodeEntry, Operation};
pub use status::Flag;
