//! An interpreter for the Synacor Challenge virtual machine: a 15-bit address
//! space of memory cells, eight registers mapped right above it, an unbounded
//! value stack and a 22-opcode instruction set.
//!
//! The state of each component has a mathematical model (`View`), and every
//! operation is specified against it.

pub mod cpu;
pub mod mem;
pub mod vm;

pub use cpu::{CPUError, ExecutionResult, Machine, CPU};
pub use mem::{get_registry_from_address, Memory, MemoryError, MAX_ADDRESS, MAX_REGISTERS};
pub use vm::{binary_to_memory, RunStop, VirtualMachine, VirtualMachineError};
