//! A single-hart 64-bit instruction-set simulator for the base integer
//! instruction set: a register file, a flat little-endian memory image, a
//! pure decoder, and a fetch-decode-execute engine whose per-step transition
//! is specified as a mathematical state machine.

use vstd::prelude::*;

pub mod decode;
pub mod engine;
pub mod memory;
pub mod registers;

pub use decode::DecodedInstruction;
pub use engine::Cpu;

verus! {

/// The reference memory size: 128 MiB of simulated DRAM.
pub const DRAM_SIZE: u64 = 1024 * 1024 * 128;

/// Errors surfaced by construction, memory access and decoding.
#[derive(Clone, Copy, Debug, PartialEq, Eq, Structural)]
pub enum CpuError {
    /// An address range exceeds the memory capacity.
    OutOfBounds,
    /// A 32-bit word is not a recognized instruction encoding.
    IllegalInstruction,
    /// The program image does not fit into the configured memory.
    ImageTooLarge,
}

/// Why the engine halted voluntarily.
#[derive(Clone, Copy, Debug, PartialEq, Eq, Structural)]
pub enum HaltReason {
    /// An environment call (or breakpoint) was executed.
    SystemCall,
}

/// Why the engine entered a terminal fault state.
#[derive(Clone, Copy, Debug, PartialEq, Eq, Structural)]
pub enum FaultCause {
    /// The program counter pointed outside the memory image at fetch time.
    InstructionFetchFault,
    /// The fetched word is not a recognized instruction encoding.
    IllegalInstruction,
    /// A load's effective address range exceeds the memory capacity.
    LoadAccessFault,
    /// A store's effective address range exceeds the memory capacity.
    StoreAccessFault,
}

/// The engine's lifecycle state. `Halted` and `Faulted` are terminal.
#[derive(Clone, Copy, Debug, PartialEq, Eq, Structural)]
pub enum EngineState {
    Running,
    Halted(HaltReason),
    Faulted(FaultCause),
}

/// What a single call to `Cpu::step` reports.
#[derive(Clone, Copy, Debug, PartialEq, Eq, Structural)]
pub enum StepOutcome {
    /// The instruction completed and the engine can take another step.
    Continued,
    Halted(HaltReason),
    Faulted(FaultCause),
}

} // verus!
