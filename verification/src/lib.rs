//! Instruction-level simulator core for a 64-bit RISC-V integer machine.
//!
//! The crate models the execution engine: the decoder from raw encodings to
//! typed operations, the register file with write-pending tracking and
//! operand forwarding, the virtual-memory-area address space, the per-cycle
//! stage machine of one in-flight instruction, and the sequential and
//! pipelined drivers built on it.

pub mod error;
pub mod inst;
pub mod laws;
pub mod loader;
pub mod pipeline;
pub mod program;
pub mod regid;
pub mod register;
pub mod sequential;
pub mod step;

use vstd::prelude::*;

pub use error::SimError;
pub use inst::InstCode;
pub use loader::ELFArch;
pub use loader::Loader;
pub use inst::Stage;
pub use program::LibFunc;
pub use program::Program;
pub use program::VMA;
pub use regid::RegID;
pub use register::Register;
pub use register::RegisterFile;
pub use step::HaltCause;
pub use step::Inst;
pub use pipeline::Pipeline;
pub use sequential::SeqOutcome;
pub use sequential::SimOutput;

verus! {

/// Sentinel address whose fetch terminates the simulation.
pub const HLT_ADDR: u64 = 0xFFFFFFFFFFFFFFFEu64;

} // verus!
