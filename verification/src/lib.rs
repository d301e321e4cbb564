//! Execution engine for a binary-translated 32-bit RISC-V many-core system.
//!
//! The crate models the host side of a dynamic binary translator: a global
//! word-addressed memory with a fixed set of memory-mapped control registers,
//! per-hart CPU state with its control/status registers, the preloading of
//! ELF sections into memory, the seeding of per-cluster scratchpads, the
//! instruction trace format, and the aggregation of exit codes and runtime
//! aborts into a final verdict.

pub mod cpu;
pub mod engine;
pub mod memory;
pub mod state;
pub mod text;
pub mod trace;
