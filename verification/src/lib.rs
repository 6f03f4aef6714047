//! A software model of a single machine-mode RISC-V hart (RV32I base set plus
//! the M and A extensions) attached to a flat physical address space that
//! multiplexes RAM and a memory-mapped CLINT-style timer device.
//!
//! The crate is organised leaf-first:
//! - [`utils`] holds the byte-lane merge helpers shared by the timer registers;
//! - [`timer`] is the free-running counter / comparator / pending-bit device;
//! - [`bus`] routes byte, half-word and word accesses to RAM or the timer;
//! - [`cpu`] owns the bus and runs the fetch-decode-execute cycle;
//! - [`err`] is the closed set of failures the core can surface;
//! - [`laws`] states and proves the system-wide properties.
//!
//! Every component carries a ghost model (`ClintModel`, `BusModel`,
//! `CpuModel`) and every public operation is specified as a pure transition
//! on that model, so a caller can reason about whole programs by composing
//! the transitions.

pub mod bus;
pub mod cpu;
pub mod err;
pub mod laws;
pub mod timer;
pub mod utils;
