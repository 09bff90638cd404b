//! Wik-8: a small fetch-decode-execute engine over a fixed register file and a
//! segmented, permission-gated word store.
//!
//! The word store is split into contiguous regions, each with fixed read/write
//! capability; the engine consults the region table uniformly for every
//! stack-relative access. Seven named registers are reachable indirectly
//! through small integer codes, gated by a constant permission table. Every
//! execution step returns a structured outcome instead of aborting; only an
//! unrecognized opcode is treated as a fatal defect of the loaded program and
//! is ruled out by the step function's precondition.

pub mod laws;
pub mod loader;
pub mod machine;
pub mod semantics;
pub mod store;
