//! A software CPU: a fetch-decode-execute engine over a flat, wraparound-addressed
//! memory, a small register file, and a closed instruction set.
//!
//! The machine's behaviour is pinned down by a mathematical model: [`engine::Vm`]
//! describes a machine state, and [`engine::step_spec`] gives the exact meaning of
//! one fetch-decode-execute cycle. The executable engine in [`processor`] is proved
//! to follow that model step for step.

pub mod argument;
pub mod engine;
pub mod memory;
pub mod opcode;
pub mod processor;
pub mod register;
