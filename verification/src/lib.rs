//! A CHIP-8 virtual machine: instruction decoding, the execution engine,
//! timers and the key-wait state machine, with machine-checked contracts.
//!
//! `model` holds the mathematical model: the state of the machine and the
//! effect of each instruction on it. `cpu` holds the machine itself, whose
//! every operation is proved to do what the model says. `laws` holds what
//! follows for all states. The clock and the random source are reached
//! through `sources`; the engine takes what they return as arguments
//! (`execute_at`, `cycle_at`) or reads them itself (`execute`, `cycle`).

pub mod cpu;
pub mod display;
pub mod font;
pub mod instruction;
pub mod keys;
pub mod laws;
pub mod memory;
pub mod model;
pub mod opcode;
pub mod sources;
