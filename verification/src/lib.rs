//! Arithmetization of the conditional SELECT instruction of a recursive
//! virtual machine: column layout, trace generation and constraint evaluation.
//!
//! `network` holds the rules by which a client asks a proving network for
//! proofs.

pub mod air;
pub mod backend;
pub mod debug;
pub mod chip;
pub mod columns;
pub mod field;
pub mod matrix;
pub mod network;
pub mod program;
pub mod sizing;
pub mod soundness;
pub mod trace;
