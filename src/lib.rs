//! Proof orchestration for a Brainfuck zero-knowledge virtual machine: trace
//! claims, Fiat-Shamir transcript binding, and the phase machines that drive
//! proving and verification.

pub mod air;
pub mod components;
pub mod instruction;
pub mod transcript;
