//! A small CHIP-8 style virtual CPU with machine-checked contracts.
//!
//! The engine owns sixteen byte registers, 4096 bytes of memory and a call
//! stack of sixteen return addresses. [`cpu::CPU`] is the executable machine;
//! [`model::CpuModel`] is its mathematical image, and every contract of the
//! machine is stated over that image. [`progress`] shows that every run ends
//! and says what a whole run computes; [`laws`] holds what follows for all
//! programs.
//!
//! Beside the engine stand [`loader`], which reads the bytes to load from
//! hexadecimal text, and [`float`], which takes the bit pattern of a 32-bit
//! float apart.

pub mod error;
pub mod opcode;
pub mod model;
pub mod progress;
pub mod cpu;
pub mod laws;
pub mod loader;
pub mod float;
