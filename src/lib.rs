//! A cycle-counted emulator core for a 6809-class 8-bit processor: decoding,
//! effective-address resolution, instruction evaluation, and the interrupt and
//! wait-state controller, each stated over a mathematical model and verified.
pub mod acia;
pub mod addressing;
pub mod config;
pub mod cpu;
pub mod error;
pub mod eval;
pub mod input;
pub mod instructions;
pub mod loader;
pub mod memory;
pub mod program;
pub mod registers;
pub mod runtime;
pub mod term;

pub use crate::acia::Acia;
pub use crate::cpu::{Core, InterruptType};
pub use crate::error::{Error, ErrorKind, Fault};
pub use crate::registers::{CCBit, Cc, Registers};
