//! The console.

pub mod riscv;
