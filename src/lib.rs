//! A small register machine for fantasy-console programs: an 8-bit
//! instruction set, a 64-cell register file, a data stack, a call discipline
//! built from a return slot and an auxiliary stack, and an RGBA frame buffer.
pub mod controller;
pub mod display;
pub mod instruction;
pub mod vm;
