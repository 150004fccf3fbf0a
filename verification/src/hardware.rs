//! The machine: its register file, its memory, its instruction set and the
//! processor that ties them together.

pub mod registers;
pub mod memory;
pub mod instructions;
pub mod cpu;
