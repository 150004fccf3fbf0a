//! Execution core of an 8-bit CPU emulator: a register file, a flat
//! 64 KiB memory, an instruction decoder and the fetch/decode/execute step.
//!
//! Every executable function carries a contract over a mathematical model
//! of the machine, and the contracts are proved.

pub mod utils;
pub mod hardware;
