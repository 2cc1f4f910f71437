//! Core pieces of a Game Boy Advance emulator: bit-field helpers, ARM
//! condition codes, the banked ARM7TDMI register file and the memory bus.

pub mod bits;
pub mod condition;
pub mod error;
pub mod cpu;
pub mod bus;
