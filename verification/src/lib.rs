//! The core of a CHIP-8 interpreter: memory and registers, the instruction
//! decoder, the XOR-sprite display, the sixteen-key keypad, and the
//! dispatcher that executes one instruction at a time.

pub mod display;
pub mod emulator;
pub mod fault;
pub mod instruction;
pub mod keyboard;
pub mod laws;
pub mod machine;
pub mod ram;
pub mod timing;
