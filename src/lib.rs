//! A small virtual processor: 16 eight-bit registers, 4 KiB of memory, a
//! bounded call stack and a delay timer, driven one instruction at a time.

pub mod cpu;
pub mod devices;
pub mod instruction;
pub mod keypad;
pub mod laws;
