//! Core of a Game Boy Advance emulator: the ARM7TDMI interpreter, the memory
//! bus with its parsed I/O register views, the DMA engine and the interrupt
//! controller.

pub mod cpu;
pub mod mem;
pub mod util;
