//! The I/O map is kept twice: as raw bytes, and as parsed structs whose
//! fields hold the values the core consults. Reads go to the raw bytes; every
//! write to a register window refreshes the parsed struct it belongs to.
//! Each register group (graphics, DMA, interrupts) has its own struct here.

pub mod addrs;
pub mod dma;
pub mod graphics;
pub mod interrupt;
