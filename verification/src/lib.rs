//! A MOS 6502 interpreter as it sits inside the NES, with the bus, memory and
//! cartridge fabric that it needs to run.

pub mod bus;
pub mod cartridge;
pub mod cpu;
pub mod errors;
pub mod instructions;
pub mod memory;
pub mod ppu;
pub mod ram;
pub mod status;
