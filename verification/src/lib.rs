pub mod addressing_modes;
pub mod bits;
pub mod bus;
pub mod cpu;
pub mod fault;
pub mod instruction_laws;
pub mod memory;
pub mod opcodes;
pub mod ppu;
pub mod rom;
pub mod snake;
pub mod trace;
