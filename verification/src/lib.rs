pub mod address;
pub mod apu;
pub mod audio;
pub mod cartridge;
pub mod i_nes;
pub mod input;
pub mod mapper;
pub mod cpu;
pub mod memory;
pub mod nes;
pub mod ppu;
pub mod runner;

pub use crate::address::Address;
pub use crate::cpu::instructions;
pub use crate::cpu::{Instruction, CPU};
pub use crate::memory::{ArrayMemory, Memory};
