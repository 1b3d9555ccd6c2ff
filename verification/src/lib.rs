//! Bank-switching cartridge chips, address-decoding buses and the VRAM
//! mirroring fabric of a game-console memory system, with verified
//! address-translation contracts.

pub mod cartridge;
pub mod common;
pub mod cpu_bus;
pub mod length_counter;
pub mod mapper;
pub mod ppu_bus;
pub mod mapper1;
pub mod mapper3;
pub mod nes;
pub mod vram;
