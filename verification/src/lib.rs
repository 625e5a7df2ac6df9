//! A cycle-accurate NES emulator core: cartridges, mappers, the 6502 CPU and the APU.

pub mod cartridge;
pub mod error;
pub mod cpu;
pub mod cpu_generator;
pub mod mapper;
pub mod apu;
pub mod ppu;
pub mod debug_events;
pub mod replay;
pub mod sample_buffer;
pub mod text;
