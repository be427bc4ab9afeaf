pub mod cartridge;
pub mod cpu;
pub mod gb;
pub mod memory;
