//! The devices of the windowed emulator.
pub mod audio;
pub mod cartridge;
pub mod graphics;
pub mod memory;
pub mod memory_bus;
pub mod registers;
pub mod timer;
