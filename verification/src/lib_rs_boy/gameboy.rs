//! The devices of the embeddable core.
pub mod audio;
pub mod cartridge;
pub mod controls;
pub mod graphics;
pub mod interrupts;
