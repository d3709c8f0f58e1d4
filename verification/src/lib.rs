//! A Game Boy (DMG) emulator core: CPU register arithmetic, memory map,
//! cartridges, timer, pixel processing unit and audio channels, each with
//! its behaviour stated as a contract.
pub mod flags;
pub mod registers;
pub mod cpu_ops;
pub mod gameboy; pub mod lib_rs_boy;
pub mod gpu;
pub mod display;
pub mod memory;
pub mod cartridge;
pub mod timer;
pub mod controls;
pub mod libretro_core;
pub mod minifb_binary;
