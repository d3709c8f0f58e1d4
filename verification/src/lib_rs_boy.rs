//! The embeddable core: a Game Boy without a window, driven by its host.
pub mod gameboy;
pub mod io;
