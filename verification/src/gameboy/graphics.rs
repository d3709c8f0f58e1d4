//! The pixel processing unit of the windowed emulator.
pub mod tile;

pub use tile::Tile;
