//! What the host gives the core and takes from it: key presses and frames.
pub mod game_engine;
pub mod keys;
