//! The sound channels of the embeddable core.
pub mod channel2;
pub mod channel3;
pub mod channel4;
pub mod pulse_wave;
pub mod register_bits;
pub mod target;
