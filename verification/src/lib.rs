//! Register programming for the Renesas 5P49V family of clock generators.
//!
//! The library computes, with proofs, the bytes that program the chip over
//! I2C and the sequence of register accesses that recalibrates its VCO.

pub mod divider;
pub mod fields;
pub mod registers;
pub mod calibration;
