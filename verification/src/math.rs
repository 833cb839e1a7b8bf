//! Algebra behind the spacetime calculations.

pub mod tetraquaternion;
