//! The discrete core of a relativistic n-body simulator, verified: the basis
//! algebra of tetraquaternions and its multiplication table, the decisions
//! of the simulation thread, and the texts and options of the window.
//!
//! The physics itself is floating-point arithmetic and lives outside this
//! library, which computes on integers, booleans and text alone.

pub mod driver;
pub mod integration;
pub mod math;
pub mod time_format;
pub mod title;
