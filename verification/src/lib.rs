//! # Hardware Abstraction Layer logic for MAX7800x microcontrollers
//!
//! The register arithmetic, descriptors, checks and state machines of the
//! HAL. Memory-mapped register access lives with the caller, which hands the
//! values it reads to these functions and writes back what they return.

use vstd::prelude::*;

pub mod cnn;
pub mod flc;
pub mod gcr;
pub mod gpio;

verus! {

/// Marker for types whose trait implementations are closed to other crates.
pub trait Sealed {}

} // verus!
