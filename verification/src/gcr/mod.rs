//! # Global Control Registers (GCR)
//! Clock sources, oscillator states and the system clock configuration.

pub mod clocks;
