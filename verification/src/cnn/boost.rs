//! Boost circuit for the accelerator supply
//!
//! A GPIO drives an external load switch; which pin is a board decision.

use vstd::prelude::*;

verus! {

/// Which level turns the load switch on
#[derive(Clone, Copy, PartialEq, Eq, Debug, Default, Structural)]
pub enum BoostPolarity {
    #[default]
    ActiveHigh,
    ActiveLow,
}

impl BoostPolarity {
    /// Whether the pin is driven high to put the switch in state `on`.
    pub fn drives_high(self, on: bool) -> (high: bool)
        ensures
            high == (on == (self == BoostPolarity::ActiveHigh)),
    {
        on == matches!(self, BoostPolarity::ActiveHigh)
    }
}

} // verus!
