//! Signal conventions of the SPI mode, and how the adapter wants them told.

use vstd::prelude::*;

verus! {

/// The level at which the chip-select line selects the peripheral.
#[derive(Debug, Clone, Copy, PartialEq, Eq, Structural)]
pub enum ChipSelectPolarity {
    ActiveLow,
    ActiveHigh,
}

impl ChipSelectPolarity {
    /// The adapter is told the line's idle level, not its active level: an
    /// active-low line idles high.
    pub fn for_bpio(self) -> (idle_high: bool)
        ensures
            idle_high <==> self == ChipSelectPolarity::ActiveLow,
    {
        match self {
            ChipSelectPolarity::ActiveLow => true,
            ChipSelectPolarity::ActiveHigh => false,
        }
    }
}

/// The level at which the clock line is active.
#[derive(Debug, Clone, Copy, PartialEq, Eq, Structural)]
pub enum ClockPolarity {
    ActiveLow,
    ActiveHigh,
}

impl ClockPolarity {
    /// The adapter is told the line's idle level, not its active level: an
    /// active-low clock idles high.
    pub fn for_bpio(self) -> (idle_high: bool)
        ensures
            idle_high <==> self == ClockPolarity::ActiveLow,
    {
        match self {
            ClockPolarity::ActiveLow => true,
            ClockPolarity::ActiveHigh => false,
        }
    }
}

/// The clock edge on which data is sampled.
#[derive(Debug, Clone, Copy, PartialEq, Eq, Structural)]
pub enum ClockPhase {
    LeadingEdge,
    TrailingEdge,
}

impl ClockPhase {
    /// The adapter takes `false` for the leading edge and `true` for the
    /// trailing edge; whether an edge rises or falls depends on the polarity.
    pub fn for_bpio(self) -> (trailing: bool)
        ensures
            trailing <==> self == ClockPhase::TrailingEdge,
    {
        match self {
            ClockPhase::LeadingEdge => false,
            ClockPhase::TrailingEdge => true,
        }
    }
}

} // verus!
