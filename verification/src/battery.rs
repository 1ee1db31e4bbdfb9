//! The state a battery indicator shows.
use vstd::prelude::*;

verus! {

/// The state of the battery indicator.
#[derive(Debug, Clone, Copy, PartialEq, Eq, Structural)]
pub enum BatteryState {
    /// The battery is charging.
    Charging,
    /// The battery holds this percentage of its charge (0 to 100).
    Charged(u32),
    /// The battery's state is not known.
    Unknown,
}

impl Default for BatteryState {
    /// A full battery.
    fn default() -> (s: Self)
        ensures
            s == BatteryState::Charged(100),
    {
        BatteryState::Charged(100)
    }
}

/// The colour band of a battery's charge fill.
#[derive(Debug, Clone, Copy, PartialEq, Eq, Structural)]
pub enum ChargeBand {
    /// More than half charged (above 50 percent).
    High,
    /// From a fifth up to half charged (20 to 50 percent).
    Medium,
    /// Less than a fifth charged (below 20 percent).
    Low,
}

/// A battery's charge as the indicator fills it: the percentage held, at most 100.
pub open spec fn fill_percentage(percentage: u32) -> u32 {
    if percentage > 100 { 100 } else { percentage }
}

/// The colour band for a fill percentage.
pub open spec fn charge_band_of(fill: u32) -> ChargeBand {
    if fill > 50 {
        ChargeBand::High
    } else if fill >= 20 {
        ChargeBand::Medium
    } else {
        ChargeBand::Low
    }
}

/// How a charged battery is filled: the percentage it holds (at most 100) and the colour band of
/// that fill.
pub fn charge_fill(percentage: u32) -> (r: (u32, ChargeBand))
    ensures
        r.0 == fill_percentage(percentage),
        r.1 == charge_band_of(fill_percentage(percentage)),
{
    let fill = if percentage > 100 { 100 } else { percentage };
    let band = if fill > 50 {
        ChargeBand::High
    } else if fill >= 20 {
        ChargeBand::Medium
    } else {
        ChargeBand::Low
    };
    (fill, band)
}

} // verus!
