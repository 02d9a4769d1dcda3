//! Fixed settings of the monitor.

use vstd::prelude::*;

verus! {

/// Whether a panel of the interface is currently shown.
#[derive(Debug, Copy, Clone, PartialEq, Eq, Structural)]
pub enum DisplayState {
    Shown,
    Hidden,
}

/// How many decimals to show for percentage values.
pub const PERCENT_PRECISION: u8 = 1;

/// How many ticks a history entry is retained before eviction.
pub const HISTORY_TICKS: u64 = 30;

} // verus!
