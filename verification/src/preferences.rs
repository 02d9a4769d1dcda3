//! User preferences read by the formatter, the history store and the page
//! constructors.

use crate::constants::{DisplayState, HISTORY_TICKS, PERCENT_PRECISION};
use vstd::prelude::*;

verus! {

/// Whether byte magnitudes scale by 1000 or by 1024 per unit step.
#[derive(Debug, Copy, Clone, PartialEq, Eq, Structural)]
pub enum ByteBase {
    Decimal,
    Binary,
}

/// Settings that stay fixed for the lifetime of a page.
#[derive(Debug, Copy, Clone)]
pub struct Preferences {
    pub display_state: DisplayState,
    /// Decimal places shown for percentage values.
    pub percent_precision: u8,
    /// Age bound, in ticks, for history series retention.
    pub history_ticks: u64,
    pub chart_y_axis_labels: bool,
    pub chart_y_axis_major_grid_lines: usize,
    pub show_logical_core_charts: bool,
    pub byte_base: ByteBase,
}

pub enum PreferencesMessage {
    DisplayState(DisplayState),
}

impl Default for Preferences {
    fn default() -> (r: Self)
        ensures
            r.percent_precision == 1,
            r.history_ticks == 30,
            r.display_state == DisplayState::Shown,
            r.chart_y_axis_labels == false,
            r.chart_y_axis_major_grid_lines == 6,
            r.show_logical_core_charts == false,
            r.byte_base == ByteBase::Binary,
    {
        Self {
            percent_precision: PERCENT_PRECISION,
            history_ticks: HISTORY_TICKS,
            display_state: DisplayState::Shown,
            chart_y_axis_labels: false,
            chart_y_axis_major_grid_lines: 6,
            show_logical_core_charts: false,
            byte_base: ByteBase::Binary,
        }
    }
}

impl Preferences {
    pub fn new() -> (r: Self)
        ensures
            r.percent_precision == 1,
            r.history_ticks == 30,
            r.display_state == DisplayState::Shown,
            r.chart_y_axis_labels == false,
            r.chart_y_axis_major_grid_lines == 6,
            r.show_logical_core_charts == false,
            r.byte_base == ByteBase::Binary,
    {
        Self::default()
    }

    pub fn update(&mut self, message: PreferencesMessage)
        ensures
            match message {
                PreferencesMessage::DisplayState(display_state) => *final(self)
                    == (Preferences { display_state, ..*old(self) }),
            },
    {
        match message {
            PreferencesMessage::DisplayState(display_state) => {
                self.display_state = display_state;
            }
        }
    }
}

} // verus!
