//! Page-local chart state: a copy of one history series together with the
//! axis options the chart was constructed with.

use crate::history::TimeSeries;
use crate::preferences::Preferences;
use vstd::prelude::*;

verus! {

/// A message a chart widget may emit; charts of this monitor emit none.
#[derive(Debug, Clone, Copy, PartialEq, Eq, Structural)]
pub struct ResourceChartMessage {}

/// The data and axis options of one chart.
#[derive(Debug)]
pub struct ResourceChart {
    pub data_points: TimeSeries,
    pub chart_y_axis_labels: bool,
    pub chart_y_axis_major_grid_lines: usize,
}

impl ResourceChart {
    /// A fresh chart with no data, seeded with the chart options of the
    /// preferences.
    pub fn new(preferences: &Preferences) -> (r: Self)
        ensures
            r.data_points.points@.len() == 0,
            r.chart_y_axis_labels == preferences.chart_y_axis_labels,
            r.chart_y_axis_major_grid_lines == preferences.chart_y_axis_major_grid_lines,
    {
        ResourceChart {
            data_points: TimeSeries::new(),
            chart_y_axis_labels: preferences.chart_y_axis_labels,
            chart_y_axis_major_grid_lines: preferences.chart_y_axis_major_grid_lines,
        }
    }

    /// Mirrors one history series into the chart; the store itself stays
    /// untouched.
    pub fn set_data(&mut self, series: &TimeSeries)
        ensures
            final(self).data_points.points@ == series.points@,
            final(self).chart_y_axis_labels == old(self).chart_y_axis_labels,
            final(self).chart_y_axis_major_grid_lines == old(self).chart_y_axis_major_grid_lines,
    {
        self.data_points = series.duplicate();
    }

    /// Empties the chart.
    pub fn clear_data(&mut self)
        ensures
            final(self).data_points.points@.len() == 0,
            final(self).chart_y_axis_labels == old(self).chart_y_axis_labels,
            final(self).chart_y_axis_major_grid_lines == old(self).chart_y_axis_major_grid_lines,
    {
        self.data_points = TimeSeries::new();
    }
}

} // verus!
