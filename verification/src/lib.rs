//! Core of a desktop system monitor: the telemetry pipeline behind the tick
//! handler. It samples plain counter values handed in by the embedding
//! application, derives per-resource aggregates, keeps age-bounded rolling
//! history series, sorts the process table, scales magnitudes into
//! human-readable units, and tracks which resource page is selected.

pub mod app;
pub mod chart;
pub mod constants;
pub mod details;
pub mod format;
pub mod history;
pub mod keyed_map;
pub mod pages;
pub mod preferences;
pub mod previews;
pub mod processes_table;
pub mod resource_data;
pub mod selection;
pub mod sidebar;
pub mod sorter;
