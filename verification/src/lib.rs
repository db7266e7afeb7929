//! A keyboard-driven tab picker: an ordered list of tabs that can be browsed,
//! fuzzy-filtered one keystroke at a time, and drawn into a bounded number of
//! terminal rows.

pub mod cursor;
pub mod flat;
pub mod line;
pub mod matcher;
pub mod ranking;
pub mod state;
pub mod tab_list;
pub mod tabs;
pub mod text;
pub mod ui;
pub mod viewport;
pub mod width;
