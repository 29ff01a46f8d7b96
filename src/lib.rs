//! View state of a live Wi-Fi scan dashboard: a sortable table of basic
//! service sets, the table of information elements of the selected one, and
//! the decisions of the loop that feeds them scans and key presses.

pub mod app;
pub mod driver;
pub mod scan;
pub mod widgets;
