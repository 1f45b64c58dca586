//! Disk-space reclamation engine: entry model, job protocol, scan engine and
//! cleaner, with their behaviour stated in contracts.

pub mod app;
pub mod app_state;
pub mod clean_run;
pub mod cleaner;
pub mod cli;
pub mod config;
pub mod dir_scan;
pub mod job;
pub mod preset_scan;
pub mod report;
pub mod scanner;
pub mod selection;
pub mod session;
pub mod sorting;
pub mod sums;
pub mod text;
pub mod utils;
pub mod walk;
