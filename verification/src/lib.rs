//! Extraction of browsing-history records from the native history databases
//! of several browser families (Chromium-derived and Firefox), normalized
//! into one record shape within a caller-supplied time window.

pub mod browser;
pub mod config;
pub mod database;
pub mod error;
pub mod history;
pub mod timestamp;
