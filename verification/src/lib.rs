//! Verified core of the WFinfo-ng reward helper: text normalisation, item
//! matching against the item catalogue, configuration and settings handling,
//! database cache refresh decisions and the shared UI state.

pub mod text;
pub mod error;
pub mod database;
pub mod config;
pub mod settings;
pub mod cache;
pub mod main_ui;
pub mod triggers;
