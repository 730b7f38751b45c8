//! Verified core of a PostgreSQL observability dashboard: lens navigation,
//! key handling, row ordering, text formatting and the clipboard / psql
//! helpers.
pub mod modes;
pub mod text;
pub mod ui;
pub mod readonly;
pub mod psql;
pub mod clipboard;
pub mod order;
pub mod snapshot;
pub mod rows;
pub mod binary64;
pub mod app;
pub mod keys;
pub mod filtering;
pub mod dashboard;
pub mod navigation;
pub mod lens_keys;
pub mod enter_esc;
pub mod topkeys;
pub mod update;
pub mod laws;
pub mod lens_laws;
pub mod startup;
