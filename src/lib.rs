//! Decision core of a live dashboard for one deployed workload: log parsing
//! and classification, environment-variable text, access rights, database
//! linkage, polling timers and the state of each form.

pub mod text;
pub mod log;
pub mod env;
pub mod access;
pub mod model;
pub mod api_error;
pub mod database;
pub mod polling;
pub mod controls;
pub mod forms;
pub mod dashboard;
pub mod deploy;
pub mod database_page;
