//! The state behind each tab of the dashboard.

pub mod connections;
pub mod installation;
pub mod logs;
pub mod settings;
pub mod settings_controls;
