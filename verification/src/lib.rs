//! Client-side data-source synchronisation for the dashboard.
//!
//! The dashboard shows one consistent picture of the streamer's session: it
//! talks to the server process when that answers, and falls back to the copy
//! of the session on disk when it does not. This crate holds the rules of that
//! synchronisation as plain state machines with proved contracts; threads,
//! sockets and files are left to the program that drives them.

pub mod address;
pub mod dashboard;
pub mod dispatcher;
pub mod endpoints;
pub mod event;
pub mod listener;
pub mod logging;
pub mod monitor;
pub mod protocol;
pub mod request;
pub mod session;
pub mod settings;
pub mod source;
pub mod text;
pub mod worker;

