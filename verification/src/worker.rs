//! The worker: it answers each message of the
//! window with calls to the server's web interface.

pub mod gui_handler;
