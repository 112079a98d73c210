//! The IPC command language, its query answers and the event stream.

pub mod commands;
pub mod events;
pub mod queries;
pub mod requests;
pub mod options;
pub mod window_info;
