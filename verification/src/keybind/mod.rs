//! Actions, their parsing from bind entries, and the bind tables.

pub mod action;
pub mod defaults;
pub mod filter;
pub mod parse;
pub mod table;
