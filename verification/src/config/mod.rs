//! Configuration model: the plain values the layout logic reads.

pub mod theme;
pub mod types;
pub mod rules;
pub mod templates;
