//! Grid-based tiling model: workspaces on a grid, six tiled slots per
//! workspace, slot adaptation, conflict resolution and focus policy.

pub mod commit;
pub mod config;
pub mod crash;
pub mod dispatch;
pub mod grid;
pub mod ipc;
pub mod keybind;
pub mod seqs;
pub mod session;
pub mod text;
pub mod toplevel;
