//! Workspace templates: windows to open or gather when a workspace is
//! first visited.
use vstd::prelude::*;

verus! {

/// The `[[template]]` entries.
#[derive(Debug, Clone)]
pub struct WorkspaceTemplatesConfig {
    pub templates: Vec<TemplateConfig>,
}

impl Default for WorkspaceTemplatesConfig {
    fn default() -> (r: Self)
        ensures
            r.templates@.len() == 0,
    {
        WorkspaceTemplatesConfig { templates: Vec::new() }
    }
}

/// One workspace template.
#[derive(Debug, Clone)]
pub struct TemplateConfig {
    /// `[col, row]` of the workspace.
    pub cell: [u8; 2],
    /// Optional label.
    pub name: Option<String>,
    /// Windows to place, in order.
    pub windows: Vec<TemplateWindowConfig>,
}

/// One window of a template.
#[derive(Debug, Clone)]
pub struct TemplateWindowConfig {
    /// Slot to assign ("HalfLeft", ..., or anything else for none).
    pub slot: String,
    /// Command to spawn when no matching window is open.
    pub command: String,
    /// Glob on app_id: a matching open window is moved here instead.
    pub app_id: Option<String>,
}

} // verus!
