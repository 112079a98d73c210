//! Events sent to IPC subscribers, and their wire format `<name>>><data>\n`.
use vstd::prelude::*;

use crate::text::{bool_text, dec, dec_signed, push_dec, push_signed};

verus! {

#[derive(Debug, Clone)]
pub enum Event {
    WorkspaceChanged { col: u8, row: u8 },
    WorkspaceCreated { col: u8, row: u8, name: String },
    WorkspaceRenamed { col: u8, row: u8, old: String, new: String },
    /// Fired when the workspace sync mode changes (synced | unsynced).
    WorkspaceSyncChanged { synced: bool },
    WindowOpened { id: u64, app_id: String, workspace_col: u8, workspace_row: u8, state: String, slot: String },
    WindowClosed { id: u64 },
    WindowMoved { id: u64, col: u8, row: u8 },
    /// Emitted right after the placement policy assigns a window.
    WindowPlaced { id: u64, policy_matched: String, slot_assigned: String },
    WindowFocus { id: u64 },
    WindowTitle { id: u64, title: String },
    WindowAppId { id: u64, app_id: String },
    WindowStateChanged { id: u64, state: String },
    WindowSlotChanged { id: u64, slot: String },
    /// Emitted when a half slot adapts to a complementary quarter.
    WindowSlotAdapted { id: u64, requested: String, actual: String },
    /// Emitted when a Fullscreen window adapts to a tiled slot.
    WindowStateAdapted { id: u64, requested_state: String, actual_state: String, actual_slot: String },
    /// Emitted when move-window-direction skips a TotalFullscreen workspace.
    WindowMoveSkipped { id: u64, requested_col: u8, requested_row: u8, actual_col: u8, actual_row: u8 },
    /// Emitted when a move is refused because of a TotalFullscreen workspace.
    WindowMoveRefused { id: u64, requested_col: u8, requested_row: u8, reason: String },
    /// Emitted when the top window or size of a slot stack changes.
    WindowStackChanged { slot: String, top_id: u64, size: usize },
    /// Emitted when a stack reorder changes the order.
    WindowStackReordered { slot: String, order_csv: String },
    SubMapChanged { name: String },
    ConfigReloaded { which: String },
    ConfigError { message: String },
    ThemeReloaded,
    /// Emitted when a shader compiles.
    ShaderLoaded { category: String, path: String },
    /// Emitted when a shader fails to compile.
    ShaderError { category: String, path: String, log: String },
    OverviewOpened,
    OverviewClosed,
    ViewModeChanged { mode: String },
    MinimapToggled { visible: bool },
    /// A monitor appeared; `scale` is its scale factor as text.
    MonitorAdded { name: String, width: u32, height: u32, scale: String },
    MonitorRemoved { name: String },
    MonitorConfigChanged { name: String },
    KeyboardLayoutChanged { device: String, layout: String },
    IdleTimeout { after_seconds: u64 },
    IdleResume { after_seconds: u64 },
    Urgent { id: u64 },
    SessionLocked,
    SessionUnlocked,
    /// Fired when crash recovery enters safe mode.
    SafeModeEntered { reason: String },
    /// Fired if no notification daemon is reachable.
    NotificationDaemonMissing,
    PluginError { name: String, message: String },
    PluginLoaded { name: String },
    /// Emitted when a tiled window floats because its slot is smaller than its minimum size.
    WindowSizeConstraintFloat { id: u64, slot: String, min_w: i32, min_h: i32, slot_w: i32, slot_h: i32 },
}

/// An event with its strings as character sequences.
pub enum EventV {
    WorkspaceChanged { col: u8, row: u8 },
    WorkspaceCreated { col: u8, row: u8, name: Seq<char> },
    WorkspaceRenamed { col: u8, row: u8, old: Seq<char>, new: Seq<char> },
    WorkspaceSyncChanged { synced: bool },
    WindowOpened { id: u64, app_id: Seq<char>, workspace_col: u8, workspace_row: u8, state: Seq<char>, slot: Seq<char> },
    WindowClosed { id: u64 },
    WindowMoved { id: u64, col: u8, row: u8 },
    WindowPlaced { id: u64, policy_matched: Seq<char>, slot_assigned: Seq<char> },
    WindowFocus { id: u64 },
    WindowTitle { id: u64, title: Seq<char> },
    WindowAppId { id: u64, app_id: Seq<char> },
    WindowStateChanged { id: u64, state: Seq<char> },
    WindowSlotChanged { id: u64, slot: Seq<char> },
    WindowSlotAdapted { id: u64, requested: Seq<char>, actual: Seq<char> },
    WindowStateAdapted { id: u64, requested_state: Seq<char>, actual_state: Seq<char>, actual_slot: Seq<char> },
    WindowMoveSkipped { id: u64, requested_col: u8, requested_row: u8, actual_col: u8, actual_row: u8 },
    WindowMoveRefused { id: u64, requested_col: u8, requested_row: u8, reason: Seq<char> },
    WindowStackChanged { slot: Seq<char>, top_id: u64, size: usize },
    WindowStackReordered { slot: Seq<char>, order_csv: Seq<char> },
    SubMapChanged { name: Seq<char> },
    ConfigReloaded { which: Seq<char> },
    ConfigError { message: Seq<char> },
    ThemeReloaded,
    ShaderLoaded { category: Seq<char>, path: Seq<char> },
    ShaderError { category: Seq<char>, path: Seq<char>, log: Seq<char> },
    OverviewOpened,
    OverviewClosed,
    ViewModeChanged { mode: Seq<char> },
    MinimapToggled { visible: bool },
    MonitorAdded { name: Seq<char>, width: u32, height: u32, scale: Seq<char> },
    MonitorRemoved { name: Seq<char> },
    MonitorConfigChanged { name: Seq<char> },
    KeyboardLayoutChanged { device: Seq<char>, layout: Seq<char> },
    IdleTimeout { after_seconds: u64 },
    IdleResume { after_seconds: u64 },
    Urgent { id: u64 },
    SessionLocked,
    SessionUnlocked,
    SafeModeEntered { reason: Seq<char> },
    NotificationDaemonMissing,
    PluginError { name: Seq<char>, message: Seq<char> },
    PluginLoaded { name: Seq<char> },
    WindowSizeConstraintFloat { id: u64, slot: Seq<char>, min_w: i32, min_h: i32, slot_w: i32, slot_h: i32 },
}

pub open spec fn event_view(e: Event) -> EventV {
    match e {
        Event::WorkspaceChanged { col, row } => EventV::WorkspaceChanged { col, row },
        Event::WorkspaceCreated { col, row, name } => EventV::WorkspaceCreated { col, row, name: name@ },
        Event::WorkspaceRenamed { col, row, old, new } => EventV::WorkspaceRenamed { col, row, old: old@, new: new@ },
        Event::WorkspaceSyncChanged { synced } => EventV::WorkspaceSyncChanged { synced },
        Event::WindowOpened { id, app_id, workspace_col, workspace_row, state, slot } => EventV::WindowOpened { id, app_id: app_id@, workspace_col, workspace_row, state: state@, slot: slot@ },
        Event::WindowClosed { id } => EventV::WindowClosed { id },
        Event::WindowMoved { id, col, row } => EventV::WindowMoved { id, col, row },
        Event::WindowPlaced { id, policy_matched, slot_assigned } => EventV::WindowPlaced { id, policy_matched: policy_matched@, slot_assigned: slot_assigned@ },
        Event::WindowFocus { id } => EventV::WindowFocus { id },
        Event::WindowTitle { id, title } => EventV::WindowTitle { id, title: title@ },
        Event::WindowAppId { id, app_id } => EventV::WindowAppId { id, app_id: app_id@ },
        Event::WindowStateChanged { id, state } => EventV::WindowStateChanged { id, state: state@ },
        Event::WindowSlotChanged { id, slot } => EventV::WindowSlotChanged { id, slot: slot@ },
        Event::WindowSlotAdapted { id, requested, actual } => EventV::WindowSlotAdapted { id, requested: requested@, actual: actual@ },
        Event::WindowStateAdapted { id, requested_state, actual_state, actual_slot } => EventV::WindowStateAdapted { id, requested_state: requested_state@, actual_state: actual_state@, actual_slot: actual_slot@ },
        Event::WindowMoveSkipped { id, requested_col, requested_row, actual_col, actual_row } => EventV::WindowMoveSkipped { id, requested_col, requested_row, actual_col, actual_row },
        Event::WindowMoveRefused { id, requested_col, requested_row, reason } => EventV::WindowMoveRefused { id, requested_col, requested_row, reason: reason@ },
        Event::WindowStackChanged { slot, top_id, size } => EventV::WindowStackChanged { slot: slot@, top_id, size },
        Event::WindowStackReordered { slot, order_csv } => EventV::WindowStackReordered { slot: slot@, order_csv: order_csv@ },
        Event::SubMapChanged { name } => EventV::SubMapChanged { name: name@ },
        Event::ConfigReloaded { which } => EventV::ConfigReloaded { which: which@ },
        Event::ConfigError { message } => EventV::ConfigError { message: message@ },
        Event::ThemeReloaded => EventV::ThemeReloaded,
        Event::ShaderLoaded { category, path } => EventV::ShaderLoaded { category: category@, path: path@ },
        Event::ShaderError { category, path, log } => EventV::ShaderError { category: category@, path: path@, log: log@ },
        Event::OverviewOpened => EventV::OverviewOpened,
        Event::OverviewClosed => EventV::OverviewClosed,
        Event::ViewModeChanged { mode } => EventV::ViewModeChanged { mode: mode@ },
        Event::MinimapToggled { visible } => EventV::MinimapToggled { visible },
        Event::MonitorAdded { name, width, height, scale } => EventV::MonitorAdded { name: name@, width, height, scale: scale@ },
        Event::MonitorRemoved { name } => EventV::MonitorRemoved { name: name@ },
        Event::MonitorConfigChanged { name } => EventV::MonitorConfigChanged { name: name@ },
        Event::KeyboardLayoutChanged { device, layout } => EventV::KeyboardLayoutChanged { device: device@, layout: layout@ },
        Event::IdleTimeout { after_seconds } => EventV::IdleTimeout { after_seconds },
        Event::IdleResume { after_seconds } => EventV::IdleResume { after_seconds },
        Event::Urgent { id } => EventV::Urgent { id },
        Event::SessionLocked => EventV::SessionLocked,
        Event::SessionUnlocked => EventV::SessionUnlocked,
        Event::SafeModeEntered { reason } => EventV::SafeModeEntered { reason: reason@ },
        Event::NotificationDaemonMissing => EventV::NotificationDaemonMissing,
        Event::PluginError { name, message } => EventV::PluginError { name: name@, message: message@ },
        Event::PluginLoaded { name } => EventV::PluginLoaded { name: name@ },
        Event::WindowSizeConstraintFloat { id, slot, min_w, min_h, slot_w, slot_h } => EventV::WindowSizeConstraintFloat { id, slot: slot@, min_w, min_h, slot_w, slot_h },
    }
}

/// The wire name of an event.
pub open spec fn wire_name(e: EventV) -> Seq<char> {
    match e {
        EventV::WorkspaceChanged { .. } => "workspace_changed"@,
        EventV::WorkspaceCreated { .. } => "workspace_created"@,
        EventV::WorkspaceRenamed { .. } => "workspace_renamed"@,
        EventV::WorkspaceSyncChanged { .. } => "workspace_sync_changed"@,
        EventV::WindowOpened { .. } => "window_opened"@,
        EventV::WindowClosed { .. } => "window_closed"@,
        EventV::WindowMoved { .. } => "window_moved"@,
        EventV::WindowPlaced { .. } => "window_placed"@,
        EventV::WindowFocus { .. } => "window_focus"@,
        EventV::WindowTitle { .. } => "window_title"@,
        EventV::WindowAppId { .. } => "window_app_id"@,
        EventV::WindowStateChanged { .. } => "window_state_changed"@,
        EventV::WindowSlotChanged { .. } => "window_slot_changed"@,
        EventV::WindowSlotAdapted { .. } => "window_slot_adapted"@,
        EventV::WindowStateAdapted { .. } => "window_state_adapted"@,
        EventV::WindowMoveSkipped { .. } => "window_move_skipped"@,
        EventV::WindowMoveRefused { .. } => "window_move_refused"@,
        EventV::WindowStackChanged { .. } => "window_stack_changed"@,
        EventV::WindowStackReordered { .. } => "window_stack_reordered"@,
        EventV::SubMapChanged { .. } => "submap_changed"@,
        EventV::ConfigReloaded { .. } => "config_reloaded"@,
        EventV::ConfigError { .. } => "config_error"@,
        EventV::ThemeReloaded => "theme_reloaded"@,
        EventV::ShaderLoaded { .. } => "shader_loaded"@,
        EventV::ShaderError { .. } => "shader_error"@,
        EventV::OverviewOpened => "overview_opened"@,
        EventV::OverviewClosed => "overview_closed"@,
        EventV::ViewModeChanged { .. } => "view_mode_changed"@,
        EventV::MinimapToggled { .. } => "minimap_toggled"@,
        EventV::MonitorAdded { .. } => "monitor_added"@,
        EventV::MonitorRemoved { .. } => "monitor_removed"@,
        EventV::MonitorConfigChanged { .. } => "monitor_config_changed"@,
        EventV::KeyboardLayoutChanged { .. } => "keyboard_layout_changed"@,
        EventV::IdleTimeout { .. } => "idle"@,
        EventV::IdleResume { .. } => "resume"@,
        EventV::Urgent { .. } => "urgent"@,
        EventV::SessionLocked => "lock"@,
        EventV::SessionUnlocked => "unlock"@,
        EventV::SafeModeEntered { .. } => "safe_mode_entered"@,
        EventV::NotificationDaemonMissing => "notification_daemon_missing"@,
        EventV::PluginError { .. } => "plugin_error"@,
        EventV::PluginLoaded { .. } => "plugin_loaded"@,
        EventV::WindowSizeConstraintFloat { .. } => "window_size_constraint_forced_float"@,
    }
}

/// The data part of an event's wire form: its fields joined with commas,
/// numbers in decimal.
pub open spec fn wire_data(e: EventV) -> Seq<char> {
    match e {
        EventV::WorkspaceChanged { col, row } => dec(col as nat) + ","@ + dec(row as nat) + ",winit"@,
        EventV::WorkspaceCreated { col, row, name } => dec(col as nat) + ","@ + dec(row as nat) + ",winit,"@ + name,
        EventV::WorkspaceRenamed { col, row, old, new } => dec(col as nat) + ","@ + dec(row as nat) + ",winit,"@ + old + ","@ + new,
        EventV::WorkspaceSyncChanged { synced } => (if synced { "synced"@ } else { "unsynced"@ }),
        EventV::WindowOpened { id, app_id, workspace_col, workspace_row, state, slot } => dec(id as nat) + ","@ + app_id + ","@ + dec(workspace_col as nat) + ","@ + dec(workspace_row as nat) + ","@ + state + ","@ + slot,
        EventV::WindowClosed { id } => dec(id as nat),
        EventV::WindowMoved { id, col, row } => dec(id as nat) + ","@ + dec(col as nat) + ","@ + dec(row as nat),
        EventV::WindowPlaced { id, policy_matched, slot_assigned } => dec(id as nat) + ","@ + policy_matched + ","@ + slot_assigned,
        EventV::WindowFocus { id } => dec(id as nat),
        EventV::WindowTitle { id, title } => dec(id as nat) + ","@ + title,
        EventV::WindowAppId { id, app_id } => dec(id as nat) + ","@ + app_id,
        EventV::WindowStateChanged { id, state } => dec(id as nat) + ","@ + state,
        EventV::WindowSlotChanged { id, slot } => dec(id as nat) + ","@ + slot,
        EventV::WindowSlotAdapted { id, requested, actual } => dec(id as nat) + ","@ + requested + ","@ + actual,
        EventV::WindowStateAdapted { id, requested_state, actual_state, actual_slot } => dec(id as nat) + ","@ + requested_state + ","@ + actual_state + ","@ + actual_slot,
        EventV::WindowMoveSkipped { id, requested_col, requested_row, actual_col, actual_row } => dec(id as nat) + ","@ + dec(requested_col as nat) + ","@ + dec(requested_row as nat) + ","@ + dec(actual_col as nat) + ","@ + dec(actual_row as nat),
        EventV::WindowMoveRefused { id, requested_col, requested_row, reason } => dec(id as nat) + ","@ + dec(requested_col as nat) + ","@ + dec(requested_row as nat) + ","@ + reason,
        EventV::WindowStackChanged { slot, top_id, size } => slot + ","@ + dec(top_id as nat) + ","@ + dec(size as nat),
        EventV::WindowStackReordered { slot, order_csv } => slot + ","@ + order_csv,
        EventV::SubMapChanged { name } => name,
        EventV::ConfigReloaded { which } => which,
        EventV::ConfigError { message } => message,
        EventV::ThemeReloaded => Seq::empty(),
        EventV::ShaderLoaded { category, path } => category + ","@ + path,
        EventV::ShaderError { category, path, log } => category + ","@ + path + ","@ + log,
        EventV::OverviewOpened => Seq::empty(),
        EventV::OverviewClosed => Seq::empty(),
        EventV::ViewModeChanged { mode } => mode,
        EventV::MinimapToggled { visible } => bool_text(visible),
        EventV::MonitorAdded { name, width, height, scale } => name + ","@ + dec(width as nat) + ","@ + dec(height as nat) + ","@ + scale,
        EventV::MonitorRemoved { name } => name,
        EventV::MonitorConfigChanged { name } => name,
        EventV::KeyboardLayoutChanged { device, layout } => device + ","@ + layout,
        EventV::IdleTimeout { after_seconds } => dec(after_seconds as nat),
        EventV::IdleResume { after_seconds } => dec(after_seconds as nat),
        EventV::Urgent { id } => dec(id as nat),
        EventV::SessionLocked => Seq::empty(),
        EventV::SessionUnlocked => Seq::empty(),
        EventV::SafeModeEntered { reason } => reason,
        EventV::NotificationDaemonMissing => Seq::empty(),
        EventV::PluginError { name, message } => name + ","@ + message,
        EventV::PluginLoaded { name } => name,
        EventV::WindowSizeConstraintFloat { id, slot, min_w, min_h, slot_w, slot_h } => dec(id as nat) + ","@ + slot + ","@ + dec_signed(min_w as int) + ","@ + dec_signed(min_h as int) + ","@ + dec_signed(slot_w as int) + ","@ + dec_signed(slot_h as int),
    }
}

/// The wire form of an event: `<name>>><data>` and a newline.
pub open spec fn wire(e: EventV) -> Seq<char> {
    wire_name(e) + ">>"@ + wire_data(e) + "\n"@
}

impl Event {
    /// The wire name of the event.
    pub fn wire_name(&self) -> (r: &'static str)
        ensures
            r@ == wire_name(event_view(*self)),
    {
        match self {
            Event::WorkspaceChanged { .. } => "workspace_changed",
            Event::WorkspaceCreated { .. } => "workspace_created",
            Event::WorkspaceRenamed { .. } => "workspace_renamed",
            Event::WorkspaceSyncChanged { .. } => "workspace_sync_changed",
            Event::WindowOpened { .. } => "window_opened",
            Event::WindowClosed { .. } => "window_closed",
            Event::WindowMoved { .. } => "window_moved",
            Event::WindowPlaced { .. } => "window_placed",
            Event::WindowFocus { .. } => "window_focus",
            Event::WindowTitle { .. } => "window_title",
            Event::WindowAppId { .. } => "window_app_id",
            Event::WindowStateChanged { .. } => "window_state_changed",
            Event::WindowSlotChanged { .. } => "window_slot_changed",
            Event::WindowSlotAdapted { .. } => "window_slot_adapted",
            Event::WindowStateAdapted { .. } => "window_state_adapted",
            Event::WindowMoveSkipped { .. } => "window_move_skipped",
            Event::WindowMoveRefused { .. } => "window_move_refused",
            Event::WindowStackChanged { .. } => "window_stack_changed",
            Event::WindowStackReordered { .. } => "window_stack_reordered",
            Event::SubMapChanged { .. } => "submap_changed",
            Event::ConfigReloaded { .. } => "config_reloaded",
            Event::ConfigError { .. } => "config_error",
            Event::ThemeReloaded => "theme_reloaded",
            Event::ShaderLoaded { .. } => "shader_loaded",
            Event::ShaderError { .. } => "shader_error",
            Event::OverviewOpened => "overview_opened",
            Event::OverviewClosed => "overview_closed",
            Event::ViewModeChanged { .. } => "view_mode_changed",
            Event::MinimapToggled { .. } => "minimap_toggled",
            Event::MonitorAdded { .. } => "monitor_added",
            Event::MonitorRemoved { .. } => "monitor_removed",
            Event::MonitorConfigChanged { .. } => "monitor_config_changed",
            Event::KeyboardLayoutChanged { .. } => "keyboard_layout_changed",
            Event::IdleTimeout { .. } => "idle",
            Event::IdleResume { .. } => "resume",
            Event::Urgent { .. } => "urgent",
            Event::SessionLocked => "lock",
            Event::SessionUnlocked => "unlock",
            Event::SafeModeEntered { .. } => "safe_mode_entered",
            Event::NotificationDaemonMissing => "notification_daemon_missing",
            Event::PluginError { .. } => "plugin_error",
            Event::PluginLoaded { .. } => "plugin_loaded",
            Event::WindowSizeConstraintFloat { .. } => "window_size_constraint_forced_float",
        }
    }

    #[verifier::rlimit(50)]
    fn push_data_0(&self, s: &mut String)
        requires
            *self is WorkspaceChanged || *self is WorkspaceCreated || *self is WorkspaceRenamed || *self is WorkspaceSyncChanged,
        ensures
            final(s)@ == old(s)@ + wire_data(event_view(*self)),
    {
        match self {
            Event::WorkspaceChanged { col: v_col, row: v_row } => {
                push_dec(s, *v_col as u64);
                s.append(",");
                push_dec(s, *v_row as u64);
                s.append(",winit");
                assert(s@ =~= old(s)@ + wire_data(event_view(*self)));
            },
            Event::WorkspaceCreated { col: v_col, row: v_row, name: v_name } => {
                push_dec(s, *v_col as u64);
                s.append(",");
                push_dec(s, *v_row as u64);
                s.append(",winit,");
                s.append(v_name.as_str());
                assert(s@ =~= old(s)@ + wire_data(event_view(*self)));
            },
            Event::WorkspaceRenamed { col: v_col, row: v_row, old: v_old, new: v_new } => {
                push_dec(s, *v_col as u64);
                s.append(",");
                push_dec(s, *v_row as u64);
                s.append(",winit,");
                s.append(v_old.as_str());
                s.append(",");
                s.append(v_new.as_str());
                assert(s@ =~= old(s)@ + wire_data(event_view(*self)));
            },
            Event::WorkspaceSyncChanged { synced: v_synced } => {
                s.append(if *v_synced { "synced" } else { "unsynced" });
                assert(s@ =~= old(s)@ + wire_data(event_view(*self)));
            },
            _ => {},
        }
    }

    #[verifier::rlimit(50)]
    fn push_data_1(&self, s: &mut String)
        requires
            *self is WindowOpened || *self is WindowClosed || *self is WindowMoved || *self is WindowPlaced,
        ensures
            final(s)@ == old(s)@ + wire_data(event_view(*self)),
    {
        match self {
            Event::WindowOpened { id: v_id, app_id: v_app_id, workspace_col: v_workspace_col, workspace_row: v_workspace_row, state: v_state, slot: v_slot } => {
                push_dec(s, *v_id);
                s.append(",");
                s.append(v_app_id.as_str());
                s.append(",");
                push_dec(s, *v_workspace_col as u64);
                s.append(",");
                push_dec(s, *v_workspace_row as u64);
                s.append(",");
                s.append(v_state.as_str());
                s.append(",");
                s.append(v_slot.as_str());
                assert(s@ =~= old(s)@ + wire_data(event_view(*self)));
            },
            Event::WindowClosed { id: v_id } => {
                push_dec(s, *v_id);
                assert(s@ =~= old(s)@ + wire_data(event_view(*self)));
            },
            Event::WindowMoved { id: v_id, col: v_col, row: v_row } => {
                push_dec(s, *v_id);
                s.append(",");
                push_dec(s, *v_col as u64);
                s.append(",");
                push_dec(s, *v_row as u64);
                assert(s@ =~= old(s)@ + wire_data(event_view(*self)));
            },
            Event::WindowPlaced { id: v_id, policy_matched: v_policy_matched, slot_assigned: v_slot_assigned } => {
                push_dec(s, *v_id);
                s.append(",");
                s.append(v_policy_matched.as_str());
                s.append(",");
                s.append(v_slot_assigned.as_str());
                assert(s@ =~= old(s)@ + wire_data(event_view(*self)));
            },
            _ => {},
        }
    }

    #[verifier::rlimit(50)]
    fn push_data_2(&self, s: &mut String)
        requires
            *self is WindowFocus || *self is WindowTitle || *self is WindowAppId || *self is WindowStateChanged,
        ensures
            final(s)@ == old(s)@ + wire_data(event_view(*self)),
    {
        match self {
            Event::WindowFocus { id: v_id } => {
                push_dec(s, *v_id);
                assert(s@ =~= old(s)@ + wire_data(event_view(*self)));
            },
            Event::WindowTitle { id: v_id, title: v_title } => {
                push_dec(s, *v_id);
                s.append(",");
                s.append(v_title.as_str());
                assert(s@ =~= old(s)@ + wire_data(event_view(*self)));
            },
            Event::WindowAppId { id: v_id, app_id: v_app_id } => {
                push_dec(s, *v_id);
                s.append(",");
                s.append(v_app_id.as_str());
                assert(s@ =~= old(s)@ + wire_data(event_view(*self)));
            },
            Event::WindowStateChanged { id: v_id, state: v_state } => {
                push_dec(s, *v_id);
                s.append(",");
                s.append(v_state.as_str());
                assert(s@ =~= old(s)@ + wire_data(event_view(*self)));
            },
            _ => {},
        }
    }

    #[verifier::rlimit(50)]
    fn push_data_3(&self, s: &mut String)
        requires
            *self is WindowSlotChanged || *self is WindowSlotAdapted || *self is WindowStateAdapted || *self is WindowMoveSkipped,
        ensures
            final(s)@ == old(s)@ + wire_data(event_view(*self)),
    {
        match self {
            Event::WindowSlotChanged { id: v_id, slot: v_slot } => {
                push_dec(s, *v_id);
                s.append(",");
                s.append(v_slot.as_str());
                assert(s@ =~= old(s)@ + wire_data(event_view(*self)));
            },
            Event::WindowSlotAdapted { id: v_id, requested: v_requested, actual: v_actual } => {
                push_dec(s, *v_id);
                s.append(",");
                s.append(v_requested.as_str());
                s.append(",");
                s.append(v_actual.as_str());
                assert(s@ =~= old(s)@ + wire_data(event_view(*self)));
            },
            Event::WindowStateAdapted { id: v_id, requested_state: v_requested_state, actual_state: v_actual_state, actual_slot: v_actual_slot } => {
                push_dec(s, *v_id);
                s.append(",");
                s.append(v_requested_state.as_str());
                s.append(",");
                s.append(v_actual_state.as_str());
                s.append(",");
                s.append(v_actual_slot.as_str());
                assert(s@ =~= old(s)@ + wire_data(event_view(*self)));
            },
            Event::WindowMoveSkipped { id: v_id, requested_col: v_requested_col, requested_row: v_requested_row, actual_col: v_actual_col, actual_row: v_actual_row } => {
                push_dec(s, *v_id);
                s.append(",");
                push_dec(s, *v_requested_col as u64);
                s.append(",");
                push_dec(s, *v_requested_row as u64);
                s.append(",");
                push_dec(s, *v_actual_col as u64);
                s.append(",");
                push_dec(s, *v_actual_row as u64);
                assert(s@ =~= old(s)@ + wire_data(event_view(*self)));
            },
            _ => {},
        }
    }

    #[verifier::rlimit(50)]
    fn push_data_4(&self, s: &mut String)
        requires
            *self is WindowMoveRefused || *self is WindowStackChanged || *self is WindowStackReordered || *self is SubMapChanged,
        ensures
            final(s)@ == old(s)@ + wire_data(event_view(*self)),
    {
        match self {
            Event::WindowMoveRefused { id: v_id, requested_col: v_requested_col, requested_row: v_requested_row, reason: v_reason } => {
                push_dec(s, *v_id);
                s.append(",");
                push_dec(s, *v_requested_col as u64);
                s.append(",");
                push_dec(s, *v_requested_row as u64);
                s.append(",");
                s.append(v_reason.as_str());
                assert(s@ =~= old(s)@ + wire_data(event_view(*self)));
            },
            Event::WindowStackChanged { slot: v_slot, top_id: v_top_id, size: v_size } => {
                s.append(v_slot.as_str());
                s.append(",");
                push_dec(s, *v_top_id);
                s.append(",");
                push_dec(s, *v_size as u64);
                assert(s@ =~= old(s)@ + wire_data(event_view(*self)));
            },
            Event::WindowStackReordered { slot: v_slot, order_csv: v_order_csv } => {
                s.append(v_slot.as_str());
                s.append(",");
                s.append(v_order_csv.as_str());
                assert(s@ =~= old(s)@ + wire_data(event_view(*self)));
            },
            Event::SubMapChanged { name: v_name } => {
                s.append(v_name.as_str());
                assert(s@ =~= old(s)@ + wire_data(event_view(*self)));
            },
            _ => {},
        }
    }

    #[verifier::rlimit(50)]
    fn push_data_5(&self, s: &mut String)
        requires
            *self is ConfigReloaded || *self is ConfigError || *self is ThemeReloaded || *self is ShaderLoaded,
        ensures
            final(s)@ == old(s)@ + wire_data(event_view(*self)),
    {
        match self {
            Event::ConfigReloaded { which: v_which } => {
                s.append(v_which.as_str());
                assert(s@ =~= old(s)@ + wire_data(event_view(*self)));
            },
            Event::ConfigError { message: v_message } => {
                s.append(v_message.as_str());
                assert(s@ =~= old(s)@ + wire_data(event_view(*self)));
            },
            Event::ThemeReloaded => {
                assert(s@ =~= old(s)@ + wire_data(event_view(*self)));
            },
            Event::ShaderLoaded { category: v_category, path: v_path } => {
                s.append(v_category.as_str());
                s.append(",");
                s.append(v_path.as_str());
                assert(s@ =~= old(s)@ + wire_data(event_view(*self)));
            },
            _ => {},
        }
    }

    #[verifier::rlimit(50)]
    fn push_data_6(&self, s: &mut String)
        requires
            *self is ShaderError || *self is OverviewOpened || *self is OverviewClosed || *self is ViewModeChanged,
        ensures
            final(s)@ == old(s)@ + wire_data(event_view(*self)),
    {
        match self {
            Event::ShaderError { category: v_category, path: v_path, log: v_log } => {
                s.append(v_category.as_str());
                s.append(",");
                s.append(v_path.as_str());
                s.append(",");
                s.append(v_log.as_str());
                assert(s@ =~= old(s)@ + wire_data(event_view(*self)));
            },
            Event::OverviewOpened => {
                assert(s@ =~= old(s)@ + wire_data(event_view(*self)));
            },
            Event::OverviewClosed => {
                assert(s@ =~= old(s)@ + wire_data(event_view(*self)));
            },
            Event::ViewModeChanged { mode: v_mode } => {
                s.append(v_mode.as_str());
                assert(s@ =~= old(s)@ + wire_data(event_view(*self)));
            },
            _ => {},
        }
    }

    #[verifier::rlimit(50)]
    fn push_data_7(&self, s: &mut String)
        requires
            *self is MinimapToggled || *self is MonitorAdded || *self is MonitorRemoved || *self is MonitorConfigChanged,
        ensures
            final(s)@ == old(s)@ + wire_data(event_view(*self)),
    {
        match self {
            Event::MinimapToggled { visible: v_visible } => {
                s.append(if *v_visible { "true" } else { "false" });
                assert(s@ =~= old(s)@ + wire_data(event_view(*self)));
            },
            Event::MonitorAdded { name: v_name, width: v_width, height: v_height, scale: v_scale } => {
                s.append(v_name.as_str());
                s.append(",");
                push_dec(s, *v_width as u64);
                s.append(",");
                push_dec(s, *v_height as u64);
                s.append(",");
                s.append(v_scale.as_str());
                assert(s@ =~= old(s)@ + wire_data(event_view(*self)));
            },
            Event::MonitorRemoved { name: v_name } => {
                s.append(v_name.as_str());
                assert(s@ =~= old(s)@ + wire_data(event_view(*self)));
            },
            Event::MonitorConfigChanged { name: v_name } => {
                s.append(v_name.as_str());
                assert(s@ =~= old(s)@ + wire_data(event_view(*self)));
            },
            _ => {},
        }
    }

    #[verifier::rlimit(50)]
    fn push_data_8(&self, s: &mut String)
        requires
            *self is KeyboardLayoutChanged || *self is IdleTimeout || *self is IdleResume || *self is Urgent,
        ensures
            final(s)@ == old(s)@ + wire_data(event_view(*self)),
    {
        match self {
            Event::KeyboardLayoutChanged { device: v_device, layout: v_layout } => {
                s.append(v_device.as_str());
                s.append(",");
                s.append(v_layout.as_str());
                assert(s@ =~= old(s)@ + wire_data(event_view(*self)));
            },
            Event::IdleTimeout { after_seconds: v_after_seconds } => {
                push_dec(s, *v_after_seconds);
                assert(s@ =~= old(s)@ + wire_data(event_view(*self)));
            },
            Event::IdleResume { after_seconds: v_after_seconds } => {
                push_dec(s, *v_after_seconds);
                assert(s@ =~= old(s)@ + wire_data(event_view(*self)));
            },
            Event::Urgent { id: v_id } => {
                push_dec(s, *v_id);
                assert(s@ =~= old(s)@ + wire_data(event_view(*self)));
            },
            _ => {},
        }
    }

    #[verifier::rlimit(50)]
    fn push_data_9(&self, s: &mut String)
        requires
            *self is SessionLocked || *self is SessionUnlocked || *self is SafeModeEntered || *self is NotificationDaemonMissing,
        ensures
            final(s)@ == old(s)@ + wire_data(event_view(*self)),
    {
        match self {
            Event::SessionLocked => {
                assert(s@ =~= old(s)@ + wire_data(event_view(*self)));
            },
            Event::SessionUnlocked => {
                assert(s@ =~= old(s)@ + wire_data(event_view(*self)));
            },
            Event::SafeModeEntered { reason: v_reason } => {
                s.append(v_reason.as_str());
                assert(s@ =~= old(s)@ + wire_data(event_view(*self)));
            },
            Event::NotificationDaemonMissing => {
                assert(s@ =~= old(s)@ + wire_data(event_view(*self)));
            },
            _ => {},
        }
    }

    #[verifier::rlimit(50)]
    fn push_data_10(&self, s: &mut String)
        requires
            *self is PluginError || *self is PluginLoaded || *self is WindowSizeConstraintFloat,
        ensures
            final(s)@ == old(s)@ + wire_data(event_view(*self)),
    {
        match self {
            Event::PluginError { name: v_name, message: v_message } => {
                s.append(v_name.as_str());
                s.append(",");
                s.append(v_message.as_str());
                assert(s@ =~= old(s)@ + wire_data(event_view(*self)));
            },
            Event::PluginLoaded { name: v_name } => {
                s.append(v_name.as_str());
                assert(s@ =~= old(s)@ + wire_data(event_view(*self)));
            },
            Event::WindowSizeConstraintFloat { id: v_id, slot: v_slot, min_w: v_min_w, min_h: v_min_h, slot_w: v_slot_w, slot_h: v_slot_h } => {
                push_dec(s, *v_id);
                s.append(",");
                s.append(v_slot.as_str());
                s.append(",");
                push_signed(s, *v_min_w);
                s.append(",");
                push_signed(s, *v_min_h);
                s.append(",");
                push_signed(s, *v_slot_w);
                s.append(",");
                push_signed(s, *v_slot_h);
                assert(s@ =~= old(s)@ + wire_data(event_view(*self)));
            },
            _ => {},
        }
    }

    /// Append the data part of the event's wire form.
    pub fn push_data(&self, s: &mut String)
        ensures
            final(s)@ == old(s)@ + wire_data(event_view(*self)),
    {
        if matches!(self, Event::WorkspaceChanged { .. }) || matches!(self, Event::WorkspaceCreated { .. }) || matches!(self, Event::WorkspaceRenamed { .. }) || matches!(self, Event::WorkspaceSyncChanged { .. }) {
            self.push_data_0(s);
        } else if matches!(self, Event::WindowOpened { .. }) || matches!(self, Event::WindowClosed { .. }) || matches!(self, Event::WindowMoved { .. }) || matches!(self, Event::WindowPlaced { .. }) {
            self.push_data_1(s);
        } else if matches!(self, Event::WindowFocus { .. }) || matches!(self, Event::WindowTitle { .. }) || matches!(self, Event::WindowAppId { .. }) || matches!(self, Event::WindowStateChanged { .. }) {
            self.push_data_2(s);
        } else if matches!(self, Event::WindowSlotChanged { .. }) || matches!(self, Event::WindowSlotAdapted { .. }) || matches!(self, Event::WindowStateAdapted { .. }) || matches!(self, Event::WindowMoveSkipped { .. }) {
            self.push_data_3(s);
        } else if matches!(self, Event::WindowMoveRefused { .. }) || matches!(self, Event::WindowStackChanged { .. }) || matches!(self, Event::WindowStackReordered { .. }) || matches!(self, Event::SubMapChanged { .. }) {
            self.push_data_4(s);
        } else if matches!(self, Event::ConfigReloaded { .. }) || matches!(self, Event::ConfigError { .. }) || matches!(self, Event::ThemeReloaded) || matches!(self, Event::ShaderLoaded { .. }) {
            self.push_data_5(s);
        } else if matches!(self, Event::ShaderError { .. }) || matches!(self, Event::OverviewOpened) || matches!(self, Event::OverviewClosed) || matches!(self, Event::ViewModeChanged { .. }) {
            self.push_data_6(s);
        } else if matches!(self, Event::MinimapToggled { .. }) || matches!(self, Event::MonitorAdded { .. }) || matches!(self, Event::MonitorRemoved { .. }) || matches!(self, Event::MonitorConfigChanged { .. }) {
            self.push_data_7(s);
        } else if matches!(self, Event::KeyboardLayoutChanged { .. }) || matches!(self, Event::IdleTimeout { .. }) || matches!(self, Event::IdleResume { .. }) || matches!(self, Event::Urgent { .. }) {
            self.push_data_8(s);
        } else if matches!(self, Event::SessionLocked) || matches!(self, Event::SessionUnlocked) || matches!(self, Event::SafeModeEntered { .. }) || matches!(self, Event::NotificationDaemonMissing) {
            self.push_data_9(s);
        } else {
            self.push_data_10(s);
        }
    }

    /// The wire form of the event (see `wire`).
    pub fn format(&self) -> (r: String)
        ensures
            r@ == wire(event_view(*self)),
    {
        let mut s = String::new();
        s.append(self.wire_name());
        s.append(">>");
        self.push_data(&mut s);
        s.append("\n");
        assert(s@ =~= wire(event_view(*self)));
        s
    }
}

} // verus!
