use vstd::prelude::*;

verus! {

/// Floating window decoration overrides.
#[derive(Debug, Clone)]
pub struct WindowFloatingConfig {
    pub border_px: i32,
    pub rounded_corners_px: i32,
}

impl WindowFloatingConfig {
    /// Every field holds its default value.
    pub open spec fn is_default(&self) -> bool {
        self.border_px == 2
        && self.rounded_corners_px == 12
    }
}

impl Default for WindowFloatingConfig {
    fn default() -> (r: Self)
        ensures
            r.is_default(),
    {
        Self {
            border_px: 2,
            rounded_corners_px: 12,
        }
    }
}

#[derive(Debug, Clone)]
pub struct WallpaperConfig {
    /// Wallpaper daemon to spawn: "swaybg" | "swww" | "mpvpaper" | "hyprpaper" | "custom".
    pub tool: String,
    pub mode: String,
    /// Fallback solid color when no image is set.
    pub bg_color: String,
    /// Default wallpaper image path.
    pub default: String,
}

impl WallpaperConfig {
    /// Every field holds its default value.
    pub open spec fn is_default(&self) -> bool {
        self.tool@ == ""@
        && self.mode@ == "fill"@
        && self.bg_color@ == "#1a1b26"@
        && self.default@ == ""@
    }
}

impl Default for WallpaperConfig {
    fn default() -> (r: Self)
        ensures
            r.is_default(),
    {
        Self {
            tool: String::from_str(""),
            mode: String::from_str("fill"),
            bg_color: String::from_str("#1a1b26"),
            default: String::from_str(""),
        }
    }
}

/// Theme sections without floating-point values.
#[derive(Debug, Clone)]
pub struct ThemeConfig {
    /// Built-in preset name to import.
    pub import: String,
    pub gaps: GapsConfig,
    pub colors: ColorConfig,
    pub cursor: CursorConfig,
    pub wallpaper: WallpaperConfig,
    pub osd: OsdConfig,
}

impl ThemeConfig {
    /// Every field holds its default value.
    pub open spec fn is_default(&self) -> bool {
        self.import@ == ""@
        && self.gaps.is_default()
        && self.colors.is_default()
        && self.cursor.is_default()
        && self.wallpaper.is_default()
        && self.osd.is_default()
    }
}

impl Default for ThemeConfig {
    fn default() -> (r: Self)
        ensures
            r.is_default(),
    {
        Self {
            import: String::from_str(""),
            gaps: GapsConfig::default(),
            colors: ColorConfig::default(),
            cursor: CursorConfig::default(),
            wallpaper: WallpaperConfig::default(),
            osd: OsdConfig::default(),
        }
    }
}

/// On-screen display.
#[derive(Debug, Clone)]
pub struct OsdConfig {
    pub enabled: bool,
    pub position: String,
    pub margin_px: i32,
    pub duration_ms: u64,
    pub workspace_indicator: bool,
    pub submap_indicator: bool,
    pub reload_indicator: bool,
    pub cell_px: i32,
    pub cell_gap_px: i32,
}

impl OsdConfig {
    /// Every field holds its default value.
    pub open spec fn is_default(&self) -> bool {
        self.enabled == true
        && self.position@ == "top-center"@
        && self.margin_px == 24
        && self.duration_ms == 1500
        && self.workspace_indicator == true
        && self.submap_indicator == true
        && self.reload_indicator == true
        && self.cell_px == 10
        && self.cell_gap_px == 3
    }
}

impl Default for OsdConfig {
    fn default() -> (r: Self)
        ensures
            r.is_default(),
    {
        Self {
            enabled: true,
            position: String::from_str("top-center"),
            margin_px: 24,
            duration_ms: 1500,
            workspace_indicator: true,
            submap_indicator: true,
            reload_indicator: true,
            cell_px: 10,
            cell_gap_px: 3,
        }
    }
}

#[derive(Debug, Clone)]
pub struct GapsConfig {
    pub windows: WindowGapConfig,
    pub workspaces: WorkspaceGapConfig,
}

impl GapsConfig {
    /// Every field holds its default value.
    pub open spec fn is_default(&self) -> bool {
        self.windows.is_default()
        && self.workspaces.is_default()
    }
}

impl Default for GapsConfig {
    fn default() -> (r: Self)
        ensures
            r.is_default(),
    {
        Self {
            windows: WindowGapConfig::default(),
            workspaces: WorkspaceGapConfig::default(),
        }
    }
}

#[derive(Debug, Clone)]
pub struct WindowGapConfig {
    /// Gap between adjacent tiled windows.
    pub inner_px: i32,
    /// Gap between outermost windows and the screen edge.
    pub outer_px: i32,
    pub outer_top_px: i32,
    pub outer_bottom_px: i32,
    pub outer_left_px: i32,
    pub outer_right_px: i32,
    /// Collapse gaps to zero when only one tiled window is present.
    pub smart: bool,
}

impl WindowGapConfig {
    /// Every field holds its default value.
    pub open spec fn is_default(&self) -> bool {
        self.inner_px == 8
        && self.outer_px == 12
        && self.outer_top_px == 12
        && self.outer_bottom_px == 12
        && self.outer_left_px == 12
        && self.outer_right_px == 12
        && self.smart == true
    }
}

impl Default for WindowGapConfig {
    fn default() -> (r: Self)
        ensures
            r.is_default(),
    {
        Self {
            inner_px: 8,
            outer_px: 12,
            outer_top_px: 12,
            outer_bottom_px: 12,
            outer_left_px: 12,
            outer_right_px: 12,
            smart: true,
        }
    }
}

#[derive(Debug, Clone)]
pub struct WorkspaceGapConfig {
    pub overview_gap_px: i32,
    pub slide_gap_px: i32,
}

impl WorkspaceGapConfig {
    /// Every field holds its default value.
    pub open spec fn is_default(&self) -> bool {
        self.overview_gap_px == 20
        && self.slide_gap_px == 0
    }
}

impl Default for WorkspaceGapConfig {
    fn default() -> (r: Self)
        ensures
            r.is_default(),
    {
        Self {
            overview_gap_px: 20,
            slide_gap_px: 0,
        }
    }
}

#[derive(Debug, Clone)]
pub struct ColorConfig {
    pub accent: String,
    pub accent_dim: String,
    pub fg: String,
    pub fg_dim: String,
    pub bg: String,
    pub bg_alt: String,
    pub border_idle: String,
    pub warn: String,
    pub danger: String,
    pub ok: String,
    pub shadow: String,
}

impl ColorConfig {
    /// Every field holds its default value.
    pub open spec fn is_default(&self) -> bool {
        self.accent@ == "#7aa2f7"@
        && self.accent_dim@ == "#3d59a1"@
        && self.fg@ == "#c0caf5"@
        && self.fg_dim@ == "#a9b1d6"@
        && self.bg@ == "#1a1b26"@
        && self.bg_alt@ == "#24283b"@
        && self.border_idle@ == "#414868"@
        && self.warn@ == "#e0af68"@
        && self.danger@ == "#f7768e"@
        && self.ok@ == "#9ece6a"@
        && self.shadow@ == "#000000aa"@
    }
}

impl Default for ColorConfig {
    fn default() -> (r: Self)
        ensures
            r.is_default(),
    {
        Self {
            accent: String::from_str("#7aa2f7"),
            accent_dim: String::from_str("#3d59a1"),
            fg: String::from_str("#c0caf5"),
            fg_dim: String::from_str("#a9b1d6"),
            bg: String::from_str("#1a1b26"),
            bg_alt: String::from_str("#24283b"),
            border_idle: String::from_str("#414868"),
            warn: String::from_str("#e0af68"),
            danger: String::from_str("#f7768e"),
            ok: String::from_str("#9ece6a"),
            shadow: String::from_str("#000000aa"),
        }
    }
}

#[derive(Debug, Clone)]
pub struct CursorConfig {
    pub theme: String,
    pub size: u32,
    /// Hide the cursor after this many ms of inactivity (0 = never).
    pub inactivity_timeout_ms: u32,
    pub hide_on_typing: bool,
}

impl CursorConfig {
    /// Every field holds its default value.
    pub open spec fn is_default(&self) -> bool {
        self.theme@ == "default"@
        && self.size == 24
        && self.inactivity_timeout_ms == 0
        && self.hide_on_typing == true
    }
}

impl Default for CursorConfig {
    fn default() -> (r: Self)
        ensures
            r.is_default(),
    {
        Self {
            theme: String::from_str("default"),
            size: 24,
            inactivity_timeout_ms: 0,
            hide_on_typing: true,
        }
    }
}

} // verus!
