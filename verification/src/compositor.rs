//! The compositor model shared by the pager, brightness and notification
//! applets: workspaces, windows and monitors as the compositor reports them.
use vstd::prelude::*;

verus! {

/// Which compositor the panel talks to.
#[derive(Debug, Clone, Copy, PartialEq, Eq, Structural)]
pub enum CompositorType {
    Niri,
    Hyprland,
    Unsupported,
}

/// What the compositor integration can report.
#[derive(Debug, Clone, Copy, PartialEq, Eq, Structural)]
pub struct CompositorCapabilities {
    pub workspaces: bool,
    pub current_workspace: bool,
    pub windows: bool,
    pub focused_window: bool,
    pub monitors: bool,
    pub night_light: bool,
}

impl Default for CompositorCapabilities {
    fn default() -> (caps: Self)
        ensures
            !caps.workspaces,
            !caps.current_workspace,
            !caps.windows,
            !caps.focused_window,
            !caps.monitors,
            !caps.night_light,
    {
        CompositorCapabilities {
            workspaces: false,
            current_workspace: false,
            windows: false,
            focused_window: false,
            monitors: false,
            night_light: false,
        }
    }
}

/// A workspace. `id` is the compositor's identifier; `index` is its position
/// on its monitor where the compositor has one (Niri).
#[derive(Debug, Clone, PartialEq, Eq)]
pub struct Workspace {
    pub id: usize,
    pub index: Option<usize>,
    pub name: Option<String>,
    pub monitor: Option<String>,
    pub active: bool,
    pub focused: bool,
    pub urgent: bool,
    pub active_window: Option<usize>,
}

/// A toplevel window.
#[derive(Debug, Clone, PartialEq, Eq)]
pub struct Window {
    pub id: usize,
    pub title: Option<String>,
    pub app_id: Option<String>,
    pub pid: Option<u32>,
    /// Position in the workspace's layout, where the compositor reports one.
    pub layout_order: Option<usize>,
    pub workspace: Option<usize>,
    pub focused: bool,
    pub urgent: bool,
    pub fullscreen: bool,
    pub floating: Option<bool>,
}

/// An output.
#[derive(Debug, Clone, PartialEq, Eq)]
pub struct Monitor {
    pub id: Option<u64>,
    pub name: String,
    pub description: Option<String>,
    pub active_workspace: Option<usize>,
    pub focused: bool,
}

/// Everything the compositor integration reports.
#[derive(Debug, Clone, PartialEq, Eq)]
pub struct State {
    pub compositor: CompositorType,
    pub capabilities: CompositorCapabilities,
    pub current_workspace: Option<usize>,
    pub focused_window: Option<usize>,
    pub current_keyboard_layout: Option<usize>,
    pub workspaces: Vec<Workspace>,
    pub windows: Vec<Window>,
    pub monitors: Vec<Monitor>,
}

impl Default for State {
    fn default() -> (state: Self)
        ensures
            state.compositor == CompositorType::Unsupported,
            !state.capabilities.workspaces,
            !state.capabilities.current_workspace,
            !state.capabilities.windows,
            !state.capabilities.focused_window,
            !state.capabilities.monitors,
            !state.capabilities.night_light,
            state.current_workspace is None,
            state.focused_window is None,
            state.current_keyboard_layout is None,
            state.workspaces@.len() == 0,
            state.windows@.len() == 0,
            state.monitors@.len() == 0,
    {
        State {
            compositor: CompositorType::Unsupported,
            capabilities: CompositorCapabilities::default(),
            current_workspace: None,
            focused_window: None,
            current_keyboard_layout: None,
            workspaces: Vec::new(),
            windows: Vec::new(),
            monitors: Vec::new(),
        }
    }
}

/// A request to the compositor.
#[derive(Debug, Clone, Copy, PartialEq, Eq, Structural)]
pub enum Command {
    FocusNextWindow,
    FocusPreviousWindow,
    FocusNextWorkspace,
    FocusPreviousWorkspace,
    SetWorkspace(usize),
    FocusWindow(usize),
}

} // verus!
