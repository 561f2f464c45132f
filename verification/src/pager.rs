//! Workspace pager: which workspace or window indicators the panel shows, and
//! what each indicator does, for Niri, Hyprland and unsupported compositors,
//! with or without a panel bound to one monitor.
use vstd::prelude::*;

use crate::compositor::{
    Command, CompositorType, Monitor, State as CompositorState, Window, Workspace,
};
use crate::text::{chars_of, concat_chars, decimal, decimal_chars, eq_str, owned, string_of};

verus! {

/// Whether the pager shows workspaces or the windows of the current workspace.
#[derive(Debug, Clone, Copy, PartialEq, Eq, Structural)]
pub enum DisplayMode {
    Workspaces,
    Windows,
}

/// How an indicator is drawn.
#[derive(Debug, Clone, Copy, PartialEq, Eq, Structural)]
pub enum PagerAppearance {
    Dots,
    Numbers,
}

/// The pager's settings.
#[derive(Debug, Clone, Copy, PartialEq, Eq, Structural)]
pub struct Config {
    pub display: DisplayMode,
    pub appearance: PagerAppearance,
}

impl Default for Config {
    fn default() -> (config: Self)
        ensures
            config == (Config { display: DisplayMode::Windows, appearance: PagerAppearance::Dots }),
    {
        Config { display: DisplayMode::Windows, appearance: PagerAppearance::Dots }
    }
}

/// What clicking an indicator does.
#[derive(Debug, Clone, Copy, PartialEq, Eq, Structural)]
pub enum PagerTarget {
    Workspace(usize),
    Window(usize),
    Placeholder,
}

/// One indicator.
#[derive(Debug, Clone, PartialEq, Eq)]
pub struct PagerItem {
    pub id: usize,
    pub target: PagerTarget,
    pub appearance: PagerAppearance,
    pub label: String,
    pub focused: bool,
    pub monitor_focused: bool,
    pub occupied: bool,
    pub urgent: bool,
}

/// What the pager draws.
#[derive(Debug, Clone, PartialEq, Eq)]
pub struct PagerView {
    pub visible: bool,
    pub tooltip: String,
    pub appearance: PagerAppearance,
    pub items: Vec<PagerItem>,
    pub placeholder: bool,
}

/// The parts of a window the pager uses.
#[derive(Debug, Clone, Copy, PartialEq, Eq, Structural)]
pub struct PagerWindow {
    pub id: usize,
    pub layout_order: Option<usize>,
    pub workspace: Option<usize>,
    pub focused: bool,
    pub urgent: bool,
}

/// The parts of the compositor state the pager renders from.
#[derive(Debug, Clone, PartialEq, Eq)]
pub struct PagerState {
    pub compositor: CompositorType,
    pub workspaces_available: bool,
    pub windows_available: bool,
    pub focused_window_available: bool,
    pub current_workspace: Option<usize>,
    pub focused_window: Option<usize>,
    pub workspaces: Vec<Workspace>,
    pub windows: Vec<PagerWindow>,
    pub monitors: Vec<Monitor>,
    /// The connector of the monitor this panel is on, when known.
    pub panel_monitor: Option<String>,
}

// ---------------------------------------------------------------------------
// Copies
// ---------------------------------------------------------------------------

fn copy_opt_string(s: &Option<String>) -> (out: Option<String>)
    ensures
        out == *s,
{
    match s {
        Some(v) => Some(v.clone()),
        None => None,
    }
}

/// A field-for-field copy of a workspace.
pub fn copy_workspace(w: &Workspace) -> (out: Workspace)
    ensures
        out == *w,
{
    Workspace {
        id: w.id,
        index: w.index,
        name: copy_opt_string(&w.name),
        monitor: copy_opt_string(&w.monitor),
        active: w.active,
        focused: w.focused,
        urgent: w.urgent,
        active_window: w.active_window,
    }
}

/// A field-for-field copy of a monitor.
pub fn copy_monitor(m: &Monitor) -> (out: Monitor)
    ensures
        out == *m,
{
    Monitor {
        id: m.id,
        name: m.name.clone(),
        description: copy_opt_string(&m.description),
        active_workspace: m.active_workspace,
        focused: m.focused,
    }
}

/// The pager's view of a window.
pub open spec fn pager_window(w: Window) -> PagerWindow {
    PagerWindow {
        id: w.id,
        layout_order: w.layout_order,
        workspace: w.workspace,
        focused: w.focused,
        urgent: w.urgent,
    }
}

impl PagerWindow {
    /// The pager's view of a window.
    pub fn from_window(window: &Window) -> (out: Self)
        ensures
            out == pager_window(*window),
    {
        PagerWindow {
            id: window.id,
            layout_order: window.layout_order,
            workspace: window.workspace,
            focused: window.focused,
            urgent: window.urgent,
        }
    }
}

impl PagerState {
    /// The pager state for a compositor state, with no panel monitor.
    pub fn from_state(state: &CompositorState) -> (out: Self)
        ensures
            out.compositor == state.compositor,
            out.workspaces_available == state.capabilities.workspaces,
            out.windows_available == state.capabilities.windows,
            out.focused_window_available == state.capabilities.focused_window,
            out.current_workspace == state.current_workspace,
            out.focused_window == state.focused_window,
            out.workspaces@ == state.workspaces@,
            out.windows@ == state.windows@.map_values(|w: Window| pager_window(w)),
            out.monitors@ == state.monitors@,
            out.panel_monitor is None,
    {
        let mut workspaces: Vec<Workspace> = Vec::new();
        let mut i: usize = 0;
        while i < state.workspaces.len()
            invariant
                i <= state.workspaces.len(),
                workspaces@ == state.workspaces@.take(i as int),
            decreases state.workspaces.len() - i,
        {
            workspaces.push(copy_workspace(&state.workspaces[i]));
            assert(state.workspaces@.take(i + 1) =~= state.workspaces@.take(i as int).push(
                state.workspaces@[i as int],
            ));
            i += 1;
        }
        assert(state.workspaces@.take(state.workspaces.len() as int) =~= state.workspaces@);
        let mut windows: Vec<PagerWindow> = Vec::new();
        let mut j: usize = 0;
        while j < state.windows.len()
            invariant
                j <= state.windows.len(),
                windows@ == state.windows@.take(j as int).map_values(|w: Window| pager_window(w)),
            decreases state.windows.len() - j,
        {
            windows.push(PagerWindow::from_window(&state.windows[j]));
            assert(state.windows@.take(j + 1).map_values(|w: Window| pager_window(w))
                =~= state.windows@.take(j as int).map_values(|w: Window| pager_window(w)).push(
                pager_window(state.windows@[j as int]),
            ));
            j += 1;
        }
        assert(state.windows@.take(state.windows.len() as int) =~= state.windows@);
        let mut monitors: Vec<Monitor> = Vec::new();
        let mut k: usize = 0;
        while k < state.monitors.len()
            invariant
                k <= state.monitors.len(),
                monitors@ == state.monitors@.take(k as int),
            decreases state.monitors.len() - k,
        {
            monitors.push(copy_monitor(&state.monitors[k]));
            assert(state.monitors@.take(k + 1) =~= state.monitors@.take(k as int).push(
                state.monitors@[k as int],
            ));
            k += 1;
        }
        assert(state.monitors@.take(state.monitors.len() as int) =~= state.monitors@);
        PagerState {
            compositor: state.compositor,
            workspaces_available: state.capabilities.workspaces,
            windows_available: state.capabilities.windows,
            focused_window_available: state.capabilities.focused_window,
            current_workspace: state.current_workspace,
            focused_window: state.focused_window,
            workspaces,
            windows,
            monitors,
            panel_monitor: None,
        }
    }
}

// ---------------------------------------------------------------------------
// Specification
// ---------------------------------------------------------------------------

/// The first monitor named `name`.
pub open spec fn find_monitor(s: Seq<Monitor>, name: Seq<char>) -> Option<Monitor>
    decreases s.len(),
{
    if s.len() == 0 {
        None
    } else if s[0].name@ == name {
        Some(s[0])
    } else {
        find_monitor(s.drop_first(), name)
    }
}

/// The first workspace with this id.
pub open spec fn find_workspace(s: Seq<Workspace>, id: usize) -> Option<Workspace>
    decreases s.len(),
{
    if s.len() == 0 {
        None
    } else if s[0].id == id {
        Some(s[0])
    } else {
        find_workspace(s.drop_first(), id)
    }
}

/// The current workspace as seen from the panel: the active workspace of the
/// panel's monitor when it has one, else the compositor's current workspace.
pub open spec fn effective_current(state: PagerState) -> Option<usize> {
    match state.panel_monitor {
        Some(name) => match find_monitor(state.monitors@, name@) {
            Some(m) => match m.active_workspace {
                Some(a) => Some(a),
                None => state.current_workspace,
            },
            None => state.current_workspace,
        },
        None => state.current_workspace,
    }
}

/// Whether the panel's monitor has focus (true when unknown).
pub open spec fn panel_focused(state: PagerState) -> bool {
    match state.panel_monitor {
        Some(name) => match find_monitor(state.monitors@, name@) {
            Some(m) => m.focused,
            None => true,
        },
        None => true,
    }
}

/// The workspaces on monitor `m`, in order.
pub open spec fn on_monitor(s: Seq<Workspace>, m: Seq<char>) -> Seq<Workspace>
    decreases s.len(),
{
    if s.len() == 0 {
        Seq::empty()
    } else {
        let rest = on_monitor(s.drop_last(), m);
        if s.last().monitor matches Some(x) && x@ == m {
            rest.push(s.last())
        } else {
            rest
        }
    }
}

/// The workspaces the pager counts: those on the panel's monitor when the
/// panel knows its monitor; on Niri otherwise those on the current
/// workspace's monitor (all, when that is unknown); on other compositors all.
pub open spec fn scoped(
    compositor: CompositorType,
    panel_monitor: Option<Seq<char>>,
    current: Option<usize>,
    workspaces: Seq<Workspace>,
) -> Seq<Workspace> {
    match panel_monitor {
        Some(m) => on_monitor(workspaces, m),
        None => if compositor == CompositorType::Niri {
            match current {
                Some(id) => match find_workspace(workspaces, id) {
                    Some(w) => match w.monitor {
                        Some(m) => on_monitor(workspaces, m@),
                        None => workspaces,
                    },
                    None => workspaces,
                },
                None => workspaces,
            }
        } else {
            workspaces
        },
    }
}

/// The slot (1-based position) of the current workspace: its index on Niri,
/// its id elsewhere.
pub open spec fn current_slot(
    compositor: CompositorType,
    current: Option<usize>,
    scoped: Seq<Workspace>,
) -> Option<usize> {
    if compositor == CompositorType::Niri {
        match current {
            Some(id) => match find_workspace(scoped, id) {
                Some(w) => w.index,
                None => None,
            },
            None => None,
        }
    } else {
        current
    }
}

/// The slot a workspace occupies: its index on Niri, its id elsewhere.
pub open spec fn slot_of(compositor: CompositorType, w: Workspace) -> Option<usize> {
    if compositor == CompositorType::Niri {
        w.index
    } else {
        Some(w.id)
    }
}

/// The highest slot among the workspaces reported (0 without any).
pub open spec fn highest_reported(compositor: CompositorType, s: Seq<Workspace>) -> nat
    decreases s.len(),
{
    if s.len() == 0 {
        0
    } else {
        let rest = highest_reported(compositor, s.drop_last());
        match slot_of(compositor, s.last()) {
            Some(v) => if v > rest { v as nat } else { rest },
            None => rest,
        }
    }
}

/// The highest workspace id any window is on (0 without any).
pub open spec fn highest_window_workspace(s: Seq<PagerWindow>) -> nat
    decreases s.len(),
{
    if s.len() == 0 {
        0
    } else {
        let rest = highest_window_workspace(s.drop_last());
        match s.last().workspace {
            Some(v) => if v > rest { v as nat } else { rest },
            None => rest,
        }
    }
}

/// The largest of four numbers.
pub open spec fn max4(a: nat, b: nat, c: nat, d: nat) -> nat {
    let ab = if a >= b { a } else { b };
    let cd = if c >= d { c } else { d };
    if ab >= cd { ab } else { cd }
}

/// How many workspace indicators to draw: enough for the highest reported
/// workspace, the current slot and (except on Niri) the highest workspace
/// holding a window, and at least one.
pub open spec fn indicator_count(
    compositor: CompositorType,
    slot: Option<usize>,
    scoped: Seq<Workspace>,
    highest_window: nat,
) -> nat {
    max4(
        highest_reported(compositor, scoped),
        match slot {
            Some(s) => s as nat,
            None => 0,
        },
        highest_window,
        1,
    )
}

/// The workspace shown in `slot`.
pub open spec fn workspace_in_slot(compositor: CompositorType, slot: usize, s: Seq<Workspace>) -> Option<Workspace>
    decreases s.len(),
{
    if s.len() == 0 {
        None
    } else if slot_of(compositor, s[0]) == Some(slot) {
        Some(s[0])
    } else {
        workspace_in_slot(compositor, slot, s.drop_first())
    }
}

/// What an indicator for `slot` asks the compositor to show: the workspace's
/// index on Niri, its id elsewhere, the slot itself without a workspace.
pub open spec fn command_target(compositor: CompositorType, fallback: usize, w: Option<Workspace>) -> usize {
    match w {
        Some(ws) => if compositor == CompositorType::Niri {
            match ws.index {
                Some(i) => i,
                None => fallback,
            }
        } else {
            ws.id
        },
        None => fallback,
    }
}

/// Some window is on workspace `ws`.
pub open spec fn occupied_ws(windows: Seq<PagerWindow>, ws: usize) -> bool {
    exists|i: int| 0 <= i < windows.len() && windows[i].workspace == Some(ws)
}

/// Some urgent window is on workspace `ws`.
pub open spec fn urgent_ws(windows: Seq<PagerWindow>, ws: usize) -> bool {
    exists|i: int| 0 <= i < windows.len() && windows[i].urgent && windows[i].workspace == Some(ws)
}

/// The indicator for `slot` in the workspaces display.
pub open spec fn workspace_item_ok(
    item: PagerItem,
    compositor: CompositorType,
    slot: usize,
    scoped: Seq<Workspace>,
    cur_slot: Option<usize>,
    monitor_focused: bool,
    windows: Seq<PagerWindow>,
    appearance: PagerAppearance,
) -> bool {
    let w = workspace_in_slot(compositor, slot, scoped);
    let target = command_target(compositor, slot, w);
    &&& item.id == target
    &&& item.target == PagerTarget::Workspace(target)
    &&& item.appearance == appearance
    &&& item.label@ == decimal(slot as nat)
    &&& item.focused == (cur_slot == Some(slot))
    &&& item.monitor_focused == monitor_focused
    &&& item.occupied == (match w {
        Some(ws) => ws.active_window is Some || occupied_ws(windows, ws.id),
        None => occupied_ws(windows, slot),
    })
    &&& item.urgent == (match w {
        Some(ws) => ws.urgent || urgent_ws(windows, ws.id),
        None => urgent_ws(windows, slot),
    })
}

/// The sort key of a window: its layout position (unknown last), then its id.
pub open spec fn window_key(w: PagerWindow) -> (nat, nat) {
    (
        match w.layout_order {
            Some(o) => o as nat,
            None => usize::MAX as nat,
        },
        w.id as nat,
    )
}

/// `a` sorts no later than `b`.
pub open spec fn key_le(a: PagerWindow, b: PagerWindow) -> bool {
    let (a0, a1) = window_key(a);
    let (b0, b1) = window_key(b);
    a0 < b0 || (a0 == b0 && a1 <= b1)
}

/// Inserts `x` after the last element of `s` that sorts no later than it.
pub open spec fn insert_sorted(s: Seq<PagerWindow>, x: PagerWindow) -> Seq<PagerWindow>
    decreases s.len(),
{
    if s.len() == 0 {
        seq![x]
    } else if key_le(s.last(), x) {
        s.push(x)
    } else {
        insert_sorted(s.drop_last(), x).push(s.last())
    }
}

/// `s` stably sorted by window key.
pub open spec fn sort_windows(s: Seq<PagerWindow>) -> Seq<PagerWindow>
    decreases s.len(),
{
    if s.len() == 0 {
        Seq::empty()
    } else {
        insert_sorted(sort_windows(s.drop_last()), s.last())
    }
}

/// The windows on workspace `ws`, in order.
pub open spec fn windows_on(s: Seq<PagerWindow>, ws: usize) -> Seq<PagerWindow>
    decreases s.len(),
{
    if s.len() == 0 {
        Seq::empty()
    } else {
        let rest = windows_on(s.drop_last(), ws);
        if s.last().workspace == Some(ws) {
            rest.push(s.last())
        } else {
            rest
        }
    }
}

/// Whether workspace `id` is on the panel's monitor (always, without a panel
/// monitor or on an unsupported compositor).
pub open spec fn belongs_to_panel(
    compositor: CompositorType,
    panel_monitor: Option<Seq<char>>,
    id: usize,
    workspaces: Seq<Workspace>,
) -> bool {
    match panel_monitor {
        None => true,
        Some(m) => if compositor == CompositorType::Unsupported {
            true
        } else {
            match find_workspace(workspaces, id) {
                Some(w) => match w.monitor {
                    Some(x) => x@ == m,
                    None => false,
                },
                None => false,
            }
        },
    }
}

/// The single placeholder indicator of an empty windows display.
pub open spec fn is_placeholder(item: PagerItem, appearance: PagerAppearance, monitor_focused: bool) -> bool {
    &&& item.id == 0
    &&& item.target == PagerTarget::Placeholder
    &&& item.appearance == appearance
    &&& item.label@ == "1"@
    &&& item.focused
    &&& item.monitor_focused == monitor_focused
    &&& !item.occupied
    &&& !item.urgent
}

/// The indicator for the `index`-th window (0-based) of the windows display.
pub open spec fn window_item_ok(
    item: PagerItem,
    index: nat,
    w: PagerWindow,
    focused_window: Option<usize>,
    monitor_focused: bool,
    appearance: PagerAppearance,
) -> bool {
    &&& item.id == w.id
    &&& item.target == PagerTarget::Window(w.id)
    &&& item.appearance == appearance
    &&& item.label@ == decimal(index + 1)
    &&& item.focused == (w.focused || focused_window == Some(w.id))
    &&& item.monitor_focused == monitor_focused
    &&& item.occupied
    &&& item.urgent == w.urgent
}

/// The windows of the windows display, in display order.
pub open spec fn shown_windows(
    compositor: CompositorType,
    current: Option<usize>,
    panel_monitor: Option<Seq<char>>,
    workspaces: Seq<Workspace>,
    windows: Seq<PagerWindow>,
) -> Seq<PagerWindow> {
    match current {
        None => Seq::empty(),
        Some(c) => if belongs_to_panel(compositor, panel_monitor, c, workspaces) {
            sort_windows(windows_on(windows, c))
        } else {
            Seq::empty()
        },
    }
}

/// The windows display: one indicator per window of the current workspace in
/// layout order, or the placeholder when there are none.
pub open spec fn window_items_ok(
    items: Seq<PagerItem>,
    shown: Seq<PagerWindow>,
    focused_window: Option<usize>,
    monitor_focused: bool,
    appearance: PagerAppearance,
) -> bool {
    if shown.len() == 0 {
        items.len() == 1 && is_placeholder(items[0], appearance, monitor_focused)
    } else {
        &&& items.len() == shown.len()
        &&& forall|i: int|
            0 <= i < items.len() ==> window_item_ok(
                #[trigger] items[i],
                i as nat,
                shown[i],
                focused_window,
                monitor_focused,
                appearance,
            )
    }
}

/// The name of the panel's monitor, as characters.
pub open spec fn panel_name(state: PagerState) -> Option<Seq<char>> {
    match state.panel_monitor {
        Some(m) => Some(m@),
        None => None,
    }
}

/// The tooltip naming the current workspace.
pub open spec fn workspace_tooltip_text(state: PagerState) -> Seq<char> {
    match effective_current(state) {
        None => "Workspaces"@,
        Some(c) => match find_workspace(state.workspaces@, c) {
            Some(w) if w.name matches Some(n) && n@.len() > 0 => "Workspace "@ + w.name->Some_0@,
            _ => "Workspace "@ + decimal(
                match current_slot(
                    state.compositor,
                    Some(c),
                    scoped(state.compositor, panel_name(state), Some(c), state.workspaces@),
                ) {
                    Some(s) => s as nat,
                    None => c as nat,
                },
            ),
        },
    }
}

/// The number of windows on workspace `ws`.
pub open spec fn count_on(s: Seq<PagerWindow>, ws: usize) -> nat {
    windows_on(s, ws).len()
}

/// The tooltip naming the current workspace and its number of windows.
pub open spec fn window_tooltip_text(state: PagerState) -> Seq<char> {
    workspace_tooltip_text(state) + ", "@ + decimal(
        match effective_current(state) {
            Some(c) => count_on(state.windows@, c),
            None => 0,
        },
    ) + " windows"@
}

// ---------------------------------------------------------------------------
// Executable
// ---------------------------------------------------------------------------

fn find_monitor_exec<'a>(monitors: &'a Vec<Monitor>, name: &str) -> (out: Option<&'a Monitor>)
    ensures
        match find_monitor(monitors@, name@) {
            Some(m) => out matches Some(n) && *n == m,
            None => out is None,
        },
{
    let mut i: usize = 0;
    assert(monitors@.skip(0) =~= monitors@);
    while i < monitors.len()
        invariant
            i <= monitors.len(),
            find_monitor(monitors@.skip(i as int), name@) == find_monitor(monitors@, name@),
        decreases monitors.len() - i,
    {
        assert(monitors@.skip(i as int).drop_first() =~= monitors@.skip(i + 1));
        assert(monitors@.skip(i as int)[0] == monitors@[i as int]);
        if eq_str(monitors[i].name.as_str(), name) {
            return Some(&monitors[i]);
        }
        i += 1;
    }
    None
}

fn find_workspace_exec<'a>(workspaces: &'a Vec<Workspace>, id: usize) -> (out: Option<&'a Workspace>)
    ensures
        match find_workspace(workspaces@, id) {
            Some(w) => out matches Some(v) && *v == w,
            None => out is None,
        },
{
    let mut i: usize = 0;
    assert(workspaces@.skip(0) =~= workspaces@);
    while i < workspaces.len()
        invariant
            i <= workspaces.len(),
            find_workspace(workspaces@.skip(i as int), id) == find_workspace(workspaces@, id),
        decreases workspaces.len() - i,
    {
        assert(workspaces@.skip(i as int).drop_first() =~= workspaces@.skip(i + 1));
        assert(workspaces@.skip(i as int)[0] == workspaces@[i as int]);
        if workspaces[i].id == id {
            return Some(&workspaces[i]);
        }
        i += 1;
    }
    None
}

impl PagerState {
    /// The current workspace as seen from the panel.
    pub fn effective_current_workspace(&self) -> (out: Option<usize>)
        ensures
            out == effective_current(*self),
    {
        if let Some(name) = &self.panel_monitor {
            if let Some(monitor) = find_monitor_exec(&self.monitors, name.as_str()) {
                if let Some(active) = monitor.active_workspace {
                    return Some(active);
                }
            }
        }
        self.current_workspace
    }

    /// Whether the panel's monitor has focus (true when unknown).
    pub fn is_panel_monitor_focused(&self) -> (out: bool)
        ensures
            out == panel_focused(*self),
    {
        match &self.panel_monitor {
            None => true,
            Some(name) => match find_monitor_exec(&self.monitors, name.as_str()) {
                Some(monitor) => monitor.focused,
                None => true,
            },
        }
    }
}

fn on_monitor_exec(workspaces: &Vec<Workspace>, monitor: &str) -> (out: Vec<Workspace>)
    ensures
        out@ == on_monitor(workspaces@, monitor@),
{
    let mut out: Vec<Workspace> = Vec::new();
    let mut i: usize = 0;
    while i < workspaces.len()
        invariant
            i <= workspaces.len(),
            out@ == on_monitor(workspaces@.take(i as int), monitor@),
        decreases workspaces.len() - i,
    {
        assert(workspaces@.take(i + 1).drop_last() =~= workspaces@.take(i as int));
        assert(workspaces@.take(i + 1).last() == workspaces@[i as int]);
        let keep = match &workspaces[i].monitor {
            Some(m) => eq_str(m.as_str(), monitor),
            None => false,
        };
        if keep {
            out.push(copy_workspace(&workspaces[i]));
        }
        i += 1;
    }
    assert(workspaces@.take(workspaces.len() as int) =~= workspaces@);
    out
}

fn copy_workspaces(workspaces: &Vec<Workspace>) -> (out: Vec<Workspace>)
    ensures
        out@ == workspaces@,
{
    let mut out: Vec<Workspace> = Vec::new();
    let mut i: usize = 0;
    while i < workspaces.len()
        invariant
            i <= workspaces.len(),
            out@ == workspaces@.take(i as int),
        decreases workspaces.len() - i,
    {
        out.push(copy_workspace(&workspaces[i]));
        assert(workspaces@.take(i + 1) =~= workspaces@.take(i as int).push(workspaces@[i as int]));
        i += 1;
    }
    assert(workspaces@.take(workspaces.len() as int) =~= workspaces@);
    out
}

/// The workspaces the pager counts.
pub fn scoped_workspaces(
    compositor: CompositorType,
    panel_monitor: Option<&str>,
    current_workspace: Option<usize>,
    workspaces: &Vec<Workspace>,
) -> (out: Vec<Workspace>)
    ensures
        out@ == scoped(
            compositor,
            match panel_monitor {
                Some(m) => Some(m@),
                None => None,
            },
            current_workspace,
            workspaces@,
        ),
{
    if let Some(monitor) = panel_monitor {
        return on_monitor_exec(workspaces, monitor);
    }
    if compositor == CompositorType::Niri {
        if let Some(id) = current_workspace {
            if let Some(workspace) = find_workspace_exec(workspaces, id) {
                if let Some(monitor) = &workspace.monitor {
                    return on_monitor_exec(workspaces, monitor.as_str());
                }
            }
        }
    }
    copy_workspaces(workspaces)
}

/// The slot of the current workspace.
pub fn current_workspace_slot(
    compositor: CompositorType,
    current_workspace: Option<usize>,
    workspaces: &Vec<Workspace>,
) -> (out: Option<usize>)
    ensures
        out == current_slot(compositor, current_workspace, workspaces@),
{
    if compositor == CompositorType::Niri {
        match current_workspace {
            Some(id) => match find_workspace_exec(workspaces, id) {
                Some(workspace) => workspace.index,
                None => None,
            },
            None => None,
        }
    } else {
        current_workspace
    }
}

fn highest_reported_exec(compositor: CompositorType, workspaces: &Vec<Workspace>) -> (out: usize)
    ensures
        out as nat == highest_reported(compositor, workspaces@),
{
    let mut best: usize = 0;
    let mut i: usize = 0;
    while i < workspaces.len()
        invariant
            i <= workspaces.len(),
            best as nat == highest_reported(compositor, workspaces@.take(i as int)),
        decreases workspaces.len() - i,
    {
        assert(workspaces@.take(i + 1).drop_last() =~= workspaces@.take(i as int));
        assert(workspaces@.take(i + 1).last() == workspaces@[i as int]);
        let slot = if compositor == CompositorType::Niri {
            workspaces[i].index
        } else {
            Some(workspaces[i].id)
        };
        if let Some(v) = slot {
            if v > best {
                best = v;
            }
        }
        i += 1;
    }
    assert(workspaces@.take(workspaces.len() as int) =~= workspaces@);
    best
}

fn highest_window_exec(windows: &Vec<PagerWindow>) -> (out: usize)
    ensures
        out as nat == highest_window_workspace(windows@),
{
    let mut best: usize = 0;
    let mut i: usize = 0;
    while i < windows.len()
        invariant
            i <= windows.len(),
            best as nat == highest_window_workspace(windows@.take(i as int)),
        decreases windows.len() - i,
    {
        assert(windows@.take(i + 1).drop_last() =~= windows@.take(i as int));
        assert(windows@.take(i + 1).last() == windows@[i as int]);
        if let Some(v) = windows[i].workspace {
            if v > best {
                best = v;
            }
        }
        i += 1;
    }
    assert(windows@.take(windows.len() as int) =~= windows@);
    best
}

/// How many workspace indicators to draw, given the scoped workspaces.
pub fn workspace_indicator_count_for_scope(
    compositor: CompositorType,
    slot: Option<usize>,
    workspaces: &Vec<Workspace>,
    highest_window_workspace: usize,
) -> (out: usize)
    ensures
        out as nat == indicator_count(compositor, slot, workspaces@, highest_window_workspace as nat),
        out >= 1,
{
    let reported = highest_reported_exec(compositor, workspaces);
    let current = match slot {
        Some(s) => s,
        None => 0,
    };
    let ab = if reported >= current { reported } else { current };
    let cd = if highest_window_workspace >= 1 { highest_window_workspace } else { 1 };
    if ab >= cd { ab } else { cd }
}

/// How many workspace indicators to draw for all of `workspaces` and `windows`
/// (no panel monitor).
pub fn workspace_indicator_count(
    compositor: CompositorType,
    current_workspace: Option<usize>,
    workspaces: &Vec<Workspace>,
    windows: &Vec<PagerWindow>,
) -> (out: usize)
    ensures
        ({
            let sc = scoped(compositor, None, current_workspace, workspaces@);
            out as nat == indicator_count(
                compositor,
                current_slot(compositor, current_workspace, sc),
                sc,
                if compositor == CompositorType::Niri { 0 } else { highest_window_workspace(windows@) },
            )
        }),
{
    let sc = scoped_workspaces(compositor, None, current_workspace, workspaces);
    let slot = current_workspace_slot(compositor, current_workspace, &sc);
    let highest = if compositor == CompositorType::Niri { 0 } else { highest_window_exec(windows) };
    workspace_indicator_count_for_scope(compositor, slot, &sc, highest)
}

/// The workspace shown in `slot`.
pub fn workspace_for_slot(compositor: CompositorType, slot: usize, workspaces: &Vec<Workspace>) -> (out:
    Option<&Workspace>)
    ensures
        match workspace_in_slot(compositor, slot, workspaces@) {
            Some(w) => out matches Some(v) && *v == w,
            None => out is None,
        },
{
    let mut i: usize = 0;
    assert(workspaces@.skip(0) =~= workspaces@);
    while i < workspaces.len()
        invariant
            i <= workspaces.len(),
            workspace_in_slot(compositor, slot, workspaces@.skip(i as int)) == workspace_in_slot(
                compositor,
                slot,
                workspaces@,
            ),
        decreases workspaces.len() - i,
    {
        assert(workspaces@.skip(i as int).drop_first() =~= workspaces@.skip(i + 1));
        assert(workspaces@.skip(i as int)[0] == workspaces@[i as int]);
        let hit = if compositor == CompositorType::Niri {
            workspaces[i].index == Some(slot)
        } else {
            workspaces[i].id == slot
        };
        if hit {
            return Some(&workspaces[i]);
        }
        i += 1;
    }
    None
}

/// What the indicator in `fallback`'s slot targets.
pub fn workspace_command_target(compositor: CompositorType, fallback: usize, workspace: Option<&Workspace>) -> (out:
    usize)
    ensures
        out == command_target(
            compositor,
            fallback,
            match workspace {
                Some(w) => Some(*w),
                None => None,
            },
        ),
{
    match workspace {
        Some(w) => if compositor == CompositorType::Niri {
            match w.index {
                Some(i) => i,
                None => fallback,
            }
        } else {
            w.id
        },
        None => fallback,
    }
}

fn any_window_on(windows: &Vec<PagerWindow>, ws: usize, urgent_only: bool) -> (out: bool)
    ensures
        !urgent_only ==> out == occupied_ws(windows@, ws),
        urgent_only ==> out == urgent_ws(windows@, ws),
{
    let mut i: usize = 0;
    while i < windows.len()
        invariant
            i <= windows.len(),
            forall|j: int|
                0 <= j < i ==> !(windows@[j].workspace == Some(ws) && (!urgent_only
                    || windows@[j].urgent)),
        decreases windows.len() - i,
    {
        if windows[i].workspace == Some(ws) && (!urgent_only || windows[i].urgent) {
            return true;
        }
        i += 1;
    }
    false
}

/// The indicators of the workspaces display, slots 1 to the indicator count.
pub fn workspace_items(
    compositor: CompositorType,
    current_workspace: Option<usize>,
    panel_monitor: Option<&str>,
    monitor_focused: bool,
    workspaces: &Vec<Workspace>,
    windows: &Vec<PagerWindow>,
    appearance: PagerAppearance,
) -> (items: Vec<PagerItem>)
    ensures
        ({
            let pm = match panel_monitor {
                Some(m) => Some(m@),
                None => None,
            };
            let sc = scoped(compositor, pm, current_workspace, workspaces@);
            let slot = current_slot(compositor, current_workspace, sc);
            let count = indicator_count(
                compositor,
                slot,
                sc,
                if compositor == CompositorType::Niri { 0 } else { highest_window_workspace(windows@) },
            );
            &&& items@.len() == count
            &&& forall|i: int|
                0 <= i < items@.len() ==> workspace_item_ok(
                    #[trigger] items@[i],
                    compositor,
                    (i + 1) as usize,
                    sc,
                    slot,
                    monitor_focused,
                    windows@,
                    appearance,
                )
        }),
{
    let sc = scoped_workspaces(compositor, panel_monitor, current_workspace, workspaces);
    let slot = current_workspace_slot(compositor, current_workspace, &sc);
    let highest = if compositor == CompositorType::Niri { 0 } else { highest_window_exec(windows) };
    let count = workspace_indicator_count_for_scope(compositor, slot, &sc, highest);
    let mut items: Vec<PagerItem> = Vec::new();
    let mut n: usize = 0;
    while n < count
        invariant
            n <= count,
            items@.len() == n,
            forall|i: int|
                0 <= i < n ==> workspace_item_ok(
                    #[trigger] items@[i],
                    compositor,
                    (i + 1) as usize,
                    sc@,
                    slot,
                    monitor_focused,
                    windows@,
                    appearance,
                ),
        decreases count - n,
    {
        let s = n + 1;
        let workspace = workspace_for_slot(compositor, s, &sc);
        let target = workspace_command_target(compositor, s, workspace);
        let occupied = match workspace {
            Some(w) => w.active_window.is_some() || any_window_on(windows, w.id, false),
            None => any_window_on(windows, s, false),
        };
        let urgent = match workspace {
            Some(w) => w.urgent || any_window_on(windows, w.id, true),
            None => any_window_on(windows, s, true),
        };
        let item = PagerItem {
            id: target,
            target: PagerTarget::Workspace(target),
            appearance,
            label: string_of(&decimal_chars(s as u64)),
            focused: slot == Some(s),
            monitor_focused,
            occupied,
            urgent,
        };
        items.push(item);
        n += 1;
    }
    items
}

/// The placeholder indicator of an empty windows display.
pub fn window_placeholder_item(appearance: PagerAppearance, monitor_focused: bool) -> (item: PagerItem)
    ensures
        is_placeholder(item, appearance, monitor_focused),
{
    PagerItem {
        id: 0,
        target: PagerTarget::Placeholder,
        appearance,
        label: owned("1"),
        focused: true,
        monitor_focused,
        occupied: false,
        urgent: false,
    }
}

/// Whether workspace `workspace_id` is on the panel's monitor.
pub fn workspace_belongs_to_panel(
    compositor: CompositorType,
    panel_monitor: Option<&str>,
    workspace_id: usize,
    workspaces: &Vec<Workspace>,
) -> (out: bool)
    ensures
        out == belongs_to_panel(
            compositor,
            match panel_monitor {
                Some(m) => Some(m@),
                None => None,
            },
            workspace_id,
            workspaces@,
        ),
{
    let monitor = match panel_monitor {
        None => return true,
        Some(m) => m,
    };
    if compositor == CompositorType::Unsupported {
        return true;
    }
    match find_workspace_exec(workspaces, workspace_id) {
        Some(workspace) => match &workspace.monitor {
            Some(m) => eq_str(m.as_str(), monitor),
            None => false,
        },
        None => false,
    }
}

fn key_le_exec(a: &PagerWindow, b: &PagerWindow) -> (out: bool)
    ensures
        out == key_le(*a, *b),
{
    let a0 = match a.layout_order {
        Some(o) => o,
        None => usize::MAX,
    };
    let b0 = match b.layout_order {
        Some(o) => o,
        None => usize::MAX,
    };
    a0 < b0 || (a0 == b0 && a.id <= b.id)
}

proof fn lemma_insert_sorted(s: Seq<PagerWindow>, x: PagerWindow, j: int)
    requires
        0 <= j <= s.len(),
        forall|k: int| j <= k < s.len() ==> !key_le(s[k], x),
        j == 0 || key_le(s[j - 1], x),
    ensures
        insert_sorted(s, x) == s.insert(j, x),
    decreases s.len(),
{
    if s.len() == 0 {
        assert(s.insert(0, x) =~= seq![x]);
    } else if key_le(s.last(), x) {
        assert(j == s.len());
        assert(s.insert(j, x) =~= s.push(x));
    } else {
        assert(j < s.len());
        lemma_insert_sorted(s.drop_last(), x, j);
        assert(s.drop_last().insert(j, x).push(s.last()) =~= s.insert(j, x));
    }
}

/// The windows on `workspace`, stably sorted by layout position then id.
pub fn sorted_windows_on(windows: &Vec<PagerWindow>, workspace: usize) -> (out: Vec<PagerWindow>)
    ensures
        out@ == sort_windows(windows_on(windows@, workspace)),
{
    let mut on: Vec<PagerWindow> = Vec::new();
    let mut i: usize = 0;
    while i < windows.len()
        invariant
            i <= windows.len(),
            on@ == windows_on(windows@.take(i as int), workspace),
        decreases windows.len() - i,
    {
        assert(windows@.take(i + 1).drop_last() =~= windows@.take(i as int));
        assert(windows@.take(i + 1).last() == windows@[i as int]);
        if windows[i].workspace == Some(workspace) {
            on.push(windows[i]);
        }
        i += 1;
    }
    assert(windows@.take(windows.len() as int) =~= windows@);
    let mut sorted: Vec<PagerWindow> = Vec::new();
    let mut k: usize = 0;
    while k < on.len()
        invariant
            k <= on.len(),
            sorted@ == sort_windows(on@.take(k as int)),
        decreases on.len() - k,
    {
        let x = on[k];
        let mut j = sorted.len();
        while j > 0 && !key_le_exec(&sorted[j - 1], &x)
            invariant
                j <= sorted.len(),
                forall|m: int| j <= m < sorted.len() ==> !key_le(sorted@[m], x),
            decreases j,
        {
            j -= 1;
        }
        proof {
            lemma_insert_sorted(sorted@, x, j as int);
            assert(on@.take(k + 1).drop_last() =~= on@.take(k as int));
            assert(on@.take(k + 1).last() == x);
        }
        sorted.insert(j, x);
        k += 1;
    }
    assert(on@.take(on.len() as int) =~= on@);
    sorted
}

/// The indicators of the windows display.
pub fn window_items(
    compositor: CompositorType,
    current_workspace: Option<usize>,
    panel_monitor: Option<&str>,
    monitor_focused: bool,
    focused_window: Option<usize>,
    workspaces: &Vec<Workspace>,
    windows: &Vec<PagerWindow>,
    appearance: PagerAppearance,
) -> (items: Vec<PagerItem>)
    ensures
        window_items_ok(
            items@,
            shown_windows(
                compositor,
                current_workspace,
                match panel_monitor {
                    Some(m) => Some(m@),
                    None => None,
                },
                workspaces@,
                windows@,
            ),
            focused_window,
            monitor_focused,
            appearance,
        ),
{
    let current = match current_workspace {
        Some(c) => c,
        None => {
            let mut v: Vec<PagerItem> = Vec::new();
            v.push(window_placeholder_item(appearance, monitor_focused));
            return v;
        },
    };
    if !workspace_belongs_to_panel(compositor, panel_monitor, current, workspaces) {
        let mut v: Vec<PagerItem> = Vec::new();
        v.push(window_placeholder_item(appearance, monitor_focused));
        return v;
    }
    let shown = sorted_windows_on(windows, current);
    let mut items: Vec<PagerItem> = Vec::new();
    let mut i: usize = 0;
    while i < shown.len()
        invariant
            i <= shown.len(),
            items@.len() == i,
            forall|k: int|
                0 <= k < i ==> window_item_ok(
                    #[trigger] items@[k],
                    k as nat,
                    shown@[k],
                    focused_window,
                    monitor_focused,
                    appearance,
                ),
        decreases shown.len() - i,
    {
        let w = shown[i];
        items.push(
            PagerItem {
                id: w.id,
                target: PagerTarget::Window(w.id),
                appearance,
                label: string_of(&decimal_chars((i + 1) as u64)),
                focused: w.focused || focused_window == Some(w.id),
                monitor_focused,
                occupied: true,
                urgent: w.urgent,
            },
        );
        i += 1;
    }
    if items.len() == 0 {
        items.push(window_placeholder_item(appearance, monitor_focused));
    }
    items
}

/// The tooltip naming the current workspace.
pub fn current_workspace_tooltip(state: &PagerState) -> (out: String)
    ensures
        out@ == workspace_tooltip_text(*state),
{
    let current = match state.effective_current_workspace() {
        Some(c) => c,
        None => return owned("Workspaces"),
    };
    if let Some(workspace) = find_workspace_exec(&state.workspaces, current) {
        if let Some(name) = &workspace.name {
            if !name.as_str().is_empty() {
                return string_of(&concat_chars(&chars_of("Workspace "), &chars_of(name.as_str())));
            }
        }
    }
    let panel = match &state.panel_monitor {
        Some(m) => Some(m.as_str()),
        None => None,
    };
    let sc = scoped_workspaces(state.compositor, panel, Some(current), &state.workspaces);
    let label = match current_workspace_slot(state.compositor, Some(current), &sc) {
        Some(s) => s,
        None => current,
    };
    string_of(&concat_chars(&chars_of("Workspace "), &decimal_chars(label as u64)))
}

/// The tooltip naming the current workspace and how many windows it holds.
pub fn current_workspace_window_tooltip(state: &PagerState) -> (out: String)
    ensures
        out@ == window_tooltip_text(*state),
{
    let workspace = current_workspace_tooltip(state);
    let count: usize = match state.effective_current_workspace() {
        Some(current) => {
            let mut n: usize = 0;
            let mut i: usize = 0;
            while i < state.windows.len()
                invariant
                    i <= state.windows.len(),
                    n as nat == windows_on(state.windows@.take(i as int), current).len(),
                    n <= i,
                decreases state.windows.len() - i,
            {
                assert(state.windows@.take(i + 1).drop_last() =~= state.windows@.take(i as int));
                assert(state.windows@.take(i + 1).last() == state.windows@[i as int]);
                if state.windows[i].workspace == Some(current) {
                    n += 1;
                }
                i += 1;
            }
            assert(state.windows@.take(state.windows.len() as int) =~= state.windows@);
            n
        },
        None => 0,
    };
    let out = concat_chars(
        &concat_chars(
            &concat_chars(&chars_of(workspace.as_str()), &chars_of(", ")),
            &decimal_chars(count as u64),
        ),
        &chars_of(" windows"),
    );
    string_of(&out)
}

/// What the pager shows for a configuration and a state.
pub open spec fn view_ok(config: Config, state: PagerState, view: PagerView) -> bool {
    if !state.workspaces_available {
        &&& !view.visible
        &&& view.tooltip@ == "Workspaces unavailable"@
        &&& view.appearance == config.appearance
        &&& view.items@.len() == 0
        &&& !view.placeholder
    } else {
        let pm = panel_name(state);
        let current = effective_current(state);
        let focused = panel_focused(state);
        &&& view.visible
        &&& view.appearance == config.appearance
        &&& match config.display {
            DisplayMode::Workspaces => {
                let sc = scoped(state.compositor, pm, current, state.workspaces@);
                let slot = current_slot(state.compositor, current, sc);
                let count = indicator_count(
                    state.compositor,
                    slot,
                    sc,
                    if state.compositor == CompositorType::Niri {
                        0
                    } else {
                        highest_window_workspace(state.windows@)
                    },
                );
                &&& view.tooltip@ == workspace_tooltip_text(state)
                &&& !view.placeholder
                &&& view.items@.len() == count
                &&& forall|i: int|
                    0 <= i < view.items@.len() ==> workspace_item_ok(
                        #[trigger] view.items@[i],
                        state.compositor,
                        (i + 1) as usize,
                        sc,
                        slot,
                        focused,
                        state.windows@,
                        config.appearance,
                    )
            },
            DisplayMode::Windows => {
                &&& view.tooltip@ == window_tooltip_text(state)
                &&& window_items_ok(
                    view.items@,
                    shown_windows(state.compositor, current, pm, state.workspaces@, state.windows@),
                    state.focused_window,
                    focused,
                    config.appearance,
                )
                &&& view.placeholder == (view.items@.len() == 0)
            },
        }
    }
}

/// What the pager shows.
pub fn view_from_state(config: &Config, state: &PagerState) -> (view: PagerView)
    ensures
        view_ok(*config, *state, view),
{
    if !state.workspaces_available {
        return PagerView {
            visible: false,
            tooltip: owned("Workspaces unavailable"),
            appearance: config.appearance,
            items: Vec::new(),
            placeholder: false,
        };
    }
    let panel = match &state.panel_monitor {
        Some(m) => Some(m.as_str()),
        None => None,
    };
    let current = state.effective_current_workspace();
    let focused = state.is_panel_monitor_focused();
    match config.display {
        DisplayMode::Workspaces => {
            let items = workspace_items(
                state.compositor,
                current,
                panel,
                focused,
                &state.workspaces,
                &state.windows,
                config.appearance,
            );
            PagerView {
                visible: true,
                tooltip: current_workspace_tooltip(state),
                appearance: config.appearance,
                items,
                placeholder: false,
            }
        },
        DisplayMode::Windows => {
            let items = window_items(
                state.compositor,
                current,
                panel,
                focused,
                state.focused_window,
                &state.workspaces,
                &state.windows,
                config.appearance,
            );
            let placeholder = items.len() == 0;
            PagerView {
                visible: true,
                tooltip: current_workspace_window_tooltip(state),
                appearance: config.appearance,
                items,
                placeholder,
            }
        },
    }
}

/// The compositor command for a scroll: next or previous window or workspace,
/// following the display mode.
pub fn scroll_command(config: &Config, _state: &PagerState, next: bool, _horizontal: bool) -> (out:
    Command)
    ensures
        out == (match config.display {
            DisplayMode::Windows => if next {
                Command::FocusNextWindow
            } else {
                Command::FocusPreviousWindow
            },
            DisplayMode::Workspaces => if next {
                Command::FocusNextWorkspace
            } else {
                Command::FocusPreviousWorkspace
            },
        }),
{
    match config.display {
        DisplayMode::Windows => if next {
            Command::FocusNextWindow
        } else {
            Command::FocusPreviousWindow
        },
        DisplayMode::Workspaces => if next {
            Command::FocusNextWorkspace
        } else {
            Command::FocusPreviousWorkspace
        },
    }
}

/// The compositor command for clicking an indicator; none for the placeholder.
pub fn command_for_target(target: PagerTarget) -> (out: Option<Command>)
    ensures
        out == (match target {
            PagerTarget::Workspace(w) => Some(Command::SetWorkspace(w)),
            PagerTarget::Window(w) => Some(Command::FocusWindow(w)),
            PagerTarget::Placeholder => None,
        }),
{
    match target {
        PagerTarget::Workspace(workspace) => Some(Command::SetWorkspace(workspace)),
        PagerTarget::Window(window) => Some(Command::FocusWindow(window)),
        PagerTarget::Placeholder => None,
    }
}

/// An urgent window marks the indicator of the workspace it is on urgent,
/// whether or not the compositor reports that workspace (an unreported one
/// is matched by its slot).
pub proof fn law_urgent_window_marks_indicator(
    item: PagerItem,
    compositor: CompositorType,
    slot: usize,
    scoped: Seq<Workspace>,
    cur_slot: Option<usize>,
    monitor_focused: bool,
    windows: Seq<PagerWindow>,
    appearance: PagerAppearance,
    i: int,
)
    requires
        workspace_item_ok(item, compositor, slot, scoped, cur_slot, monitor_focused, windows, appearance),
        0 <= i < windows.len(),
        windows[i].urgent,
        windows[i].workspace == Some(
            match workspace_in_slot(compositor, slot, scoped) {
                Some(ws) => ws.id,
                None => slot,
            },
        ),
    ensures
        item.urgent,
{
}

/// An indicator is urgent exactly when its reported workspace is urgent or
/// some urgent window is on it; a workspace the compositor reports urgent
/// always marks its indicator.
pub proof fn law_indicator_urgency(
    item: PagerItem,
    compositor: CompositorType,
    slot: usize,
    scoped: Seq<Workspace>,
    cur_slot: Option<usize>,
    monitor_focused: bool,
    windows: Seq<PagerWindow>,
    appearance: PagerAppearance,
)
    requires
        workspace_item_ok(item, compositor, slot, scoped, cur_slot, monitor_focused, windows, appearance),
    ensures
        workspace_in_slot(compositor, slot, scoped) matches Some(ws) && ws.urgent ==> item.urgent,
        item.urgent ==> (workspace_in_slot(compositor, slot, scoped) matches Some(ws) && ws.urgent) || exists|i: int|
            0 <= i < windows.len() && (#[trigger] windows[i]).urgent && windows[i].workspace == Some(
                match workspace_in_slot(compositor, slot, scoped) {
                    Some(ws) => ws.id,
                    None => slot,
                },
            ),
        forall|i: int|
            0 <= i < windows.len() && (#[trigger] windows[i]).workspace == Some(
                match workspace_in_slot(compositor, slot, scoped) {
                    Some(ws) => ws.id,
                    None => slot,
                },
            ) ==> item.occupied,
{
}

} // verus!
