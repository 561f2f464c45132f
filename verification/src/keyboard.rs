//! The keyboard-layout applet: what it shows for the current layout.
use vstd::prelude::*;

verus! {

/// A keyboard layout as the keyboard service reports it; `label` is the
/// short label the service chose for it.
#[derive(Debug, Clone, PartialEq, Eq)]
pub struct KeyboardLayout {
    pub index: usize,
    pub name: String,
    pub code: String,
    pub label: String,
}

/// What the keyboard service reports.
#[derive(Debug, Clone, PartialEq, Eq)]
pub struct State {
    pub available: bool,
    pub layouts: Vec<KeyboardLayout>,
    pub current_layout: Option<KeyboardLayout>,
    pub current_index: Option<usize>,
}

impl Default for State {
    fn default() -> (s: Self)
        ensures
            !s.available,
            s.layouts@.len() == 0,
            s.current_layout is None,
            s.current_index is None,
    {
        State { available: false, layouts: Vec::new(), current_layout: None, current_index: None }
    }
}

/// What the applet keeps of the service's state.
#[derive(Debug, Clone, PartialEq, Eq)]
pub struct KeyboardState {
    pub available: bool,
    pub current_layout: Option<KeyboardLayout>,
}

/// What the applet shows.
#[derive(Debug, Clone, PartialEq, Eq)]
pub struct KeyboardView {
    pub visible: bool,
    pub label: String,
    pub tooltip: String,
}

impl KeyboardState {
    /// The applet's part of the service's state.
    pub fn from_state(state: &State) -> (out: KeyboardState)
        ensures
            out.available == state.available,
            out.current_layout == state.current_layout,
    {
        KeyboardState { available: state.available, current_layout: copy_layout(&state.current_layout) }
    }
}

/// A copy of an optional layout.
fn copy_layout(layout: &Option<KeyboardLayout>) -> (out: Option<KeyboardLayout>)
    ensures
        out == *layout,
{
    match layout {
        Some(l) => Some(
            KeyboardLayout {
                index: l.index,
                name: l.name.clone(),
                code: l.code.clone(),
                label: l.label.clone(),
            },
        ),
        None => None,
    }
}

/// The panel label of a layout: the service's label for it.
pub fn layout_label(layout: &KeyboardLayout) -> (out: String)
    ensures
        out == layout.label,
{
    layout.label.clone()
}

/// The tooltip of a layout: its full name.
pub fn layout_tooltip(layout: &KeyboardLayout) -> (out: String)
    ensures
        out == layout.name,
{
    layout.name.clone()
}

/// What the applet shows: the current layout's label and name while the
/// service is available; nothing otherwise.
pub fn view_from_state(state: &KeyboardState) -> (view: KeyboardView)
    ensures
        (if state.available && state.current_layout is Some {
            let layout = state.current_layout->0;
            view.visible && view.label == layout.label && view.tooltip == layout.name
        } else {
            !view.visible && view.label@.len() == 0 && view.tooltip@.len() == 0
        }),
{
    match &state.current_layout {
        Some(layout) if state.available => KeyboardView {
            visible: true,
            label: layout_label(layout),
            tooltip: layout_tooltip(layout),
        },
        _ => KeyboardView { visible: false, label: String::new(), tooltip: String::new() },
    }
}

} // verus!
