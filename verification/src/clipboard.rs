//! Clipboard applet: the history model and the panel texts.
use vstd::prelude::*;

use crate::text::{chars_of, concat_chars, decimal, decimal_chars, owned, replace_all, replace_str, string_of};

verus! {

/// What a clipboard entry holds.
#[derive(Debug, Clone, Copy, PartialEq, Eq, Structural)]
pub enum ClipboardEntryKind {
    Text,
    Html,
    Image,
    Files,
    Other,
}

/// One entry of the clipboard history.
#[derive(Debug, Clone)]
pub struct ClipboardEntry {
    pub id: u64,
    pub kind: ClipboardEntryKind,
    pub preview: String,
}

/// What the clipboard applet renders from.
#[derive(Debug, Clone)]
pub struct State {
    pub available: bool,
    pub history: Vec<ClipboardEntry>,
}

impl Default for State {
    fn default() -> (state: Self)
        ensures
            !state.available,
            state.history@.len() == 0,
    {
        State { available: false, history: Vec::new() }
    }
}

pub const DEFAULT_LABEL_FORMAT: &'static str = "";

pub const DEFAULT_TOOLTIP_FORMAT: &'static str = "{count} clipboard items";

/// `"No items"`, `"1 item"` or `"{n} items"`.
pub open spec fn count_text(count: nat) -> Seq<char> {
    if count == 0 {
        "No items"@
    } else if count == 1 {
        "1 item"@
    } else {
        decimal(count) + " items"@
    }
}

/// A clipboard template with `{count}` and `{state}` filled in.
pub open spec fn render_text(format: Seq<char>, state: State) -> Seq<char> {
    replace_all(
        replace_all(format, "{count}"@, decimal(state.history@.len())),
        "{state}"@,
        if state.available { "available"@ } else { "unavailable"@ },
    )
}

/// The applet icon.
pub fn icon_name(_state: &State) -> (out: &'static str)
    ensures
        out@ == "edit-paste-symbolic"@,
{
    "edit-paste-symbolic"
}

/// The panel label for a template.
pub fn label(format: &str, state: &State) -> (out: String)
    ensures
        out@ == render_text(format@, *state),
{
    render(format, state)
}

/// The tooltip: the template, or a notice when the clipboard is unavailable.
pub fn tooltip(format: &str, state: &State) -> (out: String)
    ensures
        out@ == (if !state.available { "Clipboard unavailable"@ } else { render_text(format@, *state) }),
{
    if !state.available {
        return owned("Clipboard unavailable");
    }
    render(format, state)
}

/// The popover's hero subtitle.
pub fn hero_subtitle(state: &State) -> (out: String)
    ensures
        out@ == (if !state.available { "Unavailable"@ } else { count_text(state.history@.len()) }),
{
    if !state.available {
        return owned("Unavailable");
    }
    count_label(state.history.len())
}

/// The number of history items in words.
pub fn count_label(count: usize) -> (out: String)
    ensures
        out@ == count_text(count as nat),
{
    if count == 0 {
        owned("No items")
    } else if count == 1 {
        owned("1 item")
    } else {
        string_of(&concat_chars(&decimal_chars(count as u64), &chars_of(" items")))
    }
}

/// The icon for an entry of the given kind.
pub fn entry_icon(entry: &ClipboardEntry) -> (out: &'static str)
    ensures
        out@ == (match entry.kind {
            ClipboardEntryKind::Text | ClipboardEntryKind::Html => "text-x-generic-symbolic"@,
            ClipboardEntryKind::Image => "image-x-generic-symbolic"@,
            ClipboardEntryKind::Files => "folder-documents-symbolic"@,
            ClipboardEntryKind::Other => "package-x-generic-symbolic"@,
        }),
{
    match entry.kind {
        ClipboardEntryKind::Text => "text-x-generic-symbolic",
        ClipboardEntryKind::Html => "text-x-generic-symbolic",
        ClipboardEntryKind::Image => "image-x-generic-symbolic",
        ClipboardEntryKind::Files => "folder-documents-symbolic",
        ClipboardEntryKind::Other => "package-x-generic-symbolic",
    }
}

/// Whether "clear history" is offered: the service is up and holds items.
pub fn clear_action_available(state: &State) -> (out: bool)
    ensures
        out == (state.available && state.history@.len() > 0),
{
    state.available && state.history.len() > 0
}

/// Fills in `{count}` and `{state}`.
pub fn render(format: &str, state: &State) -> (out: String)
    ensures
        out@ == render_text(format@, *state),
{
    proof {
        reveal_strlit("{count}");
        reveal_strlit("{state}");
    }
    let t = chars_of(format);
    let s1 = replace_str(&t, "{count}", &decimal_chars(state.history.len() as u64));
    let word = if state.available { "available" } else { "unavailable" };
    let s2 = replace_str(&s1, "{state}", &chars_of(word));
    string_of(&s2)
}

/// The clipboard applet's settings.
#[derive(Debug, Clone, PartialEq, Eq)]
pub struct Config {
    pub label_format: String,
    pub tooltip_format: String,
    /// Whether the applet shows while the history is empty.
    pub show_when_empty: bool,
}

impl Default for Config {
    fn default() -> (config: Self)
        ensures
            config.label_format@ == DEFAULT_LABEL_FORMAT@,
            config.tooltip_format@ == DEFAULT_TOOLTIP_FORMAT@,
            !config.show_when_empty,
    {
        Config {
            label_format: owned(DEFAULT_LABEL_FORMAT),
            tooltip_format: owned(DEFAULT_TOOLTIP_FORMAT),
            show_when_empty: false,
        }
    }
}

/// Whether the applet shows: the service is available and there is
/// history, or the settings ask to show it while empty.
pub fn applet_visible(state: &State, config: &Config) -> (out: bool)
    ensures
        out == (state.available && (config.show_when_empty || state.history@.len() > 0)),
{
    state.available && (config.show_when_empty || state.history.len() > 0)
}

} // verus!
