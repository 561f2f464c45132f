//! The command applet: a button with an icon or a label that runs a command,
//! with an optional menu of further commands, and how it reports the output
//! of what it ran.
use vstd::prelude::*;

use crate::text::{
    chars_of, concat_chars, contains_char, from_utf8_lossy, string_of, trim_end_chars, trim_end_ws,
    utf8_lossy,
};

verus! {

/// The most bytes of a command's output that are reported.
pub const MAX_LOG_OUTPUT_BYTES: usize = 16384;

/// One entry of the applet's menu.
#[derive(Debug, Clone, PartialEq, Eq)]
pub struct MenuItemConfig {
    pub label: String,
    pub command: Vec<String>,
}

/// The applet's settings.
#[derive(Debug, Clone, PartialEq, Eq)]
pub struct Config {
    /// An icon name, or a path to an image when it holds a slash.
    pub icon: Option<String>,
    pub label: Option<String>,
    pub tooltip: Option<String>,
    /// The program and its arguments.
    pub command: Vec<String>,
    pub menu: Vec<MenuItemConfig>,
}

impl Default for Config {
    fn default() -> (c: Self)
        ensures
            c.icon is None,
            c.label is None,
            c.tooltip is None,
            c.command@.len() == 0,
            c.menu@.len() == 0,
    {
        Config { icon: None, label: None, tooltip: None, command: Vec::new(), menu: Vec::new() }
    }
}

/// What the applet shows.
#[derive(Debug, Clone, PartialEq, Eq)]
pub struct CommandView {
    pub visible: bool,
    pub has_named_icon: bool,
    pub icon_name: Option<String>,
    pub has_path_icon: bool,
    pub icon_path: Option<String>,
    pub has_label: bool,
    pub label: String,
    pub tooltip: Option<String>,
}

/// Whether an icon setting is a path: it holds a slash (which covers the
/// absolute and the `./` and `../` forms).
pub open spec fn icon_is_path(icon: Seq<char>) -> bool {
    icon.contains('/')
}

/// The configured icon, unless empty.
pub open spec fn icon_setting(config: Config) -> Option<Seq<char>> {
    match config.icon {
        Some(i) => if i@.len() > 0 {
            Some(i@)
        } else {
            None
        },
        None => None,
    }
}

/// `view` is what the applet shows for `config`: the icon as a name or a
/// path, the label unless empty, the tooltip unless empty; visible when it
/// has an icon or a label.
pub open spec fn is_view_of(view: CommandView, config: Config) -> bool {
    let label = match config.label {
        Some(l) => l@,
        None => Seq::empty(),
    };
    let icon = icon_setting(config);
    let named = icon is Some && !icon_is_path(icon->0);
    let path = icon is Some && icon_is_path(icon->0);
    &&& view.has_named_icon == named
    &&& (if named {
        view.icon_name is Some && view.icon_name->0@ == icon->0
    } else {
        view.icon_name is None
    })
    &&& view.has_path_icon == path
    &&& (if path {
        view.icon_path is Some && view.icon_path->0@ == icon->0
    } else {
        view.icon_path is None
    })
    &&& view.label@ == label
    &&& view.has_label == (label.len() > 0)
    &&& view.visible == (icon is Some || label.len() > 0)
    &&& (match config.tooltip {
        Some(t) => if t@.len() > 0 {
            view.tooltip == Some(t)
        } else {
            view.tooltip is None
        },
        None => view.tooltip is None,
    })
}

/// Whether an icon setting is a path to an image.
pub fn is_icon_path(icon: &str) -> (out: bool)
    ensures
        out == icon_is_path(icon@),
{
    contains_char(&chars_of(icon), '/')
}

/// What the applet shows for a configuration.
pub fn view_from_config(config: &Config) -> (view: CommandView)
    ensures
        is_view_of(view, *config),
{
    let label = match &config.label {
        Some(l) => l.clone(),
        None => String::new(),
    };
    let icon: Option<&String> = match &config.icon {
        Some(i) => if i.as_str().is_empty() {
            None
        } else {
            Some(i)
        },
        None => None,
    };
    let (icon_name, icon_path) = match icon {
        Some(i) => if is_icon_path(i.as_str()) {
            (None, Some(i.clone()))
        } else {
            (Some(i.clone()), None)
        },
        None => (None, None),
    };
    let has_icon = icon_name.is_some() || icon_path.is_some();
    let has_label = !label.as_str().is_empty();
    let tooltip = match &config.tooltip {
        Some(t) => if t.as_str().is_empty() {
            None
        } else {
            Some(t.clone())
        },
        None => None,
    };
    CommandView {
        visible: has_icon || has_label,
        has_named_icon: icon_name.is_some(),
        icon_name,
        has_path_icon: icon_path.is_some(),
        icon_path,
        has_label,
        label,
        tooltip,
    }
}

/// Whether the applet has anything to show, and so is created at all.
pub fn can_launch(config: &Config) -> (out: bool)
    ensures
        out == (icon_setting(*config) is Some || (config.label is Some && config.label->0@.len() > 0)),
{
    view_from_config(config).visible
}

/// Whether a menu entry can be offered: it has a label and a command.
pub open spec fn menu_entry_usable(item: MenuItemConfig) -> bool {
    item.label@.len() > 0 && item.command@.len() > 0
}

/// Whether the menu has an entry worth showing.
pub fn has_visible_menu_items(menu: &[MenuItemConfig]) -> (out: bool)
    ensures
        out == exists|i: int| 0 <= i < menu@.len() && menu_entry_usable(#[trigger] menu@[i]),
{
    let mut i: usize = 0;
    while i < menu.len()
        invariant
            i <= menu.len(),
            forall|j: int| 0 <= j < i ==> !menu_entry_usable(#[trigger] menu@[j]),
        decreases menu.len() - i,
    {
        if !menu[i].label.as_str().is_empty() && menu[i].command.len() > 0 {
            assert(menu_entry_usable(menu@[i as int]));
            return true;
        }
        i += 1;
    }
    false
}

/// How a command's output is reported: at most `MAX_LOG_OUTPUT_BYTES` bytes,
/// decoded leniently, without trailing whitespace, marked when cut short.
pub open spec fn log_text(bytes: Seq<u8>) -> Seq<char> {
    let truncated = bytes.len() > MAX_LOG_OUTPUT_BYTES;
    let kept = if truncated {
        bytes.take(MAX_LOG_OUTPUT_BYTES as int)
    } else {
        bytes
    };
    trim_end_ws(utf8_lossy(kept)) + if truncated {
        "\n... truncated"@
    } else {
        Seq::empty()
    }
}

/// The first `n` bytes of `bytes`.
fn byte_prefix(bytes: &[u8], n: usize) -> (out: Vec<u8>)
    requires
        n <= bytes.len(),
    ensures
        out@ == bytes@.take(n as int),
{
    let mut out: Vec<u8> = Vec::new();
    let mut i: usize = 0;
    while i < n
        invariant
            i <= n,
            n <= bytes.len(),
            out@ == bytes@.take(i as int),
        decreases n - i,
    {
        out.push(bytes[i]);
        assert(bytes@.take(i + 1) =~= bytes@.take(i as int).push(bytes@[i as int]));
        i += 1;
    }
    out
}

/// How a command's output is reported.
pub fn log_output_text(bytes: &[u8]) -> (out: String)
    ensures
        out@ == log_text(bytes@),
{
    let truncated = bytes.len() > MAX_LOG_OUTPUT_BYTES;
    let text = if truncated {
        let kept = byte_prefix(bytes, MAX_LOG_OUTPUT_BYTES);
        from_utf8_lossy(kept.as_slice())
    } else {
        from_utf8_lossy(bytes)
    };
    let trimmed = trim_end_chars(&chars_of(text.as_str()));
    if truncated {
        string_of(&concat_chars(&trimmed, &chars_of("\n... truncated")))
    } else {
        string_of(&trimmed)
    }
}

} // verus!
