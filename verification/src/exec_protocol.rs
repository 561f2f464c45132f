//! The line protocol between the exec applet and its child process.
//!
//! Each line is a command word, whitespace, and a JSON payload. This module
//! holds the protocol's plain data types and the framing rules: how a line
//! splits into command and payload, which commands exist, and how errors read.
//! The JSON payloads themselves are decoded and encoded outside the library.
use vstd::prelude::*;

use crate::text::{
    chars_of, char_is_whitespace, concat_chars, eq_str, is_whitespace, owned, string_of, trim,
    trim_chars, trim_start_ws,
};

verus! {

/// An icon given by theme name or by file path.
#[derive(Debug, Clone)]
pub enum Icon {
    Name { name: String },
    Path { path: String },
}

/// One item the child shows in the panel.
#[derive(Debug, Clone)]
pub struct StatusItem {
    pub id: Option<String>,
    pub icon: Option<Icon>,
    pub label: Option<String>,
    pub tooltip: Option<String>,
}

/// The panel items of a `status` command.
#[derive(Debug, Clone)]
pub struct StatusPayload {
    pub items: Vec<StatusItem>,
}

/// The kind of a user event sent to the child.
#[derive(Debug, Clone, Copy, PartialEq, Eq, Structural)]
pub enum EventKind {
    Click,
    Toggle,
    Change,
    Scroll,
}

/// Where a user event happened.
#[derive(Debug, Clone, Copy, PartialEq, Eq, Structural)]
pub enum EventSource {
    Status,
    Popover,
}

/// A mouse button.
#[derive(Debug, Clone, Copy, PartialEq, Eq, Structural)]
pub enum MouseButton {
    Left,
    Middle,
    Right,
    Other,
}

impl MouseButton {
    /// The button for a GDK button number: 1 left, 2 middle, 3 right.
    pub fn from_number(button: u32) -> (out: Self)
        ensures
            out == (if button == 1 {
                MouseButton::Left
            } else if button == 2 {
                MouseButton::Middle
            } else if button == 3 {
                MouseButton::Right
            } else {
                MouseButton::Other
            }),
    {
        match button {
            1 => Self::Left,
            2 => Self::Middle,
            3 => Self::Right,
            _ => Self::Other,
        }
    }
}

/// The wire name of an event kind.
pub fn event_kind_name(kind: EventKind) -> (out: &'static str)
    ensures
        out@ == (match kind {
            EventKind::Click => "click"@,
            EventKind::Toggle => "toggle"@,
            EventKind::Change => "change"@,
            EventKind::Scroll => "scroll"@,
        }),
{
    match kind {
        EventKind::Click => "click",
        EventKind::Toggle => "toggle",
        EventKind::Change => "change",
        EventKind::Scroll => "scroll",
    }
}

/// The wire name of an event source.
pub fn event_source_name(source: EventSource) -> (out: &'static str)
    ensures
        out@ == (match source {
            EventSource::Status => "status"@,
            EventSource::Popover => "popover"@,
        }),
{
    match source {
        EventSource::Status => "status",
        EventSource::Popover => "popover",
    }
}

/// The wire name of a mouse button.
pub fn mouse_button_name(button: MouseButton) -> (out: &'static str)
    ensures
        out@ == (match button {
            MouseButton::Left => "left"@,
            MouseButton::Middle => "middle"@,
            MouseButton::Right => "right"@,
            MouseButton::Other => "other"@,
        }),
{
    match button {
        MouseButton::Left => "left",
        MouseButton::Middle => "middle",
        MouseButton::Right => "right",
        MouseButton::Other => "other",
    }
}

/// A style variant of a node.
#[derive(Debug, Clone, Copy, PartialEq, Eq, Structural)]
pub enum Variant {
    Normal,
    Muted,
    Accent,
    Success,
    Warning,
    Danger,
}

impl Variant {
    /// The CSS class of a variant; `Normal` has none.
    pub fn class_name(self) -> (out: Option<&'static str>)
        ensures
            self == Variant::Normal ==> out is None,
            self == Variant::Muted ==> (out matches Some(s) && s@ == "is-muted"@),
            self == Variant::Accent ==> (out matches Some(s) && s@ == "is-accent"@),
            self == Variant::Success ==> (out matches Some(s) && s@ == "is-success"@),
            self == Variant::Warning ==> (out matches Some(s) && s@ == "is-warning"@),
            self == Variant::Danger ==> (out matches Some(s) && s@ == "is-danger"@),
    {
        match self {
            Self::Normal => None,
            Self::Muted => Some("is-muted"),
            Self::Accent => Some("is-accent"),
            Self::Success => Some("is-success"),
            Self::Warning => Some("is-warning"),
            Self::Danger => Some("is-danger"),
        }
    }
}

/// Widget alignment.
#[derive(Debug, Clone, Copy, PartialEq, Eq, Structural)]
pub enum AlignValue {
    Fill,
    Start,
    End,
    Center,
    Baseline,
}

/// Layout orientation.
#[derive(Debug, Clone, Copy, PartialEq, Eq, Structural)]
pub enum OrientationValue {
    Horizontal,
    Vertical,
}

/// Properties every node accepts.
#[derive(Debug, Clone)]
pub struct CommonProps {
    pub id: Option<String>,
    pub visible: Option<bool>,
    pub hexpand: Option<bool>,
    pub vexpand: Option<bool>,
    pub halign: Option<AlignValue>,
    pub valign: Option<AlignValue>,
    pub tooltip: Option<String>,
    pub variant: Option<Variant>,
}

impl Default for CommonProps {
    fn default() -> (props: Self)
        ensures
            props.id is None,
            props.visible is None,
            props.hexpand is None,
            props.vexpand is None,
            props.halign is None,
            props.valign is None,
            props.tooltip is None,
            props.variant is None,
    {
        CommonProps {
            id: None,
            visible: None,
            hexpand: None,
            vexpand: None,
            halign: None,
            valign: None,
            tooltip: None,
            variant: None,
        }
    }
}

/// A popover header with title, subtitle and icon.
#[derive(Debug, Clone)]
pub struct HeroNode {
    pub common: CommonProps,
    pub title: String,
    pub subtitle: String,
    pub icon: Option<Icon>,
}

/// A list row.
#[derive(Debug, Clone)]
pub struct RowNode {
    pub common: CommonProps,
    pub title: String,
    pub subtitle: String,
    pub meta: String,
    pub icon: Option<Icon>,
}

/// One entry of an action menu.
#[derive(Debug, Clone)]
pub struct ActionMenuItemNode {
    pub id: String,
    pub label: String,
    pub icon: Option<Icon>,
    pub visible: bool,
    pub checked: Option<bool>,
    pub selectable: Option<bool>,
}

/// A menu of actions.
#[derive(Debug, Clone)]
pub struct ActionMenuNode {
    pub common: CommonProps,
    pub header: Option<String>,
    pub items: Vec<ActionMenuItemNode>,
}

/// A key/value pair of a detail grid.
#[derive(Debug, Clone)]
pub struct DetailGridItem {
    pub key: String,
    pub value: String,
}

/// A grid of key/value pairs.
#[derive(Debug, Clone)]
pub struct DetailGridNode {
    pub common: CommonProps,
    pub rows: Vec<DetailGridItem>,
}

/// A placeholder for an empty view.
#[derive(Debug, Clone)]
pub struct EmptyStateNode {
    pub common: CommonProps,
    pub title: String,
    pub subtitle: String,
}

/// A small label badge.
#[derive(Debug, Clone)]
pub struct BadgeNode {
    pub common: CommonProps,
    pub label: String,
}

/// A coloured status dot.
#[derive(Debug, Clone)]
pub struct StatusDotNode {
    pub common: CommonProps,
}

/// A device status text with an optional busy spinner.
#[derive(Debug, Clone)]
pub struct DeviceStatusNode {
    pub common: CommonProps,
    pub label: String,
    pub busy: bool,
}

/// A themed icon.
#[derive(Debug, Clone)]
pub struct IconNode {
    pub common: CommonProps,
    pub icon: Icon,
    pub pixel_size: Option<i32>,
}

/// An image.
#[derive(Debug, Clone)]
pub struct ImageNode {
    pub common: CommonProps,
    pub icon: Icon,
    pub pixel_size: Option<i32>,
}

/// An on/off switch.
#[derive(Debug, Clone)]
pub struct SwitchNode {
    pub common: CommonProps,
    pub label: Option<String>,
    pub active: bool,
}

/// A check box.
#[derive(Debug, Clone)]
pub struct CheckboxNode {
    pub common: CommonProps,
    pub label: Option<String>,
    pub active: bool,
}

/// One choice of a dropdown.
#[derive(Debug, Clone)]
pub struct DropdownItem {
    pub id: String,
    pub label: String,
}

/// A dropdown.
#[derive(Debug, Clone)]
pub struct DropdownNode {
    pub common: CommonProps,
    pub items: Vec<DropdownItem>,
    pub selected: Option<u32>,
}

/// A separator line.
#[derive(Debug, Clone)]
pub struct SeparatorNode {
    pub common: CommonProps,
    pub orientation: Option<OrientationValue>,
}

/// The default of `visible` for action menu items.
pub fn default_true() -> (out: bool)
    ensures
        out,
{
    true
}

/// The default row and column span of a grid child.
pub fn default_grid_span() -> (out: i32)
    ensures
        out == 1,
{
    1
}

/// Why a child line was rejected.
#[derive(Debug, Clone)]
pub enum ProtocolError {
    MissingCommand,
    MissingPayload { command: String },
    UnknownCommand { command: String },
    InvalidJson { command: String, message: String },
}

/// The message of a protocol error.
pub open spec fn error_text(error: ProtocolError) -> Seq<char> {
    match error {
        ProtocolError::MissingCommand => "missing command"@,
        ProtocolError::MissingPayload { command } => command@ + ": missing JSON payload"@,
        ProtocolError::UnknownCommand { command } => "unknown exec command "@ + command@,
        ProtocolError::InvalidJson { command, message } => command@ + ": invalid JSON payload: "@
            + message@,
    }
}

impl ProtocolError {
    /// The human-readable message of the error.
    pub fn message(&self) -> (out: String)
        ensures
            out@ == error_text(*self),
    {
        match self {
            ProtocolError::MissingCommand => owned("missing command"),
            ProtocolError::MissingPayload { command } => string_of(
                &concat_chars(&chars_of(command.as_str()), &chars_of(": missing JSON payload")),
            ),
            ProtocolError::UnknownCommand { command } => string_of(
                &concat_chars(&chars_of("unknown exec command "), &chars_of(command.as_str())),
            ),
            ProtocolError::InvalidJson { command, message } => string_of(
                &concat_chars(
                    &concat_chars(&chars_of(command.as_str()), &chars_of(": invalid JSON payload: ")),
                    &chars_of(message.as_str()),
                ),
            ),
        }
    }
}

/// The index of the first whitespace character of `s`, if any.
pub open spec fn first_whitespace(s: Seq<char>) -> Option<int>
    decreases s.len(),
{
    if s.len() == 0 {
        None
    } else if is_whitespace(s[0]) {
        Some(0)
    } else {
        match first_whitespace(s.drop_first()) {
            Some(i) => Some(i + 1),
            None => None,
        }
    }
}

/// How a line splits into command and payload: the command runs up to the
/// first whitespace character, the payload is what follows it with leading
/// whitespace removed. An empty command is a missing command; no or an empty
/// payload is a missing payload.
pub open spec fn split_spec(line: Seq<char>) -> Result<(Seq<char>, Seq<char>), ProtocolError> {
    match first_whitespace(line) {
        None => if line.len() == 0 {
            Err(ProtocolError::MissingCommand)
        } else {
            Err(ProtocolError::MissingPayload { command: arbitrary() })
        },
        Some(i) => if i == 0 {
            Err(ProtocolError::MissingCommand)
        } else if trim_start_ws(line.skip(i + 1)).len() == 0 {
            Err(ProtocolError::MissingPayload { command: arbitrary() })
        } else {
            Ok((line.take(i), trim_start_ws(line.skip(i + 1))))
        },
    }
}

/// The command word of a line that has one.
pub open spec fn command_word(line: Seq<char>) -> Seq<char> {
    match first_whitespace(line) {
        None => line,
        Some(i) => line.take(i),
    }
}

/// `a` and `b` are the same kind of error, and a missing payload names
/// the command word of `line`.
pub open spec fn split_error_matches(e: ProtocolError, line: Seq<char>) -> bool {
    match e {
        ProtocolError::MissingCommand => split_spec(line) matches Err(ProtocolError::MissingCommand),
        ProtocolError::MissingPayload { command } => split_spec(line) matches Err(
            ProtocolError::MissingPayload { .. },
        ) && command@ == command_word(line),
        _ => false,
    }
}

proof fn lemma_first_whitespace(s: Seq<char>, i: int)
    requires
        0 <= i <= s.len(),
        forall|j: int| 0 <= j < i ==> !is_whitespace(s[j]),
    ensures
        first_whitespace(s) == (match first_whitespace(s.skip(i)) {
            Some(k) => Some(k + i),
            None => None::<int>,
        }),
    decreases i,
{
    if i > 0 {
        assert(s.skip(1).skip(i - 1) =~= s.skip(i));
        lemma_first_whitespace(s.skip(1), i - 1);
        assert(s.drop_first() =~= s.skip(1));
    } else {
        assert(s.skip(0) =~= s);
    }
}

fn trim_start_chars(v: &Vec<char>, from: usize) -> (out: Vec<char>)
    requires
        from <= v.len(),
    ensures
        out@ == trim_start_ws(v@.skip(from as int)),
{
    let mut lo = from;
    while lo < v.len() && char_is_whitespace(v[lo])
        invariant
            from <= lo <= v.len(),
            trim_start_ws(v@.skip(lo as int)) == trim_start_ws(v@.skip(from as int)),
        decreases v.len() - lo,
    {
        assert(v@.skip(lo as int).drop_first() =~= v@.skip(lo + 1));
        lo += 1;
    }
    let mut out: Vec<char> = Vec::new();
    let mut i = lo;
    while i < v.len()
        invariant
            lo <= i <= v.len(),
            out@ == v@.subrange(lo as int, i as int),
        decreases v.len() - i,
    {
        out.push(v[i]);
        assert(v@.subrange(lo as int, i + 1) =~= v@.subrange(lo as int, i as int).push(v@[i as int]));
        i += 1;
    }
    assert(out@ =~= v@.skip(lo as int));
    assert(lo < v.len() ==> !is_whitespace(v@.skip(lo as int)[0]));
    out
}

/// Splits a line into its command word and its payload.
pub fn split_line(line: &str) -> (out: Result<(String, String), ProtocolError>)
    ensures
        match out {
            Ok((command, payload)) => split_spec(line@) == Ok::<(Seq<char>, Seq<char>), ProtocolError>((command@, payload@)),
            Err(e) => split_error_matches(e, line@),
        },
{
    let chars = chars_of(line);
    let mut i: usize = 0;
    while i < chars.len() && !char_is_whitespace(chars[i])
        invariant
            i <= chars.len(),
            forall|j: int| 0 <= j < i ==> !is_whitespace(chars@[j]),
        decreases chars.len() - i,
    {
        i += 1;
    }
    proof {
        lemma_first_whitespace(chars@, i as int);
        if i < chars.len() {
            assert(first_whitespace(chars@.skip(i as int)) == Some(0int));
        } else {
            assert(chars@.skip(i as int).len() == 0);
        }
    }
    let mut command: Vec<char> = Vec::new();
    let mut k: usize = 0;
    while k < i
        invariant
            k <= i <= chars.len(),
            command@ == chars@.take(k as int),
        decreases i - k,
    {
        command.push(chars[k]);
        assert(chars@.take(k + 1) =~= chars@.take(k as int).push(chars@[k as int]));
        k += 1;
    }
    if i == 0 {
        return Err(ProtocolError::MissingCommand);
    }
    if i == chars.len() {
        assert(chars@.take(i as int) =~= chars@);
        return Err(ProtocolError::MissingPayload { command: string_of(&command) });
    }
    let payload = trim_start_chars(&chars, i + 1);
    if payload.len() == 0 {
        return Err(ProtocolError::MissingPayload { command: string_of(&command) });
    }
    Ok((string_of(&command), string_of(&payload)))
}

/// The commands a child may send.
#[derive(Debug, Clone, Copy, PartialEq, Eq, Structural)]
pub enum ChildCommandKind {
    Status,
    Popover,
}

/// A child line, framed: which command it is and its (still encoded) payload.
#[derive(Debug, Clone)]
pub struct ChildFrame {
    pub kind: ChildCommandKind,
    pub payload: String,
}

/// How a child line is framed: trimmed, split, and its command recognised.
pub open spec fn frame_spec(line: Seq<char>) -> Result<(ChildCommandKind, Seq<char>), ProtocolError> {
    let t = trim(line);
    if t.len() == 0 {
        Err(ProtocolError::MissingCommand)
    } else {
        match split_spec(t) {
            Ok((command, payload)) => if command == "status"@ {
                Ok((ChildCommandKind::Status, payload))
            } else if command == "popover"@ {
                Ok((ChildCommandKind::Popover, payload))
            } else {
                Err(ProtocolError::UnknownCommand { command: arbitrary() })
            },
            Err(e) => Err(e),
        }
    }
}

/// `e` is the error framing `line` gives: of the same kind, and naming the
/// command word where there is one.
pub open spec fn frame_error_matches(e: ProtocolError, line: Seq<char>) -> bool {
    match e {
        ProtocolError::MissingCommand => frame_spec(line) matches Err(ProtocolError::MissingCommand),
        ProtocolError::MissingPayload { command } => frame_spec(line) matches Err(
            ProtocolError::MissingPayload { .. },
        ) && command@ == command_word(trim(line)),
        ProtocolError::UnknownCommand { command } => frame_spec(line) matches Err(
            ProtocolError::UnknownCommand { .. },
        ) && command@ == command_word(trim(line)),
        ProtocolError::InvalidJson { .. } => false,
    }
}

/// Frames one line from the child: `status` and `popover` with a payload are
/// accepted; anything else is a missing command, a missing payload, or an
/// unknown command, each naming the command word where there is one.
pub fn parse_child_frame(line: &str) -> (out: Result<ChildFrame, ProtocolError>)
    ensures
        match out {
            Ok(frame) => frame_spec(line@) == Ok::<(ChildCommandKind, Seq<char>), ProtocolError>((frame.kind, frame.payload@)),
            Err(e) => frame_error_matches(e, line@),
        },
{
    let trimmed = string_of(&trim_chars(&chars_of(line)));
    if trimmed.as_str().is_empty() {
        return Err(ProtocolError::MissingCommand);
    }
    match split_line(trimmed.as_str()) {
        Ok((command, payload)) => {
            if eq_str(command.as_str(), "status") {
                Ok(ChildFrame { kind: ChildCommandKind::Status, payload })
            } else if eq_str(command.as_str(), "popover") {
                Ok(ChildFrame { kind: ChildCommandKind::Popover, payload })
            } else {
                proof {
                    let t = trim(line@);
                    assert(first_whitespace(t) matches Some(i) && command@ == t.take(i));
                }
                Err(ProtocolError::UnknownCommand { command })
            }
        },
        Err(e) => Err(e),
    }
}

/// The line sent to the child for a command and its encoded payload.
pub fn frame_panel_line(name: &str, payload: &str) -> (out: String)
    ensures
        out@ == name@ + " "@ + payload@,
{
    string_of(&concat_chars(&concat_chars(&chars_of(name), &chars_of(" ")), &chars_of(payload)))
}

} // verus!
