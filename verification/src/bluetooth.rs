//! Bluetooth applet: the service state model and the panel texts derived from it.
use vstd::prelude::*;

use crate::health::{ServiceHealth, health_word};
use crate::text::{
    chars_of, decimal, decimal_chars, owned, replace_all, replace_str, string_of, trim, trim_chars,
};

verus! {

pub type BluetoothServiceHealth = ServiceHealth;

/// The operation the Bluetooth service is currently carrying out.
#[derive(Debug, Clone)]
pub enum BluetoothActiveAction {
    SetPowered(bool),
    SetAdapterPowered { adapter: String, powered: bool },
    SetAdapterDiscoverable { adapter: String, discoverable: bool },
    Connect { address: String },
    Disconnect { address: String },
    Pair { address: String },
    Trust { address: String, trusted: bool },
    Forget { address: String },
}

/// Adapter-wide Bluetooth status.
#[derive(Debug, Clone)]
pub struct BluetoothStatus {
    pub powered: bool,
    pub discovering: bool,
    pub connected_count: u32,
}

impl Default for BluetoothStatus {
    fn default() -> (status: Self)
        ensures
            !status.powered,
            !status.discovering,
            status.connected_count == 0,
    {
        BluetoothStatus { powered: false, discovering: false, connected_count: 0 }
    }
}

/// A Bluetooth device as the service reports it. `icon` and `type_label` are
/// what the device's kind shows: its icon in the current connection state and
/// its name, empty for an unknown kind.
#[derive(Debug, Clone, PartialEq, Eq)]
pub struct BluetoothDevice {
    pub path: String,
    pub address: String,
    pub alias: String,
    pub name: String,
    pub icon: String,
    pub type_label: String,
    pub paired: bool,
    pub connected: bool,
    pub trusted: bool,
    /// Battery charge in percent, when the device reports one.
    pub battery: Option<u8>,
    /// Received signal strength, when the device is in range.
    pub rssi: Option<i16>,
    pub class: u32,
    pub appearance: u16,
    pub adapter: String,
}

/// A snapshot of the Bluetooth service.
#[derive(Debug, Clone)]
pub struct BluetoothSnapshot {
    pub status: BluetoothStatus,
    pub devices: Vec<BluetoothDevice>,
}

impl Default for BluetoothSnapshot {
    fn default() -> (snapshot: Self)
        ensures
            !snapshot.status.powered,
            !snapshot.status.discovering,
            snapshot.status.connected_count == 0,
            snapshot.devices@.len() == 0,
    {
        BluetoothSnapshot { status: BluetoothStatus::default(), devices: Vec::new() }
    }
}

/// A request to the Bluetooth service.
#[derive(Debug, Clone, PartialEq, Eq)]
pub enum Command {
    SetPowered(bool),
    SetAdapterPowered { adapter: String, powered: bool },
    SetAdapterDiscoverable { adapter: String, discoverable: bool },
    Connect { address: String },
    Disconnect { address: String },
    Pair { address: String },
    Trust { address: String, trusted: bool },
    Forget { address: String },
}

/// What the Bluetooth applet renders from.
#[derive(Debug, Clone)]
pub struct State {
    pub health: BluetoothServiceHealth,
    pub snapshot: BluetoothSnapshot,
    pub active_action: Option<BluetoothActiveAction>,
}

impl Default for State {
    fn default() -> (state: Self)
        ensures
            state.health is Starting,
            !state.snapshot.status.powered,
            !state.snapshot.status.discovering,
            state.snapshot.status.connected_count == 0,
            state.snapshot.devices@.len() == 0,
            state.active_action is None,
    {
        State {
            health: ServiceHealth::Starting,
            snapshot: BluetoothSnapshot::default(),
            active_action: None,
        }
    }
}

pub const DEFAULT_LABEL_FORMAT: &'static str = "";

pub const DEFAULT_TOOLTIP_FORMAT: &'static str = "{devices} connected devices";

/// The lower-case word for the service's current operation.
pub open spec fn action_word(action: BluetoothActiveAction) -> Seq<char> {
    match action {
        BluetoothActiveAction::SetPowered(on) => if on { "turning on"@ } else { "turning off"@ },
        BluetoothActiveAction::SetAdapterPowered { powered, .. } => if powered {
            "turning on"@
        } else {
            "turning off"@
        },
        BluetoothActiveAction::SetAdapterDiscoverable { discoverable, .. } => if discoverable {
            "discoverable"@
        } else {
            "hidden"@
        },
        BluetoothActiveAction::Connect { .. } => "connecting"@,
        BluetoothActiveAction::Disconnect { .. } => "disconnecting"@,
        BluetoothActiveAction::Pair { .. } => "pairing"@,
        BluetoothActiveAction::Trust { trusted, .. } => if trusted {
            "trusting"@
        } else {
            "untrusting"@
        },
        BluetoothActiveAction::Forget { .. } => "forgetting"@,
    }
}

/// The lower-case state word: health first, then the running operation, then
/// power, discovery and connections.
pub open spec fn state_word(state: State) -> Seq<char> {
    match health_word(state.health) {
        Some(word) => word,
        None => match state.active_action {
            Some(action) => action_word(action),
            None => if !state.snapshot.status.powered {
                "off"@
            } else if state.snapshot.status.discovering {
                "discovering"@
            } else if state.snapshot.status.connected_count > 0 {
                "connected"@
            } else {
                "ready"@
            },
        },
    }
}

/// A Bluetooth template with `{devices}` and `{state}` filled in, trimmed.
pub open spec fn render_text(template: Seq<char>, state: State) -> Seq<char> {
    if template.len() == 0 {
        Seq::empty()
    } else {
        trim(
            replace_all(
                replace_all(
                    template,
                    "{devices}"@,
                    decimal(state.snapshot.status.connected_count as nat),
                ),
                "{state}"@,
                state_word(state),
            ),
        )
    }
}

/// The panel label for a template.
pub fn label(template: &str, state: &State) -> (out: String)
    ensures
        out@ == render_text(template@, *state),
{
    render(template, state)
}

/// The tooltip for a template; an empty template gives an empty tooltip.
pub fn tooltip(template: &str, state: &State) -> (out: String)
    ensures
        out@ == render_text(template@, *state),
{
    if template.is_empty() {
        return String::new();
    }
    render(template, state)
}

/// Fills in `{devices}` (connected devices) and `{state}`, then trims.
pub fn render(template: &str, state: &State) -> (out: String)
    ensures
        out@ == render_text(template@, *state),
{
    if template.is_empty() {
        return String::new();
    }
    proof {
        reveal_strlit("{devices}");
        reveal_strlit("{state}");
    }
    let t = chars_of(template);
    let count = decimal_chars(state.snapshot.status.connected_count as u64);
    let step1 = replace_str(&t, "{devices}", &count);
    let word = chars_of(state_text(state).as_str());
    let step2 = replace_str(&step1, "{state}", &word);
    string_of(&trim_chars(&step2))
}

/// The lower-case state word shown for `{state}`.
pub fn state_text(state: &State) -> (out: String)
    ensures
        out@ == state_word(*state),
{
    match &state.health {
        ServiceHealth::Starting => return owned("starting"),
        ServiceHealth::Reconnecting { .. } => return owned("reconnecting"),
        ServiceHealth::Degraded { message } => return message.clone(),
        ServiceHealth::Ready => {},
    }
    if let Some(action) = active_action_text(state.active_action.as_ref()) {
        return owned(action);
    }
    let status = &state.snapshot.status;
    if !status.powered {
        owned("off")
    } else if status.discovering {
        owned("discovering")
    } else if status.connected_count > 0 {
        owned("connected")
    } else {
        owned("ready")
    }
}

/// The word for the operation in progress, if any.
pub fn active_action_text(action: Option<&BluetoothActiveAction>) -> (out: Option<&'static str>)
    ensures
        action is None ==> out is None,
        action matches Some(a) ==> out matches Some(s) && s@ == action_word(*a),
{
    let action = match action {
        Some(action) => action,
        None => return None,
    };
    match action {
        BluetoothActiveAction::SetPowered(on) => if *on {
            Some("turning on")
        } else {
            Some("turning off")
        },
        BluetoothActiveAction::SetAdapterPowered { powered, .. } => if *powered {
            Some("turning on")
        } else {
            Some("turning off")
        },
        BluetoothActiveAction::SetAdapterDiscoverable { discoverable, .. } => if *discoverable {
            Some("discoverable")
        } else {
            Some("hidden")
        },
        BluetoothActiveAction::Connect { .. } => Some("connecting"),
        BluetoothActiveAction::Disconnect { .. } => Some("disconnecting"),
        BluetoothActiveAction::Pair { .. } => Some("pairing"),
        BluetoothActiveAction::Trust { trusted, .. } => if *trusted {
            Some("trusting")
        } else {
            Some("untrusting")
        },
        BluetoothActiveAction::Forget { .. } => Some("forgetting"),
    }
}

} // verus!
