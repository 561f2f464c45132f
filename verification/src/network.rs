//! Network applet: the NetworkManager state model and the texts derived from it.
use vstd::prelude::*;

use crate::health::{ServiceHealth, health_title, health_word};
use crate::network_agent::{NetworkPrompt, NetworkPromptId, NetworkPromptReply};
use crate::text::{
    chars_of, concat_chars, decimal, decimal_chars, eq_str, owned, replace_all, replace_str,
    string_of, trim, trim_chars,
};

verus! {

pub type NetworkServiceHealth = ServiceHealth;

/// The operation NetworkManager is currently carrying out for the panel.
#[derive(Debug, Clone)]
pub enum NetworkActiveAction {
    SetWifiEnabled(bool),
    ConnectWifi { ssid: String, path: String },
    ConnectSaved { uuid: String },
    Disconnect { uuid: String },
    Forget { uuid: String },
}

/// Global networking status.
#[derive(Debug, Clone)]
pub struct NetworkStatus {
    pub enabled: bool,
    pub wifi_enabled: bool,
    pub wifi_hw_enabled: bool,
    pub primary_connection: String,
    pub primary_type: String,
    /// Link speed in Mbit/s, 0 when unknown.
    pub speed: u32,
    /// The icon NetworkManager's state maps to, empty when there is none.
    pub icon: String,
}

impl Default for NetworkStatus {
    fn default() -> (status: Self)
        ensures
            !status.enabled,
            !status.wifi_enabled,
            !status.wifi_hw_enabled,
            status.primary_connection@ == Seq::<char>::empty(),
            status.primary_type@ == Seq::<char>::empty(),
            status.speed == 0,
            status.icon@ == Seq::<char>::empty(),
    {
        NetworkStatus {
            enabled: false,
            wifi_enabled: false,
            wifi_hw_enabled: false,
            primary_connection: String::new(),
            primary_type: String::new(),
            speed: 0,
            icon: String::new(),
        }
    }
}

/// A Wi-Fi access point in range.
#[derive(Debug, Clone)]
pub struct WifiAccessPoint {
    pub path: String,
    pub ssid: String,
    pub strength: u8,
    pub security: String,
    pub connected: bool,
    pub saved: bool,
    /// The saved connection profile for this network, if any.
    pub uuid: Option<String>,
    /// Radio frequency in MHz, 0 when unknown.
    pub frequency: u32,
}

impl Default for WifiAccessPoint {
    fn default() -> (ap: Self)
        ensures
            ap.path@ == Seq::<char>::empty(),
            ap.ssid@ == Seq::<char>::empty(),
            ap.strength == 0,
            ap.security@ == Seq::<char>::empty(),
            !ap.connected,
            !ap.saved,
            ap.uuid is None,
            ap.frequency == 0,
    {
        WifiAccessPoint {
            path: String::new(),
            ssid: String::new(),
            strength: 0,
            security: String::new(),
            connected: false,
            saved: false,
            uuid: None,
            frequency: 0,
        }
    }
}

/// A saved connection profile.
#[derive(Debug, Clone)]
pub struct SavedConnection {
    pub id: String,
    pub uuid: String,
}

/// A saved VPN profile.
#[derive(Debug, Clone)]
pub struct SavedVpn {
    pub id: String,
    pub uuid: String,
    pub active: bool,
}

/// A snapshot of NetworkManager.
#[derive(Debug, Clone)]
pub struct NetworkSnapshot {
    pub status: NetworkStatus,
    pub wifi_access_points: Vec<WifiAccessPoint>,
    pub connections: Vec<SavedConnection>,
    pub saved_vpns: Vec<SavedVpn>,
}

impl Default for NetworkSnapshot {
    fn default() -> (snapshot: Self)
        ensures
            !snapshot.status.enabled,
            snapshot.wifi_access_points@.len() == 0,
            snapshot.connections@.len() == 0,
            snapshot.saved_vpns@.len() == 0,
    {
        NetworkSnapshot {
            status: NetworkStatus::default(),
            wifi_access_points: Vec::new(),
            connections: Vec::new(),
            saved_vpns: Vec::new(),
        }
    }
}

/// What the network applet renders from.
#[derive(Debug, Clone)]
pub struct State {
    pub health: NetworkServiceHealth,
    pub snapshot: NetworkSnapshot,
    pub active_action: Option<NetworkActiveAction>,
    pub scanning: bool,
    pub prompt: Option<NetworkPrompt>,
}

impl Default for State {
    fn default() -> (state: Self)
        ensures
            state.health is Starting,
            !state.snapshot.status.enabled,
            state.snapshot.wifi_access_points@.len() == 0,
            state.snapshot.connections@.len() == 0,
            state.snapshot.saved_vpns@.len() == 0,
            state.active_action is None,
            !state.scanning,
            state.prompt is None,
    {
        State {
            health: ServiceHealth::Starting,
            snapshot: NetworkSnapshot::default(),
            active_action: None,
            scanning: false,
            prompt: None,
        }
    }
}

/// A request to the network service.
#[derive(Debug, Clone, PartialEq, Eq)]
pub enum Command {
    SetWifiEnabled(bool),
    StartScanning { interval_secs: u64 },
    StopScanning,
    RequestScan,
    ConnectWifi { ssid: String, path: String },
    ConnectSaved { uuid: String },
    Disconnect { uuid: String },
    Forget { uuid: String },
    PromptReply { id: NetworkPromptId, reply: NetworkPromptReply },
}

/// A network interface as NetworkManager reports it.
#[derive(Debug, Clone, PartialEq, Eq)]
pub struct NetworkDevice {
    pub path: String,
    pub interface: String,
    pub device_type: String,
    pub state: String,
    /// Link speed in Mbit/s, 0 when unknown.
    pub speed: u32,
    pub carrier: Option<bool>,
    pub driver: Option<String>,
}

impl Default for NetworkDevice {
    fn default() -> (device: Self)
        ensures
            device.path@ == Seq::<char>::empty(),
            device.interface@ == Seq::<char>::empty(),
            device.device_type@ == Seq::<char>::empty(),
            device.state@ == Seq::<char>::empty(),
            device.speed == 0,
            device.carrier is None,
            device.driver is None,
    {
        NetworkDevice {
            path: String::new(),
            interface: String::new(),
            device_type: String::new(),
            state: String::new(),
            speed: 0,
            carrier: None,
            driver: None,
        }
    }
}

pub const DEFAULT_LABEL_FORMAT: &'static str = "";

pub const DEFAULT_TOOLTIP_FORMAT: &'static str = "{state}";

/// The lower-case word for the operation in progress.
pub open spec fn action_word(action: NetworkActiveAction) -> Seq<char> {
    match action {
        NetworkActiveAction::SetWifiEnabled(on) => if on {
            "turning wifi on"@
        } else {
            "turning wifi off"@
        },
        NetworkActiveAction::ConnectWifi { .. } | NetworkActiveAction::ConnectSaved { .. } => "connecting"@,
        NetworkActiveAction::Disconnect { .. } => "disconnecting"@,
        NetworkActiveAction::Forget { .. } => "forgetting"@,
    }
}

/// The lower-case state word: health, then the operation, then the radio and
/// connection status.
pub open spec fn state_word(state: State) -> Seq<char> {
    match health_word(state.health) {
        Some(word) => word,
        None => match state.active_action {
            Some(action) => action_word(action),
            None => {
                let status = state.snapshot.status;
                if !status.enabled {
                    "off"@
                } else if !status.wifi_hw_enabled {
                    "wifi unavailable"@
                } else if !status.wifi_enabled {
                    "wifi off"@
                } else if status.primary_connection@.len() > 0 {
                    "connected"@
                } else if state.scanning {
                    "scanning"@
                } else {
                    "disconnected"@
                }
            },
        },
    }
}

/// The icon name for a Wi-Fi signal strength in percent.
pub open spec fn wifi_icon_name(strength: u8) -> Seq<char> {
    if 75 <= strength && strength <= 100 {
        "network-wireless-signal-excellent-symbolic"@
    } else if 50 <= strength && strength <= 74 {
        "network-wireless-signal-good-symbolic"@
    } else if 25 <= strength && strength <= 49 {
        "network-wireless-signal-ok-symbolic"@
    } else if 1 <= strength && strength <= 24 {
        "network-wireless-signal-weak-symbolic"@
    } else {
        "network-wireless-signal-none-symbolic"@
    }
}

/// The first saved connection with this UUID.
pub open spec fn find_connection(s: Seq<SavedConnection>, uuid: Seq<char>) -> Option<SavedConnection>
    decreases s.len(),
{
    if s.len() == 0 {
        None
    } else if s[0].uuid@ == uuid {
        Some(s[0])
    } else {
        find_connection(s.drop_first(), uuid)
    }
}

/// The first saved VPN with this UUID.
pub open spec fn find_vpn(s: Seq<SavedVpn>, uuid: Seq<char>) -> Option<SavedVpn>
    decreases s.len(),
{
    if s.len() == 0 {
        None
    } else if s[0].uuid@ == uuid {
        Some(s[0])
    } else {
        find_vpn(s.drop_first(), uuid)
    }
}

/// The first access point whose saved profile has this UUID.
pub open spec fn find_access_point(s: Seq<WifiAccessPoint>, uuid: Seq<char>) -> Option<WifiAccessPoint>
    decreases s.len(),
{
    if s.len() == 0 {
        None
    } else if s[0].uuid matches Some(u) && u@ == uuid {
        Some(s[0])
    } else {
        find_access_point(s.drop_first(), uuid)
    }
}

/// The human name of a profile: a saved connection's id, else a VPN's id, else
/// the SSID of an access point using it, else the UUID itself.
pub open spec fn connection_name_text(snapshot: NetworkSnapshot, uuid: Seq<char>) -> Seq<char> {
    match find_connection(snapshot.connections@, uuid) {
        Some(c) => c.id@,
        None => match find_vpn(snapshot.saved_vpns@, uuid) {
            Some(v) => v.id@,
            None => match find_access_point(snapshot.wifi_access_points@, uuid) {
                Some(ap) => ap.ssid@,
                None => uuid,
            },
        },
    }
}

/// The title-case description of the operation in progress.
pub open spec fn action_title(state: State) -> Option<Seq<char>> {
    match state.active_action {
        None => None,
        Some(action) => Some(
            match action {
                NetworkActiveAction::SetWifiEnabled(on) => if on {
                    "Turning Wi-Fi on"@
                } else {
                    "Turning Wi-Fi off"@
                },
                NetworkActiveAction::ConnectWifi { ssid, .. } => "Connecting to "@ + ssid@,
                NetworkActiveAction::ConnectSaved { uuid } => "Connecting to "@
                    + connection_name_text(state.snapshot, uuid@),
                NetworkActiveAction::Disconnect { uuid } => "Disconnecting "@
                    + connection_name_text(state.snapshot, uuid@),
                NetworkActiveAction::Forget { uuid } => "Forgetting "@ + connection_name_text(
                    state.snapshot,
                    uuid@,
                ),
            },
        ),
    }
}

/// The popover's hero subtitle: health, a pending password prompt, the
/// operation in progress, then the radio and connection status.
pub open spec fn hero_subtitle_text(state: State) -> Seq<char> {
    match health_title(state.health) {
        Some(title) => title,
        None => match state.prompt {
            Some(prompt) => "Password required for "@ + prompt.ssid@,
            None => match action_title(state) {
                Some(title) => title,
                None => {
                    let status = state.snapshot.status;
                    if !status.enabled {
                        "Off"@
                    } else if !status.wifi_hw_enabled {
                        "Wi-Fi unavailable"@
                    } else if !status.wifi_enabled {
                        "Wi-Fi off"@
                    } else if state.scanning {
                        "Scanning"@
                    } else if status.primary_connection@.len() > 0 {
                        "Connected to "@ + status.primary_connection@
                    } else {
                        "Not connected"@
                    }
                },
            },
        },
    }
}

/// `"{speed} Mbps"`, or nothing for an unknown speed.
pub open spec fn speed_words(speed: u32) -> Seq<char> {
    if speed == 0 {
        Seq::empty()
    } else {
        decimal(speed as nat) + " Mbps"@
    }
}

/// A network template with its placeholders filled in, trimmed.
pub open spec fn render_text(template: Seq<char>, state: State) -> Seq<char> {
    if template.len() == 0 {
        Seq::empty()
    } else {
        let snapshot = state.snapshot;
        let aps = decimal(snapshot.wifi_access_points@.len());
        trim(
            replace_all(
                replace_all(
                    replace_all(
                        replace_all(
                            replace_all(
                                replace_all(
                                    replace_all(
                                        replace_all(template, "{state}"@, state_word(state)),
                                        "{network}"@,
                                        snapshot.status.primary_connection@,
                                    ),
                                    "{type}"@,
                                    snapshot.status.primary_type@,
                                ),
                                "{wifi}"@,
                                aps,
                            ),
                            "{access_points}"@,
                            aps,
                        ),
                        "{connections}"@,
                        decimal(snapshot.connections@.len()),
                    ),
                    "{vpns}"@,
                    decimal(snapshot.saved_vpns@.len()),
                ),
                "{speed}"@,
                speed_words(snapshot.status.speed),
            ),
        )
    }
}

/// The panel label for a template.
pub fn label(template: &str, state: &State) -> (out: String)
    ensures
        out@ == render_text(template@, *state),
{
    render(template, state)
}

/// The tooltip for a template; an empty template gives an empty tooltip.
pub fn tooltip(template: &str, state: &State) -> (out: String)
    ensures
        out@ == render_text(template@, *state),
{
    if template.is_empty() {
        return String::new();
    }
    render(template, state)
}

/// The lower-case state word shown for `{state}`.
pub fn state_text(state: &State) -> (out: String)
    ensures
        out@ == state_word(*state),
{
    match &state.health {
        ServiceHealth::Starting => return owned("starting"),
        ServiceHealth::Reconnecting { .. } => return owned("reconnecting"),
        ServiceHealth::Degraded { message } => return message.clone(),
        ServiceHealth::Ready => {},
    }
    if let Some(action) = active_action_text(state.active_action.as_ref()) {
        return owned(action);
    }
    let status = &state.snapshot.status;
    if !status.enabled {
        owned("off")
    } else if !status.wifi_hw_enabled {
        owned("wifi unavailable")
    } else if !status.wifi_enabled {
        owned("wifi off")
    } else if !status.primary_connection.as_str().is_empty() {
        owned("connected")
    } else if state.scanning {
        owned("scanning")
    } else {
        owned("disconnected")
    }
}

/// The icon for a Wi-Fi signal strength in percent.
pub fn wifi_icon(strength: u8) -> (out: &'static str)
    ensures
        out@ == wifi_icon_name(strength),
{
    if 75 <= strength && strength <= 100 {
        "network-wireless-signal-excellent-symbolic"
    } else if 50 <= strength && strength <= 74 {
        "network-wireless-signal-good-symbolic"
    } else if 25 <= strength && strength <= 49 {
        "network-wireless-signal-ok-symbolic"
    } else if 1 <= strength && strength <= 24 {
        "network-wireless-signal-weak-symbolic"
    } else {
        "network-wireless-signal-none-symbolic"
    }
}

/// The popover's hero subtitle.
pub fn hero_subtitle(state: &State) -> (out: String)
    ensures
        out@ == hero_subtitle_text(*state),
{
    match &state.health {
        ServiceHealth::Starting => return owned("Starting"),
        ServiceHealth::Reconnecting { .. } => return owned("Reconnecting"),
        ServiceHealth::Degraded { message } => return message.clone(),
        ServiceHealth::Ready => {},
    }
    if let Some(prompt) = &state.prompt {
        let out = concat_chars(&chars_of("Password required for "), &chars_of(prompt.ssid.as_str()));
        return string_of(&out);
    }
    if let Some(activity) = active_action_title(state) {
        return activity;
    }
    let status = &state.snapshot.status;
    if !status.enabled {
        owned("Off")
    } else if !status.wifi_hw_enabled {
        owned("Wi-Fi unavailable")
    } else if !status.wifi_enabled {
        owned("Wi-Fi off")
    } else if state.scanning {
        owned("Scanning")
    } else if !status.primary_connection.as_str().is_empty() {
        let out = concat_chars(&chars_of("Connected to "), &chars_of(status.primary_connection.as_str()));
        string_of(&out)
    } else {
        owned("Not connected")
    }
}

/// The signal strength of an access point as `"{strength}%"`.
pub fn wifi_status(access_point: &WifiAccessPoint) -> (out: String)
    ensures
        out@ == decimal(access_point.strength as nat) + "%"@,
{
    let out = concat_chars(&decimal_chars(access_point.strength as u64), &chars_of("%"));
    string_of(&out)
}

/// Fills in `{state}`, `{network}`, `{type}`, `{wifi}`, `{access_points}`,
/// `{connections}`, `{vpns}` and `{speed}`, then trims.
pub fn render(template: &str, state: &State) -> (out: String)
    ensures
        out@ == render_text(template@, *state),
{
    if template.is_empty() {
        return String::new();
    }
    proof {
        reveal_strlit("{state}");
        reveal_strlit("{network}");
        reveal_strlit("{type}");
        reveal_strlit("{wifi}");
        reveal_strlit("{access_points}");
        reveal_strlit("{connections}");
        reveal_strlit("{vpns}");
        reveal_strlit("{speed}");
    }
    let snapshot = &state.snapshot;
    let t = chars_of(template);
    let s1 = replace_str(&t, "{state}", &chars_of(state_text(state).as_str()));
    let s2 = replace_str(&s1, "{network}", &chars_of(snapshot.status.primary_connection.as_str()));
    let s3 = replace_str(&s2, "{type}", &chars_of(snapshot.status.primary_type.as_str()));
    let aps = decimal_chars(snapshot.wifi_access_points.len() as u64);
    let s4 = replace_str(&s3, "{wifi}", &aps);
    let s5 = replace_str(&s4, "{access_points}", &aps);
    let s6 = replace_str(&s5, "{connections}", &decimal_chars(snapshot.connections.len() as u64));
    let s7 = replace_str(&s6, "{vpns}", &decimal_chars(snapshot.saved_vpns.len() as u64));
    let s8 = replace_str(&s7, "{speed}", &chars_of(speed_text(snapshot.status.speed).as_str()));
    string_of(&trim_chars(&s8))
}

/// The lower-case word for the operation in progress, if any.
pub fn active_action_text(action: Option<&NetworkActiveAction>) -> (out: Option<&'static str>)
    ensures
        action is None ==> out is None,
        action matches Some(a) ==> out matches Some(s) && s@ == action_word(*a),
{
    let action = match action {
        Some(action) => action,
        None => return None,
    };
    match action {
        NetworkActiveAction::SetWifiEnabled(on) => if *on {
            Some("turning wifi on")
        } else {
            Some("turning wifi off")
        },
        NetworkActiveAction::ConnectWifi { .. } | NetworkActiveAction::ConnectSaved { .. } => Some(
            "connecting",
        ),
        NetworkActiveAction::Disconnect { .. } => Some("disconnecting"),
        NetworkActiveAction::Forget { .. } => Some("forgetting"),
    }
}

/// The title-case description of the operation in progress, if any.
pub fn active_action_title(state: &State) -> (out: Option<String>)
    ensures
        action_title(*state) matches Some(t) ==> out matches Some(s) && s@ == t,
        action_title(*state) is None ==> out is None,
{
    let action = match state.active_action.as_ref() {
        Some(action) => action,
        None => return None,
    };
    let out = match action {
        NetworkActiveAction::SetWifiEnabled(on) => if *on {
            owned("Turning Wi-Fi on")
        } else {
            owned("Turning Wi-Fi off")
        },
        NetworkActiveAction::ConnectWifi { ssid, .. } => string_of(
            &concat_chars(&chars_of("Connecting to "), &chars_of(ssid.as_str())),
        ),
        NetworkActiveAction::ConnectSaved { uuid } => string_of(
            &concat_chars(
                &chars_of("Connecting to "),
                &chars_of(connection_name(&state.snapshot, uuid.as_str()).as_str()),
            ),
        ),
        NetworkActiveAction::Disconnect { uuid } => string_of(
            &concat_chars(
                &chars_of("Disconnecting "),
                &chars_of(connection_name(&state.snapshot, uuid.as_str()).as_str()),
            ),
        ),
        NetworkActiveAction::Forget { uuid } => string_of(
            &concat_chars(
                &chars_of("Forgetting "),
                &chars_of(connection_name(&state.snapshot, uuid.as_str()).as_str()),
            ),
        ),
    };
    Some(out)
}

/// The human name of the profile with this UUID.
pub fn connection_name(snapshot: &NetworkSnapshot, uuid: &str) -> (out: String)
    ensures
        out@ == connection_name_text(*snapshot, uuid@),
{
    let mut i: usize = 0;
    assert(snapshot.connections@.skip(0) =~= snapshot.connections@);
    while i < snapshot.connections.len()
        invariant
            i <= snapshot.connections.len(),
            find_connection(snapshot.connections@.skip(i as int), uuid@) == find_connection(
                snapshot.connections@,
                uuid@,
            ),
        decreases snapshot.connections.len() - i,
    {
        assert(snapshot.connections@.skip(i as int).drop_first() =~= snapshot.connections@.skip(
            i + 1,
        ));
        if eq_str(snapshot.connections[i].uuid.as_str(), uuid) {
            return snapshot.connections[i].id.clone();
        }
        i += 1;
    }
    let mut j: usize = 0;
    assert(snapshot.saved_vpns@.skip(0) =~= snapshot.saved_vpns@);
    while j < snapshot.saved_vpns.len()
        invariant
            j <= snapshot.saved_vpns.len(),
            find_connection(snapshot.connections@, uuid@) is None,
            find_vpn(snapshot.saved_vpns@.skip(j as int), uuid@) == find_vpn(
                snapshot.saved_vpns@,
                uuid@,
            ),
        decreases snapshot.saved_vpns.len() - j,
    {
        assert(snapshot.saved_vpns@.skip(j as int).drop_first() =~= snapshot.saved_vpns@.skip(
            j + 1,
        ));
        if eq_str(snapshot.saved_vpns[j].uuid.as_str(), uuid) {
            return snapshot.saved_vpns[j].id.clone();
        }
        j += 1;
    }
    let mut k: usize = 0;
    assert(snapshot.wifi_access_points@.skip(0) =~= snapshot.wifi_access_points@);
    while k < snapshot.wifi_access_points.len()
        invariant
            k <= snapshot.wifi_access_points.len(),
            find_connection(snapshot.connections@, uuid@) is None,
            find_vpn(snapshot.saved_vpns@, uuid@) is None,
            find_access_point(snapshot.wifi_access_points@.skip(k as int), uuid@)
                == find_access_point(snapshot.wifi_access_points@, uuid@),
        decreases snapshot.wifi_access_points.len() - k,
    {
        assert(snapshot.wifi_access_points@.skip(k as int).drop_first()
            =~= snapshot.wifi_access_points@.skip(k + 1));
        let matched = match &snapshot.wifi_access_points[k].uuid {
            Some(ap_uuid) => eq_str(ap_uuid.as_str(), uuid),
            None => false,
        };
        if matched {
            return snapshot.wifi_access_points[k].ssid.clone();
        }
        k += 1;
    }
    owned(uuid)
}

/// `"{speed} Mbps"`, or an empty string for an unknown (zero) speed.
pub fn speed_text(speed_mbps: u32) -> (out: String)
    ensures
        out@ == speed_words(speed_mbps),
{
    if speed_mbps == 0 {
        return String::new();
    }
    string_of(&concat_chars(&decimal_chars(speed_mbps as u64), &chars_of(" Mbps")))
}

/// The Wi-Fi icon follows the signal in five bands, each with its own icon:
/// none at 0, weak at 1-24, ok at 25-49, good at 50-74, excellent at
/// 75-100; a reading above 100 shows no signal.
pub proof fn law_wifi_icon_bands(a: u8, b: u8)
    ensures
        a == 0 ==> wifi_icon_name(a) == "network-wireless-signal-none-symbolic"@,
        1 <= a <= 24 ==> wifi_icon_name(a) == "network-wireless-signal-weak-symbolic"@,
        25 <= a <= 49 ==> wifi_icon_name(a) == "network-wireless-signal-ok-symbolic"@,
        50 <= a <= 74 ==> wifi_icon_name(a) == "network-wireless-signal-good-symbolic"@,
        75 <= a <= 100 ==> wifi_icon_name(a) == "network-wireless-signal-excellent-symbolic"@,
        a > 100 ==> wifi_icon_name(a) == "network-wireless-signal-none-symbolic"@,
        wifi_band(a) != wifi_band(b) && a <= 100 && b <= 100 ==> wifi_icon_name(a) != wifi_icon_name(b),
{
    reveal_strlit("network-wireless-signal-none-symbolic");
    reveal_strlit("network-wireless-signal-weak-symbolic");
    reveal_strlit("network-wireless-signal-ok-symbolic");
    reveal_strlit("network-wireless-signal-good-symbolic");
    reveal_strlit("network-wireless-signal-excellent-symbolic");
    let x = wifi_icon_name(a);
    let y = wifi_icon_name(b);
    if wifi_band(a) != wifi_band(b) && a <= 100 && b <= 100 {
        if x.len() == y.len() {
            assert(x[24] != y[24]);
        }
    }
}

/// The band of a signal strength: 0 for none, then 1 to 4 from weak to
/// excellent.
pub open spec fn wifi_band(strength: u8) -> int {
    if strength == 0 {
        0
    } else if strength <= 24 {
        1
    } else if strength <= 49 {
        2
    } else if strength <= 74 {
        3
    } else {
        4
    }
}

} // verus!
