//! The network popover's sections: the Wi-Fi list with its busy markers, the
//! wired interfaces and the VPN menu.
use vstd::prelude::*;

use crate::device_list::{ActionMenuItem, DeviceListItem, with_busy};
use crate::network::{
    Command, NetworkActiveAction, NetworkDevice, SavedVpn, State, WifiAccessPoint, wifi_icon,
    wifi_icon_name,
};
use crate::text::{
    chars_of, concat_chars, decimal, decimal_chars, eq_str, join, join_strings, kept_positions,
    lemma_kept_positions_step, owned, percent, percent_text, string_of, to_uppercase, uppercase,
    views,
};

verus! {

/// The value behind an optional reference.
pub open spec fn opt_deref<T>(o: Option<&T>) -> Option<T> {
    match o {
        Some(x) => Some(*x),
        None => None,
    }
}

// ---------------------------------------------------------------------------
// Wi-Fi
// ---------------------------------------------------------------------------

/// An access point gets a row when it broadcasts a name.
pub open spec fn ap_visible(ap: WifiAccessPoint) -> bool {
    ap.ssid@.len() > 0
}

/// The filter that picks the access points that get a row.
pub open spec fn ap_keep() -> spec_fn(WifiAccessPoint) -> bool {
    |ap: WifiAccessPoint| ap_visible(ap)
}

/// What activating an access point's row asks for: leave the network it is
/// connected to, join it through its saved profile, or join it afresh.
pub open spec fn wifi_command(ap: WifiAccessPoint) -> Command {
    if ap.connected && ap.uuid is Some {
        Command::Disconnect { uuid: ap.uuid->0 }
    } else if ap.saved && ap.uuid is Some {
        Command::ConnectSaved { uuid: ap.uuid->0 }
    } else {
        Command::ConnectWifi { ssid: ap.ssid, path: ap.path }
    }
}

/// The signal strength for the connected network, nothing for the others.
pub open spec fn wifi_row_status(ap: WifiAccessPoint) -> Seq<char> {
    if ap.connected {
        percent(ap.strength as nat)
    } else {
        Seq::empty()
    }
}

/// Whether the service's running operation concerns this access point.
pub open spec fn wifi_busy(action: Option<NetworkActiveAction>, ap: WifiAccessPoint) -> bool {
    match action {
        Some(NetworkActiveAction::ConnectWifi { path, .. }) => path@ == ap.path@,
        Some(NetworkActiveAction::ConnectSaved { uuid }) => ap.uuid is Some && ap.uuid->0@ == uuid@,
        Some(NetworkActiveAction::Disconnect { uuid }) => ap.uuid is Some && ap.uuid->0@ == uuid@,
        _ => false,
    }
}

/// The parts of an access point's tooltip: its relation to the user, its
/// security in capitals unless open, its frequency when known, its strength.
pub open spec fn ap_tooltip_parts(ap: WifiAccessPoint, frequency: Seq<char>) -> Seq<Seq<char>> {
    let relation = if ap.connected {
        seq!["Connected"@]
    } else if ap.saved {
        seq!["Saved"@]
    } else {
        Seq::empty()
    };
    let security = if ap.security@.len() > 0 && ap.security@ != "open"@ {
        seq![uppercase(ap.security@)]
    } else {
        Seq::empty()
    };
    let band = if ap.frequency > 0 {
        seq![frequency]
    } else {
        Seq::empty()
    };
    relation + security + band + seq![percent(ap.strength as nat)]
}

/// An access point's tooltip, `frequency` being how its frequency reads.
pub open spec fn ap_tooltip(ap: WifiAccessPoint, frequency: Seq<char>) -> Seq<char> {
    join(ap_tooltip_parts(ap, frequency), " - "@)
}

/// `item` is the row for `ap`.
pub open spec fn is_wifi_row(
    item: DeviceListItem<Command>,
    ap: WifiAccessPoint,
    action: Option<NetworkActiveAction>,
    frequency: Seq<char>,
) -> bool {
    &&& item.id@ == ap.path@
    &&& item.label@ == ap.ssid@
    &&& item.icon@ == wifi_icon_name(ap.strength)
    &&& item.status@ == wifi_row_status(ap)
    &&& item.busy == wifi_busy(action, ap)
    &&& item.tooltip is Some
    &&& item.tooltip->0@ == ap_tooltip(ap, frequency)
    &&& item.active == ap.connected
    &&& item.visible
    &&& item.command == Some(wifi_command(ap))
}

/// The row or access point that a command puts to work.
pub open spec fn busy_target(command: Command) -> Option<Seq<char>> {
    match command {
        Command::ConnectWifi { path, .. } => Some(path@),
        Command::ConnectSaved { uuid } => Some(uuid@),
        Command::Disconnect { uuid } => Some(uuid@),
        _ => None,
    }
}

/// Whether a command acts on the saved profile `uuid`.
pub open spec fn command_uses_uuid(command: Command, uuid: Seq<char>) -> bool {
    match command {
        Command::ConnectSaved { uuid: u } => u@ == uuid,
        Command::Disconnect { uuid: u } => u@ == uuid,
        _ => false,
    }
}

/// Whether a row is the one that `id` (a row id or a profile) names.
pub open spec fn wifi_row_named(item: DeviceListItem<Command>, id: Seq<char>) -> bool {
    item.id@ == id || (item.command is Some && command_uses_uuid(item.command->0, id))
}

/// The Wi-Fi rows: one for each access point with a name, in order.
/// `frequency_texts[i]` is how the frequency of `access_points[i]` reads.
pub fn build_wifi_items(
    access_points: &[WifiAccessPoint],
    active_action: Option<&NetworkActiveAction>,
    frequency_texts: &[String],
) -> (out: Vec<DeviceListItem<Command>>)
    requires
        frequency_texts.len() == access_points.len(),
    ensures
        out.len() == kept_positions(access_points@, ap_keep()).len(),
        forall|k: int|
            0 <= k < out.len() ==> is_wifi_row(
                #[trigger] out@[k],
                access_points@[kept_positions(access_points@, ap_keep())[k]],
                opt_deref(active_action),
                frequency_texts@[kept_positions(access_points@, ap_keep())[k]]@,
            ),
{
    let ghost aps = access_points@;
    let ghost action = opt_deref(active_action);
    let mut out: Vec<DeviceListItem<Command>> = Vec::new();
    let mut i: usize = 0;
    while i < access_points.len()
        invariant
            i <= access_points.len(),
            aps == access_points@,
            action == opt_deref(active_action),
            frequency_texts.len() == access_points.len(),
            out.len() == kept_positions(aps.take(i as int), ap_keep()).len(),
            forall|k: int|
                0 <= k < out.len() ==> is_wifi_row(
                    #[trigger] out@[k],
                    aps[kept_positions(aps.take(i as int), ap_keep())[k]],
                    action,
                    frequency_texts@[kept_positions(aps.take(i as int), ap_keep())[k]]@,
                ),
        decreases access_points.len() - i,
    {
        proof {
            lemma_kept_positions_step(aps, i as int, ap_keep());
        }
        let ap = &access_points[i];
        if !ap.ssid.as_str().is_empty() {
            let item = DeviceListItem {
                id: ap.path.clone(),
                label: ap.ssid.clone(),
                icon: owned(wifi_icon(ap.strength)),
                status: row_wifi_status(ap),
                busy: is_wifi_busy(active_action, ap),
                tooltip: Some(access_point_tooltip(ap, frequency_texts[i].as_str())),
                active: ap.connected,
                visible: true,
                command: Some(primary_wifi_command(ap)),
            };
            out.push(item);
        }
        i += 1;
    }
    proof {
        assert(aps.take(access_points.len() as int) =~= aps);
    }
    out
}

/// What activating an access point's row asks for.
pub fn primary_wifi_command(access_point: &WifiAccessPoint) -> (out: Command)
    ensures
        out == wifi_command(*access_point),
{
    if access_point.connected {
        if let Some(uuid) = &access_point.uuid {
            return Command::Disconnect { uuid: uuid.clone() };
        }
    }
    if access_point.saved {
        if let Some(uuid) = &access_point.uuid {
            return Command::ConnectSaved { uuid: uuid.clone() };
        }
    }
    Command::ConnectWifi { ssid: access_point.ssid.clone(), path: access_point.path.clone() }
}

/// The status text of an access point's row.
pub fn row_wifi_status(access_point: &WifiAccessPoint) -> (out: String)
    ensures
        out@ == wifi_row_status(*access_point),
{
    if access_point.connected {
        percent_text(access_point.strength as u64)
    } else {
        String::new()
    }
}

/// Whether the service's running operation concerns `access_point`.
pub fn is_wifi_busy(
    active_action: Option<&NetworkActiveAction>,
    access_point: &WifiAccessPoint,
) -> (out: bool)
    ensures
        out == wifi_busy(opt_deref(active_action), *access_point),
{
    match active_action {
        Some(NetworkActiveAction::ConnectWifi { path, .. }) => eq_str(
            path.as_str(),
            access_point.path.as_str(),
        ),
        Some(NetworkActiveAction::ConnectSaved { uuid }) => match &access_point.uuid {
            Some(u) => eq_str(u.as_str(), uuid.as_str()),
            None => false,
        },
        Some(NetworkActiveAction::Disconnect { uuid }) => match &access_point.uuid {
            Some(u) => eq_str(u.as_str(), uuid.as_str()),
            None => false,
        },
        _ => false,
    }
}

/// The row id or profile that a command puts to work before the service
/// reports back, so that its row shows as busy at once.
pub fn optimistic_busy_id(command: &Command) -> (out: Option<&str>)
    ensures
        match out {
            Some(s) => busy_target(*command) == Some(s@),
            None => busy_target(*command) is None,
        },
{
    match command {
        Command::ConnectWifi { path, .. } => Some(path.as_str()),
        Command::ConnectSaved { uuid } => Some(uuid.as_str()),
        Command::Disconnect { uuid } => Some(uuid.as_str()),
        _ => None,
    }
}

/// Marks as busy exactly the rows that `id` names and clears the others;
/// says whether any row changed.
pub fn mark_wifi_busy(items: &mut Vec<DeviceListItem<Command>>, id: &str) -> (changed: bool)
    ensures
        final(items).len() == old(items).len(),
        forall|i: int|
            0 <= i < old(items).len() ==> #[trigger] final(items)@[i] == with_busy(
                old(items)@[i],
                wifi_row_named(old(items)@[i], id@),
            ),
        changed == exists|i: int|
            0 <= i < old(items).len() && #[trigger] old(items)@[i].busy != wifi_row_named(
                old(items)@[i],
                id@,
            ),
{
    let ghost before = items@;
    let mut changed = false;
    let mut i: usize = 0;
    while i < items.len()
        invariant
            i <= items.len(),
            items.len() == before.len(),
            forall|j: int|
                0 <= j < i ==> #[trigger] items@[j] == with_busy(
                    before[j],
                    wifi_row_named(before[j], id@),
                ),
            forall|j: int| i <= j < items.len() ==> #[trigger] items@[j] == before[j],
            changed == exists|j: int|
                0 <= j < i && #[trigger] before[j].busy != wifi_row_named(before[j], id@),
        decreases items.len() - i,
    {
        let busy = eq_str(items[i].id.as_str(), id) || matches_wifi_command_uuid(
            &items[i].command,
            id,
        );
        if items[i].busy != busy {
            items[i].busy = busy;
            changed = true;
        }
        assert(items@[i as int] == with_busy(before[i as int], wifi_row_named(before[i as int], id@)));
        i += 1;
    }
    changed
}

/// Whether `command` acts on the saved profile `uuid`.
pub fn matches_wifi_uuid(command: &Command, uuid: &str) -> (out: bool)
    ensures
        out == command_uses_uuid(*command, uuid@),
{
    match command {
        Command::ConnectSaved { uuid: u } => eq_str(u.as_str(), uuid),
        Command::Disconnect { uuid: u } => eq_str(u.as_str(), uuid),
        _ => false,
    }
}

/// Whether a row's command acts on the saved profile `uuid`.
pub fn matches_wifi_command_uuid(command: &Option<Command>, uuid: &str) -> (out: bool)
    ensures
        out == (command is Some && command_uses_uuid(command->0, uuid@)),
{
    match command {
        Some(c) => matches_wifi_uuid(c, uuid),
        None => false,
    }
}

/// The id of an access point's row: its D-Bus path.
pub fn wifi_item_id(access_point: &WifiAccessPoint) -> (out: String)
    ensures
        out == access_point.path,
{
    access_point.path.clone()
}

/// Whether an access point gets a row.
pub fn is_visible_access_point(access_point: &WifiAccessPoint) -> (out: bool)
    ensures
        out == ap_visible(*access_point),
{
    !access_point.ssid.as_str().is_empty()
}

/// An access point's tooltip; `frequency_text` is how its frequency reads and
/// is shown only when the frequency is known.
pub fn access_point_tooltip(access_point: &WifiAccessPoint, frequency_text: &str) -> (out: String)
    ensures
        out@ == ap_tooltip(*access_point, frequency_text@),
{
    let mut parts: Vec<String> = Vec::new();
    if access_point.connected {
        parts.push(owned("Connected"));
    } else if access_point.saved {
        parts.push(owned("Saved"));
    }
    let ghost relation = views(parts@);
    if !access_point.security.as_str().is_empty() && !eq_str(access_point.security.as_str(), "open") {
        parts.push(to_uppercase(access_point.security.as_str()));
    }
    let ghost security = views(parts@);
    if access_point.frequency > 0 {
        parts.push(owned(frequency_text));
    }
    let ghost band = views(parts@);
    parts.push(percent_text(access_point.strength as u64));
    proof {
        let ap = *access_point;
        let expected = ap_tooltip_parts(ap, frequency_text@);
        assert(views(parts@) =~= expected);
    }
    join_strings(&parts, " - ")
}

// ---------------------------------------------------------------------------
// Wired
// ---------------------------------------------------------------------------

/// A wired interface gets a row when it is an Ethernet device.
pub open spec fn wired_visible(device: NetworkDevice) -> bool {
    device.device_type@ == "ethernet"@
}

/// The filter that picks the interfaces that get a row.
pub open spec fn wired_keep() -> spec_fn(NetworkDevice) -> bool {
    |device: NetworkDevice| wired_visible(device)
}

/// A wired row's id: the device path, or the interface name when there is none.
pub open spec fn wired_key_text(device: NetworkDevice) -> Seq<char> {
    if device.path@.len() == 0 {
        device.interface@
    } else {
        device.path@
    }
}

/// A wired row's status: the link speed when connected, else whether a cable
/// is plugged in.
pub open spec fn wired_info_text(device: NetworkDevice) -> Seq<char> {
    if device.state@ == "connected"@ {
        if device.speed > 0 {
            decimal(device.speed as nat) + " Mbps"@
        } else {
            "Connected"@
        }
    } else if device.carrier == Some(true) {
        "Cable connected"@
    } else {
        "Disconnected"@
    }
}

/// A wired row's tooltip: the interface, and its driver when known.
pub open spec fn wired_tooltip_text(device: NetworkDevice) -> Seq<char> {
    if device.driver is Some && device.driver->0@.len() > 0 {
        device.interface@ + " - "@ + device.driver->0@
    } else {
        device.interface@
    }
}

/// `item` is the row for `device`.
pub open spec fn is_wired_row(item: DeviceListItem<()>, device: NetworkDevice) -> bool {
    &&& item.id@ == wired_key_text(device)
    &&& item.icon@ == "network-wired-symbolic"@
    &&& item.label@ == device.interface@
    &&& item.status@ == wired_info_text(device)
    &&& !item.busy
    &&& item.tooltip is Some
    &&& item.tooltip->0@ == wired_tooltip_text(device)
    &&& item.active == (device.state@ == "connected"@)
    &&& item.visible
    &&& item.command is None
}

/// The wired rows: one for each Ethernet interface, in order.
pub fn build_wired_items(devices: &[NetworkDevice]) -> (out: Vec<DeviceListItem<()>>)
    ensures
        out.len() == kept_positions(devices@, wired_keep()).len(),
        forall|k: int|
            0 <= k < out.len() ==> is_wired_row(
                #[trigger] out@[k],
                devices@[kept_positions(devices@, wired_keep())[k]],
            ),
{
    let ghost all = devices@;
    let mut out: Vec<DeviceListItem<()>> = Vec::new();
    let mut i: usize = 0;
    while i < devices.len()
        invariant
            i <= devices.len(),
            all == devices@,
            out.len() == kept_positions(all.take(i as int), wired_keep()).len(),
            forall|k: int|
                0 <= k < out.len() ==> is_wired_row(
                    #[trigger] out@[k],
                    all[kept_positions(all.take(i as int), wired_keep())[k]],
                ),
        decreases devices.len() - i,
    {
        proof {
            lemma_kept_positions_step(all, i as int, wired_keep());
        }
        let device = &devices[i];
        if eq_str(device.device_type.as_str(), "ethernet") {
            let item = DeviceListItem {
                id: owned(wired_key(device)),
                icon: owned("network-wired-symbolic"),
                label: device.interface.clone(),
                status: wired_info(device),
                busy: false,
                tooltip: Some(wired_tooltip(device)),
                active: eq_str(device.state.as_str(), "connected"),
                visible: true,
                command: None,
            };
            out.push(item);
        }
        i += 1;
    }
    proof {
        assert(all.take(devices.len() as int) =~= all);
    }
    out
}

/// The Ethernet interfaces among `devices`, in order.
pub fn visible_wired_devices(devices: &[NetworkDevice]) -> (out: Vec<&NetworkDevice>)
    ensures
        out.len() == kept_positions(devices@, wired_keep()).len(),
        forall|k: int|
            0 <= k < out.len() ==> *(#[trigger] out@[k]) == devices@[kept_positions(
                devices@,
                wired_keep(),
            )[k]],
{
    let ghost all = devices@;
    let mut out: Vec<&NetworkDevice> = Vec::new();
    let mut i: usize = 0;
    while i < devices.len()
        invariant
            i <= devices.len(),
            all == devices@,
            out.len() == kept_positions(all.take(i as int), wired_keep()).len(),
            forall|k: int|
                0 <= k < out.len() ==> *(#[trigger] out@[k]) == all[kept_positions(
                    all.take(i as int),
                    wired_keep(),
                )[k]],
        decreases devices.len() - i,
    {
        proof {
            lemma_kept_positions_step(all, i as int, wired_keep());
        }
        if eq_str(devices[i].device_type.as_str(), "ethernet") {
            out.push(&devices[i]);
        }
        i += 1;
    }
    proof {
        assert(all.take(devices.len() as int) =~= all);
    }
    out
}

/// A wired row's id.
pub fn wired_key(device: &NetworkDevice) -> (out: &str)
    ensures
        out@ == wired_key_text(*device),
{
    if device.path.as_str().is_empty() {
        device.interface.as_str()
    } else {
        device.path.as_str()
    }
}

/// A wired row's status text.
pub fn wired_info(device: &NetworkDevice) -> (out: String)
    ensures
        out@ == wired_info_text(*device),
{
    if eq_str(device.state.as_str(), "connected") {
        if device.speed > 0 {
            string_of(&concat_chars(&decimal_chars(device.speed as u64), &chars_of(" Mbps")))
        } else {
            owned("Connected")
        }
    } else if match device.carrier {
        Some(c) => c,
        None => false,
    } {
        owned("Cable connected")
    } else {
        owned("Disconnected")
    }
}

/// A wired row's tooltip.
pub fn wired_tooltip(device: &NetworkDevice) -> (out: String)
    ensures
        out@ == wired_tooltip_text(*device),
{
    match &device.driver {
        Some(driver) if !driver.as_str().is_empty() => {
            let head = concat_chars(&chars_of(device.interface.as_str()), &chars_of(" - "));
            string_of(&concat_chars(&head, &chars_of(driver.as_str())))
        },
        _ => device.interface.clone(),
    }
}

// ---------------------------------------------------------------------------
// VPN
// ---------------------------------------------------------------------------

/// A VPN profile is listed when it has both a name and an id.
pub open spec fn vpn_listed(vpn: SavedVpn) -> bool {
    vpn.id@.len() > 0 && vpn.uuid@.len() > 0
}

/// The filter that picks the listed VPN profiles.
pub open spec fn vpn_keep() -> spec_fn(SavedVpn) -> bool {
    |vpn: SavedVpn| vpn_listed(vpn)
}

/// What choosing a VPN entry asks for: disconnect an active one, connect another.
pub open spec fn vpn_command(vpn: SavedVpn) -> Command {
    if vpn.active {
        Command::Disconnect { uuid: vpn.uuid }
    } else {
        Command::ConnectSaved { uuid: vpn.uuid }
    }
}

/// `item` is the menu entry for `vpn`.
pub open spec fn is_vpn_entry(item: ActionMenuItem<Command>, vpn: SavedVpn) -> bool {
    &&& item.label == vpn.id
    &&& item.icon is Some
    &&& item.icon->0@ == "network-vpn-symbolic"@
    &&& item.visible
    &&& item.checked == Some(vpn.active)
    &&& item.selectable == Some(true)
    &&& item.command == vpn_command(vpn)
}

/// The VPN menu: one checkable entry for each listed profile, in order.
pub fn build_vpn_items(vpns: &[SavedVpn]) -> (out: Vec<ActionMenuItem<Command>>)
    ensures
        out.len() == kept_positions(vpns@, vpn_keep()).len(),
        forall|k: int|
            0 <= k < out.len() ==> is_vpn_entry(
                #[trigger] out@[k],
                vpns@[kept_positions(vpns@, vpn_keep())[k]],
            ),
{
    let ghost all = vpns@;
    let mut out: Vec<ActionMenuItem<Command>> = Vec::new();
    let mut i: usize = 0;
    while i < vpns.len()
        invariant
            i <= vpns.len(),
            all == vpns@,
            out.len() == kept_positions(all.take(i as int), vpn_keep()).len(),
            forall|k: int|
                0 <= k < out.len() ==> is_vpn_entry(
                    #[trigger] out@[k],
                    all[kept_positions(all.take(i as int), vpn_keep())[k]],
                ),
        decreases vpns.len() - i,
    {
        proof {
            lemma_kept_positions_step(all, i as int, vpn_keep());
        }
        let vpn = &vpns[i];
        if !vpn.id.as_str().is_empty() && !vpn.uuid.as_str().is_empty() {
            out.push(
                ActionMenuItem {
                    label: vpn.id.clone(),
                    icon: Some(owned("network-vpn-symbolic")),
                    visible: true,
                    checked: Some(vpn.active),
                    selectable: Some(true),
                    command: primary_vpn_command(vpn),
                },
            );
        }
        i += 1;
    }
    proof {
        assert(all.take(vpns.len() as int) =~= all);
    }
    out
}

/// What choosing a VPN entry asks for.
pub fn primary_vpn_command(vpn: &SavedVpn) -> (out: Command)
    ensures
        out == vpn_command(*vpn),
{
    if vpn.active {
        Command::Disconnect { uuid: vpn.uuid.clone() }
    } else {
        Command::ConnectSaved { uuid: vpn.uuid.clone() }
    }
}

// ---------------------------------------------------------------------------
// Popover
// ---------------------------------------------------------------------------

/// The popover's header icon: NetworkManager's own, or the offline icon when
/// there is none.
pub fn icon_name_for_state(state: &State) -> (out: &str)
    ensures
        out@ == (if state.snapshot.status.icon@.len() == 0 {
            "network-offline-symbolic"@
        } else {
            state.snapshot.status.icon@
        }),
{
    if state.snapshot.status.icon.as_str().is_empty() {
        "network-offline-symbolic"
    } else {
        state.snapshot.status.icon.as_str()
    }
}

} // verus!
