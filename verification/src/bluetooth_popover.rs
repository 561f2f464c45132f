//! The Bluetooth popover: its header, which devices it lists and in what
//! order, and what each row shows and does.
use vstd::prelude::*;

use crate::bluetooth::{
    BluetoothActiveAction, BluetoothDevice, BluetoothSnapshot, Command, State,
};
use crate::device_list::{DeviceListItem, with_busy};
use crate::health::{ServiceHealth, health_title};
use crate::text::{
    chars_of, concat_chars, contains_char, decimal, decimal_chars, eq_str, hex_digit,
    is_hex_digit, join, join_strings, kept_positions, lemma_kept_positions_bounds,
    lemma_kept_positions_step, owned, percent, percent_text, string_of, text_before, text_lt, trim,
    trim_chars, views,
};

verus! {

// ---------------------------------------------------------------------------
// Which devices are listed, and in what order
// ---------------------------------------------------------------------------

/// The separator a MAC-like text would use: a colon when it has one, else a hyphen.
pub open spec fn mac_separator(t: Seq<char>) -> char {
    if t.contains(':') {
        ':'
    } else {
        '-'
    }
}

/// Whether a text, trimmed, is a MAC address: six pairs of hexadecimal
/// digits separated by colons or by hyphens.
pub open spec fn mac_like(value: Seq<char>) -> bool {
    let t = trim(value);
    &&& t.len() == 17
    &&& forall|i: int|
        0 <= i < 17 ==> (if i % 3 == 2 {
            t[i] == mac_separator(t)
        } else {
            is_hex_digit(t[i])
        })
}

/// Whether a device is listed: it needs an address; a device without a real
/// name only when it is connected, paired or trusted; a named one also when in
/// range.
pub open spec fn device_shown(d: BluetoothDevice) -> bool {
    if d.address@.len() == 0 {
        false
    } else if d.name@.len() == 0 || mac_like(d.name@) {
        d.connected || d.paired || d.trusted
    } else {
        d.connected || d.paired || d.trusted || d.rssi is Some
    }
}

/// The filter that picks the listed devices.
pub open spec fn device_keep() -> spec_fn(BluetoothDevice) -> bool {
    |d: BluetoothDevice| device_shown(d)
}

/// The signal strength a device sorts by; out of range sorts last.
pub open spec fn rssi_key(d: BluetoothDevice) -> int {
    match d.rssi {
        Some(r) => r as int,
        None => i16::MIN as int,
    }
}

/// `a` is listed no later than `b`: connected first, then paired, then by
/// stronger signal, then by name.
pub open spec fn device_le(a: BluetoothDevice, b: BluetoothDevice) -> bool {
    if a.connected != b.connected {
        a.connected
    } else if a.paired != b.paired {
        a.paired
    } else if rssi_key(a) != rssi_key(b) {
        rssi_key(a) > rssi_key(b)
    } else {
        !text_before(b.name@, a.name@)
    }
}

/// Inserts position `x` after the last position in `s` whose device is
/// listed no later than `x`'s.
pub open spec fn insert_position(devs: Seq<BluetoothDevice>, s: Seq<int>, x: int) -> Seq<int>
    decreases s.len(),
{
    if s.len() == 0 {
        seq![x]
    } else if device_le(devs[s.last()], devs[x]) {
        s.push(x)
    } else {
        insert_position(devs, s.drop_last(), x).push(s.last())
    }
}

/// The positions `s` stably sorted by their devices' listing order.
pub open spec fn sort_positions(devs: Seq<BluetoothDevice>, s: Seq<int>) -> Seq<int>
    decreases s.len(),
{
    if s.len() == 0 {
        Seq::empty()
    } else {
        insert_position(devs, sort_positions(devs, s.drop_last()), s.last())
    }
}

/// The positions of the listed devices, in listing order.
pub open spec fn device_order(devs: Seq<BluetoothDevice>) -> Seq<int> {
    sort_positions(devs, kept_positions(devs, device_keep()))
}

proof fn lemma_insert_position(devs: Seq<BluetoothDevice>, s: Seq<int>, x: int, j: int)
    requires
        0 <= j <= s.len(),
        forall|k: int| j <= k < s.len() ==> !device_le(devs[s[k]], devs[x]),
        j == 0 || device_le(devs[s[j - 1]], devs[x]),
    ensures
        insert_position(devs, s, x) == s.insert(j, x),
    decreases s.len(),
{
    if s.len() == 0 {
        assert(s.insert(0, x) =~= seq![x]);
    } else if device_le(devs[s.last()], devs[x]) {
        assert(s.insert(j, x) =~= s.push(x));
    } else {
        lemma_insert_position(devs, s.drop_last(), x, j);
        assert(s.drop_last().insert(j, x).push(s.last()) =~= s.insert(j, x));
    }
}

/// Whether `a` is listed no later than `b`.
pub fn device_listed_no_later(a: &BluetoothDevice, b: &BluetoothDevice) -> (out: bool)
    ensures
        out == device_le(*a, *b),
{
    if a.connected != b.connected {
        a.connected
    } else if a.paired != b.paired {
        a.paired
    } else {
        let ra: i16 = match a.rssi {
            Some(r) => r,
            None => i16::MIN,
        };
        let rb: i16 = match b.rssi {
            Some(r) => r,
            None => i16::MIN,
        };
        if ra != rb {
            ra > rb
        } else {
            !text_lt(b.name.as_str(), a.name.as_str())
        }
    }
}

/// The listed devices of a snapshot, in listing order.
pub fn visible_devices(snapshot: &BluetoothSnapshot) -> (out: Vec<&BluetoothDevice>)
    ensures
        out.len() == device_order(snapshot.devices@).len(),
        forall|k: int|
            0 <= k < out.len() ==> *(#[trigger] out@[k]) == snapshot.devices@[device_order(
                snapshot.devices@,
            )[k]],
{
    let devices = &snapshot.devices;
    let ghost devs = devices@;
    let order = visible_order(devices);
    let mut out: Vec<&BluetoothDevice> = Vec::new();
    let mut k: usize = 0;
    while k < order.len()
        invariant
            k <= order.len(),
            devs == devices@,
            order@.len() == device_order(devs).len(),
            forall|m: int| 0 <= m < order.len() ==> #[trigger] order@[m] as int == device_order(devs)[m],
            forall|m: int| 0 <= m < order.len() ==> #[trigger] order@[m] < devices.len(),
            out.len() == k,
            forall|m: int| 0 <= m < k ==> *(#[trigger] out@[m]) == devs[order@[m] as int],
        decreases order.len() - k,
    {
        out.push(&devices[order[k]]);
        k += 1;
    }
    out
}

/// The positions of the listed devices, in listing order.
fn visible_order(devices: &Vec<BluetoothDevice>) -> (order: Vec<usize>)
    ensures
        order@.len() == device_order(devices@).len(),
        forall|m: int| 0 <= m < order.len() ==> #[trigger] order@[m] as int == device_order(devices@)[m],
        forall|m: int| 0 <= m < order.len() ==> #[trigger] order@[m] < devices.len(),
{
    let ghost devs = devices@;
    let mut kept: Vec<usize> = Vec::new();
    let mut i: usize = 0;
    while i < devices.len()
        invariant
            i <= devices.len(),
            devs == devices@,
            kept@.len() == kept_positions(devs.take(i as int), device_keep()).len(),
            forall|m: int|
                0 <= m < kept.len() ==> #[trigger] kept@[m] as int == kept_positions(
                    devs.take(i as int),
                    device_keep(),
                )[m],
            forall|m: int| 0 <= m < kept.len() ==> #[trigger] kept@[m] < i,
        decreases devices.len() - i,
    {
        proof {
            lemma_kept_positions_step(devs, i as int, device_keep());
        }
        if is_visible_device(&devices[i]) {
            kept.push(i);
        }
        i += 1;
    }
    proof {
        assert(devs.take(devices.len() as int) =~= devs);
    }
    let ghost positions = kept_positions(devs, device_keep());
    let mut sorted: Vec<usize> = Vec::new();
    let mut k: usize = 0;
    while k < kept.len()
        invariant
            k <= kept.len(),
            devs == devices@,
            kept@.len() == positions.len(),
            forall|m: int| 0 <= m < kept.len() ==> #[trigger] kept@[m] as int == positions[m],
            forall|m: int| 0 <= m < kept.len() ==> #[trigger] kept@[m] < devices.len(),
            sorted@.map_values(|p: usize| p as int) == sort_positions(devs, positions.take(k as int)),
            forall|m: int| 0 <= m < sorted.len() ==> #[trigger] sorted@[m] < devices.len(),
        decreases kept.len() - k,
    {
        let x = kept[k];
        let mut j = sorted.len();
        while j > 0 && !device_listed_no_later(&devices[sorted[j - 1]], &devices[x])
            invariant
                j <= sorted.len(),
                x < devices.len(),
                forall|m: int| 0 <= m < sorted.len() ==> #[trigger] sorted@[m] < devices.len(),
                forall|m: int|
                    j <= m < sorted.len() ==> !device_le(devs[sorted@[m] as int], devs[x as int]),
                devs == devices@,
            decreases j,
        {
            j -= 1;
        }
        proof {
            let sv = sorted@.map_values(|p: usize| p as int);
            lemma_insert_position(devs, sv, x as int, j as int);
            assert(positions.take(k + 1).drop_last() =~= positions.take(k as int));
            assert(positions.take(k + 1).last() == x as int);
            assert(sorted@.insert(j as int, x).map_values(|p: usize| p as int) =~= sv.insert(
                j as int,
                x as int,
            ));
        }
        sorted.insert(j, x);
        k += 1;
    }
    proof {
        assert(positions.take(kept.len() as int) =~= positions);
        assert forall|m: int| 0 <= m < sorted.len() implies #[trigger] sorted@[m] as int
            == device_order(devs)[m] by {
            assert(sorted@.map_values(|p: usize| p as int)[m] == sorted@[m] as int);
        }
    }
    sorted
}

/// Whether a device is listed.
pub fn is_visible_device(device: &BluetoothDevice) -> (out: bool)
    ensures
        out == device_shown(*device),
{
    if device.address.as_str().is_empty() {
        return false;
    }
    if device.name.as_str().is_empty() || looks_like_mac(device.name.as_str()) {
        return device.connected || device.paired || device.trusted;
    }
    device.connected || device.paired || device.trusted || device.rssi.is_some()
}

/// Whether `value`, trimmed, is a MAC address.
pub fn looks_like_mac(value: &str) -> (out: bool)
    ensures
        out == mac_like(value@),
{
    let t = trim_chars(&chars_of(value));
    if t.len() != 17 {
        return false;
    }
    let separator = if contains_char(&t, ':') {
        ':'
    } else {
        '-'
    };
    let mut i: usize = 0;
    while i < 17
        invariant
            i <= 17,
            t.len() == 17,
            t@ == trim(value@),
            separator == mac_separator(t@),
            forall|j: int|
                0 <= j < i ==> (if j % 3 == 2 {
                    t@[j] == separator
                } else {
                    is_hex_digit(t@[j])
                }),
        decreases 17 - i,
    {
        if i % 3 == 2 {
            if t[i] != separator {
                return false;
            }
        } else if !hex_digit(t[i]) {
            return false;
        }
        i += 1;
    }
    true
}

// ---------------------------------------------------------------------------
// Rows
// ---------------------------------------------------------------------------

/// What activating a device's row asks for: disconnect a connected device,
/// connect a paired one, pair any other.
pub open spec fn device_command(d: BluetoothDevice) -> Command {
    if d.connected {
        Command::Disconnect { address: d.address }
    } else if d.paired {
        Command::Connect { address: d.address }
    } else {
        Command::Pair { address: d.address }
    }
}

/// A device row's status: the battery charge when reported.
pub open spec fn device_status_text(d: BluetoothDevice) -> Seq<char> {
    match d.battery {
        Some(p) => percent(p as nat),
        None => Seq::empty(),
    }
}

/// The parts of a device's tooltip: its kind, then connected or paired.
pub open spec fn device_tooltip_parts(d: BluetoothDevice) -> Seq<Seq<char>> {
    let kind = if d.type_label@.len() > 0 {
        seq![d.type_label@]
    } else {
        Seq::empty()
    };
    let link = if d.connected {
        seq!["Connected"@]
    } else if d.paired {
        seq!["Paired"@]
    } else {
        Seq::empty()
    };
    kind + link
}

/// A device's tooltip: its parts joined by a middle dot, or its name when
/// there are none.
pub open spec fn device_tooltip_text(d: BluetoothDevice) -> Seq<char> {
    if device_tooltip_parts(d).len() == 0 {
        d.name@
    } else {
        join(device_tooltip_parts(d), " \u{b7} "@)
    }
}

/// The address of the device that the running operation is connecting or pairing.
pub open spec fn busy_address(state: State) -> Option<Seq<char>> {
    match state.active_action {
        Some(BluetoothActiveAction::Connect { address }) => Some(address@),
        Some(BluetoothActiveAction::Pair { address }) => Some(address@),
        _ => None,
    }
}

/// `item` is the row for `d` while `busy` is the busy device's address.
pub open spec fn is_device_row(
    item: DeviceListItem<Command>,
    d: BluetoothDevice,
    busy: Option<Seq<char>>,
) -> bool {
    &&& item.id@ == d.address@
    &&& item.label@ == d.name@
    &&& item.icon@ == d.icon@
    &&& item.status@ == device_status_text(d)
    &&& item.busy == (busy == Some(d.address@))
    &&& item.tooltip is Some
    &&& item.tooltip->0@ == device_tooltip_text(d)
    &&& item.active == d.connected
    &&& item.visible
    &&& item.command == Some(device_command(d))
}

/// The device rows, in listing order.
pub fn build_device_items(state: &State) -> (out: Vec<DeviceListItem<Command>>)
    ensures
        out.len() == device_order(state.snapshot.devices@).len(),
        forall|k: int|
            0 <= k < out.len() ==> is_device_row(
                #[trigger] out@[k],
                state.snapshot.devices@[device_order(state.snapshot.devices@)[k]],
                busy_address(*state),
            ),
{
    let busy = busy_device_address(state);
    let devices = visible_devices(&state.snapshot);
    let mut out: Vec<DeviceListItem<Command>> = Vec::new();
    let mut k: usize = 0;
    while k < devices.len()
        invariant
            k <= devices.len(),
            devices.len() == device_order(state.snapshot.devices@).len(),
            forall|m: int|
                0 <= m < devices.len() ==> *(#[trigger] devices@[m])
                    == state.snapshot.devices@[device_order(state.snapshot.devices@)[m]],
            match busy {
                Some(s) => busy_address(*state) == Some(s@),
                None => busy_address(*state) is None,
            },
            out.len() == k,
            forall|m: int|
                0 <= m < k ==> is_device_row(
                    #[trigger] out@[m],
                    *devices@[m],
                    busy_address(*state),
                ),
        decreases devices.len() - k,
    {
        let device = devices[k];
        let is_busy = match busy {
            Some(address) => eq_str(address, device.address.as_str()),
            None => false,
        };
        out.push(
            DeviceListItem {
                id: device.address.clone(),
                label: device.name.clone(),
                icon: device.icon.clone(),
                status: device_status(device),
                busy: is_busy,
                tooltip: Some(device_tooltip(device)),
                active: device.connected,
                visible: true,
                command: Some(primary_device_command(device)),
            },
        );
        k += 1;
    }
    out
}

/// The address of the device being connected or paired, if any.
pub fn busy_device_address(state: &State) -> (out: Option<&str>)
    ensures
        match out {
            Some(s) => busy_address(*state) == Some(s@),
            None => busy_address(*state) is None,
        },
{
    match &state.active_action {
        Some(BluetoothActiveAction::Connect { address }) => Some(address.as_str()),
        Some(BluetoothActiveAction::Pair { address }) => Some(address.as_str()),
        _ => None,
    }
}

/// The device that a command starts connecting or pairing, so that its row
/// shows as busy before the service reports back.
pub fn optimistic_busy_address(command: &Command) -> (out: Option<&str>)
    ensures
        match *command {
            Command::Connect { address } => out is Some && out->0@ == address@,
            Command::Pair { address } => out is Some && out->0@ == address@,
            _ => out is None,
        },
{
    match command {
        Command::Connect { address } => Some(address.as_str()),
        Command::Pair { address } => Some(address.as_str()),
        _ => None,
    }
}

/// Marks as busy exactly the row of `address` and clears the others; says
/// whether any row changed.
pub fn mark_device_busy(items: &mut Vec<DeviceListItem<Command>>, address: &str) -> (changed: bool)
    ensures
        final(items).len() == old(items).len(),
        forall|i: int|
            0 <= i < old(items).len() ==> #[trigger] final(items)@[i] == with_busy(
                old(items)@[i],
                old(items)@[i].id@ == address@,
            ),
        changed == exists|i: int|
            0 <= i < old(items).len() && #[trigger] old(items)@[i].busy != (old(items)@[i].id@
                == address@),
{
    let ghost before = items@;
    let mut changed = false;
    let mut i: usize = 0;
    while i < items.len()
        invariant
            i <= items.len(),
            items.len() == before.len(),
            forall|j: int|
                0 <= j < i ==> #[trigger] items@[j] == with_busy(before[j], before[j].id@ == address@),
            forall|j: int| i <= j < items.len() ==> #[trigger] items@[j] == before[j],
            changed == exists|j: int|
                0 <= j < i && #[trigger] before[j].busy != (before[j].id@ == address@),
        decreases items.len() - i,
    {
        let busy = eq_str(items[i].id.as_str(), address);
        if items[i].busy != busy {
            items[i].busy = busy;
            changed = true;
        }
        assert(items@[i as int] == with_busy(before[i as int], before[i as int].id@ == address@));
        i += 1;
    }
    changed
}

/// What activating a device's row asks for.
pub fn primary_device_command(device: &BluetoothDevice) -> (out: Command)
    ensures
        out == device_command(*device),
{
    if device.connected {
        Command::Disconnect { address: device.address.clone() }
    } else if device.paired {
        Command::Connect { address: device.address.clone() }
    } else {
        Command::Pair { address: device.address.clone() }
    }
}

/// A device row's status text.
pub fn device_status(device: &BluetoothDevice) -> (out: String)
    ensures
        out@ == device_status_text(*device),
{
    match device.battery {
        Some(p) => percent_text(p as u64),
        None => String::new(),
    }
}

/// A device's tooltip.
pub fn device_tooltip(device: &BluetoothDevice) -> (out: String)
    ensures
        out@ == device_tooltip_text(*device),
{
    let mut parts: Vec<String> = Vec::new();
    if !device.type_label.as_str().is_empty() {
        parts.push(device.type_label.clone());
    }
    if device.connected {
        parts.push(owned("Connected"));
    } else if device.paired {
        parts.push(owned("Paired"));
    }
    proof {
        assert(views(parts@) =~= device_tooltip_parts(*device));
    }
    if parts.len() == 0 {
        device.name.clone()
    } else {
        join_strings(&parts, " \u{b7} ")
    }
}

// ---------------------------------------------------------------------------
// Header
// ---------------------------------------------------------------------------

/// The first device with the given address.
pub open spec fn find_device(devs: Seq<BluetoothDevice>, address: Seq<char>) -> Option<BluetoothDevice>
    decreases devs.len(),
{
    if devs.len() == 0 {
        None
    } else if devs[0].address@ == address {
        Some(devs[0])
    } else {
        find_device(devs.drop_first(), address)
    }
}

/// The name shown for an address: the name of its device, or the address itself.
pub open spec fn device_name_text(snapshot: BluetoothSnapshot, address: Seq<char>) -> Seq<char> {
    match find_device(snapshot.devices@, address) {
        Some(d) => d.name@,
        None => address,
    }
}

/// The popover's sentence for the operation in progress.
pub open spec fn popover_action_text(state: State) -> Option<Seq<char>> {
    match state.active_action {
        None => None,
        Some(action) => Some(
            match action {
                BluetoothActiveAction::SetPowered(on) => if on {
                    "Turning Bluetooth on"@
                } else {
                    "Turning Bluetooth off"@
                },
                BluetoothActiveAction::SetAdapterPowered { powered, .. } => if powered {
                    "Turning adapter on"@
                } else {
                    "Turning adapter off"@
                },
                BluetoothActiveAction::SetAdapterDiscoverable { discoverable, .. } => if discoverable {
                    "Making adapter discoverable"@
                } else {
                    "Hiding adapter"@
                },
                BluetoothActiveAction::Connect { address } => "Connecting "@ + device_name_text(
                    state.snapshot,
                    address@,
                ),
                BluetoothActiveAction::Disconnect { address } => "Disconnecting "@
                    + device_name_text(state.snapshot, address@),
                BluetoothActiveAction::Pair { address } => "Pairing "@ + device_name_text(
                    state.snapshot,
                    address@,
                ),
                BluetoothActiveAction::Trust { address, trusted } => if trusted {
                    "Trusting "@ + device_name_text(state.snapshot, address@)
                } else {
                    "Untrusting "@ + device_name_text(state.snapshot, address@)
                },
                BluetoothActiveAction::Forget { address } => "Forgetting "@ + device_name_text(
                    state.snapshot,
                    address@,
                ),
            },
        ),
    }
}

/// The popover's subtitle: the service's health unless ready, then the
/// operation in progress, then power, discovery and connections.
pub open spec fn hero_subtitle_of(state: State) -> Seq<char> {
    match health_title(state.health) {
        Some(t) => t,
        None => match popover_action_text(state) {
            Some(t) => t,
            None => if !state.snapshot.status.powered {
                "Off"@
            } else if state.snapshot.status.discovering {
                "Discovering"@
            } else if state.snapshot.status.connected_count > 0 {
                decimal(state.snapshot.status.connected_count as nat) + " connected"@
            } else {
                "Ready"@
            },
        },
    }
}

/// The icon for the adapter's state: off, with connections, or idle.
pub open spec fn bluetooth_icon(state: State) -> Seq<char> {
    if !state.snapshot.status.powered {
        "bluetooth-disabled-symbolic"@
    } else if state.snapshot.status.connected_count > 0 {
        "bluetooth-active-symbolic"@
    } else {
        "bluetooth-symbolic"@
    }
}

/// The popover's header icon.
pub fn hero_icon_name_for_state(state: &State) -> (out: &'static str)
    ensures
        out@ == bluetooth_icon(*state),
{
    if !state.snapshot.status.powered {
        "bluetooth-disabled-symbolic"
    } else if state.snapshot.status.connected_count > 0 {
        "bluetooth-active-symbolic"
    } else {
        "bluetooth-symbolic"
    }
}

/// The panel icon.
pub fn icon_name_for_state(state: &State) -> (out: &'static str)
    ensures
        out@ == bluetooth_icon(*state),
{
    hero_icon_name_for_state(state)
}

/// The popover's subtitle.
pub fn hero_subtitle_text(state: &State) -> (out: String)
    ensures
        out@ == hero_subtitle_of(*state),
{
    match &state.health {
        ServiceHealth::Starting => return owned("Starting"),
        ServiceHealth::Reconnecting { .. } => return owned("Reconnecting"),
        ServiceHealth::Degraded { message } => return message.clone(),
        ServiceHealth::Ready => {},
    }
    if let Some(activity) = active_action_text(state) {
        return activity;
    }
    let status = &state.snapshot.status;
    if !status.powered {
        owned("Off")
    } else if status.discovering {
        owned("Discovering")
    } else if status.connected_count > 0 {
        string_of(
            &concat_chars(&decimal_chars(status.connected_count as u64), &chars_of(" connected")),
        )
    } else {
        owned("Ready")
    }
}

/// The popover's sentence for the operation in progress, if any.
pub fn active_action_text(state: &State) -> (out: Option<String>)
    ensures
        match out {
            Some(s) => popover_action_text(*state) == Some(s@),
            None => popover_action_text(*state) is None,
        },
{
    let action = match &state.active_action {
        Some(a) => a,
        None => return None,
    };
    let text = match action {
        BluetoothActiveAction::SetPowered(on) => if *on {
            owned("Turning Bluetooth on")
        } else {
            owned("Turning Bluetooth off")
        },
        BluetoothActiveAction::SetAdapterPowered { powered, .. } => if *powered {
            owned("Turning adapter on")
        } else {
            owned("Turning adapter off")
        },
        BluetoothActiveAction::SetAdapterDiscoverable { discoverable, .. } => if *discoverable {
            owned("Making adapter discoverable")
        } else {
            owned("Hiding adapter")
        },
        BluetoothActiveAction::Connect { address } => prefixed(
            "Connecting ",
            device_name(&state.snapshot, address.as_str()),
        ),
        BluetoothActiveAction::Disconnect { address } => prefixed(
            "Disconnecting ",
            device_name(&state.snapshot, address.as_str()),
        ),
        BluetoothActiveAction::Pair { address } => prefixed(
            "Pairing ",
            device_name(&state.snapshot, address.as_str()),
        ),
        BluetoothActiveAction::Trust { address, trusted } => if *trusted {
            prefixed("Trusting ", device_name(&state.snapshot, address.as_str()))
        } else {
            prefixed("Untrusting ", device_name(&state.snapshot, address.as_str()))
        },
        BluetoothActiveAction::Forget { address } => prefixed(
            "Forgetting ",
            device_name(&state.snapshot, address.as_str()),
        ),
    };
    Some(text)
}

/// `head` followed by `tail`.
fn prefixed(head: &str, tail: String) -> (out: String)
    ensures
        out@ == head@ + tail@,
{
    string_of(&concat_chars(&chars_of(head), &chars_of(tail.as_str())))
}

/// The name shown for an address.
pub fn device_name(snapshot: &BluetoothSnapshot, address: &str) -> (out: String)
    ensures
        out@ == device_name_text(*snapshot, address@),
{
    let devices = &snapshot.devices;
    let mut i: usize = 0;
    assert(devices@.skip(0) =~= devices@);
    while i < devices.len()
        invariant
            i <= devices.len(),
            devices@ == snapshot.devices@,
            find_device(devices@, address@) == find_device(devices@.skip(i as int), address@),
        decreases devices.len() - i,
    {
        assert(devices@.skip(i as int)[0] == devices@[i as int]);
        if eq_str(devices[i].address.as_str(), address) {
            assert(find_device(devices@.skip(i as int), address@) == Some(devices@[i as int]));
            return devices[i].name.clone();
        }
        assert(devices@.skip(i as int).drop_first() =~= devices@.skip(i + 1));
        i += 1;
    }
    owned(address)
}

} // verus!
