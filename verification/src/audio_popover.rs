//! The audio popover: device and stream rows, its header texts, and how a
//! volume the user set survives stale reports from the service.
use vstd::prelude::*;

use crate::audio::{AudioDevice, AudioStream, Command, State, first_default};
use crate::device_list::DeviceListItem;
use crate::text::{chars_of, concat_chars, decimal, decimal_chars, owned, percent, percent_text, string_of};

verus! {

/// How long a volume the user set wins over different reports, in milliseconds.
pub const VOLUME_ECHO_GRACE_MS: u64 = 2000;

/// The shortest time between two volume commands while a slider moves, in milliseconds.
pub const VOLUME_COMMAND_INTERVAL_MS: u64 = 50;

/// A volume the user set that the service has not confirmed yet.
#[derive(Debug, Clone, Copy, PartialEq, Eq, Structural)]
pub struct PendingVolume {
    pub value: u32,
    /// When it was set, in milliseconds on a monotonic clock.
    pub changed_at_ms: u64,
}

impl PendingVolume {
    /// A volume set at `now_ms`.
    pub fn new(value: u32, now_ms: u64) -> (p: Self)
        ensures
            p.value == value,
            p.changed_at_ms == now_ms,
    {
        PendingVolume { value, changed_at_ms: now_ms }
    }
}

/// Whether a volume reported by the service should be shown. Without a
/// pending volume it always is; a matching report confirms and clears the
/// pending volume; a different report is ignored while the pending volume is
/// younger than the grace period, and clears it afterwards.
pub fn should_apply_service_volume(
    pending: &mut Option<PendingVolume>,
    service_volume: u32,
    now_ms: u64,
) -> (apply: bool)
    ensures
        match *old(pending) {
            None => apply && *final(pending) == None::<PendingVolume>,
            Some(p) => if p.value == service_volume {
                apply && *final(pending) == None::<PendingVolume>
            } else if now_ms < p.changed_at_ms || now_ms - p.changed_at_ms < VOLUME_ECHO_GRACE_MS {
                !apply && *final(pending) == *old(pending)
            } else {
                apply && *final(pending) == None::<PendingVolume>
            },
        },
{
    let value = match *pending {
        None => return true,
        Some(value) => value,
    };
    if value.value == service_volume {
        *pending = None;
        return true;
    }
    if now_ms < value.changed_at_ms || now_ms - value.changed_at_ms < VOLUME_ECHO_GRACE_MS {
        return false;
    }
    *pending = None;
    true
}

/// A device or stream row's status: "Muted", or the volume.
pub open spec fn volume_status(volume: u32, muted: bool) -> Seq<char> {
    if muted {
        "Muted"@
    } else {
        percent(volume as nat)
    }
}

/// A device's tooltip: its description, muted or with its volume.
pub open spec fn device_tooltip_text(d: AudioDevice) -> Seq<char> {
    if d.muted {
        d.description@ + " muted"@
    } else {
        d.description@ + " "@ + percent(d.volume as nat)
    }
}

/// `item` is the row for device `d`, activating it sends `command`.
pub open spec fn is_device_row(item: DeviceListItem<Command>, d: AudioDevice, command: Command) -> bool {
    &&& item.id == d.name
    &&& item.icon == d.icon_name
    &&& item.label == d.description
    &&& item.status@ == volume_status(d.volume, d.muted)
    &&& !item.busy
    &&& item.tooltip is Some
    &&& item.tooltip->0@ == device_tooltip_text(d)
    &&& item.active == d.is_default
    &&& item.visible
    &&& item.command == Some(command)
}

/// `item` is the row for stream `s`.
pub open spec fn is_stream_row(item: DeviceListItem<Command>, s: AudioStream) -> bool {
    &&& item.id@ == decimal(s.index as nat)
    &&& item.icon == s.app_icon
    &&& item.label == s.app_name
    &&& item.status@ == volume_status(s.volume, s.muted)
    &&& !item.busy
    &&& item.tooltip is Some
    &&& item.tooltip->0@ == percent(s.volume as nat)
    &&& !item.active
    &&& item.visible
    &&& item.command == Some(Command::ToggleStreamMute(s.index))
}

/// The row of one device.
fn device_row(device: &AudioDevice, command: Command) -> (item: DeviceListItem<Command>)
    ensures
        is_device_row(item, *device, command),
{
    DeviceListItem {
        id: device.name.clone(),
        icon: device.icon_name.clone(),
        label: device.description.clone(),
        status: volume_status_text(device.volume, device.muted),
        busy: false,
        tooltip: Some(device_tooltip(device)),
        active: device.is_default,
        visible: true,
        command: Some(command),
    }
}

/// "Muted", or the volume.
fn volume_status_text(volume: u32, muted: bool) -> (out: String)
    ensures
        out@ == volume_status(volume, muted),
{
    if muted {
        owned("Muted")
    } else {
        percent_text(volume as u64)
    }
}

/// The output rows, one per device; activating one makes it the default output.
pub fn output_items(devices: &[AudioDevice]) -> (out: Vec<DeviceListItem<Command>>)
    ensures
        out.len() == devices.len(),
        forall|k: int|
            0 <= k < out.len() ==> is_device_row(
                #[trigger] out@[k],
                devices@[k],
                Command::SetDefaultOutput(devices@[k].name),
            ),
{
    let mut out: Vec<DeviceListItem<Command>> = Vec::new();
    let mut i: usize = 0;
    while i < devices.len()
        invariant
            i <= devices.len(),
            out.len() == i,
            forall|k: int|
                0 <= k < i ==> is_device_row(
                    #[trigger] out@[k],
                    devices@[k],
                    Command::SetDefaultOutput(devices@[k].name),
                ),
        decreases devices.len() - i,
    {
        let device = &devices[i];
        out.push(device_row(device, Command::SetDefaultOutput(device.name.clone())));
        i += 1;
    }
    out
}

/// The input rows, one per device; activating one makes it the default input.
pub fn input_items(devices: &[AudioDevice]) -> (out: Vec<DeviceListItem<Command>>)
    ensures
        out.len() == devices.len(),
        forall|k: int|
            0 <= k < out.len() ==> is_device_row(
                #[trigger] out@[k],
                devices@[k],
                Command::SetDefaultInput(devices@[k].name),
            ),
{
    let mut out: Vec<DeviceListItem<Command>> = Vec::new();
    let mut i: usize = 0;
    while i < devices.len()
        invariant
            i <= devices.len(),
            out.len() == i,
            forall|k: int|
                0 <= k < i ==> is_device_row(
                    #[trigger] out@[k],
                    devices@[k],
                    Command::SetDefaultInput(devices@[k].name),
                ),
        decreases devices.len() - i,
    {
        let device = &devices[i];
        out.push(device_row(device, Command::SetDefaultInput(device.name.clone())));
        i += 1;
    }
    out
}

/// The stream rows, one per playing application; activating one toggles its mute.
pub fn stream_items(streams: &[AudioStream]) -> (out: Vec<DeviceListItem<Command>>)
    ensures
        out.len() == streams.len(),
        forall|k: int| 0 <= k < out.len() ==> is_stream_row(#[trigger] out@[k], streams@[k]),
{
    let mut out: Vec<DeviceListItem<Command>> = Vec::new();
    let mut i: usize = 0;
    while i < streams.len()
        invariant
            i <= streams.len(),
            out.len() == i,
            forall|k: int| 0 <= k < i ==> is_stream_row(#[trigger] out@[k], streams@[k]),
        decreases streams.len() - i,
    {
        let stream = &streams[i];
        out.push(
            DeviceListItem {
                id: string_of(&decimal_chars(stream.index as u64)),
                icon: stream.app_icon.clone(),
                label: stream.app_name.clone(),
                status: volume_status_text(stream.volume, stream.muted),
                busy: false,
                tooltip: Some(percent_text(stream.volume as u64)),
                active: false,
                visible: true,
                command: Some(Command::ToggleStreamMute(stream.index)),
            },
        );
        i += 1;
    }
    out
}

/// The popover's subtitle: unavailable, the default output (muted or not), or
/// that there is none.
pub open spec fn hero_subtitle_of(state: State) -> Seq<char> {
    if !state.available {
        "Unavailable"@
    } else {
        match first_default(state.outputs@) {
            Some(d) => if d.muted {
                d.description@ + " muted"@
            } else {
                d.description@
            },
            None => "No output device"@,
        }
    }
}

/// The popover's subtitle.
pub fn hero_subtitle(state: &State) -> (out: String)
    ensures
        out@ == hero_subtitle_of(*state),
{
    if !state.available {
        return owned("Unavailable");
    }
    match state.default_output() {
        Some(device) => if device.muted {
            string_of(&concat_chars(&chars_of(device.description.as_str()), &chars_of(" muted")))
        } else {
            device.description.clone()
        },
        None => owned("No output device"),
    }
}

/// The microphone icon: muted when the input is muted.
pub fn input_icon_name(device: Option<&AudioDevice>) -> (out: &'static str)
    ensures
        out@ == (if device is Some && device->0.muted {
            "microphone-sensitivity-muted-symbolic"@
        } else {
            "audio-input-microphone-symbolic"@
        }),
{
    match device {
        Some(device) if device.muted => "microphone-sensitivity-muted-symbolic",
        _ => "audio-input-microphone-symbolic",
    }
}

/// A device's tooltip.
pub fn device_tooltip(device: &AudioDevice) -> (out: String)
    ensures
        out@ == device_tooltip_text(*device),
{
    let description = chars_of(device.description.as_str());
    if device.muted {
        string_of(&concat_chars(&description, &chars_of(" muted")))
    } else {
        let head = concat_chars(&description, &chars_of(" "));
        string_of(&concat_chars(&head, &chars_of(percent_text(device.volume as u64).as_str())))
    }
}

} // verus!
