use glimpse_shell::audio::{
    label, tooltip, AudioDevice, Command, State, DEFAULT_LABEL_FORMAT, DEFAULT_TOOLTIP_FORMAT,
};
use glimpse_shell::audio_popover::{
    device_tooltip, hero_subtitle, input_icon_name, input_items, output_items,
    should_apply_service_volume, stream_items, PendingVolume, VOLUME_ECHO_GRACE_MS,
};
use glimpse_shell::audio::AudioStream;

fn speakers(volume: u32, muted: bool) -> AudioDevice {
    AudioDevice {
        index: 1,
        name: "sink".into(),
        description: "Speakers".into(),
        volume,
        muted,
        is_default: true,
        icon_name: "audio-speakers-symbolic".into(),
    }
}

#[test]
fn default_label_is_empty() {
    assert_eq!(label(DEFAULT_LABEL_FORMAT, &State::default()), "");
}

#[test]
fn tooltip_uses_default_output_placeholders() {
    let mut state = State {
        available: true,
        ..State::default()
    };
    state.outputs.push(speakers(64, false));

    assert_eq!(tooltip(DEFAULT_TOOLTIP_FORMAT, &state), "Speakers - 64%");
    assert_eq!(label("{state}", &state), "ready");
}

#[test]
fn output_items_map_devices_to_device_list_commands() {
    let items = output_items(&[speakers(70, false)]);

    assert_eq!(items.len(), 1);
    assert_eq!(items[0].label, "Speakers");
    assert_eq!(items[0].status, "70%");
    assert_eq!(
        items[0].command,
        Some(Command::SetDefaultOutput("sink".into()))
    );
}

#[test]
fn pending_volume_ignores_recent_stale_service_values() {
    let now = 10_000;
    let mut pending = Some(PendingVolume { value: 80, changed_at_ms: now });

    assert!(!should_apply_service_volume(&mut pending, 40, now));
    assert!(pending.is_some());
}

#[test]
fn pending_volume_clears_when_service_catches_up() {
    let now = 10_000;
    let mut pending = Some(PendingVolume { value: 80, changed_at_ms: now });

    assert!(should_apply_service_volume(&mut pending, 80, now));
    assert!(pending.is_none());
}

#[test]
fn pending_volume_expires_if_service_never_catches_up() {
    let now = 10_000;
    let mut pending = Some(PendingVolume {
        value: 80,
        changed_at_ms: now - VOLUME_ECHO_GRACE_MS - 1,
    });

    assert!(should_apply_service_volume(&mut pending, 40, now));
    assert!(pending.is_none());
}

#[test]
fn pending_volume_waits_exactly_the_grace_period() {
    let mut pending = Some(PendingVolume { value: 80, changed_at_ms: 0 });
    assert!(!should_apply_service_volume(&mut pending, 40, VOLUME_ECHO_GRACE_MS - 1));
    assert!(should_apply_service_volume(&mut pending, 40, VOLUME_ECHO_GRACE_MS));
    assert!(pending.is_none());
    assert!(should_apply_service_volume(&mut pending, 40, 0));
}

#[test]
fn input_items_select_default_input() {
    let mut mic = speakers(30, true);
    mic.name = "source".into();
    mic.description = "Microphone".into();
    let items = input_items(&[mic]);

    assert_eq!(items[0].status, "Muted");
    assert_eq!(items[0].tooltip.as_deref(), Some("Microphone muted"));
    assert_eq!(items[0].command, Some(Command::SetDefaultInput("source".into())));
    assert!(items[0].active);
}

#[test]
fn stream_items_toggle_stream_mute() {
    let items = stream_items(&[AudioStream {
        index: 42,
        app_name: "Firefox".into(),
        app_icon: "firefox".into(),
        volume: 55,
        muted: false,
    }]);

    assert_eq!(items[0].id, "42");
    assert_eq!(items[0].status, "55%");
    assert_eq!(items[0].tooltip.as_deref(), Some("55%"));
    assert_eq!(items[0].command, Some(Command::ToggleStreamMute(42)));
    assert!(!items[0].active);
}

#[test]
fn audio_hero_subtitle_reports_default_output() {
    let mut state = State::default();
    assert_eq!(hero_subtitle(&state), "Unavailable");
    state.available = true;
    assert_eq!(hero_subtitle(&state), "No output device");
    state.outputs.push(speakers(50, true));
    assert_eq!(hero_subtitle(&state), "Speakers muted");
    state.outputs[0].muted = false;
    assert_eq!(hero_subtitle(&state), "Speakers");
}

#[test]
fn audio_device_tooltip_and_input_icon() {
    assert_eq!(device_tooltip(&speakers(64, false)), "Speakers 64%");
    assert_eq!(device_tooltip(&speakers(64, true)), "Speakers muted");
    assert_eq!(input_icon_name(None), "audio-input-microphone-symbolic");
    assert_eq!(
        input_icon_name(Some(&speakers(10, true))),
        "microphone-sensitivity-muted-symbolic"
    );
}
