use glimpse_shell::brightness::{
    filter_sources, hero_subtitle, icon_name, should_apply_service_percent, tooltip,
    uses_discrete_scale, visible_state, BrightnessSource, BrightnessSourceKind, Config,
    PendingBrightness, State, DEFAULT_TOOLTIP_FORMAT, ICON_NAME,
};
use glimpse_shell::compositor::{Monitor, State as CompositorState};
use glimpse_shell::row_sync::{row_sync_ops, RowSyncOp};

fn source(id: &str, kind: BrightnessSourceKind, primary: bool) -> BrightnessSource {
    BrightnessSource {
        id: id.into(),
        name: id.into(),
        kind,
        icon: "display-brightness-symbolic".into(),
        current: 50,
        max: 100,
        percent: 50,
        writable: true,
        primary,
        available: true,
    }
}

fn monitor(name: &str, active_workspace: Option<usize>) -> Monitor {
    Monitor {
        id: None,
        name: name.into(),
        description: None,
        active_workspace,
        focused: false,
    }
}

#[test]
fn config_defaults_to_empty_label_and_ten_percent_scroll() {
    let config = Config::default();

    assert_eq!(config.label_format, "");
    assert_eq!(config.scroll_step, 10);
}

#[test]
fn icon_uses_primary_source() {
    let state = State {
        available: true,
        sources: vec![BrightnessSource {
            name: "Intel backlight".into(),
            ..source("backlight:intel_backlight", BrightnessSourceKind::BuiltInDisplay, true)
        }],
    };

    assert_eq!(icon_name(&state), "display-brightness-symbolic");
}

#[test]
fn visible_state_hides_builtin_display_when_internal_monitor_is_inactive() {
    let state = State {
        available: true,
        sources: vec![
            source("backlight:intel_backlight", BrightnessSourceKind::BuiltInDisplay, true),
            source("keyboard:upower", BrightnessSourceKind::Keyboard, false),
        ],
    };
    let compositor = CompositorState {
        monitors: vec![monitor("eDP-1", None)],
        ..CompositorState::default()
    };

    let visible = visible_state(&state, &compositor);

    assert_eq!(visible.sources.len(), 1);
    assert_eq!(visible.sources[0].id, "keyboard:upower");
    assert!(visible.sources[0].primary);
}

#[test]
fn visible_state_keeps_builtin_display_when_internal_monitor_is_active() {
    let state = State {
        available: true,
        sources: vec![source(
            "backlight:intel_backlight",
            BrightnessSourceKind::BuiltInDisplay,
            true,
        )],
    };
    let compositor = CompositorState {
        monitors: vec![monitor("eDP-1", Some(1))],
        ..CompositorState::default()
    };

    let visible = visible_state(&state, &compositor);

    assert_eq!(visible.sources.len(), 1);
    assert_eq!(visible.sources[0].id, "backlight:intel_backlight");
}

#[test]
fn visible_state_keeps_builtin_display_when_compositor_outputs_are_unknown() {
    let state = State {
        available: true,
        sources: vec![source(
            "backlight:intel_backlight",
            BrightnessSourceKind::BuiltInDisplay,
            true,
        )],
    };

    let visible = visible_state(&state, &CompositorState::default());

    assert_eq!(visible.sources.len(), 1);
}

#[test]
fn row_sync_ops_preserves_stable_rows() {
    let current: Vec<String> = vec!["a".into(), "b".into()];
    let next: Vec<String> = vec!["b".into(), "c".into()];
    let ops = row_sync_ops(&current, &next);

    assert_eq!(
        ops,
        vec![
            RowSyncOp::Move { from: 1, to: 0 },
            RowSyncOp::Insert { at: 1 },
            RowSyncOp::Remove { at: 2 },
        ]
    );
}

#[test]
fn keyboard_sources_use_a_discrete_scale() {
    let kbd = BrightnessSource {
        current: 1,
        max: 3,
        percent: 33,
        ..source("kbd", BrightnessSourceKind::Keyboard, false)
    };
    let display = source("display", BrightnessSourceKind::BuiltInDisplay, false);

    assert!(uses_discrete_scale(&kbd));
    assert!(!uses_discrete_scale(&display));
}

#[test]
fn pending_brightness_ignores_recent_stale_service_values() {
    let now = 5_000;
    let mut pending = Some(PendingBrightness { percent: 80, changed_at_ms: now });

    assert!(!should_apply_service_percent(&mut pending, 40, now));
    assert!(pending.is_some());
}

#[test]
fn pending_brightness_clears_when_service_catches_up() {
    let now = 5_000;
    let mut pending = Some(PendingBrightness { percent: 80, changed_at_ms: now });

    assert!(should_apply_service_percent(&mut pending, 80, now));
    assert!(pending.is_none());
}

#[test]
fn tooltip_uses_primary_source() {
    let state = State {
        available: true,
        sources: vec![BrightnessSource {
            name: "Intel backlight".into(),
            ..source("backlight:intel_backlight", BrightnessSourceKind::BuiltInDisplay, true)
        }],
    };

    assert_eq!(tooltip(DEFAULT_TOOLTIP_FORMAT, &state), "Intel backlight: 50%");
}

#[test]
fn hero_subtitle_never_includes_percent() {
    let state = State {
        available: true,
        sources: vec![BrightnessSource {
            name: "Built-in display".into(),
            icon: "input-keyboard-symbolic".into(),
            ..source("backlight:intel_backlight", BrightnessSourceKind::BuiltInDisplay, true)
        }],
    };

    assert_eq!(hero_subtitle(&state), "Built-in display");
    assert!(!hero_subtitle(&state).contains('%'));
}

#[test]
fn icon_name_is_always_brightness_icon() {
    let state = State {
        available: true,
        sources: vec![BrightnessSource {
            name: "Keyboard backlight".into(),
            icon: "input-keyboard-symbolic".into(),
            current: 1,
            max: 3,
            percent: 33,
            ..source("keyboard:upower", BrightnessSourceKind::Keyboard, true)
        }],
    };

    assert_eq!(icon_name(&state), ICON_NAME);
}

#[test]
fn filter_sources_groups_displays_together() {
    let sources = vec![
        source("backlight", BrightnessSourceKind::BuiltInDisplay, false),
        source("ddc", BrightnessSourceKind::ExternalDisplay, false),
        source("kbd", BrightnessSourceKind::Keyboard, false),
    ];

    let displays = filter_sources(
        &sources,
        &[BrightnessSourceKind::BuiltInDisplay, BrightnessSourceKind::ExternalDisplay],
    );

    assert_eq!(displays.len(), 2);
}

#[test]
fn filter_sources_hides_disabled_sources() {
    let mut disabled = source("disabled", BrightnessSourceKind::BuiltInDisplay, false);
    disabled.writable = false;
    let sources = vec![
        disabled,
        source("enabled", BrightnessSourceKind::BuiltInDisplay, false),
    ];

    let displays = filter_sources(&sources, &[BrightnessSourceKind::BuiltInDisplay]);

    assert_eq!(displays.len(), 1);
    assert_eq!(displays[0].id, "enabled");
}

#[test]
fn filter_sources_excludes_primary_source() {
    let sources = vec![
        source("primary", BrightnessSourceKind::BuiltInDisplay, true),
        source("secondary", BrightnessSourceKind::ExternalDisplay, false),
    ];

    let displays = filter_sources(
        &sources,
        &[BrightnessSourceKind::BuiltInDisplay, BrightnessSourceKind::ExternalDisplay],
    );

    assert_eq!(displays.len(), 1);
    assert_eq!(displays[0].id, "secondary");
}
