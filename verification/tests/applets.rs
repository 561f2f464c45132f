use glimpse_shell::command_applet::{
    can_launch, has_visible_menu_items, log_output_text, view_from_config, Config,
    MenuItemConfig, MAX_LOG_OUTPUT_BYTES,
};
use glimpse_shell::exec_applet::{
    can_launch as exec_can_launch, status_item_key, Config as ExecConfig,
};
use glimpse_shell::exec_protocol::{parse_child_frame, ChildCommandKind, ProtocolError, StatusItem};
use glimpse_shell::keyboard::{
    layout_label, layout_tooltip, view_from_state, KeyboardLayout, KeyboardState, State,
};

#[test]
fn empty_command_config_does_not_launch() {
    assert!(!can_launch(&Config::default()));
}

#[test]
fn icon_only_config_can_launch() {
    assert!(can_launch(&Config {
        icon: Some("camera-photo-symbolic".into()),
        ..Config::default()
    }));
}

#[test]
fn label_only_config_can_launch() {
    assert!(can_launch(&Config {
        label: Some("Shot".into()),
        ..Config::default()
    }));
}

#[test]
fn view_splits_icon_names_and_paths() {
    let named = view_from_config(&Config {
        icon: Some("camera-photo-symbolic".into()),
        ..Config::default()
    });
    assert!(named.has_named_icon);
    assert_eq!(named.icon_name.as_deref(), Some("camera-photo-symbolic"));
    assert!(!named.has_path_icon);
    assert_eq!(named.icon_path, None);

    let path = view_from_config(&Config {
        icon: Some("/tmp/icon.png".into()),
        ..Config::default()
    });
    assert!(!path.has_named_icon);
    assert_eq!(path.icon_name, None);
    assert!(path.has_path_icon);
    assert_eq!(path.icon_path.as_deref(), Some("/tmp/icon.png"));
}

#[test]
fn menu_visibility_ignores_empty_items() {
    assert!(!has_visible_menu_items(&[MenuItemConfig {
        label: "Open".into(),
        command: Vec::new(),
    }]));
    assert!(has_visible_menu_items(&[MenuItemConfig {
        label: "Open".into(),
        command: vec!["true".into()],
    }]));
}

#[test]
fn log_output_text_trims_and_truncates() {
    assert_eq!(log_output_text(b"hello\n"), "hello");

    let long = vec![b'x'; MAX_LOG_OUTPUT_BYTES + 1];
    let output = log_output_text(&long);
    assert!(output.ends_with("\n... truncated"));
    assert!(output.len() > MAX_LOG_OUTPUT_BYTES);
}

#[test]
fn empty_tooltip_is_ignored() {
    let view = view_from_config(&Config {
        icon: Some("camera-photo-symbolic".into()),
        tooltip: Some(String::new()),
        ..Config::default()
    });

    assert_eq!(view.tooltip, None);
}

#[test]
fn empty_command_configs_do_not_launch() {
    assert!(!exec_can_launch(&ExecConfig::default()));
}

#[test]
fn command_configs_can_launch() {
    let config = ExecConfig {
        command: vec!["/tmp/example".into()],
        ..ExecConfig::default()
    };

    assert!(exec_can_launch(&config));
}

#[test]
fn status_item_keys_prefer_protocol_ids() {
    let item = StatusItem {
        id: Some("cpu".into()),
        icon: None,
        label: Some("10%".into()),
        tooltip: None,
    };

    assert_eq!(status_item_key(3, &item), "id:cpu");
}

#[test]
fn status_item_keys_fall_back_to_index_without_id() {
    let item = StatusItem {
        id: None,
        icon: None,
        label: Some("10%".into()),
        tooltip: None,
    };

    assert_eq!(status_item_key(3, &item), "index:3");
}

#[test]
fn child_frames_name_their_command() {
    let frame = parse_child_frame("  status {\"items\":[]}\n").expect("status frame");
    assert_eq!(frame.kind, ChildCommandKind::Status);
    assert_eq!(frame.payload, "{\"items\":[]}");
    assert!(matches!(parse_child_frame("   "), Err(ProtocolError::MissingCommand)));
    assert!(matches!(
        parse_child_frame("status"),
        Err(ProtocolError::MissingPayload { command }) if command == "status"
    ));
    assert!(matches!(
        parse_child_frame("entry {}"),
        Err(ProtocolError::UnknownCommand { command }) if command == "entry"
    ));
}

fn layout(index: usize, label: &str) -> KeyboardLayout {
    KeyboardLayout {
        index,
        name: label.to_lowercase(),
        code: label.into(),
        label: label.into(),
    }
}

#[test]
fn view_hides_when_keyboard_service_is_unavailable() {
    let state = State::default();

    assert!(!view_from_state(&KeyboardState::from_state(&state)).visible);
}

#[test]
fn view_uses_normalized_service_layout() {
    let state = State {
        available: true,
        layouts: vec![layout(0, "US"), layout(1, "PL")],
        current_layout: Some(layout(1, "PL")),
        current_index: Some(1),
    };
    let view = view_from_state(&KeyboardState::from_state(&state));

    assert!(view.visible);
    assert_eq!(view.label, "PL");
    assert_eq!(view.tooltip, "pl");
}

#[test]
fn view_ignores_applet_label_config_because_service_normalizes_labels() {
    let state = State {
        available: true,
        layouts: vec![layout(0, "US")],
        current_layout: Some(layout(0, "US")),
        current_index: Some(0),
    };
    let view = view_from_state(&KeyboardState::from_state(&state));

    assert_eq!(view.label, "US");
}

#[test]
fn layout_label_uses_normalized_service_label() {
    let layout = KeyboardLayout {
        index: 0,
        name: "English (US)".into(),
        code: "EN".into(),
        label: "\u{1f1fa}\u{1f1f8}".into(),
    };

    assert_eq!(layout_label(&layout), "\u{1f1fa}\u{1f1f8}");
}

#[test]
fn layout_tooltip_uses_layout_name() {
    let layout = KeyboardLayout {
        index: 0,
        name: "English (US)".into(),
        code: "EN".into(),
        label: "\u{1f1fa}\u{1f1f8}".into(),
    };

    assert_eq!(layout_tooltip(&layout), "English (US)");
}
