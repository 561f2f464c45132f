use glimpse_shell::compositor::{
    Command, CompositorCapabilities, CompositorType, Monitor, State, Window, Workspace,
};
use glimpse_shell::pager::{
    scroll_command, view_from_state, workspace_indicator_count, workspace_items, Config,
    DisplayMode, PagerAppearance, PagerState, PagerTarget, PagerWindow,
};

fn state_with_workspaces(workspaces: Vec<Workspace>) -> State {
    State {
        capabilities: CompositorCapabilities {
            workspaces: true,
            current_workspace: true,
            ..CompositorCapabilities::default()
        },
        workspaces,
        ..State::default()
    }
}

fn workspace(id: usize) -> Workspace {
    Workspace {
        id,
        index: Some(id),
        name: None,
        monitor: None,
        active: false,
        focused: false,
        urgent: false,
        active_window: None,
    }
}

fn window(id: usize, workspace: Option<usize>, urgent: bool) -> Window {
    window_with_position(id, workspace, urgent, 0)
}

fn window_with_position(
    id: usize,
    workspace: Option<usize>,
    urgent: bool,
    layout_order: usize,
) -> Window {
    Window {
        id,
        title: None,
        app_id: None,
        pid: None,
        layout_order: Some(layout_order),
        workspace,
        focused: false,
        urgent,
        fullscreen: false,
        floating: None,
    }
}

fn niri_workspace(id: usize, index: usize, monitor: &str, active: bool, focused: bool, active_window: Option<usize>) -> Workspace {
    Workspace {
        id,
        index: Some(index),
        name: None,
        monitor: Some(monitor.into()),
        active,
        focused,
        urgent: false,
        active_window,
    }
}

fn niri_two_monitor_state() -> State {
    let mut state = state_with_workspaces(vec![
        niri_workspace(1, 1, "eDP-1", true, false, Some(101)),
        niri_workspace(2, 2, "eDP-1", false, false, None),
        niri_workspace(3, 1, "HDMI-A-1", true, true, Some(202)),
    ]);
    state.compositor = CompositorType::Niri;
    state.capabilities.windows = true;
    state.capabilities.focused_window = true;
    state.capabilities.monitors = true;
    state.current_workspace = Some(3);
    state.focused_window = Some(202);
    state.windows = vec![window(101, Some(1), false), window(202, Some(3), false)];
    state.monitors = vec![
        Monitor {
            id: Some(1),
            name: "eDP-1".into(),
            description: None,
            active_workspace: Some(1),
            focused: false,
        },
        Monitor {
            id: Some(2),
            name: "HDMI-A-1".into(),
            description: None,
            active_workspace: Some(3),
            focused: true,
        },
    ];
    state
}

fn workspaces_config() -> Config {
    Config {
        display: DisplayMode::Workspaces,
        ..Config::default()
    }
}

#[test]
fn default_config_matches_pager_defaults() {
    let config = Config::default();

    assert_eq!(config.display, DisplayMode::Windows);
    assert_eq!(config.appearance, PagerAppearance::Dots);
}

#[test]
fn indicator_count_comes_from_current_and_reported_workspaces() {
    assert_eq!(
        workspace_indicator_count(CompositorType::Hyprland, Some(11), &vec![], &vec![]),
        11
    );
    assert_eq!(
        workspace_indicator_count(CompositorType::Hyprland, None, &vec![workspace(12)], &vec![]),
        12
    );
    assert_eq!(
        workspace_indicator_count(
            CompositorType::Hyprland,
            None,
            &vec![],
            &vec![PagerWindow::from_window(&window(3, Some(3), false))]
        ),
        3
    );
    assert_eq!(
        workspace_indicator_count(CompositorType::Hyprland, None, &vec![], &vec![]),
        1
    );
}

#[test]
fn workspace_items_mark_focused_occupied_urgent_and_named_workspaces() {
    let mut state = state_with_workspaces(vec![Workspace {
        id: 2,
        index: Some(2),
        name: Some("web".into()),
        monitor: None,
        active: true,
        focused: true,
        urgent: false,
        active_window: Some(20),
    }]);
    state.current_workspace = Some(2);
    state.windows = vec![
        window(20, Some(2), false),
        window(30, Some(3), true),
        window(40, None, true),
    ];
    let windows = state
        .windows
        .iter()
        .map(PagerWindow::from_window)
        .collect::<Vec<_>>();

    let items = workspace_items(
        state.compositor,
        state.current_workspace,
        None,
        true,
        &state.workspaces,
        &windows,
        PagerAppearance::Dots,
    );

    assert_eq!(items.len(), 3);
    assert!(items[1].focused);
    assert!(items[1].occupied);
    assert!(items[2].urgent);
    assert_eq!(
        items
            .iter()
            .map(|item| item.label.as_str())
            .collect::<Vec<_>>(),
        vec!["1", "2", "3"]
    );
}

#[test]
fn view_uses_configured_pager_appearance() {
    let state = state_with_workspaces(vec![workspace(1), workspace(2), workspace(3)]);
    let config = Config {
        display: DisplayMode::Workspaces,
        appearance: PagerAppearance::Numbers,
    };

    let view = view_from_state(&config, &PagerState::from_state(&state));

    assert_eq!(view.appearance, PagerAppearance::Numbers);
    assert_eq!(
        view.items
            .iter()
            .map(|item| item.label.as_str())
            .collect::<Vec<_>>(),
        vec!["1", "2", "3"]
    );
}

#[test]
fn niri_view_renders_current_workspace_windows_as_focus_targets() {
    let mut state = state_with_workspaces(vec![
        niri_workspace(7, 2, "eDP-1", true, true, Some(33)),
        niri_workspace(8, 3, "eDP-1", true, false, Some(44)),
    ]);
    state.compositor = CompositorType::Niri;
    state.current_workspace = Some(7);
    state.focused_window = Some(33);
    state.capabilities.windows = true;
    state.capabilities.focused_window = true;
    state.windows = vec![
        window_with_position(11, Some(7), false, 20),
        window(44, Some(8), true),
        window_with_position(33, Some(7), false, 10),
    ];

    let view = view_from_state(&Config::default(), &PagerState::from_state(&state));

    assert_eq!(view.items.len(), 2);
    assert_eq!(view.items[0].id, 33);
    assert_eq!(view.items[0].target, PagerTarget::Window(33));
    assert_eq!(view.items[1].id, 11);
    assert_eq!(view.items[1].target, PagerTarget::Window(11));
    assert!(view.items[0].focused);
    assert!(view.items.iter().all(|item| item.occupied));
    assert!(!view.items.iter().any(|item| item.urgent));
    assert!(!view.placeholder);
}

#[test]
fn niri_view_uses_placeholder_for_empty_current_workspace() {
    let mut state = state_with_workspaces(vec![niri_workspace(7, 2, "eDP-1", true, true, None)]);
    state.compositor = CompositorType::Niri;
    state.current_workspace = Some(7);
    state.capabilities.windows = true;
    state.capabilities.focused_window = true;
    state.windows = vec![window(44, Some(8), true)];

    let config = Config {
        appearance: PagerAppearance::Numbers,
        ..Config::default()
    };
    let view = view_from_state(&config, &PagerState::from_state(&state));

    assert_eq!(view.items.len(), 1);
    assert_eq!(view.items[0].target, PagerTarget::Placeholder);
    assert_eq!(view.items[0].appearance, PagerAppearance::Numbers);
    assert_eq!(view.items[0].label, "1");
    assert!(view.items[0].focused);
    assert!(!view.placeholder);
}

#[test]
fn niri_view_uses_workspace_items_when_display_is_workspaces() {
    let mut state = state_with_workspaces(vec![
        niri_workspace(7, 2, "eDP-1", true, true, Some(33)),
        niri_workspace(8, 3, "eDP-1", true, false, Some(44)),
    ]);
    state.compositor = CompositorType::Niri;
    state.current_workspace = Some(7);
    state.capabilities.windows = true;
    state.capabilities.focused_window = true;
    state.windows = vec![window(33, Some(7), false), window(44, Some(8), false)];

    let view = view_from_state(&workspaces_config(), &PagerState::from_state(&state));

    assert_eq!(view.items.len(), 3);
    assert_eq!(
        view.items.iter().map(|item| item.target).collect::<Vec<_>>(),
        vec![
            PagerTarget::Workspace(1),
            PagerTarget::Workspace(2),
            PagerTarget::Workspace(3)
        ]
    );
    assert!(view.items[1].focused);
    assert!(!view.placeholder);
}

#[test]
fn niri_workspace_items_use_workspace_index_as_command_target() {
    let mut state = state_with_workspaces(vec![
        Workspace {
            id: 77,
            index: Some(2),
            name: Some("web".into()),
            monitor: Some("eDP-1".into()),
            active: true,
            focused: true,
            urgent: false,
            active_window: None,
        },
        Workspace {
            id: 88,
            index: Some(2),
            name: Some("chat".into()),
            monitor: Some("HDMI-A-1".into()),
            active: true,
            focused: false,
            urgent: false,
            active_window: None,
        },
    ]);
    state.compositor = CompositorType::Niri;
    state.current_workspace = Some(77);
    let windows = state
        .windows
        .iter()
        .map(PagerWindow::from_window)
        .collect::<Vec<_>>();

    let items = workspace_items(
        state.compositor,
        state.current_workspace,
        None,
        true,
        &state.workspaces,
        &windows,
        PagerAppearance::Dots,
    );

    assert_eq!(items[1].id, 2);
    assert!(items[1].focused);
    assert_eq!(items.len(), 2);
}

#[test]
fn view_hides_when_compositor_has_no_workspace_support() {
    let mut state = State::default();
    state.capabilities.workspaces = false;

    let view = view_from_state(&Config::default(), &PagerState::from_state(&state));

    assert!(!view.visible);
    assert!(view.items.is_empty());
}

#[test]
fn view_stays_visible_when_identity_arrives_before_structure_snapshot() {
    let mut state = State::default();
    state.compositor = CompositorType::Niri;
    state.capabilities.workspaces = true;
    state.capabilities.windows = true;
    state.capabilities.focused_window = true;

    let view = view_from_state(&Config::default(), &PagerState::from_state(&state));

    assert!(view.visible);
    assert_eq!(view.items.len(), 1);
    assert_eq!(view.items[0].target, PagerTarget::Placeholder);
    assert!(!view.placeholder);
}

#[test]
fn pager_state_ignores_compositor_fields_unrelated_to_rendering() {
    let mut state = state_with_workspaces(vec![workspace(2)]);
    state.windows = vec![window(7, Some(2), false)];
    let mut unrelated = state.clone();
    unrelated.capabilities.monitors = true;
    unrelated.capabilities.night_light = true;
    unrelated.current_keyboard_layout = Some(1);
    unrelated.windows[0].title = Some("renamed".into());
    unrelated.windows[0].app_id = Some("app".into());
    unrelated.windows[0].pid = Some(42);
    unrelated.windows[0].fullscreen = true;
    unrelated.windows[0].floating = Some(true);

    assert_eq!(PagerState::from_state(&state), PagerState::from_state(&unrelated));
}

#[test]
fn scroll_commands_honor_display() {
    let mut state = State::default();
    state.capabilities.windows = true;
    state.capabilities.focused_window = true;

    assert!(matches!(
        scroll_command(&Config::default(), &PagerState::from_state(&state), true, true),
        Command::FocusNextWindow
    ));
    assert!(matches!(
        scroll_command(&Config::default(), &PagerState::from_state(&state), true, false),
        Command::FocusNextWindow
    ));

    assert!(matches!(
        scroll_command(&workspaces_config(), &PagerState::from_state(&state), false, false),
        Command::FocusPreviousWorkspace
    ));

    let config = Config {
        display: DisplayMode::Windows,
        ..Config::default()
    };
    assert!(matches!(
        scroll_command(&config, &PagerState::from_state(&State::default()), false, true),
        Command::FocusPreviousWindow
    ));
}

#[test]
fn niri_workspaces_view_shows_only_panels_monitor_when_focus_is_elsewhere() {
    let state = niri_two_monitor_state();
    let mut pager_state = PagerState::from_state(&state);
    pager_state.panel_monitor = Some("eDP-1".into());

    let view = view_from_state(&workspaces_config(), &pager_state);

    assert_eq!(view.items.len(), 2);
    assert_eq!(view.items[0].target, PagerTarget::Workspace(1));
    assert_eq!(view.items[1].target, PagerTarget::Workspace(2));
    assert!(view.items[0].focused);
    assert!(!view.items[1].focused);
}

#[test]
fn niri_windows_view_lists_only_panels_monitor_active_workspace_windows() {
    let state = niri_two_monitor_state();
    let mut pager_state = PagerState::from_state(&state);
    pager_state.panel_monitor = Some("eDP-1".into());
    let config = Config {
        display: DisplayMode::Windows,
        ..Config::default()
    };

    let view = view_from_state(&config, &pager_state);

    assert_eq!(view.items.len(), 1);
    assert_eq!(view.items[0].target, PagerTarget::Window(101));
}

#[test]
fn niri_windows_view_falls_back_to_placeholder_when_panel_monitor_has_no_active_workspace() {
    let mut state = niri_two_monitor_state();
    state.monitors[0].active_workspace = None;
    state.workspaces.retain(|workspace| workspace.id != 1);
    state.windows.retain(|window| window.workspace != Some(1));
    let mut pager_state = PagerState::from_state(&state);
    pager_state.panel_monitor = Some("eDP-1".into());
    let config = Config {
        display: DisplayMode::Windows,
        ..Config::default()
    };

    let view = view_from_state(&config, &pager_state);

    assert_eq!(view.items.len(), 1);
    assert_eq!(view.items[0].target, PagerTarget::Placeholder);
}

#[test]
fn unset_panel_monitor_preserves_focused_monitor_scoping() {
    let state = niri_two_monitor_state();
    let pager_state = PagerState::from_state(&state);

    let view = view_from_state(&workspaces_config(), &pager_state);

    assert_eq!(view.items.len(), 1);
    assert_eq!(view.items[0].target, PagerTarget::Workspace(1));
}

#[test]
fn workspace_items_mark_active_slot_focused_on_focused_monitor() {
    let state = niri_two_monitor_state();
    let mut pager_state = PagerState::from_state(&state);
    pager_state.panel_monitor = Some("HDMI-A-1".into());

    let view = view_from_state(&workspaces_config(), &pager_state);

    assert_eq!(view.items.len(), 1);
    assert_eq!(view.items[0].target, PagerTarget::Workspace(1));
    assert!(view.items[0].focused);
    assert!(view.items[0].monitor_focused);
}

#[test]
fn workspace_items_mark_active_slot_inactive_when_panel_monitor_is_not_focused() {
    let state = niri_two_monitor_state();
    let mut pager_state = PagerState::from_state(&state);
    pager_state.panel_monitor = Some("eDP-1".into());

    let view = view_from_state(&workspaces_config(), &pager_state);

    assert_eq!(view.items.len(), 2);
    assert!(view.items[0].focused);
    assert!(
        !view.items[0].monitor_focused,
        "monitor_focused must be false when global focus is on another output"
    );
    assert!(!view.items[1].focused);
}

#[test]
fn hyprland_workspaces_view_filters_by_panel_monitor() {
    let mut state = state_with_workspaces(vec![
        Workspace {
            id: 1,
            index: Some(1),
            name: None,
            monitor: Some("DP-1".into()),
            active: true,
            focused: false,
            urgent: false,
            active_window: None,
        },
        Workspace {
            id: 2,
            index: Some(2),
            name: None,
            monitor: Some("DP-2".into()),
            active: true,
            focused: true,
            urgent: false,
            active_window: None,
        },
    ]);
    state.compositor = CompositorType::Hyprland;
    state.current_workspace = Some(2);
    state.monitors = vec![
        Monitor {
            id: None,
            name: "DP-1".into(),
            description: None,
            active_workspace: Some(1),
            focused: false,
        },
        Monitor {
            id: None,
            name: "DP-2".into(),
            description: None,
            active_workspace: Some(2),
            focused: true,
        },
    ];
    state.capabilities.monitors = true;

    let mut pager_state = PagerState::from_state(&state);
    pager_state.panel_monitor = Some("DP-1".into());

    let view = view_from_state(&workspaces_config(), &pager_state);

    assert_eq!(view.items.len(), 1);
    assert_eq!(view.items[0].target, PagerTarget::Workspace(1));
    assert!(view.items[0].focused);
}
