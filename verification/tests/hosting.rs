use glimpse_shell::exec_applet::Config as ExecConfig;
use glimpse_shell::exec_host::{
    has_visible_menu_items, plan_status_widgets, same_config, same_status_items, status_click,
    status_menu_event, status_scroll, ClickReaction, StatusEvent, StatusMenuItem, ExecApplet, ExecAppletAction, ExecAppletInput, StatusItemOutput, StatusSlot,
};
use glimpse_shell::exec_protocol::{EventKind, Icon, MouseButton, StatusItem};
use glimpse_shell::panels::{plan_panels, PanelKey, PanelSlot, PanelTarget};

fn item(id: Option<&str>, label: &str) -> StatusItem {
    StatusItem {
        id: id.map(|id| id.to_string()),
        icon: None,
        label: Some(label.to_string()),
        tooltip: None,
    }
}

fn keys(values: &[&str]) -> Vec<String> {
    values.iter().map(|value| value.to_string()).collect()
}

#[test]
fn rebuild_reuses_widgets_by_key_and_detaches_the_rest() {
    let rendered = keys(&["id:cpu", "index:1", "id:mem"]);
    let items = vec![item(Some("mem"), "1G"), item(None, "x"), item(Some("disk"), "9%")];
    let plan = plan_status_widgets(&rendered, &items);
    assert_eq!(plan.keys, keys(&["id:mem", "index:1", "id:disk"]));
    assert_eq!(
        plan.slots,
        vec![
            StatusSlot::Reuse { widget: 2 },
            StatusSlot::Reuse { widget: 1 },
            StatusSlot::Create,
        ]
    );
    assert_eq!(plan.detached, vec![0]);
}

#[test]
fn rebuild_takes_each_old_widget_once() {
    let rendered = keys(&["id:a"]);
    let items = vec![item(Some("a"), "1"), item(Some("a"), "2")];
    let plan = plan_status_widgets(&rendered, &items);
    assert_eq!(plan.slots, vec![StatusSlot::Reuse { widget: 0 }, StatusSlot::Create]);
    assert!(plan.detached.is_empty());
}

#[test]
fn status_items_compare_by_content() {
    let a = vec![item(Some("cpu"), "10%")];
    let b = vec![item(Some("cpu"), "10%")];
    let c = vec![item(Some("cpu"), "11%")];
    assert!(same_status_items(&a, &b));
    assert!(!same_status_items(&a, &c));
    let with_icon = vec![StatusItem {
        icon: Some(Icon::Name { name: "cpu".into() }),
        ..item(Some("cpu"), "10%")
    }];
    assert!(!same_status_items(&a, &with_icon));
}

#[test]
fn status_change_rebuilds_once_and_shows_the_applet() {
    let mut applet = ExecApplet::new(ExecConfig::default());
    let out = applet.update(ExecAppletInput::StatusChanged {
        items: vec![item(Some("cpu"), "10%")],
    });
    assert_eq!(out.len(), 2);
    match &out[0] {
        ExecAppletAction::RebuildStatus { plan, has_popover } => {
            assert_eq!(plan.slots, vec![StatusSlot::Create]);
            assert!(!has_popover);
        }
        other => panic!("unexpected action {other:?}"),
    }
    assert!(matches!(out[1], ExecAppletAction::SetVisible { visible: true }));
    assert_eq!(applet.rendered_keys, keys(&["id:cpu"]));

    let again = applet.update(ExecAppletInput::StatusChanged {
        items: vec![item(Some("cpu"), "10%")],
    });
    assert!(again.is_empty());
}

#[test]
fn popover_lifecycle_events_alternate() {
    let mut applet = ExecApplet::new(ExecConfig::default());
    let out = applet.update(ExecAppletInput::PopoverChanged { has_root: true });
    assert_eq!(out.len(), 2);
    assert!(matches!(out[0], ExecAppletAction::RebuildStatus { has_popover: true, .. }));

    let opened = applet.update(ExecAppletInput::PopoverOpened);
    assert!(matches!(opened[0], ExecAppletAction::SyncPopover));
    assert!(matches!(opened[1], ExecAppletAction::SendPopoverOpened));
    assert!(applet.update(ExecAppletInput::PopoverOpened).is_empty());

    let closed = applet.update(ExecAppletInput::PopoverClosed);
    assert_eq!(closed.len(), 1);
    assert!(matches!(closed[0], ExecAppletAction::SendPopoverClosed));
    assert!(applet.update(ExecAppletInput::PopoverClosed).is_empty());
}

#[test]
fn popover_content_going_away_closes_the_open_popover() {
    let mut applet = ExecApplet::new(ExecConfig::default());
    applet.update(ExecAppletInput::PopoverChanged { has_root: true });
    applet.update(ExecAppletInput::PopoverOpened);
    let out = applet.update(ExecAppletInput::PopoverChanged { has_root: false });
    assert!(matches!(out.last(), Some(ExecAppletAction::ClosePopover)));
}

#[test]
fn activation_toggles_only_a_closed_popover() {
    let mut applet = ExecApplet::new(ExecConfig::default());
    applet.update(ExecAppletInput::PopoverChanged { has_root: true });
    let out = applet.update(ExecAppletInput::ItemActivate { with_event: true });
    assert_eq!(out.len(), 2);
    assert!(matches!(out[0], ExecAppletAction::ForwardEvent));
    assert!(matches!(out[1], ExecAppletAction::TogglePopover));
    applet.update(ExecAppletInput::PopoverOpened);
    let out = applet.update(ExecAppletInput::ItemActivate { with_event: false });
    assert!(out.is_empty());
}

#[test]
fn unchanged_configuration_is_not_sent_again() {
    let config = ExecConfig { command: vec!["/bin/true".into()], ..ExecConfig::default() };
    let mut applet = ExecApplet::new(config.clone());
    let out = applet.update(ExecAppletInput::Reconfigure { config: config.clone(), same_options: true });
    assert!(out.is_empty());
    let out = applet.update(ExecAppletInput::Reconfigure { config: config.clone(), same_options: false });
    assert_eq!(out.len(), 3);
    match &out[2] {
        ExecAppletAction::ReconfigureChild { config: sent } => assert!(same_config(sent, &config)),
        other => panic!("unexpected action {other:?}"),
    }
}

#[test]
fn child_exit_clears_everything() {
    let mut applet = ExecApplet::new(ExecConfig::default());
    applet.update(ExecAppletInput::StatusChanged { items: vec![item(None, "a")] });
    applet.update(ExecAppletInput::PopoverChanged { has_root: true });
    let out = applet.update(ExecAppletInput::ChildExited);
    assert_eq!(out.len(), 3);
    assert!(matches!(out[0], ExecAppletAction::ClearStatus));
    assert!(applet.status.is_empty());
    assert!(applet.rendered_keys.is_empty());
    assert!(!applet.has_popover_content);
}

#[test]
fn right_click_prefers_the_item_menu() {
    let it = item(Some("cpu"), "1");
    assert!(matches!(status_click(&it, false, true, 3), ClickReaction::ShowItemMenu));
    assert!(matches!(
        status_click(&it, false, false, 3),
        ClickReaction::Output { output: StatusItemOutput::ContextMenu }
    ));
}

#[test]
fn primary_click_with_popover_activates() {
    let it = item(Some("cpu"), "1");
    match status_click(&it, true, false, 1) {
        ClickReaction::Output { output: StatusItemOutput::Activate { event: Some(event) } } => {
            assert_eq!(event.id, "cpu");
            assert_eq!(event.kind, EventKind::Click);
            assert_eq!(event.button, Some(MouseButton::Left));
        }
        other => panic!("unexpected reaction {other:?}"),
    }
    let anonymous = item(None, "1");
    assert!(matches!(
        status_click(&anonymous, true, false, 1),
        ClickReaction::Output { output: StatusItemOutput::TogglePopover }
    ));
    assert!(matches!(status_click(&anonymous, false, false, 2), ClickReaction::Nothing));
}

#[test]
fn middle_click_sends_a_click_event() {
    let it = item(Some("cpu"), "1");
    match status_click(&it, true, false, 2) {
        ClickReaction::Output { output: StatusItemOutput::Event { event } } => {
            assert_eq!(event.button, Some(MouseButton::Middle));
        }
        other => panic!("unexpected reaction {other:?}"),
    }
}

#[test]
fn scroll_needs_an_id() {
    let event = status_scroll(&item(Some("vol"), "1")).unwrap();
    assert_eq!(event.id, "vol");
    assert_eq!(event.kind, EventKind::Scroll);
    assert!(status_scroll(&item(None, "1")).is_none());
}

fn target(monitor: Option<&str>, position: &str) -> PanelTarget {
    PanelTarget { monitor: monitor.map(|m| m.to_string()), position: position.to_string() }
}

fn key(index: usize, monitor: &str, position: &str) -> PanelKey {
    PanelKey { index, monitor: monitor.to_string(), position: position.to_string() }
}

#[test]
fn panels_show_on_every_monitor_unless_pinned() {
    let configs = vec![target(None, "top"), target(Some("HDMI-1"), "bottom")];
    let monitors = vec![Some("eDP-1".to_string()), Some("HDMI-1".to_string())];
    let plan = plan_panels(&configs, &monitors, &Vec::new());
    assert_eq!(plan.placements, vec![(0, 0), (0, 1), (1, 1)]);
    let monitors_of: Vec<&str> = plan.keys.iter().map(|k| k.monitor.as_str()).collect();
    assert_eq!(monitors_of, vec!["eDP-1", "HDMI-1", "HDMI-1"]);
    assert_eq!(plan.slots, vec![PanelSlot::Build; 3]);
}

#[test]
fn panels_keep_matching_panels_and_remove_the_rest() {
    let configs = vec![target(None, "top")];
    let monitors = vec![Some("eDP-1".to_string())];
    let existing = vec![key(0, "HDMI-1", "top"), key(0, "eDP-1", "top")];
    let plan = plan_panels(&configs, &monitors, &existing);
    assert_eq!(plan.slots, vec![PanelSlot::Reuse { panel: 1 }]);
    assert_eq!(plan.removed, vec![0]);
    assert!(plan.shadowed.is_empty());
}

#[test]
fn pinned_panels_skip_monitors_without_a_connector() {
    let configs = vec![target(Some("DP-2"), "top")];
    let monitors = vec![None, Some("DP-2".to_string())];
    let plan = plan_panels(&configs, &monitors, &Vec::new());
    assert_eq!(plan.placements, vec![(0, 1)]);
}

#[test]
fn panels_with_one_key_are_found_once() {
    let configs = vec![target(None, "top")];
    let monitors = vec![None, None];
    let existing = vec![key(0, "", "top"), key(0, "", "top")];
    let plan = plan_panels(&configs, &monitors, &existing);
    assert_eq!(plan.slots, vec![PanelSlot::Reuse { panel: 1 }, PanelSlot::Build]);
    assert_eq!(plan.shadowed, vec![0]);
    assert!(plan.removed.is_empty());
}

#[test]
fn visible_menu_items_ignore_hidden_entries() {
    let items = vec![StatusMenuItem {
        id: "hidden".into(),
        label: "Hidden".into(),
        visible: false,
        enabled: true,
    }];

    assert!(!has_visible_menu_items(&items));
}

#[test]
fn status_menu_events_are_status_clicks() {
    assert_eq!(
        status_menu_event("settings".into()),
        StatusEvent {
            id: "settings".into(),
            kind: EventKind::Click,
            button: Some(MouseButton::Left),
        }
    );
}

#[test]
fn a_visible_entry_makes_the_menu_shown() {
    let items = vec![
        StatusMenuItem { id: "a".into(), label: "A".into(), visible: false, enabled: true },
        StatusMenuItem { id: "b".into(), label: "B".into(), visible: true, enabled: false },
    ];
    assert!(has_visible_menu_items(&items));
    assert!(!has_visible_menu_items(&[]));
}
