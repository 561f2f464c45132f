use glimpse_shell::compositor::{State as CompositorState, Window};
use glimpse_shell::notifications::{
    active_visible_slots, desktop_entry_candidates, group_notifications, matching_window,
    normalize_app_key, normalize_visible_limit, notification_group_key, notification_items,
    popup_origin_class, Config, NotificationEntry, NotificationListItem, PopupPosition,
    MAX_TRACKED_POPUPS,
};
use glimpse_shell::notifications::{group_look, popup_icon_name, stack_click_toggles, GroupExpansion};

fn notification(
    id: u32,
    app_name: &str,
    desktop_entry: Option<&str>,
    timestamp: u64,
) -> NotificationEntry {
    NotificationEntry {
        id,
        app_name: app_name.into(),
        app_icon: "dialog-information-symbolic".into(),
        desktop_entry: desktop_entry.map(str::to_owned),
        summary: format!("Summary {id}"),
        body: String::new(),
        urgency: 1,
        actions: Vec::new(),
        image: None,
        timestamp,
        resident: false,
        source_name: app_name.into(),
    }
}

#[test]
fn desktop_entry_candidates_adds_desktop_suffix_when_missing() {
    assert_eq!(
        desktop_entry_candidates("org.example.App"),
        ["org.example.App", "org.example.App.desktop"]
    );
}

#[test]
fn desktop_entry_candidates_keeps_existing_desktop_suffix_single() {
    assert_eq!(
        desktop_entry_candidates("org.example.App.desktop"),
        ["org.example.App.desktop"]
    );
}

#[test]
fn desktop_entry_candidates_ignores_empty_values() {
    assert!(desktop_entry_candidates("  ").is_empty());
}

#[test]
fn desktop_entry_matching_ignores_desktop_suffix_and_case() {
    let mut state = CompositorState::default();
    state.windows.push(Window {
        id: 7,
        title: None,
        app_id: Some("org.mozilla.firefox".into()),
        pid: None,
        layout_order: None,
        workspace: None,
        focused: false,
        urgent: false,
        fullscreen: false,
        floating: None,
    });
    let notification = NotificationEntry {
        id: 1,
        app_name: "Firefox".into(),
        app_icon: String::new(),
        desktop_entry: Some("Org.Mozilla.Firefox.desktop".into()),
        summary: String::new(),
        body: String::new(),
        urgency: 1,
        actions: Vec::new(),
        image: None,
        timestamp: 0,
        resident: false,
        source_name: "Firefox".into(),
    };

    assert_eq!(matching_window(&state, &notification), Some(7));
}

#[test]
fn config_defaults_popup_position_to_top_center() {
    assert_eq!(Config::default().popup_position, PopupPosition::TopCenter);
    assert_eq!(PopupPosition::default(), PopupPosition::TopCenter);
}

#[test]
fn group_notifications_uses_desktop_entry_and_sorts_by_latest() {
    let groups = group_notifications(&[
        notification(1, "Telegram", Some("org.telegram.desktop"), 100),
        notification(2, "Telegram Desktop", Some("org.telegram.desktop"), 300),
        notification(3, "Mail", Some("org.gnome.Geary"), 200),
    ]);

    assert_eq!(groups.len(), 2);
    assert_eq!(groups[0].key, "org.telegram.desktop");
    assert_eq!(groups[0].ids, vec![2, 1]);
    assert_eq!(groups[0].lead.id, 2);
    assert_eq!(groups[1].key, "org.gnome.geary");
    assert_eq!(groups[1].ids, vec![3]);
}

#[test]
fn group_notifications_falls_back_to_app_name() {
    let groups = group_notifications(&[
        notification(1, "Telegram", None, 100),
        notification(2, "telegram", None, 200),
    ]);

    assert_eq!(groups.len(), 1);
    assert_eq!(groups[0].key, "telegram");
    assert_eq!(groups[0].ids, vec![2, 1]);
}

#[test]
fn notification_items_keep_two_notifications_ungrouped() {
    let items = notification_items(&[
        notification(1, "Telegram", Some("org.telegram.desktop"), 100),
        notification(2, "Telegram", Some("org.telegram.desktop"), 200),
    ]);

    assert!(matches!(&items[0], NotificationListItem::Notification(item) if item.id == 2));
    assert!(matches!(&items[1], NotificationListItem::Notification(item) if item.id == 1));
}

#[test]
fn notification_items_group_three_notifications() {
    let items = notification_items(&[
        notification(1, "Telegram", Some("org.telegram.desktop"), 100),
        notification(2, "Telegram", Some("org.telegram.desktop"), 200),
        notification(3, "Telegram", Some("org.telegram.desktop"), 300),
    ]);

    assert_eq!(items.len(), 1);
    assert!(matches!(&items[0], NotificationListItem::Group(group) if group.ids == vec![3, 2, 1]));
}

#[test]
fn notification_items_interleave_groups_and_singles_newest_first() {
    let items = notification_items(&[
        notification(1, "Mail", None, 150),
        notification(2, "Chat", None, 100),
        notification(3, "Chat", None, 200),
        notification(4, "Chat", None, 300),
        notification(5, "Mail", None, 400),
    ]);

    let ids: Vec<u32> = items.iter().map(|item| item.id()).collect();
    assert_eq!(ids, vec![5, 4, 1]);
    assert!(matches!(&items[1], NotificationListItem::Group(group) if group.ids == vec![4, 3, 2]));
}

#[test]
fn group_keys_prefer_trimmed_desktop_entry() {
    assert_eq!(
        notification_group_key(&notification(1, "App", Some("  Org.App  "), 0)),
        "org.app"
    );
    assert_eq!(notification_group_key(&notification(1, "  ", Some(" "), 0)), "notification");
    assert_eq!(normalize_app_key(" Foo.desktop "), Some("foo".to_string()));
    assert_eq!(normalize_app_key("   "), None);
}

#[test]
fn visible_limit_is_bounded_by_tracked_limit() {
    assert_eq!(normalize_visible_limit(0), 1);
    assert_eq!(normalize_visible_limit(8), 8);
    assert_eq!(normalize_visible_limit(MAX_TRACKED_POPUPS + 1), MAX_TRACKED_POPUPS);
}

#[test]
fn leaving_cards_reserve_visible_slots() {
    assert_eq!(active_visible_slots(8, 0), 8);
    assert_eq!(active_visible_slots(8, 3), 5);
    assert_eq!(active_visible_slots(8, 12), 0);
}

#[test]
fn popup_origin_class_tracks_vertical_edge() {
    assert_eq!(popup_origin_class(PopupPosition::TopCenter), "popup-from-top");
    assert_eq!(popup_origin_class(PopupPosition::BottomRight), "popup-from-bottom");
}

#[test]
fn popup_cards_fall_back_to_a_generic_icon() {
    let mut entry = notification(1, "Mail", None, 1);
    entry.app_icon = "mail-unread".into();
    assert_eq!(popup_icon_name(&entry), "mail-unread");
    entry.app_icon = String::new();
    assert_eq!(popup_icon_name(&entry), "dialog-information-symbolic");
}

#[test]
fn groups_of_one_never_expand() {
    let mut expansion = GroupExpansion::new();
    let look = expansion.toggle(1);
    assert!(expansion.expanded);
    assert!(!look.expanded);
    assert!(look.stack_visible);
    assert!(!look.toggle_visible);
    let look = expansion.update(1);
    assert!(!expansion.expanded);
    assert_eq!(look.group_class, "notif-group-collapsed");
    assert!(!stack_click_toggles(1));
}

#[test]
fn expanded_groups_show_their_list() {
    let mut expansion = GroupExpansion::new();
    let look = expansion.toggle(3);
    assert!(look.expanded);
    assert!(look.list_visible);
    assert!(!look.stack_visible);
    assert_eq!(look.toggle_icon, "pan-up-symbolic");
    assert_eq!(look.group_class, "notif-group-expanded");
    let collapsed = group_look(false, 3);
    assert!(collapsed.second_backplate_visible);
    assert!(collapsed.lower_backplate_visible);
    assert!(!group_look(false, 2).lower_backplate_visible);
    assert!(stack_click_toggles(2));
}
