use glimpse_shell::notification_popups::{
    CardPhase, PopupAction, PopupEvent, PopupTracker, POPUP_LEAVE_ANIMATION_MS,
};
use glimpse_shell::notifications::{badge, Config, PopupPosition, MAX_TRACKED_POPUPS};

fn shows(actions: &[PopupAction]) -> Vec<u32> {
    actions
        .iter()
        .filter_map(|action| match action {
            PopupAction::ShowCard { id } => Some(*id),
            _ => None,
        })
        .collect()
}

#[test]
fn only_notifications_since_start_surface() {
    let mut popups = PopupTracker::new(5000, 3, 100);
    let out = popups.update(PopupEvent::Update {
        notifications: vec![(1, 50), (2, 100), (3, 150)],
        dnd: false,
    });
    assert_eq!(shows(&out), vec![2, 3]);
    assert!(out.contains(&PopupAction::StartTimeout { id: 2, ms: 5000 }));
    assert_eq!(out.last(), Some(&PopupAction::SetWindowVisible { visible: true }));
    assert_eq!(popups.cards.len(), 2);
}

#[test]
fn a_notification_surfaces_once() {
    let mut popups = PopupTracker::new(0, 3, 0);
    let list = vec![(1, 10), (2, 20)];
    let first = popups.update(PopupEvent::Update { notifications: list.clone(), dnd: false });
    assert_eq!(shows(&first), vec![1, 2]);
    let second = popups.update(PopupEvent::Update { notifications: list, dnd: false });
    assert!(second.is_empty());
}

#[test]
fn a_replaced_notification_surfaces_again() {
    let mut popups = PopupTracker::new(0, 3, 0);
    popups.update(PopupEvent::Update { notifications: vec![(1, 10)], dnd: false });
    let out = popups.update(PopupEvent::Update { notifications: vec![(1, 30)], dnd: false });
    assert_eq!(shows(&out), vec![1]);
    assert!(out.contains(&PopupAction::DropCard { id: 1 }));
    assert_eq!(popups.cards.len(), 1);
    assert_eq!(popups.cards[0].order, 30);
}

#[test]
fn do_not_disturb_records_without_showing() {
    let mut popups = PopupTracker::new(0, 3, 0);
    popups.update(PopupEvent::Update { notifications: vec![(1, 10)], dnd: false });
    let out = popups.update(PopupEvent::Update { notifications: vec![(1, 10), (2, 20)], dnd: true });
    assert!(shows(&out).is_empty());
    assert!(out.contains(&PopupAction::StartLeave { id: 1 }));
    assert_eq!(popups.cards[0].phase, CardPhase::Leaving);
    let later = popups.update(PopupEvent::Update { notifications: vec![(1, 10), (2, 20)], dnd: false });
    assert!(shows(&later).is_empty());
}

#[test]
fn newest_cards_show_first_and_the_rest_overflow() {
    let mut popups = PopupTracker::new(0, 2, 0);
    let out = popups.update(PopupEvent::Update {
        notifications: vec![(1, 10), (2, 20), (3, 30)],
        dnd: false,
    });
    assert_eq!(out.iter().rev().nth(1), Some(&PopupAction::SetOverflow { hidden: 1 }));
    let shown: Vec<(u32, bool)> = popups.cards.iter().map(|c| (c.id, c.shown)).collect();
    assert_eq!(shown, vec![(1, false), (2, true), (3, true)]);
}

#[test]
fn dismissing_starts_the_leave_and_tells_the_service() {
    let mut popups = PopupTracker::new(4000, 3, 0);
    popups.update(PopupEvent::Update { notifications: vec![(7, 1)], dnd: false });
    let out = popups.update(PopupEvent::Dismiss { id: 7 });
    assert_eq!(out[0], PopupAction::EmitDismiss { id: 7 });
    assert_eq!(out[1], PopupAction::CancelTimeout { id: 7 });
    assert_eq!(out[2], PopupAction::StartLeave { id: 7 });
    assert!(popups.cards[0].removal_pending);
    let done = popups.update(PopupEvent::LeaveAnimationFinished { id: 7 });
    assert!(done.contains(&PopupAction::DropCard { id: 7 }));
    assert!(!done.contains(&PopupAction::CancelRemoval { id: 7 }));
    assert_eq!(done.last(), Some(&PopupAction::SetWindowVisible { visible: false }));
    assert!(popups.cards.is_empty());
}

#[test]
fn entering_cards_become_visible() {
    let mut popups = PopupTracker::new(0, 3, 0);
    popups.update(PopupEvent::Update { notifications: vec![(4, 1)], dnd: false });
    assert_eq!(popups.cards[0].phase, CardPhase::Entering);
    assert!(popups.update(PopupEvent::EnterAnimationFinished { id: 4 }).is_empty());
    assert_eq!(popups.cards[0].phase, CardPhase::Visible);
}

#[test]
fn at_most_the_tracked_limit_of_cards_is_kept() {
    let mut popups = PopupTracker::new(0, 30, 0);
    let list: Vec<(u32, u64)> = (0..25u32).map(|i| (i, 100 + i as u64)).collect();
    let out = popups.update(PopupEvent::Update { notifications: list, dnd: false });
    assert_eq!(popups.cards.len(), MAX_TRACKED_POPUPS);
    assert!(out.contains(&PopupAction::DropCard { id: 0 }));
    assert!(popups.cards.iter().all(|card| card.id >= 5));
}

#[test]
fn reconfiguring_clamps_the_visible_limit() {
    let mut popups = PopupTracker::new(0, 3, 0);
    let out = popups.update(PopupEvent::Reconfigure {
        timeout_ms: 100,
        visible_limit: 0,
        position: PopupPosition::BottomRight,
        margin_x: 1,
        margin_y: 2,
    });
    assert_eq!(popups.visible_limit, 1);
    assert_eq!(popups.timeout_ms, 100);
    assert_eq!(
        out,
        vec![PopupAction::ApplyPosition { position: PopupPosition::BottomRight, margin_x: 1, margin_y: 2 }]
    );
    assert_eq!(POPUP_LEAVE_ANIMATION_MS, 180);
}

#[test]
fn config_defaults_popup_visible_limit_to_eight() {
    assert_eq!(Config::default().popup_visible_limit, 8);
}

#[test]
fn badge_counts_up_to_nine() {
    let b = badge("count", 12, false);
    assert!(b.visible);
    assert_eq!(b.label, "9+");
    assert!(b.uses_label);
    assert_eq!(b.classes, vec!["notification-badge-anchor", "badge", "is-accent"]);
    let b = badge("dot", 3, false);
    assert_eq!(b.label, "3");
    assert_eq!(b.classes[1], "status-dot");
    assert!(!badge("none", 3, false).visible);
    assert!(!badge("count", 3, true).visible);
    assert!(!badge("count", 0, false).visible);
}
