//! The notification popups: which notifications surface as cards, how many
//! cards show at once, and how cards enter, leave and are dropped.
use vstd::prelude::*;

use crate::notifications::{normalize_visible_limit, PopupPosition, MAX_TRACKED_POPUPS};

verus! {

/// How long a leaving card animates before it is dropped, in milliseconds.
pub const POPUP_LEAVE_ANIMATION_MS: u64 = 180;

/// Where a card is in its life.
#[derive(Debug, Clone, Copy, PartialEq, Eq, Structural)]
pub enum CardPhase {
    Entering,
    Visible,
    Leaving,
}

/// A card on screen: the notification's id, its timestamp (newer cards are
/// listed first), its phase, whether it is shown, and whether its timeout
/// and its removal timer are still pending.
#[derive(Debug, Clone, Copy, PartialEq, Eq, Structural)]
pub struct PopupCard {
    pub id: u32,
    pub order: u64,
    pub phase: CardPhase,
    pub shown: bool,
    pub timeout_pending: bool,
    pub removal_pending: bool,
}

/// What the popup window is to do.
#[derive(Debug, Clone, Copy, PartialEq, Eq, Structural)]
pub enum PopupAction {
    /// Build the card of notification `id`, put it first, start its entry.
    ShowCard { id: u32 },
    /// Time the card out after `ms` milliseconds.
    StartTimeout { id: u32, ms: u32 },
    CancelTimeout { id: u32 },
    /// Animate the card out and drop it after the leave animation.
    StartLeave { id: u32 },
    CancelRemoval { id: u32 },
    /// Take the card's widget away.
    DropCard { id: u32 },
    SetCardShown { id: u32, shown: bool },
    /// Show "+ {hidden} more" when `hidden` is not zero, else hide it.
    SetOverflow { hidden: usize },
    SetWindowVisible { visible: bool },
    EmitDismiss { id: u32 },
    EmitFocusAndDismiss { id: u32 },
    /// Invoke the action of the input at hand on notification `id`.
    EmitInvokeAction { id: u32 },
    ApplyPosition { position: PopupPosition, margin_x: i32, margin_y: i32 },
}

// ---------------------------------------------------------------------------
// Listing the cards
// ---------------------------------------------------------------------------

/// The first card with `id` at or after `from`.
pub open spec fn card_from(cards: Seq<PopupCard>, id: u32, from: int) -> Option<int>
    decreases cards.len() - from,
{
    if from < 0 || from >= cards.len() {
        None
    } else if cards[from].id == id {
        Some(from)
    } else {
        card_from(cards, id, from + 1)
    }
}

/// The card with `id`.
pub open spec fn card_index(cards: Seq<PopupCard>, id: u32) -> Option<int> {
    card_from(cards, id, 0)
}

/// Card `j` is listed above card `i`: it is not leaving, and it is newer, or
/// as new and earlier in the list.
pub open spec fn listed_above(cards: Seq<PopupCard>, j: int, i: int) -> bool {
    &&& cards[j].phase != CardPhase::Leaving
    &&& (cards[j].order > cards[i].order || (cards[j].order == cards[i].order && j < i))
}

/// How many of the first `n` cards are listed above card `i`.
pub open spec fn rank_upto(cards: Seq<PopupCard>, i: int, n: int) -> nat
    decreases n,
{
    if n <= 0 {
        0
    } else {
        rank_upto(cards, i, n - 1) + if listed_above(cards, n - 1, i) {
            1nat
        } else {
            0nat
        }
    }
}

/// The place of card `i` in the listing, from the top.
pub open spec fn rank(cards: Seq<PopupCard>, i: int) -> nat {
    rank_upto(cards, i, cards.len() as int)
}

/// How many of the first `n` cards are leaving and still shown.
pub open spec fn leaving_shown_upto(cards: Seq<PopupCard>, n: int) -> nat
    decreases n,
{
    if n <= 0 {
        0
    } else {
        leaving_shown_upto(cards, n - 1) + if cards[n - 1].phase == CardPhase::Leaving
            && cards[n - 1].shown {
            1nat
        } else {
            0nat
        }
    }
}

/// How many of the first `n` cards are not leaving.
pub open spec fn active_upto(cards: Seq<PopupCard>, n: int) -> nat
    decreases n,
{
    if n <= 0 {
        0
    } else {
        active_upto(cards, n - 1) + if cards[n - 1].phase != CardPhase::Leaving {
            1nat
        } else {
            0nat
        }
    }
}

/// How many cards may show: the limit, less the leaving cards still shown.
pub open spec fn slots(limit: usize, cards: Seq<PopupCard>) -> nat {
    let leaving = leaving_shown_upto(cards, cards.len() as int);
    if leaving >= limit {
        0
    } else {
        (limit - leaving) as nat
    }
}

/// The cards after the listing: a card that is not leaving shows exactly
/// when it is among the first `slots` listed.
pub open spec fn relisted(cards: Seq<PopupCard>, limit: usize) -> Seq<PopupCard> {
    Seq::new(
        cards.len(),
        |i: int|
            if cards[i].phase == CardPhase::Leaving {
                cards[i]
            } else {
                PopupCard { shown: rank(cards, i) < slots(limit, cards), ..cards[i] }
            },
    )
}

/// The visibility settings for the first `n` cards.
pub open spec fn shown_actions_upto(cards: Seq<PopupCard>, limit: usize, n: int) -> Seq<PopupAction>
    decreases n,
{
    if n <= 0 {
        Seq::empty()
    } else {
        shown_actions_upto(cards, limit, n - 1) + if cards[n - 1].phase != CardPhase::Leaving {
            seq![
                PopupAction::SetCardShown {
                    id: cards[n - 1].id,
                    shown: rank(cards, n - 1) < slots(limit, cards),
                },
            ]
        } else {
            Seq::empty()
        }
    }
}

/// What the listing asks: each card's visibility, then the overflow count.
pub open spec fn listing_actions(cards: Seq<PopupCard>, limit: usize) -> Seq<PopupAction> {
    let active = active_upto(cards, cards.len() as int);
    let free = slots(limit, cards);
    shown_actions_upto(cards, limit, cards.len() as int) + seq![
        PopupAction::SetOverflow {
            hidden: (if active > free {
                active - free
            } else {
                0
            }) as usize,
        },
    ]
}

fn rank_of(cards: &Vec<PopupCard>, i: usize) -> (out: usize)
    requires
        i < cards@.len(),
    ensures
        out == rank(cards@, i as int),
{
    let mut count: usize = 0;
    let mut j: usize = 0;
    while j < cards.len()
        invariant
            i < cards@.len(),
            j <= cards.len(),
            count == rank_upto(cards@, i as int, j as int),
            count <= j,
        decreases cards.len() - j,
    {
        let c = cards[j];
        let d = cards[i];
        if c.phase != CardPhase::Leaving && (c.order > d.order || (c.order == d.order && j < i)) {
            count += 1;
        }
        j += 1;
    }
    count
}

fn leaving_shown_count(cards: &Vec<PopupCard>) -> (out: usize)
    ensures
        out == leaving_shown_upto(cards@, cards@.len() as int),
{
    let mut count: usize = 0;
    let mut j: usize = 0;
    while j < cards.len()
        invariant
            j <= cards.len(),
            count == leaving_shown_upto(cards@, j as int),
            count <= j,
        decreases cards.len() - j,
    {
        if cards[j].phase == CardPhase::Leaving && cards[j].shown {
            count += 1;
        }
        j += 1;
    }
    count
}

fn active_count(cards: &Vec<PopupCard>) -> (out: usize)
    ensures
        out == active_upto(cards@, cards@.len() as int),
{
    let mut count: usize = 0;
    let mut j: usize = 0;
    while j < cards.len()
        invariant
            j <= cards.len(),
            count == active_upto(cards@, j as int),
            count <= j,
        decreases cards.len() - j,
    {
        if cards[j].phase != CardPhase::Leaving {
            count += 1;
        }
        j += 1;
    }
    count
}

/// Lists the cards: shows the first `slots` that are not leaving, hides the
/// rest, and counts those hidden.
fn relist(cards: &Vec<PopupCard>, limit: usize) -> (out: (Vec<PopupCard>, Vec<PopupAction>))
    ensures
        out.0@ == relisted(cards@, limit),
        out.1@ == listing_actions(cards@, limit),
{
    let leaving = leaving_shown_count(cards);
    let free: usize = if leaving >= limit {
        0
    } else {
        limit - leaving
    };
    let mut next: Vec<PopupCard> = Vec::new();
    let mut actions: Vec<PopupAction> = Vec::new();
    let mut i: usize = 0;
    while i < cards.len()
        invariant
            i <= cards.len(),
            free == slots(limit, cards@),
            next@ =~= relisted(cards@, limit).take(i as int),
            actions@ == shown_actions_upto(cards@, limit, i as int),
        decreases cards.len() - i,
    {
        let c = cards[i];
        if c.phase == CardPhase::Leaving {
            next.push(c);
        } else {
            let r = rank_of(cards, i);
            let shown = r < free;
            next.push(PopupCard { shown, ..c });
            actions.push(PopupAction::SetCardShown { id: c.id, shown });
        }
        assert(next@ =~= relisted(cards@, limit).take(i + 1));
        i += 1;
    }
    assert(relisted(cards@, limit).take(cards@.len() as int) =~= relisted(cards@, limit));
    let active = active_count(cards);
    let hidden: usize = if active > free {
        active - free
    } else {
        0
    };
    actions.push(PopupAction::SetOverflow { hidden });
    (next, actions)
}

// ---------------------------------------------------------------------------
// Dropping, removing and showing cards
// ---------------------------------------------------------------------------

/// No two cards are of one notification.
pub open spec fn distinct_cards(cards: Seq<PopupCard>) -> bool {
    forall|i: int, j: int| 0 <= i < j < cards.len() ==> cards[i].id != cards[j].id
}

/// What dropping card `c` cancels and takes away.
pub open spec fn drop_actions(c: PopupCard, cancel_removal: bool) -> Seq<PopupAction> {
    (if c.timeout_pending {
        seq![PopupAction::CancelTimeout { id: c.id }]
    } else {
        Seq::empty()
    }) + (if cancel_removal && c.removal_pending {
        seq![PopupAction::CancelRemoval { id: c.id }]
    } else {
        Seq::empty()
    }) + seq![PopupAction::DropCard { id: c.id }]
}

/// Drops the card of `id`, if there is one, relists the rest and hides the
/// window when no card is left. `cancel_removal` also cancels the card's
/// removal timer (a drop before its leave animation ended).
pub open spec fn finish_remove(cards: Seq<PopupCard>, limit: usize, id: u32, cancel_removal: bool) -> (
    Seq<PopupCard>,
    Seq<PopupAction>,
) {
    let (rest, dropped) = match card_index(cards, id) {
        Some(i) => (cards.remove(i), drop_actions(cards[i], cancel_removal)),
        None => (cards, Seq::empty()),
    };
    (
        relisted(rest, limit),
        dropped + listing_actions(rest, limit) + if rest.len() == 0 {
            seq![PopupAction::SetWindowVisible { visible: false }]
        } else {
            Seq::empty()
        },
    )
}

/// Starts removing the card of `id`: its timeout is cancelled and, unless it
/// is already leaving, it starts to leave and the rest are relisted.
pub open spec fn remove_card(cards: Seq<PopupCard>, limit: usize, id: u32) -> (Seq<PopupCard>, Seq<PopupAction>) {
    match card_index(cards, id) {
        None => (cards, Seq::empty()),
        Some(i) => {
            let c = cards[i];
            let cancel = if c.timeout_pending {
                seq![PopupAction::CancelTimeout { id }]
            } else {
                Seq::empty()
            };
            let quiet = PopupCard { timeout_pending: false, ..c };
            if c.phase == CardPhase::Leaving {
                (cards.update(i, quiet), cancel)
            } else {
                let leaving = cards.update(
                    i,
                    PopupCard { phase: CardPhase::Leaving, removal_pending: true, ..quiet },
                );
                (
                    relisted(leaving, limit),
                    cancel + seq![PopupAction::StartLeave { id }] + listing_actions(leaving, limit),
                )
            }
        },
    }
}

/// The oldest of the first `n` cards (the first of the oldest).
pub open spec fn oldest_upto(cards: Seq<PopupCard>, n: int) -> int
    decreases n,
{
    if n <= 1 {
        0
    } else {
        let best = oldest_upto(cards, n - 1);
        if cards[n - 1].order < cards[best].order {
            n - 1
        } else {
            best
        }
    }
}

/// Drops the oldest cards while `MAX_TRACKED_POPUPS` or more are tracked.
pub open spec fn evict(cards: Seq<PopupCard>, limit: usize) -> (Seq<PopupCard>, Seq<PopupAction>)
    decreases cards.len(),
{
    if cards.len() >= MAX_TRACKED_POPUPS && cards.len() > 0 {
        let oldest = cards[oldest_upto(cards, cards.len() as int)];
        let (rest, dropped) = finish_remove(cards, limit, oldest.id, true);
        if rest.len() < cards.len() {
            let (left, more) = evict(rest, limit);
            (left, dropped + more)
        } else {
            (rest, dropped)
        }
    } else {
        (cards, Seq::empty())
    }
}

/// The card of a notification just surfaced.
pub open spec fn new_card(id: u32, order: u64, timeout_ms: u32) -> PopupCard {
    PopupCard {
        id,
        order,
        phase: CardPhase::Entering,
        shown: true,
        timeout_pending: timeout_ms > 0,
        removal_pending: false,
    }
}

/// Shows notification `id`: drops its old card, makes room, adds its new
/// card (with a timeout when `timeout_ms` is not zero), relists the cards
/// and shows the window.
pub open spec fn show_card(cards: Seq<PopupCard>, limit: usize, timeout_ms: u32, id: u32, order: u64) -> (
    Seq<PopupCard>,
    Seq<PopupAction>,
) {
    let (c1, a1) = finish_remove(cards, limit, id, true);
    let (c2, a2) = evict(c1, limit);
    let c3 = c2.push(new_card(id, order, timeout_ms));
    (
        relisted(c3, limit),
        a1 + a2 + seq![PopupAction::ShowCard { id }] + (if timeout_ms > 0 {
            seq![PopupAction::StartTimeout { id, ms: timeout_ms }]
        } else {
            Seq::empty()
        }) + listing_actions(c3, limit) + seq![PopupAction::SetWindowVisible { visible: true }],
    )
}

proof fn lemma_card_from(cards: Seq<PopupCard>, id: u32, from: int)
    requires
        0 <= from,
    ensures
        match card_from(cards, id, from) {
            Some(p) => from <= p < cards.len() && cards[p].id == id,
            None => forall|k: int| from <= k < cards.len() ==> cards[k].id != id,
        },
    decreases cards.len() - from,
{
    if from < cards.len() && cards[from].id != id {
        lemma_card_from(cards, id, from + 1);
    }
}

proof fn lemma_relisted_ids(cards: Seq<PopupCard>, limit: usize)
    ensures
        relisted(cards, limit).len() == cards.len(),
        forall|i: int| 0 <= i < cards.len() ==> (#[trigger] relisted(cards, limit)[i]).id == cards[i].id,
        distinct_cards(cards) ==> distinct_cards(relisted(cards, limit)),
{
}

proof fn lemma_oldest_upto(cards: Seq<PopupCard>, n: int)
    requires
        1 <= n <= cards.len(),
    ensures
        0 <= oldest_upto(cards, n) < n,
    decreases n,
{
    if n > 1 {
        lemma_oldest_upto(cards, n - 1);
    }
}

fn find_card(cards: &Vec<PopupCard>, id: u32) -> (out: Option<usize>)
    ensures
        match out {
            Some(i) => card_index(cards@, id) == Some(i as int),
            None => card_index(cards@, id) is None,
        },
{
    let mut j: usize = 0;
    while j < cards.len()
        invariant
            j <= cards.len(),
            card_index(cards@, id) == card_from(cards@, id, j as int),
        decreases cards.len() - j,
    {
        if cards[j].id == id {
            return Some(j);
        }
        j += 1;
    }
    None
}

fn finish_remove_exec(cards: &mut Vec<PopupCard>, limit: usize, id: u32, cancel_removal: bool) -> (out: Vec<PopupAction>)
    ensures
        (final(cards)@, out@) == finish_remove(old(cards)@, limit, id, cancel_removal),
{
    let mut actions: Vec<PopupAction> = Vec::new();
    match find_card(cards, id) {
        Some(i) => {
            proof {
                lemma_card_from(old(cards)@, id, 0);
            }
            let c = cards.remove(i);
            if c.timeout_pending {
                actions.push(PopupAction::CancelTimeout { id: c.id });
            }
            if cancel_removal && c.removal_pending {
                actions.push(PopupAction::CancelRemoval { id: c.id });
            }
            actions.push(PopupAction::DropCard { id: c.id });
            assert(actions@ =~= drop_actions(c, cancel_removal));
        },
        None => {},
    }
    let ghost dropped = actions@;
    let ghost rest = cards@;
    let (next, listing) = relist(cards, limit);
    *cards = next;
    let mut listing = listing;
    actions.append(&mut listing);
    if cards.len() == 0 {
        actions.push(PopupAction::SetWindowVisible { visible: false });
    }
    assert(actions@ =~= dropped + listing_actions(rest, limit) + if rest.len() == 0 {
        seq![PopupAction::SetWindowVisible { visible: false }]
    } else {
        Seq::empty()
    });
    actions
}

fn oldest_card(cards: &Vec<PopupCard>) -> (out: usize)
    requires
        cards@.len() > 0,
    ensures
        out == oldest_upto(cards@, cards@.len() as int),
        out < cards@.len(),
{
    let mut best: usize = 0;
    let mut n: usize = 1;
    while n < cards.len()
        invariant
            1 <= n <= cards.len(),
            best == oldest_upto(cards@, n as int),
            best < n,
        decreases cards.len() - n,
    {
        if cards[n].order < cards[best].order {
            best = n;
        }
        n += 1;
    }
    best
}

fn evict_exec(cards: &mut Vec<PopupCard>, limit: usize) -> (out: Vec<PopupAction>)
    ensures
        (final(cards)@, out@) == evict(old(cards)@, limit),
{
    let ghost start = cards@;
    let mut actions: Vec<PopupAction> = Vec::new();
    while cards.len() >= MAX_TRACKED_POPUPS
        invariant
            evict(start, limit) == (evict(cards@, limit).0, actions@ + evict(cards@, limit).1),
        decreases cards.len(),
    {
        let ghost cur = cards@;
        let oldest = oldest_card(cards);
        let id = cards[oldest].id;
        proof {
            lemma_card_from(cur, id, 0);
        }
        let mut dropped = finish_remove_exec(cards, limit, id, true);
        let ghost d = dropped@;
        assert(cards@.len() < cur.len());
        let ghost before = actions@;
        actions.append(&mut dropped);
        assert(before + (d + evict(cards@, limit).1) =~= actions@ + evict(cards@, limit).1);
    }
    assert(actions@ + Seq::<PopupAction>::empty() =~= actions@);
    actions
}

fn show_exec(cards: &mut Vec<PopupCard>, limit: usize, timeout_ms: u32, id: u32, order: u64) -> (out: Vec<PopupAction>)
    ensures
        (final(cards)@, out@) == show_card(old(cards)@, limit, timeout_ms, id, order),
{
    let mut actions = finish_remove_exec(cards, limit, id, true);
    let mut evicted = evict_exec(cards, limit);
    actions.append(&mut evicted);
    actions.push(PopupAction::ShowCard { id });
    if timeout_ms > 0 {
        actions.push(PopupAction::StartTimeout { id, ms: timeout_ms });
    }
    cards.push(
        PopupCard {
            id,
            order,
            phase: CardPhase::Entering,
            shown: true,
            timeout_pending: timeout_ms > 0,
            removal_pending: false,
        },
    );
    let ghost added = cards@;
    let ghost before = actions@;
    let (next, mut listing) = relist(cards, limit);
    *cards = next;
    actions.append(&mut listing);
    actions.push(PopupAction::SetWindowVisible { visible: true });
    assert(actions@ =~= before + listing_actions(added, limit) + seq![
        PopupAction::SetWindowVisible { visible: true },
    ]);
    actions
}

fn remove_card_exec(cards: &mut Vec<PopupCard>, limit: usize, id: u32) -> (out: Vec<PopupAction>)
    ensures
        (final(cards)@, out@) == remove_card(old(cards)@, limit, id),
{
    let mut actions: Vec<PopupAction> = Vec::new();
    let i = match find_card(cards, id) {
        Some(i) => i,
        None => {
            return actions;
        },
    };
    proof {
        lemma_card_from(cards@, id, 0);
    }
    let c = cards[i];
    if c.timeout_pending {
        actions.push(PopupAction::CancelTimeout { id });
    }
    let quiet = PopupCard { timeout_pending: false, ..c };
    if c.phase == CardPhase::Leaving {
        cards.set(i, quiet);
        return actions;
    }
    cards.set(i, PopupCard { phase: CardPhase::Leaving, removal_pending: true, ..quiet });
    actions.push(PopupAction::StartLeave { id });
    let ghost leaving = cards@;
    let ghost before = actions@;
    let (next, mut listing) = relist(cards, limit);
    *cards = next;
    actions.append(&mut listing);
    assert(actions@ =~= before + listing_actions(leaving, limit));
    actions
}

// ---------------------------------------------------------------------------
// Surfacing notifications
// ---------------------------------------------------------------------------

/// The timestamp the list gives notification `id`: that of its last entry
/// among the first `n`.
pub open spec fn listed_time(notifications: Seq<(u32, u64)>, id: u32, n: int) -> Option<u64>
    decreases n,
{
    if n <= 0 {
        None
    } else if notifications[n - 1].0 == id {
        Some(notifications[n - 1].1)
    } else {
        listed_time(notifications, id, n - 1)
    }
}

/// The first `n` surfaced notifications that the list still holds with the
/// same timestamp.
pub open spec fn prune_upto(surfaced: Seq<(u32, u64)>, notifications: Seq<(u32, u64)>, n: int) -> Seq<
    (u32, u64),
>
    decreases n,
{
    if n <= 0 {
        Seq::empty()
    } else {
        prune_upto(surfaced, notifications, n - 1) + if listed_time(
            notifications,
            surfaced[n - 1].0,
            notifications.len() as int,
        ) == Some(surfaced[n - 1].1) {
            seq![surfaced[n - 1]]
        } else {
            Seq::empty()
        }
    }
}

/// The surfaced notifications that the list still holds unchanged.
pub open spec fn prune(surfaced: Seq<(u32, u64)>, notifications: Seq<(u32, u64)>) -> Seq<(u32, u64)> {
    prune_upto(surfaced, notifications, surfaced.len() as int)
}

/// The first surfaced entry of `id` at or after `from`.
pub open spec fn surfaced_from(surfaced: Seq<(u32, u64)>, id: u32, from: int) -> Option<int>
    decreases surfaced.len() - from,
{
    if from < 0 || from >= surfaced.len() {
        None
    } else if surfaced[from].0 == id {
        Some(from)
    } else {
        surfaced_from(surfaced, id, from + 1)
    }
}

/// Records notification `id` with timestamp `time` as surfaced.
pub open spec fn mark(surfaced: Seq<(u32, u64)>, id: u32, time: u64) -> Seq<(u32, u64)> {
    match surfaced_from(surfaced, id, 0) {
        Some(i) => surfaced.update(i, (id, time)),
        None => surfaced.push((id, time)),
    }
}

/// Records the first `n` notifications since `started` as surfaced.
pub open spec fn mark_upto(surfaced: Seq<(u32, u64)>, notifications: Seq<(u32, u64)>, started: u64, n: int) -> Seq<
    (u32, u64),
>
    decreases n,
{
    if n <= 0 {
        surfaced
    } else {
        let earlier = mark_upto(surfaced, notifications, started, n - 1);
        if notifications[n - 1].1 >= started {
            mark(earlier, notifications[n - 1].0, notifications[n - 1].1)
        } else {
            earlier
        }
    }
}

/// A notification surfaces when it came after the popups started and was
/// not surfaced yet.
pub open spec fn is_pending(surfaced: Seq<(u32, u64)>, started: u64, n: (u32, u64)) -> bool {
    n.1 >= started && surfaced_from(surfaced, n.0, 0) is None
}

/// Surfaces the first `n` notifications that were pending in `seen`: each is
/// recorded and shown.
pub open spec fn surface_upto(
    cards: Seq<PopupCard>,
    surfaced: Seq<(u32, u64)>,
    seen: Seq<(u32, u64)>,
    notifications: Seq<(u32, u64)>,
    limit: usize,
    timeout_ms: u32,
    started: u64,
    n: int,
) -> (Seq<PopupCard>, Seq<(u32, u64)>, Seq<PopupAction>)
    decreases n,
{
    if n <= 0 {
        (cards, surfaced, Seq::empty())
    } else {
        let (c, s, a) = surface_upto(cards, surfaced, seen, notifications, limit, timeout_ms, started, n - 1);
        let x = notifications[n - 1];
        if is_pending(seen, started, x) {
            let (c2, a2) = show_card(c, limit, timeout_ms, x.0, x.1);
            (c2, mark(s, x.0, x.1), a + a2)
        } else {
            (c, s, a)
        }
    }
}

/// Starts removing the cards of the first `n` of `ids`.
pub open spec fn hide_upto(cards: Seq<PopupCard>, limit: usize, ids: Seq<u32>, n: int) -> (
    Seq<PopupCard>,
    Seq<PopupAction>,
)
    decreases n,
{
    if n <= 0 {
        (cards, Seq::empty())
    } else {
        let (c, a) = hide_upto(cards, limit, ids, n - 1);
        let (c2, a2) = remove_card(c, limit, ids[n - 1]);
        (c2, a + a2)
    }
}

/// The ids of the cards, in order.
pub open spec fn card_ids(cards: Seq<PopupCard>) -> Seq<u32> {
    cards.map_values(|c: PopupCard| c.id)
}

/// A new list of notifications `(id, timestamp)`: surfaced notifications no
/// longer listed unchanged are forgotten; under do-not-disturb every new one
/// is recorded as surfaced and every card starts to leave; otherwise each
/// new one not surfaced yet is recorded and shown.
pub open spec fn update_step(
    cards: Seq<PopupCard>,
    surfaced: Seq<(u32, u64)>,
    limit: usize,
    timeout_ms: u32,
    started: u64,
    notifications: Seq<(u32, u64)>,
    dnd: bool,
) -> (Seq<PopupCard>, Seq<(u32, u64)>, Seq<PopupAction>) {
    let kept = prune(surfaced, notifications);
    if dnd {
        let (c, a) = hide_upto(cards, limit, card_ids(cards), cards.len() as int);
        (c, mark_upto(kept, notifications, started, notifications.len() as int), a)
    } else {
        surface_upto(cards, kept, kept, notifications, limit, timeout_ms, started, notifications.len() as int)
    }
}

fn listed_time_exec(notifications: &Vec<(u32, u64)>, id: u32) -> (out: Option<u64>)
    ensures
        out == listed_time(notifications@, id, notifications@.len() as int),
{
    let mut n: usize = notifications.len();
    while n > 0
        invariant
            n <= notifications.len(),
            listed_time(notifications@, id, notifications@.len() as int) == listed_time(
                notifications@,
                id,
                n as int,
            ),
        decreases n,
    {
        if notifications[n - 1].0 == id {
            return Some(notifications[n - 1].1);
        }
        n -= 1;
    }
    None
}

fn prune_exec(surfaced: &Vec<(u32, u64)>, notifications: &Vec<(u32, u64)>) -> (out: Vec<(u32, u64)>)
    ensures
        out@ == prune(surfaced@, notifications@),
{
    let mut out: Vec<(u32, u64)> = Vec::new();
    let mut i: usize = 0;
    while i < surfaced.len()
        invariant
            i <= surfaced.len(),
            out@ == prune_upto(surfaced@, notifications@, i as int),
        decreases surfaced.len() - i,
    {
        let (id, time) = surfaced[i];
        let ghost before = out@;
        match listed_time_exec(notifications, id) {
            Some(t) => {
                if t == time {
                    out.push((id, time));
                }
            },
            None => {},
        }
        assert(out@ =~= prune_upto(surfaced@, notifications@, i + 1));
        i += 1;
    }
    out
}

fn surfaced_index_exec(surfaced: &Vec<(u32, u64)>, id: u32) -> (out: Option<usize>)
    ensures
        match out {
            Some(i) => surfaced_from(surfaced@, id, 0) == Some(i as int),
            None => surfaced_from(surfaced@, id, 0) is None,
        },
{
    let mut j: usize = 0;
    while j < surfaced.len()
        invariant
            j <= surfaced.len(),
            surfaced_from(surfaced@, id, 0) == surfaced_from(surfaced@, id, j as int),
        decreases surfaced.len() - j,
    {
        if surfaced[j].0 == id {
            return Some(j);
        }
        j += 1;
    }
    None
}

proof fn lemma_surfaced_from(surfaced: Seq<(u32, u64)>, id: u32, from: int)
    requires
        0 <= from,
    ensures
        match surfaced_from(surfaced, id, from) {
            Some(p) => from <= p < surfaced.len() && surfaced[p].0 == id,
            None => forall|k: int| from <= k < surfaced.len() ==> surfaced[k].0 != id,
        },
    decreases surfaced.len() - from,
{
    if from < surfaced.len() && surfaced[from].0 != id {
        lemma_surfaced_from(surfaced, id, from + 1);
    }
}

fn mark_exec(surfaced: &mut Vec<(u32, u64)>, id: u32, time: u64)
    ensures
        final(surfaced)@ == mark(old(surfaced)@, id, time),
{
    match surfaced_index_exec(surfaced, id) {
        Some(i) => {
            proof {
                lemma_surfaced_from(surfaced@, id, 0);
            }
            surfaced.set(i, (id, time));
        },
        None => {
            surfaced.push((id, time));
        },
    }
}

fn copy_pairs(v: &Vec<(u32, u64)>) -> (out: Vec<(u32, u64)>)
    ensures
        out@ == v@,
{
    let mut out: Vec<(u32, u64)> = Vec::new();
    let mut i: usize = 0;
    while i < v.len()
        invariant
            i <= v.len(),
            out@ =~= v@.take(i as int),
        decreases v.len() - i,
    {
        out.push(v[i]);
        assert(out@ =~= v@.take(i + 1));
        i += 1;
    }
    assert(v@.take(v.len() as int) =~= v@);
    out
}

/// The popup window's state: its settings, the notifications surfaced so
/// far (by id, with the timestamp they had), and the cards on screen.
#[derive(Debug)]
pub struct PopupTracker {
    pub timeout_ms: u32,
    pub visible_limit: usize,
    pub started_at: u64,
    pub surfaced: Vec<(u32, u64)>,
    pub cards: Vec<PopupCard>,
}

/// What happens to the popup window.
#[derive(Debug)]
pub enum PopupEvent {
    /// The notifications now held, as (id, timestamp), and do-not-disturb.
    Update { notifications: Vec<(u32, u64)>, dnd: bool },
    Reconfigure {
        timeout_ms: u32,
        visible_limit: usize,
        position: PopupPosition,
        margin_x: i32,
        margin_y: i32,
    },
    TimeoutElapsed { id: u32 },
    Cancel { id: u32 },
    Dismiss { id: u32 },
    FocusAndDismiss { id: u32 },
    EnterAnimationFinished { id: u32 },
    LeaveAnimationFinished { id: u32 },
    InvokeAction { id: u32 },
}

impl PopupTracker {
    /// A popup window that starts at `now_ms`: only notifications from then
    /// on surface.
    pub fn new(timeout_ms: u32, visible_limit: usize, now_ms: u64) -> (out: Self)
        ensures
            out.timeout_ms == timeout_ms,
            out.visible_limit == (if visible_limit < 1 {
                1
            } else if visible_limit > MAX_TRACKED_POPUPS {
                MAX_TRACKED_POPUPS
            } else {
                visible_limit
            }),
            out.started_at == now_ms,
            out.surfaced@.len() == 0,
            out.cards@.len() == 0,
    {
        PopupTracker {
            timeout_ms,
            visible_limit: normalize_visible_limit(visible_limit),
            started_at: now_ms,
            surfaced: Vec::new(),
            cards: Vec::new(),
        }
    }

    fn surface(&mut self, kept: &Vec<(u32, u64)>, notifications: &Vec<(u32, u64)>) -> (out: Vec<PopupAction>)
        ensures
            final(self).timeout_ms == old(self).timeout_ms,
            final(self).visible_limit == old(self).visible_limit,
            final(self).started_at == old(self).started_at,
            (final(self).cards@, final(self).surfaced@, out@) == surface_upto(
                old(self).cards@,
                kept@,
                kept@,
                notifications@,
                old(self).visible_limit,
                old(self).timeout_ms,
                old(self).started_at,
                notifications@.len() as int,
            ),
    {
        let ghost cards0 = self.cards@;
        let mut actions: Vec<PopupAction> = Vec::new();
        self.surfaced = copy_pairs(kept);
        let ghost seen = self.surfaced@;
        let mut i: usize = 0;
        while i < notifications.len()
            invariant
                i <= notifications.len(),
                self.timeout_ms == old(self).timeout_ms,
                self.visible_limit == old(self).visible_limit,
                self.started_at == old(self).started_at,
                seen == kept@,
                (self.cards@, self.surfaced@, actions@) == surface_upto(
                    cards0,
                    seen,
                    seen,
                    notifications@,
                    self.visible_limit,
                    self.timeout_ms,
                    self.started_at,
                    i as int,
                ),
            decreases notifications.len() - i,
        {
            let (id, time) = notifications[i];
            let pending = time >= self.started_at && surfaced_index_exec(kept, id).is_none();
            if pending {
                mark_exec(&mut self.surfaced, id, time);
                let mut shown = show_exec(&mut self.cards, self.visible_limit, self.timeout_ms, id, time);
                actions.append(&mut shown);
            }
            i += 1;
        }
        actions
    }

    fn hide_all(&mut self) -> (out: Vec<PopupAction>)
        ensures
            final(self).timeout_ms == old(self).timeout_ms,
            final(self).visible_limit == old(self).visible_limit,
            final(self).started_at == old(self).started_at,
            final(self).surfaced == old(self).surfaced,
            (final(self).cards@, out@) == hide_upto(
                old(self).cards@,
                old(self).visible_limit,
                card_ids(old(self).cards@),
                old(self).cards@.len() as int,
            ),
    {
        let ghost ids = card_ids(self.cards@);
        let ghost cards0 = self.cards@;
        let mut id_list: Vec<u32> = Vec::new();
        let mut k: usize = 0;
        while k < self.cards.len()
            invariant
                k <= self.cards.len(),
                self.cards@ == cards0,
                ids == card_ids(cards0),
                id_list@ =~= ids.take(k as int),
            decreases self.cards.len() - k,
        {
            id_list.push(self.cards[k].id);
            assert(id_list@ =~= ids.take(k + 1));
            k += 1;
        }
        assert(ids.take(cards0.len() as int) =~= ids);
        let mut actions: Vec<PopupAction> = Vec::new();
        let mut n: usize = 0;
        while n < id_list.len()
            invariant
                n <= id_list.len(),
                id_list@ == ids,
                ids.len() == cards0.len(),
                self.timeout_ms == old(self).timeout_ms,
                self.visible_limit == old(self).visible_limit,
                self.started_at == old(self).started_at,
                self.surfaced == old(self).surfaced,
                (self.cards@, actions@) == hide_upto(cards0, self.visible_limit, ids, n as int),
            decreases id_list.len() - n,
        {
            let mut removed = remove_card_exec(&mut self.cards, self.visible_limit, id_list[n]);
            actions.append(&mut removed);
            n += 1;
        }
        actions
    }
}

/// An entering card of `id` becomes visible once its entry animation ended.
pub open spec fn enter_finished(cards: Seq<PopupCard>, id: u32) -> Seq<PopupCard> {
    match card_index(cards, id) {
        Some(i) => if cards[i].phase == CardPhase::Entering {
            cards.update(i, PopupCard { phase: CardPhase::Visible, ..cards[i] })
        } else {
            cards
        },
        None => cards,
    }
}

/// The settings and the start time are kept.
pub open spec fn same_settings(a: PopupTracker, b: PopupTracker) -> bool {
    &&& a.timeout_ms == b.timeout_ms
    &&& a.visible_limit == b.visible_limit
    &&& a.started_at == b.started_at
}

impl PopupTracker {
    /// Handles one event and says what the window is to do.
    pub fn update(&mut self, event: PopupEvent) -> (out: Vec<PopupAction>)
        ensures
            event matches PopupEvent::Update { notifications, dnd } ==> {
                &&& same_settings(*old(self), *final(self))
                &&& (final(self).cards@, final(self).surfaced@, out@) == update_step(
                    old(self).cards@,
                    old(self).surfaced@,
                    old(self).visible_limit,
                    old(self).timeout_ms,
                    old(self).started_at,
                    notifications@,
                    dnd,
                )
            },
            event matches PopupEvent::Reconfigure {
                timeout_ms,
                visible_limit,
                position,
                margin_x,
                margin_y,
            } ==> {
                &&& final(self).timeout_ms == timeout_ms
                &&& final(self).visible_limit == (if visible_limit < 1 {
                    1
                } else if visible_limit > MAX_TRACKED_POPUPS {
                    MAX_TRACKED_POPUPS
                } else {
                    visible_limit
                })
                &&& final(self).started_at == old(self).started_at
                &&& final(self).surfaced == old(self).surfaced
                &&& final(self).cards == old(self).cards
                &&& out@ == seq![PopupAction::ApplyPosition { position, margin_x, margin_y }]
            },
            event matches PopupEvent::TimeoutElapsed { id } ==> {
                &&& same_settings(*old(self), *final(self))
                &&& final(self).surfaced == old(self).surfaced
                &&& (final(self).cards@, out@) == remove_card(old(self).cards@, old(self).visible_limit, id)
            },
            event matches PopupEvent::Cancel { id } ==> {
                &&& same_settings(*old(self), *final(self))
                &&& final(self).surfaced == old(self).surfaced
                &&& (final(self).cards@, out@) == remove_card(old(self).cards@, old(self).visible_limit, id)
            },
            event matches PopupEvent::Dismiss { id } ==> {
                &&& same_settings(*old(self), *final(self))
                &&& final(self).surfaced == old(self).surfaced
                &&& final(self).cards@ == remove_card(old(self).cards@, old(self).visible_limit, id).0
                &&& out@ == seq![PopupAction::EmitDismiss { id }] + remove_card(
                    old(self).cards@,
                    old(self).visible_limit,
                    id,
                ).1
            },
            event matches PopupEvent::FocusAndDismiss { id } ==> {
                &&& same_settings(*old(self), *final(self))
                &&& final(self).surfaced == old(self).surfaced
                &&& final(self).cards@ == remove_card(old(self).cards@, old(self).visible_limit, id).0
                &&& out@ == seq![PopupAction::EmitFocusAndDismiss { id }] + remove_card(
                    old(self).cards@,
                    old(self).visible_limit,
                    id,
                ).1
            },
            event matches PopupEvent::EnterAnimationFinished { id } ==> {
                &&& same_settings(*old(self), *final(self))
                &&& final(self).surfaced == old(self).surfaced
                &&& final(self).cards@ == enter_finished(old(self).cards@, id)
                &&& out@.len() == 0
            },
            event matches PopupEvent::LeaveAnimationFinished { id } ==> {
                &&& same_settings(*old(self), *final(self))
                &&& final(self).surfaced == old(self).surfaced
                &&& (final(self).cards@, out@) == finish_remove(
                    old(self).cards@,
                    old(self).visible_limit,
                    id,
                    false,
                )
            },
            event matches PopupEvent::InvokeAction { id } ==> {
                &&& same_settings(*old(self), *final(self))
                &&& final(self).surfaced == old(self).surfaced
                &&& final(self).cards@ == remove_card(old(self).cards@, old(self).visible_limit, id).0
                &&& out@ == seq![PopupAction::EmitInvokeAction { id }] + remove_card(
                    old(self).cards@,
                    old(self).visible_limit,
                    id,
                ).1
            },
    {
        match event {
            PopupEvent::Update { notifications, dnd } => {
                let kept = prune_exec(&self.surfaced, &notifications);
                if dnd {
                    let actions = self.hide_all();
                    let mut marked = copy_pairs(&kept);
                    let mut i: usize = 0;
                    while i < notifications.len()
                        invariant
                            i <= notifications.len(),
                            marked@ == mark_upto(kept@, notifications@, self.started_at, i as int),
                        decreases notifications.len() - i,
                    {
                        let (id, time) = notifications[i];
                        if time >= self.started_at {
                            mark_exec(&mut marked, id, time);
                        }
                        i += 1;
                    }
                    self.surfaced = marked;
                    actions
                } else {
                    self.surface(&kept, &notifications)
                }
            },
            PopupEvent::Reconfigure { timeout_ms, visible_limit, position, margin_x, margin_y } => {
                self.timeout_ms = timeout_ms;
                self.visible_limit = normalize_visible_limit(visible_limit);
                let mut out: Vec<PopupAction> = Vec::new();
                out.push(PopupAction::ApplyPosition { position, margin_x, margin_y });
                out
            },
            PopupEvent::TimeoutElapsed { id } | PopupEvent::Cancel { id } => {
                remove_card_exec(&mut self.cards, self.visible_limit, id)
            },
            PopupEvent::Dismiss { id } => {
                let mut out: Vec<PopupAction> = Vec::new();
                out.push(PopupAction::EmitDismiss { id });
                let mut removed = remove_card_exec(&mut self.cards, self.visible_limit, id);
                out.append(&mut removed);
                out
            },
            PopupEvent::FocusAndDismiss { id } => {
                let mut out: Vec<PopupAction> = Vec::new();
                out.push(PopupAction::EmitFocusAndDismiss { id });
                let mut removed = remove_card_exec(&mut self.cards, self.visible_limit, id);
                out.append(&mut removed);
                out
            },
            PopupEvent::EnterAnimationFinished { id } => {
                if let Some(i) = find_card(&self.cards, id) {
                    proof {
                        lemma_card_from(self.cards@, id, 0);
                    }
                    let c = self.cards[i];
                    if c.phase == CardPhase::Entering {
                        self.cards.set(i, PopupCard { phase: CardPhase::Visible, ..c });
                    }
                }
                Vec::new()
            },
            PopupEvent::LeaveAnimationFinished { id } => {
                finish_remove_exec(&mut self.cards, self.visible_limit, id, false)
            },
            PopupEvent::InvokeAction { id } => {
                let mut out: Vec<PopupAction> = Vec::new();
                out.push(PopupAction::EmitInvokeAction { id });
                let mut removed = remove_card_exec(&mut self.cards, self.visible_limit, id);
                out.append(&mut removed);
                out
            },
        }
    }
}

// ---------------------------------------------------------------------------
// Laws
// ---------------------------------------------------------------------------

/// No two listed notifications share an id.
pub open spec fn distinct_ids(notifications: Seq<(u32, u64)>) -> bool {
    forall|i: int, j: int| 0 <= i < j < notifications.len() ==> notifications[i].0 != notifications[j].0
}

proof fn lemma_listed_time_distinct(notifications: Seq<(u32, u64)>, k: int, n: int)
    requires
        distinct_ids(notifications),
        0 <= k < n <= notifications.len(),
    ensures
        listed_time(notifications, notifications[k].0, n) == Some(notifications[k].1),
    decreases n,
{
    if k < n - 1 {
        lemma_listed_time_distinct(notifications, k, n - 1);
    }
}

proof fn lemma_push_contains(a: Seq<(u32, u64)>, e: (u32, u64), x: (u32, u64))
    ensures
        a.push(e).contains(x) <==> (a.contains(x) || x == e),
{
    if a.push(e).contains(x) && x != e {
        let j = choose|j: int| 0 <= j < a.push(e).len() && #[trigger] a.push(e)[j] == x;
        assert(a[j] == x);
    }
    if a.contains(x) {
        let j = choose|j: int| 0 <= j < a.len() && #[trigger] a[j] == x;
        assert(a.push(e)[j] == x);
    }
    if x == e {
        assert(a.push(e)[a.len() as int] == x);
    }
}

proof fn lemma_prune_contains(surfaced: Seq<(u32, u64)>, notifications: Seq<(u32, u64)>, n: int, x: (u32, u64))
    requires
        0 <= n <= surfaced.len(),
    ensures
        prune_upto(surfaced, notifications, n).contains(x) <==> (surfaced.take(n).contains(x)
            && listed_time(notifications, x.0, notifications.len() as int) == Some(x.1)),
    decreases n,
{
    if n == 0 {
        assert(surfaced.take(0) =~= Seq::<(u32, u64)>::empty());
        assert(prune_upto(surfaced, notifications, 0) =~= Seq::<(u32, u64)>::empty());
    } else {
        lemma_prune_contains(surfaced, notifications, n - 1, x);
        let earlier = prune_upto(surfaced, notifications, n - 1);
        let e = surfaced[n - 1];
        assert(surfaced.take(n) =~= surfaced.take(n - 1).push(e));
        lemma_push_contains(surfaced.take(n - 1), e, x);
        if listed_time(notifications, e.0, notifications.len() as int) == Some(e.1) {
            assert(earlier + seq![e] =~= earlier.push(e));
            lemma_push_contains(earlier, e, x);
        } else {
            assert(earlier + Seq::<(u32, u64)>::empty() =~= earlier);
        }
    }
}

proof fn lemma_mark_contains(surfaced: Seq<(u32, u64)>, id: u32, time: u64, x: (u32, u64))
    ensures
        mark(surfaced, id, time).contains((id, time)),
        x.0 != id && surfaced.contains(x) ==> mark(surfaced, id, time).contains(x),
{
    lemma_surfaced_from(surfaced, id, 0);
    let m = mark(surfaced, id, time);
    match surfaced_from(surfaced, id, 0) {
        Some(p) => {
            assert(m[p] == (id, time));
            if x.0 != id && surfaced.contains(x) {
                let j = choose|j: int| 0 <= j < surfaced.len() && #[trigger] surfaced[j] == x;
                assert(m[j] == x);
            }
        },
        None => {
            assert(m[surfaced.len() as int] == (id, time));
            if x.0 != id && surfaced.contains(x) {
                let j = choose|j: int| 0 <= j < surfaced.len() && #[trigger] surfaced[j] == x;
                assert(m[j] == x);
            }
        },
    }
}

proof fn lemma_surfaced_from_contains(surfaced: Seq<(u32, u64)>, x: (u32, u64))
    requires
        surfaced.contains(x),
    ensures
        surfaced_from(surfaced, x.0, 0) is Some,
{
    lemma_surfaced_from(surfaced, x.0, 0);
}

proof fn lemma_surface_records(
    cards: Seq<PopupCard>,
    kept: Seq<(u32, u64)>,
    notifications: Seq<(u32, u64)>,
    limit: usize,
    timeout_ms: u32,
    started: u64,
    n: int,
)
    requires
        distinct_ids(notifications),
        0 <= n <= notifications.len(),
        forall|x: (u32, u64)| #[trigger] kept.contains(x) ==> listed_time(notifications, x.0, notifications.len() as int) == Some(x.1),
    ensures
        forall|k: int|
            0 <= k < notifications.len() && notifications[k].1 >= started && (k < n || !is_pending(
                kept,
                started,
                notifications[k],
            )) ==> surface_upto(cards, kept, kept, notifications, limit, timeout_ms, started, n).1.contains(
                #[trigger] notifications[k],
            ),
    decreases n,
{
    if n == 0 {
        assert forall|k: int|
            0 <= k < notifications.len() && notifications[k].1 >= started && !is_pending(
                kept,
                started,
                notifications[k],
            ) implies kept.contains(#[trigger] notifications[k]) by {
            let x = notifications[k];
            lemma_surfaced_from(kept, x.0, 0);
            let p = surfaced_from(kept, x.0, 0)->0;
            assert(kept.contains(kept[p]));
            lemma_listed_time_distinct(notifications, k, notifications.len() as int);
            assert(kept[p] == x);
        }
    } else {
        lemma_surface_records(cards, kept, notifications, limit, timeout_ms, started, n - 1);
        let (c, s, a) = surface_upto(cards, kept, kept, notifications, limit, timeout_ms, started, n - 1);
        let x = notifications[n - 1];
        if is_pending(kept, started, x) {
            assert forall|k: int|
                0 <= k < notifications.len() && notifications[k].1 >= started && (k < n || !is_pending(
                    kept,
                    started,
                    notifications[k],
                )) implies mark(s, x.0, x.1).contains(#[trigger] notifications[k]) by {
                lemma_mark_contains(s, x.0, x.1, notifications[k]);
            }
        }
    }
}

proof fn lemma_surface_quiet(
    cards: Seq<PopupCard>,
    kept: Seq<(u32, u64)>,
    notifications: Seq<(u32, u64)>,
    limit: usize,
    timeout_ms: u32,
    started: u64,
    n: int,
)
    requires
        0 <= n <= notifications.len(),
        forall|k: int| 0 <= k < notifications.len() ==> !is_pending(kept, started, #[trigger] notifications[k]),
    ensures
        surface_upto(cards, kept, kept, notifications, limit, timeout_ms, started, n) == (
            cards,
            kept,
            Seq::<PopupAction>::empty(),
        ),
    decreases n,
{
    if n > 0 {
        lemma_surface_quiet(cards, kept, notifications, limit, timeout_ms, started, n - 1);
    }
}

/// A notification pops up once: after an update with a list of notifications
/// (distinct ids, do-not-disturb off), the same list again surfaces nothing
/// and leaves the cards as they are.
pub proof fn law_surfaces_once(
    cards: Seq<PopupCard>,
    surfaced: Seq<(u32, u64)>,
    limit: usize,
    timeout_ms: u32,
    started: u64,
    notifications: Seq<(u32, u64)>,
)
    requires
        distinct_ids(notifications),
    ensures
        ({
            let (c1, s1, a1) = update_step(cards, surfaced, limit, timeout_ms, started, notifications, false);
            let (c2, s2, a2) = update_step(c1, s1, limit, timeout_ms, started, notifications, false);
            c2 == c1 && a2.len() == 0
        }),
{
    let n = notifications.len() as int;
    let kept = prune(surfaced, notifications);
    assert forall|x: (u32, u64)| #[trigger] kept.contains(x) implies listed_time(
        notifications,
        x.0,
        n,
    ) == Some(x.1) by {
        lemma_prune_contains(surfaced, notifications, surfaced.len() as int, x);
    }
    lemma_surface_records(cards, kept, notifications, limit, timeout_ms, started, n);
    let (c1, s1, a1) = surface_upto(cards, kept, kept, notifications, limit, timeout_ms, started, n);
    let kept2 = prune(s1, notifications);
    assert forall|k: int| 0 <= k < notifications.len() implies !is_pending(
        kept2,
        started,
        #[trigger] notifications[k],
    ) by {
        let x = notifications[k];
        if x.1 >= started {
            assert(s1.contains(x));
            lemma_listed_time_distinct(notifications, k, n);
            lemma_prune_contains(s1, notifications, s1.len() as int, x);
            assert(s1.take(s1.len() as int) =~= s1);
            lemma_surfaced_from_contains(kept2, x);
        }
    }
    lemma_surface_quiet(c1, kept2, notifications, limit, timeout_ms, started, n);
}

proof fn lemma_finish_remove_cards(cards: Seq<PopupCard>, limit: usize, id: u32, cancel_removal: bool)
    requires
        distinct_cards(cards),
    ensures
        finish_remove(cards, limit, id, cancel_removal).0.len() <= cards.len(),
        distinct_cards(finish_remove(cards, limit, id, cancel_removal).0),
        forall|k: int|
            0 <= k < finish_remove(cards, limit, id, cancel_removal).0.len() ==> (#[trigger] finish_remove(
                cards,
                limit,
                id,
                cancel_removal,
            ).0[k]).id != id,
        forall|k: int|
            0 <= k < finish_remove(cards, limit, id, cancel_removal).0.len() ==> exists|j: int|
                0 <= j < cards.len() && cards[j].id == (#[trigger] finish_remove(
                    cards,
                    limit,
                    id,
                    cancel_removal,
                ).0[k]).id,
        (exists|j: int| 0 <= j < cards.len() && cards[j].id == id) ==> finish_remove(
            cards,
            limit,
            id,
            cancel_removal,
        ).0.len() < cards.len(),
{
    lemma_card_from(cards, id, 0);
    let rest = match card_index(cards, id) {
        Some(i) => cards.remove(i),
        None => cards,
    };
    lemma_relisted_ids(rest, limit);
    let out = relisted(rest, limit);
    match card_index(cards, id) {
        Some(i) => {
            assert forall|k: int| 0 <= k < out.len() implies exists|j: int|
                0 <= j < cards.len() && cards[j].id == (#[trigger] out[k]).id by {
                if k < i {
                    assert(cards[k].id == out[k].id);
                } else {
                    assert(cards[k + 1].id == out[k].id);
                }
            }
            assert forall|k: int| 0 <= k < out.len() implies (#[trigger] out[k]).id != id by {
                if k < i {
                    assert(cards[k].id == out[k].id);
                } else {
                    assert(cards[k + 1].id == out[k].id);
                }
            }
        },
        None => {
            assert forall|k: int| 0 <= k < out.len() implies exists|j: int|
                0 <= j < cards.len() && cards[j].id == (#[trigger] out[k]).id by {
                assert(cards[k].id == out[k].id);
            }
        },
    }
}

proof fn lemma_evict_cards(cards: Seq<PopupCard>, limit: usize, id: u32)
    requires
        distinct_cards(cards),
        forall|k: int| 0 <= k < cards.len() ==> (#[trigger] cards[k]).id != id,
    ensures
        evict(cards, limit).0.len() < MAX_TRACKED_POPUPS,
        distinct_cards(evict(cards, limit).0),
        forall|k: int| 0 <= k < evict(cards, limit).0.len() ==> (#[trigger] evict(cards, limit).0[k]).id != id,
    decreases cards.len(),
{
    if cards.len() >= MAX_TRACKED_POPUPS && cards.len() > 0 {
        let oldest = oldest_upto(cards, cards.len() as int);
        lemma_oldest_upto(cards, cards.len() as int);
        let victim = cards[oldest].id;
        lemma_finish_remove_cards(cards, limit, victim, true);
        let rest = finish_remove(cards, limit, victim, true).0;
        assert forall|k: int| 0 <= k < rest.len() implies (#[trigger] rest[k]).id != id by {
            let j = choose|j: int| 0 <= j < cards.len() && cards[j].id == rest[k].id;
            assert(cards[j].id != id);
        }
        lemma_evict_cards(rest, limit, id);
    }
}

/// At most `MAX_TRACKED_POPUPS` cards are tracked, one per notification:
/// showing a card keeps both true.
pub proof fn law_show_keeps_cards_bounded(
    cards: Seq<PopupCard>,
    limit: usize,
    timeout_ms: u32,
    id: u32,
    order: u64,
)
    requires
        distinct_cards(cards),
    ensures
        show_card(cards, limit, timeout_ms, id, order).0.len() <= MAX_TRACKED_POPUPS,
        distinct_cards(show_card(cards, limit, timeout_ms, id, order).0),
{
    lemma_finish_remove_cards(cards, limit, id, true);
    let c1 = finish_remove(cards, limit, id, true).0;
    lemma_evict_cards(c1, limit, id);
    let c2 = evict(c1, limit).0;
    let c3 = c2.push(new_card(id, order, timeout_ms));
    assert(distinct_cards(c3));
    lemma_relisted_ids(c3, limit);
}

/// Starting to remove a card neither adds cards nor lets two share a
/// notification.
pub proof fn law_remove_keeps_cards(cards: Seq<PopupCard>, limit: usize, id: u32)
    requires
        distinct_cards(cards),
    ensures
        remove_card(cards, limit, id).0.len() == cards.len(),
        distinct_cards(remove_card(cards, limit, id).0),
{
    lemma_card_from(cards, id, 0);
    if let Some(i) = card_index(cards, id) {
        let c = cards[i];
        let quiet = PopupCard { timeout_pending: false, ..c };
        let leaving = cards.update(i, PopupCard { phase: CardPhase::Leaving, removal_pending: true, ..quiet });
        lemma_relisted_ids(leaving, limit);
    }
}

/// How many of the first `n` cards are not leaving and rank among the
/// first `free`: those the listing shows.
pub open spec fn shown_upto(cards: Seq<PopupCard>, free: nat, n: int) -> nat
    decreases n,
{
    if n <= 0 {
        0
    } else {
        shown_upto(cards, free, n - 1) + if cards[n - 1].phase != CardPhase::Leaving && rank(
            cards,
            n - 1,
        ) < free {
            1nat
        } else {
            0nat
        }
    }
}

spec fn shown_ranks(cards: Seq<PopupCard>, free: nat, n: int) -> Set<int>
    decreases n,
{
    if n <= 0 {
        Set::empty()
    } else {
        let earlier = shown_ranks(cards, free, n - 1);
        if cards[n - 1].phase != CardPhase::Leaving && rank(cards, n - 1) < free {
            earlier.insert(rank(cards, n - 1) as int)
        } else {
            earlier
        }
    }
}

proof fn lemma_rank_below(cards: Seq<PopupCard>, i: int, j: int, n: int)
    requires
        0 <= i < cards.len(),
        0 <= j < cards.len(),
        0 <= n <= cards.len(),
        listed_above(cards, j, i),
    ensures
        rank_upto(cards, j, n) + (if j < n {
            1int
        } else {
            0int
        }) <= rank_upto(cards, i, n),
    decreases n,
{
    if n > 0 {
        lemma_rank_below(cards, i, j, n - 1);
    }
}

proof fn lemma_ranks_distinct(cards: Seq<PopupCard>, i: int, j: int)
    requires
        0 <= i < cards.len(),
        0 <= j < cards.len(),
        i != j,
        cards[i].phase != CardPhase::Leaving,
        cards[j].phase != CardPhase::Leaving,
    ensures
        rank(cards, i) != rank(cards, j),
{
    if listed_above(cards, j, i) {
        lemma_rank_below(cards, i, j, cards.len() as int);
    } else {
        assert(listed_above(cards, i, j));
        lemma_rank_below(cards, j, i, cards.len() as int);
    }
}

proof fn lemma_shown_ranks(cards: Seq<PopupCard>, free: nat, n: int)
    requires
        0 <= n <= cards.len(),
    ensures
        shown_ranks(cards, free, n).finite(),
        shown_ranks(cards, free, n).len() == shown_upto(cards, free, n),
        shown_ranks(cards, free, n).subset_of(vstd::set_lib::set_int_range(0, free as int)),
        forall|r: int|
            #[trigger] shown_ranks(cards, free, n).contains(r) ==> exists|k: int|
                0 <= k < n && cards[k].phase != CardPhase::Leaving && rank(cards, k) == r,
    decreases n,
{
    if n > 0 {
        lemma_shown_ranks(cards, free, n - 1);
        let k = n - 1;
        if cards[k].phase != CardPhase::Leaving && rank(cards, k) < free {
            let earlier = shown_ranks(cards, free, n - 1);
            if earlier.contains(rank(cards, k) as int) {
                let j = choose|j: int|
                    0 <= j < n - 1 && cards[j].phase != CardPhase::Leaving && rank(cards, j) == rank(
                        cards,
                        k,
                    ) as int;
                lemma_ranks_distinct(cards, j, k);
            }
        }
    }
}

/// No more cards show than the window allows: of the cards that are not
/// leaving, at most `slots` (the visible limit, less the leaving cards still
/// on screen) are shown by a listing.
pub proof fn law_listing_respects_limit(cards: Seq<PopupCard>, limit: usize)
    ensures
        shown_upto(cards, slots(limit, cards), cards.len() as int) <= slots(limit, cards),
        forall|k: int|
            0 <= k < cards.len() && cards[k].phase != CardPhase::Leaving ==> (#[trigger] relisted(
                cards,
                limit,
            )[k]).shown == (rank(cards, k) < slots(limit, cards)),
{
    let free = slots(limit, cards);
    lemma_shown_ranks(cards, free, cards.len() as int);
    vstd::set_lib::lemma_int_range(0, free as int);
    vstd::set_lib::lemma_len_subset(
        shown_ranks(cards, free, cards.len() as int),
        vstd::set_lib::set_int_range(0, free as int),
    );
}

} // verus!
