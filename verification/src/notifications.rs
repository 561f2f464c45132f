//! Notifications: how the history list groups notifications by application
//! and orders them newest first, how a notification finds its application's
//! window, and the popup stack's limits.
use vstd::prelude::*;

use crate::compositor::{State as CompositorState, Window};
use crate::sorting::{
    insert_by, lemma_insert_by, lemma_sort_by_items, lemma_sort_by_sorted, sort_by, sorted_by,
    total_preorder,
};
use crate::text::{
    ascii_lower, ascii_lowercase_chars, chars_of, concat_chars, decimal, decimal_chars, ends_with,
    ends_with_chars,
    eq_str, lowercase, owned, string_of, text_before, text_lt, to_lowercase, trim, trim_chars,
    views, without_suffix, without_suffix_chars,
};

verus! {

/// A notification as the notification service keeps it. `source_name` is the
/// name the panel shows for where it came from.
#[derive(Debug, Clone, PartialEq, Eq)]
pub struct NotificationEntry {
    pub id: u32,
    pub app_name: String,
    pub app_icon: String,
    pub desktop_entry: Option<String>,
    pub summary: String,
    pub body: String,
    pub urgency: u8,
    /// Action keys and labels, alternating.
    pub actions: Vec<String>,
    pub image: Option<String>,
    /// When it arrived, in milliseconds since the epoch.
    pub timestamp: u64,
    pub resident: bool,
    pub source_name: String,
}

/// The notifications of one application, newest first.
#[derive(Debug, Clone, PartialEq, Eq)]
pub struct NotificationGroupModel {
    pub key: String,
    pub app_name: String,
    pub icon: String,
    pub ids: Vec<u32>,
    /// The newest notification.
    pub lead: NotificationEntry,
    pub notifications: Vec<NotificationEntry>,
}

/// One entry of the history list: a group, or a single notification.
#[derive(Debug, Clone, PartialEq, Eq)]
pub enum NotificationListItem {
    Group(NotificationGroupModel),
    Notification(NotificationEntry),
}

/// From this many notifications on, an application's notifications are grouped.
pub const GROUP_THRESHOLD: usize = 3;

/// The most popups the stack keeps track of.
pub const MAX_TRACKED_POPUPS: usize = 20;

// ---------------------------------------------------------------------------
// Keys and icons
// ---------------------------------------------------------------------------

/// What a notification is grouped by, before case folding: its desktop entry,
/// else its application name, trimmed and when not empty; else "notification".
pub open spec fn group_source(n: NotificationEntry) -> Seq<char> {
    if n.desktop_entry is Some && trim(n.desktop_entry->0@).len() > 0 {
        trim(n.desktop_entry->0@)
    } else if trim(n.app_name@).len() > 0 {
        trim(n.app_name@)
    } else {
        "notification"@
    }
}

/// The key a notification is grouped by.
pub open spec fn group_key(n: NotificationEntry) -> Seq<char> {
    lowercase(group_source(n))
}

/// The icon shown for a notification: its application's, or a generic one.
pub open spec fn entry_icon(n: NotificationEntry) -> Seq<char> {
    if n.app_icon@.len() == 0 {
        "dialog-information-symbolic"@
    } else {
        n.app_icon@
    }
}

/// The key a notification is grouped by.
pub fn notification_group_key(notification: &NotificationEntry) -> (out: String)
    ensures
        out@ == group_key(*notification),
{
    let source: Vec<char> = match &notification.desktop_entry {
        Some(entry) => {
            let t = trim_chars(&chars_of(entry.as_str()));
            if t.len() > 0 {
                t
            } else {
                fallback_source(&notification.app_name)
            }
        },
        None => fallback_source(&notification.app_name),
    };
    let source = string_of(&source);
    to_lowercase(source.as_str())
}

/// The application name trimmed, or "notification" when it is blank.
fn fallback_source(app_name: &String) -> (out: Vec<char>)
    ensures
        out@ == (if trim(app_name@).len() > 0 {
            trim(app_name@)
        } else {
            "notification"@
        }),
{
    let t = trim_chars(&chars_of(app_name.as_str()));
    if t.len() > 0 {
        t
    } else {
        chars_of("notification")
    }
}

/// The icon shown for a notification.
pub fn notification_icon_name(notification: &NotificationEntry) -> (out: &str)
    ensures
        out@ == entry_icon(*notification),
{
    if notification.app_icon.as_str().is_empty() {
        "dialog-information-symbolic"
    } else {
        notification.app_icon.as_str()
    }
}

// ---------------------------------------------------------------------------
// Grouping and ordering
// ---------------------------------------------------------------------------

/// `a` and `b` hold the same notification, field for field.
pub open spec fn same_entry(a: NotificationEntry, b: NotificationEntry) -> bool {
    &&& a.id == b.id
    &&& a.app_name == b.app_name
    &&& a.app_icon == b.app_icon
    &&& a.desktop_entry == b.desktop_entry
    &&& a.summary == b.summary
    &&& a.body == b.body
    &&& a.urgency == b.urgency
    &&& a.actions@ == b.actions@
    &&& a.image == b.image
    &&& a.timestamp == b.timestamp
    &&& a.resident == b.resident
    &&& a.source_name == b.source_name
}

/// `a` and `b` hold the same notifications in the same order.
pub open spec fn same_entries(a: Seq<NotificationEntry>, b: Seq<NotificationEntry>) -> bool {
    &&& a.len() == b.len()
    &&& forall|i: int| 0 <= i < a.len() ==> same_entry(#[trigger] a[i], b[i])
}

/// `a` is listed no later than `b`: newer first, then the higher id first.
pub open spec fn entry_le(a: NotificationEntry, b: NotificationEntry) -> bool {
    a.timestamp > b.timestamp || (a.timestamp == b.timestamp && a.id >= b.id)
}

/// The order of notifications inside a group.
pub open spec fn entry_order() -> spec_fn(NotificationEntry, NotificationEntry) -> bool {
    |a: NotificationEntry, b: NotificationEntry| entry_le(a, b)
}

/// The keys of the notifications, each once, in the order they first occur.
pub open spec fn first_seen_keys(ns: Seq<NotificationEntry>) -> Seq<Seq<char>>
    decreases ns.len(),
{
    if ns.len() == 0 {
        Seq::empty()
    } else {
        let rest = first_seen_keys(ns.drop_last());
        if rest.contains(group_key(ns.last())) {
            rest
        } else {
            rest.push(group_key(ns.last()))
        }
    }
}

/// The notifications with the given key, in order.
pub open spec fn members(ns: Seq<NotificationEntry>, key: Seq<char>) -> Seq<NotificationEntry>
    decreases ns.len(),
{
    if ns.len() == 0 {
        Seq::empty()
    } else {
        let rest = members(ns.drop_last(), key);
        if group_key(ns.last()) == key {
            rest.push(ns.last())
        } else {
            rest
        }
    }
}

/// The notifications of a group, newest first.
pub open spec fn group_entries(ns: Seq<NotificationEntry>, key: Seq<char>) -> Seq<NotificationEntry> {
    sort_by(members(ns, key), entry_order())
}

/// The newest notification of a group.
pub open spec fn group_lead(ns: Seq<NotificationEntry>, key: Seq<char>) -> NotificationEntry {
    group_entries(ns, key)[0]
}

/// Group `a` is listed no later than group `b`: by their newest
/// notifications, newer first, then the higher id, then by source name.
pub open spec fn group_le(ns: Seq<NotificationEntry>, a: Seq<char>, b: Seq<char>) -> bool {
    let la = group_lead(ns, a);
    let lb = group_lead(ns, b);
    la.timestamp > lb.timestamp || (la.timestamp == lb.timestamp && (la.id > lb.id || (la.id
        == lb.id && !text_before(lb.source_name@, la.source_name@))))
}

/// The order of the groups of `ns`.
pub open spec fn group_order(ns: Seq<NotificationEntry>) -> spec_fn(Seq<char>, Seq<char>) -> bool {
    |a: Seq<char>, b: Seq<char>| group_le(ns, a, b)
}

/// The keys of the groups of `ns`, in listing order.
pub open spec fn group_keys(ns: Seq<NotificationEntry>) -> Seq<Seq<char>> {
    sort_by(first_seen_keys(ns), group_order(ns))
}

/// `g` is the group of `ns` with the given key.
pub open spec fn is_group(g: NotificationGroupModel, ns: Seq<NotificationEntry>, key: Seq<char>) -> bool {
    &&& g.key@ == key
    &&& same_entries(g.notifications@, group_entries(ns, key))
    &&& g.notifications@.len() > 0
    &&& same_entry(g.lead, g.notifications@[0])
    &&& g.ids@ == g.notifications@.map_values(|n: NotificationEntry| n.id)
    &&& g.app_name == g.lead.source_name
    &&& g.icon@ == entry_icon(g.lead)
}

/// `gs` are the groups of `ns`, in listing order.
pub open spec fn groups_of(gs: Seq<NotificationGroupModel>, ns: Seq<NotificationEntry>) -> bool {
    &&& gs.len() == group_keys(ns).len()
    &&& forall|i: int| 0 <= i < gs.len() ==> is_group(#[trigger] gs[i], ns, group_keys(ns)[i])
}

proof fn lemma_members_step(ns: Seq<NotificationEntry>, i: int, key: Seq<char>)
    requires
        0 <= i < ns.len(),
    ensures
        members(ns.take(i + 1), key) == (if group_key(ns[i]) == key {
            members(ns.take(i), key).push(ns[i])
        } else {
            members(ns.take(i), key)
        }),
{
    assert(ns.take(i + 1).drop_last() =~= ns.take(i));
}

proof fn lemma_first_seen_step(ns: Seq<NotificationEntry>, i: int)
    requires
        0 <= i < ns.len(),
    ensures
        first_seen_keys(ns.take(i + 1)) == (if first_seen_keys(ns.take(i)).contains(group_key(ns[i])) {
            first_seen_keys(ns.take(i))
        } else {
            first_seen_keys(ns.take(i)).push(group_key(ns[i]))
        }),
{
    assert(ns.take(i + 1).drop_last() =~= ns.take(i));
}

/// A key seen among the notifications has members.
proof fn lemma_seen_key_has_members(ns: Seq<NotificationEntry>, key: Seq<char>)
    requires
        first_seen_keys(ns).contains(key),
    ensures
        members(ns, key).len() > 0,
    decreases ns.len(),
{
    if ns.len() > 0 {
        if group_key(ns.last()) != key {
            lemma_seen_key_has_members(ns.drop_last(), key);
        }
    }
}

/// A field-for-field copy of a list of strings.
fn copy_strings(v: &Vec<String>) -> (out: Vec<String>)
    ensures
        out@ == v@,
{
    let mut out: Vec<String> = Vec::new();
    let mut i: usize = 0;
    while i < v.len()
        invariant
            i <= v.len(),
            out@ == v@.take(i as int),
        decreases v.len() - i,
    {
        out.push(v[i].clone());
        assert(v@.take(i + 1) =~= v@.take(i as int).push(v@[i as int]));
        i += 1;
    }
    assert(v@.take(v.len() as int) =~= v@);
    out
}

/// A copy of an optional string.
fn copy_opt_string(o: &Option<String>) -> (out: Option<String>)
    ensures
        out == *o,
{
    match o {
        Some(s) => Some(s.clone()),
        None => None,
    }
}

/// A field-for-field copy of a notification.
pub fn copy_entry(n: &NotificationEntry) -> (out: NotificationEntry)
    ensures
        same_entry(out, *n),
{
    NotificationEntry {
        id: n.id,
        app_name: n.app_name.clone(),
        app_icon: n.app_icon.clone(),
        desktop_entry: copy_opt_string(&n.desktop_entry),
        summary: n.summary.clone(),
        body: n.body.clone(),
        urgency: n.urgency,
        actions: copy_strings(&n.actions),
        image: copy_opt_string(&n.image),
        timestamp: n.timestamp,
        resident: n.resident,
        source_name: n.source_name.clone(),
    }
}

/// Whether `a` is listed no later than `b` inside a group.
fn entry_no_later(a: &NotificationEntry, b: &NotificationEntry) -> (out: bool)
    ensures
        out == entry_le(*a, *b),
{
    a.timestamp > b.timestamp || (a.timestamp == b.timestamp && a.id >= b.id)
}

/// The notifications with the given key, newest first.
fn sorted_members(notifications: &[NotificationEntry], keys: &Vec<String>, key: &str) -> (out: Vec<
    NotificationEntry,
>)
    requires
        keys.len() == notifications.len(),
        forall|i: int| 0 <= i < keys.len() ==> #[trigger] keys@[i]@ == group_key(notifications@[i]),
    ensures
        same_entries(out@, group_entries(notifications@, key@)),
{
    let ghost ns = notifications@;
    let mut sorted: Vec<NotificationEntry> = Vec::new();
    let mut i: usize = 0;
    while i < notifications.len()
        invariant
            i <= notifications.len(),
            ns == notifications@,
            keys.len() == notifications.len(),
            forall|m: int| 0 <= m < keys.len() ==> #[trigger] keys@[m]@ == group_key(ns[m]),
            same_entries(sorted@, sort_by(members(ns.take(i as int), key@), entry_order())),
        decreases notifications.len() - i,
    {
        proof {
            lemma_members_step(ns, i as int, key@);
        }
        if eq_str(keys[i].as_str(), key) {
            let x = copy_entry(&notifications[i]);
            let mut j = sorted.len();
            while j > 0 && !entry_no_later(&sorted[j - 1], &x)
                invariant
                    j <= sorted.len(),
                    forall|m: int| j <= m < sorted.len() ==> !entry_le(#[trigger] sorted@[m], x),
                decreases j,
            {
                j -= 1;
            }
            proof {
                let prefix = members(ns.take(i as int), key@);
                let spec_sorted = sort_by(prefix, entry_order());
                let y = ns[i as int];
                assert forall|m: int| j <= m < spec_sorted.len() implies !entry_order()(
                    #[trigger] spec_sorted[m],
                    y,
                ) by {
                    assert(same_entry(sorted@[m], spec_sorted[m]));
                }
                if j > 0 {
                    assert(same_entry(sorted@[j - 1], spec_sorted[j - 1]));
                }
                lemma_insert_by(spec_sorted, y, entry_order(), j as int);
                assert(prefix.push(y).drop_last() =~= prefix);
                let after = sorted@.insert(j as int, x);
                let spec_after = spec_sorted.insert(j as int, y);
                assert forall|m: int| 0 <= m < after.len() implies same_entry(
                    #[trigger] after[m],
                    spec_after[m],
                ) by {
                    if m < j {
                        assert(same_entry(sorted@[m], spec_sorted[m]));
                    } else if m > j {
                        assert(same_entry(sorted@[m - 1], spec_sorted[m - 1]));
                    }
                }
            }
            sorted.insert(j, x);
        }
        i += 1;
    }
    proof {
        assert(ns.take(notifications.len() as int) =~= ns);
    }
    sorted
}

/// The ids of a list of notifications, in order.
fn entry_ids(entries: &Vec<NotificationEntry>) -> (out: Vec<u32>)
    ensures
        out@ == entries@.map_values(|n: NotificationEntry| n.id),
{
    let mut out: Vec<u32> = Vec::new();
    let mut i: usize = 0;
    while i < entries.len()
        invariant
            i <= entries.len(),
            out@ == entries@.take(i as int).map_values(|n: NotificationEntry| n.id),
        decreases entries.len() - i,
    {
        out.push(entries[i].id);
        assert(entries@.take(i + 1).map_values(|n: NotificationEntry| n.id) =~= entries@.take(
            i as int,
        ).map_values(|n: NotificationEntry| n.id).push(entries@[i as int].id));
        i += 1;
    }
    assert(entries@.take(entries.len() as int) =~= entries@);
    out
}

/// Whether group `a` is listed no later than group `b`.
fn group_no_later(a: &NotificationGroupModel, b: &NotificationGroupModel) -> (out: bool)
    ensures
        out == (a.lead.timestamp > b.lead.timestamp || (a.lead.timestamp == b.lead.timestamp && (
        a.lead.id > b.lead.id || (a.lead.id == b.lead.id && !text_before(
            b.app_name@,
            a.app_name@,
        ))))),
{
    a.lead.timestamp > b.lead.timestamp || (a.lead.timestamp == b.lead.timestamp && (a.lead.id
        > b.lead.id || (a.lead.id == b.lead.id && !text_lt(
        b.app_name.as_str(),
        a.app_name.as_str(),
    ))))
}

/// The notifications grouped by application, each group newest first, the
/// groups ordered by their newest notification.
pub fn group_notifications(notifications: &[NotificationEntry]) -> (out: Vec<NotificationGroupModel>)
    ensures
        groups_of(out@, notifications@),
{
    let ghost ns = notifications@;
    // The key of every notification.
    let mut keys: Vec<String> = Vec::new();
    let mut i: usize = 0;
    while i < notifications.len()
        invariant
            i <= notifications.len(),
            ns == notifications@,
            keys.len() == i,
            forall|m: int| 0 <= m < i ==> #[trigger] keys@[m]@ == group_key(ns[m]),
        decreases notifications.len() - i,
    {
        keys.push(notification_group_key(&notifications[i]));
        i += 1;
    }
    // The distinct keys, in the order they first occur; each new one makes a
    // group, inserted at its place in the listing order.
    let mut seen: Vec<String> = Vec::new();
    let mut groups: Vec<NotificationGroupModel> = Vec::new();
    let mut i: usize = 0;
    while i < notifications.len()
        invariant
            i <= notifications.len(),
            ns == notifications@,
            keys.len() == notifications.len(),
            forall|m: int| 0 <= m < keys.len() ==> #[trigger] keys@[m]@ == group_key(ns[m]),
            views(seen@) == first_seen_keys(ns.take(i as int)),
            groups.len() == sort_by(first_seen_keys(ns.take(i as int)), group_order(ns)).len(),
            forall|m: int|
                0 <= m < groups.len() ==> is_group(
                    #[trigger] groups@[m],
                    ns,
                    sort_by(first_seen_keys(ns.take(i as int)), group_order(ns))[m],
                ),
        decreases notifications.len() - i,
    {
        proof {
            lemma_first_seen_step(ns, i as int);
        }
        let key = &keys[i];
        let mut known = false;
        let mut s: usize = 0;
        while s < seen.len()
            invariant
                s <= seen.len(),
                known == exists|m: int| 0 <= m < s && #[trigger] seen@[m]@ == key@,
            decreases seen.len() - s,
        {
            if eq_str(seen[s].as_str(), key.as_str()) {
                known = true;
            }
            s += 1;
        }
        proof {
            let sv = views(seen@);
            if known {
                let m = choose|m: int| 0 <= m < seen.len() && #[trigger] seen@[m]@ == key@;
                assert(sv[m] == key@);
                assert(sv.contains(key@));
            } else {
                assert forall|m: int| 0 <= m < sv.len() implies sv[m] != key@ by {
                    assert(seen@[m]@ != key@);
                }
                assert(!sv.contains(key@));
            }
        }
        if !known {
            proof {
                let fs = first_seen_keys(ns.take((i + 1) as int));
                assert(fs.contains(key@)) by {
                    assert(fs[fs.len() - 1] == key@);
                }
                assert(first_seen_keys(ns).contains(key@)) by {
                    lemma_first_seen_prefix(ns, (i + 1) as int);
                }
                lemma_seen_key_has_members(ns, key@);
                lemma_sort_by_items(members(ns, key@), entry_order());
            }
            let entries = sorted_members(notifications, &keys, key.as_str());
            let lead = copy_entry(&entries[0]);
            let group = NotificationGroupModel {
                key: key.clone(),
                app_name: lead.source_name.clone(),
                icon: owned(notification_icon_name(&lead)),
                ids: entry_ids(&entries),
                lead,
                notifications: entries,
            };
            let mut j = groups.len();
            while j > 0 && !group_no_later(&groups[j - 1], &group)
                invariant
                    j <= groups.len(),
                    forall|m: int|
                        j <= m < groups.len() ==> !(#[trigger] groups@[m].lead.timestamp
                            > group.lead.timestamp || (groups@[m].lead.timestamp
                            == group.lead.timestamp && (groups@[m].lead.id > group.lead.id || (
                        groups@[m].lead.id == group.lead.id && !text_before(
                            group.app_name@,
                            groups@[m].app_name@,
                        ))))),
                decreases j,
            {
                j -= 1;
            }
            proof {
                let before = sort_by(first_seen_keys(ns.take(i as int)), group_order(ns));
                assert forall|m: int| j <= m < before.len() implies !group_order(ns)(
                    #[trigger] before[m],
                    key@,
                ) by {
                    assert(is_group(groups@[m], ns, before[m]));
                }
                if j > 0 {
                    assert(is_group(groups@[j - 1], ns, before[j - 1]));
                }
                lemma_insert_by(before, key@, group_order(ns), j as int);
                let fs = first_seen_keys(ns.take(i as int));
                assert(fs.push(key@).drop_last() =~= fs);
            }
            seen.push(key.clone());
            groups.insert(j, group);
            proof {
                assert(views(seen@) =~= views(seen@.drop_last()).push(key@));
            }
        }
        i += 1;
    }
    proof {
        assert(ns.take(notifications.len() as int) =~= ns);
    }
    groups
}

// ---------------------------------------------------------------------------
// The history list
// ---------------------------------------------------------------------------

/// When a list entry happened: its newest notification's arrival.
pub open spec fn item_time(item: NotificationListItem) -> u64 {
    match item {
        NotificationListItem::Group(g) => g.lead.timestamp,
        NotificationListItem::Notification(n) => n.timestamp,
    }
}

/// The id of a list entry: its newest notification's.
pub open spec fn item_id(item: NotificationListItem) -> u32 {
    match item {
        NotificationListItem::Group(g) => g.lead.id,
        NotificationListItem::Notification(n) => n.id,
    }
}

/// Entry `a` is listed no later than `b`: newer first, then the higher id first.
pub open spec fn item_le(a: NotificationListItem, b: NotificationListItem) -> bool {
    item_time(a) > item_time(b) || (item_time(a) == item_time(b) && item_id(a) >= item_id(b))
}

/// The order of the history list.
pub open spec fn item_order() -> spec_fn(NotificationListItem, NotificationListItem) -> bool {
    |a: NotificationListItem, b: NotificationListItem| item_le(a, b)
}

/// What a group contributes to the list: itself when it holds at least
/// `GROUP_THRESHOLD` notifications, else its notifications one by one.
pub open spec fn group_items(g: NotificationGroupModel) -> Seq<NotificationListItem> {
    if g.notifications@.len() >= GROUP_THRESHOLD {
        seq![NotificationListItem::Group(g)]
    } else {
        g.notifications@.map_values(|n: NotificationEntry| NotificationListItem::Notification(n))
    }
}

/// The entries of the groups, group after group.
pub open spec fn flatten(gs: Seq<NotificationGroupModel>) -> Seq<NotificationListItem>
    decreases gs.len(),
{
    if gs.len() == 0 {
        Seq::empty()
    } else {
        flatten(gs.drop_last()) + group_items(gs.last())
    }
}

impl NotificationListItem {
    /// When the entry happened.
    pub fn timestamp(&self) -> (out: u64)
        ensures
            out == item_time(*self),
    {
        match self {
            NotificationListItem::Group(group) => group.lead.timestamp,
            NotificationListItem::Notification(notification) => notification.timestamp,
        }
    }

    /// The entry's id.
    pub fn id(&self) -> (out: u32)
        ensures
            out == item_id(*self),
    {
        match self {
            NotificationListItem::Group(group) => group.lead.id,
            NotificationListItem::Notification(notification) => notification.id,
        }
    }
}

/// Inserts `x` at its place in the sorted list `items`.
fn insert_item(items: &mut Vec<NotificationListItem>, x: NotificationListItem)
    ensures
        final(items)@ == insert_by(old(items)@, x, item_order()),
{
    let ts = x.timestamp();
    let id = x.id();
    let mut j = items.len();
    while j > 0 && !(items[j - 1].timestamp() > ts || (items[j - 1].timestamp() == ts
        && items[j - 1].id() >= id))
        invariant
            j <= items.len(),
            ts == item_time(x),
            id == item_id(x),
            forall|m: int| j <= m < items.len() ==> !item_le(#[trigger] items@[m], x),
        decreases j,
    {
        j -= 1;
    }
    proof {
        lemma_insert_by(items@, x, item_order(), j as int);
    }
    items.insert(j, x);
}

/// The history list: notifications grouped by application, groups of fewer
/// than `GROUP_THRESHOLD` taken apart, everything newest first.
pub fn notification_items(notifications: &[NotificationEntry]) -> (out: Vec<NotificationListItem>)
    ensures
        exists|gs: Seq<NotificationGroupModel>|
            groups_of(gs, notifications@) && out@ == sort_by(flatten(gs), item_order()),
{
    let mut groups = group_notifications(notifications);
    let ghost gs = groups@;
    let mut items: Vec<NotificationListItem> = Vec::new();
    let ghost mut produced: Seq<NotificationListItem> = Seq::empty();
    let ghost mut k: int = 0;
    while groups.len() > 0
        invariant
            0 <= k <= gs.len(),
            groups@ == gs.skip(k),
            produced == flatten(gs.take(k)),
            items@ == sort_by(produced, item_order()),
        decreases groups.len(),
    {
        let g = groups.remove(0);
        proof {
            assert(g == gs[k]);
            assert(gs.take(k + 1).drop_last() =~= gs.take(k));
            assert(gs.skip(k).subrange(1, gs.skip(k).len() as int) =~= gs.skip(k + 1));
        }
        if g.notifications.len() >= GROUP_THRESHOLD {
            let item = NotificationListItem::Group(g);
            proof {
                assert(produced.push(item).drop_last() =~= produced);
                produced = produced.push(item);
                assert(produced =~= flatten(gs.take(k + 1)));
            }
            insert_item(&mut items, item);
        } else {
            let ghost entries = g.notifications@;
            let mut rest = g.notifications;
            let ghost start = produced;
            let ghost mut m: int = 0;
            while rest.len() > 0
                invariant
                    0 <= m <= entries.len(),
                    rest@ == entries.skip(m),
                    produced == start + entries.take(m).map_values(
                        |n: NotificationEntry| NotificationListItem::Notification(n),
                    ),
                    items@ == sort_by(produced, item_order()),
                decreases rest.len(),
            {
                let n = rest.remove(0);
                let item = NotificationListItem::Notification(n);
                proof {
                    assert(n == entries[m]);
                    assert(entries.skip(m).subrange(1, entries.skip(m).len() as int) =~= entries.skip(
                        m + 1,
                    ));
                    assert(produced.push(item).drop_last() =~= produced);
                    assert(start + entries.take(m + 1).map_values(
                        |n: NotificationEntry| NotificationListItem::Notification(n),
                    ) =~= produced.push(item));
                    produced = produced.push(item);
                    m = m + 1;
                }
                insert_item(&mut items, item);
            }
            proof {
                assert(entries.take(m) =~= entries);
                assert(produced =~= flatten(gs.take(k + 1)));
            }
        }
        proof {
            k = k + 1;
        }
    }
    proof {
        assert(gs.take(k) =~= gs);
    }
    items
}

// ---------------------------------------------------------------------------
// Laws of the history list
// ---------------------------------------------------------------------------

/// The history list is newest first: every entry is no older than the ones
/// after it, and among entries of the same time the higher id comes first.
pub proof fn law_items_newest_first(gs: Seq<NotificationGroupModel>)
    ensures
        sorted_by(sort_by(flatten(gs), item_order()), item_order()),
{
    assert(total_preorder(item_order()));
    lemma_sort_by_sorted(flatten(gs), item_order());
}

/// Sorting the list loses and adds nothing: it holds the entries of the
/// groups, each as often as before.
pub proof fn law_items_keep_entries(gs: Seq<NotificationGroupModel>)
    ensures
        sort_by(flatten(gs), item_order()).to_multiset() == flatten(gs).to_multiset(),
{
    lemma_sort_by_items(flatten(gs), item_order());
}

/// Every notification falls in a group, and no two groups share a key.
pub proof fn law_groups_partition(ns: Seq<NotificationEntry>)
    ensures
        forall|i: int| 0 <= i < ns.len() ==> group_keys(ns).contains(#[trigger] group_key(ns[i])),
        forall|a: int, b: int|
            0 <= a < b < group_keys(ns).len() ==> group_keys(ns)[a] != group_keys(ns)[b],
{
    broadcast use vstd::seq_lib::group_to_multiset_ensures;

    lemma_first_seen_covers(ns);
    lemma_first_seen_distinct(ns);
    lemma_sort_by_items(first_seen_keys(ns), group_order(ns));
    let fs = first_seen_keys(ns);
    let gk = group_keys(ns);
    assert forall|i: int| 0 <= i < ns.len() implies gk.contains(#[trigger] group_key(ns[i])) by {
        assert(fs.contains(group_key(ns[i])));
        assert(fs.to_multiset().count(group_key(ns[i])) > 0);
        assert(gk.to_multiset().count(group_key(ns[i])) > 0);
    }
    assert forall|a: int, b: int| 0 <= a < b < gk.len() implies gk[a] != gk[b] by {
        if gk[a] == gk[b] {
            fs.lemma_multiset_has_no_duplicates();
            lemma_count_two(gk, a, b);
            assert(gk.contains(gk[a]));
            assert(gk.to_multiset().count(gk[a]) > 0);
            assert(fs.to_multiset().contains(gk[a]));
        }
    }
}

/// Every key of the notifications is among the first-seen keys.
proof fn lemma_first_seen_covers(ns: Seq<NotificationEntry>)
    ensures
        forall|i: int| 0 <= i < ns.len() ==> first_seen_keys(ns).contains(#[trigger] group_key(ns[i])),
    decreases ns.len(),
{
    if ns.len() > 0 {
        lemma_first_seen_covers(ns.drop_last());
        let rest = first_seen_keys(ns.drop_last());
        let all = first_seen_keys(ns);
        assert forall|i: int| 0 <= i < ns.len() implies all.contains(#[trigger] group_key(ns[i])) by {
            if i < ns.len() - 1 {
                assert(ns.drop_last()[i] == ns[i]);
                assert(rest.contains(group_key(ns[i])));
                let m = choose|m: int| 0 <= m < rest.len() && rest[m] == group_key(ns[i]);
                assert(all[m] == group_key(ns[i]));
            } else if !rest.contains(group_key(ns.last())) {
                assert(all[all.len() - 1] == group_key(ns.last()));
            }
        }
    }
}

/// The first-seen keys hold no key twice.
proof fn lemma_first_seen_distinct(ns: Seq<NotificationEntry>)
    ensures
        first_seen_keys(ns).no_duplicates(),
    decreases ns.len(),
{
    if ns.len() > 0 {
        lemma_first_seen_distinct(ns.drop_last());
    }
}

/// Two positions holding the same item make its count at least two.
proof fn lemma_count_two(s: Seq<Seq<char>>, a: int, b: int)
    requires
        0 <= a < b < s.len(),
        s[a] == s[b],
    ensures
        s.to_multiset().count(s[a]) >= 2,
    decreases s.len(),
{
    broadcast use vstd::seq_lib::group_to_multiset_ensures;

    let x = s[a];
    assert(s =~= s.drop_last().push(s.last()));
    if b == s.len() - 1 {
        assert(s.drop_last()[a] == x);
        assert(s.drop_last().contains(x));
        assert(s.drop_last().to_multiset().count(x) >= 1);
    } else {
        lemma_count_two(s.drop_last(), a, b);
    }
}

// ---------------------------------------------------------------------------
// Finding a notification's window
// ---------------------------------------------------------------------------

/// An application id as it is compared: trimmed, without a ".desktop" suffix,
/// ASCII capitals made small; nothing when blank.
pub open spec fn app_key(value: Seq<char>) -> Option<Seq<char>> {
    if trim(value).len() == 0 {
        None
    } else {
        Some(ascii_lower(without_suffix(trim(value), ".desktop"@)))
    }
}

/// The keys a notification can match a window by: its desktop entry's, then
/// its application name's.
pub open spec fn notification_key_list(n: NotificationEntry) -> Seq<Seq<char>> {
    let from_entry = match n.desktop_entry {
        Some(d) => match app_key(d@) {
            Some(k) => seq![k],
            None => Seq::empty(),
        },
        None => Seq::empty(),
    };
    let from_name = match app_key(n.app_name@) {
        Some(k) => seq![k],
        None => Seq::empty(),
    };
    from_entry + from_name
}

/// Whether a window's application id matches one of the keys.
pub open spec fn window_matches_keys(w: Window, keys: Seq<Seq<char>>) -> bool {
    w.app_id is Some && app_key(w.app_id->0@) is Some && keys.contains(app_key(w.app_id->0@)->0)
}

/// The first window that matches the keys.
pub open spec fn first_matching(ws: Seq<Window>, keys: Seq<Seq<char>>) -> Option<usize>
    decreases ws.len(),
{
    if ws.len() == 0 {
        None
    } else if window_matches_keys(ws[0], keys) {
        Some(ws[0].id)
    } else {
        first_matching(ws.drop_first(), keys)
    }
}

/// An application id as it is compared.
pub fn normalize_app_key(value: &str) -> (out: Option<String>)
    ensures
        match out {
            Some(s) => app_key(value@) == Some(s@),
            None => app_key(value@) is None,
        },
{
    let t = trim_chars(&chars_of(value));
    if t.len() == 0 {
        return None;
    }
    let stripped = without_suffix_chars(&t, &chars_of(".desktop"));
    Some(string_of(&ascii_lowercase_chars(&stripped)))
}

/// The keys a notification can match a window by.
pub fn notification_keys(notification: &NotificationEntry) -> (out: Vec<String>)
    ensures
        views(out@) == notification_key_list(*notification),
{
    let mut out: Vec<String> = Vec::new();
    if let Some(entry) = &notification.desktop_entry {
        if let Some(k) = normalize_app_key(entry.as_str()) {
            out.push(k);
        }
    }
    let ghost first = views(out@);
    if let Some(k) = normalize_app_key(notification.app_name.as_str()) {
        out.push(k);
    }
    proof {
        assert(views(out@) =~= notification_key_list(*notification));
    }
    out
}

/// Whether a window's application id matches one of the keys.
pub fn window_matches(window: &Window, keys: &[String]) -> (out: bool)
    ensures
        out == window_matches_keys(*window, views(keys@)),
{
    let app_id = match &window.app_id {
        Some(a) => match normalize_app_key(a.as_str()) {
            Some(k) => k,
            None => return false,
        },
        None => return false,
    };
    let mut i: usize = 0;
    while i < keys.len()
        invariant
            i <= keys.len(),
            window.app_id is Some,
            app_key(window.app_id->0@) == Some(app_id@),
            forall|m: int| 0 <= m < i ==> keys@[m]@ != app_id@,
        decreases keys.len() - i,
    {
        if eq_str(keys[i].as_str(), app_id.as_str()) {
            proof {
                assert(views(keys@)[i as int] == app_id@);
                assert(views(keys@).contains(app_id@));
            }
            return true;
        }
        i += 1;
    }
    proof {
        assert forall|m: int| 0 <= m < views(keys@).len() implies views(keys@)[m] != app_id@ by {
            assert(keys@[m]@ != app_id@);
        }
    }
    false
}

/// The window of the application that sent a notification: the first window
/// whose application id matches one of its keys.
pub fn matching_window(state: &CompositorState, notification: &NotificationEntry) -> (out: Option<usize>)
    ensures
        out == (if notification_key_list(*notification).len() == 0 {
            None
        } else {
            first_matching(state.windows@, notification_key_list(*notification))
        }),
{
    let keys = notification_keys(notification);
    if keys.len() == 0 {
        return None;
    }
    let windows = &state.windows;
    let ghost kv = views(keys@);
    let mut i: usize = 0;
    assert(windows@.skip(0) =~= windows@);
    while i < windows.len()
        invariant
            i <= windows.len(),
            windows@ == state.windows@,
            kv == views(keys@),
            kv == notification_key_list(*notification),
            first_matching(windows@, kv) == first_matching(windows@.skip(i as int), kv),
            keys.len() > 0,
        decreases windows.len() - i,
    {
        assert(windows@.skip(i as int)[0] == windows@[i as int]);
        let ks = keys.as_slice();
        let hit = window_matches(&windows[i], ks);
        if hit {
            assert(first_matching(windows@.skip(i as int), kv) == Some(windows@[i as int].id));
            return Some(windows[i].id);
        }
        assert(windows@.skip(i as int).drop_first() =~= windows@.skip(i + 1));
        i += 1;
    }
    None
}

// ---------------------------------------------------------------------------
// Activation
// ---------------------------------------------------------------------------

/// The desktop ids to try for a desktop entry: the trimmed entry, and the
/// entry with ".desktop" appended when it lacks it; none for a blank entry.
pub open spec fn desktop_candidates(entry: Seq<char>) -> Seq<Seq<char>> {
    let t = trim(entry);
    if t.len() == 0 {
        Seq::empty()
    } else if ends_with(t, ".desktop"@) {
        seq![t]
    } else {
        seq![t, t + ".desktop"@]
    }
}

/// The desktop ids to try for a desktop entry.
pub fn desktop_entry_candidates(desktop_entry: &str) -> (out: Vec<String>)
    ensures
        views(out@) == desktop_candidates(desktop_entry@),
{
    let t = trim_chars(&chars_of(desktop_entry));
    let mut out: Vec<String> = Vec::new();
    if t.len() == 0 {
        proof {
            assert(views(out@) =~= desktop_candidates(desktop_entry@));
        }
        return out;
    }
    let suffix = chars_of(".desktop");
    out.push(string_of(&t));
    if !ends_with_chars(&t, &suffix) {
        out.push(string_of(&concat_chars(&t, &suffix)));
    }
    proof {
        assert(views(out@) =~= desktop_candidates(desktop_entry@));
    }
    out
}

// ---------------------------------------------------------------------------
// Popups
// ---------------------------------------------------------------------------

/// Where on the screen the popups appear.
#[derive(Debug, Clone, Copy, PartialEq, Eq, Structural)]
pub enum PopupPosition {
    TopLeft,
    TopCenter,
    TopRight,
    BottomLeft,
    BottomCenter,
    BottomRight,
}

impl Default for PopupPosition {
    fn default() -> (p: Self)
        ensures
            p == PopupPosition::TopCenter,
    {
        PopupPosition::TopCenter
    }
}

/// How many popups show at once: at least one, at most `MAX_TRACKED_POPUPS`.
pub fn normalize_visible_limit(limit: usize) -> (out: usize)
    ensures
        out == (if limit < 1 {
            1
        } else if limit > MAX_TRACKED_POPUPS {
            MAX_TRACKED_POPUPS
        } else {
            limit
        }),
{
    if limit < 1 {
        1
    } else if limit > MAX_TRACKED_POPUPS {
        MAX_TRACKED_POPUPS
    } else {
        limit
    }
}

/// The slots left for new popups while `leaving_visible` are still leaving.
pub fn active_visible_slots(visible_limit: usize, leaving_visible: usize) -> (out: usize)
    ensures
        out == (if leaving_visible >= visible_limit {
            0
        } else {
            (visible_limit - leaving_visible) as usize
        }),
{
    visible_limit.saturating_sub(leaving_visible)
}

/// The style class for the edge popups come in from.
pub fn popup_origin_class(position: PopupPosition) -> (out: &'static str)
    ensures
        out@ == (match position {
            PopupPosition::TopLeft | PopupPosition::TopCenter | PopupPosition::TopRight => "popup-from-top"@,
            _ => "popup-from-bottom"@,
        }),
{
    match position {
        PopupPosition::TopLeft | PopupPosition::TopCenter | PopupPosition::TopRight => "popup-from-top",
        PopupPosition::BottomLeft | PopupPosition::BottomCenter | PopupPosition::BottomRight => {
            "popup-from-bottom"
        },
    }
}

/// The keys seen in a prefix are among the keys of the whole list.
proof fn lemma_first_seen_prefix(ns: Seq<NotificationEntry>, n: int)
    requires
        0 <= n <= ns.len(),
    ensures
        forall|k: Seq<char>| first_seen_keys(ns.take(n)).contains(k) ==> first_seen_keys(ns).contains(k),
    decreases ns.len() - n,
{
    if n < ns.len() {
        lemma_first_seen_step(ns, n);
        lemma_first_seen_prefix(ns, n + 1);
        let a = first_seen_keys(ns.take(n));
        let b = first_seen_keys(ns.take(n + 1));
        assert forall|k: Seq<char>| a.contains(k) implies b.contains(k) by {
            let m = choose|m: int| 0 <= m < a.len() && a[m] == k;
            assert(b[m] == k);
        }
    } else {
        assert(ns.take(n) =~= ns);
    }
}

// ---------------------------------------------------------------------------
// Settings and badge
// ---------------------------------------------------------------------------

/// The notifications applet's settings, but for its label and tooltip
/// formats (held with the formatting code).
#[derive(Debug, Clone)]
pub struct Config {
    /// "count" shows the number of notifications, "none" no badge, any other
    /// value a dot.
    pub badge_style: String,
    /// How long a popup stays, in milliseconds; zero keeps it until dismissed.
    pub popup_timeout_ms: u32,
    pub popup_visible_limit: usize,
    pub popup_position: PopupPosition,
    pub popup_margin_x: i32,
    pub popup_margin_y: i32,
}

impl Default for Config {
    fn default() -> (out: Self)
        ensures
            out.badge_style@ == "count"@,
            out.popup_timeout_ms == 5000,
            out.popup_visible_limit == 8,
            out.popup_position == PopupPosition::TopCenter,
            out.popup_margin_x == 12,
            out.popup_margin_y == 32,
    {
        Config {
            badge_style: owned("count"),
            popup_timeout_ms: 5000,
            popup_visible_limit: 8,
            popup_position: PopupPosition::TopCenter,
            popup_margin_x: 12,
            popup_margin_y: 32,
        }
    }
}

/// The applet's badge.
#[derive(Debug, Clone)]
pub struct Badge {
    pub visible: bool,
    pub label: String,
    /// Whether the badge shows its label (the "count" style) or is a dot.
    pub uses_label: bool,
    pub classes: Vec<&'static str>,
}

/// The badge's text: the count, or "9+" above nine.
pub open spec fn badge_text(count: nat) -> Seq<char> {
    if count > 9 {
        "9+"@
    } else {
        decimal(count)
    }
}

/// The badge for `count` notifications: shown when there are some, do not
/// disturb is off and the style is not "none"; labelled in the "count"
/// style, a dot otherwise.
pub fn badge(badge_style: &str, count: usize, dnd: bool) -> (out: Badge)
    ensures
        out.visible == (count > 0 && !dnd && badge_style@ != "none"@),
        out.label@ == badge_text(count as nat),
        out.uses_label == (badge_style@ == "count"@),
        out.classes@.len() == 3,
        out.classes@[0]@ == "notification-badge-anchor"@,
        out.classes@[1]@ == (if badge_style@ == "count"@ {
            "badge"@
        } else {
            "status-dot"@
        }),
        out.classes@[2]@ == "is-accent"@,
{
    let uses_label = eq_str(badge_style, "count");
    let label = if count > 9 {
        owned("9+")
    } else {
        string_of(&decimal_chars(count as u64))
    };
    let mut classes: Vec<&'static str> = Vec::new();
    classes.push("notification-badge-anchor");
    classes.push(if uses_label { "badge" } else { "status-dot" });
    classes.push("is-accent");
    Badge { visible: count > 0 && !dnd && !eq_str(badge_style, "none"), label, uses_label, classes }
}

/// The icon of a popup card: the application's icon, or a generic one
/// when it gave none.
pub fn popup_icon_name(notification: &NotificationEntry) -> (out: &str)
    ensures
        out@ == (if notification.app_icon@.len() == 0 {
            "dialog-information-symbolic"@
        } else {
            notification.app_icon@
        }),
{
    if notification.app_icon.as_str().is_empty() {
        "dialog-information-symbolic"
    } else {
        notification.app_icon.as_str()
    }
}

// ---------------------------------------------------------------------------
// Group expansion
// ---------------------------------------------------------------------------

/// How a group of notifications looks: expanded into a list, or collapsed
/// into a stack whose backplates hint at the second and further members.
#[derive(Debug, Clone, Copy, PartialEq, Eq)]
pub struct GroupLook {
    pub expanded: bool,
    pub stack_visible: bool,
    pub list_visible: bool,
    pub second_backplate_visible: bool,
    pub lower_backplate_visible: bool,
    /// The member count badge and the expand button show for two or more.
    pub count_visible: bool,
    pub toggle_visible: bool,
    pub toggle_icon: &'static str,
    pub group_class: &'static str,
}

/// `out` is the look of a group of `count` members whose expanded flag is
/// `expanded`.
pub open spec fn is_group_look(out: GroupLook, expanded: bool, count: usize) -> bool {
    &&& out.expanded == (expanded && count > 1)
    &&& out.stack_visible == !out.expanded
    &&& out.list_visible == out.expanded
    &&& out.second_backplate_visible == (!out.expanded && count > 1)
    &&& out.lower_backplate_visible == (!out.expanded && count > 2)
    &&& out.count_visible == (count > 1)
    &&& out.toggle_visible == (count > 1)
    &&& out.toggle_icon@ == (if out.expanded {
        "pan-up-symbolic"@
    } else {
        "pan-down-symbolic"@
    })
    &&& out.group_class@ == (if out.expanded {
        "notif-group-expanded"@
    } else {
        "notif-group-collapsed"@
    })
}

/// The look of a group of `count` members when its expanded flag is
/// `expanded`: a group of one never shows expanded.
pub fn group_look(expanded: bool, count: usize) -> (out: GroupLook)
    ensures
        is_group_look(out, expanded, count),
{
    let shown = expanded && count > 1;
    GroupLook {
        expanded: shown,
        stack_visible: !shown,
        list_visible: shown,
        second_backplate_visible: !shown && count > 1,
        lower_backplate_visible: !shown && count > 2,
        count_visible: count > 1,
        toggle_visible: count > 1,
        toggle_icon: if shown {
            "pan-up-symbolic"
        } else {
            "pan-down-symbolic"
        },
        group_class: if shown {
            "notif-group-expanded"
        } else {
            "notif-group-collapsed"
        },
    }
}

/// Whether a notification group is expanded.
#[derive(Debug, Clone, Copy, PartialEq, Eq)]
pub struct GroupExpansion {
    pub expanded: bool,
}

impl GroupExpansion {
    /// A new group starts collapsed.
    pub fn new() -> (out: Self)
        ensures
            !out.expanded,
    {
        GroupExpansion { expanded: false }
    }

    /// The group now has `count` members; a group of one collapses.
    pub fn update(&mut self, count: usize) -> (out: GroupLook)
        ensures
            final(self).expanded == (old(self).expanded && count > 1),
            is_group_look(out, final(self).expanded, count),
    {
        if count <= 1 {
            self.expanded = false;
        }
        group_look(self.expanded, count)
    }

    /// The expand button was pressed while the group has `count` members.
    pub fn toggle(&mut self, count: usize) -> (out: GroupLook)
        ensures
            final(self).expanded == !old(self).expanded,
            is_group_look(out, final(self).expanded, count),
    {
        self.expanded = !self.expanded;
        group_look(self.expanded, count)
    }
}

/// A click on the collapsed stack toggles the group only when it holds
/// more than one notification.
pub fn stack_click_toggles(count: usize) -> (out: bool)
    ensures
        out == (count > 1),
{
    count > 1
}

} // verus!
