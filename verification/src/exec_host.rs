//! The panel side of an exec applet: which status widgets are kept when the
//! child sends new items, and what the applet does on each input.
use vstd::prelude::*;

use crate::exec_applet::{status_item_key, status_key_text, Config};
use crate::exec_protocol::{EventKind, Icon, MouseButton, StatusItem};
use crate::text::{eq_str, views};

verus! {

// ---------------------------------------------------------------------------
// Status items as values
// ---------------------------------------------------------------------------

/// The text of an optional string.
pub open spec fn opt_text(o: Option<String>) -> Option<Seq<char>> {
    match o {
        Some(s) => Some(s@),
        None => None,
    }
}

/// An icon as (is it a theme name, its text).
pub open spec fn icon_text(icon: Option<Icon>) -> Option<(bool, Seq<char>)> {
    match icon {
        Some(Icon::Name { name }) => Some((true, name@)),
        Some(Icon::Path { path }) => Some((false, path@)),
        None => None,
    }
}

/// What a status item shows: id, icon, label and tooltip.
pub open spec fn item_view(item: StatusItem) -> (
    Option<Seq<char>>,
    Option<(bool, Seq<char>)>,
    Option<Seq<char>>,
    Option<Seq<char>>,
) {
    (opt_text(item.id), icon_text(item.icon), opt_text(item.label), opt_text(item.tooltip))
}

/// What a list of status items shows.
pub open spec fn items_view(items: Seq<StatusItem>) -> Seq<
    (Option<Seq<char>>, Option<(bool, Seq<char>)>, Option<Seq<char>>, Option<Seq<char>>),
> {
    items.map_values(|item: StatusItem| item_view(item))
}

fn same_opt_text(a: &Option<String>, b: &Option<String>) -> (out: bool)
    ensures
        out == (opt_text(*a) == opt_text(*b)),
{
    match (a, b) {
        (Some(x), Some(y)) => eq_str(x.as_str(), y.as_str()),
        (None, None) => true,
        _ => false,
    }
}

fn same_icon(a: &Option<Icon>, b: &Option<Icon>) -> (out: bool)
    ensures
        out == (icon_text(*a) == icon_text(*b)),
{
    match (a, b) {
        (Some(Icon::Name { name: x }), Some(Icon::Name { name: y })) => eq_str(x.as_str(), y.as_str()),
        (Some(Icon::Path { path: x }), Some(Icon::Path { path: y })) => eq_str(x.as_str(), y.as_str()),
        (None, None) => true,
        _ => false,
    }
}

/// Whether two status items show the same thing.
pub fn same_status_item(a: &StatusItem, b: &StatusItem) -> (out: bool)
    ensures
        out == (item_view(*a) == item_view(*b)),
{
    same_opt_text(&a.id, &b.id) && same_icon(&a.icon, &b.icon) && same_opt_text(&a.label, &b.label)
        && same_opt_text(&a.tooltip, &b.tooltip)
}

/// Whether two lists of status items show the same thing.
pub fn same_status_items(a: &Vec<StatusItem>, b: &Vec<StatusItem>) -> (out: bool)
    ensures
        out == (items_view(a@) == items_view(b@)),
{
    if a.len() != b.len() {
        assert(items_view(a@).len() != items_view(b@).len());
        return false;
    }
    let mut i: usize = 0;
    while i < a.len()
        invariant
            i <= a.len(),
            a.len() == b.len(),
            forall|j: int| 0 <= j < i ==> item_view(a@[j]) == item_view(b@[j]),
        decreases a.len() - i,
    {
        if !same_status_item(&a[i], &b[i]) {
            assert(items_view(a@)[i as int] != items_view(b@)[i as int]);
            return false;
        }
        i += 1;
    }
    assert(items_view(a@) =~= items_view(b@));
    true
}

fn copy_opt_string(o: &Option<String>) -> (out: Option<String>)
    ensures
        out == *o,
{
    match o {
        Some(s) => Some(s.clone()),
        None => None,
    }
}

fn copy_icon(icon: &Option<Icon>) -> (out: Option<Icon>)
    ensures
        out == *icon,
{
    match icon {
        Some(Icon::Name { name }) => Some(Icon::Name { name: name.clone() }),
        Some(Icon::Path { path }) => Some(Icon::Path { path: path.clone() }),
        None => None,
    }
}

/// A field-for-field copy of a status item.
pub fn copy_status_item(item: &StatusItem) -> (out: StatusItem)
    ensures
        out == *item,
{
    StatusItem {
        id: copy_opt_string(&item.id),
        icon: copy_icon(&item.icon),
        label: copy_opt_string(&item.label),
        tooltip: copy_opt_string(&item.tooltip),
    }
}

/// A field-for-field copy of a list of status items.
pub fn copy_status_items(items: &Vec<StatusItem>) -> (out: Vec<StatusItem>)
    ensures
        out@ == items@,
{
    let mut out: Vec<StatusItem> = Vec::new();
    let mut i: usize = 0;
    while i < items.len()
        invariant
            i <= items.len(),
            out@ == items@.take(i as int),
        decreases items.len() - i,
    {
        out.push(copy_status_item(&items[i]));
        assert(items@.take(i + 1) =~= items@.take(i as int).push(items@[i as int]));
        i += 1;
    }
    assert(items@.take(items.len() as int) =~= items@);
    out
}

// ---------------------------------------------------------------------------
// Keeping status widgets across a rebuild
// ---------------------------------------------------------------------------

/// Where the widget for one new status item comes from.
#[derive(Debug, Clone, Copy, PartialEq, Eq, Structural)]
pub enum StatusSlot {
    /// The widget shown at this position before the rebuild, reconfigured.
    Reuse { widget: usize },
    /// A new widget.
    Create,
}

/// How the status widgets are rebuilt: one slot per new item, in order, the
/// key of each new widget, and the old widgets that are detached.
#[derive(Debug)]
pub struct StatusPlan {
    pub slots: Vec<StatusSlot>,
    pub keys: Vec<String>,
    pub detached: Vec<usize>,
}

/// The keys of a list of status items, position by position.
pub open spec fn status_keys(items: Seq<StatusItem>) -> Seq<Seq<char>> {
    Seq::new(items.len(), |i: int| status_key_text(i as nat, items[i]))
}

/// The widgets shown before a rebuild, as (key, position) pairs.
pub open spec fn initial_pool(keys: Seq<Seq<char>>) -> Seq<(Seq<char>, usize)> {
    Seq::new(keys.len(), |i: int| (keys[i], i as usize))
}

/// The first entry at or after `from` whose key is `key`.
pub open spec fn first_with_key(pool: Seq<(Seq<char>, usize)>, key: Seq<char>, from: int) -> Option<
    int,
>
    decreases pool.len() - from,
{
    if from < 0 || from >= pool.len() {
        None
    } else if pool[from].0 == key {
        Some(from)
    } else {
        first_with_key(pool, key, from + 1)
    }
}

/// Takes the first unused widget with the item's key, if there is one.
pub open spec fn take_widget(pool: Seq<(Seq<char>, usize)>, key: Seq<char>) -> (
    StatusSlot,
    Seq<(Seq<char>, usize)>,
) {
    match first_with_key(pool, key, 0) {
        Some(p) => (StatusSlot::Reuse { widget: pool[p].1 }, pool.remove(p)),
        None => (StatusSlot::Create, pool),
    }
}

/// The slots for items with `keys`, taken in order from `pool`, and the
/// widgets left unused.
pub open spec fn plan_of(pool: Seq<(Seq<char>, usize)>, keys: Seq<Seq<char>>) -> (
    Seq<StatusSlot>,
    Seq<(Seq<char>, usize)>,
)
    decreases keys.len(),
{
    if keys.len() == 0 {
        (Seq::empty(), pool)
    } else {
        let (slots, rest) = plan_of(pool, keys.drop_last());
        let (slot, left) = take_widget(rest, keys.last());
        (slots.push(slot), left)
    }
}

/// The (key, widget) pairs of the kept widgets, in the order of the items.
pub open spec fn kept_pairs(slots: Seq<StatusSlot>, keys: Seq<Seq<char>>) -> Seq<(Seq<char>, usize)>
    decreases slots.len(),
{
    if slots.len() == 0 {
        Seq::empty()
    } else {
        let earlier = kept_pairs(slots.drop_last(), keys.drop_last());
        match slots.last() {
            StatusSlot::Reuse { widget } => earlier.push((keys.last(), widget)),
            StatusSlot::Create => earlier,
        }
    }
}

spec fn pool_view(pool: Seq<(String, usize)>) -> Seq<(Seq<char>, usize)> {
    pool.map_values(|p: (String, usize)| (p.0@, p.1))
}

proof fn lemma_first_with_key(pool: Seq<(Seq<char>, usize)>, key: Seq<char>, from: int)
    requires
        0 <= from,
    ensures
        match first_with_key(pool, key, from) {
            Some(p) => from <= p < pool.len() && pool[p].0 == key && forall|j: int|
                from <= j < p ==> pool[j].0 != key,
            None => forall|j: int| from <= j < pool.len() ==> pool[j].0 != key,
        },
    decreases pool.len() - from,
{
    if from < pool.len() && pool[from].0 != key {
        lemma_first_with_key(pool, key, from + 1);
    }
}

proof fn lemma_plan_partition(pool: Seq<(Seq<char>, usize)>, keys: Seq<Seq<char>>)
    ensures
        plan_of(pool, keys).0.len() == keys.len(),
        pool.to_multiset() == kept_pairs(plan_of(pool, keys).0, keys).to_multiset().add(
            plan_of(pool, keys).1.to_multiset(),
        ),
    decreases keys.len(),
{
    broadcast use vstd::multiset::group_multiset_axioms, vstd::seq_lib::group_to_multiset_ensures;

    if keys.len() == 0 {
        assert(kept_pairs(Seq::<StatusSlot>::empty(), keys) =~= Seq::empty());
        assert(pool.to_multiset() =~= Seq::<(Seq<char>, usize)>::empty().to_multiset().add(
            pool.to_multiset(),
        ));
    } else {
        let ks = keys.drop_last();
        lemma_plan_partition(pool, ks);
        let (slots0, rest0) = plan_of(pool, ks);
        let key = keys.last();
        let slots = plan_of(pool, keys).0;
        assert(slots.drop_last() =~= slots0);
        let kept0 = kept_pairs(slots0, ks);
        lemma_first_with_key(rest0, key, 0);
        match first_with_key(rest0, key, 0) {
            Some(p) => {
                let x = rest0[p];
                assert(x == (key, x.1));
                assert(kept_pairs(slots, keys) == kept0.push(x));
                assert(rest0.to_multiset().count(x) > 0);
                assert(rest0.to_multiset() =~= rest0.remove(p).to_multiset().insert(x));
                assert(kept0.push(x).to_multiset().add(rest0.remove(p).to_multiset())
                    =~= kept0.to_multiset().add(rest0.to_multiset()));
            },
            None => {
                assert(kept_pairs(slots, keys) == kept0);
            },
        }
    }
}

/// Rebuilding the status widgets loses and duplicates none: each (key,
/// widget) pair shown before is, exactly once, either kept for a new item
/// with that key or left over to be detached.
pub proof fn law_rebuild_keeps_or_detaches(rendered_keys: Seq<Seq<char>>, items: Seq<StatusItem>)
    ensures
        plan_of(initial_pool(rendered_keys), status_keys(items)).0.len() == items.len(),
        initial_pool(rendered_keys).to_multiset() == kept_pairs(
            plan_of(initial_pool(rendered_keys), status_keys(items)).0,
            status_keys(items),
        ).to_multiset().add(plan_of(initial_pool(rendered_keys), status_keys(items)).1.to_multiset()),
{
    lemma_plan_partition(initial_pool(rendered_keys), status_keys(items));
}

/// A new widget is made only when no unused old widget had the item's key.
pub proof fn law_create_only_without_match(pool: Seq<(Seq<char>, usize)>, key: Seq<char>)
    ensures
        take_widget(pool, key).0 is Create ==> forall|j: int| 0 <= j < pool.len() ==> pool[j].0 != key,
        take_widget(pool, key).0 matches StatusSlot::Reuse { widget } ==> exists|j: int|
            0 <= j < pool.len() && #[trigger] pool[j] == (key, widget),
{
    lemma_first_with_key(pool, key, 0);
    if let Some(p) = first_with_key(pool, key, 0) {
        assert(pool[p] == (key, pool[p].1));
    }
}

/// The first position in `pool` whose key is `key`.
fn find_key(pool: &Vec<(String, usize)>, key: &String) -> (out: Option<usize>)
    ensures
        match out {
            Some(p) => first_with_key(pool_view(pool@), key@, 0) == Some(p as int),
            None => first_with_key(pool_view(pool@), key@, 0) is None,
        },
{
    let ghost pv = pool_view(pool@);
    let mut j: usize = 0;
    while j < pool.len()
        invariant
            j <= pool.len(),
            pv == pool_view(pool@),
            first_with_key(pv, key@, 0) == first_with_key(pv, key@, j as int),
        decreases pool.len() - j,
    {
        if eq_str(pool[j].0.as_str(), key.as_str()) {
            return Some(j);
        }
        j += 1;
    }
    None
}

/// Which status widgets a rebuild keeps: for each new item in order, the
/// first not-yet-taken old widget with the item's key is reused, otherwise a
/// new one is made; old widgets that no item took are detached.
pub fn plan_status_widgets(rendered_keys: &Vec<String>, items: &Vec<StatusItem>) -> (out: StatusPlan)
    ensures
        views(out.keys@) == status_keys(items@),
        out.slots@ == plan_of(initial_pool(views(rendered_keys@)), status_keys(items@)).0,
        out.detached@ == plan_of(initial_pool(views(rendered_keys@)), status_keys(items@)).1.map_values(
            |p: (Seq<char>, usize)| p.1,
        ),
{
    let ghost pool0 = initial_pool(views(rendered_keys@));
    let ghost keys = status_keys(items@);
    let mut pool: Vec<(String, usize)> = Vec::new();
    let mut k: usize = 0;
    while k < rendered_keys.len()
        invariant
            k <= rendered_keys.len(),
            pool0 == initial_pool(views(rendered_keys@)),
            pool_view(pool@) =~= pool0.take(k as int),
        decreases rendered_keys.len() - k,
    {
        let name = rendered_keys[k].clone();
        assert(views(rendered_keys@)[k as int] == rendered_keys@[k as int]@);
        let ghost before = pool@;
        assert(pool_view(before).len() == k);
        pool.push((name, k));
        assert(pool_view(pool@) =~= pool0.take(k + 1));
        k += 1;
    }
    assert(pool0.take(rendered_keys.len() as int) =~= pool0);
    let mut slots: Vec<StatusSlot> = Vec::new();
    let mut new_keys: Vec<String> = Vec::new();
    let mut i: usize = 0;
    while i < items.len()
        invariant
            i <= items.len(),
            keys == status_keys(items@),
            (slots@, pool_view(pool@)) == plan_of(pool0, keys.take(i as int)),
            views(new_keys@) =~= keys.take(i as int),
        decreases items.len() - i,
    {
        let key = status_item_key(i, &items[i]);
        assert(keys.take(i + 1).drop_last() =~= keys.take(i as int));
        assert(keys.take(i + 1).last() == key@);
        let found = find_key(&pool, &key);
        let ghost before = pool_view(pool@);
        match found {
            Some(p) => {
                proof {
                    lemma_first_with_key(before, key@, 0);
                }
                let taken = pool.remove(p);
                assert(pool_view(pool@) =~= before.remove(p as int));
                slots.push(StatusSlot::Reuse { widget: taken.1 });
            },
            None => {
                slots.push(StatusSlot::Create);
            },
        }
        new_keys.push(key);
        assert(views(new_keys@) =~= keys.take(i + 1));
        i += 1;
    }
    assert(keys.take(items.len() as int) =~= keys);
    let ghost rest = pool_view(pool@);
    let mut detached: Vec<usize> = Vec::new();
    let mut j: usize = 0;
    while j < pool.len()
        invariant
            j <= pool.len(),
            rest == pool_view(pool@),
            detached@ =~= rest.take(j as int).map_values(|p: (Seq<char>, usize)| p.1),
        decreases pool.len() - j,
    {
        detached.push(pool[j].1);
        assert(rest.take(j + 1) =~= rest.take(j as int).push(rest[j as int]));
        j += 1;
    }
    assert(rest.take(pool.len() as int) =~= rest);
    StatusPlan { slots, keys: new_keys, detached }
}


// ---------------------------------------------------------------------------
// The applet
// ---------------------------------------------------------------------------

/// A configuration as values: command, restart delay, `env_clear`, env.
pub open spec fn config_view(c: Config) -> (
    Seq<Seq<char>>,
    u64,
    bool,
    Seq<(Seq<char>, Seq<char>)>,
) {
    (
        views(c.command@),
        c.restart_delay_ms,
        c.env_clear,
        c.env@.map_values(|e: (String, String)| (e.0@, e.1@)),
    )
}

fn same_strings(a: &Vec<String>, b: &Vec<String>) -> (out: bool)
    ensures
        out == (views(a@) == views(b@)),
{
    if a.len() != b.len() {
        assert(views(a@).len() != views(b@).len());
        return false;
    }
    let mut i: usize = 0;
    while i < a.len()
        invariant
            i <= a.len(),
            a.len() == b.len(),
            forall|j: int| 0 <= j < i ==> a@[j]@ == b@[j]@,
        decreases a.len() - i,
    {
        if !eq_str(a[i].as_str(), b[i].as_str()) {
            assert(views(a@)[i as int] != views(b@)[i as int]);
            return false;
        }
        i += 1;
    }
    assert(views(a@) =~= views(b@));
    true
}

fn same_env(a: &Vec<(String, String)>, b: &Vec<(String, String)>) -> (out: bool)
    ensures
        out == (a@.map_values(|e: (String, String)| (e.0@, e.1@)) == b@.map_values(
            |e: (String, String)| (e.0@, e.1@),
        )),
{
    let ghost va = a@.map_values(|e: (String, String)| (e.0@, e.1@));
    let ghost vb = b@.map_values(|e: (String, String)| (e.0@, e.1@));
    if a.len() != b.len() {
        assert(va.len() != vb.len());
        return false;
    }
    let mut i: usize = 0;
    while i < a.len()
        invariant
            i <= a.len(),
            a.len() == b.len(),
            va == a@.map_values(|e: (String, String)| (e.0@, e.1@)),
            vb == b@.map_values(|e: (String, String)| (e.0@, e.1@)),
            forall|j: int| 0 <= j < i ==> va[j] == vb[j],
        decreases a.len() - i,
    {
        if !eq_str(a[i].0.as_str(), b[i].0.as_str()) || !eq_str(a[i].1.as_str(), b[i].1.as_str()) {
            assert(va[i as int] != vb[i as int]);
            return false;
        }
        i += 1;
    }
    assert(va =~= vb);
    true
}

/// Whether two configurations are the same.
pub fn same_config(a: &Config, b: &Config) -> (out: bool)
    ensures
        out == (config_view(*a) == config_view(*b)),
{
    same_strings(&a.command, &b.command) && a.restart_delay_ms == b.restart_delay_ms && a.env_clear
        == b.env_clear && same_env(&a.env, &b.env)
}

fn copy_strings(v: &Vec<String>) -> (out: Vec<String>)
    ensures
        out@ == v@,
{
    let mut out: Vec<String> = Vec::new();
    let mut i: usize = 0;
    while i < v.len()
        invariant
            i <= v.len(),
            out@ == v@.take(i as int),
        decreases v.len() - i,
    {
        out.push(v[i].clone());
        assert(v@.take(i + 1) =~= v@.take(i as int).push(v@[i as int]));
        i += 1;
    }
    assert(v@.take(v.len() as int) =~= v@);
    out
}

fn copy_env(v: &Vec<(String, String)>) -> (out: Vec<(String, String)>)
    ensures
        out@ == v@,
{
    let mut out: Vec<(String, String)> = Vec::new();
    let mut i: usize = 0;
    while i < v.len()
        invariant
            i <= v.len(),
            out@ == v@.take(i as int),
        decreases v.len() - i,
    {
        out.push((v[i].0.clone(), v[i].1.clone()));
        assert(v@.take(i + 1) =~= v@.take(i as int).push(v@[i as int]));
        i += 1;
    }
    assert(v@.take(v.len() as int) =~= v@);
    out
}

/// A field-for-field copy of a configuration.
pub fn copy_config(c: &Config) -> (out: Config)
    ensures
        out.command@ == c.command@,
        out.restart_delay_ms == c.restart_delay_ms,
        out.env_clear == c.env_clear,
        out.env@ == c.env@,
{
    Config {
        command: copy_strings(&c.command),
        restart_delay_ms: c.restart_delay_ms,
        env_clear: c.env_clear,
        env: copy_env(&c.env),
    }
}

/// What the applet asks of the panel after an input.
#[derive(Debug)]
pub enum ExecAppletAction {
    /// Rebuild the status widgets by the plan; each is told whether the
    /// applet has popover content.
    RebuildStatus { plan: StatusPlan, has_popover: bool },
    /// Show or hide the applet.
    SetVisible { visible: bool },
    /// Remove every status widget and hide the applet.
    ClearStatus,
    /// Hand the open popover the current popover tree.
    SyncPopover,
    ClosePopover,
    TogglePopover,
    ShowContextMenu,
    HideContextMenu,
    /// Ask the supervisor to restart the child.
    RestartChild,
    /// Hand the supervisor a new configuration.
    ReconfigureChild { config: Config },
    /// Queue the user event at hand for the child.
    ForwardEvent,
    /// Tell the child that the popover opened.
    SendPopoverOpened,
    /// Tell the child that the popover closed.
    SendPopoverClosed,
}

/// What happens to the applet.
#[derive(Debug)]
pub enum ExecAppletInput {
    /// The child sent new status items.
    StatusChanged { items: Vec<StatusItem> },
    /// The child sent a popover tree (`has_root`) or cleared it.
    PopoverChanged { has_root: bool },
    /// The child exited.
    ChildExited,
    /// A new configuration; `same_options` tells whether the child's JSON
    /// options (held and compared by the caller) are unchanged.
    Reconfigure { config: Config, same_options: bool },
    /// The applet was right-clicked.
    ShowContextMenu,
    /// "Restart" was chosen in the context menu.
    RestartCommand,
    /// A status item asked to toggle the popover.
    ItemTogglePopover,
    /// A status item asked for the applet's context menu.
    ItemContextMenu,
    /// A status item produced an event for the child.
    ItemEvent,
    /// A status item was activated, with or without an event for the child.
    ItemActivate { with_event: bool },
    /// The popover opened.
    PopoverOpened,
    /// The popover closed.
    PopoverClosed,
    /// A popover widget produced an event for the child.
    PopoverEvent,
}

/// The applet's state: the latest items and popover presence from the
/// child, what the status widgets show, and whether the popover is open.
#[derive(Debug)]
pub struct ExecApplet {
    pub config: Config,
    pub status: Vec<StatusItem>,
    pub rendered_status: Vec<StatusItem>,
    pub rendered_keys: Vec<String>,
    pub has_popover_content: bool,
    pub rendered_has_popover: bool,
    pub popover_open: bool,
}

/// Each status widget is kept under the key of the item it shows.
pub open spec fn keys_match(s: ExecApplet) -> bool {
    views(s.rendered_keys@) == status_keys(s.rendered_status@)
}

/// The status widgets show the latest items and know whether there is
/// popover content.
pub open spec fn synced(s: ExecApplet) -> bool {
    &&& items_view(s.rendered_status@) == items_view(s.status@)
    &&& s.rendered_has_popover == s.has_popover_content
}

/// What an open popover is told after the popover tree changed.
pub open spec fn popover_tail(open: bool, has_root: bool) -> Seq<ExecAppletAction> {
    if open && has_root {
        seq![ExecAppletAction::SyncPopover]
    } else if open {
        seq![ExecAppletAction::ClosePopover]
    } else {
        Seq::empty()
    }
}

/// `plan` is the rebuild plan from widgets keyed `rendered_keys` to `items`.
pub open spec fn plan_matches(plan: StatusPlan, rendered_keys: Seq<String>, items: Seq<StatusItem>) -> bool {
    let (slots, rest) = plan_of(initial_pool(views(rendered_keys)), status_keys(items));
    &&& views(plan.keys@) == status_keys(items)
    &&& plan.slots@ == slots
    &&& plan.detached@ == rest.map_values(|p: (Seq<char>, usize)| p.1)
}

/// The status widgets are rebuilt from `old` if they do not already show
/// its items and popover presence.
pub open spec fn rebuild_step(old: ExecApplet, new: ExecApplet, out: Seq<ExecAppletAction>) -> bool {
    &&& new.config == old.config
    &&& new.status == old.status
    &&& new.has_popover_content == old.has_popover_content
    &&& new.popover_open == old.popover_open
    &&& if items_view(old.rendered_status@) == items_view(old.status@) && old.rendered_has_popover
        == old.has_popover_content {
        &&& new == old
        &&& out.len() == 0
    } else {
        &&& new.rendered_status@ == old.status@
        &&& views(new.rendered_keys@) == status_keys(old.status@)
        &&& new.rendered_has_popover == old.has_popover_content
        &&& out.len() == 2
        &&& out[0] matches ExecAppletAction::RebuildStatus { plan, has_popover } && plan_matches(
            plan,
            old.rendered_keys@,
            old.status@,
        ) && has_popover == old.has_popover_content
        &&& out[1] == ExecAppletAction::SetVisible { visible: old.status@.len() > 0 }
    }
}

impl ExecApplet {
    /// A new applet: no items, no popover content, popover closed.
    pub fn new(config: Config) -> (out: Self)
        ensures
            out.config == config,
            out.status@.len() == 0,
            out.rendered_status@.len() == 0,
            out.rendered_keys@.len() == 0,
            !out.has_popover_content,
            !out.rendered_has_popover,
            !out.popover_open,
            keys_match(out),
            synced(out),
    {
        let out = ExecApplet {
            config,
            status: Vec::new(),
            rendered_status: Vec::new(),
            rendered_keys: Vec::new(),
            has_popover_content: false,
            rendered_has_popover: false,
            popover_open: false,
        };
        assert(items_view(out.rendered_status@) =~= items_view(out.status@));
        assert(views(out.rendered_keys@) =~= status_keys(out.rendered_status@));
        out
    }

    fn rebuild_status_if_needed(&mut self) -> (out: Vec<ExecAppletAction>)
        requires
            keys_match(*old(self)),
        ensures
            rebuild_step(*old(self), *final(self), out@),
            keys_match(*final(self)),
            synced(*final(self)),
    {
        if self.rendered_has_popover == self.has_popover_content && same_status_items(
            &self.rendered_status,
            &self.status,
        ) {
            return Vec::new();
        }
        let plan = plan_status_widgets(&self.rendered_keys, &self.status);
        let keys = copy_strings(&plan.keys);
        let has_popover = self.has_popover_content;
        let visible = self.status.len() > 0;
        self.rendered_keys = keys;
        self.rendered_status = copy_status_items(&self.status);
        self.rendered_has_popover = has_popover;
        let mut out: Vec<ExecAppletAction> = Vec::new();
        out.push(ExecAppletAction::RebuildStatus { plan, has_popover });
        out.push(ExecAppletAction::SetVisible { visible });
        out
    }

    /// Handles one input and says what the panel is to do.
    pub fn update(&mut self, input: ExecAppletInput) -> (out: Vec<ExecAppletAction>)
        requires
            keys_match(*old(self)),
        ensures
            keys_match(*final(self)),
            synced(*old(self)) ==> synced(*final(self)),
            input matches ExecAppletInput::StatusChanged { items } ==> {
                let mid = ExecApplet { status: items, ..*old(self) };
                rebuild_step(mid, *final(self), out@)
            },
            input matches ExecAppletInput::PopoverChanged { has_root } ==> {
                let mid = ExecApplet { has_popover_content: has_root, ..*old(self) };
                let tail = popover_tail(old(self).popover_open, has_root);
                let head = out@.take(out@.len() - tail.len());
                &&& out@.len() >= tail.len()
                &&& out@.skip(out@.len() - tail.len()) == tail
                &&& if old(self).has_popover_content != has_root {
                    rebuild_step(mid, *final(self), head)
                } else {
                    *final(self) == mid && head.len() == 0
                }
            },
            input is ChildExited ==> {
                &&& final(self).config == old(self).config
                &&& final(self).status@.len() == 0
                &&& final(self).rendered_status@.len() == 0
                &&& final(self).rendered_keys@.len() == 0
                &&& !final(self).has_popover_content
                &&& !final(self).rendered_has_popover
                &&& final(self).popover_open == old(self).popover_open
                &&& out@ == seq![
                    ExecAppletAction::ClearStatus,
                    ExecAppletAction::ClosePopover,
                    ExecAppletAction::HideContextMenu,
                ]
            },
            input matches ExecAppletInput::Reconfigure { config, same_options } ==> {
                if same_options && config_view(config) == config_view(old(self).config) {
                    &&& *final(self) == *old(self)
                    &&& out@.len() == 0
                } else {
                    &&& final(self).config == config
                    &&& *final(self) == ExecApplet { config, ..*old(self) }
                    &&& out@.len() == 3
                    &&& out@[0] == ExecAppletAction::ClosePopover
                    &&& out@[1] == ExecAppletAction::HideContextMenu
                    &&& out@[2] matches ExecAppletAction::ReconfigureChild { config: sent }
                        && config_view(sent) == config_view(config)
                }
            },
            input is ShowContextMenu ==> *final(self) == *old(self) && out@ == seq![
                ExecAppletAction::ShowContextMenu,
            ],
            input is RestartCommand ==> *final(self) == *old(self) && out@ == seq![
                ExecAppletAction::ClosePopover,
                ExecAppletAction::HideContextMenu,
                ExecAppletAction::RestartChild,
            ],
            input is ItemTogglePopover ==> *final(self) == *old(self) && out@ == (if old(
                self,
            ).has_popover_content {
                seq![ExecAppletAction::TogglePopover]
            } else {
                Seq::empty()
            }),
            input is ItemContextMenu ==> *final(self) == *old(self) && out@ == seq![
                ExecAppletAction::ShowContextMenu,
            ],
            input is ItemEvent ==> *final(self) == *old(self) && out@ == seq![
                ExecAppletAction::ForwardEvent,
            ],
            input matches ExecAppletInput::ItemActivate { with_event } ==> *final(self) == *old(self)
                && out@ == (if with_event {
                seq![ExecAppletAction::ForwardEvent]
            } else {
                Seq::empty()
            }) + (if old(self).has_popover_content && !old(self).popover_open {
                seq![ExecAppletAction::TogglePopover]
            } else {
                Seq::empty()
            }),
            input is PopoverOpened ==> if old(self).popover_open {
                *final(self) == *old(self) && out@.len() == 0
            } else {
                *final(self) == ExecApplet { popover_open: true, ..*old(self) } && out@ == seq![
                    ExecAppletAction::SyncPopover,
                    ExecAppletAction::SendPopoverOpened,
                ]
            },
            input is PopoverClosed ==> if !old(self).popover_open {
                *final(self) == *old(self) && out@.len() == 0
            } else {
                *final(self) == ExecApplet { popover_open: false, ..*old(self) } && out@ == seq![
                    ExecAppletAction::SendPopoverClosed,
                ]
            },
            input is PopoverEvent ==> *final(self) == *old(self) && out@ == seq![
                ExecAppletAction::ForwardEvent,
            ],
    {
        match input {
            ExecAppletInput::StatusChanged { items } => {
                self.status = items;
                self.rebuild_status_if_needed()
            },
            ExecAppletInput::PopoverChanged { has_root } => {
                let previous = self.has_popover_content;
                self.has_popover_content = has_root;
                let mut out = if previous != has_root {
                    self.rebuild_status_if_needed()
                } else {
                    Vec::new()
                };
                let ghost rebuilt = out@;
                if self.popover_open && self.has_popover_content {
                    out.push(ExecAppletAction::SyncPopover);
                } else if self.popover_open {
                    out.push(ExecAppletAction::ClosePopover);
                }
                assert(out@.take(rebuilt.len() as int) =~= rebuilt);
                assert(out@.skip(rebuilt.len() as int) =~= popover_tail(self.popover_open, has_root));
                out
            },
            ExecAppletInput::ChildExited => {
                self.status = Vec::new();
                self.has_popover_content = false;
                self.rendered_status = Vec::new();
                self.rendered_keys = Vec::new();
                self.rendered_has_popover = false;
                assert(items_view(self.rendered_status@) =~= items_view(self.status@));
                assert(views(self.rendered_keys@) =~= status_keys(self.rendered_status@));
                let mut out: Vec<ExecAppletAction> = Vec::new();
                out.push(ExecAppletAction::ClearStatus);
                out.push(ExecAppletAction::ClosePopover);
                out.push(ExecAppletAction::HideContextMenu);
                out
            },
            ExecAppletInput::Reconfigure { config, same_options } => {
                let mut out: Vec<ExecAppletAction> = Vec::new();
                if same_options && same_config(&self.config, &config) {
                    return out;
                }
                let sent = copy_config(&config);
                assert(views(sent.command@) =~= views(config.command@));
                self.config = config;
                out.push(ExecAppletAction::ClosePopover);
                out.push(ExecAppletAction::HideContextMenu);
                out.push(ExecAppletAction::ReconfigureChild { config: sent });
                out
            },
            ExecAppletInput::ShowContextMenu | ExecAppletInput::ItemContextMenu => {
                let mut out: Vec<ExecAppletAction> = Vec::new();
                out.push(ExecAppletAction::ShowContextMenu);
                out
            },
            ExecAppletInput::RestartCommand => {
                let mut out: Vec<ExecAppletAction> = Vec::new();
                out.push(ExecAppletAction::ClosePopover);
                out.push(ExecAppletAction::HideContextMenu);
                out.push(ExecAppletAction::RestartChild);
                out
            },
            ExecAppletInput::ItemTogglePopover => {
                let mut out: Vec<ExecAppletAction> = Vec::new();
                if self.has_popover_content {
                    out.push(ExecAppletAction::TogglePopover);
                }
                out
            },
            ExecAppletInput::ItemEvent | ExecAppletInput::PopoverEvent => {
                let mut out: Vec<ExecAppletAction> = Vec::new();
                out.push(ExecAppletAction::ForwardEvent);
                out
            },
            ExecAppletInput::ItemActivate { with_event } => {
                let mut out: Vec<ExecAppletAction> = Vec::new();
                if with_event {
                    out.push(ExecAppletAction::ForwardEvent);
                }
                if self.has_popover_content && !self.popover_open {
                    out.push(ExecAppletAction::TogglePopover);
                }
                proof {
                    let a: Seq<ExecAppletAction> = if with_event {
                        seq![ExecAppletAction::ForwardEvent]
                    } else {
                        Seq::empty()
                    };
                    let b: Seq<ExecAppletAction> = if self.has_popover_content && !self.popover_open {
                        seq![ExecAppletAction::TogglePopover]
                    } else {
                        Seq::empty()
                    };
                    assert(out@ =~= a + b);
                }
                out
            },
            ExecAppletInput::PopoverOpened => {
                let mut out: Vec<ExecAppletAction> = Vec::new();
                if self.popover_open {
                    return out;
                }
                self.popover_open = true;
                out.push(ExecAppletAction::SyncPopover);
                out.push(ExecAppletAction::SendPopoverOpened);
                out
            },
            ExecAppletInput::PopoverClosed => {
                let mut out: Vec<ExecAppletAction> = Vec::new();
                if !self.popover_open {
                    return out;
                }
                self.popover_open = false;
                out.push(ExecAppletAction::SendPopoverClosed);
                out
            },
        }
    }
}

// ---------------------------------------------------------------------------
// One status item
// ---------------------------------------------------------------------------

/// A user event on a status item, for the child: the item's id, the kind of
/// event and, for a click, the button.
#[derive(Debug, PartialEq, Eq)]
pub struct StatusEvent {
    pub id: String,
    pub kind: EventKind,
    pub button: Option<MouseButton>,
}

/// What a status item tells the applet.
#[derive(Debug)]
pub enum StatusItemOutput {
    TogglePopover,
    ContextMenu,
    Event { event: StatusEvent },
    /// A primary click on an item of an applet with a popover.
    Activate { event: Option<StatusEvent> },
}

/// What a status item does with a click.
#[derive(Debug)]
pub enum ClickReaction {
    /// Open the item's own context menu.
    ShowItemMenu,
    /// Tell the applet.
    Output { output: StatusItemOutput },
    Nothing,
}

/// The click event of an item with `id`, if it has one.
pub open spec fn click_event_of(id: Option<String>, button: u32) -> Option<(Seq<char>, MouseButton)> {
    match id {
        Some(id) => Some((
            id@,
            if button == 1 {
                MouseButton::Left
            } else if button == 2 {
                MouseButton::Middle
            } else if button == 3 {
                MouseButton::Right
            } else {
                MouseButton::Other
            },
        )),
        None => None,
    }
}

/// `event` is the click event `(id, button)`.
pub open spec fn is_click(event: StatusEvent, expected: (Seq<char>, MouseButton)) -> bool {
    event.id@ == expected.0 && event.kind == EventKind::Click && event.button == Some(expected.1)
}

/// A click with GDK button number `button` on `item`. A right click opens
/// the item's menu when it has visible entries (`has_menu_items`), else the
/// applet's. Any other click makes a click event when the item has an id; a
/// primary click in an applet with a popover activates (with that event, or
/// by toggling the popover when there is none).
pub fn status_click(item: &StatusItem, has_popover: bool, has_menu_items: bool, button: u32) -> (out:
    ClickReaction)
    ensures
        button == 3 && has_menu_items ==> out is ShowItemMenu,
        button == 3 && !has_menu_items ==> out matches ClickReaction::Output {
            output: StatusItemOutput::ContextMenu,
        },
        button != 3 && has_popover && button == 1 ==> match click_event_of(item.id, button) {
            Some(expected) => out matches ClickReaction::Output {
                output: StatusItemOutput::Activate { event: Some(event) },
            } && is_click(event, expected),
            None => out matches ClickReaction::Output { output: StatusItemOutput::TogglePopover },
        },
        button != 3 && !(has_popover && button == 1) ==> match click_event_of(item.id, button) {
            Some(expected) => out matches ClickReaction::Output {
                output: StatusItemOutput::Event { event },
            } && is_click(event, expected),
            None => out is Nothing,
        },
{
    if button == 3 {
        if has_menu_items {
            return ClickReaction::ShowItemMenu;
        }
        return ClickReaction::Output { output: StatusItemOutput::ContextMenu };
    }
    let event = match &item.id {
        Some(id) => Some(
            StatusEvent {
                id: id.clone(),
                kind: EventKind::Click,
                button: Some(MouseButton::from_number(button)),
            },
        ),
        None => None,
    };
    if has_popover && button == 1 {
        return match event {
            Some(event) => ClickReaction::Output {
                output: StatusItemOutput::Activate { event: Some(event) },
            },
            None => ClickReaction::Output { output: StatusItemOutput::TogglePopover },
        };
    }
    match event {
        Some(event) => ClickReaction::Output { output: StatusItemOutput::Event { event } },
        None => ClickReaction::Nothing,
    }
}

/// A scroll on `item`: a scroll event when the item has an id (the caller
/// attaches the scroll delta).
pub fn status_scroll(item: &StatusItem) -> (out: Option<StatusEvent>)
    ensures
        match item.id {
            Some(id) => out matches Some(event) && event.id@ == id@ && event.kind == EventKind::Scroll
                && event.button is None,
            None => out is None,
        },
{
    match &item.id {
        Some(id) => Some(StatusEvent { id: id.clone(), kind: EventKind::Scroll, button: None }),
        None => None,
    }
}

/// An entry of a status item's own context menu.
#[derive(Debug, Clone, PartialEq, Eq)]
pub struct StatusMenuItem {
    pub id: String,
    pub label: String,
    pub visible: bool,
    pub enabled: bool,
}

/// Whether a status item's menu has an entry to show.
pub fn has_visible_menu_items(items: &[StatusMenuItem]) -> (out: bool)
    ensures
        out == exists|i: int| 0 <= i < items@.len() && (#[trigger] items@[i]).visible,
{
    let mut i: usize = 0;
    while i < items.len()
        invariant
            i <= items@.len(),
            forall|j: int| 0 <= j < i ==> !(#[trigger] items@[j]).visible,
        decreases items.len() - i,
    {
        if items[i].visible {
            return true;
        }
        i += 1;
    }
    false
}

/// The event a chosen menu entry sends the child: a primary click on the
/// status item with the entry's id.
pub fn status_menu_event(id: String) -> (out: StatusEvent)
    ensures
        out.id == id,
        out.kind == EventKind::Click,
        out.button == Some(MouseButton::Left),
{
    StatusEvent { id, kind: EventKind::Click, button: Some(MouseButton::Left) }
}

} // verus!
