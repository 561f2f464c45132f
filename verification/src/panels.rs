//! Which panels the shell shows: one for each configured panel on each
//! monitor it matches, keeping the panels already shown under the same key.
use vstd::prelude::*;

use crate::text::{eq_str, kept_positions, lemma_kept_positions_bounds, lemma_kept_positions_step};

verus! {

/// What a configured panel says about its placement: the monitor it is
/// pinned to (by connector name), if any, and its position's name.
#[derive(Debug, Clone)]
pub struct PanelTarget {
    pub monitor: Option<String>,
    pub position: String,
}

/// The key under which a shown panel is kept: the index of its
/// configuration, its monitor's connector (empty when the monitor has none)
/// and its position.
#[derive(Debug, Clone)]
pub struct PanelKey {
    pub index: usize,
    pub monitor: String,
    pub position: String,
}

/// A key as values.
pub open spec fn key_view(k: PanelKey) -> (usize, Seq<char>, Seq<char>) {
    (k.index, k.monitor@, k.position@)
}

/// Keys as values.
pub open spec fn keys_view(keys: Seq<PanelKey>) -> Seq<(usize, Seq<char>, Seq<char>)> {
    keys.map_values(|k: PanelKey| key_view(k))
}

/// The connector text a key records for a monitor.
pub open spec fn connector_text(connector: Option<String>) -> Seq<char> {
    match connector {
        Some(c) => c@,
        None => Seq::empty(),
    }
}

/// A configured panel shows on a monitor unless it is pinned to another one;
/// a pinned panel never shows on a monitor without a connector name.
pub open spec fn shows_on(target: PanelTarget, connector: Option<String>) -> bool {
    match target.monitor {
        None => true,
        Some(pinned) => match connector {
            Some(c) => c@ == pinned@,
            None => false,
        },
    }
}

/// The placement of configuration `c` on monitor `m`, if it shows there.
pub open spec fn cell(configs: Seq<PanelTarget>, monitors: Seq<Option<String>>, c: int, m: int) -> Seq<
    (usize, usize),
> {
    if shows_on(configs[c], monitors[m]) {
        seq![(c as usize, m as usize)]
    } else {
        Seq::empty()
    }
}

/// The placements (configuration, monitor) before configuration `c`'s
/// monitor `m`, configuration by configuration, monitor by monitor.
pub open spec fn placements_upto(configs: Seq<PanelTarget>, monitors: Seq<Option<String>>, c: nat, m: nat) -> Seq<
    (usize, usize),
>
    decreases c, m,
{
    if m > 0 {
        placements_upto(configs, monitors, c, (m - 1) as nat) + cell(configs, monitors, c as int, m - 1)
    } else if c > 0 {
        placements_upto(configs, monitors, (c - 1) as nat, monitors.len())
    } else {
        Seq::empty()
    }
}

/// Every placement of a panel: for each configuration in order, each monitor
/// it shows on, in the monitors' order.
pub open spec fn placements(configs: Seq<PanelTarget>, monitors: Seq<Option<String>>) -> Seq<(usize, usize)> {
    placements_upto(configs, monitors, configs.len(), 0)
}

/// The key of a placement.
pub open spec fn placement_key(configs: Seq<PanelTarget>, monitors: Seq<Option<String>>, p: (usize, usize)) -> (
    usize,
    Seq<char>,
    Seq<char>,
) {
    (p.0, connector_text(monitors[p.1 as int]), configs[p.0 as int].position@)
}

/// The keys of all placements.
pub open spec fn target_keys(configs: Seq<PanelTarget>, monitors: Seq<Option<String>>) -> Seq<
    (usize, Seq<char>, Seq<char>),
> {
    placements(configs, monitors).map_values(|p: (usize, usize)| placement_key(configs, monitors, p))
}

/// Shown panels are looked up by key, and of several with one key the last
/// one is found: panel `i` is found unless a later one has its key.
pub open spec fn is_found(existing: Seq<(usize, Seq<char>, Seq<char>)>, i: int) -> bool {
    forall|j: int| i < j < existing.len() ==> existing[j] != existing[i]
}

/// The last panel before `before` with `key`.
pub open spec fn last_with(existing: Seq<(usize, Seq<char>, Seq<char>)>, key: (usize, Seq<char>, Seq<char>), before: int) -> Option<
    int,
>
    decreases before,
{
    if before <= 0 {
        None
    } else if existing[before - 1] == key {
        Some(before - 1)
    } else {
        last_with(existing, key, before - 1)
    }
}

/// Where the panel for one placement comes from.
#[derive(Debug, Clone, Copy, PartialEq, Eq, Structural)]
pub enum PanelSlot {
    /// The shown panel at this position, reconfigured.
    Reuse { panel: usize },
    /// A new panel.
    Build,
}

/// The slot of the `k`-th placement: the panel found under its key, unless
/// an earlier placement with the same key took it.
pub open spec fn slot_for(keys: Seq<(usize, Seq<char>, Seq<char>)>, existing: Seq<(usize, Seq<char>, Seq<char>)>, k: int) -> PanelSlot {
    if keys.take(k).contains(keys[k]) {
        PanelSlot::Build
    } else {
        match last_with(existing, keys[k], existing.len() as int) {
            Some(i) => PanelSlot::Reuse { panel: i as usize },
            None => PanelSlot::Build,
        }
    }
}

/// The positions of the shown panels.
pub open spec fn positions(n: nat) -> Seq<int> {
    Seq::new(n, |i: int| i)
}

/// The shown panels that are found but no placement wants: they are
/// destroyed, in order.
pub open spec fn removed_of(keys: Seq<(usize, Seq<char>, Seq<char>)>, existing: Seq<(usize, Seq<char>, Seq<char>)>) -> Seq<
    int,
> {
    kept_positions(positions(existing.len()), |i: int| is_found(existing, i) && !keys.contains(existing[i]))
}

/// The shown panels hidden behind a later one with their key: the lookup
/// never sees them.
pub open spec fn shadowed_of(existing: Seq<(usize, Seq<char>, Seq<char>)>) -> Seq<int> {
    kept_positions(positions(existing.len()), |i: int| !is_found(existing, i))
}

/// How the shown panels become the configured ones.
#[derive(Debug)]
pub struct PanelPlan {
    /// (configuration, monitor) of each panel to show, in order.
    pub placements: Vec<(usize, usize)>,
    /// The key of each panel to show.
    pub keys: Vec<PanelKey>,
    /// Where each panel to show comes from.
    pub slots: Vec<PanelSlot>,
    /// Shown panels no placement wants.
    pub removed: Vec<usize>,
    /// Shown panels hidden behind a later one with the same key.
    pub shadowed: Vec<usize>,
}

fn shows_on_exec(target: &PanelTarget, connector: &Option<String>) -> (out: bool)
    ensures
        out == shows_on(*target, *connector),
{
    match &target.monitor {
        None => true,
        Some(pinned) => match connector {
            Some(c) => eq_str(c.as_str(), pinned.as_str()),
            None => false,
        },
    }
}

/// Whether two keys are equal.
pub fn same_key(a: &PanelKey, b: &PanelKey) -> (out: bool)
    ensures
        out == (key_view(*a) == key_view(*b)),
{
    a.index == b.index && eq_str(a.monitor.as_str(), b.monitor.as_str()) && eq_str(
        a.position.as_str(),
        b.position.as_str(),
    )
}

fn placements_exec(configs: &Vec<PanelTarget>, monitors: &Vec<Option<String>>) -> (out: Vec<(usize, usize)>)
    ensures
        out@ == placements(configs@, monitors@),
{
    let mut out: Vec<(usize, usize)> = Vec::new();
    let mut c: usize = 0;
    while c < configs.len()
        invariant
            c <= configs.len(),
            out@ == placements_upto(configs@, monitors@, c as nat, 0),
        decreases configs.len() - c,
    {
        let mut m: usize = 0;
        while m < monitors.len()
            invariant
                c < configs.len(),
                m <= monitors.len(),
                out@ == placements_upto(configs@, monitors@, c as nat, m as nat),
            decreases monitors.len() - m,
        {
            let ghost before = out@;
            if shows_on_exec(&configs[c], &monitors[m]) {
                out.push((c, m));
            }
            assert(out@ =~= before + cell(configs@, monitors@, c as int, m as int));
            m += 1;
        }
        assert(placements_upto(configs@, monitors@, (c + 1) as nat, 0) == placements_upto(
            configs@,
            monitors@,
            c as nat,
            monitors@.len(),
        ));
        c += 1;
    }
    out
}

/// The last shown panel with `key`.
fn find_last(existing: &Vec<PanelKey>, key: &PanelKey) -> (out: Option<usize>)
    ensures
        match out {
            Some(i) => last_with(keys_view(existing@), key_view(*key), existing@.len() as int) == Some(
                i as int,
            ),
            None => last_with(keys_view(existing@), key_view(*key), existing@.len() as int) is None,
        },
{
    let ghost ev = keys_view(existing@);
    let mut i: usize = existing.len();
    while i > 0
        invariant
            i <= existing.len(),
            ev == keys_view(existing@),
            last_with(ev, key_view(*key), existing@.len() as int) == last_with(ev, key_view(*key), i as int),
        decreases i,
    {
        if same_key(&existing[i - 1], key) {
            return Some(i - 1);
        }
        i -= 1;
    }
    None
}

/// Whether `keys` holds `key`.
fn holds_key(keys: &Vec<PanelKey>, key: &PanelKey) -> (out: bool)
    ensures
        out == keys_view(keys@).contains(key_view(*key)),
{
    let ghost kv = keys_view(keys@);
    let mut j: usize = 0;
    while j < keys.len()
        invariant
            j <= keys.len(),
            kv == keys_view(keys@),
            forall|t: int| 0 <= t < j ==> kv[t] != key_view(*key),
        decreases keys.len() - j,
    {
        if same_key(&keys[j], key) {
            assert(kv[j as int] == key_view(*key));
            return true;
        }
        j += 1;
    }
    false
}

/// Whether no panel after the `i`-th has its key.
fn found_under_key(existing: &Vec<PanelKey>, i: usize) -> (out: bool)
    requires
        i < existing@.len(),
    ensures
        out == is_found(keys_view(existing@), i as int),
{
    let ghost ev = keys_view(existing@);
    let n = existing.len();
    let mut j: usize = i + 1;
    while j < existing.len()
        invariant
            i < j <= existing.len(),
            ev == keys_view(existing@),
            forall|t: int| i < t < j ==> ev[t] != ev[i as int],
        decreases existing.len() - j,
    {
        if same_key(&existing[j], &existing[i]) {
            assert(ev[j as int] == ev[i as int]);
            return false;
        }
        j += 1;
    }
    true
}

fn copy_opt_connector(connector: &Option<String>) -> (out: String)
    ensures
        out@ == connector_text(*connector),
{
    match connector {
        Some(c) => c.clone(),
        None => String::new(),
    }
}

/// How the shown panels (`existing`, by key) become one panel per placement
/// of the configured panels on the monitors (by connector name, in order):
/// a placement reuses the panel found under its key unless an earlier
/// placement took it, and builds one otherwise; found panels that no
/// placement wants are removed.
pub fn plan_panels(configs: &Vec<PanelTarget>, monitors: &Vec<Option<String>>, existing: &Vec<PanelKey>) -> (out:
    PanelPlan)
    ensures
        out.placements@ == placements(configs@, monitors@),
        keys_view(out.keys@) == target_keys(configs@, monitors@),
        out.slots@.len() == out.keys@.len(),
        forall|k: int|
            0 <= k < out.slots@.len() ==> #[trigger] out.slots@[k] == slot_for(
                target_keys(configs@, monitors@),
                keys_view(existing@),
                k,
            ),
        out.removed@.map_values(|i: usize| i as int) == removed_of(
            target_keys(configs@, monitors@),
            keys_view(existing@),
        ),
        out.shadowed@.map_values(|i: usize| i as int) == shadowed_of(keys_view(existing@)),
{
    let placed = placements_exec(configs, monitors);
    let n_configs = configs.len();
    let n_monitors = monitors.len();
    let ghost tk = target_keys(configs@, monitors@);
    let ghost ev = keys_view(existing@);
    let mut keys: Vec<PanelKey> = Vec::new();
    let mut k: usize = 0;
    while k < placed.len()
        invariant
            k <= placed.len(),
            placed@ == placements(configs@, monitors@),
            tk == target_keys(configs@, monitors@),
            keys_view(keys@) =~= tk.take(k as int),
            n_configs == configs@.len(),
            n_monitors == monitors@.len(),
        decreases placed.len() - k,
    {
        let (c, m) = placed[k];
        proof {
            lemma_placements_bounds(configs@, monitors@, configs@.len(), 0);
            assert(tk[k as int] == placement_key(configs@, monitors@, placed@[k as int]));
        }
        let key = PanelKey {
            index: c,
            monitor: copy_opt_connector(&monitors[m]),
            position: configs[c].position.clone(),
        };
        assert(key_view(key) == tk[k as int]);
        let ghost before = keys@;
        keys.push(key);
        assert(keys_view(before).len() == k);
        assert(keys_view(keys@) =~= tk.take(k + 1));
        k += 1;
    }
    assert(tk.take(placed.len() as int) =~= tk);
    let mut slots: Vec<PanelSlot> = Vec::new();
    let mut k: usize = 0;
    while k < keys.len()
        invariant
            k <= keys.len(),
            keys_view(keys@) == tk,
            ev == keys_view(existing@),
            slots@.len() == k,
            forall|t: int| 0 <= t < k ==> #[trigger] slots@[t] == slot_for(tk, ev, t),
        decreases keys.len() - k,
    {
        let mut earlier = false;
        let mut j: usize = 0;
        while j < k
            invariant
                j <= k < keys.len(),
                keys_view(keys@) == tk,
                earlier ==> tk.take(k as int).contains(tk[k as int]),
                !earlier ==> forall|t: int| 0 <= t < j ==> tk[t] != tk[k as int],
            decreases k - j,
        {
            if same_key(&keys[j], &keys[k]) {
                assert(tk.take(k as int)[j as int] == tk[k as int]);
                earlier = true;
            }
            j += 1;
        }
        let slot = if earlier {
            PanelSlot::Build
        } else {
            match find_last(existing, &keys[k]) {
                Some(i) => PanelSlot::Reuse { panel: i },
                None => PanelSlot::Build,
            }
        };
        proof {
            if !earlier {
                assert(!tk.take(k as int).contains(tk[k as int]));
            }
        }
        slots.push(slot);
        k += 1;
    }
    let ghost pos = positions(existing@.len());
    let ghost removed_keep = |i: int| is_found(ev, i) && !tk.contains(ev[i]);
    let ghost shadow_keep = |i: int| !is_found(ev, i);
    let mut removed: Vec<usize> = Vec::new();
    let mut shadowed: Vec<usize> = Vec::new();
    let mut i: usize = 0;
    while i < existing.len()
        invariant
            i <= existing.len(),
            keys_view(keys@) == tk,
            ev == keys_view(existing@),
            pos == positions(existing@.len()),
            removed_keep == (|i: int| is_found(ev, i) && !tk.contains(ev[i])),
            shadow_keep == (|i: int| !is_found(ev, i)),
            removed@.map_values(|x: usize| x as int) == kept_positions(pos.take(i as int), removed_keep),
            shadowed@.map_values(|x: usize| x as int) == kept_positions(pos.take(i as int), shadow_keep),
        decreases existing.len() - i,
    {
        proof {
            lemma_kept_positions_step(pos, i as int, removed_keep);
            lemma_kept_positions_step(pos, i as int, shadow_keep);
        }
        let found = found_under_key(existing, i);
        if found {
            if !holds_key(&keys, &existing[i]) {
                let ghost before = removed@;
                removed.push(i);
                assert(removed@.map_values(|x: usize| x as int) =~= before.map_values(
                    |x: usize| x as int,
                ).push(i as int));
            }
        } else {
            let ghost before = shadowed@;
            shadowed.push(i);
            assert(shadowed@.map_values(|x: usize| x as int) =~= before.map_values(
                |x: usize| x as int,
            ).push(i as int));
        }
        i += 1;
    }
    assert(pos.take(existing@.len() as int) =~= pos);
    PanelPlan { placements: placed, keys, slots, removed, shadowed }
}

proof fn lemma_placements_bounds(configs: Seq<PanelTarget>, monitors: Seq<Option<String>>, c: nat, m: nat)
    requires
        c <= configs.len(),
        m <= monitors.len(),
        m > 0 ==> c < configs.len(),
        configs.len() <= usize::MAX,
        monitors.len() <= usize::MAX,
    ensures
        forall|t: int|
            0 <= t < placements_upto(configs, monitors, c, m).len() ==> {
                let p = #[trigger] placements_upto(configs, monitors, c, m)[t];
                p.0 < configs.len() && p.1 < monitors.len()
            },
    decreases c, m,
{
    if m > 0 {
        lemma_placements_bounds(configs, monitors, c, (m - 1) as nat);
        let prev = placements_upto(configs, monitors, c, (m - 1) as nat);
        let here = cell(configs, monitors, c as int, m - 1);
        assert forall|t: int| 0 <= t < (prev + here).len() implies {
            let p = #[trigger] (prev + here)[t];
            p.0 < configs.len() && p.1 < monitors.len()
        } by {
            if t >= prev.len() {
                assert((prev + here)[t] == here[t - prev.len()]);
            } else {
                assert((prev + here)[t] == prev[t]);
            }
        }
    } else if c > 0 {
        lemma_placements_bounds(configs, monitors, (c - 1) as nat, monitors.len());
        assert(placements_upto(configs, monitors, c, m) == placements_upto(
            configs,
            monitors,
            (c - 1) as nat,
            monitors.len(),
        ));
    }
}

proof fn lemma_last_with(existing: Seq<(usize, Seq<char>, Seq<char>)>, key: (usize, Seq<char>, Seq<char>), before: int)
    requires
        before <= existing.len(),
    ensures
        match last_with(existing, key, before) {
            Some(i) => 0 <= i < before && existing[i] == key && forall|j: int|
                i < j < before ==> existing[j] != key,
            None => forall|j: int| 0 <= j < before ==> existing[j] != key,
        },
    decreases before,
{
    if before > 0 && existing[before - 1] != key {
        lemma_last_with(existing, key, before - 1);
    }
}

proof fn lemma_first_occurrence<T>(s: Seq<T>, x: T)
    requires
        s.contains(x),
    ensures
        exists|k: int| 0 <= k < s.len() && s[k] == x && !(#[trigger] s.take(k)).contains(x),
    decreases s.len(),
{
    let init = s.drop_last();
    if init.contains(x) {
        lemma_first_occurrence(init, x);
        let k = choose|k: int| 0 <= k < init.len() && init[k] == x && !(#[trigger] init.take(k)).contains(x);
        assert(s.take(k) =~= init.take(k));
    } else {
        let k = s.len() - 1;
        let j = choose|j: int| 0 <= j < s.len() && s[j] == x;
        if j < k {
            assert(init[j] == x);
        }
        assert(s.take(k) =~= init);
    }
}

/// A reused panel is the one found under the placement's key.
pub proof fn law_reused_panel_has_key(
    keys: Seq<(usize, Seq<char>, Seq<char>)>,
    existing: Seq<(usize, Seq<char>, Seq<char>)>,
    k: int,
    i: int,
)
    requires
        0 <= k < keys.len(),
        0 <= i < existing.len() <= usize::MAX,
        slot_for(keys, existing, k) == (PanelSlot::Reuse { panel: i as usize }),
    ensures
        existing[i] == keys[k],
        is_found(existing, i),
{
    lemma_last_with(existing, keys[k], existing.len() as int);
}

/// No shown panel is reused for two placements.
pub proof fn law_no_panel_reused_twice(
    keys: Seq<(usize, Seq<char>, Seq<char>)>,
    existing: Seq<(usize, Seq<char>, Seq<char>)>,
    k1: int,
    k2: int,
)
    requires
        0 <= k1 < k2 < keys.len(),
        existing.len() <= usize::MAX,
    ensures
        !(slot_for(keys, existing, k1) is Reuse && slot_for(keys, existing, k1) == slot_for(
            keys,
            existing,
            k2,
        )),
{
    if slot_for(keys, existing, k1) is Reuse && slot_for(keys, existing, k1) == slot_for(keys, existing, k2) {
        lemma_last_with(existing, keys[k1], existing.len() as int);
        lemma_last_with(existing, keys[k2], existing.len() as int);
        assert(keys[k1] == keys[k2]);
        assert(keys.take(k2)[k1] == keys[k2]);
        assert(keys.take(k2).contains(keys[k2]));
    }
}

/// A found panel whose key some placement wants is reused by one.
pub proof fn law_wanted_panel_is_reused(
    keys: Seq<(usize, Seq<char>, Seq<char>)>,
    existing: Seq<(usize, Seq<char>, Seq<char>)>,
    i: int,
)
    requires
        0 <= i < existing.len() <= usize::MAX,
        is_found(existing, i),
        keys.contains(existing[i]),
    ensures
        exists|k: int|
            0 <= k < keys.len() && #[trigger] slot_for(keys, existing, k) == (PanelSlot::Reuse {
                panel: i as usize,
            }),
{
    lemma_first_occurrence(keys, existing[i]);
    let k = choose|k: int| 0 <= k < keys.len() && keys[k] == existing[i] && !(#[trigger] keys.take(k)).contains(existing[i]);
    lemma_last_with(existing, keys[k], existing.len() as int);
    assert(slot_for(keys, existing, k) == (PanelSlot::Reuse { panel: i as usize }));
}

} // verus!
