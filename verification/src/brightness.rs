//! Brightness applet: backlight and keyboard-light sources, the panel texts,
//! the primary-source rules, and which sources stay visible for a monitor setup.
use vstd::prelude::*;

use crate::compositor::{Monitor, State as CompositorState};
use crate::text::{chars_of, decimal, decimal_chars, owned, replace_all, replace_str, string_of};

verus! {

/// What kind of light a source controls.
#[derive(Debug, Clone, Copy, PartialEq, Eq, Structural)]
pub enum BrightnessSourceKind {
    BuiltInDisplay,
    ExternalDisplay,
    Keyboard,
}

/// One controllable light.
#[derive(Debug, Clone)]
pub struct BrightnessSource {
    pub id: String,
    pub name: String,
    pub kind: BrightnessSourceKind,
    pub icon: String,
    pub current: u32,
    pub max: u32,
    pub percent: u8,
    pub writable: bool,
    pub primary: bool,
    pub available: bool,
}

/// What the brightness applet renders from.
#[derive(Debug, Clone)]
pub struct State {
    pub available: bool,
    pub sources: Vec<BrightnessSource>,
}

impl Default for State {
    fn default() -> (state: Self)
        ensures
            !state.available,
            state.sources@.len() == 0,
    {
        State { available: false, sources: Vec::new() }
    }
}

/// The brightness applet's settings.
#[derive(Debug, Clone)]
pub struct Config {
    pub label_format: String,
    pub tooltip_format: String,
    /// Percent changed per scroll step.
    pub scroll_step: u8,
}

pub const DEFAULT_LABEL_FORMAT: &'static str = "";

pub const DEFAULT_TOOLTIP_FORMAT: &'static str = "{source}: {percent}%";

pub const ICON_NAME: &'static str = "display-brightness-symbolic";

impl Default for Config {
    fn default() -> (config: Self)
        ensures
            config.label_format@ == Seq::<char>::empty(),
            config.tooltip_format@ == DEFAULT_TOOLTIP_FORMAT@,
            config.scroll_step == 10,
    {
        Config {
            label_format: String::new(),
            tooltip_format: owned(DEFAULT_TOOLTIP_FORMAT),
            scroll_step: 10,
        }
    }
}

/// A source the user can change: present and writable.
pub open spec fn usable(source: BrightnessSource) -> bool {
    source.available && source.writable
}

/// A usable source marked primary.
pub open spec fn usable_primary(source: BrightnessSource) -> bool {
    source.primary && usable(source)
}

impl BrightnessSource {
    /// Whether the user can change this source.
    pub fn is_usable(&self) -> (out: bool)
        ensures
            out == usable(*self),
    {
        self.available && self.writable
    }
}

/// The rule that picks the primary source: usable and marked primary (`primary`),
/// or merely usable.
pub open spec fn rule(primary: bool, source: BrightnessSource) -> bool {
    if primary {
        usable_primary(source)
    } else {
        usable(source)
    }
}

/// `k` is the first index of `s` whose source satisfies the rule.
pub open spec fn is_first(s: Seq<BrightnessSource>, primary: bool, k: int) -> bool {
    &&& 0 <= k < s.len()
    &&& rule(primary, s[k])
    &&& forall|j: int| 0 <= j < k ==> !rule(primary, #[trigger] s[j])
}

/// Some source of `s` satisfies the rule.
pub open spec fn any(s: Seq<BrightnessSource>, primary: bool) -> bool {
    exists|j: int| 0 <= j < s.len() && rule(primary, #[trigger] s[j])
}

/// The source the applet treats as primary: the first usable primary source,
/// else the first usable source.
pub open spec fn primary_of(sources: Seq<BrightnessSource>) -> Option<BrightnessSource> {
    if any(sources, true) {
        Some(sources[choose|k: int| #[trigger] is_first(sources, true, k)])
    } else if any(sources, false) {
        Some(sources[choose|k: int| #[trigger] is_first(sources, false, k)])
    } else {
        None
    }
}

/// A brightness template with `{source}` and `{percent}` filled in.
pub open spec fn render_text(format: Seq<char>, source: Option<BrightnessSource>) -> Seq<char> {
    if format.len() == 0 {
        Seq::empty()
    } else {
        let name = match source {
            Some(s) => s.name@,
            None => "Brightness"@,
        };
        let percent = match source {
            Some(s) => decimal(s.percent as nat),
            None => "0"@,
        };
        replace_all(replace_all(format, "{source}"@, name), "{percent}"@, percent)
    }
}

proof fn lemma_first_unique(s: Seq<BrightnessSource>, p: bool, k: int)
    requires
        is_first(s, p, k),
    ensures
        (choose|j: int| #[trigger] is_first(s, p, j)) == k,
{
    let c = choose|j: int| #[trigger] is_first(s, p, j);
    assert(is_first(s, p, c));
    if c < k {
        assert(!rule(p, s[c]));
    } else if c > k {
        assert(!rule(p, s[k]));
    }
}

/// The index of the first source satisfying usable-primary (when `primary`)
/// or usable.
fn find_first(sources: &Vec<BrightnessSource>, primary: bool) -> (out: Option<usize>)
    ensures
        match out {
            Some(k) => is_first(
                sources@,
                primary,
                k as int,
            ),
            None => !any(
                sources@,
                primary,
            ),
        },
{
    let ghost p = primary;
    let mut i: usize = 0;
    while i < sources.len()
        invariant
            i <= sources.len(),
            p == primary,
            forall|j: int| 0 <= j < i ==> !rule(p, sources@[j]),
        decreases sources.len() - i,
    {
        let hit = if primary {
            sources[i].primary && sources[i].is_usable()
        } else {
            sources[i].is_usable()
        };
        if hit {
            return Some(i);
        }
        i += 1;
    }
    None
}

/// The primary source: the first usable source marked primary, else the first
/// usable source.
pub fn primary_source(state: &State) -> (out: Option<&BrightnessSource>)
    ensures
        primary_of(state.sources@) matches Some(p) ==> out matches Some(s) && *s == p,
        primary_of(state.sources@) is None ==> out is None,
{
    match find_first(&state.sources, true) {
        Some(k) => {
            proof {
                lemma_first_unique(state.sources@, true, k as int);
            }
            Some(&state.sources[k])
        },
        None => match find_first(&state.sources, false) {
            Some(k) => {
                proof {
                    lemma_first_unique(state.sources@, false, k as int);
                }
                Some(&state.sources[k])
            },
            None => None,
        },
    }
}

/// Fills in `{source}` (the source's name, or "Brightness") and `{percent}`.
pub fn render(format: &str, source: Option<&BrightnessSource>) -> (out: String)
    ensures
        out@ == render_text(format@, match source { Some(s) => Some(*s), None => None }),
{
    if format.is_empty() {
        return String::new();
    }
    proof {
        reveal_strlit("{source}");
        reveal_strlit("{percent}");
    }
    let name = match source {
        Some(s) => chars_of(s.name.as_str()),
        None => chars_of("Brightness"),
    };
    let percent = match source {
        Some(s) => decimal_chars(s.percent as u64),
        None => chars_of("0"),
    };
    let t = chars_of(format);
    let s1 = replace_str(&t, "{source}", &name);
    let s2 = replace_str(&s1, "{percent}", &percent);
    string_of(&s2)
}

/// The panel label for a template, from the primary source.
pub fn label(format: &str, state: &State) -> (out: String)
    ensures
        out@ == render_text(format@, primary_of(state.sources@)),
{
    render(format, primary_source(state))
}

/// The tooltip for a template, from the primary source.
pub fn tooltip(format: &str, state: &State) -> (out: String)
    ensures
        out@ == render_text(format@, primary_of(state.sources@)),
{
    render(format, primary_source(state))
}

/// The popover's hero subtitle: the primary source's name.
pub fn hero_subtitle(state: &State) -> (out: String)
    ensures
        out@ == (match primary_of(state.sources@) {
            Some(s) => s.name@,
            None => "No brightness controls"@,
        }),
{
    match primary_source(state) {
        Some(source) => source.name.clone(),
        None => owned("No brightness controls"),
    }
}

/// The applet icon, the same for every state.
pub fn icon_name(_state: &State) -> (out: &'static str)
    ensures
        out@ == ICON_NAME@,
{
    ICON_NAME
}

/// A field-for-field copy of a source.
pub fn copy_source(source: &BrightnessSource) -> (out: BrightnessSource)
    ensures
        out == *source,
{
    BrightnessSource {
        id: source.id.clone(),
        name: source.name.clone(),
        kind: source.kind,
        icon: source.icon.clone(),
        current: source.current,
        max: source.max,
        percent: source.percent,
        writable: source.writable,
        primary: source.primary,
        available: source.available,
    }
}

/// The secondary sources of the given kinds: usable, not primary, in order.
pub open spec fn secondary_of_kinds(s: Seq<BrightnessSource>, kinds: Seq<BrightnessSourceKind>) -> Seq<BrightnessSource>
    decreases s.len(),
{
    if s.len() == 0 {
        Seq::empty()
    } else {
        let rest = secondary_of_kinds(s.drop_last(), kinds);
        let x = s.last();
        if usable(x) && !x.primary && kinds.contains(x.kind) {
            rest.push(x)
        } else {
            rest
        }
    }
}

fn kind_in(kinds: &[BrightnessSourceKind], kind: BrightnessSourceKind) -> (out: bool)
    ensures
        out == kinds@.contains(kind),
{
    let mut i: usize = 0;
    while i < kinds.len()
        invariant
            i <= kinds.len(),
            forall|j: int| 0 <= j < i ==> kinds@[j] != kind,
        decreases kinds.len() - i,
    {
        if kinds[i] == kind {
            return true;
        }
        i += 1;
    }
    false
}

/// The usable, non-primary sources whose kind is among `kinds`, in order.
pub fn filter_sources(sources: &[BrightnessSource], kinds: &[BrightnessSourceKind]) -> (out: Vec<
    BrightnessSource,
>)
    ensures
        out@ == secondary_of_kinds(sources@, kinds@),
{
    let mut out: Vec<BrightnessSource> = Vec::new();
    let mut i: usize = 0;
    while i < sources.len()
        invariant
            i <= sources.len(),
            out@ == secondary_of_kinds(sources@.take(i as int), kinds@),
        decreases sources.len() - i,
    {
        assert(sources@.take(i + 1).drop_last() =~= sources@.take(i as int));
        assert(sources@.take(i + 1).last() == sources@[i as int]);
        let source = &sources[i];
        if source.is_usable() && !source.primary && kind_in(kinds, source.kind) {
            out.push(copy_source(source));
        }
        i += 1;
    }
    assert(sources@.take(sources.len() as int) =~= sources@);
    out
}

/// Whether there is any usable source besides the primary one.
pub fn has_secondary_sources(state: &State) -> (out: bool)
    ensures
        out == exists|j: int|
            0 <= j < state.sources@.len() && usable(#[trigger] state.sources@[j])
                && !state.sources@[j].primary,
{
    let mut i: usize = 0;
    while i < state.sources.len()
        invariant
            i <= state.sources.len(),
            forall|j: int| 0 <= j < i ==> !(usable(state.sources@[j]) && !state.sources@[j].primary),
        decreases state.sources.len() - i,
    {
        if state.sources[i].is_usable() && !state.sources[i].primary {
            return true;
        }
        i += 1;
    }
    false
}

/// The placeholder source shown while nothing is known.
pub fn empty_source(id: &str) -> (out: BrightnessSource)
    ensures
        out.id@ == id@,
        out.name@ == "Brightness"@,
        out.kind == BrightnessSourceKind::BuiltInDisplay,
        out.icon@ == "display-brightness-symbolic"@,
        out.current == 0,
        out.max == 100,
        out.percent == 0,
        !out.writable,
        out.primary,
        !out.available,
{
    BrightnessSource {
        id: owned(id),
        name: owned("Brightness"),
        kind: BrightnessSourceKind::BuiltInDisplay,
        icon: owned("display-brightness-symbolic"),
        current: 0,
        max: 100,
        percent: 0,
        writable: false,
        primary: true,
        available: false,
    }
}

/// Whether a source moves in native steps rather than percent: keyboard
/// lights, and any light with at most 20 levels.
pub fn uses_discrete_scale(source: &BrightnessSource) -> (out: bool)
    ensures
        out == (source.kind == BrightnessSourceKind::Keyboard || source.max <= 20),
{
    source.kind == BrightnessSourceKind::Keyboard || source.max <= 20
}

// ---------------------------------------------------------------------------
// Which sources stay visible
// ---------------------------------------------------------------------------

/// ASCII lower case of a character.
pub open spec fn ascii_lower(c: char) -> char {
    if 'A' <= c && c <= 'Z' {
        ((c as u32) + 32) as char
    } else {
        c
    }
}

/// `name`, lower-cased, starts with `prefix` (given in lower case).
pub open spec fn starts_with_lower(name: Seq<char>, prefix: Seq<char>) -> bool {
    &&& prefix.len() <= name.len()
    &&& forall|i: int| 0 <= i < prefix.len() ==> ascii_lower(name[i]) == prefix[i]
}

/// Whether a connector names a laptop panel: `eDP`, `LVDS` or `DSI`, in any case.
pub open spec fn internal_monitor(name: Seq<char>) -> bool {
    starts_with_lower(name, seq!['e', 'd', 'p']) || starts_with_lower(name, seq!['l', 'v', 'd', 's'])
        || starts_with_lower(name, seq!['d', 's', 'i'])
}

fn lower_char(c: char) -> (out: char)
    ensures
        out == ascii_lower(c),
{
    if 'A' <= c && c <= 'Z' {
        let code = (c as u32) + 32;
        assert(code == (c as u32) + 32);
        char_from_ascii(code)
    } else {
        c
    }
}

fn char_from_ascii(code: u32) -> (out: char)
    requires
        97 <= code <= 122,
    ensures
        out == code as char,
{
    let table = ['a', 'b', 'c', 'd', 'e', 'f', 'g', 'h', 'i', 'j', 'k', 'l', 'm', 'n', 'o', 'p', 'q', 'r', 's', 't', 'u', 'v', 'w', 'x', 'y', 'z'];
    let c = table[(code - 97) as usize];
    assert(table@[0] == 'a' && table@[1] == 'b' && table@[2] == 'c' && table@[3] == 'd');
    c
}

fn starts_with_lower_exec(name: &Vec<char>, prefix: &[char]) -> (out: bool)
    ensures
        out == starts_with_lower(name@, prefix@),
{
    if prefix.len() > name.len() {
        return false;
    }
    let mut i: usize = 0;
    while i < prefix.len()
        invariant
            i <= prefix.len() <= name.len(),
            forall|j: int| 0 <= j < i ==> ascii_lower(name@[j]) == prefix@[j],
        decreases prefix.len() - i,
    {
        if lower_char(name[i]) != prefix[i] {
            return false;
        }
        i += 1;
    }
    true
}

/// Whether a monitor connector is a laptop's built-in panel.
pub fn internal_monitor_name(name: &str) -> (out: bool)
    ensures
        out == internal_monitor(name@),
{
    let chars = chars_of(name);
    let edp = ['e', 'd', 'p'];
    let lvds = ['l', 'v', 'd', 's'];
    let dsi = ['d', 's', 'i'];
    assert(edp@ =~= seq!['e', 'd', 'p']);
    assert(lvds@ =~= seq!['l', 'v', 'd', 's']);
    assert(dsi@ =~= seq!['d', 's', 'i']);
    starts_with_lower_exec(&chars, &edp) || starts_with_lower_exec(&chars, &lvds)
        || starts_with_lower_exec(&chars, &dsi)
}

/// The built-in display's backlight is hidden when the compositor reports
/// monitors, one of them is the laptop panel, and no laptop panel shows a
/// workspace (the lid is closed or the panel is off).
pub open spec fn hide_builtin(monitors: Seq<Monitor>) -> bool {
    &&& monitors.len() > 0
    &&& exists|i: int| 0 <= i < monitors.len() && internal_monitor(monitors[i].name@)
    &&& !exists|i: int|
        0 <= i < monitors.len() && internal_monitor(monitors[i].name@)
            && monitors[i].active_workspace is Some
}

/// Whether the built-in display's source should be hidden.
pub fn should_hide_builtin_display(compositor: &CompositorState) -> (out: bool)
    ensures
        out == hide_builtin(compositor.monitors@),
{
    let monitors = &compositor.monitors;
    if monitors.len() == 0 {
        return false;
    }
    let mut any_internal = false;
    let mut any_active_internal = false;
    let mut i: usize = 0;
    while i < monitors.len()
        invariant
            i <= monitors.len(),
            any_internal == exists|j: int| 0 <= j < i && internal_monitor(monitors@[j].name@),
            any_active_internal == exists|j: int|
                0 <= j < i && internal_monitor(monitors@[j].name@)
                    && monitors@[j].active_workspace is Some,
        decreases monitors.len() - i,
    {
        let internal = internal_monitor_name(monitors[i].name.as_str());
        if internal {
            any_internal = true;
            if monitors[i].active_workspace.is_some() {
                any_active_internal = true;
            }
        }
        i += 1;
    }
    any_internal && !any_active_internal
}

/// `b` is `a` with only its primary flag possibly changed.
pub open spec fn same_but_primary(a: BrightnessSource, b: BrightnessSource) -> bool {
    b == BrightnessSource { primary: b.primary, ..a }
}

/// `new` is `old` with exactly one primary source when any source is usable:
/// the first usable primary one if there is one, else the first usable one.
pub open spec fn normalized_primary(old: Seq<BrightnessSource>, new: Seq<BrightnessSource>) -> bool {
    &&& new.len() == old.len()
    &&& forall|i: int| 0 <= i < old.len() ==> same_but_primary(old[i], #[trigger] new[i])
    &&& if any(old, true) {
        forall|i: int| 0 <= i < old.len() ==> (#[trigger] new[i]).primary == is_first(
            old,
            true,
            i,
        )
    } else {
        forall|i: int| 0 <= i < old.len() ==> (#[trigger] new[i]).primary == is_first(
            old,
            false,
            i,
        )
    }
}

fn with_primary(source: &BrightnessSource, primary: bool) -> (out: BrightnessSource)
    ensures
        out == (BrightnessSource { primary, ..*source }),
{
    BrightnessSource {
        id: source.id.clone(),
        name: source.name.clone(),
        kind: source.kind,
        icon: source.icon.clone(),
        current: source.current,
        max: source.max,
        percent: source.percent,
        writable: source.writable,
        primary,
        available: source.available,
    }
}

/// Keeps exactly one primary source among the visible ones.
pub fn normalize_visible_primary(state: &mut State)
    ensures
        normalized_primary(old(state).sources@, final(state).sources@),
        final(state).available == old(state).available,
{
    let first_primary = find_first(&state.sources, true);
    let keep = match first_primary {
        Some(k) => Some(k),
        None => find_first(&state.sources, false),
    };
    let ghost p = first_primary is Some;
    let mut out: Vec<BrightnessSource> = Vec::new();
    let mut i: usize = 0;
    while i < state.sources.len()
        invariant
            i <= state.sources.len(),
            out@.len() == i,
            match keep {
                Some(k) => is_first(state.sources@, p, k as int),
                None => !any(state.sources@, p),
            },
            forall|j: int| 0 <= j < i ==> same_but_primary(state.sources@[j], #[trigger] out@[j]),
            forall|j: int| 0 <= j < i ==> (#[trigger] out@[j]).primary == is_first(state.sources@, p, j),
        decreases state.sources.len() - i,
    {
        let is_kept = match keep {
            Some(k) => k == i,
            None => false,
        };
        proof {
            match keep {
                Some(k) => {
                    if k != i {
                        if (i as int) < k {
                            assert(!rule(p, state.sources@[i as int]));
                        } else {
                            assert(!is_first(state.sources@, p, i as int));
                        }
                    }
                },
                None => {
                    assert(!rule(p, state.sources@[i as int]));
                },
            }
        }
        out.push(with_primary(&state.sources[i], is_kept));
        i += 1;
    }
    state.sources = out;
}

/// The brightness state as the applet shows it: the built-in display's source
/// dropped (and the primary re-chosen) when the laptop panel is inactive, and
/// `available` recomputed from the remaining sources.
pub fn visible_state(state: &State, compositor: &CompositorState) -> (out: State)
    ensures
        hide_builtin(compositor.monitors@) ==> normalized_primary(
            without_kind(state.sources@, BrightnessSourceKind::BuiltInDisplay),
            out.sources@,
        ),
        !hide_builtin(compositor.monitors@) ==> out.sources@ == state.sources@,
        out.available == any(out.sources@, false),
{
    let mut sources: Vec<BrightnessSource> = Vec::new();
    let hide = should_hide_builtin_display(compositor);
    let mut i: usize = 0;
    while i < state.sources.len()
        invariant
            i <= state.sources.len(),
            hide == hide_builtin(compositor.monitors@),
            hide ==> sources@ == without_kind(
                state.sources@.take(i as int),
                BrightnessSourceKind::BuiltInDisplay,
            ),
            !hide ==> sources@ == state.sources@.take(i as int),
        decreases state.sources.len() - i,
    {
        assert(state.sources@.take(i + 1).drop_last() =~= state.sources@.take(i as int));
        assert(state.sources@.take(i + 1).last() == state.sources@[i as int]);
        if !hide || state.sources[i].kind != BrightnessSourceKind::BuiltInDisplay {
            sources.push(copy_source(&state.sources[i]));
        }
        assert(!hide ==> sources@ =~= state.sources@.take(i + 1));
        i += 1;
    }
    assert(state.sources@.take(state.sources.len() as int) =~= state.sources@);
    let mut visible = State { available: state.available, sources };
    if hide {
        normalize_visible_primary(&mut visible);
    }
    let mut any_usable = false;
    let mut j: usize = 0;
    while j < visible.sources.len()
        invariant
            j <= visible.sources.len(),
            any_usable == exists|k: int| 0 <= k < j && usable(visible.sources@[k]),
        decreases visible.sources.len() - j,
    {
        if visible.sources[j].is_usable() {
            any_usable = true;
        }
        j += 1;
    }
    visible.available = any_usable;
    visible
}

/// The sources of `s` whose kind is not `kind`, in order.
pub open spec fn without_kind(s: Seq<BrightnessSource>, kind: BrightnessSourceKind) -> Seq<BrightnessSource>
    decreases s.len(),
{
    if s.len() == 0 {
        Seq::empty()
    } else {
        let rest = without_kind(s.drop_last(), kind);
        if s.last().kind != kind {
            rest.push(s.last())
        } else {
            rest
        }
    }
}

// ---------------------------------------------------------------------------
// Echo suppression for slider changes
// ---------------------------------------------------------------------------

/// How long, in milliseconds, a value the user just set wins over a different
/// value reported by the service.
pub const BRIGHTNESS_ECHO_GRACE_MS: u64 = 2000;

/// A value the user set that the service has not confirmed yet.
#[derive(Debug, Clone, Copy, PartialEq, Eq, Structural)]
pub struct PendingBrightness {
    pub percent: u8,
    /// When it was set, in milliseconds on a monotonic clock.
    pub changed_at_ms: u64,
}

/// Whether a value reported by the service should be shown. Without a pending
/// value it always is; a matching report confirms and clears the pending
/// value; a different report is ignored while the pending value is younger than
/// the grace period, and clears it afterwards.
pub fn should_apply_service_percent(
    pending: &mut Option<PendingBrightness>,
    service_percent: u8,
    now_ms: u64,
) -> (apply: bool)
    ensures
        match *old(pending) {
            None => apply && *final(pending) == None::<PendingBrightness>,
            Some(p) => if p.percent == service_percent {
                apply && *final(pending) == None::<PendingBrightness>
            } else if now_ms < p.changed_at_ms || now_ms - p.changed_at_ms < BRIGHTNESS_ECHO_GRACE_MS {
                !apply && *final(pending) == *old(pending)
            } else {
                apply && *final(pending) == None::<PendingBrightness>
            },
        },
{
    let value = match *pending {
        None => return true,
        Some(value) => value,
    };
    if value.percent == service_percent {
        *pending = None;
        return true;
    }
    if now_ms < value.changed_at_ms || now_ms - value.changed_at_ms < BRIGHTNESS_ECHO_GRACE_MS {
        return false;
    }
    *pending = None;
    true
}

} // verus!
