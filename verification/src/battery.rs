//! Battery applet: the battery status model and the texts the panel shows for it.
use vstd::prelude::*;

use crate::text::{
    chars_of, concat_chars, decimal, decimal2, decimal2_chars, decimal_chars, owned,
    replace_all, replace_str, string_of, strip_end, strip_end_chars,
};

verus! {

/// The charge state that UPower reports for a battery.
#[derive(Debug, Clone, Copy, PartialEq, Eq, Structural)]
pub enum BatteryState {
    Charging,
    Discharging,
    Empty,
    FullyCharged,
    PendingCharge,
    PendingDischarge,
    Unknown,
}

/// What the panel knows about the system battery.
#[derive(Debug, Clone)]
pub struct BatteryStatus {
    pub present: bool,
    pub on_battery: bool,
    pub percentage: u8,
    pub state: BatteryState,
    /// Seconds until empty, `<= 0` when unknown.
    pub time_to_empty: i64,
    /// Seconds until full, `<= 0` when unknown.
    pub time_to_full: i64,
    pub icon_name: String,
}

impl Default for BatteryStatus {
    fn default() -> (status: Self)
        ensures
            !status.present,
            !status.on_battery,
            status.percentage == 0,
            status.state == BatteryState::Unknown,
            status.time_to_empty == 0,
            status.time_to_full == 0,
            status.icon_name@ == Seq::<char>::empty(),
    {
        BatteryStatus {
            present: false,
            on_battery: false,
            percentage: 0,
            state: BatteryState::Unknown,
            time_to_empty: 0,
            time_to_full: 0,
            icon_name: String::new(),
        }
    }
}

/// The label and tooltip templates of the battery applet.
#[derive(Debug, Clone)]
pub struct Config {
    pub show_icon: bool,
    pub label_on_battery: String,
    pub label_on_ac: String,
    pub tooltip_on_battery: String,
    pub tooltip_on_ac: String,
    pub settings_command: String,
}

impl Default for Config {
    fn default() -> (config: Self)
        ensures
            config.show_icon,
            config.label_on_battery@ == Seq::<char>::empty(),
            config.label_on_ac@ == Seq::<char>::empty(),
            config.tooltip_on_battery@ == "{percentage}% {state}, {time_left}"@,
            config.tooltip_on_ac@ == "{percentage}% {state}"@,
            config.settings_command@ == Seq::<char>::empty(),
    {
        Config {
            show_icon: true,
            label_on_battery: String::new(),
            label_on_ac: String::new(),
            tooltip_on_battery: owned("{percentage}% {state}, {time_left}"),
            tooltip_on_ac: owned("{percentage}% {state}"),
            settings_command: String::new(),
        }
    }
}

/// The lower-case name of a battery state.
pub open spec fn state_name(state: BatteryState) -> Seq<char> {
    match state {
        BatteryState::Charging => "charging"@,
        BatteryState::Discharging => "discharging"@,
        BatteryState::Empty => "empty"@,
        BatteryState::FullyCharged => "fully charged"@,
        BatteryState::PendingCharge => "pending charge"@,
        BatteryState::PendingDischarge => "pending discharge"@,
        BatteryState::Unknown => "unknown"@,
    }
}

/// `"{h}h {mm}m"` or `"{m}m"` for a positive number of seconds, nothing otherwise.
pub open spec fn duration_text(seconds: int) -> Seq<char> {
    if seconds <= 0 {
        Seq::empty()
    } else {
        let minutes = seconds / 60;
        let hours = minutes / 60;
        let rest = minutes % 60;
        if hours > 0 {
            decimal(hours as nat) + "h "@ + decimal2(rest as nat) + "m"@
        } else {
            decimal(rest as nat) + "m"@
        }
    }
}

/// The time until empty on battery, or until full on AC.
pub open spec fn time_left_text(status: BatteryStatus) -> Seq<char> {
    duration_text(if status.on_battery { status.time_to_empty as int } else { status.time_to_full as int })
}

/// The characters that a rendered battery label drops from its end.
pub open spec fn label_tail() -> Seq<char> {
    seq![' ', ',', '-', '\u{2014}']
}

/// A battery template with its placeholders filled in.
pub open spec fn label_text(template: Seq<char>, status: BatteryStatus) -> Seq<char> {
    if template.len() == 0 {
        Seq::empty()
    } else {
        strip_end(
            replace_all(
                replace_all(
                    replace_all(template, "{percentage}"@, decimal(status.percentage as nat)),
                    "{state}"@,
                    state_name(status.state),
                ),
                "{time_left}"@,
                time_left_text(status),
            ),
            label_tail(),
        )
    }
}

/// The sentence shown under the battery hero.
pub open spec fn state_sentence(status: BatteryStatus) -> Seq<char> {
    match status.state {
        BatteryState::Discharging => if status.time_to_empty > 0 {
            "Discharging \u{2014} "@ + duration_text(status.time_to_empty as int) + " remaining"@
        } else {
            "Discharging"@
        },
        BatteryState::Charging => if status.time_to_full > 0 {
            "Charging \u{2014} "@ + duration_text(status.time_to_full as int) + " until full"@
        } else {
            "Charging"@
        },
        BatteryState::FullyCharged => "Fully charged"@,
        BatteryState::PendingCharge => "Plugged in, not charging"@,
        BatteryState::PendingDischarge => "Plugged in"@,
        BatteryState::Unknown | BatteryState::Empty => Seq::empty(),
    }
}

/// Renders a label template: `{percentage}`, `{state}` and `{time_left}` are
/// filled in, and spaces, commas and dashes left dangling at the end are dropped.
pub fn label(template: &str, status: &BatteryStatus) -> (out: String)
    ensures
        out@ == label_text(template@, *status),
{
    if template.is_empty() {
        return String::new();
    }
    proof {
        reveal_strlit("{percentage}");
        reveal_strlit("{state}");
        reveal_strlit("{time_left}");
    }
    let t = chars_of(template);
    let percentage = decimal_chars(status.percentage as u64);
    let step1 = replace_str(&t, "{percentage}", &percentage);
    let name = chars_of(state(&status.state));
    let step2 = replace_str(&step1, "{state}", &name);
    let left = chars_of(time_left(status).as_str());
    let step3 = replace_str(&step2, "{time_left}", &left);
    let tail = ['\u{20}', ',', '-', '\u{2014}'];
    assert(tail@ =~= label_tail());
    let out = strip_end_chars(&step3, &tail);
    string_of(&out)
}

/// The lower-case name of a battery state.
pub fn state(value: &BatteryState) -> (out: &'static str)
    ensures
        out@ == state_name(*value),
{
    match value {
        BatteryState::Charging => "charging",
        BatteryState::Discharging => "discharging",
        BatteryState::Empty => "empty",
        BatteryState::FullyCharged => "fully charged",
        BatteryState::PendingCharge => "pending charge",
        BatteryState::PendingDischarge => "pending discharge",
        BatteryState::Unknown => "unknown",
    }
}

/// The time until empty (on battery) or until full (on AC), as a duration.
pub fn time_left(status: &BatteryStatus) -> (out: String)
    ensures
        out@ == time_left_text(*status),
{
    let seconds = if status.on_battery {
        status.time_to_empty
    } else {
        status.time_to_full
    };
    duration(seconds)
}

/// Formats a number of seconds as `"1h 05m"` or `"9m"`; empty for `seconds <= 0`.
pub fn duration(seconds: i64) -> (out: String)
    ensures
        out@ == duration_text(seconds as int),
{
    if seconds <= 0 {
        return String::new();
    }
    let minutes = seconds / 60;
    let hours = minutes / 60;
    let remaining_minutes = minutes % 60;
    if hours > 0 {
        let h = decimal_chars(hours as u64);
        let m = decimal2_chars(remaining_minutes as u64);
        let out = concat_chars(&concat_chars(&concat_chars(&h, &chars_of("h ")), &m), &chars_of("m"));
        string_of(&out)
    } else {
        let m = decimal_chars(remaining_minutes as u64);
        let out = concat_chars(&m, &chars_of("m"));
        string_of(&out)
    }
}

/// The battery model name, or an em dash when it is unknown.
pub fn optional_model(model: String) -> (out: String)
    ensures
        out@ == (if model@.len() == 0 { "\u{2014}"@ } else { model@ }),
{
    if model.as_str().is_empty() {
        owned("\u{2014}")
    } else {
        model
    }
}

/// The sentence describing the charge state, with the remaining time when known.
pub fn state_text(status: &BatteryStatus) -> (out: String)
    ensures
        out@ == state_sentence(*status),
{
    match status.state {
        BatteryState::Discharging => {
            if status.time_to_empty > 0 {
                let d = chars_of(duration(status.time_to_empty).as_str());
                let out = concat_chars(
                    &concat_chars(&chars_of("Discharging \u{2014} "), &d),
                    &chars_of(" remaining"),
                );
                string_of(&out)
            } else {
                owned("Discharging")
            }
        },
        BatteryState::Charging => {
            if status.time_to_full > 0 {
                let d = chars_of(duration(status.time_to_full).as_str());
                let out = concat_chars(
                    &concat_chars(&chars_of("Charging \u{2014} "), &d),
                    &chars_of(" until full"),
                );
                string_of(&out)
            } else {
                owned("Charging")
            }
        },
        BatteryState::FullyCharged => owned("Fully charged"),
        BatteryState::PendingCharge => owned("Plugged in, not charging"),
        BatteryState::PendingDischarge => owned("Plugged in"),
        BatteryState::Unknown | BatteryState::Empty => String::new(),
    }
}

/// The label and tooltip templates that apply: the on-battery ones on battery,
/// otherwise the on-AC ones, each falling back to its on-battery twin when empty.
pub fn select_templates<'a>(config: &'a Config, status: &BatteryStatus) -> (out: (&'a str, &'a str))
    ensures
        status.on_battery ==> out.0@ == config.label_on_battery@ && out.1@
            == config.tooltip_on_battery@,
        !status.on_battery ==> out.0@ == (if config.label_on_ac@.len() == 0 {
            config.label_on_battery@
        } else {
            config.label_on_ac@
        }) && out.1@ == (if config.tooltip_on_ac@.len() == 0 {
            config.tooltip_on_battery@
        } else {
            config.tooltip_on_ac@
        }),
{
    if status.on_battery {
        (config.label_on_battery.as_str(), config.tooltip_on_battery.as_str())
    } else {
        let label = if config.label_on_ac.as_str().is_empty() {
            config.label_on_battery.as_str()
        } else {
            config.label_on_ac.as_str()
        };
        let tooltip = if config.tooltip_on_ac.as_str().is_empty() {
            config.tooltip_on_battery.as_str()
        } else {
            config.tooltip_on_ac.as_str()
        };
        (label, tooltip)
    }
}

/// The time left counts down to empty on battery and up to full on AC: on
/// battery it is the duration of `time_to_empty` (whatever `time_to_full`
/// says), on AC that of `time_to_full` (whatever `time_to_empty` says).
pub proof fn law_time_left_follows_the_power_source(status: BatteryStatus, other: i64)
    ensures
        status.on_battery ==> time_left_text(status) == duration_text(status.time_to_empty as int),
        !status.on_battery ==> time_left_text(status) == duration_text(status.time_to_full as int),
        status.on_battery ==> time_left_text(status) == time_left_text(
            BatteryStatus { time_to_full: other, ..status },
        ),
        !status.on_battery ==> time_left_text(status) == time_left_text(
            BatteryStatus { time_to_empty: other, ..status },
        ),
        status.on_battery && status.time_to_empty == 9000 ==> time_left_text(status) =~= "2h 30m"@,
{
    reveal_strlit("h ");
    reveal_strlit("m");
    reveal_strlit("2h 30m");
    assert(decimal(2) =~= seq!['2']);
    assert(decimal(3) =~= seq!['3']);
    assert(decimal(30) =~= seq!['3', '0']);
    assert(decimal2(30) =~= seq!['3', '0']);
}

} // verus!
