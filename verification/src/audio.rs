//! Audio applet: the PulseAudio/PipeWire device model and the panel texts.
use vstd::prelude::*;

use crate::text::{
    chars_of, decimal, decimal_chars, replace_all, replace_str, string_of, strip_end,
    strip_end_chars,
};

verus! {

/// An audio sink or source.
#[derive(Debug, Clone)]
pub struct AudioDevice {
    pub index: u32,
    pub name: String,
    pub description: String,
    /// Volume in percent.
    pub volume: u32,
    pub muted: bool,
    pub is_default: bool,
    pub icon_name: String,
}

/// An application playing sound.
#[derive(Debug, Clone)]
pub struct AudioStream {
    pub index: u32,
    pub app_name: String,
    pub app_icon: String,
    /// Volume in percent.
    pub volume: u32,
    pub muted: bool,
}

/// What the audio applet renders from.
#[derive(Debug, Clone)]
pub struct State {
    pub available: bool,
    pub outputs: Vec<AudioDevice>,
    pub inputs: Vec<AudioDevice>,
    pub streams: Vec<AudioStream>,
}

impl Default for State {
    fn default() -> (state: Self)
        ensures
            !state.available,
            state.outputs@.len() == 0,
            state.inputs@.len() == 0,
            state.streams@.len() == 0,
    {
        State { available: false, outputs: Vec::new(), inputs: Vec::new(), streams: Vec::new() }
    }
}

/// A request to the audio service.
#[derive(Debug, Clone, PartialEq, Eq)]
pub enum Command {
    SetOutputVolume(u32),
    SetInputVolume(u32),
    ToggleOutputMute,
    ToggleInputMute,
    SetDefaultOutput(String),
    SetDefaultInput(String),
    ToggleStreamMute(u32),
}

pub const DEFAULT_LABEL_FORMAT: &'static str = "";

pub const DEFAULT_TOOLTIP_FORMAT: &'static str = "{device} - {volume}%";

/// The first device marked as the default.
pub open spec fn first_default(s: Seq<AudioDevice>) -> Option<AudioDevice>
    decreases s.len(),
{
    if s.len() == 0 {
        None
    } else if s[0].is_default {
        Some(s[0])
    } else {
        first_default(s.drop_first())
    }
}

/// The state word for `{state}`.
pub open spec fn state_word(state: State) -> Seq<char> {
    if !state.available {
        "unavailable"@
    } else if first_default(state.outputs@) is Some {
        "ready"@
    } else {
        "no-output"@
    }
}

/// A device's volume as text, empty without a device.
pub open spec fn volume_text(device: Option<AudioDevice>) -> Seq<char> {
    match device {
        Some(d) => decimal(d.volume as nat),
        None => Seq::empty(),
    }
}

/// A device's description, empty without a device.
pub open spec fn description_text(device: Option<AudioDevice>) -> Seq<char> {
    match device {
        Some(d) => d.description@,
        None => Seq::empty(),
    }
}

/// The characters a rendered audio template drops from its end.
pub open spec fn render_tail() -> Seq<char> {
    seq![' ', ',', '-']
}

/// An audio template with its placeholders filled in.
pub open spec fn render_text(template: Seq<char>, state: State) -> Seq<char> {
    if template.len() == 0 {
        Seq::empty()
    } else {
        let output = first_default(state.outputs@);
        let input = first_default(state.inputs@);
        strip_end(
            replace_all(
                replace_all(
                    replace_all(
                        replace_all(
                            replace_all(template, "{state}"@, state_word(state)),
                            "{volume}"@,
                            volume_text(output),
                        ),
                        "{device}"@,
                        description_text(output),
                    ),
                    "{input_volume}"@,
                    volume_text(input),
                ),
                "{input_device}"@,
                description_text(input),
            ),
            render_tail(),
        )
    }
}

fn find_default(devices: &Vec<AudioDevice>) -> (out: Option<&AudioDevice>)
    ensures
        first_default(devices@) matches Some(d) ==> out matches Some(e) && *e == d,
        first_default(devices@) is None ==> out is None,
{
    let mut i: usize = 0;
    assert(devices@.skip(0) =~= devices@);
    while i < devices.len()
        invariant
            i <= devices.len(),
            first_default(devices@.skip(i as int)) == first_default(devices@),
        decreases devices.len() - i,
    {
        assert(devices@.skip(i as int).drop_first() =~= devices@.skip(i + 1));
        assert(devices@.skip(i as int)[0] == devices@[i as int]);
        if devices[i].is_default {
            return Some(&devices[i]);
        }
        i += 1;
    }
    None
}

impl State {
    /// The default output device.
    pub fn default_output(&self) -> (out: Option<&AudioDevice>)
        ensures
            first_default(self.outputs@) matches Some(d) ==> out matches Some(e) && *e == d,
            first_default(self.outputs@) is None ==> out is None,
    {
        find_default(&self.outputs)
    }

    /// The default input device.
    pub fn default_input(&self) -> (out: Option<&AudioDevice>)
        ensures
            first_default(self.inputs@) matches Some(d) ==> out matches Some(e) && *e == d,
            first_default(self.inputs@) is None ==> out is None,
    {
        find_default(&self.inputs)
    }
}

/// The panel label for a template.
pub fn label(template: &str, state: &State) -> (out: String)
    ensures
        out@ == render_text(template@, *state),
{
    render(template, state)
}

/// The tooltip for a template.
pub fn tooltip(template: &str, state: &State) -> (out: String)
    ensures
        out@ == render_text(template@, *state),
{
    render(template, state)
}

fn volume_chars(device: Option<&AudioDevice>) -> (out: Vec<char>)
    ensures
        out@ == volume_text(match device { Some(d) => Some(*d), None => None }),
{
    match device {
        Some(d) => decimal_chars(d.volume as u64),
        None => Vec::new(),
    }
}

fn description_chars(device: Option<&AudioDevice>) -> (out: Vec<char>)
    ensures
        out@ == description_text(match device { Some(d) => Some(*d), None => None }),
{
    match device {
        Some(d) => chars_of(d.description.as_str()),
        None => Vec::new(),
    }
}

/// Fills in `{state}`, `{volume}`, `{device}`, `{input_volume}` and
/// `{input_device}`, then drops dangling spaces, commas and dashes at the end.
pub fn render(template: &str, state: &State) -> (out: String)
    ensures
        out@ == render_text(template@, *state),
{
    if template.is_empty() {
        return String::new();
    }
    proof {
        reveal_strlit("{state}");
        reveal_strlit("{volume}");
        reveal_strlit("{device}");
        reveal_strlit("{input_volume}");
        reveal_strlit("{input_device}");
    }
    let output = state.default_output();
    let input = state.default_input();
    let t = chars_of(template);
    let s1 = replace_str(&t, "{state}", &chars_of(state_label(state)));
    let s2 = replace_str(&s1, "{volume}", &volume_chars(output));
    let s3 = replace_str(&s2, "{device}", &description_chars(output));
    let s4 = replace_str(&s3, "{input_volume}", &volume_chars(input));
    let s5 = replace_str(&s4, "{input_device}", &description_chars(input));
    let tail = [' ', ',', '-'];
    assert(tail@ =~= render_tail());
    string_of(&strip_end_chars(&s5, &tail))
}

/// The state word for `{state}`.
pub fn state_label(state: &State) -> (out: &'static str)
    ensures
        out@ == state_word(*state),
{
    if !state.available {
        "unavailable"
    } else if state.default_output().is_some() {
        "ready"
    } else {
        "no-output"
    }
}

/// Whether the default input is muted (false without one).
pub fn input_muted(state: &State) -> (out: bool)
    ensures
        out == (match first_default(state.inputs@) {
            Some(d) => d.muted,
            None => false,
        }),
{
    match state.default_input() {
        Some(device) => device.muted,
        None => false,
    }
}

} // verus!
