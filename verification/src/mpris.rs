//! Media player (MPRIS) applet: the player model, the texts derived from it,
//! and the choice of players listed in the popover.
use vstd::prelude::*;

use crate::text::{
    chars_of, concat_chars, decimal, decimal2, decimal2_chars, decimal_chars, eq_str, owned,
    replace_all, replace_str, string_of, strip_both, strip_both_chars, trim, trim_chars,
};

verus! {

/// The MPRIS playback status of a player.
#[derive(Debug, Clone, Copy, PartialEq, Eq, Structural)]
pub enum PlaybackStatus {
    Playing,
    Paused,
    Stopped,
}

/// One media player.
#[derive(Debug, Clone)]
pub struct Player {
    pub player_id: String,
    pub identity: String,
    pub playback_status: PlaybackStatus,
    pub title: String,
    pub artist: String,
    pub album: String,
    pub subtitle: String,
    /// Playback position in microseconds.
    pub position: Option<u64>,
    /// Track length in microseconds.
    pub length: Option<u64>,
    pub progress_visible: bool,
    pub can_play_pause: bool,
    pub can_go_next: bool,
    pub can_go_previous: bool,
    pub can_raise: bool,
}

impl Default for Player {
    fn default() -> (player: Self)
        ensures
            player.player_id@ == Seq::<char>::empty(),
            player.identity@ == Seq::<char>::empty(),
            player.playback_status == PlaybackStatus::Stopped,
            player.title@ == Seq::<char>::empty(),
            player.artist@ == Seq::<char>::empty(),
            player.album@ == Seq::<char>::empty(),
            player.subtitle@ == Seq::<char>::empty(),
            player.position is None,
            player.length is None,
            !player.progress_visible,
            !player.can_play_pause,
            !player.can_go_next,
            !player.can_go_previous,
            !player.can_raise,
    {
        Player {
            player_id: String::new(),
            identity: String::new(),
            playback_status: PlaybackStatus::Stopped,
            title: String::new(),
            artist: String::new(),
            album: String::new(),
            subtitle: String::new(),
            position: None,
            length: None,
            progress_visible: false,
            can_play_pause: false,
            can_go_next: false,
            can_go_previous: false,
            can_raise: false,
        }
    }
}

/// The players the service knows, and the one it considers current.
#[derive(Debug, Clone)]
pub struct Snapshot {
    pub current_player: Option<Player>,
    pub players: Vec<Player>,
}

/// What the media applet renders from.
#[derive(Debug, Clone)]
pub struct State {
    pub snapshot: Snapshot,
}

impl Default for State {
    fn default() -> (state: Self)
        ensures
            state.snapshot.current_player is None,
            state.snapshot.players@.len() == 0,
    {
        State { snapshot: Snapshot { current_player: None, players: Vec::new() } }
    }
}

/// The media applet's settings.
#[derive(Debug, Clone)]
pub struct Config {
    pub label_format: String,
    pub tooltip_format: String,
    pub hide_when_empty: bool,
    pub max_rows: usize,
    pub show_artwork: bool,
}

pub const DEFAULT_LABEL_FORMAT: &'static str = "{artist} - {title}";

pub const DEFAULT_TOOLTIP_FORMAT: &'static str = "{player}: {artist} - {title}";

pub const DEFAULT_MAX_ROWS: usize = 5;

impl Default for Config {
    fn default() -> (config: Self)
        ensures
            config.label_format@ == DEFAULT_LABEL_FORMAT@,
            config.tooltip_format@ == DEFAULT_TOOLTIP_FORMAT@,
            config.hide_when_empty,
            config.max_rows == DEFAULT_MAX_ROWS,
            config.show_artwork,
    {
        Config {
            label_format: owned(DEFAULT_LABEL_FORMAT),
            tooltip_format: owned(DEFAULT_TOOLTIP_FORMAT),
            hide_when_empty: true,
            max_rows: DEFAULT_MAX_ROWS,
            show_artwork: true,
        }
    }
}

impl Config {
    /// The number of popover rows, kept between 1 and 12.
    pub fn normalized_max_rows(&self) -> (rows: usize)
        ensures
            rows == (if self.max_rows < 1 {
                1
            } else if self.max_rows > 12 {
                12
            } else {
                self.max_rows
            }),
    {
        if self.max_rows < 1 {
            1
        } else if self.max_rows > 12 {
            12
        } else {
            self.max_rows
        }
    }
}

/// The first player in `s` that is not stopped.
pub open spec fn first_active(s: Seq<Player>) -> Option<Player>
    decreases s.len(),
{
    if s.len() == 0 {
        None
    } else if s[0].playback_status != PlaybackStatus::Stopped {
        Some(s[0])
    } else {
        first_active(s.drop_first())
    }
}

/// The player the panel shows: the current one unless it is stopped, else the
/// first player that is not stopped.
pub open spec fn visible_player(state: State) -> Option<Player> {
    match state.snapshot.current_player {
        Some(p) => if p.playback_status != PlaybackStatus::Stopped {
            Some(p)
        } else {
            first_active(state.snapshot.players@)
        },
        None => first_active(state.snapshot.players@),
    }
}

/// The capitalised name of a playback status.
pub open spec fn status_name(status: PlaybackStatus) -> Seq<char> {
    match status {
        PlaybackStatus::Playing => "Playing"@,
        PlaybackStatus::Paused => "Paused"@,
        PlaybackStatus::Stopped => "Stopped"@,
    }
}

/// `"{minutes}:{ss}"` for a time in microseconds.
pub open spec fn duration_text(micros: u64) -> Seq<char> {
    let total = micros as nat / 1_000_000;
    decimal(total / 60) + ":"@ + decimal2(total % 60)
}

/// An optional time in microseconds as text, empty when absent.
pub open spec fn opt_duration_text(micros: Option<u64>) -> Seq<char> {
    match micros {
        Some(m) => duration_text(m),
        None => Seq::empty(),
    }
}

/// The time left in the track, when both position and length are known.
pub open spec fn remaining_time(player: Player) -> Option<u64> {
    match (player.length, player.position) {
        (Some(l), Some(p)) => Some(if l >= p { (l - p) as u64 } else { 0 }),
        _ => None,
    }
}

/// The characters dropped from both ends of a rendered media template.
pub open spec fn label_edges() -> Seq<char> {
    seq![' ', '-', '\u{2014}', ':']
}

/// A media template with every placeholder filled in from `player`.
pub open spec fn placeholders_text(format: Seq<char>, player: Player) -> Seq<char> {
    trim(
        strip_both(
            replace_all(
                replace_all(
                    replace_all(
                        replace_all(
                            replace_all(
                                replace_all(
                                    replace_all(
                                        replace_all(
                                            replace_all(format, "{player}"@, player.identity@),
                                            "{artist}"@,
                                            player.artist@,
                                        ),
                                        "{title}"@,
                                        player.title@,
                                    ),
                                    "{track}"@,
                                    player.title@,
                                ),
                                "{album}"@,
                                player.album@,
                            ),
                            "{state}"@,
                            status_name(player.playback_status),
                        ),
                        "{position}"@,
                        opt_duration_text(player.position),
                    ),
                    "{duration}"@,
                    opt_duration_text(player.length),
                ),
                "{remaining}"@,
                opt_duration_text(remaining_time(player)),
            ),
            label_edges(),
        ),
    )
}

/// `"artist - title"`, else the title, else the player's name.
pub open spec fn fallback_text(player: Player) -> Seq<char> {
    if player.artist@.len() > 0 && player.title@.len() > 0 {
        player.artist@ + " - "@ + player.title@
    } else if player.title@.len() > 0 {
        player.title@
    } else {
        player.identity@
    }
}

/// The panel text for a template: empty without a visible player, the filled
/// template when it is not blank, the fallback otherwise.
pub open spec fn label_text(format: Seq<char>, state: State) -> Seq<char> {
    match visible_player(state) {
        None => Seq::empty(),
        Some(player) => {
            let formatted = trim(placeholders_text(format, player));
            if formatted.len() == 0 {
                fallback_text(player)
            } else {
                formatted
            }
        },
    }
}

/// The panel label.
pub fn label(format: &str, state: &State) -> (out: String)
    ensures
        out@ == label_text(format@, *state),
{
    let player = match current_visible_player(state) {
        Some(player) => player,
        None => return String::new(),
    };
    let formatted = trim_chars(&chars_of(replace_placeholders(format, player).as_str()));
    if formatted.len() == 0 {
        fallback_label(player)
    } else {
        string_of(&formatted)
    }
}

/// The tooltip (the same rendering as the label).
pub fn tooltip(format: &str, state: &State) -> (out: String)
    ensures
        out@ == label_text(format@, *state),
{
    let player = match current_visible_player(state) {
        Some(player) => player,
        None => return String::new(),
    };
    let formatted = trim_chars(&chars_of(replace_placeholders(format, player).as_str()));
    if formatted.len() == 0 {
        fallback_label(player)
    } else {
        string_of(&formatted)
    }
}

/// The capitalised name of a playback status.
pub fn playback_status_text(status: PlaybackStatus) -> (out: &'static str)
    ensures
        out@ == status_name(status),
{
    match status {
        PlaybackStatus::Playing => "Playing",
        PlaybackStatus::Paused => "Paused",
        PlaybackStatus::Stopped => "Stopped",
    }
}

/// The track title, or the player's name without one.
pub fn title(player: &Player) -> (out: String)
    ensures
        out@ == (if player.title@.len() == 0 { player.identity@ } else { player.title@ }),
{
    if player.title.as_str().is_empty() {
        player.identity.clone()
    } else {
        player.title.clone()
    }
}

/// `"artist · player"`, else `"subtitle · player"` when the subtitle says
/// something new, else the player's name.
pub fn subtitle(player: &Player) -> (out: String)
    ensures
        out@ == (if player.artist@.len() > 0 {
            player.artist@ + " \u{b7} "@ + player.identity@
        } else if player.subtitle@.len() > 0 && player.subtitle@ != player.identity@ {
            player.subtitle@ + " \u{b7} "@ + player.identity@
        } else {
            player.identity@
        }),
{
    let dot = chars_of(" \u{b7} ");
    if !player.artist.as_str().is_empty() {
        string_of(
            &concat_chars(
                &concat_chars(&chars_of(player.artist.as_str()), &dot),
                &chars_of(player.identity.as_str()),
            ),
        )
    } else if !player.subtitle.as_str().is_empty() && !eq_str(
        player.subtitle.as_str(),
        player.identity.as_str(),
    ) {
        string_of(
            &concat_chars(
                &concat_chars(&chars_of(player.subtitle.as_str()), &dot),
                &chars_of(player.identity.as_str()),
            ),
        )
    } else {
        player.identity.clone()
    }
}

/// A time in microseconds as `"m:ss"`.
pub fn duration(value_micros: u64) -> (out: String)
    ensures
        out@ == duration_text(value_micros),
{
    let total_seconds = value_micros / 1_000_000;
    let minutes = total_seconds / 60;
    let seconds = total_seconds % 60;
    let out = concat_chars(
        &concat_chars(&decimal_chars(minutes), &chars_of(":")),
        &decimal2_chars(seconds),
    );
    string_of(&out)
}

fn opt_duration(micros: Option<u64>) -> (out: Vec<char>)
    ensures
        out@ == opt_duration_text(micros),
{
    match micros {
        Some(m) => chars_of(duration(m).as_str()),
        None => Vec::new(),
    }
}

/// The player shown in the panel, if any.
pub fn current_visible_player(state: &State) -> (out: Option<&Player>)
    ensures
        visible_player(*state) matches Some(p) ==> out matches Some(q) && *q == p,
        visible_player(*state) is None ==> out is None,
{
    if let Some(player) = &state.snapshot.current_player {
        if player.playback_status != PlaybackStatus::Stopped {
            return Some(player);
        }
    }
    let players = &state.snapshot.players;
    let mut i: usize = 0;
    assert(players@.skip(0) =~= players@);
    while i < players.len()
        invariant
            i <= players.len(),
            first_active(players@.skip(i as int)) == first_active(players@),
            players == state.snapshot.players,
            visible_player(*state) == first_active(players@),
        decreases players.len() - i,
    {
        assert(players@.skip(i as int).drop_first() =~= players@.skip(i + 1));
        assert(players@.skip(i as int)[0] == players@[i as int]);
        if players[i].playback_status != PlaybackStatus::Stopped {
            return Some(&players[i]);
        }
        i += 1;
    }
    None
}

/// Fills in `{player}`, `{artist}`, `{title}`, `{track}`, `{album}`, `{state}`,
/// `{position}`, `{duration}` and `{remaining}`, then drops dangling spaces,
/// dashes and colons from both ends.
pub fn replace_placeholders(format: &str, player: &Player) -> (out: String)
    ensures
        out@ == placeholders_text(format@, *player),
{
    proof {
        reveal_strlit("{player}");
        reveal_strlit("{artist}");
        reveal_strlit("{title}");
        reveal_strlit("{track}");
        reveal_strlit("{album}");
        reveal_strlit("{state}");
        reveal_strlit("{position}");
        reveal_strlit("{duration}");
        reveal_strlit("{remaining}");
    }
    let t = chars_of(format);
    let s1 = replace_str(&t, "{player}", &chars_of(player.identity.as_str()));
    let s2 = replace_str(&s1, "{artist}", &chars_of(player.artist.as_str()));
    let title = chars_of(player.title.as_str());
    let s3 = replace_str(&s2, "{title}", &title);
    let s4 = replace_str(&s3, "{track}", &title);
    let s5 = replace_str(&s4, "{album}", &chars_of(player.album.as_str()));
    let s6 = replace_str(&s5, "{state}", &chars_of(playback_status_text(player.playback_status)));
    let s7 = replace_str(&s6, "{position}", &opt_duration(player.position));
    let s8 = replace_str(&s7, "{duration}", &opt_duration(player.length));
    let s9 = replace_str(&s8, "{remaining}", &opt_duration(remaining(player)));
    let edges = [' ', '-', '\u{2014}', ':'];
    assert(edges@ =~= label_edges());
    let stripped = strip_both_chars(&s9, &edges);
    string_of(&trim_chars(&stripped))
}

/// The time left in the track, saturating at zero.
pub fn remaining(player: &Player) -> (out: Option<u64>)
    ensures
        out == remaining_time(*player),
{
    match (player.length, player.position) {
        (Some(length), Some(position)) => Some(length.saturating_sub(position)),
        _ => None,
    }
}

/// The text used when a template renders blank.
pub fn fallback_label(player: &Player) -> (out: String)
    ensures
        out@ == fallback_text(*player),
{
    if !player.artist.as_str().is_empty() && !player.title.as_str().is_empty() {
        string_of(
            &concat_chars(
                &concat_chars(&chars_of(player.artist.as_str()), &chars_of(" - ")),
                &chars_of(player.title.as_str()),
            ),
        )
    } else if !player.title.as_str().is_empty() {
        player.title.clone()
    } else {
        player.identity.clone()
    }
}

/// The icon of the play/pause button for a status.
pub fn play_pause_icon(status: PlaybackStatus) -> (out: &'static str)
    ensures
        out@ == (if status == PlaybackStatus::Playing {
            "media-playback-pause-symbolic"@
        } else {
            "media-playback-start-symbolic"@
        }),
{
    match status {
        PlaybackStatus::Playing => "media-playback-pause-symbolic",
        PlaybackStatus::Paused | PlaybackStatus::Stopped => "media-playback-start-symbolic",
    }
}

/// Whether the current player shows a progress bar.
pub fn shows_progress(player: &Player) -> (out: bool)
    ensures
        out == (match (player.position, player.length) {
            (Some(_), Some(l)) => player.progress_visible && l > 0,
            _ => false,
        }),
{
    match (player.position, player.length) {
        (Some(_), Some(length)) => player.progress_visible && length > 0,
        _ => false,
    }
}

/// The players whose id differs from `current_id`, in order.
pub open spec fn others(players: Seq<Player>, current_id: Option<Seq<char>>) -> Seq<Player>
    decreases players.len(),
{
    if players.len() == 0 {
        Seq::empty()
    } else {
        let rest = others(players.drop_last(), current_id);
        if current_id == Some(players.last().player_id@) {
            rest
        } else {
            rest.push(players.last())
        }
    }
}

/// The players listed below the current one: all others, in order, so that the
/// popover holds at most `max_rows` players in all.
pub open spec fn other_players_list(
    players: Seq<Player>,
    current: Option<Player>,
    max_rows: nat,
) -> Seq<Player> {
    let limit: int = if current is Some {
        if max_rows >= 1 {
            max_rows - 1
        } else {
            0
        }
    } else {
        max_rows as int
    };
    let rest = others(
        players,
        match current {
            Some(p) => Some(p.player_id@),
            None => None,
        },
    );
    if rest.len() <= limit {
        rest
    } else {
        rest.take(limit)
    }
}

/// The players to list below the current one.
pub fn other_players(players: Vec<Player>, current: Option<&Player>, max_rows: usize) -> (out: Vec<
    Player,
>)
    ensures
        out@ == other_players_list(
            players@,
            match current {
                Some(p) => Some(*p),
                None => None,
            },
            max_rows as nat,
        ),
{
    let limit: usize = if current.is_some() {
        max_rows.saturating_sub(1)
    } else {
        max_rows
    };
    let ghost current_id: Option<Seq<char>> = match current {
        Some(p) => Some(p.player_id@),
        None => None,
    };
    let ghost all = players@;
    let mut kept: Vec<Player> = Vec::new();
    for player in it: players.into_iter()
        invariant
            all == it.seq(),
            current_id == (match current {
                Some(p) => Some(p.player_id@),
                None => None,
            }),
            kept@ == others(all.take(it.index() as int), current_id),
    {
        let ghost prefix = all.take(it.index() + 1);
        assert(prefix.drop_last() =~= all.take(it.index() as int));
        assert(prefix.last() == player);
        let skip = match current {
            Some(p) => eq_str(player.player_id.as_str(), p.player_id.as_str()),
            None => false,
        };
        if !skip {
            kept.push(player);
        }
    }
    assert(all.take(all.len() as int) =~= all);
    kept.truncate(limit);
    kept
}

/// A request to the media-player service.
#[derive(Debug, Clone, PartialEq, Eq)]
pub enum Command {
    Previous { player_id: String },
    PlayPause { player_id: String },
    Next { player_id: String },
    Raise { player_id: String },
}

/// What the media popover reports to the applet.
#[derive(Debug, Clone, PartialEq, Eq)]
pub enum PopoverOutput {
    Opened,
    Closed,
    Previous { player_id: String },
    PlayPause { player_id: String },
    Next { player_id: String },
    Raise { player_id: String },
}

/// What a player row reports to the popover.
#[derive(Debug, Clone, PartialEq, Eq)]
pub enum PlayerRowOutput {
    PlayPause { player_id: String },
    Raise { player_id: String },
}

/// The service command for what the popover reported; opening and closing
/// the popover ask for none.
pub fn command_for_popover_output(output: PopoverOutput) -> (out: Option<Command>)
    ensures
        out == (match output {
            PopoverOutput::Opened => None,
            PopoverOutput::Closed => None,
            PopoverOutput::Previous { player_id } => Some(Command::Previous { player_id }),
            PopoverOutput::PlayPause { player_id } => Some(Command::PlayPause { player_id }),
            PopoverOutput::Next { player_id } => Some(Command::Next { player_id }),
            PopoverOutput::Raise { player_id } => Some(Command::Raise { player_id }),
        }),
{
    match output {
        PopoverOutput::Opened | PopoverOutput::Closed => None,
        PopoverOutput::Previous { player_id } => Some(Command::Previous { player_id }),
        PopoverOutput::PlayPause { player_id } => Some(Command::PlayPause { player_id }),
        PopoverOutput::Next { player_id } => Some(Command::Next { player_id }),
        PopoverOutput::Raise { player_id } => Some(Command::Raise { player_id }),
    }
}

/// What the popover reports for what a player row reported.
pub fn row_output_to_popover_output(output: PlayerRowOutput) -> (out: PopoverOutput)
    ensures
        out == (match output {
            PlayerRowOutput::PlayPause { player_id } => PopoverOutput::PlayPause { player_id },
            PlayerRowOutput::Raise { player_id } => PopoverOutput::Raise { player_id },
        }),
{
    match output {
        PlayerRowOutput::PlayPause { player_id } => PopoverOutput::PlayPause { player_id },
        PlayerRowOutput::Raise { player_id } => PopoverOutput::Raise { player_id },
    }
}

proof fn lemma_first_active(s: Seq<Player>)
    ensures
        match first_active(s) {
            Some(p) => exists|j: int|
                0 <= j < s.len() && s[j] == p && p.playback_status != PlaybackStatus::Stopped && forall|k: int|
                    0 <= k < j ==> (#[trigger] s[k]).playback_status == PlaybackStatus::Stopped,
            None => forall|k: int| 0 <= k < s.len() ==> (#[trigger] s[k]).playback_status == PlaybackStatus::Stopped,
        },
    decreases s.len(),
{
    if s.len() > 0 {
        lemma_first_active(s.drop_first());
        if s[0].playback_status == PlaybackStatus::Stopped {
            match first_active(s.drop_first()) {
                Some(p) => {
                    let j = choose|j: int|
                        0 <= j < s.drop_first().len() && s.drop_first()[j] == p && p.playback_status
                            != PlaybackStatus::Stopped && forall|k: int|
                            0 <= k < j ==> (#[trigger] s.drop_first()[k]).playback_status == PlaybackStatus::Stopped;
                    assert(s[j + 1] == p);
                    assert forall|k: int| 0 <= k < j + 1 implies (#[trigger] s[k]).playback_status
                        == PlaybackStatus::Stopped by {
                        if k > 0 {
                            assert(s[k] == s.drop_first()[k - 1]);
                        }
                    }
                },
                None => {
                    assert forall|k: int| 0 <= k < s.len() implies (#[trigger] s[k]).playback_status
                        == PlaybackStatus::Stopped by {
                        if k > 0 {
                            assert(s[k] == s.drop_first()[k - 1]);
                        }
                    }
                },
            }
        } else {
            assert(s[0] == s[0]);
        }
    }
}

/// The panel shows a playing or paused player whenever there is one: the
/// current player unless it is stopped, else the first player in the list
/// that is not stopped; it shows none only when every player is stopped.
pub proof fn law_visible_player_is_active(state: State)
    ensures
        visible_player(state) matches Some(p) ==> p.playback_status != PlaybackStatus::Stopped,
        (exists|i: int|
            0 <= i < state.snapshot.players@.len() && (#[trigger] state.snapshot.players@[i]).playback_status
                != PlaybackStatus::Stopped) ==> visible_player(state) is Some,
        match state.snapshot.current_player {
            Some(c) => c.playback_status != PlaybackStatus::Stopped ==> visible_player(state) == Some(c),
            None => true,
        },
        (match state.snapshot.current_player {
            Some(c) => c.playback_status == PlaybackStatus::Stopped,
            None => true,
        }) ==> match visible_player(state) {
            Some(p) => exists|j: int|
                0 <= j < state.snapshot.players@.len() && state.snapshot.players@[j] == p && forall|k: int|
                    0 <= k < j ==> (#[trigger] state.snapshot.players@[k]).playback_status == PlaybackStatus::Stopped,
            None => forall|k: int|
                0 <= k < state.snapshot.players@.len() ==> (#[trigger] state.snapshot.players@[k]).playback_status
                    == PlaybackStatus::Stopped,
        },
{
    lemma_first_active(state.snapshot.players@);
}

} // verus!
