use glimpse_shell::clipboard::{clear_action_available, label as clipboard_label, Config as ClipboardConfig, State as ClipboardState};
use glimpse_shell::mpris::{
    command_for_popover_output, other_players, play_pause_icon, Command, Config, PlaybackStatus,
    Player, PopoverOutput,
};
use glimpse_shell::row_sync::{row_sync_ops, RowSyncOp};

fn player(player_id: &str, status: PlaybackStatus) -> Player {
    Player {
        player_id: player_id.into(),
        playback_status: status,
        ..Default::default()
    }
}

#[test]
fn max_rows_is_clamped_to_a_small_popover_limit() {
    let mut config = Config {
        max_rows: 0,
        ..Default::default()
    };
    assert_eq!(config.normalized_max_rows(), 1);

    config.max_rows = 99;
    assert_eq!(config.normalized_max_rows(), 12);
}

#[test]
fn popover_outputs_map_to_service_commands() {
    assert_eq!(
        command_for_popover_output(PopoverOutput::PlayPause {
            player_id: "spotify".into()
        }),
        Some(Command::PlayPause {
            player_id: "spotify".into()
        })
    );
    assert_eq!(command_for_popover_output(PopoverOutput::Opened), None);
}

#[test]
fn current_player_play_pause_icon_tracks_status() {
    assert_eq!(
        play_pause_icon(PlaybackStatus::Playing),
        "media-playback-pause-symbolic"
    );
    assert_eq!(
        play_pause_icon(PlaybackStatus::Paused),
        "media-playback-start-symbolic"
    );
}

#[test]
fn player_row_play_pause_icon_tracks_status() {
    assert_eq!(
        play_pause_icon(PlaybackStatus::Playing),
        "media-playback-pause-symbolic"
    );
    assert_eq!(
        play_pause_icon(PlaybackStatus::Paused),
        "media-playback-start-symbolic"
    );
}

#[test]
fn other_players_excludes_current_and_respects_total_limit() {
    let current = player("spotify", PlaybackStatus::Playing);
    let players = vec![
        current.clone(),
        player("firefox", PlaybackStatus::Paused),
        player("mpv", PlaybackStatus::Paused),
    ];

    let ids = other_players(players, Some(&current), 2)
        .into_iter()
        .map(|player| player.player_id)
        .collect::<Vec<_>>();

    assert_eq!(ids, vec!["firefox"]);
}

#[test]
fn row_sync_ops_reuses_existing_player_ids() {
    let current: Vec<String> = vec!["spotify".into(), "firefox".into()];
    let next: Vec<String> = vec!["firefox".into(), "mpv".into()];
    let ops = row_sync_ops(&current, &next);

    assert_eq!(
        ops,
        vec![
            RowSyncOp::Move { from: 1, to: 0 },
            RowSyncOp::Insert { at: 1 },
            RowSyncOp::Remove { at: 2 },
        ]
    );
}

#[test]
fn row_sync_ops_preserves_move_insert_and_remove_order() {
    let current: Vec<usize> = vec![1, 2, 3];
    let next: Vec<usize> = vec![2, 4, 1];
    assert_eq!(
        row_sync_ops(&current, &next),
        vec![
            RowSyncOp::Move { from: 1, to: 0 },
            RowSyncOp::Insert { at: 1 },
            RowSyncOp::Remove { at: 3 },
        ]
    );
}

#[test]
fn config_defaults_to_empty_label_and_hidden_empty_state() {
    let config = ClipboardConfig::default();

    assert_eq!(config.label_format, "");
    assert!(!config.show_when_empty);
}

#[test]
fn clear_action_requires_available_history() {
    let mut state = ClipboardState::default();
    assert!(!clear_action_available(&state));

    state.available = true;
    assert!(!clear_action_available(&state));
}

#[test]
fn renders_count_and_state_placeholders() {
    let state = ClipboardState {
        available: true,
        ..ClipboardState::default()
    };

    assert_eq!(clipboard_label("{count}:{state}", &state), "0:available");
}
