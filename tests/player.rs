use termusic_player::{
    command_of_key, is_supported_extension, Command, DrawOp, KeyInput, Music, PlaybackState,
    Player, Screen, SinkAction,
};

const SCREEN: Screen = Screen { width: 120, height: 40 };

fn track(name: &str, duration_ms: u64) -> Music {
    Music { name: name.to_string(), path: format!("/music/{name}.mp3"), duration_ms }
}

fn two_tracks() -> Player {
    Player::new(vec![track("intro", 10_000), track("verse", 30_000)])
}

fn queue_names(p: &Player) -> Vec<String> {
    p.queue().iter().map(|&i| p.catalog()[i].name.clone()).collect()
}

fn filled_cells(draws: &[DrawOp]) -> usize {
    draws.iter().filter(|d| **d == DrawOp::Accent("■".to_string())).count()
}

#[test]
fn select_enqueue_clear_scenario() {
    let mut p = two_tracks();
    assert_eq!(p.selected(), 0);
    let r = p.handle(Command::CursorDown, SCREEN);
    assert_eq!(p.selected(), 1);
    assert_eq!(r.draws, vec![DrawOp::MoveTo(0, 3)]);
    let r = p.handle(Command::Select, SCREEN);
    assert_eq!(queue_names(&p), vec!["verse".to_string()]);
    assert_eq!(p.now_playing(), Some(1));
    assert_eq!(r.sink, vec![SinkAction::Stop, SinkAction::Append(1), SinkAction::Play]);
    assert!(r.draws.contains(&DrawOp::Accent("Now playing: verse".to_string())));
    assert!(r.draws.contains(&DrawOp::MoveTo(0, 38)));
    assert_eq!(p.engine().playback_state(), PlaybackState::Playing);
    let r = p.handle(Command::Enqueue, SCREEN);
    assert!(r.sink.is_empty());
    assert_eq!(queue_names(&p), vec!["verse".to_string(), "verse".to_string()]);
    let r = p.handle(Command::ClearQueue, SCREEN);
    assert!(p.queue().is_empty());
    assert_eq!(r.sink, vec![SinkAction::Stop]);
    assert_eq!(p.engine().playback_state(), PlaybackState::Stopped);
}

#[test]
fn volume_down_five_times_scenario() {
    let mut p = two_tracks();
    assert_eq!(p.engine().volume(), 10);
    let start = p.startup_view(SCREEN);
    assert_eq!(filled_cells(&start), 10);
    let mut last = Vec::new();
    for _ in 0..5 {
        last = p.handle(Command::VolumeDown, SCREEN).draws;
    }
    assert_eq!(p.engine().volume(), 5);
    assert_eq!(filled_cells(&last), 5);
    assert_eq!(last[1], DrawOp::MoveTo(109, 39));
    assert_eq!(last[3], DrawOp::MoveToColumn(109));
}

#[test]
fn cursor_stays_on_catalog_rows() {
    let mut p = Player::new(vec![track("a", 1), track("b", 2), track("c", 3)]);
    for _ in 0..10 {
        p.handle(Command::CursorUp, SCREEN);
        assert_eq!(p.selected(), 0);
    }
    for _ in 0..10 {
        p.handle(Command::CursorDown, SCREEN);
        assert!(p.selected() <= 2);
    }
    assert_eq!(p.selected(), 2);
    let r = p.handle(Command::CursorDown, SCREEN);
    assert!(r.draws.is_empty());
    p.handle(Command::CursorUp, SCREEN);
    assert_eq!(p.selected(), 1);
}

#[test]
fn cursor_on_empty_catalog() {
    let mut p = Player::new(Vec::new());
    p.handle(Command::CursorDown, SCREEN);
    p.handle(Command::CursorUp, SCREEN);
    assert_eq!(p.selected(), 0);
    let r = p.handle(Command::Select, SCREEN);
    assert!(r.sink.is_empty() && r.draws.is_empty());
    let r = p.handle(Command::Enqueue, SCREEN);
    assert!(r.draws.is_empty());
    assert!(p.queue().is_empty());
    assert_eq!(p.now_playing(), None);
}

#[test]
fn clear_on_empty_queue() {
    let mut p = two_tracks();
    let r = p.handle(Command::ClearQueue, SCREEN);
    assert!(p.queue().is_empty());
    assert_eq!(r.sink, vec![SinkAction::Stop]);
    assert_eq!(
        r.draws,
        vec![DrawOp::SavePosition, DrawOp::MoveTo(91, 2), DrawOp::RestorePosition]
    );
    assert_eq!(p.engine().playback_state(), PlaybackState::Stopped);
}

#[test]
fn clear_blanks_each_queued_line() {
    let mut p = two_tracks();
    p.handle(Command::Enqueue, SCREEN);
    p.handle(Command::Enqueue, SCREEN);
    let r = p.handle(Command::ClearQueue, SCREEN);
    let clears = r.draws.iter().filter(|d| **d == DrawOp::ClearUntilNewLine).count();
    assert_eq!(clears, 2);
}

#[test]
fn volume_settles_at_bounds() {
    let mut p = two_tracks();
    for _ in 0..7 {
        let r = p.handle(Command::VolumeUp, SCREEN);
        assert_eq!(r.sink, vec![SinkAction::SetVolume(10)]);
    }
    assert_eq!(p.engine().volume(), 10);
    for _ in 0..25 {
        p.handle(Command::VolumeDown, SCREEN);
    }
    assert_eq!(p.engine().volume(), 0);
    let r = p.handle(Command::VolumeDown, SCREEN);
    assert_eq!(r.sink, vec![SinkAction::SetVolume(0)]);
    assert_eq!(filled_cells(&r.draws), 0);
    let mut sink = Vec::new();
    let mut out = Vec::new();
    p.adjust_volume(3, SCREEN, &mut sink, &mut out);
    assert_eq!(p.engine().volume(), 3);
    p.adjust_volume(100, SCREEN, &mut sink, &mut out);
    assert_eq!(p.engine().volume(), 10);
}

#[test]
fn toggle_pause_twice_restores_state() {
    let mut p = two_tracks();
    p.handle(Command::Select, SCREEN);
    let r1 = p.handle(Command::TogglePause, SCREEN);
    assert!(p.engine().is_paused());
    assert_eq!(p.engine().playback_state(), PlaybackState::Paused);
    let r2 = p.handle(Command::TogglePause, SCREEN);
    assert!(!p.engine().is_paused());
    assert_eq!(r1.sink, vec![SinkAction::Pause]);
    assert_eq!(r2.sink, vec![SinkAction::Play]);
    assert_eq!(p.engine().playback_state(), PlaybackState::Playing);
}

#[test]
fn enqueue_n_times_then_clear() {
    let mut p = two_tracks();
    p.handle(Command::CursorDown, SCREEN);
    for _ in 0..4 {
        p.handle(Command::Enqueue, SCREEN);
    }
    assert_eq!(p.queue(), &vec![1usize, 1, 1, 1]);
    p.handle(Command::ClearQueue, SCREEN);
    assert_eq!(p.queue().len(), 0);
}

#[test]
fn play_queue_restarts_from_first_entry() {
    let mut p = two_tracks();
    p.handle(Command::Enqueue, SCREEN);
    p.handle(Command::CursorDown, SCREEN);
    p.handle(Command::Enqueue, SCREEN);
    let r = p.handle(Command::PlayQueue, SCREEN);
    assert_eq!(
        r.sink,
        vec![SinkAction::Stop, SinkAction::Append(0), SinkAction::Append(1), SinkAction::Play]
    );
    assert_eq!(p.now_playing(), Some(0));
    assert!(r.draws.contains(&DrawOp::Accent("Now playing: intro".to_string())));
}

#[test]
fn play_empty_queue_reports_and_plays_nothing() {
    let mut p = two_tracks();
    let r = p.handle(Command::PlayQueue, SCREEN);
    assert!(r.sink.is_empty());
    assert_eq!(p.now_playing(), None);
    assert!(r.draws.contains(&DrawOp::Accent("Queue is empty".to_string())));
}

#[test]
fn exit_stops_the_loop() {
    let mut p = two_tracks();
    assert!(p.is_running());
    let r = p.handle(Command::Exit, SCREEN);
    assert!(!p.is_running());
    assert!(r.sink.is_empty() && r.draws.is_empty());
}

#[test]
fn key_bindings() {
    assert_eq!(command_of_key(KeyInput::Esc, true), Some(Command::Exit));
    assert_eq!(command_of_key(KeyInput::Up, true), Some(Command::CursorUp));
    assert_eq!(command_of_key(KeyInput::Char('k'), true), Some(Command::CursorUp));
    assert_eq!(command_of_key(KeyInput::Down, true), Some(Command::CursorDown));
    assert_eq!(command_of_key(KeyInput::Char('j'), true), Some(Command::CursorDown));
    assert_eq!(command_of_key(KeyInput::Enter, true), Some(Command::Select));
    assert_eq!(command_of_key(KeyInput::Char(' '), true), Some(Command::TogglePause));
    assert_eq!(command_of_key(KeyInput::Char('q'), true), Some(Command::Enqueue));
    assert_eq!(command_of_key(KeyInput::Char('x'), true), Some(Command::ClearQueue));
    assert_eq!(command_of_key(KeyInput::Char('p'), true), Some(Command::PlayQueue));
    assert_eq!(command_of_key(KeyInput::Right, true), Some(Command::VolumeUp));
    assert_eq!(command_of_key(KeyInput::Char('l'), true), Some(Command::VolumeUp));
    assert_eq!(command_of_key(KeyInput::Left, true), Some(Command::VolumeDown));
    assert_eq!(command_of_key(KeyInput::Char('h'), true), Some(Command::VolumeDown));
    assert_eq!(command_of_key(KeyInput::Char('z'), true), None);
    assert_eq!(command_of_key(KeyInput::Other, true), None);
    assert_eq!(command_of_key(KeyInput::Enter, false), None);
}

#[test]
fn supported_extensions() {
    assert!(is_supported_extension("mp3"));
    assert!(!is_supported_extension("wav"));
    assert!(!is_supported_extension("MP3"));
    assert!(!is_supported_extension("mp"));
    assert!(!is_supported_extension(""));
}

#[test]
fn startup_view_layout() {
    let p = two_tracks();
    let v = p.startup_view(Screen { width: 100, height: 30 });
    assert_eq!(v[0], DrawOp::MoveTo(0, 2));
    assert_eq!(v[1], DrawOp::SavePosition);
    assert_eq!(v[3], DrawOp::Accent("#".to_string()));
    assert_eq!(v[4], DrawOp::MoveToColumn(3));
    assert_eq!(v[6], DrawOp::MoveToColumn(40));
    assert_eq!(v[8], DrawOp::MoveToColumn(91));
    assert_eq!(v[9], DrawOp::Accent("Queue".to_string()));
    assert_eq!(v[11], DrawOp::Accent("─".repeat(100)));
    assert_eq!(v[12], DrawOp::MoveTo(0, 2));
    assert_eq!(
        &v[13..23],
        &[
            DrawOp::Number(0),
            DrawOp::MoveToColumn(3),
            DrawOp::Text("intro".to_string()),
            DrawOp::MoveToColumn(40),
            DrawOp::Seconds(10_000),
            DrawOp::Text("s".to_string()),
            DrawOp::MoveToColumn(89),
            DrawOp::Accent("│".to_string()),
            DrawOp::MoveToNextLine(1),
            DrawOp::MoveToColumn(0),
        ]
    );
    assert_eq!(v[23], DrawOp::Number(1));
    assert_eq!(v[33], DrawOp::RestorePosition);
    assert_eq!(v[34], DrawOp::SavePosition);
    assert_eq!(v[35], DrawOp::MoveTo(91, 2));
    assert_eq!(v[36], DrawOp::RestorePosition);
    assert_eq!(v[38], DrawOp::MoveTo(89, 29));
    assert_eq!(filled_cells(&v), 10);
}

#[test]
fn narrow_screen_meter_starts_at_left_edge() {
    let mut p = two_tracks();
    let r = p.handle(Command::VolumeDown, Screen { width: 5, height: 0 });
    assert_eq!(r.draws[1], DrawOp::MoveTo(0, 0));
    assert_eq!(filled_cells(&r.draws), 9);
    assert_eq!(r.draws[r.draws.len() - 3], DrawOp::MoveToColumn(8));
}

#[test]
fn queue_panel_lists_names() {
    let mut p = two_tracks();
    p.handle(Command::Enqueue, SCREEN);
    p.handle(Command::CursorDown, SCREEN);
    let r = p.handle(Command::Enqueue, SCREEN);
    assert_eq!(
        r.draws,
        vec![
            DrawOp::SavePosition,
            DrawOp::MoveTo(91, 2),
            DrawOp::ClearUntilNewLine,
            DrawOp::Text("intro".to_string()),
            DrawOp::MoveToNextLine(1),
            DrawOp::MoveToColumn(91),
            DrawOp::ClearUntilNewLine,
            DrawOp::Text("verse".to_string()),
            DrawOp::MoveToNextLine(1),
            DrawOp::MoveToColumn(91),
            DrawOp::RestorePosition,
        ]
    );
}

#[test]
fn select_while_paused_starts_playback() {
    let mut p = two_tracks();
    p.handle(Command::TogglePause, SCREEN);
    assert!(p.engine().is_paused());
    let r = p.handle(Command::Select, SCREEN);
    assert_eq!(r.sink.last(), Some(&SinkAction::Play));
    assert!(!p.engine().is_paused());
    assert_eq!(p.engine().playback_state(), PlaybackState::Playing);
}

#[test]
fn play_queue_while_paused_starts_playback() {
    let mut p = two_tracks();
    p.handle(Command::Enqueue, SCREEN);
    p.handle(Command::TogglePause, SCREEN);
    let r = p.handle(Command::PlayQueue, SCREEN);
    assert_eq!(r.sink, vec![SinkAction::Stop, SinkAction::Append(0), SinkAction::Play]);
    assert_eq!(p.engine().playback_state(), PlaybackState::Playing);
}
