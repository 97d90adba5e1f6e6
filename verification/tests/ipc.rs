use netease_cloud_music_gtk4::ipc::{ActivityPlan, DiscordCommand, IpcAction, IpcSession};

fn update(lyric: Option<&str>, playing: bool, duration: u64, position: u64) -> DiscordCommand {
    DiscordCommand::UpdateActivity {
        song_name: "Song".to_string(),
        artist: "Singer".to_string(),
        album: "Album".to_string(),
        pic_url: "http://pic".to_string(),
        duration_secs: duration,
        position_secs: position,
        playing,
        current_lyric: lyric.map(|s| s.to_string()),
    }
}

fn plan_of(a: IpcAction) -> ActivityPlan {
    match a {
        IpcAction::SetActivity(p) => p,
        _ => panic!("expected an activity"),
    }
}

#[test]
fn connected_update_sets_activity() {
    let mut s = IpcSession::new(true);
    let p = plan_of(s.on_command(update(Some("la la"), true, 200, 30), 1_000_000));
    assert_eq!(p.name, "Song");
    assert_eq!(p.details, "Song");
    assert_eq!(p.state, "♪ la la");
    assert_eq!(p.timestamps, Some((999_970, 1_000_170)));
    assert_eq!(p.large_image, Some("http://pic".to_string()));
    assert_eq!(p.large_text, Some("Album".to_string()));
    assert!(!s.awaiting_reconnect());
}

#[test]
fn update_without_lyric_shows_artist_and_paused_has_no_bar() {
    let mut s = IpcSession::new(true);
    let p = plan_of(s.on_command(update(None, false, 200, 30), 1000));
    assert_eq!(p.state, "by Singer");
    assert_eq!(p.timestamps, None);
    let p = plan_of(s.on_command(update(Some(""), true, 0, 0), 1000));
    assert_eq!(p.state, "by Singer");
    assert_eq!(p.timestamps, None);
}

#[test]
fn assets_follow_album_and_cover() {
    let mut s = IpcSession::new(true);
    let cmd = DiscordCommand::UpdateActivity {
        song_name: "S".to_string(),
        artist: "A".to_string(),
        album: String::new(),
        pic_url: "http://pic".to_string(),
        duration_secs: 10,
        position_secs: 0,
        playing: true,
        current_lyric: None,
    };
    let p = plan_of(s.on_command(cmd, 50));
    assert_eq!(p.large_image, Some("http://pic".to_string()));
    assert_eq!(p.large_text, None);
    let cmd = DiscordCommand::UpdateActivity {
        song_name: "S".to_string(),
        artist: "A".to_string(),
        album: String::new(),
        pic_url: String::new(),
        duration_secs: 10,
        position_secs: 0,
        playing: true,
        current_lyric: None,
    };
    let p = plan_of(s.on_command(cmd, 50));
    assert_eq!(p.large_image, None);
    assert_eq!(p.large_text, None);
}

#[test]
fn disconnected_update_reconnects_then_sends() {
    let mut s = IpcSession::new(false);
    assert!(matches!(s.on_command(update(None, true, 100, 10), 500), IpcAction::Reconnect));
    assert!(s.awaiting_reconnect());
    let p = plan_of(s.on_reconnect(true));
    assert_eq!(p.timestamps, Some((490, 590)));
    assert!(!s.awaiting_reconnect());
    // Now connected: the next update goes straight out.
    assert!(matches!(s.on_command(update(None, true, 100, 11), 501), IpcAction::SetActivity(_)));
}

#[test]
fn failed_reconnect_sends_nothing_but_keeps_song() {
    let mut s = IpcSession::new(false);
    assert!(matches!(s.on_command(update(None, true, 100, 10), 500), IpcAction::Reconnect));
    assert!(matches!(s.on_reconnect(false), IpcAction::Wait));
    // Still disconnected: a lyric update asks to reconnect again, then uses the kept song.
    assert!(matches!(
        s.on_command(DiscordCommand::UpdateLyric { lyric: "line".to_string() }, 600),
        IpcAction::Reconnect
    ));
    let p = plan_of(s.on_reconnect(true));
    assert_eq!(p.state, "♪ line");
    assert_eq!(p.timestamps, Some((490, 590)));
}

#[test]
fn lyric_update_without_song_does_nothing() {
    let mut s = IpcSession::new(true);
    assert!(matches!(
        s.on_command(DiscordCommand::UpdateLyric { lyric: "x".to_string() }, 1),
        IpcAction::Wait
    ));
    let mut s = IpcSession::new(false);
    assert!(matches!(
        s.on_command(DiscordCommand::UpdateLyric { lyric: "x".to_string() }, 1),
        IpcAction::Reconnect
    ));
    assert!(matches!(s.on_reconnect(true), IpcAction::Wait));
}

#[test]
fn lyric_update_always_shows_bar_and_empty_lyric_shows_artist() {
    let mut s = IpcSession::new(true);
    s.on_command(update(None, false, 100, 20), 1000);
    let p = plan_of(s.on_command(DiscordCommand::UpdateLyric { lyric: String::new() }, 2000));
    assert_eq!(p.state, "by Singer");
    assert_eq!(p.timestamps, Some((980, 1080)));
}

#[test]
fn play_state_resyncs_bar_and_hides_it_when_paused() {
    let mut s = IpcSession::new(true);
    s.on_command(update(None, true, 100, 20), 1000);
    let p = plan_of(s.on_command(DiscordCommand::UpdatePlayState { playing: false, position_secs: 50 }, 5000));
    assert_eq!(p.name, "Song");
    assert_eq!(p.state, "⏸ paused");
    assert_eq!(p.timestamps, None);
    let p = plan_of(s.on_command(DiscordCommand::UpdatePlayState { playing: true, position_secs: 50 }, 5000));
    assert_eq!(p.state, "♪ playing");
    // The bar is put back in sync with the position.
    assert_eq!(p.timestamps, Some((4950, 5050)));
    // Later lyric updates use the resynced start.
    let p = plan_of(s.on_command(DiscordCommand::UpdateLyric { lyric: "x".to_string() }, 5001));
    assert_eq!(p.timestamps, Some((4950, 5050)));
    let mut empty = IpcSession::new(true);
    assert!(matches!(
        empty.on_command(DiscordCommand::UpdatePlayState { playing: true, position_secs: 0 }, 1),
        IpcAction::Wait
    ));
}

#[test]
fn play_state_is_sent_even_when_disconnected() {
    let mut s = IpcSession::new(true);
    s.on_command(update(None, true, 100, 20), 1000);
    s.on_activity_result(false);
    assert!(matches!(
        s.on_command(DiscordCommand::UpdatePlayState { playing: false, position_secs: 0 }, 1001),
        IpcAction::SetActivity(_)
    ));
}

#[test]
fn clear_activity_forgets_song() {
    let mut s = IpcSession::new(true);
    s.on_command(update(None, true, 100, 20), 1000);
    assert!(matches!(s.on_command(DiscordCommand::ClearActivity, 1001), IpcAction::ClearActivity));
    assert!(matches!(
        s.on_command(DiscordCommand::UpdatePlayState { playing: true, position_secs: 0 }, 1002),
        IpcAction::Wait
    ));
    s.on_activity_result(false);
    assert!(matches!(s.on_command(DiscordCommand::ClearActivity, 1003), IpcAction::Wait));
}

#[test]
fn failed_send_disconnects() {
    let mut s = IpcSession::new(true);
    s.on_activity_result(true);
    assert!(matches!(s.on_command(update(None, true, 1, 0), 1), IpcAction::SetActivity(_)));
    s.on_activity_result(false);
    assert!(matches!(s.on_command(update(None, true, 1, 0), 1), IpcAction::Reconnect));
}

#[test]
fn lyrics_commands_go_to_the_store() {
    let mut s = IpcSession::new(true);
    match s.on_command(DiscordCommand::SetLyrics { lyrics: vec![(1, "a".to_string())] }, 0) {
        IpcAction::StoreLyrics(l) => assert_eq!(l, vec![(1, "a".to_string())]),
        _ => panic!("expected StoreLyrics"),
    }
    assert!(matches!(s.on_command(DiscordCommand::ClearLyrics, 0), IpcAction::ClearLyrics));
}

#[test]
fn shutdown_closes_only_when_connected() {
    let mut s = IpcSession::new(true);
    assert!(matches!(s.on_command(DiscordCommand::Shutdown, 0), IpcAction::Stop { close: true }));
    assert!(s.is_stopped());
    let mut s = IpcSession::new(false);
    assert!(matches!(s.on_command(DiscordCommand::Shutdown, 0), IpcAction::Stop { close: false }));
    let mut s = IpcSession::new(true);
    assert!(matches!(s.on_channel_closed(), IpcAction::Stop { close: true }));
    assert!(s.is_stopped());
}

#[test]
fn play_state_keeps_start_when_resync_overflows() {
    let mut s = IpcSession::new(true);
    s.on_command(update(None, true, 100, 20), 1000);
    let p = plan_of(s.on_command(
        DiscordCommand::UpdatePlayState { playing: true, position_secs: 10 },
        i64::MIN + 5,
    ));
    assert_eq!(p.timestamps, Some((980, 1080)));
}

#[test]
fn uncuttable_lyric_waits_for_reconnect() {
    // 117 bytes would fall inside the second byte of a two-byte character.
    let lyric = format!("{}{}", "a".repeat(116), "é".repeat(10));
    assert!(lyric.len() > 120 && !lyric.is_char_boundary(117));
    let mut s = IpcSession::new(false);
    let cmd = DiscordCommand::UpdateActivity {
        song_name: "S".to_string(),
        artist: "A".to_string(),
        album: String::new(),
        pic_url: String::new(),
        duration_secs: 10,
        position_secs: 0,
        playing: true,
        current_lyric: Some(lyric.clone()),
    };
    assert!(matches!(s.on_command(cmd, 50), IpcAction::Reconnect));
    assert_eq!(s.pending_lyric(), Some(&lyric));
    // A failed reconnect never cuts the lyric.
    assert!(matches!(s.on_reconnect(false), IpcAction::Wait));
    assert_eq!(s.pending_lyric(), None);
    assert!(matches!(
        s.on_command(DiscordCommand::UpdateLyric { lyric: lyric.clone() }, 60),
        IpcAction::Reconnect
    ));
    assert_eq!(s.pending_lyric(), Some(&lyric));
    assert!(matches!(s.on_reconnect(false), IpcAction::Wait));
    assert!(!s.is_connected());
}

#[test]
fn pending_lyric_is_cut_after_successful_reconnect() {
    let lyric = "z".repeat(130);
    let mut s = IpcSession::new(false);
    assert!(matches!(s.on_command(update(Some(&lyric), true, 10, 0), 50), IpcAction::Reconnect));
    let p = plan_of(s.on_reconnect(true));
    assert_eq!(p.state, format!("♪ {}...", "z".repeat(117)));
    assert!(s.is_connected());
    // A lyric update with no song shown has no lyric to cut.
    let mut t = IpcSession::new(false);
    t.on_command(DiscordCommand::UpdateLyric { lyric: lyric.clone() }, 1);
    assert_eq!(t.pending_lyric(), None);
}
