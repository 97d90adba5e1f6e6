use netease_cloud_music_gtk4::controller::{DiscordRpcController, SongInfo};
use netease_cloud_music_gtk4::ipc::DiscordCommand;

fn song() -> SongInfo {
    SongInfo {
        name: "Song".to_string(),
        singer: "Singer".to_string(),
        album: "Album".to_string(),
        pic_url: "http://pic".to_string(),
    }
}

fn lyrics() -> Vec<(u64, String)> {
    vec![(0, "one".to_string()), (5000, "two".to_string()), (9000, "three".to_string())]
}

#[test]
fn new_controller_has_no_lyrics() {
    let c = DiscordRpcController::new();
    assert_eq!(c.find_current_lyric(0), None);
}

#[test]
fn set_lyrics_stores_and_forwards() {
    let mut c = DiscordRpcController::new();
    match c.set_lyrics(lyrics()) {
        DiscordCommand::SetLyrics { lyrics: l } => assert_eq!(l, lyrics()),
        _ => panic!("expected SetLyrics"),
    }
    assert_eq!(c.find_current_lyric(6000), Some("two".to_string()));
    assert_eq!(c.find_current_lyric(9000), Some("three".to_string()));
}

#[test]
fn store_and_discard_lyrics() {
    let mut c = DiscordRpcController::new();
    c.store_lyrics(lyrics());
    assert_eq!(c.find_current_lyric(100), Some("one".to_string()));
    assert!(matches!(c.clear_lyrics(), DiscordCommand::ClearLyrics));
    assert_eq!(c.find_current_lyric(100), Some("one".to_string()));
    c.discard_lyrics();
    assert_eq!(c.find_current_lyric(100), None);
}

#[test]
fn update_activity_carries_lyric_at_position() {
    let mut c = DiscordRpcController::new();
    c.store_lyrics(lyrics());
    match c.update_activity(&song(), 240, 6, true, 10_000) {
        Some(DiscordCommand::UpdateActivity {
            song_name,
            artist,
            album,
            pic_url,
            duration_secs,
            position_secs,
            playing,
            current_lyric,
        }) => {
            assert_eq!(song_name, "Song");
            assert_eq!(artist, "Singer");
            assert_eq!(album, "Album");
            assert_eq!(pic_url, "http://pic");
            assert_eq!(duration_secs, 240);
            assert_eq!(position_secs, 6);
            assert!(playing);
            assert_eq!(current_lyric, Some("two".to_string()));
        }
        _ => panic!("expected an update"),
    }
}

#[test]
fn paused_update_carries_no_lyric() {
    let mut c = DiscordRpcController::new();
    c.store_lyrics(lyrics());
    match c.update_activity(&song(), 240, 6, false, 10_000) {
        Some(DiscordCommand::UpdateActivity { current_lyric, .. }) => assert_eq!(current_lyric, None),
        _ => panic!("expected an update"),
    }
}

#[test]
fn updates_are_throttled_within_a_second() {
    let mut c = DiscordRpcController::new();
    assert!(c.update_activity(&song(), 100, 3, true, 5000).is_some());
    assert!(c.update_activity(&song(), 100, 4, true, 5999).is_none());
    // A song start is never dropped.
    assert!(c.update_activity(&song(), 100, 0, true, 5500).is_some());
    assert!(c.update_activity(&song(), 100, 5, true, 6499).is_none());
    assert!(c.update_activity(&song(), 100, 5, true, 6500).is_some());
    // A clock that went backwards counts as no time passed.
    assert!(c.update_activity(&song(), 100, 5, true, 100).is_none());
}

#[test]
fn first_update_after_start_depends_on_clock() {
    let mut c = DiscordRpcController::new();
    assert!(c.update_activity(&song(), 100, 1, true, 999).is_none());
    assert!(c.update_activity(&song(), 100, 1, true, 1000).is_some());
}

#[test]
fn simple_commands() {
    let c = DiscordRpcController::new();
    match c.update_lyric("hey".to_string()) {
        DiscordCommand::UpdateLyric { lyric } => assert_eq!(lyric, "hey"),
        _ => panic!("expected UpdateLyric"),
    }
    assert!(matches!(c.clear_activity(), DiscordCommand::ClearActivity));
    assert!(matches!(
        c.set_playing(false, 42),
        DiscordCommand::UpdatePlayState { playing: false, position_secs: 42 }
    ));
    assert!(matches!(c.shutdown(), DiscordCommand::Shutdown));
}
