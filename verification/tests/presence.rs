use netease_cloud_music_gtk4::presence::{artist_state, lyric_state, play_state};

#[test]
fn short_lyric_is_shown_whole() {
    assert_eq!(lyric_state("hello"), "♪ hello");
    let exact = "x".repeat(120);
    assert_eq!(lyric_state(&exact), format!("♪ {exact}"));
}

#[test]
fn long_lyric_is_cut_to_117_bytes() {
    let long = "y".repeat(130);
    let s = lyric_state(&long);
    assert_eq!(s, format!("♪ {}...", "y".repeat(117)));
    assert_eq!(s.len(), 4 + 117 + 3);
    assert!(s.len() <= 128);
}

#[test]
fn multibyte_lyric_is_cut_on_byte_count() {
    // 40 three-byte characters take 120 bytes: shown whole.
    let forty = "愛".repeat(40);
    assert_eq!(lyric_state(&forty), format!("♪ {forty}"));
    // 41 take 123 bytes: cut after 117 bytes, which is 39 characters.
    let forty_one = "愛".repeat(41);
    assert_eq!(lyric_state(&forty_one), format!("♪ {}...", "愛".repeat(39)));
}

#[test]
fn artist_and_play_state_lines() {
    assert_eq!(artist_state("Someone"), "by Someone");
    assert_eq!(artist_state(""), "by ");
    assert_eq!(play_state(true), "♪ playing");
    assert_eq!(play_state(false), "⏸ paused");
}
