use netease_cloud_music_gtk4::now_playing::{
    cover_cache_file_name, cover_source, line_style, seek_position_ms, CoverSource, LineStyle,
    LyricsPanel,
};

#[test]
fn line_styles() {
    assert!(line_style(3, 3) == LineStyle::Active);
    assert!(line_style(1, 3) == LineStyle::Past);
    assert!(line_style(5, 3) == LineStyle::Upcoming);
}

#[test]
fn seek_converts_seconds_to_milliseconds() {
    assert_eq!(seek_position_ms(0), 0);
    assert_eq!(seek_position_ms(42), 42_000);
}

#[test]
fn panel_keeps_shown_lines_and_resets_highlight() {
    let mut p = LyricsPanel::new();
    assert!(!p.select_line(Some(0)));
    let shown = p.update_lyrics(vec![(0, "作词 x".to_string()), (1, "a".to_string()), (2, "b".to_string())]);
    assert_eq!(shown, vec![(1, "a".to_string()), (2, "b".to_string())]);
    assert_eq!(p.lines(), &shown);
    assert!(p.select_line(Some(0)));
    assert!(!p.select_line(Some(0)));
    assert!(!p.select_line(None));
    assert!(p.select_line(Some(1)));
    p.update_lyrics(vec![(5, "c".to_string())]);
    assert!(p.select_line(Some(1)));
}

#[test]
fn cover_sources() {
    assert!(cover_source("", true, true) == CoverSource::Nothing);
    assert!(cover_source("http://x", false, false) == CoverSource::Nothing);
    assert!(cover_source("http://x", true, true) == CoverSource::Cache);
    assert!(cover_source("http://x", true, false) == CoverSource::Download);
}

#[test]
fn cover_file_names() {
    assert_eq!(cover_cache_file_name(0), "0-nowplaying.jpg");
    assert_eq!(cover_cache_file_name(7), "7-nowplaying.jpg");
    assert_eq!(cover_cache_file_name(1234509876), "1234509876-nowplaying.jpg");
    assert_eq!(cover_cache_file_name(u64::MAX), format!("{}-nowplaying.jpg", u64::MAX));
}
