use netease_cloud_music_gtk4::lyrics::{current_lyric_index, current_lyric_text, filter_lyrics};

fn sheet(lines: &[(u64, &str)]) -> Vec<(u64, String)> {
    lines.iter().map(|(t, s)| (*t, s.to_string())).collect()
}

#[test]
fn lookup_picks_last_started_line() {
    let l = sheet(&[(0, "a"), (1000, "b"), (2000, "c")]);
    assert_eq!(current_lyric_index(&l, 0), Some(0));
    assert_eq!(current_lyric_index(&l, 1500), Some(1));
    assert_eq!(current_lyric_index(&l, 2000), Some(2));
    assert_eq!(current_lyric_index(&l, 99999), Some(2));
    assert_eq!(current_lyric_text(&l, 1999), Some("b".to_string()));
}

#[test]
fn lookup_before_first_line_or_empty_is_none() {
    let l = sheet(&[(500, "a"), (1000, "b")]);
    assert_eq!(current_lyric_index(&l, 499), None);
    assert_eq!(current_lyric_text(&l, 0), None);
    let empty: Vec<(u64, String)> = Vec::new();
    assert_eq!(current_lyric_index(&empty, 12345), None);
    assert_eq!(current_lyric_text(&empty, 0), None);
}

#[test]
fn lookup_stops_at_first_unstarted_line() {
    // The third line has an earlier timestamp but lies after a line that has not started.
    let l = sheet(&[(0, "a"), (5000, "b"), (100, "c")]);
    assert_eq!(current_lyric_index(&l, 4000), Some(0));
    assert_eq!(current_lyric_text(&l, 4000), Some("a".to_string()));
}

#[test]
fn lookup_never_moves_back_on_sorted_sheet() {
    let l = sheet(&[(0, "a"), (10, "b"), (10, "c"), (30, "d")]);
    let mut last = None;
    for p in 0..50u64 {
        let i = current_lyric_index(&l, p);
        assert!(i >= last);
        last = i;
    }
    assert_eq!(current_lyric_index(&l, 10), Some(2));
}

#[test]
fn filter_drops_blank_and_whitespace_lines() {
    let l = sheet(&[(0, ""), (1, "   "), (2, "\t\u{3000}\u{00A0}"), (3, "la")]);
    assert_eq!(filter_lyrics(l), sheet(&[(3, "la")]));
}

#[test]
fn filter_drops_credit_lines() {
    let l = sheet(&[
        (0, "作词 : 某人"),
        (1, "作曲：某人"),
        (2, "  编曲: x"),
        (3, "OP: label"),
        (4, "SP:x"),
        (5, "词：a"),
        (6, "制作人:b"),
        (7, "hello 作词"),
    ]);
    assert_eq!(filter_lyrics(l), sheet(&[(7, "hello 作词")]));
}

#[test]
fn filter_drops_repeated_timestamps_and_keeps_text() {
    let l = sheet(&[(10, " first "), (10, "second"), (20, "third"), (20, "fourth"), (10, "fifth")]);
    assert_eq!(
        filter_lyrics(l),
        sheet(&[(10, " first "), (20, "third"), (10, "fifth")])
    );
}

#[test]
fn filter_repeat_is_measured_against_last_kept_line() {
    // The blank line between is dropped, so the third line repeats the first kept one.
    let l = sheet(&[(10, "a"), (20, ""), (10, "b"), (20, "c")]);
    assert_eq!(filter_lyrics(l), sheet(&[(10, "a"), (20, "c")]));
}

#[test]
fn filter_is_idempotent() {
    let l = sheet(&[(0, "作曲 x"), (1, "a"), (1, "b"), (2, " "), (3, "c"), (3, "d"), (4, "e")]);
    let once = filter_lyrics(l);
    let twice = filter_lyrics(once.clone());
    assert_eq!(once, twice);
    assert_eq!(once, sheet(&[(1, "a"), (3, "c"), (4, "e")]));
}
