//! Time-synced lyrics: which line is in effect at a playback position, and
//! which lines of a fetched lyric sheet are shown at all.

use vstd::prelude::*;
use crate::text::{trimmed, trim, starts_with};

verus! {

/// A lyric sheet as seen by the specifications: each line is its timestamp and its text.
pub open spec fn lyric_lines(v: Seq<(u64, String)>) -> Seq<(u64, Seq<char>)> {
    v.map_values(|line: (u64, String)| (line.0, line.1@))
}

/// Line `i` is the one in effect at `pos`: every line up to and including it has
/// started (timestamp at most `pos`), and the next line, if any, has not.
/// Scanning stops at the first line that has not started, so a later line with an
/// earlier timestamp is never reached.
pub open spec fn is_line_in_effect(lines: Seq<(u64, Seq<char>)>, pos: u64, i: int) -> bool {
    &&& 0 <= i < lines.len()
    &&& forall|j: int| 0 <= j <= i ==> #[trigger] lines[j].0 <= pos
    &&& i + 1 < lines.len() ==> lines[i + 1].0 > pos
}

/// No line is in effect at `pos`: the sheet is empty or its first line has not started.
pub open spec fn no_line_in_effect(lines: Seq<(u64, Seq<char>)>, pos: u64) -> bool {
    lines.len() == 0 || lines[0].0 > pos
}

/// The index of the line in effect at `pos`, if any.
pub open spec fn index_in_effect(lines: Seq<(u64, Seq<char>)>, pos: u64) -> Option<int> {
    if no_line_in_effect(lines, pos) {
        None
    } else {
        Some(choose|i: int| is_line_in_effect(lines, pos, i))
    }
}

/// The text of the line in effect at `pos`, if any.
pub open spec fn lyric_in_effect(lines: Seq<(u64, Seq<char>)>, pos: u64) -> Option<Seq<char>> {
    match index_in_effect(lines, pos) {
        Some(i) => Some(lines[i].1),
        None => None,
    }
}

/// Timestamps never decrease along the sheet.
pub open spec fn is_sorted(lines: Seq<(u64, Seq<char>)>) -> bool {
    forall|i: int, j: int| 0 <= i <= j < lines.len() ==> lines[i].0 <= lines[j].0
}

/// At most one line is in effect at a time.
pub proof fn lemma_line_in_effect_unique(lines: Seq<(u64, Seq<char>)>, pos: u64, i: int, k: int)
    requires
        is_line_in_effect(lines, pos, i),
        is_line_in_effect(lines, pos, k),
    ensures
        i == k,
{
    if i < k {
        assert(lines[i + 1].0 <= pos);
    } else if k < i {
        assert(lines[k + 1].0 <= pos);
    }
}

/// Exactly one of the two cases holds: either no line is in effect, or `index_in_effect`
/// names the one line that is.
pub proof fn lemma_index_in_effect(lines: Seq<(u64, Seq<char>)>, pos: u64)
    ensures
        no_line_in_effect(lines, pos) <==> index_in_effect(lines, pos) is None,
        index_in_effect(lines, pos) matches Some(i) ==> is_line_in_effect(lines, pos, i),
{
    if !no_line_in_effect(lines, pos) {
        let k = started_count(lines, pos);
        lemma_started_count(lines, pos);
        assert(is_line_in_effect(lines, pos, k - 1));
    }
}

/// Number of leading lines that have started at `pos`.
spec fn started_count(lines: Seq<(u64, Seq<char>)>, pos: u64) -> int
    decreases lines.len(),
{
    if lines.len() > 0 && lines[0].0 <= pos {
        1 + started_count(lines.drop_first(), pos)
    } else {
        0
    }
}

proof fn lemma_started_count(lines: Seq<(u64, Seq<char>)>, pos: u64)
    ensures
        0 <= started_count(lines, pos) <= lines.len(),
        forall|j: int| 0 <= j < started_count(lines, pos) ==> #[trigger] lines[j].0 <= pos,
        started_count(lines, pos) < lines.len() ==> lines[started_count(lines, pos)].0 > pos,
    decreases lines.len(),
{
    if lines.len() > 0 && lines[0].0 <= pos {
        let rest = lines.drop_first();
        lemma_started_count(rest, pos);
        assert forall|j: int| 0 <= j < started_count(lines, pos) implies #[trigger] lines[j].0 <= pos by {
            if j > 0 {
                assert(lines[j] == rest[j - 1]);
            }
        }
        if started_count(lines, pos) < lines.len() {
            assert(lines[started_count(lines, pos)] == rest[started_count(rest, pos)]);
        }
    }
}

/// Index of the lyric line in effect at `position_ms`: lines are scanned from the
/// start, and the scan stops at the first line whose timestamp lies after the position.
pub fn current_lyric_index(lyrics: &Vec<(u64, String)>, position_ms: u64) -> (r: Option<usize>)
    ensures
        r matches Some(i) ==> is_line_in_effect(lyric_lines(lyrics@), position_ms, i as int),
        r is None <==> no_line_in_effect(lyric_lines(lyrics@), position_ms),
        r matches Some(i) ==> index_in_effect(lyric_lines(lyrics@), position_ms) == Some(i as int),
        r is None ==> index_in_effect(lyric_lines(lyrics@), position_ms) is None,
{
    let ghost lines = lyric_lines(lyrics@);
    let n = lyrics.len();
    let mut current: Option<usize> = None;
    let mut i: usize = 0;
    while i < n
        invariant
            n == lyrics@.len(),
            lines == lyric_lines(lyrics@),
            0 <= i <= n,
            forall|j: int| 0 <= j < i ==> #[trigger] lines[j].0 <= position_ms,
            i == 0 ==> current is None,
            i > 0 ==> current == Some((i - 1) as usize),
        ensures
            0 <= i <= n,
            forall|j: int| 0 <= j < i ==> #[trigger] lines[j].0 <= position_ms,
            i < n ==> lines[i as int].0 > position_ms,
            i == 0 ==> current is None,
            i > 0 ==> current == Some((i - 1) as usize),
        decreases n - i,
    {
        if lyrics[i].0 <= position_ms {
            current = Some(i);
            i = i + 1;
        } else {
            break;
        }
    }
    proof {
        lemma_index_in_effect(lines, position_ms);
        if let Some(k) = current {
            assert(is_line_in_effect(lines, position_ms, k as int));
            let c = index_in_effect(lines, position_ms).unwrap();
            lemma_line_in_effect_unique(lines, position_ms, k as int, c);
        }
    }
    current
}

/// Text of the lyric line in effect at `position_ms`, if any.
pub fn current_lyric_text(lyrics: &Vec<(u64, String)>, position_ms: u64) -> (r: Option<String>)
    ensures
        r matches Some(t) ==> lyric_in_effect(lyric_lines(lyrics@), position_ms) == Some(t@),
        r is None ==> lyric_in_effect(lyric_lines(lyrics@), position_ms) is None,
{
    match current_lyric_index(lyrics, position_ms) {
        Some(i) => Some(lyrics[i].1.clone()),
        None => None,
    }
}

/// On a sorted sheet, the line in effect is the last line that has started, and a
/// line is in effect whenever some line has started.
pub proof fn lemma_sorted_line_in_effect_is_last_started(lines: Seq<(u64, Seq<char>)>, pos: u64)
    requires
        is_sorted(lines),
    ensures
        index_in_effect(lines, pos) matches Some(i) ==> 0 <= i < lines.len() && lines[i].0 <= pos,
        index_in_effect(lines, pos) matches Some(i) ==> forall|j: int|
            i < j < lines.len() ==> #[trigger] lines[j].0 > pos,
        index_in_effect(lines, pos) is None <==> forall|j: int|
            0 <= j < lines.len() ==> #[trigger] lines[j].0 > pos,
{
    lemma_index_in_effect(lines, pos);
    if let Some(i) = index_in_effect(lines, pos) {
        assert forall|j: int| i < j < lines.len() implies #[trigger] lines[j].0 > pos by {
            assert(lines[i + 1].0 <= lines[j].0);
        }
    } else {
        assert forall|j: int| 0 <= j < lines.len() implies #[trigger] lines[j].0 > pos by {
            assert(lines[0].0 <= lines[j].0);
        }
    }
}

/// On a sorted sheet, the line in effect never moves backwards as playback advances.
pub proof fn lemma_sorted_line_in_effect_monotone(lines: Seq<(u64, Seq<char>)>, p: u64, q: u64)
    requires
        is_sorted(lines),
        p <= q,
    ensures
        index_in_effect(lines, p) matches Some(i) ==> (index_in_effect(lines, q) matches Some(k)
            && i <= k),
{
    lemma_index_in_effect(lines, p);
    lemma_index_in_effect(lines, q);
    lemma_sorted_line_in_effect_is_last_started(lines, q);
    if let Some(i) = index_in_effect(lines, p) {
        assert(lines[i].0 <= q);
        if let Some(k) = index_in_effect(lines, q) {
            if k < i {
                assert(lines[i].0 > q);
            }
        }
    }
}


/// Prefixes of the credit lines (lyricist, composer, arranger, producer, players,
/// mixing, mastering, publisher and the like) that a lyric sheet opens with.
pub open spec fn credit_prefixes() -> Seq<Seq<char>> {
    seq![
        "作词"@, "作曲"@, "编曲"@, "制作人"@, "吉他"@, "贝斯"@, "鼓"@, "弦乐"@,
        "和声"@, "录音"@, "混音"@, "母带"@, "OP"@, "SP"@, "制作"@, "原曲"@,
        "原唱"@, "翻唱"@, "改编"@, "演唱"@, "演奏"@, "监制"@, "发行"@, "出品"@,
        "词："@, "曲："@, "编曲："@, "制作人："@,
        "词:"@, "曲:"@, "编曲:"@, "制作人:"@,
    ]
}

/// `t` starts with one of the credit prefixes.
pub open spec fn is_credit_text(t: Seq<char>) -> bool {
    exists|k: int| 0 <= k < credit_prefixes().len() && #[trigger] credit_prefixes()[k].is_prefix_of(t)
}

/// A line is shown when its trimmed text is neither empty nor a credit line.
pub open spec fn is_shown_text(text: Seq<char>) -> bool {
    let t = trimmed(text);
    t.len() > 0 && !is_credit_text(t)
}

/// The shown lines of `lines`, where `prev` is the timestamp of the last line kept
/// so far: a line is kept when its text is shown and its timestamp differs from
/// that of the last kept line.
pub open spec fn shown_lines(lines: Seq<(u64, Seq<char>)>, prev: Option<u64>) -> Seq<(u64, Seq<char>)>
    decreases lines.len(),
{
    if lines.len() == 0 {
        seq![]
    } else if is_shown_text(lines[0].1) && prev != Some(lines[0].0) {
        seq![lines[0]] + shown_lines(lines.drop_first(), Some(lines[0].0))
    } else {
        shown_lines(lines.drop_first(), prev)
    }
}

/// Whether `t` starts with a credit prefix.
fn is_credit_line(t: &str) -> (r: bool)
    ensures
        r == is_credit_text(t@),
{
    let prefixes: Vec<&str> = vec![
        "作词", "作曲", "编曲", "制作人", "吉他", "贝斯", "鼓", "弦乐",
        "和声", "录音", "混音", "母带", "OP", "SP", "制作", "原曲",
        "原唱", "翻唱", "改编", "演唱", "演奏", "监制", "发行", "出品",
        "词：", "曲：", "编曲：", "制作人：",
        "词:", "曲:", "编曲:", "制作人:",
    ];
    assert(prefixes@.map_values(|p: &str| p@) =~= credit_prefixes());
    let n = prefixes.len();
    let mut i: usize = 0;
    while i < n
        invariant
            n == prefixes@.len(),
            n == credit_prefixes().len(),
            prefixes@.map_values(|p: &str| p@) == credit_prefixes(),
            0 <= i <= n,
            forall|k: int| 0 <= k < i ==> !(#[trigger] credit_prefixes()[k]).is_prefix_of(t@),
        decreases n - i,
    {
        let p = prefixes[i];
        assert(p@ == credit_prefixes()[i as int]);
        if starts_with(t, p) {
            return true;
        }
        i = i + 1;
    }
    false
}

/// Drops the lines that are not shown: blank lines, credit lines, and lines that
/// repeat the timestamp of the line kept just before them.
pub fn filter_lyrics(lrc: Vec<(u64, String)>) -> (out: Vec<(u64, String)>)
    ensures
        lyric_lines(out@) == shown_lines(lyric_lines(lrc@), None),
        forall|i: int| 0 <= i < out@.len() ==> is_shown_text(#[trigger] out@[i].1@),
        forall|i: int| 0 <= i < out@.len() - 1 ==> #[trigger] out@[i].0 != out@[i + 1].0,
{
    let ghost lines = lyric_lines(lrc@);
    let mut out: Vec<(u64, String)> = Vec::new();
    let mut prev: Option<u64> = None;
    let n = lrc.len();
    let mut i: usize = 0;
    assert(lines.skip(0) =~= lines);
    while i < n
        invariant
            n == lrc@.len(),
            lines == lyric_lines(lrc@),
            0 <= i <= n,
            lyric_lines(out@) + shown_lines(lines.skip(i as int), prev) == shown_lines(lines, None),
        decreases n - i,
    {
        let ts = lrc[i].0;
        let text = &lrc[i].1;
        let ghost rest = lines.skip(i as int);
        assert(rest[0] == (ts, text@));
        assert(rest.drop_first() =~= lines.skip(i + 1));
        let t = trim(text.as_str());
        let repeated = match prev {
            Some(p) => p == ts,
            None => false,
        };
        if !(t.is_empty() || is_credit_line(t) || repeated) {
            let ghost before = lyric_lines(out@);
            out.push((ts, text.clone()));
            prev = Some(ts);
            assert(lyric_lines(out@) =~= before + seq![(ts, text@)]);
        }
        i = i + 1;
    }
    assert(lines.skip(n as int) =~= Seq::<(u64, Seq<char>)>::empty());
    assert(lyric_lines(out@) =~= shown_lines(lines, None));
    proof {
        lemma_shown_lines_properties(lines, None);
        assert forall|i: int| 0 <= i < out@.len() implies is_shown_text(#[trigger] out@[i].1@) by {
            assert(lyric_lines(out@)[i] == (out@[i].0, out@[i].1@));
            assert(is_shown_text(shown_lines(lines, None)[i].1));
        }
        assert forall|i: int| 0 <= i < out@.len() - 1 implies #[trigger] out@[i].0 != out@[i + 1].0 by {
            assert(lyric_lines(out@)[i].0 == out@[i].0);
            assert(lyric_lines(out@)[i + 1].0 == out@[i + 1].0);
        }
    }
    out
}

/// Every kept line is shown, the first kept line does not repeat `prev`, and no two
/// adjacent kept lines share a timestamp.
pub proof fn lemma_shown_lines_properties(lines: Seq<(u64, Seq<char>)>, prev: Option<u64>)
    ensures
        forall|i: int| 0 <= i < shown_lines(lines, prev).len()
            ==> is_shown_text(#[trigger] shown_lines(lines, prev)[i].1),
        shown_lines(lines, prev).len() > 0 ==> prev != Some(shown_lines(lines, prev)[0].0),
        forall|i: int| 0 <= i < shown_lines(lines, prev).len() - 1
            ==> #[trigger] shown_lines(lines, prev)[i].0 != shown_lines(lines, prev)[i + 1].0,
    decreases lines.len(),
{
    if lines.len() > 0 {
        let rest = lines.drop_first();
        if is_shown_text(lines[0].1) && prev != Some(lines[0].0) {
            let p = Some(lines[0].0);
            lemma_shown_lines_properties(rest, p);
            let out = shown_lines(lines, prev);
            assert(out == seq![lines[0]] + shown_lines(rest, p));
            assert forall|i: int| 0 <= i < out.len() implies is_shown_text(#[trigger] out[i].1) by {
                if i > 0 {
                    assert(out[i] == shown_lines(rest, p)[i - 1]);
                }
            }
            assert forall|i: int| 0 <= i < out.len() - 1 implies #[trigger] out[i].0 != out[i + 1].0 by {
                if i > 0 {
                    assert(out[i] == shown_lines(rest, p)[i - 1]);
                    assert(out[i + 1] == shown_lines(rest, p)[i]);
                } else {
                    assert(out[1] == shown_lines(rest, p)[0]);
                }
            }
        } else {
            lemma_shown_lines_properties(rest, prev);
        }
    }
}

/// A sheet whose lines are all shown, whose first line does not repeat `prev`, and
/// whose adjacent lines never share a timestamp is kept whole.
proof fn lemma_shown_lines_keeps_clean(lines: Seq<(u64, Seq<char>)>, prev: Option<u64>)
    requires
        forall|i: int| 0 <= i < lines.len() ==> is_shown_text(#[trigger] lines[i].1),
        lines.len() > 0 ==> prev != Some(lines[0].0),
        forall|i: int| 0 <= i < lines.len() - 1 ==> #[trigger] lines[i].0 != lines[i + 1].0,
    ensures
        shown_lines(lines, prev) == lines,
    decreases lines.len(),
{
    if lines.len() > 0 {
        let rest = lines.drop_first();
        assert(is_shown_text(lines[0].1));
        assert forall|i: int| 0 <= i < rest.len() - 1 implies #[trigger] rest[i].0 != rest[i + 1].0 by {
            assert(lines[i + 1].0 != lines[i + 2].0);
        }
        assert forall|i: int| 0 <= i < rest.len() implies is_shown_text(#[trigger] rest[i].1) by {
            assert(is_shown_text(lines[i + 1].1));
        }
        if rest.len() > 0 {
            assert(lines[0].0 != lines[1].0);
        }
        lemma_shown_lines_keeps_clean(rest, Some(lines[0].0));
        assert(seq![lines[0]] + rest =~= lines);
    }
}

/// Filtering a sheet a second time changes nothing.
pub proof fn lemma_filter_lyrics_idempotent(lines: Seq<(u64, Seq<char>)>)
    ensures
        shown_lines(shown_lines(lines, None), None) == shown_lines(lines, None),
{
    lemma_shown_lines_properties(lines, None);
    lemma_shown_lines_keeps_clean(shown_lines(lines, None), None);
}

/// A CJK unified ideograph.
pub open spec fn is_ideograph(c: char) -> bool {
    0x4E00 <= (c as u32) <= 0x9FFF
}

/// An ASCII letter.
pub open spec fn is_ascii_letter(c: char) -> bool {
    ('a' <= c && c <= 'z') || ('A' <= c && c <= 'Z')
}

/// A lowercase ASCII letter.
pub open spec fn is_ascii_lowercase(c: char) -> bool {
    'a' <= c && c <= 'z'
}

/// The shape of a credit word: a Chinese word of two or more ideographs (or the one
/// ideograph 鼓, drums), or one of the two-letter abbreviations ending in "P" (OP, SP).
pub open spec fn has_credit_shape(t: Seq<char>) -> bool {
    ||| t.len() >= 1 && is_ideograph(t[0]) && (t.len() >= 2 || t[0] == '鼓')
    ||| t.len() >= 2 && (t[0] == 'O' || t[0] == 'S') && t[1] == 'P'
}

proof fn lemma_credit_prefix_shape(k: int)
    requires
        0 <= k < credit_prefixes().len(),
    ensures
        has_credit_shape(credit_prefixes()[k]),
        credit_prefixes()[k].len() >= 1,
        is_ideograph(credit_prefixes()[k][0]) || (credit_prefixes()[k].len() >= 2
            && credit_prefixes()[k][1] == 'P'),
{
    reveal_strlit("OP");
    reveal_strlit("SP");
    reveal_strlit("作曲");
    reveal_strlit("作词");
    reveal_strlit("出品");
    reveal_strlit("制作");
    reveal_strlit("制作人");
    reveal_strlit("制作人:");
    reveal_strlit("制作人：");
    reveal_strlit("原唱");
    reveal_strlit("原曲");
    reveal_strlit("发行");
    reveal_strlit("吉他");
    reveal_strlit("和声");
    reveal_strlit("弦乐");
    reveal_strlit("录音");
    reveal_strlit("改编");
    reveal_strlit("曲:");
    reveal_strlit("曲：");
    reveal_strlit("母带");
    reveal_strlit("混音");
    reveal_strlit("演唱");
    reveal_strlit("演奏");
    reveal_strlit("监制");
    reveal_strlit("编曲");
    reveal_strlit("编曲:");
    reveal_strlit("编曲：");
    reveal_strlit("翻唱");
    reveal_strlit("词:");
    reveal_strlit("词：");
    reveal_strlit("贝斯");
    reveal_strlit("鼓");
    let p = credit_prefixes()[k];
    if k == 0 {
        assert(p =~= seq!['作', '词']);
    } else if k == 1 {
        assert(p =~= seq!['作', '曲']);
    } else if k == 2 {
        assert(p =~= seq!['编', '曲']);
    } else if k == 3 {
        assert(p =~= seq!['制', '作', '人']);
    } else if k == 4 {
        assert(p =~= seq!['吉', '他']);
    } else if k == 5 {
        assert(p =~= seq!['贝', '斯']);
    } else if k == 6 {
        assert(p =~= seq!['鼓']);
    } else if k == 7 {
        assert(p =~= seq!['弦', '乐']);
    } else if k == 8 {
        assert(p =~= seq!['和', '声']);
    } else if k == 9 {
        assert(p =~= seq!['录', '音']);
    } else if k == 10 {
        assert(p =~= seq!['混', '音']);
    } else if k == 11 {
        assert(p =~= seq!['母', '带']);
    } else if k == 12 {
        assert(p =~= seq!['O', 'P']);
    } else if k == 13 {
        assert(p =~= seq!['S', 'P']);
    } else if k == 14 {
        assert(p =~= seq!['制', '作']);
    } else if k == 15 {
        assert(p =~= seq!['原', '曲']);
    } else if k == 16 {
        assert(p =~= seq!['原', '唱']);
    } else if k == 17 {
        assert(p =~= seq!['翻', '唱']);
    } else if k == 18 {
        assert(p =~= seq!['改', '编']);
    } else if k == 19 {
        assert(p =~= seq!['演', '唱']);
    } else if k == 20 {
        assert(p =~= seq!['演', '奏']);
    } else if k == 21 {
        assert(p =~= seq!['监', '制']);
    } else if k == 22 {
        assert(p =~= seq!['发', '行']);
    } else if k == 23 {
        assert(p =~= seq!['出', '品']);
    } else if k == 24 {
        assert(p =~= seq!['词', '：']);
    } else if k == 25 {
        assert(p =~= seq!['曲', '：']);
    } else if k == 26 {
        assert(p =~= seq!['编', '曲', '：']);
    } else if k == 27 {
        assert(p =~= seq!['制', '作', '人', '：']);
    } else if k == 28 {
        assert(p =~= seq!['词', ':']);
    } else if k == 29 {
        assert(p =~= seq!['曲', ':']);
    } else if k == 30 {
        assert(p =~= seq!['编', '曲', ':']);
    } else if k == 31 {
        assert(p =~= seq!['制', '作', '人', ':']);
    }
}

/// Every credit line starts with a credit word: a Chinese word of two or more
/// ideographs (or 鼓), or OP or SP.
pub proof fn law_credit_text_shape(t: Seq<char>)
    requires
        is_credit_text(t),
    ensures
        has_credit_shape(t),
{
    let k = choose|k: int| 0 <= k < credit_prefixes().len() && #[trigger] credit_prefixes()[k].is_prefix_of(t);
    lemma_credit_prefix_shape(k);
    let p = credit_prefixes()[k];
    assert(p[0] == t[0]);
    if p.len() >= 2 {
        assert(p[1] == t[1]);
    }
}

/// A line that starts with an ordinary word (a letter followed by a lowercase letter,
/// as in "She loves you") is never a credit line.
pub proof fn law_words_are_not_credits(t: Seq<char>)
    requires
        t.len() >= 2,
        is_ascii_letter(t[0]),
        is_ascii_lowercase(t[1]),
    ensures
        !is_credit_text(t),
{
    if is_credit_text(t) {
        let k = choose|k: int| 0 <= k < credit_prefixes().len() && #[trigger] credit_prefixes()[k].is_prefix_of(t);
        lemma_credit_prefix_shape(k);
        let p = credit_prefixes()[k];
        assert(p[0] == t[0]);
        if !is_ideograph(p[0]) {
            assert(p[1] == t[1]);
        }
    }
}

/// A sheet whose lines all start with an ordinary word once trimmed, and whose
/// adjacent lines never share a timestamp, is shown whole.
pub proof fn law_word_lines_are_kept(lines: Seq<(u64, Seq<char>)>)
    requires
        forall|i: int| 0 <= i < lines.len() ==> {
            let t = trimmed(#[trigger] lines[i].1);
            t.len() >= 2 && is_ascii_letter(t[0]) && is_ascii_lowercase(t[1])
        },
        forall|i: int| 0 <= i < lines.len() - 1 ==> #[trigger] lines[i].0 != lines[i + 1].0,
    ensures
        shown_lines(lines, None) == lines,
{
    assert forall|i: int| 0 <= i < lines.len() implies is_shown_text(#[trigger] lines[i].1) by {
        law_words_are_not_credits(trimmed(lines[i].1));
    }
    lemma_shown_lines_keeps_clean(lines, None);
}

/// A sheet whose lines are all shown and whose adjacent lines never share a
/// timestamp is kept whole.
pub proof fn law_clean_sheet_is_kept(lines: Seq<(u64, Seq<char>)>)
    requires
        forall|i: int| 0 <= i < lines.len() ==> is_shown_text(#[trigger] lines[i].1),
        forall|i: int| 0 <= i < lines.len() - 1 ==> #[trigger] lines[i].0 != lines[i + 1].0,
    ensures
        shown_lines(lines, None) == lines,
{
    lemma_shown_lines_keeps_clean(lines, None);
}

} // verus!
