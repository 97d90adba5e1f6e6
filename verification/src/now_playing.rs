//! Logic of the full-window now-playing view: the lyric panel (which lines are
//! shown, which line is highlighted, how each line is styled, where a click seeks)
//! and where the album cover comes from.

use vstd::prelude::*;
use crate::lyrics::{filter_lyrics, lyric_lines, shown_lines};

verus! {

/// How a lyric line is styled relative to the highlighted line.
#[derive(PartialEq, Eq, Structural)]
pub enum LineStyle {
    /// The line being sung.
    Active,
    /// A line already sung.
    Past,
    /// A line still to come.
    Upcoming,
}

/// Style of line `i` when line `active` is highlighted.
pub open spec fn style_of(i: int, active: int) -> LineStyle {
    if i == active {
        LineStyle::Active
    } else if i < active {
        LineStyle::Past
    } else {
        LineStyle::Upcoming
    }
}

/// Style of line `i` when line `active` is highlighted.
pub fn line_style(i: usize, active: usize) -> (r: LineStyle)
    ensures
        r == style_of(i as int, active as int),
{
    if i == active {
        LineStyle::Active
    } else if i < active {
        LineStyle::Past
    } else {
        LineStyle::Upcoming
    }
}

/// Playback position, in milliseconds, that a click on a line with timestamp `ts`
/// seeks to.
pub fn seek_position_ms(ts: u64) -> (r: u64)
    requires
        ts * 1000 <= u64::MAX,
    ensures
        r == ts * 1000,
{
    ts * 1000
}

/// The lyric panel state as the specifications see it.
pub struct PanelView {
    /// The lines shown.
    pub lines: Seq<(u64, Seq<char>)>,
    /// The line highlighted, if any.
    pub highlighted: Option<usize>,
}

/// The lyric panel of the now-playing view.
pub struct LyricsPanel {
    lines: Vec<(u64, String)>,
    highlighted: Option<usize>,
}

impl View for LyricsPanel {
    type V = PanelView;

    closed spec fn view(&self) -> PanelView {
        PanelView { lines: lyric_lines(self.lines@), highlighted: self.highlighted }
    }
}

impl LyricsPanel {
    /// An empty panel with no line highlighted.
    pub fn new() -> (p: Self)
        ensures
            p@ == (PanelView { lines: Seq::empty(), highlighted: None }),
    {
        let p = LyricsPanel { lines: Vec::new(), highlighted: None };
        assert(p@.lines =~= Seq::<(u64, Seq<char>)>::empty());
        p
    }

    /// The lines shown.
    pub fn lines(&self) -> (r: &Vec<(u64, String)>)
        ensures
            lyric_lines(r@) == self@.lines,
    {
        &self.lines
    }

    /// Shows a new lyric sheet: keeps only its shown lines, clears the highlight, and
    /// returns the lines to lay out.
    pub fn update_lyrics(&mut self, lrc: Vec<(u64, String)>) -> (shown: Vec<(u64, String)>)
        ensures
            lyric_lines(shown@) == shown_lines(lyric_lines(lrc@), None),
            final(self)@ == (PanelView { lines: lyric_lines(shown@), highlighted: None }),
    {
        let filtered = filter_lyrics(lrc);
        let mut kept: Vec<(u64, String)> = Vec::new();
        let n = filtered.len();
        let mut i: usize = 0;
        while i < n
            invariant
                n == filtered@.len(),
                0 <= i <= n,
                lyric_lines(kept@) =~= lyric_lines(filtered@).take(i as int),
            decreases n - i,
        {
            let ghost before = kept@;
            kept.push((filtered[i].0, filtered[i].1.clone()));
            assert(lyric_lines(kept@) =~= lyric_lines(before) + seq![lyric_lines(filtered@)[i as int]]);
            assert(lyric_lines(filtered@).take(i + 1) =~= lyric_lines(filtered@).take(i as int) + seq![
                lyric_lines(filtered@)[i as int],
            ]);
            i = i + 1;
        }
        assert(lyric_lines(filtered@).take(n as int) =~= lyric_lines(filtered@));
        self.lines = kept;
        self.highlighted = None;
        filtered
    }

    /// Highlights line `index` (the line in effect, if any): returns whether the
    /// styles must be redrawn, that is, whether a line is given, the panel is not
    /// empty, and the line differs from the one highlighted before.
    pub fn select_line(&mut self, index: Option<usize>) -> (redraw: bool)
        ensures
            old(self)@.lines.len() == 0 || index is None ==> !redraw && final(self)@ == old(self)@,
            old(self)@.lines.len() > 0 && index is Some ==> {
                &&& final(self)@ == (PanelView { highlighted: index, ..old(self)@ })
                &&& redraw == (old(self)@.highlighted != index)
            },
    {
        if self.lines.len() == 0 {
            return false;
        }
        match index {
            None => false,
            Some(i) => {
                let changed = match self.highlighted {
                    Some(h) => h != i,
                    None => true,
                };
                self.highlighted = Some(i);
                changed
            },
        }
    }
}

/// Where the album cover comes from.
#[derive(PartialEq, Eq, Structural)]
pub enum CoverSource {
    /// No cover is loaded: the song has no cover URL, or no one can download it.
    Nothing,
    /// The cover is loaded from the cache file.
    Cache,
    /// The cover is downloaded to the cache file and loaded from there.
    Download,
}

/// Where the cover of a song with cover URL `pic_url` comes from, given whether a
/// downloader is attached and whether the cache file exists.
pub open spec fn cover_source_of(pic_url: Seq<char>, has_downloader: bool, cached: bool) -> CoverSource {
    if pic_url.len() == 0 || !has_downloader {
        CoverSource::Nothing
    } else if cached {
        CoverSource::Cache
    } else {
        CoverSource::Download
    }
}

/// Where the cover of a song comes from.
pub fn cover_source(pic_url: &str, has_downloader: bool, cached: bool) -> (r: CoverSource)
    ensures
        r == cover_source_of(pic_url@, has_downloader, cached),
{
    if pic_url.is_empty() || !has_downloader {
        CoverSource::Nothing
    } else if cached {
        CoverSource::Cache
    } else {
        CoverSource::Download
    }
}

/// The decimal digits of `n`, most significant first, without leading zeros.
pub open spec fn decimal(n: nat) -> Seq<char>
    decreases n,
{
    if n < 10 {
        seq!["0123456789"@[n as int]]
    } else {
        decimal(n / 10) + seq!["0123456789"@[(n % 10) as int]]
    }
}

/// Appends the decimal digits of `n` to `s`.
fn push_decimal(s: &mut String, n: u64)
    ensures
        final(s)@ == old(s)@ + decimal(n as nat),
    decreases n,
{
    if n >= 10 {
        push_decimal(s, n / 10);
    }
    let d = (n % 10) as usize;
    let digits = "0123456789";
    proof {
        reveal_strlit("0123456789");
    }
    let digit = digits.substring_char(d, d + 1);
    assert(digit@ =~= seq!["0123456789"@[d as int]]);
    s.append(digit);
}

/// File name under the cache directory of the cover of album `album_id`.
pub fn cover_cache_file_name(album_id: u64) -> (r: String)
    ensures
        r@ == decimal(album_id as nat) + "-nowplaying.jpg"@,
{
    let mut r = String::new();
    push_decimal(&mut r, album_id);
    r.append("-nowplaying.jpg");
    r
}

/// Exactly one line is active, the one highlighted; the lines before it are past and
/// the lines after it are upcoming.
pub proof fn law_line_styles(i: int, active: int)
    ensures
        (style_of(i, active) == LineStyle::Active) <==> i == active,
        (style_of(i, active) == LineStyle::Past) <==> i < active,
        (style_of(i, active) == LineStyle::Upcoming) <==> i > active,
{
}

/// The cover is downloaded exactly when the song has a cover URL, a downloader is
/// attached and the cache file is missing, and loaded from the cache exactly when
/// the cache file exists for such a song.
pub proof fn law_cover_sources(pic_url: Seq<char>, has_downloader: bool, cached: bool)
    ensures
        (cover_source_of(pic_url, has_downloader, cached) == CoverSource::Download) <==> (pic_url.len()
            > 0 && has_downloader && !cached),
        (cover_source_of(pic_url, has_downloader, cached) == CoverSource::Cache) <==> (pic_url.len()
            > 0 && has_downloader && cached),
        (cover_source_of(pic_url, has_downloader, cached) == CoverSource::Nothing) <==> (pic_url.len()
            == 0 || !has_downloader),
{
}

/// The value of a decimal digit.
pub open spec fn digit_value(c: char) -> int {
    (c as u32) - ('0' as u32)
}

/// The number that a string of decimal digits denotes.
pub open spec fn decimal_value(s: Seq<char>) -> int
    decreases s.len(),
{
    if s.len() == 0 {
        0
    } else {
        decimal_value(s.drop_last()) * 10 + digit_value(s.last())
    }
}

proof fn lemma_digit(d: int)
    requires
        0 <= d < 10,
    ensures
        '0' <= "0123456789"@[d] <= '9',
        digit_value("0123456789"@[d]) == d,
{
    reveal_strlit("0123456789");
    if d == 0 {
        assert("0123456789"@[0] == '0');
    } else if d == 1 {
        assert("0123456789"@[1] == '1');
    } else if d == 2 {
        assert("0123456789"@[2] == '2');
    } else if d == 3 {
        assert("0123456789"@[3] == '3');
    } else if d == 4 {
        assert("0123456789"@[4] == '4');
    } else if d == 5 {
        assert("0123456789"@[5] == '5');
    } else if d == 6 {
        assert("0123456789"@[6] == '6');
    } else if d == 7 {
        assert("0123456789"@[7] == '7');
    } else if d == 8 {
        assert("0123456789"@[8] == '8');
    } else if d == 9 {
        assert("0123456789"@[9] == '9');
    }
}

/// The decimal digits of `n` are digits, start with a non-zero digit unless `n` is 0,
/// and read back as `n`.
pub proof fn law_decimal_reads_back(n: nat)
    ensures
        decimal(n).len() >= 1,
        forall|i: int| 0 <= i < decimal(n).len() ==> '0' <= #[trigger] decimal(n)[i] <= '9',
        n > 0 ==> decimal(n)[0] != '0',
        decimal_value(decimal(n)) == n,
    decreases n,
{
    if n < 10 {
        lemma_digit(n as int);
        assert(decimal(n).drop_last() =~= Seq::<char>::empty());
        assert(decimal(n).last() == "0123456789"@[n as int]);
        assert(decimal_value(decimal(n)) == decimal_value(Seq::<char>::empty()) * 10 + digit_value(
            "0123456789"@[n as int],
        ));
    } else {
        let q = n / 10;
        let r = n % 10;
        law_decimal_reads_back(q);
        lemma_digit(r as int);
        let d = decimal(n);
        assert(d == decimal(q) + seq!["0123456789"@[r as int]]);
        assert(d.drop_last() =~= decimal(q));
        assert(d.last() == "0123456789"@[r as int]);
        assert(decimal_value(d) == decimal_value(decimal(q)) * 10 + r);
        assert(d[0] == decimal(q)[0]);
        assert forall|i: int| 0 <= i < d.len() implies '0' <= #[trigger] d[i] <= '9' by {
            if i < decimal(q).len() {
                assert(d[i] == decimal(q)[i]);
            }
        }
        assert(q * 10 + r == n) by (nonlinear_arith)
            requires
                q == n / 10,
                r == n % 10,
        ;
    }
}

} // verus!
