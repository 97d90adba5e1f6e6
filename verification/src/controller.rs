//! The player-side Discord Rich Presence controller: it keeps the lyric store
//! that lyric lookups read, throttles activity updates, and builds the commands
//! that go to the IPC side.

use vstd::prelude::*;
use crate::ipc::{CommandView, DiscordCommand};
use crate::lyrics::{current_lyric_text, lyric_in_effect, lyric_lines};

verus! {

/// The fields of a song that the presence shows.
pub struct SongInfo {
    pub name: String,
    pub singer: String,
    pub album: String,
    pub pic_url: String,
}

/// The controller state as the specifications see it.
pub struct ControllerView {
    /// The lyric store.
    pub lyrics: Seq<(u64, Seq<char>)>,
    /// Unix time, in milliseconds, of the last activity update let through.
    pub last_update: u64,
}

/// Player-side state of the Discord Rich Presence integration.
pub struct DiscordRpcController {
    lyrics: Vec<(u64, String)>,
    last_update: u64,
}

impl View for DiscordRpcController {
    type V = ControllerView;

    closed spec fn view(&self) -> ControllerView {
        ControllerView { lyrics: lyric_lines(self.lyrics@), last_update: self.last_update }
    }
}

/// Minimum time, in milliseconds, between two activity updates during playback.
pub open spec fn update_interval_ms() -> int {
    1000
}

/// An activity update at Unix time `now_ms` for position `position_secs` is dropped:
/// less than a second has passed since the last update let through, and the
/// position is not the start of a song.
pub open spec fn is_throttled(last_update: u64, now_ms: u64, position_secs: u64) -> bool {
    &&& now_ms.saturating_sub(last_update) < update_interval_ms()
    &&& position_secs > 0
}

/// The command that an activity update for `song` sends, where the lyric shown is the
/// one in effect in `lyrics` at the position when playing, and none when paused.
pub open spec fn update_command(
    lyrics: Seq<(u64, Seq<char>)>,
    song: SongInfo,
    duration_secs: u64,
    position_secs: u64,
    playing: bool,
) -> CommandView {
    CommandView::UpdateActivity {
        song_name: song.name@,
        artist: song.singer@,
        album: song.album@,
        pic_url: song.pic_url@,
        duration_secs,
        position_secs,
        playing,
        current_lyric: if playing {
            lyric_in_effect(lyrics, (position_secs * 1000) as u64)
        } else {
            None
        },
    }
}

/// Copies a lyric sheet line by line.
fn copy_lyrics(v: &Vec<(u64, String)>) -> (r: Vec<(u64, String)>)
    ensures
        lyric_lines(r@) == lyric_lines(v@),
{
    let mut r: Vec<(u64, String)> = Vec::new();
    let n = v.len();
    let mut i: usize = 0;
    while i < n
        invariant
            n == v@.len(),
            0 <= i <= n,
            lyric_lines(r@) =~= lyric_lines(v@).take(i as int),
        decreases n - i,
    {
        let line = (v[i].0, v[i].1.clone());
        let ghost before = r@;
        r.push(line);
        assert(lyric_lines(r@) =~= lyric_lines(before) + seq![(v@[i as int].0, v@[i as int].1@)]);
        assert(lyric_lines(v@).take(i + 1) =~= lyric_lines(v@).take(i as int) + seq![lyric_lines(v@)[i as int]]);
        i = i + 1;
    }
    assert(lyric_lines(v@).take(n as int) =~= lyric_lines(v@));
    r
}

impl DiscordRpcController {
    /// A controller with an empty lyric store that has let no update through yet.
    pub fn new() -> (c: Self)
        ensures
            c@ == (ControllerView { lyrics: Seq::empty(), last_update: 0 }),
    {
        let c = DiscordRpcController { lyrics: Vec::new(), last_update: 0 };
        assert(c@.lyrics =~= Seq::<(u64, Seq<char>)>::empty());
        c
    }

    /// Finds the current lyric line for a playback position in milliseconds: the last
    /// line of the leading run of lines whose timestamps are at most the position.
    pub fn find_current_lyric(&self, position_ms: u64) -> (r: Option<String>)
        ensures
            r matches Some(t) ==> lyric_in_effect(self@.lyrics, position_ms) == Some(t@),
            r is None ==> lyric_in_effect(self@.lyrics, position_ms) is None,
    {
        current_lyric_text(&self.lyrics, position_ms)
    }

    /// Whether an activity update at Unix time `now_ms` for position `position_secs`
    /// would be dropped.
    pub fn throttles(&self, now_ms: u64, position_secs: u64) -> (r: bool)
        ensures
            r == is_throttled(self@.last_update, now_ms, position_secs),
    {
        now_ms.saturating_sub(self.last_update) < 1000 && position_secs > 0
    }

    /// The activity update for a song at Unix time `now_ms`: `None` when throttled,
    /// otherwise the command to send, and the update time is recorded.
    pub fn update_activity(
        &mut self,
        si: &SongInfo,
        duration_secs: u64,
        position_secs: u64,
        playing: bool,
        now_ms: u64,
    ) -> (cmd: Option<DiscordCommand>)
        requires
            !is_throttled(old(self)@.last_update, now_ms, position_secs) ==> position_secs * 1000
                <= u64::MAX,
        ensures
            is_throttled(old(self)@.last_update, now_ms, position_secs) ==> {
                &&& cmd is None
                &&& final(self)@ == old(self)@
            },
            !is_throttled(old(self)@.last_update, now_ms, position_secs) ==> {
                &&& final(self)@ == (ControllerView { last_update: now_ms, ..old(self)@ })
                &&& cmd matches Some(c) && c@ == update_command(
                    old(self)@.lyrics,
                    *si,
                    duration_secs,
                    position_secs,
                    playing,
                )
            },
    {
        if self.throttles(now_ms, position_secs) {
            return None;
        }
        self.last_update = now_ms;
        let position_ms = position_secs * 1000;
        let current_lyric = if playing {
            self.find_current_lyric(position_ms)
        } else {
            None
        };
        Some(
            DiscordCommand::UpdateActivity {
                song_name: si.name.clone(),
                artist: si.singer.clone(),
                album: si.album.clone(),
                pic_url: si.pic_url.clone(),
                duration_secs,
                position_secs,
                playing,
                current_lyric,
            },
        )
    }

    /// The command that updates only the lyric text.
    pub fn update_lyric(&self, lyric: String) -> (cmd: DiscordCommand)
        ensures
            cmd@ == (CommandView::UpdateLyric { lyric: lyric@ }),
    {
        DiscordCommand::UpdateLyric { lyric }
    }

    /// Sets the lyrics for the current song: the store holds them at once, and the
    /// returned command hands them to the IPC side too.
    pub fn set_lyrics(&mut self, lyrics: Vec<(u64, String)>) -> (cmd: DiscordCommand)
        ensures
            final(self)@ == (ControllerView { lyrics: lyric_lines(lyrics@), ..old(self)@ }),
            cmd@ == (CommandView::SetLyrics { lyrics: lyric_lines(lyrics@) }),
    {
        self.lyrics = copy_lyrics(&lyrics);
        DiscordCommand::SetLyrics { lyrics }
    }

    /// Replaces the lyric store, as the IPC side does when it handles `SetLyrics`.
    pub fn store_lyrics(&mut self, lyrics: Vec<(u64, String)>)
        ensures
            final(self)@ == (ControllerView { lyrics: lyric_lines(lyrics@), ..old(self)@ }),
    {
        self.lyrics = lyrics;
    }

    /// Empties the lyric store, as the IPC side does when it handles `ClearLyrics`.
    pub fn discard_lyrics(&mut self)
        ensures
            final(self)@ == (ControllerView { lyrics: Seq::empty(), ..old(self)@ }),
    {
        self.lyrics = Vec::new();
        assert(lyric_lines(self.lyrics@) =~= Seq::<(u64, Seq<char>)>::empty());
    }

    /// The command that clears the lyrics (for instance when the song changes); the
    /// store is emptied when the IPC side handles it.
    pub fn clear_lyrics(&self) -> (cmd: DiscordCommand)
        ensures
            cmd@ == CommandView::ClearLyrics,
    {
        DiscordCommand::ClearLyrics
    }

    /// The command that clears the current activity.
    pub fn clear_activity(&self) -> (cmd: DiscordCommand)
        ensures
            cmd@ == CommandView::ClearActivity,
    {
        DiscordCommand::ClearActivity
    }

    /// The command that updates the play/pause state without changing the song info.
    pub fn set_playing(&self, playing: bool, position_secs: u64) -> (cmd: DiscordCommand)
        ensures
            cmd@ == (CommandView::UpdatePlayState { playing, position_secs }),
    {
        DiscordCommand::UpdatePlayState { playing, position_secs }
    }

    /// The command that shuts the IPC side down.
    pub fn shutdown(&self) -> (cmd: DiscordCommand)
        ensures
            cmd@ == CommandView::Shutdown,
    {
        DiscordCommand::Shutdown
    }
}

/// An update at the start of a song (position 0) is never dropped.
pub proof fn law_song_start_never_throttled(last_update: u64, now_ms: u64)
    ensures
        !is_throttled(last_update, now_ms, 0),
{
}

/// During playback, an update less than a second after the last one let through is
/// dropped.
pub proof fn law_throttled_within_interval(last_update: u64, now_ms: u64, position_secs: u64)
    requires
        last_update <= now_ms < last_update + 1000,
        position_secs > 0,
    ensures
        is_throttled(last_update, now_ms, position_secs),
{
}

/// An update a second or more after the last one let through goes through.
pub proof fn law_not_throttled_after_interval(last_update: u64, now_ms: u64, position_secs: u64)
    requires
        now_ms >= last_update + 1000,
    ensures
        !is_throttled(last_update, now_ms, position_secs),
{
}

/// The recorded update time after the first `n` of a run of activity updates
/// `calls`, each given as its Unix time in milliseconds and its playback position,
/// starting from recorded time `init`.
pub open spec fn last_update_after(init: u64, calls: Seq<(u64, u64)>, n: int) -> u64
    decreases n,
{
    if n <= 0 {
        init
    } else {
        let prev = last_update_after(init, calls, n - 1);
        if is_throttled(prev, calls[n - 1].0, calls[n - 1].1) {
            prev
        } else {
            calls[n - 1].0
        }
    }
}

/// Update `j` of the run is let through.
pub open spec fn update_sent(init: u64, calls: Seq<(u64, u64)>, j: int) -> bool {
    !is_throttled(last_update_after(init, calls, j), calls[j].0, calls[j].1)
}

/// The clock of the run never goes back, and starts no earlier than `init`.
pub open spec fn clock_runs_forward(init: u64, calls: Seq<(u64, u64)>) -> bool {
    &&& calls.len() > 0 ==> init <= calls[0].0
    &&& forall|i: int, j: int| 0 <= i <= j < calls.len() ==> calls[i].0 <= calls[j].0
}

proof fn lemma_last_update_bounds(init: u64, calls: Seq<(u64, u64)>, n: int)
    requires
        clock_runs_forward(init, calls),
        0 <= n < calls.len(),
    ensures
        last_update_after(init, calls, n) <= calls[n].0,
    decreases n,
{
    if n > 0 {
        lemma_last_update_bounds(init, calls, n - 1);
    }
}

proof fn lemma_last_update_monotone(init: u64, calls: Seq<(u64, u64)>, k: int, m: int)
    requires
        clock_runs_forward(init, calls),
        0 <= k <= m <= calls.len(),
    ensures
        last_update_after(init, calls, k) <= last_update_after(init, calls, m),
    decreases m - k,
{
    if k < m {
        lemma_last_update_monotone(init, calls, k, m - 1);
        lemma_last_update_bounds(init, calls, m - 1);
    }
}

/// Over a run of activity updates whose clock runs forward, an update sent during
/// playback (position above 0) comes at least a second after every earlier update
/// sent; updates at the start of a song are always sent.
pub proof fn law_sent_updates_are_spaced(init: u64, calls: Seq<(u64, u64)>, i: int, j: int)
    requires
        clock_runs_forward(init, calls),
        0 <= i < j < calls.len(),
        update_sent(init, calls, i),
        update_sent(init, calls, j),
        calls[j].1 > 0,
    ensures
        calls[j].0 >= calls[i].0 + 1000,
{
    lemma_last_update_monotone(init, calls, i + 1, j);
    lemma_last_update_bounds(init, calls, j);
}

/// An update at the start of a song is sent whatever came before it.
pub proof fn law_song_start_always_sent(init: u64, calls: Seq<(u64, u64)>, j: int)
    requires
        0 <= j < calls.len(),
        calls[j].1 == 0,
    ensures
        update_sent(init, calls, j),
{
}

/// An activity update for a song carries the song's title, singer, album and cover
/// URL, its duration, position and play state, and, while playing, the text of the
/// lyric line in effect at the position (none while paused).
pub proof fn law_update_carries_song(
    lyrics: Seq<(u64, Seq<char>)>,
    song: SongInfo,
    duration_secs: u64,
    position_secs: u64,
    playing: bool,
)
    requires
        position_secs * 1000 <= u64::MAX,
    ensures
        update_command(lyrics, song, duration_secs, position_secs, playing) matches CommandView::UpdateActivity {
            song_name: n,
            artist: a,
            album: al,
            pic_url: u,
            duration_secs: d,
            position_secs: q,
            playing: pl,
            current_lyric: l,
        } && {
            &&& n == song.name@ && a == song.singer@ && al == song.album@ && u == song.pic_url@
            &&& d == duration_secs && q == position_secs && pl == playing
            &&& !playing ==> l is None
            &&& playing ==> l == lyric_in_effect(lyrics, (position_secs * 1000) as u64)
        },
{
}

} // verus!
