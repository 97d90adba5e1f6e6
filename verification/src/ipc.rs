//! The Discord IPC session: the commands that the controller hands to the IPC
//! side, and the state machine that turns each command, and each outcome of the
//! IPC calls it asks for, into the next state and the next call to make.

use vstd::prelude::*;
use crate::lyrics::lyric_lines;
use crate::presence::{
    artist_state, artist_state_text, lyric_cuttable, lyric_display, lyric_state, lyric_state_text,
    play_state,
    play_state_text, track_state_text,
};

verus! {

/// A command sent from the player to the Discord IPC side.
pub enum DiscordCommand {
    /// Update the rich presence with a new song.
    UpdateActivity {
        song_name: String,
        artist: String,
        album: String,
        pic_url: String,
        duration_secs: u64,
        position_secs: u64,
        playing: bool,
        current_lyric: Option<String>,
    },
    /// Update only the lyric text.
    UpdateLyric { lyric: String },
    /// Update the play/pause state, keeping the song info.
    UpdatePlayState { playing: bool, position_secs: u64 },
    /// Set the lyrics of the current song.
    SetLyrics { lyrics: Vec<(u64, String)> },
    /// Clear the lyrics of the current song.
    ClearLyrics,
    /// Clear the current activity.
    ClearActivity,
    /// Shut the IPC side down.
    Shutdown,
}

/// A command as the specifications see it.
pub enum CommandView {
    UpdateActivity {
        song_name: Seq<char>,
        artist: Seq<char>,
        album: Seq<char>,
        pic_url: Seq<char>,
        duration_secs: u64,
        position_secs: u64,
        playing: bool,
        current_lyric: Option<Seq<char>>,
    },
    UpdateLyric { lyric: Seq<char> },
    UpdatePlayState { playing: bool, position_secs: u64 },
    SetLyrics { lyrics: Seq<(u64, Seq<char>)> },
    ClearLyrics,
    ClearActivity,
    Shutdown,
}

impl View for DiscordCommand {
    type V = CommandView;

    open spec fn view(&self) -> CommandView {
        match self {
            DiscordCommand::UpdateActivity {
                song_name,
                artist,
                album,
                pic_url,
                duration_secs,
                position_secs,
                playing,
                current_lyric,
            } => CommandView::UpdateActivity {
                song_name: song_name@,
                artist: artist@,
                album: album@,
                pic_url: pic_url@,
                duration_secs: *duration_secs,
                position_secs: *position_secs,
                playing: *playing,
                current_lyric: match current_lyric {
                    Some(l) => Some(l@),
                    None => None,
                },
            },
            DiscordCommand::UpdateLyric { lyric } => CommandView::UpdateLyric { lyric: lyric@ },
            DiscordCommand::UpdatePlayState { playing, position_secs } => CommandView::UpdatePlayState {
                playing: *playing,
                position_secs: *position_secs,
            },
            DiscordCommand::SetLyrics { lyrics } => CommandView::SetLyrics { lyrics: lyric_lines(lyrics@) },
            DiscordCommand::ClearLyrics => CommandView::ClearLyrics,
            DiscordCommand::ClearActivity => CommandView::ClearActivity,
            DiscordCommand::Shutdown => CommandView::Shutdown,
        }
    }
}

/// An activity to hand to Discord; its type is always "Listening".
pub struct ActivityPlan {
    pub name: String,
    pub details: String,
    pub state: String,
    /// Start and end, in Unix seconds, shown as a progress bar.
    pub timestamps: Option<(i64, i64)>,
    pub large_image: Option<String>,
    pub large_text: Option<String>,
}

/// An activity plan as the specifications see it.
pub struct PlanView {
    pub name: Seq<char>,
    pub details: Seq<char>,
    pub state: Seq<char>,
    pub timestamps: Option<(i64, i64)>,
    pub large_image: Option<Seq<char>>,
    pub large_text: Option<Seq<char>>,
}

pub open spec fn opt_view(s: Option<String>) -> Option<Seq<char>> {
    match s {
        Some(t) => Some(t@),
        None => None,
    }
}

impl View for ActivityPlan {
    type V = PlanView;

    open spec fn view(&self) -> PlanView {
        PlanView {
            name: self.name@,
            details: self.details@,
            state: self.state@,
            timestamps: self.timestamps,
            large_image: opt_view(self.large_image),
            large_text: opt_view(self.large_text),
        }
    }
}

/// The plan of an activity for song `name` with state line `state`: the name is also
/// the details line; the large image is the cover when there is an album or a cover
/// URL, and the album, when there is one, is its caption.
pub open spec fn plan_of(
    name: Seq<char>,
    state: Seq<char>,
    timestamps: Option<(i64, i64)>,
    album: Seq<char>,
    pic_url: Seq<char>,
) -> PlanView {
    PlanView {
        name: name,
        details: name,
        state: state,
        timestamps: timestamps,
        large_image: if album.len() > 0 || pic_url.len() > 0 {
            Some(pic_url)
        } else {
            None
        },
        large_text: if album.len() > 0 {
            Some(album)
        } else {
            None
        },
    }
}

/// The song currently shown, kept so that later lyric and play-state updates can
/// rebuild the activity.
pub struct ActivityState {
    pub song_name: String,
    pub artist: String,
    pub album: String,
    pub pic_url: String,
    pub duration_secs: u64,
    pub playing: bool,
    /// Unix time, in seconds, at which the song started.
    pub start_ts: i64,
}

/// The song shown, as the specifications see it.
pub struct ShownSong {
    pub song_name: Seq<char>,
    pub artist: Seq<char>,
    pub album: Seq<char>,
    pub pic_url: Seq<char>,
    pub duration_secs: u64,
    pub playing: bool,
    pub start_ts: i64,
}

impl View for ActivityState {
    type V = ShownSong;

    open spec fn view(&self) -> ShownSong {
        ShownSong {
            song_name: self.song_name@,
            artist: self.artist@,
            album: self.album@,
            pic_url: self.pic_url@,
            duration_secs: self.duration_secs,
            playing: self.playing,
            start_ts: self.start_ts,
        }
    }
}

/// End of the song, in Unix seconds.
pub open spec fn song_end(song: ShownSong) -> int {
    song.start_ts + (song.duration_secs as i64)
}

/// The song's end fits in an `i64`.
pub open spec fn song_end_fits(song: ShownSong) -> bool {
    i64::MIN <= song_end(song) <= i64::MAX
}

/// The next IPC call the session asks for.
pub enum IpcAction {
    /// Nothing to do: wait for the next command.
    Wait,
    /// Reconnect to Discord, then report the outcome.
    Reconnect,
    /// Set this activity, then report the outcome.
    SetActivity(ActivityPlan),
    /// Clear the activity, then report the outcome.
    ClearActivity,
    /// Replace the shared lyric store with these lyrics.
    StoreLyrics(Vec<(u64, String)>),
    /// Empty the shared lyric store.
    ClearLyrics,
    /// Stop the session, closing the connection first when `close` holds.
    Stop { close: bool },
}

/// An IPC call as the specifications see it.
pub enum ActionView {
    Wait,
    Reconnect,
    SetActivity(PlanView),
    ClearActivity,
    StoreLyrics(Seq<(u64, Seq<char>)>),
    ClearLyrics,
    Stop { close: bool },
}

impl View for IpcAction {
    type V = ActionView;

    open spec fn view(&self) -> ActionView {
        match self {
            IpcAction::Wait => ActionView::Wait,
            IpcAction::Reconnect => ActionView::Reconnect,
            IpcAction::SetActivity(p) => ActionView::SetActivity(p@),
            IpcAction::ClearActivity => ActionView::ClearActivity,
            IpcAction::StoreLyrics(l) => ActionView::StoreLyrics(lyric_lines(l@)),
            IpcAction::ClearLyrics => ActionView::ClearLyrics,
            IpcAction::Stop { close } => ActionView::Stop { close: *close },
        }
    }
}

/// An update that waits for a reconnect to succeed.
pub enum PendingUpdate {
    /// The song just recorded is to be shown, with this lyric if any.
    Song(Option<String>),
    /// The song shown is to be shown with this lyric.
    Lyric(String),
}

/// A waiting update as the specifications see it.
pub enum PendingView {
    Song(Option<Seq<char>>),
    Lyric(Seq<char>),
}

impl View for PendingUpdate {
    type V = PendingView;

    open spec fn view(&self) -> PendingView {
        match self {
            PendingUpdate::Song(l) => PendingView::Song(opt_view(*l)),
            PendingUpdate::Lyric(l) => PendingView::Lyric(l@),
        }
    }
}

/// The session state as the specifications see it.
pub struct SessionView {
    /// Whether the connection to Discord is believed to be up.
    pub connected: bool,
    /// The song last shown, if any.
    pub song: Option<ShownSong>,
    /// While a reconnect is under way: the update to make once it succeeds.
    pub pending: Option<PendingView>,
    /// Whether the session has stopped.
    pub stopped: bool,
}

/// The plan for a new song: the state line shows the lyric or the artist, and the
/// progress bar is shown while the song plays and has a length.
pub open spec fn song_plan(song: ShownSong, lyric: Option<Seq<char>>) -> PlanView {
    plan_of(
        song.song_name,
        track_state_text(lyric, song.artist),
        if song.playing && song.duration_secs > 0 {
            Some((song.start_ts, song_end(song) as i64))
        } else {
            None
        },
        song.album,
        song.pic_url,
    )
}

/// The plan for a lyric change: the state line shows the lyric, or the artist when the
/// lyric is empty, and the progress bar is always shown.
pub open spec fn lyric_plan(song: ShownSong, lyric: Seq<char>) -> PlanView {
    plan_of(
        song.song_name,
        if lyric.len() > 0 {
            lyric_state_text(lyric)
        } else {
            artist_state_text(song.artist)
        },
        Some((song.start_ts, song_end(song) as i64)),
        song.album,
        song.pic_url,
    )
}

/// The start of a song whose playback is at `position_secs` at Unix time `now`, when
/// that start and the song's end fit in an `i64`; otherwise the song keeps its start.
pub open spec fn resynced_start(song: ShownSong, position_secs: u64, now: i64) -> i64 {
    let start = now - (position_secs as i64);
    if i64::MIN <= start <= i64::MAX && i64::MIN <= start + (song.duration_secs as i64) <= i64::MAX {
        start as i64
    } else {
        song.start_ts
    }
}

/// The song after a play-state change to `playing` at playback position
/// `position_secs`, received at Unix time `now`: the progress bar is put back in
/// sync with the position.
pub open spec fn song_after_play_state(song: ShownSong, playing: bool, position_secs: u64, now: i64) -> ShownSong {
    ShownSong { playing, start_ts: resynced_start(song, position_secs, now), ..song }
}

/// The plan for a play-state change: the state line shows the play state, and the
/// progress bar is shown only while playing a song that has a length.
pub open spec fn play_state_plan(song: ShownSong) -> PlanView {
    plan_of(
        song.song_name,
        play_state_text(song.playing),
        if song.playing && song.duration_secs > 0 {
            Some((song.start_ts, song_end(song) as i64))
        } else {
            None
        },
        song.album,
        song.pic_url,
    )
}

/// The song that an `UpdateActivity` command shows, received at Unix time `now`: it
/// started `position_secs` seconds ago.
pub open spec fn song_of_update(
    song_name: Seq<char>,
    artist: Seq<char>,
    album: Seq<char>,
    pic_url: Seq<char>,
    duration_secs: u64,
    position_secs: u64,
    playing: bool,
    now: i64,
) -> ShownSong {
    ShownSong {
        song_name,
        artist,
        album,
        pic_url,
        duration_secs,
        playing,
        start_ts: (now - (position_secs as i64)) as i64,
    }
}

/// A command can be handled without overflow or a cut inside a character: the start
/// and end of a new song fit in an `i64`, and a lyric shown at once can be cut.
pub open spec fn command_admissible(s: SessionView, c: CommandView, now: i64) -> bool {
    match c {
        CommandView::UpdateActivity { duration_secs, position_secs, current_lyric, .. } => {
            &&& i64::MIN <= now - (position_secs as i64) <= i64::MAX
            &&& i64::MIN <= (now - (position_secs as i64)) + (duration_secs as i64) <= i64::MAX
            &&& s.connected ==> (current_lyric matches Some(l) ==> lyric_cuttable(l))
        },
        CommandView::UpdateLyric { lyric } => s.connected && s.song is Some ==> lyric_cuttable(lyric),
        _ => true,
    }
}

/// What the session does with a command received at Unix time `now`: the next
/// state and the next IPC call.
pub open spec fn command_step(s: SessionView, c: CommandView, now: i64) -> (SessionView, ActionView) {
    match c {
        CommandView::UpdateActivity {
            song_name,
            artist,
            album,
            pic_url,
            duration_secs,
            position_secs,
            playing,
            current_lyric,
        } => {
            let song = song_of_update(
                song_name,
                artist,
                album,
                pic_url,
                duration_secs,
                position_secs,
                playing,
                now,
            );
            let plan = song_plan(song, current_lyric);
            if s.connected {
                (SessionView { song: Some(song), ..s }, ActionView::SetActivity(plan))
            } else {
                (
                    SessionView { song: Some(song), pending: Some(PendingView::Song(current_lyric)), ..s },
                    ActionView::Reconnect,
                )
            }
        },
        CommandView::UpdateLyric { lyric } => {
            let plan = match s.song {
                Some(song) => Some(lyric_plan(song, lyric)),
                None => None,
            };
            if s.connected {
                (
                    s,
                    match plan {
                        Some(p) => ActionView::SetActivity(p),
                        None => ActionView::Wait,
                    },
                )
            } else {
                (SessionView { pending: Some(PendingView::Lyric(lyric)), ..s }, ActionView::Reconnect)
            }
        },
        CommandView::UpdatePlayState { playing, position_secs } => match s.song {
            Some(song) => {
                let song2 = song_after_play_state(song, playing, position_secs, now);
                (SessionView { song: Some(song2), ..s }, ActionView::SetActivity(play_state_plan(song2)))
            },
            None => (s, ActionView::Wait),
        },
        CommandView::SetLyrics { lyrics } => (s, ActionView::StoreLyrics(lyrics)),
        CommandView::ClearLyrics => (s, ActionView::ClearLyrics),
        CommandView::ClearActivity => (
            SessionView { song: None, ..s },
            if s.connected {
                ActionView::ClearActivity
            } else {
                ActionView::Wait
            },
        ),
        CommandView::Shutdown => (SessionView { stopped: true, ..s }, ActionView::Stop { close: s.connected }),
    }
}

/// The lyric that the waiting update shows, if there is a song to show it with.
pub open spec fn pending_lyric_of(s: SessionView) -> Option<Seq<char>> {
    match (s.pending, s.song) {
        (Some(PendingView::Song(Some(l))), Some(_)) => Some(l),
        (Some(PendingView::Lyric(l)), Some(_)) => Some(l),
        _ => None,
    }
}

/// The activity that the waiting update sets, if there is a song to show.
pub open spec fn pending_plan(s: SessionView) -> Option<PlanView> {
    match (s.pending, s.song) {
        (Some(PendingView::Song(l)), Some(song)) => Some(song_plan(song, l)),
        (Some(PendingView::Lyric(l)), Some(song)) => Some(lyric_plan(song, l)),
        _ => None,
    }
}

/// A successful reconnect can be handled without a cut inside a character.
pub open spec fn reconnect_admissible(s: SessionView) -> bool {
    pending_lyric_of(s) matches Some(l) ==> lyric_cuttable(l)
}

/// What the session does with the outcome of a reconnect: on success it is connected
/// and makes the waiting update; on failure it drops the waiting update.
pub open spec fn reconnect_step(s: SessionView, ok: bool) -> (SessionView, ActionView) {
    if ok {
        (
            SessionView { connected: true, pending: None, ..s },
            match pending_plan(s) {
                Some(p) => ActionView::SetActivity(p),
                None => ActionView::Wait,
            },
        )
    } else {
        (SessionView { pending: None, ..s }, ActionView::Wait)
    }
}

/// The IPC session state machine.
pub struct IpcSession {
    connected: bool,
    song: Option<ActivityState>,
    pending: Option<PendingUpdate>,
    stopped: bool,
}

pub open spec fn pending_view(p: Option<PendingUpdate>) -> Option<PendingView> {
    match p {
        Some(u) => Some(u@),
        None => None,
    }
}

pub open spec fn song_view(s: Option<ActivityState>) -> Option<ShownSong> {
    match s {
        Some(st) => Some(st@),
        None => None,
    }
}

impl View for IpcSession {
    type V = SessionView;

    closed spec fn view(&self) -> SessionView {
        SessionView {
            connected: self.connected,
            song: song_view(self.song),
            pending: pending_view(self.pending),
            stopped: self.stopped,
        }
    }
}

impl IpcSession {
    /// The song kept by a session always has an end that fits in an `i64`.
    #[verifier::type_invariant]
    spec fn song_fits(&self) -> bool {
        self.song matches Some(st) ==> song_end_fits(st@)
    }

    /// A session after the first connection attempt, whose outcome is `connected`.
    pub fn new(connected: bool) -> (s: Self)
        ensures
            s@ == (SessionView { connected, song: None, pending: None, stopped: false }),
    {
        IpcSession { connected, song: None, pending: None, stopped: false }
    }

    /// Whether a reconnect is under way.
    pub fn awaiting_reconnect(&self) -> (r: bool)
        ensures
            r == self@.pending is Some,
    {
        self.pending.is_some()
    }

    /// Whether the connection is believed to be up.
    pub fn is_connected(&self) -> (r: bool)
        ensures
            r == self@.connected,
    {
        self.connected
    }

    /// Whether a song is shown.
    pub fn has_song(&self) -> (r: bool)
        ensures
            r == self@.song is Some,
    {
        self.song.is_some()
    }

    /// The lyric that the waiting update would cut, if any: a successful reconnect can
    /// be handled exactly when it can be cut.
    pub fn pending_lyric(&self) -> (r: Option<&String>)
        ensures
            match r {
                Some(l) => pending_lyric_of(self@) == Some(l@),
                None => pending_lyric_of(self@) is None,
            },
    {
        match (&self.pending, &self.song) {
            (Some(PendingUpdate::Song(Some(l))), Some(_)) => Some(l),
            (Some(PendingUpdate::Lyric(l)), Some(_)) => Some(l),
            _ => None,
        }
    }

    /// Whether the session has stopped.
    pub fn is_stopped(&self) -> (r: bool)
        ensures
            r == self@.stopped,
    {
        self.stopped
    }

    /// Handles a command received at Unix time `now`.
    pub fn on_command(&mut self, cmd: DiscordCommand, now: i64) -> (act: IpcAction)
        requires
            !old(self)@.stopped,
            old(self)@.pending is None,
            command_admissible(old(self)@, cmd@, now),
        ensures
            (final(self)@, act@) == command_step(old(self)@, cmd@, now),
    {
        proof {
            use_type_invariant(&*self);
        }
        match cmd {
            DiscordCommand::UpdateActivity {
                song_name,
                artist,
                album,
                pic_url,
                duration_secs,
                position_secs,
                playing,
                current_lyric,
            } => {
                let start_ts = now - position_secs as i64;
                let _end_ts = start_ts + duration_secs as i64;
                let song = ActivityState {
                    song_name,
                    artist,
                    album,
                    pic_url,
                    duration_secs,
                    playing,
                    start_ts,
                };
                if self.connected {
                    let plan = song_activity(&song, &current_lyric);
                    self.song = Some(song);
                    IpcAction::SetActivity(plan)
                } else {
                    self.song = Some(song);
                    self.pending = Some(PendingUpdate::Song(current_lyric));
                    IpcAction::Reconnect
                }
            },
            DiscordCommand::UpdateLyric { lyric } => {
                if self.connected {
                    match &self.song {
                        Some(song) => IpcAction::SetActivity(lyric_activity(song, lyric.as_str())),
                        None => IpcAction::Wait,
                    }
                } else {
                    self.pending = Some(PendingUpdate::Lyric(lyric));
                    IpcAction::Reconnect
                }
            },
            DiscordCommand::UpdatePlayState { playing, position_secs } => {
                match &self.song {
                    Some(song) => {
                        let updated = ActivityState {
                            song_name: song.song_name.clone(),
                            artist: song.artist.clone(),
                            album: song.album.clone(),
                            pic_url: song.pic_url.clone(),
                            duration_secs: song.duration_secs,
                            playing,
                            start_ts: resync_start(song.start_ts, song.duration_secs, position_secs, now),
                        };
                        let plan = play_state_activity(&updated);
                        self.song = Some(updated);
                        IpcAction::SetActivity(plan)
                    },
                    None => IpcAction::Wait,
                }
            },
            DiscordCommand::SetLyrics { lyrics } => IpcAction::StoreLyrics(lyrics),
            DiscordCommand::ClearLyrics => IpcAction::ClearLyrics,
            DiscordCommand::ClearActivity => {
                self.song = None;
                if self.connected {
                    IpcAction::ClearActivity
                } else {
                    IpcAction::Wait
                }
            },
            DiscordCommand::Shutdown => {
                self.stopped = true;
                IpcAction::Stop { close: self.connected }
            },
        }
    }

    /// Handles the outcome of a reconnect.
    pub fn on_reconnect(&mut self, ok: bool) -> (act: IpcAction)
        requires
            old(self)@.pending is Some,
            ok ==> reconnect_admissible(old(self)@),
        ensures
            (final(self)@, act@) == reconnect_step(old(self)@, ok),
    {
        proof {
            use_type_invariant(&*self);
        }
        let act = if ok {
            self.connected = true;
            match (&self.pending, &self.song) {
                (Some(PendingUpdate::Song(l)), Some(song)) => IpcAction::SetActivity(song_activity(song, l)),
                (Some(PendingUpdate::Lyric(l)), Some(song)) => IpcAction::SetActivity(
                    lyric_activity(song, l.as_str()),
                ),
                _ => IpcAction::Wait,
            }
        } else {
            IpcAction::Wait
        };
        self.pending = None;
        act
    }

    /// Handles the outcome of setting or clearing the activity: a failure means the
    /// connection is lost.
    pub fn on_activity_result(&mut self, ok: bool)
        ensures
            final(self)@ == (SessionView { connected: old(self)@.connected && ok, ..old(self)@ }),
    {
        proof {
            use_type_invariant(&*self);
        }
        if !ok {
            self.connected = false;
        }
    }

    /// Handles the end of the command channel: the session stops, closing the
    /// connection first if it is up.
    pub fn on_channel_closed(&mut self) -> (act: IpcAction)
        ensures
            final(self)@ == (SessionView { stopped: true, ..old(self)@ }),
            act@ == (ActionView::Stop { close: old(self)@.connected }),
    {
        proof {
            use_type_invariant(&*self);
        }
        self.stopped = true;
        IpcAction::Stop { close: self.connected }
    }
}

/// Copies an optional string.
fn clone_opt(s: &Option<String>) -> (r: Option<String>)
    ensures
        opt_view(r) == opt_view(*s),
{
    match s {
        Some(t) => Some(t.clone()),
        None => None,
    }
}

/// Builds the activity for song `name` with state line `state`.
fn make_plan(
    name: &String,
    state: String,
    timestamps: Option<(i64, i64)>,
    album: &String,
    pic_url: &String,
) -> (p: ActivityPlan)
    ensures
        p@ == plan_of(name@, state@, timestamps, album@, pic_url@),
{
    let has_album = !album.as_str().is_empty();
    let large_image = if has_album || !pic_url.as_str().is_empty() {
        Some(pic_url.clone())
    } else {
        None
    };
    let large_text = if has_album {
        Some(album.clone())
    } else {
        None
    };
    ActivityPlan {
        name: name.clone(),
        details: name.clone(),
        state,
        timestamps,
        large_image,
        large_text,
    }
}

/// Builds the activity for a new song shown with `lyric`, if any.
fn song_activity(song: &ActivityState, lyric: &Option<String>) -> (p: ActivityPlan)
    requires
        song_end_fits(song@),
        lyric matches Some(l) ==> lyric_cuttable(l@),
    ensures
        p@ == song_plan(song@, opt_view(*lyric)),
{
    let state_text = match lyric {
        Some(l) => if !l.as_str().is_empty() {
            lyric_state(l.as_str())
        } else {
            artist_state(song.artist.as_str())
        },
        None => artist_state(song.artist.as_str()),
    };
    let timestamps = if song.playing && song.duration_secs > 0 {
        let end_ts = song.start_ts + song.duration_secs as i64;
        Some((song.start_ts, end_ts))
    } else {
        None
    };
    make_plan(&song.song_name, state_text, timestamps, &song.album, &song.pic_url)
}

/// The start of a song with start `start_ts` and length `duration_secs` whose playback
/// is at `position_secs` at Unix time `now`: `now - position_secs` when it and the
/// song's end fit in an `i64`, otherwise `start_ts`.
fn resync_start(start_ts: i64, duration_secs: u64, position_secs: u64, now: i64) -> (r: i64)
    ensures
        ({
            let start = now - (position_secs as i64);
            r == if i64::MIN <= start <= i64::MAX && i64::MIN <= start + (duration_secs as i64) <= i64::MAX {
                start as i64
            } else {
                start_ts
            }
        }),
{
    match now.checked_sub(position_secs as i64) {
        Some(start) => match start.checked_add(duration_secs as i64) {
            Some(_) => start,
            None => start_ts,
        },
        None => start_ts,
    }
}

/// Builds the activity for a lyric change of the song shown.
fn lyric_activity(song: &ActivityState, lyric: &str) -> (p: ActivityPlan)
    requires
        song_end_fits(song@),
        lyric_cuttable(lyric@),
    ensures
        p@ == lyric_plan(song@, lyric@),
{
    let state_text = if !lyric.is_empty() {
        lyric_state(lyric)
    } else {
        artist_state(song.artist.as_str())
    };
    let end_ts = song.start_ts + song.duration_secs as i64;
    make_plan(&song.song_name, state_text, Some((song.start_ts, end_ts)), &song.album, &song.pic_url)
}

/// Builds the activity for a play-state change of the song shown.
fn play_state_activity(song: &ActivityState) -> (p: ActivityPlan)
    requires
        song_end_fits(song@),
    ensures
        p@ == play_state_plan(song@),
{
    let timestamps = if song.playing && song.duration_secs > 0 {
        let end_ts = song.start_ts + song.duration_secs as i64;
        Some((song.start_ts, end_ts))
    } else {
        None
    };
    make_plan(&song.song_name, play_state(song.playing), timestamps, &song.album, &song.pic_url)
}

/// A play-state change keeps the song shown (name, artist, album, cover, duration),
/// records whether it plays, puts the progress bar back in sync with the playback
/// position, and sets the activity from it; with no song shown it changes nothing.
pub proof fn law_play_state_keeps_song(s: SessionView, playing: bool, position_secs: u64, now: i64)
    ensures
        ({
            let (s2, a) = command_step(s, CommandView::UpdatePlayState { playing, position_secs }, now);
            match s.song {
                Some(song) => {
                    let song2 = song_after_play_state(song, playing, position_secs, now);
                    &&& s2.song == Some(song2)
                    &&& song2.song_name == song.song_name
                    &&& song2.artist == song.artist
                    &&& song2.album == song.album
                    &&& song2.pic_url == song.pic_url
                    &&& song2.duration_secs == song.duration_secs
                    &&& song2.playing == playing
                    &&& s2.connected == s.connected
                    &&& a == ActionView::SetActivity(play_state_plan(song2))
                },
                None => s2 == s && a == ActionView::Wait,
            }
        }),
{
}

/// A play-state change puts the progress bar back in sync: while playing a song with
/// a length, the bar starts `position_secs` before `now` and ends a duration later.
pub proof fn law_play_state_resyncs_bar(song: ShownSong, position_secs: u64, now: i64)
    requires
        song_end_fits(song),
        song.duration_secs > 0,
        position_secs <= i64::MAX,
        song.duration_secs <= i64::MAX,
        i64::MIN <= now - position_secs,
        now - position_secs + song.duration_secs <= i64::MAX,
    ensures
        play_state_plan(song_after_play_state(song, true, position_secs, now)).timestamps == Some(
            ((now - position_secs) as i64, (now - position_secs + song.duration_secs) as i64),
        ),
{
}

/// Clearing the activity forgets the song shown, and asks Discord to clear the
/// activity exactly when connected.
pub proof fn law_clear_activity_forgets_song(s: SessionView, now: i64)
    ensures
        ({
            let (s2, a) = command_step(s, CommandView::ClearActivity, now);
            &&& s2.song is None
            &&& (a == ActionView::ClearActivity) == s.connected
            &&& !s.connected ==> a == ActionView::Wait
        }),
{
}

/// A new song is recorded whether or not the connection is up, so that later lyric
/// and play-state updates rebuild it.
pub proof fn law_update_records_song(
    s: SessionView,
    song_name: Seq<char>,
    artist: Seq<char>,
    album: Seq<char>,
    pic_url: Seq<char>,
    duration_secs: u64,
    position_secs: u64,
    playing: bool,
    current_lyric: Option<Seq<char>>,
    now: i64,
)
    ensures
        command_step(
            s,
            CommandView::UpdateActivity {
                song_name,
                artist,
                album,
                pic_url,
                duration_secs,
                position_secs,
                playing,
                current_lyric,
            },
            now,
        ).0.song == Some(
            song_of_update(song_name, artist, album, pic_url, duration_secs, position_secs, playing, now),
        ),
{
}

/// The progress bar of a new song starts `position_secs` seconds before `now` and
/// spans the song's duration.
pub proof fn law_progress_bar_spans_song(
    s: SessionView,
    song_name: Seq<char>,
    artist: Seq<char>,
    album: Seq<char>,
    pic_url: Seq<char>,
    duration_secs: u64,
    position_secs: u64,
    playing: bool,
    current_lyric: Option<Seq<char>>,
    now: i64,
)
    requires
        duration_secs <= i64::MAX,
        position_secs <= i64::MAX,
        command_admissible(
            s,
            CommandView::UpdateActivity {
                song_name,
                artist,
                album,
                pic_url,
                duration_secs,
                position_secs,
                playing,
                current_lyric,
            },
            now,
        ),
    ensures
        ({
            let song = song_of_update(
                song_name,
                artist,
                album,
                pic_url,
                duration_secs,
                position_secs,
                playing,
                now,
            );
            &&& song.start_ts == now - position_secs
            &&& song_plan(song, current_lyric).timestamps matches Some((a, b)) ==> {
                &&& a == now - position_secs
                &&& b - a == duration_secs
            }
            &&& (song_plan(song, current_lyric).timestamps is Some) == (playing && duration_secs > 0)
        }),
{
}

/// While disconnected, a command that needs the connection first asks to reconnect;
/// when the reconnect succeeds, the session ends up exactly as if it had been
/// connected all along, and sets the same activity.
pub proof fn law_reconnect_then_send(s: SessionView, c: CommandView, now: i64)
    requires
        !s.connected,
        s.pending is None,
        command_step(s, c, now).1 == ActionView::Reconnect,
    ensures
        reconnect_step(command_step(s, c, now).0, true) == command_step(
            SessionView { connected: true, ..s },
            c,
            now,
        ),
{
}

/// When the reconnect fails, nothing is sent, the connection stays down, and only the
/// song recorded by the command remains.
pub proof fn law_failed_reconnect_sends_nothing(s: SessionView, c: CommandView, now: i64)
    requires
        !s.connected,
        s.pending is None,
        command_step(s, c, now).1 == ActionView::Reconnect,
    ensures
        ({
            let (s2, a) = reconnect_step(command_step(s, c, now).0, false);
            &&& a == ActionView::Wait
            &&& !s2.connected
            &&& s2.pending is None
            &&& s2.song == command_step(s, c, now).0.song
        }),
{
}

/// Shutting down stops the session and closes the connection exactly when it is up.
pub proof fn law_shutdown_closes_when_connected(s: SessionView, now: i64)
    ensures
        command_step(s, CommandView::Shutdown, now) == (
        SessionView { stopped: true, ..s },
        ActionView::Stop { close: s.connected },
        ),
{
}

/// Something that happens to a session: a command received at a Unix time, or the
/// outcome of an IPC call it asked for, or the end of the command channel.
pub enum SessionEvent {
    Command(CommandView, i64),
    Reconnected(bool),
    ActivityResult(bool),
    ChannelClosed,
}

/// The state after one event.
pub open spec fn event_step(s: SessionView, e: SessionEvent) -> SessionView {
    match e {
        SessionEvent::Command(c, now) => command_step(s, c, now).0,
        SessionEvent::Reconnected(ok) => reconnect_step(s, ok).0,
        SessionEvent::ActivityResult(ok) => SessionView { connected: s.connected && ok, ..s },
        SessionEvent::ChannelClosed => SessionView { stopped: true, ..s },
    }
}

/// The state after a run of events, in order.
pub open spec fn run_events(s: SessionView, es: Seq<SessionEvent>) -> SessionView
    decreases es.len(),
{
    if es.len() == 0 {
        s
    } else {
        run_events(event_step(s, es[0]), es.drop_first())
    }
}

/// The event neither clears the activity nor shows a new song.
pub open spec fn keeps_song_event(e: SessionEvent) -> bool {
    match e {
        SessionEvent::Command(CommandView::ClearActivity, _) => false,
        SessionEvent::Command(CommandView::UpdateActivity { .. }, _) => false,
        _ => true,
    }
}

/// The event does not change the play state either.
pub open spec fn keeps_play_state_event(e: SessionEvent) -> bool {
    &&& keeps_song_event(e)
    &&& !(e matches SessionEvent::Command(CommandView::UpdatePlayState { .. }, _))
}

/// Two shown songs are the same song: name, artist, album, cover and duration agree.
pub open spec fn same_song(a: ShownSong, b: ShownSong) -> bool {
    &&& a.song_name == b.song_name
    &&& a.artist == b.artist
    &&& a.album == b.album
    &&& a.pic_url == b.pic_url
    &&& a.duration_secs == b.duration_secs
}

/// The song shown survives every run of events that neither clears the activity nor
/// shows a new song; when no play-state change comes either, it survives unchanged.
pub proof fn law_song_survives_run(s: SessionView, es: Seq<SessionEvent>)
    requires
        forall|i: int| 0 <= i < es.len() ==> keeps_song_event(#[trigger] es[i]),
    ensures
        s.song matches Some(song) ==> (run_events(s, es).song matches Some(song2) && same_song(
            song,
            song2,
        )),
        s.song is None ==> run_events(s, es).song is None,
        (forall|i: int| 0 <= i < es.len() ==> keeps_play_state_event(#[trigger] es[i]))
            ==> run_events(s, es).song == s.song,
    decreases es.len(),
{
    if es.len() > 0 {
        let rest = es.drop_first();
        assert(keeps_song_event(es[0]));
        assert forall|i: int| 0 <= i < rest.len() implies keeps_song_event(#[trigger] rest[i]) by {
            assert(keeps_song_event(es[i + 1]));
        }
        law_song_survives_run(event_step(s, es[0]), rest);
        if forall|i: int| 0 <= i < es.len() ==> keeps_play_state_event(#[trigger] es[i]) {
            assert(keeps_play_state_event(es[0]));
            assert forall|i: int| 0 <= i < rest.len() implies keeps_play_state_event(#[trigger] rest[i]) by {
                assert(keeps_play_state_event(es[i + 1]));
            }
        }
    }
}

/// After a new song is shown, any run of events that neither clears the activity nor
/// shows another song nor changes the play state leaves it in place, so a lyric
/// update on a connected session sets the activity of that song with the lyric,
/// its progress bar starting `position_secs` before the song update.
pub proof fn law_lyric_update_shows_last_song(
    s: SessionView,
    song_name: Seq<char>,
    artist: Seq<char>,
    album: Seq<char>,
    pic_url: Seq<char>,
    duration_secs: u64,
    position_secs: u64,
    playing: bool,
    current_lyric: Option<Seq<char>>,
    now: i64,
    es: Seq<SessionEvent>,
    lyric: Seq<char>,
    later: i64,
)
    requires
        forall|i: int| 0 <= i < es.len() ==> keeps_play_state_event(#[trigger] es[i]),
        run_events(
            command_step(
                s,
                CommandView::UpdateActivity {
                    song_name,
                    artist,
                    album,
                    pic_url,
                    duration_secs,
                    position_secs,
                    playing,
                    current_lyric,
                },
                now,
            ).0,
            es,
        ).connected,
    ensures
        ({
            let song = song_of_update(
                song_name,
                artist,
                album,
                pic_url,
                duration_secs,
                position_secs,
                playing,
                now,
            );
            let s1 = command_step(
                s,
                CommandView::UpdateActivity {
                    song_name,
                    artist,
                    album,
                    pic_url,
                    duration_secs,
                    position_secs,
                    playing,
                    current_lyric,
                },
                now,
            ).0;
            command_step(run_events(s1, es), CommandView::UpdateLyric { lyric }, later).1
                == ActionView::SetActivity(lyric_plan(song, lyric))
        }),
{
    let s1 = command_step(
        s,
        CommandView::UpdateActivity {
            song_name,
            artist,
            album,
            pic_url,
            duration_secs,
            position_secs,
            playing,
            current_lyric,
        },
        now,
    ).0;
    assert forall|i: int| 0 <= i < es.len() implies keeps_song_event(#[trigger] es[i]) by {
        assert(keeps_play_state_event(es[i]));
    }
    law_song_survives_run(s1, es);
}

/// Once stopped, a session stays stopped whatever happens; a shutdown stops it.
pub proof fn law_stopped_stays_stopped(s: SessionView, es: Seq<SessionEvent>)
    requires
        s.stopped,
    ensures
        run_events(s, es).stopped,
    decreases es.len(),
{
    if es.len() > 0 {
        law_stopped_stays_stopped(event_step(s, es[0]), es.drop_first());
    }
}

/// The cover shown for a song with album `album` and cover URL `pic_url`: the cover
/// image whenever there is an album or a cover URL, captioned with the album when
/// there is one.
pub open spec fn shows_cover(p: PlanView, album: Seq<char>, pic_url: Seq<char>) -> bool {
    &&& (album.len() > 0 || pic_url.len() > 0) ==> p.large_image == Some(pic_url)
    &&& (album.len() == 0 && pic_url.len() == 0) ==> p.large_image is None
    &&& album.len() > 0 ==> p.large_text == Some(album)
    &&& album.len() == 0 ==> p.large_text is None
}

/// Handing a lyric sheet to the IPC side stores exactly that sheet, every line of it,
/// and changes nothing else; clearing the lyrics empties the store.
pub proof fn law_lyrics_commands_store_the_sheet(s: SessionView, lyrics: Seq<(u64, Seq<char>)>, now: i64)
    ensures
        command_step(s, CommandView::SetLyrics { lyrics }, now) == (s, ActionView::StoreLyrics(lyrics)),
        command_step(s, CommandView::ClearLyrics, now) == (s, ActionView::ClearLyrics),
        command_step(s, CommandView::SetLyrics { lyrics }, now).1 matches ActionView::StoreLyrics(l)
            && l.len() == lyrics.len() && (forall|i: int| 0 <= i < l.len() ==> #[trigger] l[i] == lyrics[i]),
{
}

/// A new song is shown with its title as name and details, its cover, the lyric
/// (or, without one, the artist) as state line, and, while it plays and has a length,
/// a progress bar that starts `position_secs` before `now` and spans the song.
pub proof fn law_song_update_shows_song(
    s: SessionView,
    song_name: Seq<char>,
    artist: Seq<char>,
    album: Seq<char>,
    pic_url: Seq<char>,
    duration_secs: u64,
    position_secs: u64,
    playing: bool,
    current_lyric: Option<Seq<char>>,
    now: i64,
)
    requires
        s.connected,
    ensures
        ({
            let start = (now - (position_secs as i64)) as i64;
            let (s2, a) = command_step(
                s,
                CommandView::UpdateActivity {
                    song_name,
                    artist,
                    album,
                    pic_url,
                    duration_secs,
                    position_secs,
                    playing,
                    current_lyric,
                },
                now,
            );
            &&& s2.connected && s2.pending == s.pending
            &&& a matches ActionView::SetActivity(p) && {
                &&& p.name == song_name
                &&& p.details == song_name
                &&& p.state == match current_lyric {
                    Some(l) => if l.len() > 0 {
                        "♪ "@ + lyric_display(l)
                    } else {
                        "by "@ + artist
                    },
                    None => "by "@ + artist,
                }
                &&& p.timestamps == if playing && duration_secs > 0 {
                    Some((start, (start + (duration_secs as i64)) as i64))
                } else {
                    None
                }
                &&& shows_cover(p, album, pic_url)
            }
        }),
{
}

/// A lyric change on a connected session rebuilds the activity of the song shown:
/// the same title as name and details, the same cover, a progress bar from the
/// song's start over its duration, and the lyric (or, when empty, the artist) as
/// state line; the session itself does not change.
pub proof fn law_lyric_update_shows_song(s: SessionView, lyric: Seq<char>, now: i64)
    requires
        s.connected,
        s.song is Some,
    ensures
        ({
            let song = match s.song {
                Some(x) => x,
                None => s.song->0,
            };
            let (s2, a) = command_step(s, CommandView::UpdateLyric { lyric }, now);
            &&& s2 == s
            &&& a matches ActionView::SetActivity(p) && {
                &&& p.name == song.song_name
                &&& p.details == song.song_name
                &&& p.state == if lyric.len() > 0 {
                    "♪ "@ + lyric_display(lyric)
                } else {
                    "by "@ + song.artist
                }
                &&& p.timestamps == Some((song.start_ts, (song.start_ts + (song.duration_secs as i64)) as i64))
                &&& shows_cover(p, song.album, song.pic_url)
            }
        }),
{
}

/// A play-state change on a song shown keeps its title as name and details and its
/// cover, shows "♪ playing" or "⏸ paused", and shows the progress bar, from the
/// resynced start over the song's duration, only while playing a song with a length.
pub proof fn law_play_state_shows_song(s: SessionView, playing: bool, position_secs: u64, now: i64)
    requires
        s.song is Some,
    ensures
        ({
            let song = match s.song {
                Some(x) => x,
                None => s.song->0,
            };
            let start = resynced_start(song, position_secs, now);
            let (s2, a) = command_step(s, CommandView::UpdatePlayState { playing, position_secs }, now);
            &&& s2.connected == s.connected
            &&& a matches ActionView::SetActivity(p) && {
                &&& p.name == song.song_name
                &&& p.details == song.song_name
                &&& p.state == if playing {
                    "♪ playing"@
                } else {
                    "⏸ paused"@
                }
                &&& p.timestamps == if playing && song.duration_secs > 0 {
                    Some((start, (start + (song.duration_secs as i64)) as i64))
                } else {
                    None
                }
                &&& shows_cover(p, song.album, song.pic_url)
            }
        }),
{
}

} // verus!
