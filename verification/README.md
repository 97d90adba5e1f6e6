# netease_cloud_music_gtk4

The playback-side logic of a GTK4 Netease Cloud Music player, written in Verus
and verified against its contracts.

- `src/lyrics.rs` — which lyric line is in effect at a playback position, and
  which lines of a lyric sheet are shown (blank lines, credit lines and
  repeated timestamps are dropped).
- `src/presence.rs` — the state line of the Discord Rich Presence card, with
  long lyrics cut to fit Discord's limit.
- `src/ipc.rs` — the commands sent to the Discord IPC side and the session
  state machine that turns each command, and each outcome of an IPC call, into
  the next state and the next call.
- `src/controller.rs` — the player-side controller: the lyric store, update
  throttling, and the commands it sends.
- `src/now_playing.rs` — the lyric panel of the now-playing view (highlight and
  line styles, seek positions) and where the album cover comes from.
- `src/text.rs` — trimming and prefix tests on strings.

`app/` runs the integration: the IPC thread that owns the Discord client and
performs the calls the session asks for, and the thread-safe handle the player
calls. `tests/` exercises the library on concrete values.
