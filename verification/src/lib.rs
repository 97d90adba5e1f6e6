//! Playback-side logic of a Netease Cloud Music player: time-synced lyric
//! lookup and filtering, the Discord Rich Presence controller and its IPC
//! session state machine, and the now-playing lyric panel.

pub mod text;
pub mod lyrics;
pub mod presence;
pub mod ipc;
pub mod controller;
pub mod now_playing;
