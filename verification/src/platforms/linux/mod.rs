pub mod keybinds;
pub mod audio_policy;
pub mod audio_endpoints;
pub mod audio_sessions;
pub mod mpris;
pub mod media_session_mpris;
pub mod media_session_events;
pub mod audio_watchers;
pub mod window;
pub mod widgets;
