pub mod keybinds;
pub mod audio_endpoints;
pub mod audio_policy;
pub mod audio_sessions;
pub mod audio_watchers;
pub mod media_session_control;
pub mod media_session_events;
pub mod window;
pub mod widgets;
