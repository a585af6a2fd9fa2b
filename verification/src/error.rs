//! The errors of the native module, with the code, message and context under
//! which each is reported to the host application.
use vstd::prelude::*;
use crate::text::concat;

verus! {

/// An error of the native module.
///
/// `InvalidVolume` holds the decimal text of the rejected volume.
#[derive(Debug, Clone)]
pub enum NativeError {
    MediaSession(String),
    DbusConnection(String),
    PlayerNotFound(String),
    InvalidVolume(String),
    VolumeNotControllable,
    Portal(String),
    OperationFailed(String),
    WindowEffectFailed(String),
    WindowNotFound,
    InvalidWindowHandle,
    AudioSourceNotFound(String),
    AppAudioStreamNotFound,
    Generic(String),
}

/// The kind of a `NativeError`, without its details.
#[derive(Debug, Clone, Copy, PartialEq, Eq, Structural)]
pub enum NativeErrorCode {
    MediaSession,
    DbusConnection,
    PlayerNotFound,
    InvalidVolume,
    VolumeNotControllable,
    Portal,
    OperationFailed,
    WindowEffectFailed,
    WindowNotFound,
    InvalidWindowHandle,
    AudioSourceNotFound,
    AppAudioStreamNotFound,
    Generic,
}

impl NativeError {
    pub open spec fn spec_code(self) -> NativeErrorCode {
        match self {
            NativeError::MediaSession(_) => NativeErrorCode::MediaSession,
            NativeError::DbusConnection(_) => NativeErrorCode::DbusConnection,
            NativeError::PlayerNotFound(_) => NativeErrorCode::PlayerNotFound,
            NativeError::InvalidVolume(_) => NativeErrorCode::InvalidVolume,
            NativeError::VolumeNotControllable => NativeErrorCode::VolumeNotControllable,
            NativeError::Portal(_) => NativeErrorCode::Portal,
            NativeError::OperationFailed(_) => NativeErrorCode::OperationFailed,
            NativeError::WindowEffectFailed(_) => NativeErrorCode::WindowEffectFailed,
            NativeError::WindowNotFound => NativeErrorCode::WindowNotFound,
            NativeError::InvalidWindowHandle => NativeErrorCode::InvalidWindowHandle,
            NativeError::AudioSourceNotFound(_) => NativeErrorCode::AudioSourceNotFound,
            NativeError::AppAudioStreamNotFound => NativeErrorCode::AppAudioStreamNotFound,
            NativeError::Generic(_) => NativeErrorCode::Generic,
        }
    }

    /// The human-readable message of the error.
    pub open spec fn spec_message(self) -> Seq<char> {
        match self {
            NativeError::MediaSession(d) => "Media session error: "@ + d@,
            NativeError::DbusConnection(d) => "D-Bus connection failed: "@ + d@,
            NativeError::PlayerNotFound(d) => "Player not found: "@ + d@,
            NativeError::InvalidVolume(v) => "Invalid volume: "@ + v@ + ". Must be between 0.0 and 1.0"@,
            NativeError::VolumeNotControllable => "Volume is not controllable for this player"@,
            NativeError::Portal(d) => "Portal error: "@ + d@,
            NativeError::OperationFailed(d) => "Operation failed: "@ + d@,
            NativeError::WindowEffectFailed(d) => "Window effect failed: "@ + d@,
            NativeError::WindowNotFound => "Window not found"@,
            NativeError::InvalidWindowHandle => "Invalid window handle"@,
            NativeError::AudioSourceNotFound(d) => "Audio source not found: "@ + d@,
            NativeError::AppAudioStreamNotFound => "No sink inputs found for current app"@,
            NativeError::Generic(d) => "Generic error: "@ + d@,
        }
    }

    /// The key-value details attached to the error, in order.
    pub open spec fn spec_context(self) -> Seq<(Seq<char>, Seq<char>)> {
        match self {
            NativeError::PlayerNotFound(app) => seq![("app"@, app@)],
            NativeError::InvalidVolume(v) => seq![("volume"@, v@), ("validRange"@, "0.0 - 1.0"@)],
            NativeError::DbusConnection(d) => seq![("details"@, d@)],
            NativeError::MediaSession(d) => seq![("details"@, d@)],
            NativeError::Portal(d) => seq![("details"@, d@)],
            NativeError::OperationFailed(d) => seq![("details"@, d@)],
            NativeError::VolumeNotControllable => seq![("reason"@, "Player does not support volume control"@)],
            NativeError::WindowEffectFailed(d) => seq![("details"@, d@)],
            NativeError::WindowNotFound => seq![],
            NativeError::InvalidWindowHandle => seq![],
            NativeError::AppAudioStreamNotFound => seq![],
            NativeError::AudioSourceNotFound(id) => seq![("source"@, id@)],
            NativeError::Generic(d) => seq![("details"@, d@)],
        }
    }

    pub fn code(&self) -> (r: NativeErrorCode)
        ensures
            r == self.spec_code(),
    {
        match self {
            NativeError::MediaSession(_) => NativeErrorCode::MediaSession,
            NativeError::DbusConnection(_) => NativeErrorCode::DbusConnection,
            NativeError::PlayerNotFound(_) => NativeErrorCode::PlayerNotFound,
            NativeError::InvalidVolume(_) => NativeErrorCode::InvalidVolume,
            NativeError::VolumeNotControllable => NativeErrorCode::VolumeNotControllable,
            NativeError::Portal(_) => NativeErrorCode::Portal,
            NativeError::OperationFailed(_) => NativeErrorCode::OperationFailed,
            NativeError::WindowEffectFailed(_) => NativeErrorCode::WindowEffectFailed,
            NativeError::WindowNotFound => NativeErrorCode::WindowNotFound,
            NativeError::InvalidWindowHandle => NativeErrorCode::InvalidWindowHandle,
            NativeError::AudioSourceNotFound(_) => NativeErrorCode::AudioSourceNotFound,
            NativeError::AppAudioStreamNotFound => NativeErrorCode::AppAudioStreamNotFound,
            NativeError::Generic(_) => NativeErrorCode::Generic,
        }
    }

    /// The message of the error, as its `Display` shows it.
    pub fn message(&self) -> (r: String)
        ensures
            r@ == self.spec_message(),
    {
        match self {
            NativeError::MediaSession(d) => concat("Media session error: ", d.as_str()),
            NativeError::DbusConnection(d) => concat("D-Bus connection failed: ", d.as_str()),
            NativeError::PlayerNotFound(d) => concat("Player not found: ", d.as_str()),
            NativeError::InvalidVolume(v) => {
                let head = concat("Invalid volume: ", v.as_str());
                concat(head.as_str(), ". Must be between 0.0 and 1.0")
            },
            NativeError::VolumeNotControllable => "Volume is not controllable for this player".to_owned(),
            NativeError::Portal(d) => concat("Portal error: ", d.as_str()),
            NativeError::OperationFailed(d) => concat("Operation failed: ", d.as_str()),
            NativeError::WindowEffectFailed(d) => concat("Window effect failed: ", d.as_str()),
            NativeError::WindowNotFound => "Window not found".to_owned(),
            NativeError::InvalidWindowHandle => "Invalid window handle".to_owned(),
            NativeError::AudioSourceNotFound(d) => concat("Audio source not found: ", d.as_str()),
            NativeError::AppAudioStreamNotFound => "No sink inputs found for current app".to_owned(),
            NativeError::Generic(d) => concat("Generic error: ", d.as_str()),
        }
    }

    /// The details attached to the error, as key-value pairs.
    pub fn context(&self) -> (r: Vec<(String, String)>)
        ensures
            r@.len() == self.spec_context().len(),
            forall|i: int| 0 <= i < r@.len() ==> (#[trigger] r@[i].0@, r@[i].1@) == self.spec_context()[i],
    {
        let mut ctx: Vec<(String, String)> = Vec::new();
        match self {
            NativeError::PlayerNotFound(app) => {
                ctx.push(("app".to_owned(), app.clone()));
            },
            NativeError::InvalidVolume(v) => {
                ctx.push(("volume".to_owned(), v.clone()));
                ctx.push(("validRange".to_owned(), "0.0 - 1.0".to_owned()));
            },
            NativeError::DbusConnection(d) | NativeError::MediaSession(d) | NativeError::Portal(d)
            | NativeError::OperationFailed(d) => {
                ctx.push(("details".to_owned(), d.clone()));
            },
            NativeError::VolumeNotControllable => {
                ctx.push(("reason".to_owned(), "Player does not support volume control".to_owned()));
            },
            NativeError::WindowEffectFailed(details) => {
                ctx.push(("details".to_owned(), details.clone()));
            },
            NativeError::WindowNotFound | NativeError::InvalidWindowHandle | NativeError::AppAudioStreamNotFound => {},
            NativeError::AudioSourceNotFound(id) => {
                ctx.push(("source".to_owned(), id.clone()));
            },
            NativeError::Generic(details) => {
                ctx.push(("details".to_owned(), details.clone()));
            },
        }
        ctx
    }
}

} // verus!
