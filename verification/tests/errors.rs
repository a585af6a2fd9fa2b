use streamq_native::error::{NativeError, NativeErrorCode};

fn ctx(e: &NativeError) -> Vec<(String, String)> {
    e.context()
}

#[test]
fn player_not_found_names_the_app() {
    let e = NativeError::PlayerNotFound("vlc".to_string());
    assert_eq!(e.code(), NativeErrorCode::PlayerNotFound);
    assert_eq!(e.message(), "Player not found: vlc");
    assert_eq!(ctx(&e), vec![("app".to_string(), "vlc".to_string())]);
}

#[test]
fn invalid_volume_gives_the_range() {
    let e = NativeError::InvalidVolume("1.5".to_string());
    assert_eq!(e.code(), NativeErrorCode::InvalidVolume);
    assert_eq!(e.message(), "Invalid volume: 1.5. Must be between 0.0 and 1.0");
    assert_eq!(
        ctx(&e),
        vec![("volume".to_string(), "1.5".to_string()), ("validRange".to_string(), "0.0 - 1.0".to_string())]
    );
}

#[test]
fn volume_not_controllable_gives_a_reason() {
    let e = NativeError::VolumeNotControllable;
    assert_eq!(e.code(), NativeErrorCode::VolumeNotControllable);
    assert_eq!(e.message(), "Volume is not controllable for this player");
    assert_eq!(ctx(&e), vec![("reason".to_string(), "Player does not support volume control".to_string())]);
}

#[test]
fn detail_errors_carry_their_details() {
    let cases = vec![
        (NativeError::MediaSession("m".to_string()), NativeErrorCode::MediaSession, "Media session error: m"),
        (NativeError::DbusConnection("d".to_string()), NativeErrorCode::DbusConnection, "D-Bus connection failed: d"),
        (NativeError::Portal("p".to_string()), NativeErrorCode::Portal, "Portal error: p"),
        (NativeError::OperationFailed("o".to_string()), NativeErrorCode::OperationFailed, "Operation failed: o"),
        (NativeError::WindowEffectFailed("w".to_string()), NativeErrorCode::WindowEffectFailed, "Window effect failed: w"),
        (NativeError::Generic("g".to_string()), NativeErrorCode::Generic, "Generic error: g"),
    ];
    for (e, code, message) in cases {
        assert_eq!(e.code(), code);
        assert_eq!(e.message(), message);
        let c = ctx(&e);
        assert_eq!(c.len(), 1);
        assert_eq!(c[0].0, "details");
    }
}

#[test]
fn plain_errors_have_no_context() {
    let cases = vec![
        (NativeError::WindowNotFound, NativeErrorCode::WindowNotFound, "Window not found"),
        (NativeError::InvalidWindowHandle, NativeErrorCode::InvalidWindowHandle, "Invalid window handle"),
        (NativeError::AppAudioStreamNotFound, NativeErrorCode::AppAudioStreamNotFound, "No sink inputs found for current app"),
    ];
    for (e, code, message) in cases {
        assert_eq!(e.code(), code);
        assert_eq!(e.message(), message);
        assert!(ctx(&e).is_empty());
    }
}

#[test]
fn audio_source_not_found_names_the_source() {
    let e = NativeError::AudioSourceNotFound("sink-1".to_string());
    assert_eq!(e.code(), NativeErrorCode::AudioSourceNotFound);
    assert_eq!(e.message(), "Audio source not found: sink-1");
    assert_eq!(ctx(&e), vec![("source".to_string(), "sink-1".to_string())]);
}
