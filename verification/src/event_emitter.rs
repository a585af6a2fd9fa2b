//! The events the module sends to the host, and the names under which the
//! host listens to them.
use vstd::prelude::*;
use crate::text::str_eq;

verus! {

/// The kinds of event.
#[derive(Clone, Copy, Debug, PartialEq, Eq, Structural)]
pub enum EventKind {
    KeyDown,
    KeyUp,
    MouseDown,
    MouseUp,
    KeybindPressed,
    MediaAction,
    MediaSessionsChanged,
    SourcesChanged,
    AppAudioSourceChanged,
}

/// The name under which the host listens to a kind of event.
pub open spec fn spec_js_name(k: EventKind) -> Seq<char> {
    match k {
        EventKind::KeyDown => "keyDown"@,
        EventKind::KeyUp => "keyUp"@,
        EventKind::MouseDown => "mouseDown"@,
        EventKind::MouseUp => "mouseUp"@,
        EventKind::KeybindPressed => "keybindPressed"@,
        EventKind::MediaAction => "mediaAction"@,
        EventKind::MediaSessionsChanged => "mediaSessionsChanged"@,
        EventKind::SourcesChanged => "sourcesChanged"@,
        EventKind::AppAudioSourceChanged => "appAudioSourceChanged"@,
    }
}

/// The kind of event a listener name stands for; none for a name no event
/// has, whose listener is ignored.
pub open spec fn spec_event_kind(name: Seq<char>) -> Option<EventKind> {
    if name == "keyDown"@ {
        Some(EventKind::KeyDown)
    } else if name == "keyUp"@ {
        Some(EventKind::KeyUp)
    } else if name == "mouseDown"@ {
        Some(EventKind::MouseDown)
    } else if name == "mouseUp"@ {
        Some(EventKind::MouseUp)
    } else if name == "keybindPressed"@ {
        Some(EventKind::KeybindPressed)
    } else if name == "mediaAction"@ {
        Some(EventKind::MediaAction)
    } else if name == "mediaSessionsChanged"@ {
        Some(EventKind::MediaSessionsChanged)
    } else if name == "sourcesChanged"@ {
        Some(EventKind::SourcesChanged)
    } else if name == "appAudioSourceChanged"@ {
        Some(EventKind::AppAudioSourceChanged)
    } else {
        None
    }
}

pub fn js_name(k: EventKind) -> (r: &'static str)
    ensures
        r@ == spec_js_name(k),
{
    match k {
        EventKind::KeyDown => "keyDown",
        EventKind::KeyUp => "keyUp",
        EventKind::MouseDown => "mouseDown",
        EventKind::MouseUp => "mouseUp",
        EventKind::KeybindPressed => "keybindPressed",
        EventKind::MediaAction => "mediaAction",
        EventKind::MediaSessionsChanged => "mediaSessionsChanged",
        EventKind::SourcesChanged => "sourcesChanged",
        EventKind::AppAudioSourceChanged => "appAudioSourceChanged",
    }
}

pub fn event_kind(name: &str) -> (r: Option<EventKind>)
    ensures
        r == spec_event_kind(name@),
{
    if str_eq(name, "keyDown") {
        Some(EventKind::KeyDown)
    } else if str_eq(name, "keyUp") {
        Some(EventKind::KeyUp)
    } else if str_eq(name, "mouseDown") {
        Some(EventKind::MouseDown)
    } else if str_eq(name, "mouseUp") {
        Some(EventKind::MouseUp)
    } else if str_eq(name, "keybindPressed") {
        Some(EventKind::KeybindPressed)
    } else if str_eq(name, "mediaAction") {
        Some(EventKind::MediaAction)
    } else if str_eq(name, "mediaSessionsChanged") {
        Some(EventKind::MediaSessionsChanged)
    } else if str_eq(name, "sourcesChanged") {
        Some(EventKind::SourcesChanged)
    } else if str_eq(name, "appAudioSourceChanged") {
        Some(EventKind::AppAudioSourceChanged)
    } else {
        None
    }
}

/// Every kind of event is found again under its name.
pub proof fn lemma_event_name_round_trip(k: EventKind)
    ensures
        spec_event_kind(spec_js_name(k)) == Some(k),
{
    reveal_strlit("keyDown");
    reveal_strlit("keyUp");
    reveal_strlit("mouseDown");
    reveal_strlit("mouseUp");
    reveal_strlit("keybindPressed");
    reveal_strlit("mediaAction");
    reveal_strlit("mediaSessionsChanged");
    reveal_strlit("sourcesChanged");
    reveal_strlit("appAudioSourceChanged");
    match k {
        EventKind::KeyDown => {

        },
        EventKind::KeyUp => {
            assert("keyUp"@.len() != "keyDown"@.len());
        },
        EventKind::MouseDown => {
            assert("mouseDown"@.len() != "keyDown"@.len());
            assert("mouseDown"@.len() != "keyUp"@.len());
        },
        EventKind::MouseUp => {
            assert("mouseUp"@[0] != "keyDown"@[0]);
            assert("mouseUp"@.len() != "keyUp"@.len());
            assert("mouseUp"@.len() != "mouseDown"@.len());
        },
        EventKind::KeybindPressed => {
            assert("keybindPressed"@.len() != "keyDown"@.len());
            assert("keybindPressed"@.len() != "keyUp"@.len());
            assert("keybindPressed"@.len() != "mouseDown"@.len());
            assert("keybindPressed"@.len() != "mouseUp"@.len());
        },
        EventKind::MediaAction => {
            assert("mediaAction"@.len() != "keyDown"@.len());
            assert("mediaAction"@.len() != "keyUp"@.len());
            assert("mediaAction"@.len() != "mouseDown"@.len());
            assert("mediaAction"@.len() != "mouseUp"@.len());
            assert("mediaAction"@.len() != "keybindPressed"@.len());
        },
        EventKind::MediaSessionsChanged => {
            assert("mediaSessionsChanged"@.len() != "keyDown"@.len());
            assert("mediaSessionsChanged"@.len() != "keyUp"@.len());
            assert("mediaSessionsChanged"@.len() != "mouseDown"@.len());
            assert("mediaSessionsChanged"@.len() != "mouseUp"@.len());
            assert("mediaSessionsChanged"@.len() != "keybindPressed"@.len());
            assert("mediaSessionsChanged"@.len() != "mediaAction"@.len());
        },
        EventKind::SourcesChanged => {
            assert("sourcesChanged"@.len() != "keyDown"@.len());
            assert("sourcesChanged"@.len() != "keyUp"@.len());
            assert("sourcesChanged"@.len() != "mouseDown"@.len());
            assert("sourcesChanged"@.len() != "mouseUp"@.len());
            assert("sourcesChanged"@[0] != "keybindPressed"@[0]);
            assert("sourcesChanged"@.len() != "mediaAction"@.len());
            assert("sourcesChanged"@.len() != "mediaSessionsChanged"@.len());
        },
        EventKind::AppAudioSourceChanged => {
            assert("appAudioSourceChanged"@.len() != "keyDown"@.len());
            assert("appAudioSourceChanged"@.len() != "keyUp"@.len());
            assert("appAudioSourceChanged"@.len() != "mouseDown"@.len());
            assert("appAudioSourceChanged"@.len() != "mouseUp"@.len());
            assert("appAudioSourceChanged"@.len() != "keybindPressed"@.len());
            assert("appAudioSourceChanged"@.len() != "mediaAction"@.len());
            assert("appAudioSourceChanged"@.len() != "mediaSessionsChanged"@.len());
            assert("appAudioSourceChanged"@.len() != "sourcesChanged"@.len());
        },
    }
}

} // verus!
