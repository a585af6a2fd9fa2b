//! The media sessions of Windows, as the system media transport controls
//! list them: which sessions are reported, what each reports, which ones a
//! pause, a resume or a volume change addresses.
use vstd::prelude::*;
use crate::error::NativeError;
use crate::models::media::{AppMediaSession, MediaSessionState, names_of, lowercase_names, lowercase_all,
    contains_name};
use crate::platforms::windows::audio_sessions::VolumeMatch;
use crate::text::{lowercase, has_infix, str_eq, str_contains};

verus! {

/// Whether a session is the host application itself: while developing, the
/// Electron shell; otherwise any application whose name holds `streamq`.
pub open spec fn spec_is_streamq(app: Seq<char>, is_dev: bool) -> bool {
    if is_dev { app == "electron.exe"@ } else { has_infix(app, "streamq"@) }
}

pub fn is_streamq(app: String, is_dev: bool) -> (r: bool)
    ensures
        r == spec_is_streamq(app@, is_dev),
{
    if is_dev {
        str_eq(app.as_str(), "electron.exe")
    } else {
        str_contains(app.as_str(), "streamq")
    }
}

/// A session as first listed: its application id, when it could be read, and
/// whether it plays.
#[derive(Clone, Debug)]
pub struct SessionHeader {
    pub app_id: Option<String>,
    pub is_playing: bool,
}

/// The lowercase application id of a session, when it has one.
pub open spec fn lower_id(h: SessionHeader) -> Option<Seq<char>> {
    match h.app_id {
        Some(a) => Some(lowercase(a@)),
        None => None,
    }
}

/// A session is the first of its application (by lowercase id).
pub open spec fn first_of_app(headers: Seq<SessionHeader>, i: int) -> bool {
    &&& lower_id(headers[i]) is Some
    &&& forall|k: int| 0 <= k < i ==> lower_id(#[trigger] headers[k]) != lower_id(headers[i])
}

/// A session that a refresh reports: the first of its application, which is
/// not the host itself.
pub open spec fn is_reported(headers: Seq<SessionHeader>, i: int, is_dev: bool) -> bool {
    first_of_app(headers, i) && !spec_is_streamq(lower_id(headers[i]).unwrap(), is_dev)
}

/// `r` lists, in increasing order, exactly the indices of `n` sessions for which `p` holds.
pub open spec fn lists_indices(r: Seq<usize>, n: int, p: spec_fn(int) -> bool) -> bool {
    &&& forall|k: int| 0 <= k < r.len() ==> r[k] < n && p(r[k] as int)
    &&& forall|a: int, b: int| 0 <= a < b < r.len() ==> r[a] < r[b]
    &&& forall|i: int| 0 <= i < n && #[trigger] p(i) ==> r.contains(i as usize)
}

fn seen_before(lowered: &Vec<String>, id: &str) -> (r: bool)
    ensures
        r == names_of(lowered@).contains(id@),
{
    contains_name(lowered, id)
}

/// The sessions that a refresh reports, by index.
pub fn select_sessions(headers: &Vec<SessionHeader>, is_dev: bool) -> (r: Vec<usize>)
    ensures
        lists_indices(r@, headers@.len() as int, |i: int| is_reported(headers@, i, is_dev)),
{
    let ghost p = |i: int| is_reported(headers@, i, is_dev);
    let mut seen: Vec<String> = Vec::new();
    let mut out: Vec<usize> = Vec::new();
    let mut i: usize = 0;
    while i < headers.len()
        invariant
            i <= headers.len(),
            forall|x: int| #[trigger] p(x) == is_reported(headers@, x, is_dev),
            forall|x: Seq<char>| names_of(seen@).contains(x) <==> exists|k: int| 0 <= k < i && lower_id(#[trigger] headers@[k]) == Some(x),
            forall|k: int| 0 <= k < out@.len() ==> out@[k] < i && p(out@[k] as int),
            forall|a: int, b: int| 0 <= a < b < out@.len() ==> out@[a] < out@[b],
            forall|x: int| 0 <= x < i && #[trigger] p(x) ==> out@.contains(x as usize),
        decreases headers.len() - i,
    {
        let ghost ob = out@;
        if let Some(app_id) = &headers[i].app_id {
            let lowered = app_id.as_str().to_lowercase();
            let dup = seen_before(&seen, lowered.as_str());
            proof {
                assert(lower_id(headers@[i as int]) == Some(lowered@));
                if !dup {
                    assert forall|k: int| 0 <= k < i implies lower_id(#[trigger] headers@[k]) != lower_id(headers@[i as int]) by {
                        if lower_id(headers@[k]) == Some(lowered@) {
                            assert(names_of(seen@).contains(lowered@));
                        }
                    }
                    assert(first_of_app(headers@, i as int));
                } else {
                    let k = choose|k: int| 0 <= k < i && lower_id(#[trigger] headers@[k]) == Some(lowered@);
                    assert(!first_of_app(headers@, i as int));
                }
            }
            if !dup {
                let ghost before = seen@;
                let ghost lv = lowered@;
                let ours = is_streamq(lowered.clone(), is_dev);
                seen.push(lowered);
                proof {
                    assert(names_of(seen@) =~= names_of(before).push(lv));
                    assert forall|x: Seq<char>| names_of(seen@).contains(x) <==> exists|k: int| 0 <= k < i + 1 && lower_id(#[trigger] headers@[k]) == Some(x) by {
                        if names_of(seen@).contains(x) {
                            let j = choose|j: int| 0 <= j < names_of(seen@).len() && names_of(seen@)[j] == x;
                            if j < before.len() {
                                assert(names_of(before)[j] == x);
                                assert(names_of(before).contains(x));
                            } else {
                                assert(lower_id(headers@[i as int]) == Some(x));
                            }
                        }
                        if exists|k: int| 0 <= k < i + 1 && lower_id(#[trigger] headers@[k]) == Some(x) {
                            let k = choose|k: int| 0 <= k < i + 1 && lower_id(#[trigger] headers@[k]) == Some(x);
                            if k < i {
                                assert(names_of(before).contains(x));
                                let j = choose|j: int| 0 <= j < names_of(before).len() && names_of(before)[j] == x;
                                assert(names_of(seen@)[j] == x);
                            } else {
                                assert(names_of(seen@)[before.len() as int] == x);
                            }
                        }
                    }
                }
                if !ours {
                    out.push(i);
                    proof {
                        assert(out@[out@.len() - 1] == i);
                    }
                }
                proof {
                    assert(p(i as int) ==> out@.contains(i));
                }
            } else {
                proof {
                    assert forall|x: Seq<char>| names_of(seen@).contains(x) <==> exists|k: int| 0 <= k < i + 1 && lower_id(#[trigger] headers@[k]) == Some(x) by {
                        if exists|k: int| 0 <= k < i + 1 && lower_id(#[trigger] headers@[k]) == Some(x) {
                            let k = choose|k: int| 0 <= k < i + 1 && lower_id(#[trigger] headers@[k]) == Some(x);
                            if k == i {
                                assert(names_of(seen@).contains(lowered@));
                            }
                        }
                    }
                    assert(!p(i as int));
                }
            }
        } else {
            proof {
                assert(!first_of_app(headers@, i as int));
                assert forall|x: Seq<char>| names_of(seen@).contains(x) <==> exists|k: int| 0 <= k < i + 1 && lower_id(#[trigger] headers@[k]) == Some(x) by {
                    if exists|k: int| 0 <= k < i + 1 && lower_id(#[trigger] headers@[k]) == Some(x) {
                        let k = choose|k: int| 0 <= k < i + 1 && lower_id(#[trigger] headers@[k]) == Some(x);
                        assert(k != i);
                    }
                }
                assert(!p(i as int));
            }
        }
        proof {
            assert(out@ == ob || out@ == ob.push(i));
            assert forall|x: int| 0 <= x < i + 1 && #[trigger] p(x) implies out@.contains(x as usize) by {
                if x < i {
                    assert(ob.contains(x as usize));
                    let j = choose|j: int| 0 <= j < ob.len() && ob[j] == x as usize;
                    assert(out@[j] == ob[j]);
                }
            }
        }
        i += 1;
    }
    out
}

/// What the module learned of a reported session: its application id (as
/// listed), whether it plays, its track, its artwork as resolved, and its
/// position and end time (bit patterns, in milliseconds).
#[derive(Clone, Debug)]
pub struct TransportReport {
    pub app: String,
    pub is_playing: bool,
    pub title: Option<String>,
    pub artist: Option<String>,
    pub art: Option<String>,
    pub position: Option<u64>,
    pub duration: Option<u64>,
}

/// The volumes filed under a name (the first entry with that name).
pub open spec fn volume_for(volumes: Seq<(String, VolumeMatch)>, name: Seq<char>) -> Option<VolumeMatch>
    decreases volumes.len(),
{
    if volumes.len() == 0 {
        None
    } else if volumes[0].0@ == name {
        Some(volumes[0].1)
    } else {
        volume_for(volumes.drop_first(), name)
    }
}

/// The session that a report stands for at time `now`, with the volumes of
/// its application when the mixer knows them.
pub open spec fn transport_session(r: TransportReport, is_resumed: bool, is_suppressed: bool, vm: Option<VolumeMatch>, now: u64) -> AppMediaSession {
    AppMediaSession {
        app: r.app,
        title: r.title,
        artist: r.artist,
        is_resumed: is_resumed,
        is_suppressed: is_suppressed,
        volume: match vm { Some(m) => Some(m.app_volume), None => None },
        device: match vm { Some(m) => Some(m.device_id), None => None },
        device_volume: match vm { Some(m) => Some(m.device_volume), None => None },
        can_control: None,
        updated_at: now,
        activated_at: now,
        url: None,
        art: r.art,
        position: r.position,
        duration: r.duration,
    }
}

/// The sessions of a round of reports at time `now`, given the suppressed
/// applications and the mixer's volumes.
pub open spec fn transport_sessions(
    reports: Seq<TransportReport>,
    suppressed: Set<Seq<char>>,
    volumes: Seq<(String, VolumeMatch)>,
    now: u64,
) -> Seq<AppMediaSession> {
    Seq::new(reports.len(), |i: int| transport_session(
        reports[i],
        reports[i].is_playing,
        suppressed.contains(lowercase(reports[i].app@)),
        volume_for(volumes, lowercase(reports[i].app@)),
        now,
    ))
}

/// Each session of a round of reports keeps its report's application, track,
/// artwork, position and length in their own places, plays exactly when the
/// report plays, is suppressed exactly when its lowercase application is, takes
/// the volumes filed under that application, cannot be controlled, has no
/// link, and is dated `now`.
pub proof fn lemma_transport_sessions_carry_reports(
    reports: Seq<TransportReport>,
    suppressed: Set<Seq<char>>,
    volumes: Seq<(String, VolumeMatch)>,
    now: u64,
    i: int,
)
    requires
        0 <= i < reports.len(),
    ensures
        ({
            let s = transport_sessions(reports, suppressed, volumes, now)[i];
            let r = reports[i];
            let vm = volume_for(volumes, lowercase(r.app@));
            &&& transport_sessions(reports, suppressed, volumes, now).len() == reports.len()
            &&& s.app == r.app && s.title == r.title && s.artist == r.artist && s.art == r.art
            &&& s.position == r.position && s.duration == r.duration
            &&& s.is_resumed == r.is_playing
            &&& s.is_suppressed == suppressed.contains(lowercase(r.app@))
            &&& s.volume == (match vm { Some(m) => Some(m.app_volume), None => None })
            &&& s.device == (match vm { Some(m) => Some(m.device_id), None => None })
            &&& s.device_volume == (match vm { Some(m) => Some(m.device_volume), None => None })
            &&& s.can_control is None && s.url is None
            &&& s.updated_at == now && s.activated_at == now
        }),
{
}

/// The lowercase applications of the reports that play, in order.
pub open spec fn playing_transport_apps(reports: Seq<TransportReport>) -> Seq<Seq<char>>
    decreases reports.len(),
{
    if reports.len() == 0 {
        Seq::empty()
    } else if reports.last().is_playing {
        playing_transport_apps(reports.drop_last()).push(lowercase(reports.last().app@))
    } else {
        playing_transport_apps(reports.drop_last())
    }
}

fn find_volume(volumes: &Vec<(String, VolumeMatch)>, name: &str) -> (r: Option<VolumeMatch>)
    ensures
        r == volume_for(volumes@, name@),
{
    let mut i: usize = 0;
    proof {
        assert(volumes@.skip(0) =~= volumes@);
    }
    while i < volumes.len()
        invariant
            i <= volumes.len(),
            volume_for(volumes@, name@) == volume_for(volumes@.skip(i as int), name@),
        decreases volumes.len() - i,
    {
        proof {
            assert(volumes@.skip(i as int)[0] == volumes@[i as int]);
            assert(volumes@.skip(i as int).drop_first() =~= volumes@.skip(i + 1));
        }
        if str_eq(volumes[i].0.as_str(), name) {
            let m = &volumes[i].1;
            return Some(VolumeMatch { app_volume: m.app_volume, device_id: m.device_id.clone(), device_volume: m.device_volume });
        }
        i += 1;
    }
    None
}

fn clone_opt(o: &Option<String>) -> (r: Option<String>)
    ensures
        r == *o,
{
    match o {
        Some(s) => Some(s.clone()),
        None => None,
    }
}

fn make_session(r: &TransportReport, is_resumed: bool, is_suppressed: bool, vm: Option<VolumeMatch>, now: u64) -> (s: AppMediaSession)
    ensures
        s == transport_session(*r, is_resumed, is_suppressed, vm, now),
{
    let (volume, device, device_volume) = match vm {
        Some(m) => (Some(m.app_volume), Some(m.device_id), Some(m.device_volume)),
        None => (None, None, None),
    };
    AppMediaSession {
        app: r.app.clone(),
        title: clone_opt(&r.title),
        artist: clone_opt(&r.artist),
        is_resumed,
        is_suppressed,
        volume,
        device,
        device_volume,
        can_control: None,
        updated_at: now,
        activated_at: now,
        url: None,
        art: clone_opt(&r.art),
        position: r.position,
        duration: r.duration,
    }
}

/// The outcome of a refresh: the managed artwork that no longer shows, and
/// the sessions to announce when they changed.
pub struct PlaybackUpdate {
    pub released_art: Vec<String>,
    pub changed: Option<Vec<AppMediaSession>>,
}

/// What a refresh of the `reports` at time `now` does to the state `s0`,
/// leaving `s1`, and what it hands back: the invariant holds, the suppression
/// of every application that plays is lifted, the managed artwork that no new
/// session shows is released, and the sessions are reported (and stored) as
/// `MediaSessionState::emit_if_changed` does.
pub open spec fn playback_updated(
    s0: MediaSessionState,
    s1: MediaSessionState,
    reports: Seq<TransportReport>,
    volumes: Seq<(String, VolumeMatch)>,
    now: u64,
    r: PlaybackUpdate,
) -> bool {
    let built = transport_sessions(reports, s0.suppressed_set(), volumes, now);
    &&& s1.wf()
    &&& s1.suppressed_set() == s0.suppressed_set().filter(|a: Seq<char>| !playing_transport_apps(reports).contains(a))
    &&& names_of(r.released_art@) == crate::thumbnails::unreferenced_arts(s0.sessions_view(), built)
    &&& crate::models::media::sessions_changed(s0.sessions_view(), built) ==> {
        &&& r.changed is Some
        &&& r.changed.unwrap()@ == crate::models::media::carried_sessions(s0.sessions_view(), built)
        &&& s1.sessions_view() == r.changed.unwrap()@
    }
    &&& !crate::models::media::sessions_changed(s0.sessions_view(), built) ==> {
        &&& r.changed is None
        &&& s1.sessions_view() == s0.sessions_view()
    }
    &&& s1.spec_system_volume() == s0.spec_system_volume()
}

/// Takes a round of reports (of the sessions that `select_sessions` chose, in
/// order) at time `now`: builds their sessions (see `transport_sessions`),
/// lifts the suppression of every application that plays, hands back the
/// managed artwork that no new session shows, and reports the sessions as
/// `MediaSessionState::emit_if_changed` does.
pub fn handle_playback_update(
    state: &mut MediaSessionState,
    reports: &Vec<TransportReport>,
    volumes: &Vec<(String, VolumeMatch)>,
    now: u64,
) -> (r: PlaybackUpdate)
    requires
        old(state).wf(),
    ensures
        playback_updated(*old(state), *final(state), reports@, volumes@, now, r),
{
    let ghost built = transport_sessions(reports@, old(state).suppressed_set(), volumes@, now);
    let mut sessions: Vec<AppMediaSession> = Vec::new();
    let mut playing: Vec<String> = Vec::new();
    let mut i: usize = 0;
    while i < reports.len()
        invariant
            i <= reports.len(),
            state.wf(),
            *state == *old(state),
            built == transport_sessions(reports@, old(state).suppressed_set(), volumes@, now),
            sessions@ == built.take(i as int),
            names_of(playing@) == playing_transport_apps(reports@.take(i as int)),
        decreases reports.len() - i,
    {
        let report = &reports[i];
        let lowered = report.app.as_str().to_lowercase();
        let suppressed = state.is_suppressed(lowered.as_str());
        let vm = find_volume(volumes, lowered.as_str());
        let session = make_session(report, report.is_playing, suppressed, vm, now);
        proof {
            assert(session == built[i as int]);
        }
        sessions.push(session);
        proof {
            assert(sessions@ =~= built.take(i + 1));
            assert(reports@.take(i + 1).drop_last() =~= reports@.take(i as int));
            assert(reports@.take(i + 1).last() == reports@[i as int]);
        }
        if report.is_playing {
            let ghost before = playing@;
            playing.push(lowered);
            proof {
                assert(names_of(playing@) =~= names_of(before).push(lowercase(reports@[i as int].app@)));
            }
        }
        i += 1;
    }
    proof {
        assert(reports@.take(reports.len() as int) =~= reports@);
        assert(built.take(reports.len() as int) =~= built);
    }
    let previous = state.sessions();
    let released_art = crate::thumbnails::Thumbnails::release_unreferenced(&previous, &sessions);
    state.retain_not_playing(&playing);
    proof {
        assert(names_of(released_art@) =~= released_art@.map_values(|s: String| s@));
    }
    let changed = state.emit_if_changed(sessions);
    PlaybackUpdate { released_art, changed }
}

/// A session that a pause of `apps` addresses: its lowercase application id
/// is one of the asked applications in lowercase, it is not the host itself,
/// and it plays.
pub open spec fn is_pause_target(h: SessionHeader, apps: Seq<String>, is_dev: bool) -> bool {
    &&& lower_id(h) is Some
    &&& lowercase_names(apps).contains(lower_id(h).unwrap())
    &&& !spec_is_streamq(lower_id(h).unwrap(), is_dev)
    &&& h.is_playing
}

/// A session that a resume of `apps` addresses: its lowercase application id
/// is one of the asked applications in lowercase.
pub open spec fn is_resume_target(h: SessionHeader, apps: Seq<String>) -> bool {
    lower_id(h) is Some && lowercase_names(apps).contains(lower_id(h).unwrap())
}

/// The sessions, by index, that a pause of `apps` addresses.
pub fn pause_targets(headers: &Vec<SessionHeader>, apps: &Vec<String>, is_dev: bool) -> (r: Vec<usize>)
    ensures
        lists_indices(r@, headers@.len() as int, |i: int| is_pause_target(headers@[i], apps@, is_dev)),
{
    let lowered_apps = lowercase_all(apps);
    let ghost p = |i: int| is_pause_target(headers@[i], apps@, is_dev);
    let mut out: Vec<usize> = Vec::new();
    let mut i: usize = 0;
    while i < headers.len()
        invariant
            i <= headers.len(),
            names_of(lowered_apps@) == lowercase_names(apps@),
            forall|x: int| #[trigger] p(x) == is_pause_target(headers@[x], apps@, is_dev),
            forall|k: int| 0 <= k < out@.len() ==> out@[k] < i && p(out@[k] as int),
            forall|a: int, b: int| 0 <= a < b < out@.len() ==> out@[a] < out@[b],
            forall|x: int| 0 <= x < i && #[trigger] p(x) ==> out@.contains(x as usize),
        decreases headers.len() - i,
    {
        let ghost ob = out@;
        let h = &headers[i];
        let mut take = false;
        if let Some(app_id) = &h.app_id {
            let lowered = app_id.as_str().to_lowercase();
            if contains_name(&lowered_apps, lowered.as_str()) && h.is_playing {
                take = !is_streamq(lowered, is_dev);
            }
        }
        proof {
            assert(take == p(i as int));
        }
        if take {
            out.push(i);
            proof {
                assert(out@[out@.len() - 1] == i);
            }
        }
        proof {
            assert forall|x: int| 0 <= x < i + 1 && #[trigger] p(x) implies out@.contains(x as usize) by {
                if x < i {
                    assert(ob.contains(x as usize));
                    let j = choose|j: int| 0 <= j < ob.len() && ob[j] == x as usize;
                    assert(out@[j] == ob[j]);
                }
            }
        }
        i += 1;
    }
    out
}

/// The sessions, by index, that a resume of `apps` addresses.
pub fn resume_targets(headers: &Vec<SessionHeader>, apps: &Vec<String>) -> (r: Vec<usize>)
    ensures
        lists_indices(r@, headers@.len() as int, |i: int| is_resume_target(headers@[i], apps@)),
{
    let lowered_apps = lowercase_all(apps);
    let ghost p = |i: int| is_resume_target(headers@[i], apps@);
    let mut out: Vec<usize> = Vec::new();
    let mut i: usize = 0;
    while i < headers.len()
        invariant
            i <= headers.len(),
            names_of(lowered_apps@) == lowercase_names(apps@),
            forall|x: int| #[trigger] p(x) == is_resume_target(headers@[x], apps@),
            forall|k: int| 0 <= k < out@.len() ==> out@[k] < i && p(out@[k] as int),
            forall|a: int, b: int| 0 <= a < b < out@.len() ==> out@[a] < out@[b],
            forall|x: int| 0 <= x < i && #[trigger] p(x) ==> out@.contains(x as usize),
        decreases headers.len() - i,
    {
        let ghost ob = out@;
        let mut take = false;
        if let Some(app_id) = &headers[i].app_id {
            let lowered = app_id.as_str().to_lowercase();
            take = contains_name(&lowered_apps, lowered.as_str());
        }
        proof {
            assert(take == p(i as int));
        }
        if take {
            out.push(i);
            proof {
                assert(out@[out@.len() - 1] == i);
            }
        }
        proof {
            assert forall|x: int| 0 <= x < i + 1 && #[trigger] p(x) implies out@.contains(x as usize) by {
                if x < i {
                    assert(ob.contains(x as usize));
                    let j = choose|j: int| 0 <= j < ob.len() && ob[j] == x as usize;
                    assert(out@[j] == ob[j]);
                }
            }
        }
        i += 1;
    }
    out
}

/// What recording the `paused` reports at time `now` does to the state `s0`,
/// leaving `s1`, and the sessions `r` it hands back: each report becomes a
/// session that neither plays nor escapes suppression, with the volumes of its
/// application, and the lowercase application of each is suppressed.
pub open spec fn pause_recorded(
    s0: MediaSessionState,
    s1: MediaSessionState,
    paused: Seq<TransportReport>,
    volumes: Seq<(String, VolumeMatch)>,
    now: u64,
    r: Seq<AppMediaSession>,
) -> bool {
    &&& s1.wf()
    &&& r.len() == paused.len()
    &&& forall|i: int| 0 <= i < paused.len() ==> r[i] == transport_session(
        #[trigger] paused[i],
        false,
        true,
        volume_for(volumes, lowercase(paused[i].app@)),
        now,
    )
    &&& forall|i: int| 0 <= i < paused.len() ==> {
        &&& (#[trigger] r[i]).app == paused[i].app && r[i].title == paused[i].title && r[i].artist == paused[i].artist
        &&& r[i].art == paused[i].art && r[i].position == paused[i].position && r[i].duration == paused[i].duration
        &&& !r[i].is_resumed && r[i].is_suppressed
    }
    &&& s1.suppressed_set() == s0.suppressed_set().union(paused.map_values(|p: TransportReport| lowercase(p.app@)).to_set())
    &&& s1.sessions_view() == s0.sessions_view()
    &&& s1.spec_system_volume() == s0.spec_system_volume()
}

/// Records the sessions that a pause did pause, at time `now`: each becomes a
/// session that neither plays nor escapes suppression, with the volumes of its
/// application, and its lowercase application is suppressed.
pub fn finish_pause(
    state: &mut MediaSessionState,
    paused: &Vec<TransportReport>,
    volumes: &Vec<(String, VolumeMatch)>,
    now: u64,
) -> (r: Vec<AppMediaSession>)
    requires
        old(state).wf(),
    ensures
        pause_recorded(*old(state), *final(state), paused@, volumes@, now, r@),
{
    let ghost apps = paused@.map_values(|p: TransportReport| lowercase(p.app@));
    let mut out: Vec<AppMediaSession> = Vec::new();
    let mut i: usize = 0;
    proof {
        assert(apps.take(0).to_set() =~= Set::<Seq<char>>::empty());
        assert(old(state).suppressed_set().union(Set::<Seq<char>>::empty()) =~= old(state).suppressed_set());
    }
    while i < paused.len()
        invariant
            i <= paused.len(),
            state.wf(),
            apps == paused@.map_values(|p: TransportReport| lowercase(p.app@)),
            out@.len() == i,
            forall|k: int| 0 <= k < i ==> out@[k] == transport_session(
                #[trigger] paused@[k],
                false,
                true,
                volume_for(volumes@, lowercase(paused@[k].app@)),
                now,
            ),
            state.suppressed_set() == old(state).suppressed_set().union(apps.take(i as int).to_set()),
            state.sessions_view() == old(state).sessions_view(),
            state.spec_system_volume() == old(state).spec_system_volume(),
        decreases paused.len() - i,
    {
        let report = &paused[i];
        let lowered = report.app.as_str().to_lowercase();
        let vm = find_volume(volumes, lowered.as_str());
        out.push(make_session(report, false, true, vm, now));
        state.suppress(lowered);
        proof {
            assert(apps.take(i + 1) =~= apps.take(i as int).push(apps[i as int]));
            apps.take(i as int).lemma_push_to_set_commute(apps[i as int]);
            assert(old(state).suppressed_set().union(apps.take(i + 1).to_set()) =~= old(state).suppressed_set().union(
                apps.take(i as int).to_set(),
            ).insert(apps[i as int]));
        }
        i += 1;
    }
    proof {
        assert(apps.take(paused.len() as int) =~= apps);
    }
    out
}

/// What was read of one listed session besides its header: its track, its
/// artwork as resolved, and its position and end time (bit patterns, in
/// milliseconds). A read that failed leaves the fields it would have filled
/// empty.
#[derive(Clone, Debug)]
pub struct SessionRead {
    pub title: Option<String>,
    pub artist: Option<String>,
    pub art: Option<String>,
    pub position: Option<u64>,
    pub duration: Option<u64>,
}

/// The report of a listed session: its application id as listed, whether it
/// plays, and what was read of it.
pub open spec fn report_of(h: SessionHeader, read: SessionRead, is_playing: bool) -> TransportReport {
    TransportReport {
        app: h.app_id.unwrap(),
        is_playing: is_playing,
        title: read.title,
        artist: read.artist,
        art: read.art,
        position: read.position,
        duration: read.duration,
    }
}

/// The reports of the sessions at the indices `sel`, in that order.
pub open spec fn reports_at(headers: Seq<SessionHeader>, reads: Seq<SessionRead>, sel: Seq<usize>) -> Seq<TransportReport> {
    Seq::new(sel.len(), |k: int| report_of(headers[sel[k] as int], reads[sel[k] as int], headers[sel[k] as int].is_playing))
}

fn report_from(h: &SessionHeader, read: &SessionRead, is_playing: bool) -> (r: TransportReport)
    requires
        h.app_id is Some,
    ensures
        r == report_of(*h, *read, is_playing),
{
    let app = match &h.app_id {
        Some(a) => a.clone(),
        None => String::new(),
    };
    TransportReport {
        app,
        is_playing,
        title: clone_opt(&read.title),
        artist: clone_opt(&read.artist),
        art: clone_opt(&read.art),
        position: read.position,
        duration: read.duration,
    }
}

/// A refresh of the listed sessions: which ones were reported, by index, and
/// what the refresh did.
pub struct Refresh {
    pub reported: Vec<usize>,
    pub update: PlaybackUpdate,
}

/// Refreshes the state from a listing of sessions at time `now`: `reads[i]`
/// is what was read of the session of `headers[i]` (only the reported ones
/// need to be read). The sessions reported are one per application, the first
/// listed, never the host itself, in the order listed; the refresh is
/// `handle_playback_update` of their reports.
pub fn refresh_sessions(
    state: &mut MediaSessionState,
    headers: &Vec<SessionHeader>,
    reads: &Vec<SessionRead>,
    volumes: &Vec<(String, VolumeMatch)>,
    is_dev: bool,
    now: u64,
) -> (r: Refresh)
    requires
        old(state).wf(),
        headers@.len() == reads@.len(),
    ensures
        lists_indices(r.reported@, headers@.len() as int, |i: int| is_reported(headers@, i, is_dev)),
        playback_updated(*old(state), *final(state), reports_at(headers@, reads@, r.reported@), volumes@, now, r.update),
{
    let reported = select_sessions(headers, is_dev);
    let ghost p = |i: int| is_reported(headers@, i, is_dev);
    let mut reports: Vec<TransportReport> = Vec::new();
    let mut k: usize = 0;
    while k < reported.len()
        invariant
            k <= reported.len(),
            headers@.len() == reads@.len(),
            lists_indices(reported@, headers@.len() as int, p),
            forall|x: int| #[trigger] p(x) == is_reported(headers@, x, is_dev),
            reports@ == reports_at(headers@, reads@, reported@).take(k as int),
        decreases reported.len() - k,
    {
        let i = reported[k];
        proof {
            assert(p(i as int));
            assert(lower_id(headers@[i as int]) is Some);
        }
        let report = report_from(&headers[i], &reads[i], headers[i].is_playing);
        reports.push(report);
        proof {
            assert(reports@ =~= reports_at(headers@, reads@, reported@).take(k + 1));
        }
        k += 1;
    }
    proof {
        assert(reports_at(headers@, reads@, reported@).take(reported@.len() as int) =~= reports_at(headers@, reads@, reported@));
    }
    let update = handle_playback_update(state, &reports, volumes, now);
    Refresh { reported, update }
}

/// The reports of the pause targets at the indices `sel` whose pause
/// succeeded (an outcome with what was read of it), in order; each still
/// counts as playing, as it played when it was paused.
pub open spec fn paused_reports(headers: Seq<SessionHeader>, outcomes: Seq<Option<SessionRead>>, sel: Seq<usize>) -> Seq<TransportReport>
    decreases sel.len(),
{
    if sel.len() == 0 {
        Seq::empty()
    } else {
        let rest = paused_reports(headers, outcomes, sel.drop_last());
        match outcomes[sel.last() as int] {
            Some(read) => rest.push(report_of(headers[sel.last() as int], read, true)),
            None => rest,
        }
    }
}

/// A pause of the listed sessions: which ones it addressed, by index, and
/// the sessions it paused.
pub struct PauseRecord {
    pub targets: Vec<usize>,
    pub paused: Vec<AppMediaSession>,
}

/// Records a pause of `apps` at time `now`: `outcomes[i]` holds what was read
/// of the session of `headers[i]` when asking it to pause succeeded, and
/// nothing otherwise (only the targets are asked). The targets are the
/// sessions that `pause_targets` names; those that paused are recorded as
/// `finish_pause` does, in the order listed.
pub fn record_pause(
    state: &mut MediaSessionState,
    headers: &Vec<SessionHeader>,
    apps: &Vec<String>,
    is_dev: bool,
    outcomes: &Vec<Option<SessionRead>>,
    volumes: &Vec<(String, VolumeMatch)>,
    now: u64,
) -> (r: PauseRecord)
    requires
        old(state).wf(),
        headers@.len() == outcomes@.len(),
    ensures
        lists_indices(r.targets@, headers@.len() as int, |i: int| is_pause_target(headers@[i], apps@, is_dev)),
        pause_recorded(*old(state), *final(state), paused_reports(headers@, outcomes@, r.targets@), volumes@, now, r.paused@),
{
    let targets = pause_targets(headers, apps, is_dev);
    let ghost p = |i: int| is_pause_target(headers@[i], apps@, is_dev);
    let mut paused: Vec<TransportReport> = Vec::new();
    let mut k: usize = 0;
    proof {
        assert(targets@.take(0) =~= Seq::<usize>::empty());
    }
    while k < targets.len()
        invariant
            k <= targets.len(),
            headers@.len() == outcomes@.len(),
            lists_indices(targets@, headers@.len() as int, p),
            forall|x: int| #[trigger] p(x) == is_pause_target(headers@[x], apps@, is_dev),
            paused@ == paused_reports(headers@, outcomes@, targets@.take(k as int)),
        decreases targets.len() - k,
    {
        let i = targets[k];
        proof {
            assert(p(i as int));
            assert(targets@.take(k + 1).drop_last() =~= targets@.take(k as int));
            assert(targets@.take(k + 1).last() == i);
        }
        match &outcomes[i] {
            Some(read) => {
                let report = report_from(&headers[i], read, true);
                paused.push(report);
            },
            None => {},
        }
        k += 1;
    }
    proof {
        assert(targets@.take(targets@.len() as int) =~= targets@);
    }
    let done = finish_pause(state, &paused, volumes, now);
    PauseRecord { targets, paused: done }
}

/// The session whose volume a change for `app` sets: the first whose
/// application id matches `app` in lowercase; none is an unknown player.
pub open spec fn volume_session(headers: Seq<SessionHeader>, app: Seq<char>) -> Option<int>
    decreases headers.len(),
{
    if headers.len() == 0 {
        None
    } else if lower_id(headers[0]) == Some(lowercase(app)) {
        Some(0)
    } else {
        match volume_session(headers.drop_first(), app) {
            Some(k) => Some(k + 1),
            None => None,
        }
    }
}

/// The session, by index, whose volume a change for `app` sets, or
/// `PlayerNotFound` with the application as asked.
pub fn volume_target(headers: &Vec<SessionHeader>, app: &str) -> (r: Result<usize, NativeError>)
    ensures
        match r {
            Ok(k) => volume_session(headers@, app@) == Some(k as int),
            Err(e) => volume_session(headers@, app@) is None && (e matches NativeError::PlayerNotFound(s) && s@ == app@),
        },
{
    let wanted = app.to_lowercase();
    let mut i: usize = 0;
    proof {
        assert(headers@.skip(0) =~= headers@);
    }
    while i < headers.len()
        invariant
            i <= headers.len(),
            wanted@ == lowercase(app@),
            volume_session(headers@, app@) == (match volume_session(headers@.skip(i as int), app@) {
                Some(k) => Some(k + i),
                None => None,
            }),
        decreases headers.len() - i,
    {
        proof {
            assert(headers@.skip(i as int)[0] == headers@[i as int]);
            assert(headers@.skip(i as int).drop_first() =~= headers@.skip(i + 1));
        }
        if let Some(app_id) = &headers[i].app_id {
            let lowered = app_id.as_str().to_lowercase();
            if str_eq(lowered.as_str(), wanted.as_str()) {
                return Ok(i);
            }
        }
        i += 1;
    }
    Err(NativeError::PlayerNotFound(app.to_owned()))
}

} // verus!
