//! The media players of the desktop, as MPRIS announces them on the session
//! bus: which bus names are players, what each reports, which ones a pause or a
//! resume addresses, and how their artwork is found.
use vstd::prelude::*;
use crate::error::NativeError;
use crate::models::media::{AppMediaSession, MediaSessionState, opt_view, names_of, lowercase_names};
use crate::text::{lowercase, has_prefix, has_suffix, has_infix, str_eq, str_starts_with, str_ends_with,
    str_contains, concat, to_chars, substring, last_segment, str_last_segment, push_str};
use vstd::utf8::{encode_utf8, valid_utf8, decode_utf8};
use vstd::string::StrSliceExecFns;

verus! {

/// The bus name prefix of MPRIS players.
pub const MPRIS_PREFIX: &'static str = "org.mpris.MediaPlayer2.";

/// A bus name that stands for a player of another application: an MPRIS name
/// that is neither the `playerctld` proxy nor the module's own player.
pub open spec fn is_foreign_player(name: Seq<char>) -> bool {
    &&& has_prefix(name, MPRIS_PREFIX@)
    &&& !has_suffix(name, ".playerctld"@)
    &&& !has_suffix(name, ".streamq"@)
}

pub open spec fn foreign_players(names: Seq<Seq<char>>) -> Seq<Seq<char>> {
    names.filter(|n: Seq<char>| is_foreign_player(n))
}

/// The players among the names on the bus, in their order.
pub fn list_mpris_players(names: &Vec<String>) -> (r: Vec<String>)
    ensures
        names_of(r@) == foreign_players(names_of(names@)),
{
    let ghost all = names_of(names@);
    let mut out: Vec<String> = Vec::new();
    let mut i: usize = 0;
    while i < names.len()
        invariant
            i <= names.len(),
            all == names_of(names@),
            names_of(out@) == foreign_players(all.take(i as int)),
        decreases names.len() - i,
    {
        let n = names[i].as_str();
        let keep = str_starts_with(n, MPRIS_PREFIX) && !str_ends_with(n, ".playerctld") && !str_ends_with(n, ".streamq");
        proof {
            assert(all.take(i + 1).drop_last() =~= all.take(i as int));
            assert(all.take(i + 1).last() == n@);
            reveal(Seq::filter);
        }
        if keep {
            let ghost before = out@;
            out.push(names[i].clone());
            proof {
                assert(names_of(out@) =~= names_of(before).push(n@));
            }
        }
        i += 1;
    }
    proof {
        assert(all.take(names.len() as int) =~= all);
    }
    out
}

/// The application of a player: its bus name without the MPRIS prefix.
pub open spec fn spec_player_app(name: Seq<char>) -> Seq<char> {
    if has_prefix(name, MPRIS_PREFIX@) {
        name.skip(MPRIS_PREFIX@.len() as int)
    } else {
        name
    }
}

pub fn player_app(name: &str) -> (r: String)
    ensures
        r@ == spec_player_app(name@),
{
    if str_starts_with(name, MPRIS_PREFIX) {
        let cs = to_chars(name);
        let p = to_chars(MPRIS_PREFIX);
        let r = substring(cs.as_slice(), p.len(), cs.len());
        proof {
            assert(r@ =~= name@.skip(MPRIS_PREFIX@.len() as int));
        }
        r
    } else {
        name.to_owned()
    }
}

/// The bus name of an application's player.
pub fn player_bus_name(app: &str) -> (r: String)
    ensures
        r@ == MPRIS_PREFIX@ + app@,
{
    concat(MPRIS_PREFIX, app)
}

/// Whether a player is the host application itself: while developing, the
/// Electron shell; otherwise any application whose name holds `streamq`.
pub open spec fn spec_is_streamq(app: Seq<char>, is_dev: bool) -> bool {
    if is_dev { app == "electron"@ } else { has_infix(app, "streamq"@) }
}

pub fn is_streamq(app: String, is_dev: bool) -> (r: bool)
    ensures
        r == spec_is_streamq(app@, is_dev),
{
    if is_dev {
        str_eq(app.as_str(), "electron")
    } else {
        str_contains(app.as_str(), "streamq")
    }
}

/// An element of an array in player metadata.
#[derive(Clone, Debug)]
pub enum MetaItem {
    Str(String),
    Other,
}

/// A value of player metadata, as far as the module reads it.
#[derive(Clone, Debug)]
pub enum MetaValue {
    Str(String),
    Array(Vec<MetaItem>),
    I64(i64),
    U64(u64),
    I32(i32),
    U32(u32),
    Other,
}

/// The value filed under a key (the first entry with that key).
pub open spec fn meta_get(meta: Seq<(String, MetaValue)>, key: Seq<char>) -> Option<MetaValue>
    decreases meta.len(),
{
    if meta.len() == 0 {
        None
    } else if meta[0].0@ == key {
        Some(meta[0].1)
    } else {
        meta_get(meta.drop_first(), key)
    }
}

/// The text of a metadata value: a string, or the first element of an array
/// when that is a string.
pub open spec fn meta_text(v: Option<MetaValue>) -> Option<Seq<char>> {
    match v {
        Some(MetaValue::Str(s)) => Some(s@),
        Some(MetaValue::Array(a)) => if a@.len() > 0 {
            match a@[0] {
                MetaItem::Str(s) => Some(s@),
                MetaItem::Other => None,
            }
        } else {
            None
        },
        _ => None,
    }
}

/// The integer of a metadata value, of whichever integer type (an unsigned
/// 64-bit value is reinterpreted as signed).
pub open spec fn meta_int(v: Option<MetaValue>) -> Option<i64> {
    match v {
        Some(MetaValue::I64(x)) => Some(x),
        Some(MetaValue::U64(x)) => Some(x as i64),
        Some(MetaValue::I32(x)) => Some(x as i64),
        Some(MetaValue::U32(x)) => Some(x as i64),
        _ => None,
    }
}

fn meta_find(meta: &Vec<(String, MetaValue)>, key: &str) -> (r: Option<usize>)
    ensures
        match r {
            Some(k) => k < meta.len() && meta_get(meta@, key@) == Some(meta@[k as int].1),
            None => meta_get(meta@, key@) is None,
        },
{
    let mut i: usize = 0;
    proof {
        assert(meta@.skip(0) =~= meta@);
    }
    while i < meta.len()
        invariant
            i <= meta.len(),
            meta_get(meta@, key@) == meta_get(meta@.skip(i as int), key@),
        decreases meta.len() - i,
    {
        proof {
            assert(meta@.skip(i as int)[0] == meta@[i as int]);
            assert(meta@.skip(i as int).drop_first() =~= meta@.skip(i + 1));
        }
        if str_eq(meta[i].0.as_str(), key) {
            return Some(i);
        }
        i += 1;
    }
    None
}

/// The text filed under a key of player metadata.
pub fn extract_str(meta: &Vec<(String, MetaValue)>, key: &str) -> (r: Option<String>)
    ensures
        opt_view(r) == meta_text(meta_get(meta@, key@)),
{
    match meta_find(meta, key) {
        Some(k) => match &meta[k].1 {
            MetaValue::Str(s) => Some(s.clone()),
            MetaValue::Array(a) => if a.len() > 0 {
                match &a[0] {
                    MetaItem::Str(s) => Some(s.clone()),
                    MetaItem::Other => None,
                }
            } else {
                None
            },
            _ => None,
        },
        None => None,
    }
}

/// The integer filed under a key of player metadata.
pub fn extract_i64(meta: &Vec<(String, MetaValue)>, key: &str) -> (r: Option<i64>)
    ensures
        r == meta_int(meta_get(meta@, key@)),
{
    match meta_find(meta, key) {
        Some(k) => match &meta[k].1 {
            MetaValue::I64(x) => Some(*x),
            MetaValue::U64(x) => Some(*x as i64),
            MetaValue::I32(x) => Some(*x as i64),
            MetaValue::U32(x) => Some(*x as i64),
            _ => None,
        },
        None => None,
    }
}

/// What a player's metadata tells of its track; the length is in microseconds.
#[derive(Clone, Debug)]
pub struct PlayerMetadata {
    pub title: Option<String>,
    pub artist: Option<String>,
    pub url: Option<String>,
    pub art: Option<String>,
    pub length: Option<i64>,
}

/// Reads title, artist, URL, artwork and length from a player's metadata.
pub fn metadata_strings(meta: &Vec<(String, MetaValue)>) -> (r: PlayerMetadata)
    ensures
        opt_view(r.title) == meta_text(meta_get(meta@, "xesam:title"@)),
        opt_view(r.artist) == meta_text(meta_get(meta@, "xesam:artist"@)),
        opt_view(r.url) == meta_text(meta_get(meta@, "xesam:url"@)),
        opt_view(r.art) == meta_text(meta_get(meta@, "mpris:artUrl"@)),
        r.length == meta_int(meta_get(meta@, "mpris:length"@)),
{
    PlayerMetadata {
        title: extract_str(meta, "xesam:title"),
        artist: extract_str(meta, "xesam:artist"),
        url: extract_str(meta, "xesam:url"),
        art: extract_str(meta, "mpris:artUrl"),
        length: extract_i64(meta, "mpris:length"),
    }
}

/// What the module learned of one player: its application, whether it plays,
/// its track, its artwork as resolved, its volume (bit pattern), whether its
/// volume can be controlled, its position and duration (bit patterns, in
/// milliseconds), and the output device it plays on with that device's volume.
#[derive(Clone, Debug)]
pub struct PlayerReport {
    pub app: String,
    pub is_playing: bool,
    pub title: Option<String>,
    pub artist: Option<String>,
    pub url: Option<String>,
    pub art: Option<String>,
    pub volume: Option<u64>,
    pub can_control: bool,
    pub position: Option<u64>,
    pub duration: Option<u64>,
    pub device: Option<String>,
    pub device_volume: Option<u64>,
}

/// The session that a player's report stands for at time `now`.
pub open spec fn report_session(r: PlayerReport, is_resumed: bool, is_suppressed: bool, now: u64) -> AppMediaSession {
    AppMediaSession {
        app: r.app,
        title: r.title,
        artist: r.artist,
        is_resumed: is_resumed,
        is_suppressed: is_suppressed,
        volume: r.volume,
        device: r.device,
        device_volume: r.device_volume,
        can_control: Some(r.can_control),
        updated_at: now,
        activated_at: now,
        url: r.url,
        art: r.art,
        position: r.position,
        duration: r.duration,
    }
}

/// A session stands for a player's report when it carries the report's
/// application, track, link, artwork, volumes, device, position and length as
/// reported, can be controlled exactly when the player says so, and is dated
/// `now`.
pub open spec fn carries_report(s: AppMediaSession, r: PlayerReport, now: u64) -> bool {
    &&& s.app == r.app
    &&& s.title == r.title
    &&& s.artist == r.artist
    &&& s.url == r.url
    &&& s.art == r.art
    &&& s.volume == r.volume
    &&& s.device == r.device
    &&& s.device_volume == r.device_volume
    &&& s.position == r.position
    &&& s.duration == r.duration
    &&& s.can_control == Some(r.can_control)
    &&& s.updated_at == now
    &&& s.activated_at == now
}

/// The session of a report keeps each field of the report in its own place
/// (the title as the title, the artist as the artist, and so on).
pub proof fn lemma_report_session_carries_report(r: PlayerReport, is_suppressed: bool, now: u64)
    ensures
        carries_report(report_session(r, r.is_playing, is_suppressed, now), r, now),
        report_session(r, r.is_playing, is_suppressed, now).is_resumed == r.is_playing,
        report_session(r, r.is_playing, is_suppressed, now).is_suppressed == is_suppressed,
{
}

fn clone_opt(o: &Option<String>) -> (r: Option<String>)
    ensures
        r == *o,
{
    match o {
        Some(s) => Some(s.clone()),
        None => None,
    }
}

fn make_session(r: &PlayerReport, is_resumed: bool, is_suppressed: bool, now: u64) -> (s: AppMediaSession)
    ensures
        s == report_session(*r, is_resumed, is_suppressed, now),
{
    AppMediaSession {
        app: r.app.clone(),
        title: clone_opt(&r.title),
        artist: clone_opt(&r.artist),
        is_resumed,
        is_suppressed,
        volume: r.volume,
        device: clone_opt(&r.device),
        device_volume: r.device_volume,
        can_control: Some(r.can_control),
        updated_at: now,
        activated_at: now,
        url: clone_opt(&r.url),
        art: clone_opt(&r.art),
        position: r.position,
        duration: r.duration,
    }
}

/// The lowercase applications of the players that play, in report order.
pub open spec fn playing_apps(reports: Seq<PlayerReport>) -> Seq<Seq<char>>
    decreases reports.len(),
{
    if reports.len() == 0 {
        Seq::empty()
    } else if reports.last().is_playing {
        playing_apps(reports.drop_last()).push(lowercase(reports.last().app@))
    } else {
        playing_apps(reports.drop_last())
    }
}

/// The sessions of a round of player reports, the managed artwork that no
/// longer shows, and the state after the round.
pub struct CollectedSessions {
    pub sessions: Vec<AppMediaSession>,
    pub released_art: Vec<String>,
}

/// Turns one round of player reports into sessions at time `now`. A session is
/// marked suppressed when its lowercase application was paused on the user's
/// behalf; every application that plays again stops being suppressed; the
/// managed artwork of the sessions last reported that no new session shows is
/// handed back to be deleted. The sessions last reported stay as they are:
/// reporting the new ones is `MediaSessionState::emit_if_changed`.
pub fn collect_media_sessions(state: &mut MediaSessionState, reports: &Vec<PlayerReport>, now: u64) -> (r: CollectedSessions)
    requires
        old(state).wf(),
    ensures
        final(state).wf(),
        r.sessions@.len() == reports@.len(),
        forall|i: int| 0 <= i < reports@.len() ==> r.sessions@[i] == report_session(
            #[trigger] reports@[i],
            reports@[i].is_playing,
            old(state).suppressed_set().contains(lowercase(reports@[i].app@)),
            now,
        ),
        forall|i: int| 0 <= i < reports@.len() ==> carries_report(#[trigger] r.sessions@[i], reports@[i], now)
            && r.sessions@[i].is_resumed == reports@[i].is_playing,
        final(state).suppressed_set() == old(state).suppressed_set().filter(
            |a: Seq<char>| !playing_apps(reports@).contains(a),
        ),
        names_of(r.released_art@) == crate::thumbnails::unreferenced_arts(old(state).sessions_view(), r.sessions@),
        final(state).sessions_view() == old(state).sessions_view(),
        final(state).spec_system_volume() == old(state).spec_system_volume(),
{
    let mut sessions: Vec<AppMediaSession> = Vec::new();
    let mut playing: Vec<String> = Vec::new();
    let mut i: usize = 0;
    while i < reports.len()
        invariant
            i <= reports.len(),
            state.wf(),
            *state == *old(state),
            sessions@.len() == i,
            forall|k: int| 0 <= k < i ==> sessions@[k] == report_session(
                #[trigger] reports@[k],
                reports@[k].is_playing,
                old(state).suppressed_set().contains(lowercase(reports@[k].app@)),
                now,
            ),
            names_of(playing@) == playing_apps(reports@.take(i as int)),
        decreases reports.len() - i,
    {
        let report = &reports[i];
        let lowered = report.app.as_str().to_lowercase();
        let suppressed = state.is_suppressed(lowered.as_str());
        sessions.push(make_session(report, report.is_playing, suppressed, now));
        proof {
            assert(reports@.take(i + 1).drop_last() =~= reports@.take(i as int));
            assert(reports@.take(i + 1).last() == reports@[i as int]);
        }
        if report.is_playing {
            let ghost before = playing@;
            playing.push(lowered);
            proof {
                assert(names_of(playing@) =~= names_of(before).push(lowercase(reports@[i as int].app@)));
            }
        }
        i += 1;
    }
    proof {
        assert(reports@.take(reports.len() as int) =~= reports@);
    }
    let previous = state.sessions();
    let released_art = crate::thumbnails::Thumbnails::release_unreferenced(&previous, &sessions);
    state.retain_not_playing(&playing);
    proof {
        assert(names_of(released_art@) =~= released_art@.map_values(|s: String| s@));
    }
    CollectedSessions { sessions, released_art }
}

/// A player that a pause addresses: its application, in lowercase, is one of
/// the asked applications in lowercase, and it is not the host itself.
pub open spec fn is_pause_target(name: Seq<char>, apps: Seq<String>, is_dev: bool) -> bool {
    &&& lowercase_names(apps).contains(lowercase(spec_player_app(name)))
    &&& !spec_is_streamq(spec_player_app(name), is_dev)
}

/// A player that a resume addresses: its application, in lowercase, is one of
/// the asked applications in lowercase.
pub open spec fn is_resume_target(name: Seq<char>, apps: Seq<String>) -> bool {
    lowercase_names(apps).contains(lowercase(spec_player_app(name)))
}

fn lowercase_contains(lowered: &Vec<String>, name: &str) -> (r: bool)
    ensures
        r == names_of(lowered@).contains(lowercase(name@)),
{
    let l = name.to_lowercase();
    crate::models::media::contains_name(lowered, l.as_str())
}

/// The players (bus names, in order) that a pause of `apps` addresses.
pub fn pause_targets(players: &Vec<String>, apps: &Vec<String>, is_dev: bool) -> (r: Vec<String>)
    ensures
        names_of(r@) == names_of(players@).filter(|n: Seq<char>| is_pause_target(n, apps@, is_dev)),
{
    let lowered = crate::models::media::lowercase_all(apps);
    let ghost all = names_of(players@);
    let ghost keep = |n: Seq<char>| is_pause_target(n, apps@, is_dev);
    let mut out: Vec<String> = Vec::new();
    let mut i: usize = 0;
    while i < players.len()
        invariant
            i <= players.len(),
            all == names_of(players@),
            names_of(lowered@) == lowercase_names(apps@),
            forall|n: Seq<char>| #[trigger] keep(n) == is_pause_target(n, apps@, is_dev),
            names_of(out@) == all.take(i as int).filter(keep),
        decreases players.len() - i,
    {
        let app = player_app(players[i].as_str());
        let wanted = lowercase_contains(&lowered, app.as_str());
        let take = wanted && !is_streamq(app, is_dev);
        proof {
            assert(all.take(i + 1).drop_last() =~= all.take(i as int));
            assert(all.take(i + 1).last() == players@[i as int]@);
            assert(keep(players@[i as int]@) == take);
            reveal(Seq::filter);
        }
        if take {
            let ghost before = out@;
            out.push(players[i].clone());
            proof {
                assert(names_of(out@) =~= names_of(before).push(players@[i as int]@));
            }
        }
        i += 1;
    }
    proof {
        assert(all.take(players.len() as int) =~= all);
    }
    out
}

/// The players (bus names, in order) that a resume of `apps` addresses.
pub fn resume_targets(players: &Vec<String>, apps: &Vec<String>) -> (r: Vec<String>)
    ensures
        names_of(r@) == names_of(players@).filter(|n: Seq<char>| is_resume_target(n, apps@)),
{
    let lowered = crate::models::media::lowercase_all(apps);
    let ghost all = names_of(players@);
    let ghost keep = |n: Seq<char>| is_resume_target(n, apps@);
    let mut out: Vec<String> = Vec::new();
    let mut i: usize = 0;
    while i < players.len()
        invariant
            i <= players.len(),
            all == names_of(players@),
            names_of(lowered@) == lowercase_names(apps@),
            forall|n: Seq<char>| #[trigger] keep(n) == is_resume_target(n, apps@),
            names_of(out@) == all.take(i as int).filter(keep),
        decreases players.len() - i,
    {
        let app = player_app(players[i].as_str());
        let take = lowercase_contains(&lowered, app.as_str());
        proof {
            assert(all.take(i + 1).drop_last() =~= all.take(i as int));
            assert(all.take(i + 1).last() == players@[i as int]@);
            assert(keep(players@[i as int]@) == take);
            reveal(Seq::filter);
        }
        if take {
            let ghost before = out@;
            out.push(players[i].clone());
            proof {
                assert(names_of(out@) =~= names_of(before).push(players@[i as int]@));
            }
        }
        i += 1;
    }
    proof {
        assert(all.take(players.len() as int) =~= all);
    }
    out
}

/// Records the players that a pause did pause, at time `now`: each becomes a
/// session that neither plays nor escapes suppression, and its lowercase
/// application is suppressed until it plays again or is resumed.
pub fn finish_pause(state: &mut MediaSessionState, paused: &Vec<PlayerReport>, now: u64) -> (r: Vec<AppMediaSession>)
    requires
        old(state).wf(),
    ensures
        final(state).wf(),
        r@.len() == paused@.len(),
        forall|i: int| 0 <= i < paused@.len() ==> r@[i] == report_session(#[trigger] paused@[i], false, true, now),
        forall|i: int| 0 <= i < paused@.len() ==> carries_report(#[trigger] r@[i], paused@[i], now) && !r@[i].is_resumed
            && r@[i].is_suppressed,
        final(state).suppressed_set() == old(state).suppressed_set().union(
            paused@.map_values(|p: PlayerReport| lowercase(p.app@)).to_set(),
        ),
        final(state).sessions_view() == old(state).sessions_view(),
        final(state).spec_system_volume() == old(state).spec_system_volume(),
{
    let ghost apps = paused@.map_values(|p: PlayerReport| lowercase(p.app@));
    let mut out: Vec<AppMediaSession> = Vec::new();
    let mut i: usize = 0;
    proof {
        assert(apps.take(0).to_set() =~= Set::<Seq<char>>::empty());
        assert(old(state).suppressed_set().union(Set::<Seq<char>>::empty()) =~= old(state).suppressed_set());
    }
    while i < paused.len()
        invariant
            i <= paused.len(),
            state.wf(),
            apps == paused@.map_values(|p: PlayerReport| lowercase(p.app@)),
            out@.len() == i,
            forall|k: int| 0 <= k < i ==> out@[k] == report_session(#[trigger] paused@[k], false, true, now),
            state.suppressed_set() == old(state).suppressed_set().union(apps.take(i as int).to_set()),
            state.sessions_view() == old(state).sessions_view(),
            state.spec_system_volume() == old(state).spec_system_volume(),
        decreases paused.len() - i,
    {
        let report = &paused[i];
        out.push(make_session(report, false, true, now));
        state.suppress(report.app.as_str().to_lowercase());
        proof {
            assert(apps.take(i + 1) =~= apps.take(i as int).push(apps[i as int]));
            apps.take(i as int).lemma_push_to_set_commute(apps[i as int]);
            assert(old(state).suppressed_set().union(apps.take(i + 1).to_set()) =~= old(state).suppressed_set().union(
                apps.take(i as int).to_set(),
            ).insert(apps[i as int]));
        }
        i += 1;
    }
    proof {
        assert(apps.take(paused.len() as int) =~= apps);
    }
    out
}

/// A player's volume can be set when it says it can be controlled and its
/// volume can be read.
pub fn check_volume_control(can_control: bool, volume_readable: bool) -> (r: Result<(), NativeError>)
    ensures
        r is Ok <==> (can_control && volume_readable),
        r matches Err(e) ==> e == NativeError::VolumeNotControllable,
{
    if can_control && volume_readable {
        Ok(())
    } else {
        Err(NativeError::VolumeNotControllable)
    }
}

/// The scheme of a URL as `url::Url::parse` reads it, or none when the text is
/// no URL.
pub uninterp spec fn url_scheme(text: Seq<char>) -> Option<Seq<char>>;

/// The local path of a URL as `url::Url::to_file_path` gives it, as the bytes
/// of the operating system's path, or none when the text is no URL or names no
/// local path.
pub uninterp spec fn url_file_path(text: Seq<char>) -> Option<Seq<u8>>;

/// `url::Url::parse`, read for its scheme (`Url::scheme`), which its
/// documentation gives lower-cased and without the `:`.
#[verifier::external_body]
fn parse_url_scheme(text: &str) -> (r: Option<String>)
    ensures
        opt_view(r) == url_scheme(text@),
{
    match url::Url::parse(text) {
        Ok(u) => Some(u.scheme().to_owned()),
        Err(_) => None,
    }
}

/// The bytes of an optional byte vector.
pub open spec fn opt_bytes(o: Option<Vec<u8>>) -> Option<Seq<u8>> {
    match o {
        Some(v) => Some(v@),
        None => None,
    }
}

/// `url::Url::parse` followed by `Url::to_file_path`, the path given by its
/// bytes (`OsString::into_encoded_bytes`); none when either fails.
#[verifier::external_body]
fn parse_url_file_path(text: &str) -> (r: Option<Vec<u8>>)
    ensures
        opt_bytes(r) == url_file_path(text@),
{
    match url::Url::parse(text) {
        Ok(u) => match u.to_file_path() {
            Ok(p) => Some(p.into_os_string().into_encoded_bytes()),
            Err(_) => None,
        },
        Err(_) => None,
    }
}

/// Where a player's artwork comes from.
#[derive(Clone, Debug)]
pub enum ArtSource {
    /// The player shows no artwork.
    Missing,
    /// The artwork is shown at this URL as it is.
    Keep(String),
    /// The artwork is the local file with this path (its bytes), to be copied
    /// among the thumbnails.
    Local(Vec<u8>),
}

/// An artwork source as values: none, a URL kept (`false`, its text), or a
/// local file (`true`, the bytes of its path).
pub open spec fn art_source_view(a: ArtSource) -> Option<(bool, Seq<char>, Seq<u8>)> {
    match a {
        ArtSource::Missing => None,
        ArtSource::Keep(u) => Some((false, u@, Seq::empty())),
        ArtSource::Local(p) => Some((true, Seq::empty(), p@)),
    }
}

/// The local file that an artwork URL names, given how the URL parses: a
/// `file` URL names its path; any other URL names none; text that is no URL
/// names itself (its UTF-8 bytes) when it is an absolute path (on Linux, one
/// that starts at the root) without `://`.
pub open spec fn spec_local_file_path(art_url: Seq<char>, scheme: Option<Seq<char>>, file_path: Option<Seq<u8>>) -> Option<Seq<u8>> {
    match scheme {
        Some(sc) => if sc == "file"@ { file_path } else { None },
        None => if art_url.len() > 0 && art_url[0] == '/' && !has_infix(art_url, "://"@) { Some(encode_utf8(art_url)) } else { None },
    }
}

/// Where the artwork comes from, given how its URL parses: none when there is
/// no URL or it is empty; a URL of the module's own thumbnails, or one that
/// names no local file, is kept; a local file is to be copied.
pub open spec fn spec_art_source(art_url: Option<Seq<char>>, scheme: Option<Seq<char>>, file_path: Option<Seq<u8>>) -> Option<(bool, Seq<char>, Seq<u8>)> {
    match art_url {
        None => None,
        Some(u) => if u.len() == 0 {
            None
        } else if has_prefix(u, crate::thumbnails::ART_URL_PREFIX@) {
            Some((false, u, Seq::empty()))
        } else {
            match spec_local_file_path(u, scheme, file_path) {
                None => Some((false, u, Seq::empty())),
                Some(p) => Some((true, Seq::empty(), p)),
            }
        },
    }
}

/// Where the artwork comes from, for the results of parsing its URL.
pub fn art_source_from(art_url: Option<&str>, scheme: Option<String>, file_path: Option<Vec<u8>>) -> (r: ArtSource)
    ensures
        art_source_view(r) == spec_art_source(
            match art_url { Some(u) => Some(u@), None => None },
            opt_view(scheme),
            opt_bytes(file_path),
        ),
{
    let u = match art_url {
        None => return ArtSource::Missing,
        Some(u) => u,
    };
    if u.is_empty() {
        return ArtSource::Missing;
    }
    if str_starts_with(u, crate::thumbnails::ART_URL_PREFIX) {
        return ArtSource::Keep(u.to_owned());
    }
    let local = match scheme {
        Some(sc) => if str_eq(sc.as_str(), "file") { file_path } else { None },
        None => {
            let cs = to_chars(u);
            if cs.len() > 0 && cs[0] == '/' && !str_contains(u, "://") {
                Some(u.as_bytes_vec())
            } else {
                None
            }
        },
    };
    match local {
        None => ArtSource::Keep(u.to_owned()),
        Some(p) => ArtSource::Local(p),
    }
}

/// Where a player's artwork comes from.
pub fn art_source(art_url: Option<&str>) -> (r: ArtSource)
    ensures
        art_source_view(r) == (match art_url {
            Some(u) => spec_art_source(Some(u@), url_scheme(u@), url_file_path(u@)),
            None => None,
        }),
{
    match art_url {
        None => ArtSource::Missing,
        Some(u) => {
            let scheme = parse_url_scheme(u);
            let file_path = parse_url_file_path(u);
            art_source_from(Some(u), scheme, file_path)
        },
    }
}

/// `std::str::from_utf8`: the text of some bytes when they are valid UTF-8,
/// none otherwise.
#[verifier::external_body]
fn utf8_text(bytes: &[u8]) -> (r: Option<String>)
    ensures
        r is Some <==> valid_utf8(bytes@),
        r matches Some(t) ==> t@ == decode_utf8(bytes@),
{
    match std::str::from_utf8(bytes) {
        Ok(t) => Some(t.to_owned()),
        Err(_) => None,
    }
}

/// The bytes after the last `sep` of `s` (all of it when there is none).
pub open spec fn last_byte_segment(s: Seq<u8>, sep: u8) -> Seq<u8>
    decreases s.len(),
{
    if s.len() == 0 {
        s
    } else if s.last() == sep {
        Seq::empty()
    } else {
        last_byte_segment(s.drop_last(), sep).push(s.last())
    }
}

/// Where the last `c` of `s` stands.
pub open spec fn last_byte_index(s: Seq<u8>, c: u8) -> Option<int>
    decreases s.len(),
{
    if s.len() == 0 {
        None
    } else if s.last() == c {
        Some(s.len() - 1)
    } else {
        last_byte_index(s.drop_last(), c)
    }
}

/// The extension of the last element of a path (given by its bytes), with its
/// dot, or empty: the part after the last dot of the element, when that dot is
/// not its first byte and the part is valid UTF-8. For any path that names a
/// file, `Path::extension` followed by `OsStr::to_str` gives the same.
pub open spec fn spec_file_extension(path: Seq<u8>) -> Seq<char> {
    let name = last_byte_segment(path, 0x2Fu8);
    match last_byte_index(name, 0x2Eu8) {
        Some(i) => {
            let ext = name.skip(i + 1);
            if i > 0 && valid_utf8(ext) { seq!['.'] + decode_utf8(ext) } else { Seq::empty() }
        },
        None => Seq::empty(),
    }
}

pub fn file_extension(path: &[u8]) -> (r: String)
    ensures
        r@ == spec_file_extension(path@),
{
    let mut start = path.len();
    proof {
        assert(path@.take(start as int) =~= path@);
        assert(last_byte_segment(path@, 0x2Fu8) =~= last_byte_segment(path@.take(start as int), 0x2Fu8) + path@.subrange(start as int, path@.len() as int));
    }
    while start > 0 && path[start - 1] != 0x2Fu8
        invariant
            start <= path.len(),
            last_byte_segment(path@, 0x2Fu8) =~= last_byte_segment(path@.take(start as int), 0x2Fu8) + path@.subrange(start as int, path@.len() as int),
        decreases start,
    {
        proof {
            assert(path@.take(start as int).drop_last() =~= path@.take(start - 1));
            assert(path@.take(start as int).last() == path@[start - 1]);
            assert(path@.subrange(start - 1, path@.len() as int) =~= seq![path@[start - 1]] + path@.subrange(start as int, path@.len() as int));
        }
        start -= 1;
    }
    proof {
        if start > 0 {
            assert(path@.take(start as int).last() == path@[start - 1]);
        }
        assert(last_byte_segment(path@.take(start as int), 0x2Fu8) =~= Seq::<u8>::empty());
    }
    let ghost name = path@.subrange(start as int, path@.len() as int);
    assert(last_byte_segment(path@, 0x2Fu8) =~= name);
    let mut i = path.len();
    proof {
        assert(name.take(name.len() as int) =~= name);
    }
    while i > start
        invariant
            start <= i <= path.len(),
            name == path@.subrange(start as int, path@.len() as int),
            last_byte_segment(path@, 0x2Fu8) == name,
            last_byte_index(name, 0x2Eu8) == last_byte_index(name.take(i - start), 0x2Eu8),
        decreases i,
    {
        proof {
            assert(name.take(i - start).drop_last() =~= name.take(i - start - 1));
            assert(name.take(i - start).last() == path@[i - 1]);
        }
        if path[i - 1] == 0x2Eu8 {
            proof {
                assert(last_byte_index(name.take(i - start), 0x2Eu8) == Some(i - start - 1));
                assert(last_byte_index(name, 0x2Eu8) == Some(i - start - 1));
            }
            if i - 1 > start {
                let mut ext: Vec<u8> = Vec::new();
                let mut k = i;
                while k < path.len()
                    invariant
                        i <= k <= path.len(),
                        ext@ == path@.subrange(i as int, k as int),
                    decreases path.len() - k,
                {
                    ext.push(path[k]);
                    proof {
                        assert(ext@ =~= path@.subrange(i as int, k + 1));
                    }
                    k += 1;
                }
                proof {
                    assert(ext@ =~= name.skip(i - start));
                }
                return match utf8_text(ext.as_slice()) {
                    Some(t) => {
                        let mut out = String::new();
                        out.push('.');
                        push_str(&mut out, t.as_str());
                        proof {
                            assert(out@ =~= seq!['.'] + decode_utf8(ext@));
                        }
                        out
                    },
                    None => String::new(),
                };
            } else {
                return String::new();
            }
        }
        i -= 1;
    }
    proof {
        assert(name.take(0) =~= Seq::<u8>::empty());
    }
    String::new()
}

} // verus!
