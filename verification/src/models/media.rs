//! The media sessions and audio sources that the module reports, and the shared
//! state that decides when a change of the sessions is reported.
//!
//! Volumes, positions, durations and timestamps are carried as the bit patterns
//! of the IEEE-754 doubles that the host application receives; this module moves
//! and compares them but never computes with them.
use vstd::prelude::*;
use crate::text::{lowercase, to_chars, str_eq, lex_lt, lex_less, lemma_lex_irreflexive, lemma_lex_asymmetric,
    lemma_lex_transitive, lemma_lex_total};

verus! {

/// A copy of an optional string.
pub fn clone_opt_string(o: &Option<String>) -> (r: Option<String>)
    ensures
        r == *o,
{
    match o {
        Some(s) => Some(s.clone()),
        None => None,
    }
}

/// Whether two optional strings hold the same characters (or are both absent).
pub fn opt_string_eq(a: &Option<String>, b: &Option<String>) -> (r: bool)
    ensures
        r == (opt_view(*a) == opt_view(*b)),
{
    match (a, b) {
        (Some(x), Some(y)) => *x == *y,
        (None, None) => true,
        _ => false,
    }
}

/// The characters of an optional string.
pub open spec fn opt_view(o: Option<String>) -> Option<Seq<char>> {
    match o {
        Some(s) => Some(s@),
        None => None,
    }
}

/// The bit pattern of a NaN: all exponent bits set and a non-zero mantissa.
pub open spec fn is_nan_bits(b: u64) -> bool {
    (b & 0x7FF0_0000_0000_0000u64) == 0x7FF0_0000_0000_0000u64 && (b & 0x000F_FFFF_FFFF_FFFFu64) != 0
}

/// The bit pattern of a zero, of either sign.
pub open spec fn is_zero_bits(b: u64) -> bool {
    (b & 0x7FFF_FFFF_FFFF_FFFFu64) == 0
}

/// `==` on the doubles with these bit patterns: no NaN equals anything, the
/// two zeros are equal, and otherwise the patterns must agree.
pub open spec fn double_eq(a: u64, b: u64) -> bool {
    !is_nan_bits(a) && !is_nan_bits(b) && (a == b || (is_zero_bits(a) && is_zero_bits(b)))
}

/// `==` on optional doubles, by their bit patterns.
pub open spec fn opt_double_eq(a: Option<u64>, b: Option<u64>) -> bool {
    match (a, b) {
        (Some(x), Some(y)) => double_eq(x, y),
        (None, None) => true,
        _ => false,
    }
}

/// Compares two doubles, given by their bit patterns, as `f64 == f64` does.
pub fn double_bits_eq(a: u64, b: u64) -> (r: bool)
    ensures
        r == double_eq(a, b),
{
    let a_nan = (a & 0x7FF0_0000_0000_0000u64) == 0x7FF0_0000_0000_0000u64 && (a & 0x000F_FFFF_FFFF_FFFFu64) != 0;
    let b_nan = (b & 0x7FF0_0000_0000_0000u64) == 0x7FF0_0000_0000_0000u64 && (b & 0x000F_FFFF_FFFF_FFFFu64) != 0;
    let zeros = (a & 0x7FFF_FFFF_FFFF_FFFFu64) == 0 && (b & 0x7FFF_FFFF_FFFF_FFFFu64) == 0;
    !a_nan && !b_nan && (a == b || zeros)
}

/// Compares two optional doubles as `Option<f64> == Option<f64>` does.
pub fn opt_double_bits_eq(a: Option<u64>, b: Option<u64>) -> (r: bool)
    ensures
        r == opt_double_eq(a, b),
{
    match (a, b) {
        (Some(x), Some(y)) => double_bits_eq(x, y),
        (None, None) => true,
        _ => false,
    }
}

/// One application that plays media, as the host application sees it.
#[derive(Clone, Debug)]
pub struct AppMediaSession {
    pub app: String,
    pub title: Option<String>,
    pub artist: Option<String>,
    pub is_resumed: bool,
    pub is_suppressed: bool,
    pub volume: Option<u64>,
    pub device: Option<String>,
    pub device_volume: Option<u64>,
    pub can_control: Option<bool>,
    pub updated_at: u64,
    pub activated_at: u64,
    pub url: Option<String>,
    pub art: Option<String>,
    pub position: Option<u64>,
    pub duration: Option<u64>,
}

/// One audio output device.
#[derive(Clone, Debug)]
pub struct AudioSource {
    pub id: String,
    pub name: String,
    pub is_default: bool,
    pub volume: u64,
}

/// The whole media state that the host application asks for.
#[derive(Clone, Debug)]
pub struct MediaResponse {
    pub volume: u64,
    pub sessions: Vec<AppMediaSession>,
    pub sources: Vec<AudioSource>,
    pub app_source: Option<AudioSource>,
}

impl AudioSource {
    pub open spec fn same_as(self, other: AudioSource) -> bool {
        self.id@ == other.id@ && self.name@ == other.name@ && self.is_default == other.is_default
            && double_eq(self.volume, other.volume)
    }

    /// A copy of the source.
    pub fn duplicate(&self) -> (r: AudioSource)
        ensures
            r == *self,
    {
        AudioSource { id: self.id.clone(), name: self.name.clone(), is_default: self.is_default, volume: self.volume }
    }

    /// Whether two sources are the same device with the same name, default flag and volume.
    pub fn equals(&self, other: &AudioSource) -> (r: bool)
        ensures
            r == self.same_as(*other),
    {
        self.id == other.id && self.name == other.name && self.is_default == other.is_default
            && double_bits_eq(self.volume, other.volume)
    }
}

/// Whether two optional sources are equal (both absent, or the same source).
pub open spec fn same_opt_source(a: Option<AudioSource>, b: Option<AudioSource>) -> bool {
    match (a, b) {
        (Some(x), Some(y)) => x.same_as(y),
        (None, None) => true,
        _ => false,
    }
}

pub fn opt_source_equals(a: &Option<AudioSource>, b: &Option<AudioSource>) -> (r: bool)
    ensures
        r == same_opt_source(*a, *b),
{
    match (a, b) {
        (Some(x), Some(y)) => x.equals(y),
        (None, None) => true,
        _ => false,
    }
}

pub fn opt_source_duplicate(a: &Option<AudioSource>) -> (r: Option<AudioSource>)
    ensures
        r == *a,
{
    match a {
        Some(x) => Some(x.duplicate()),
        None => None,
    }
}

/// Sources are listed with the default device first, then by their lowercase
/// name in lexicographic order: `x` comes strictly before `y`.
pub open spec fn source_before(x: AudioSource, y: AudioSource) -> bool {
    (x.is_default && !y.is_default) || (x.is_default == y.is_default && lex_lt(
        lowercase(x.name@),
        lowercase(y.name@),
    ))
}

/// Neither of two sources comes before the other.
pub open spec fn same_rank(x: AudioSource, y: AudioSource) -> bool {
    x.is_default == y.is_default && lowercase(x.name@) == lowercase(y.name@)
}

/// No source of the list comes before one listed earlier.
pub open spec fn sources_sorted(s: Seq<AudioSource>) -> bool {
    forall|i: int, j: int| 0 <= i < j < s.len() ==> !source_before(#[trigger] s[j], #[trigger] s[i])
}

/// In a sorted list the default device comes before every other one, and
/// among the default ones, and among the others, the names in lowercase never
/// go down (in character order).
pub proof fn lemma_sorted_defaults_first(s: Seq<AudioSource>)
    requires
        sources_sorted(s),
    ensures
        forall|i: int, j: int| 0 <= i < j < s.len() && (#[trigger] s[j]).is_default ==> (#[trigger] s[i]).is_default,
        forall|i: int, j: int| 0 <= i < j < s.len() && (#[trigger] s[i]).is_default == (#[trigger] s[j]).is_default
            ==> !lex_lt(lowercase(s[j].name@), lowercase(s[i].name@)),
{
    assert forall|i: int, j: int| 0 <= i < j < s.len() && (#[trigger] s[j]).is_default implies (#[trigger] s[i]).is_default by {
        assert(!source_before(s[j], s[i]));
    }
    assert forall|i: int, j: int| 0 <= i < j < s.len() && (#[trigger] s[i]).is_default == (#[trigger] s[j]).is_default
        implies !lex_lt(lowercase(s[j].name@), lowercase(s[i].name@)) by {
        assert(!source_before(s[j], s[i]));
    }
}

/// `out` lists the sources of `input` once each, `out[i]` being `input[p[i]]`,
/// and sources of the same rank keep their relative order.
pub open spec fn stable_permutation(p: Seq<int>, input: Seq<AudioSource>, out: Seq<AudioSource>) -> bool {
    &&& p.len() == out.len() == input.len()
    &&& forall|i: int| 0 <= i < p.len() ==> 0 <= #[trigger] p[i] < input.len() && out[i] == input[p[i]]
    &&& forall|i: int, j: int| 0 <= i < j < p.len() ==> #[trigger] p[i] != #[trigger] p[j]
    &&& forall|i: int, j: int|
        0 <= i < j < p.len() && same_rank(#[trigger] out[i], #[trigger] out[j]) ==> p[i] < p[j]
}

proof fn lemma_rank_facts(x: AudioSource, y: AudioSource, z: AudioSource)
    ensures
        !source_before(x, x),
        source_before(x, y) ==> !source_before(y, x),
        source_before(x, y) ==> !same_rank(x, y),
        !source_before(x, y) && !source_before(y, x) ==> same_rank(x, y),
        source_before(x, y) && !source_before(z, y) ==> source_before(x, z),
{
    let (a, b, c) = (lowercase(x.name@), lowercase(y.name@), lowercase(z.name@));
    lemma_lex_irreflexive(a);
    lemma_lex_irreflexive(b);
    lemma_lex_asymmetric(a, b);
    lemma_lex_total(a, b);
    lemma_lex_total(b, c);
    lemma_lex_transitive(a, b, c);
}

fn rank_precedes(x_default: bool, x_key: &Vec<char>, y_default: bool, y_key: &Vec<char>) -> (r: bool)
    ensures
        r == ((x_default && !y_default) || (x_default == y_default && lex_lt(x_key@, y_key@))),
{
    if x_default != y_default {
        return x_default;
    }
    lex_less(x_key.as_slice(), y_key.as_slice())
}

/// Orders audio sources for display: the default device first, then by name
/// without regard to case; sources of the same rank keep their order.
pub fn sort_audio_sources(sources: Vec<AudioSource>) -> (r: Vec<AudioSource>)
    ensures
        sources_sorted(r@),
        exists|p: Seq<int>| stable_permutation(p, sources@, r@),
{
    let mut out: Vec<AudioSource> = Vec::new();
    let mut keys: Vec<Vec<char>> = Vec::new();
    let ghost mut p: Seq<int> = Seq::empty();
    let n = sources.len();
    let mut i: usize = 0;
    while i < n
        invariant
            n == sources.len(),
            i <= n,
            out.len() == i,
            keys.len() == i,
            forall|k: int| 0 <= k < i ==> (#[trigger] keys@[k])@ == lowercase(out@[k].name@),
            sources_sorted(out@),
            p.len() == i,
            forall|k: int| 0 <= k < i ==> 0 <= #[trigger] p[k] < i && out@[k] == sources@[p[k]],
            forall|k: int, l: int| 0 <= k < l < i ==> #[trigger] p[k] != #[trigger] p[l],
            forall|k: int, l: int|
                0 <= k < l < i && same_rank(#[trigger] out@[k], #[trigger] out@[l]) ==> p[k] < p[l],
        decreases n - i,
    {
        let x = sources[i].duplicate();
        let lowered = x.name.as_str().to_lowercase();
        let kx = to_chars(lowered.as_str());
        let mut pos: usize = 0;
        while pos < out.len() && !rank_precedes(x.is_default, &kx, out[pos].is_default, &keys[pos])
            invariant
                pos <= out.len(),
                out.len() == keys.len(),
                kx@ == lowercase(x.name@),
                forall|k: int| 0 <= k < out.len() ==> (#[trigger] keys@[k])@ == lowercase(out@[k].name@),
                forall|k: int| 0 <= k < pos ==> !source_before(x, #[trigger] out@[k]),
            decreases out.len() - pos,
        {
            pos += 1;
        }
        let ghost old_out = out@;
        let ghost old_p = p;
        proof {
            // everything from `pos` on ranks after `x`
            assert forall|k: int| pos <= k < old_out.len() implies source_before(x, #[trigger] old_out[k]) by {
                assert(source_before(x, old_out[pos as int]));
                if k > pos {
                    assert(!source_before(old_out[k], old_out[pos as int]));
                }
                lemma_rank_facts(x, old_out[pos as int], old_out[k]);
            };
        }
        out.insert(pos, x);
        keys.insert(pos, kx);
        proof {
            p = old_p.insert(pos as int, i as int);
            assert(out@ == old_out.insert(pos as int, sources@[i as int]));
            assert forall|k: int, l: int| 0 <= k < l < out@.len() implies !source_before(#[trigger] out@[l], #[trigger] out@[k]) by {
                if l < pos {
                } else if l == pos {
                    lemma_rank_facts(out@[l], out@[k], out@[k]);
                } else if k == pos {
                    lemma_rank_facts(out@[k], out@[l], out@[l]);
                } else if k < pos {
                    assert(out@[l] == old_out[l - 1]);
                } else {
                    assert(out@[l] == old_out[l - 1]);
                    assert(out@[k] == old_out[k - 1]);
                }
            };
            assert forall|k: int, l: int|
                0 <= k < l < out@.len() && same_rank(#[trigger] out@[k], #[trigger] out@[l]) implies p[k] < p[l] by {
                if k == pos {
                    lemma_rank_facts(out@[k], out@[l], out@[l]);
                } else if l == pos {
                } else if l < pos {
                } else if k < pos {
                    assert(out@[l] == old_out[l - 1]);
                } else {
                    assert(out@[l] == old_out[l - 1]);
                    assert(out@[k] == old_out[k - 1]);
                }
            };
            assert forall|k: int| 0 <= k < i + 1 implies 0 <= #[trigger] p[k] < i + 1 && out@[k] == sources@[p[k]] by {
                if k < pos {
                } else if k > pos {
                    assert(out@[k] == old_out[k - 1]);
                }
            };
            assert forall|k: int, l: int| 0 <= k < l < i + 1 implies #[trigger] p[k] != #[trigger] p[l] by {
                if k < pos && l > pos {
                    assert(p[l] == old_p[l - 1]);
                } else if k > pos {
                    assert(p[l] == old_p[l - 1]);
                    assert(p[k] == old_p[k - 1]);
                }
            };
            assert forall|k: int| 0 <= k < i + 1 implies (#[trigger] keys@[k])@ == lowercase(out@[k].name@) by {
                if k > pos {
                    assert(keys@[k] == keys@[k]);
                }
            };
        }
        i += 1;
    }
    proof {
        assert(stable_permutation(p, sources@, out@));
    }
    out
}

impl AppMediaSession {
    /// The session is a different activation: another track, another play state,
    /// another suppression, link, artwork or length.
    pub open spec fn spec_activation_changed(self, other: AppMediaSession) -> bool {
        self.app@ != other.app@ || opt_view(self.title) != opt_view(other.title)
            || opt_view(self.artist) != opt_view(other.artist) || self.is_resumed != other.is_resumed
            || self.is_suppressed != other.is_suppressed || opt_view(self.url) != opt_view(other.url)
            || opt_view(self.art) != opt_view(other.art) || !opt_double_eq(self.duration, other.duration)
    }

    /// The content shown for the session changed: a new activation, or a new position.
    pub open spec fn spec_content_changed(self, other: AppMediaSession) -> bool {
        self.spec_activation_changed(other) || !opt_double_eq(self.position, other.position)
    }

    /// Sessions are equal when every field but the two timestamps is equal.
    pub open spec fn spec_eq(self, other: AppMediaSession) -> bool {
        self.app@ == other.app@ && opt_view(self.title) == opt_view(other.title)
            && opt_view(self.artist) == opt_view(other.artist) && self.is_resumed == other.is_resumed
            && self.is_suppressed == other.is_suppressed && opt_double_eq(self.volume, other.volume)
            && opt_view(self.device) == opt_view(other.device) && opt_double_eq(self.device_volume, other.device_volume)
            && self.can_control == other.can_control && opt_view(self.url) == opt_view(other.url)
            && opt_view(self.art) == opt_view(other.art) && opt_double_eq(self.position, other.position)
            && opt_double_eq(self.duration, other.duration)
    }

    pub fn activation_changed(&self, other: &AppMediaSession) -> (r: bool)
        ensures
            r == self.spec_activation_changed(*other),
    {
        !(self.app == other.app) || !opt_string_eq(&self.title, &other.title)
            || !opt_string_eq(&self.artist, &other.artist) || self.is_resumed != other.is_resumed
            || self.is_suppressed != other.is_suppressed || !opt_string_eq(&self.url, &other.url)
            || !opt_string_eq(&self.art, &other.art) || !opt_double_bits_eq(self.duration, other.duration)
    }

    pub fn content_changed(&self, other: &AppMediaSession) -> (r: bool)
        ensures
            r == self.spec_content_changed(*other),
    {
        self.activation_changed(other) || !opt_double_bits_eq(self.position, other.position)
    }

    /// Whether the sessions are equal, timestamps aside.
    pub fn eq(&self, other: &AppMediaSession) -> (r: bool)
        ensures
            r == self.spec_eq(*other),
    {
        self.app == other.app && opt_string_eq(&self.title, &other.title)
            && opt_string_eq(&self.artist, &other.artist) && self.is_resumed == other.is_resumed
            && self.is_suppressed == other.is_suppressed && opt_double_bits_eq(self.volume, other.volume)
            && opt_string_eq(&self.device, &other.device) && opt_double_bits_eq(self.device_volume, other.device_volume)
            && self.can_control == other.can_control && opt_string_eq(&self.url, &other.url)
            && opt_string_eq(&self.art, &other.art) && opt_double_bits_eq(self.position, other.position)
            && opt_double_bits_eq(self.duration, other.duration)
    }

    /// A copy of the session.
    pub fn duplicate(&self) -> (r: AppMediaSession)
        ensures
            r == *self,
    {
        AppMediaSession {
            app: self.app.clone(),
            title: clone_opt_string(&self.title),
            artist: clone_opt_string(&self.artist),
            is_resumed: self.is_resumed,
            is_suppressed: self.is_suppressed,
            volume: self.volume,
            device: clone_opt_string(&self.device),
            device_volume: self.device_volume,
            can_control: self.can_control,
            updated_at: self.updated_at,
            activated_at: self.activated_at,
            url: clone_opt_string(&self.url),
            art: clone_opt_string(&self.art),
            position: self.position,
            duration: self.duration,
        }
    }
}

/// A copy of a list of sessions.
pub fn duplicate_sessions(v: &Vec<AppMediaSession>) -> (r: Vec<AppMediaSession>)
    ensures
        r@ == v@,
{
    let mut out: Vec<AppMediaSession> = Vec::new();
    let mut i: usize = 0;
    while i < v.len()
        invariant
            i <= v.len(),
            out@ == v@.take(i as int),
        decreases v.len() - i,
    {
        out.push(v[i].duplicate());
        proof {
            assert(v@.take(i as int).push(v@[i as int]) =~= v@.take(i + 1));
        }
        i += 1;
    }
    proof {
        assert(v@.take(v.len() as int) =~= v@);
    }
    out
}

/// The last session of `s` for application `app`: where several share the
/// application, the later one is the one that counts.
pub open spec fn last_for_app(s: Seq<AppMediaSession>, app: Seq<char>) -> Option<AppMediaSession>
    decreases s.len(),
{
    if s.len() == 0 {
        None
    } else if s.last().app@ == app {
        Some(s.last())
    } else {
        last_for_app(s.drop_last(), app)
    }
}

/// A new session keeps the timestamps of the session it replaces when nothing
/// that they date has changed.
pub open spec fn carry_timestamps(new: AppMediaSession, old: Option<AppMediaSession>) -> AppMediaSession {
    match old {
        None => new,
        Some(o) => AppMediaSession {
            updated_at: if new.spec_content_changed(o) { new.updated_at } else { o.updated_at },
            activated_at: if new.spec_activation_changed(o) { new.activated_at } else { o.activated_at },
            ..new
        },
    }
}

/// The new sessions, each with the timestamps carried over from the old one.
pub open spec fn carried_sessions(old: Seq<AppMediaSession>, new: Seq<AppMediaSession>) -> Seq<AppMediaSession> {
    Seq::new(new.len(), |i: int| carry_timestamps(new[i], last_for_app(old, new[i].app@)))
}

/// When the sessions are reported, each keeps what it was handed but for its
/// two timestamps, taken from the last old session of its application: the
/// update time stays unless the application, title, artist, play state,
/// suppression, link, artwork, length or position changed; the activation time
/// stays unless one of those other than the position changed. So a change of
/// volume, device, device volume or control alone keeps both.
pub proof fn lemma_carried_timestamps(old: Seq<AppMediaSession>, new: Seq<AppMediaSession>, i: int, o: AppMediaSession)
    requires
        0 <= i < new.len(),
        last_for_app(old, new[i].app@) == Some(o),
    ensures
        ({
            let n = new[i];
            let c = carried_sessions(old, new)[i];
            &&& c == AppMediaSession { updated_at: c.updated_at, activated_at: c.activated_at, ..n }
            &&& c.updated_at == (if n.app@ != o.app@ || opt_view(n.title) != opt_view(o.title)
                || opt_view(n.artist) != opt_view(o.artist) || n.is_resumed != o.is_resumed
                || n.is_suppressed != o.is_suppressed || opt_view(n.url) != opt_view(o.url)
                || opt_view(n.art) != opt_view(o.art) || !opt_double_eq(n.duration, o.duration)
                || !opt_double_eq(n.position, o.position) { n.updated_at } else { o.updated_at })
            &&& c.activated_at == (if n.app@ != o.app@ || opt_view(n.title) != opt_view(o.title)
                || opt_view(n.artist) != opt_view(o.artist) || n.is_resumed != o.is_resumed
                || n.is_suppressed != o.is_suppressed || opt_view(n.url) != opt_view(o.url)
                || opt_view(n.art) != opt_view(o.art) || !opt_double_eq(n.duration, o.duration) { n.activated_at } else { o.activated_at })
        }),
{
}

/// A new session differs from what was known of its application.
pub open spec fn session_differs(new: AppMediaSession, old: Option<AppMediaSession>) -> bool {
    match old {
        None => true,
        Some(o) => !new.spec_eq(o),
    }
}

/// The sessions changed: some new session is new or differs from the old one of
/// its application, or the number of sessions changed.
pub open spec fn sessions_changed(old: Seq<AppMediaSession>, new: Seq<AppMediaSession>) -> bool {
    (exists|i: int| 0 <= i < new.len() && session_differs(#[trigger] new[i], last_for_app(old, new[i].app@)))
        || new.len() != old.len()
}

/// Finds the last session of `s` for the application `app`.
fn find_last_for_app(s: &Vec<AppMediaSession>, app: &String) -> (r: Option<usize>)
    ensures
        match r {
            Some(k) => k < s.len() && last_for_app(s@, app@) == Some(s@[k as int]),
            None => last_for_app(s@, app@) is None,
        },
{
    let mut i = s.len();
    proof {
        assert(s@.take(s.len() as int) =~= s@);
    }
    while i > 0
        invariant
            i <= s.len(),
            last_for_app(s@, app@) == last_for_app(s@.take(i as int), app@),
        decreases i,
    {
        proof {
            assert(s@.take(i as int).drop_last() =~= s@.take(i - 1));
        }
        if s[i - 1].app == *app {
            return Some(i - 1);
        }
        i -= 1;
    }
    proof {
        assert(s@.take(0) =~= Seq::<AppMediaSession>::empty());
    }
    None
}

/// No volume, position or length of the session is a NaN (a NaN equals
/// nothing, not even itself).
pub open spec fn no_nan_session(s: AppMediaSession) -> bool {
    &&& !(s.volume matches Some(v) && is_nan_bits(v))
    &&& !(s.device_volume matches Some(v) && is_nan_bits(v))
    &&& !(s.position matches Some(v) && is_nan_bits(v))
    &&& !(s.duration matches Some(v) && is_nan_bits(v))
}

/// No two sessions of the list belong to the same application.
pub open spec fn distinct_apps(s: Seq<AppMediaSession>) -> bool {
    forall|i: int, j: int| 0 <= i < j < s.len() ==> (#[trigger] s[i]).app@ != (#[trigger] s[j]).app@
}

proof fn lemma_last_for_app_unique(s: Seq<AppMediaSession>, i: int)
    requires
        0 <= i < s.len(),
        forall|j: int| 0 <= j < s.len() && j != i ==> (#[trigger] s[j]).app@ != s[i].app@,
    ensures
        last_for_app(s, s[i].app@) == Some(s[i]),
    decreases s.len(),
{
    if i != s.len() - 1 {
        let t = s.drop_last();
        assert forall|j: int| 0 <= j < t.len() && j != i implies (#[trigger] t[j]).app@ != t[i].app@ by {
            assert(t[j] == s[j]);
        };
        lemma_last_for_app_unique(t, i);
    }
}

/// Reporting the same sessions twice in a row reports them once: when no two
/// sessions share an application, the list stored by a report of `new` does not
/// count as changed against `new` itself.
proof fn lemma_report_once(old: Seq<AppMediaSession>, new: Seq<AppMediaSession>)
    requires
        distinct_apps(new),
        forall|i: int| 0 <= i < new.len() ==> no_nan_session(#[trigger] new[i]),
    ensures
        !sessions_changed(carried_sessions(old, new), new),
{
    let c = carried_sessions(old, new);
    assert forall|i: int| 0 <= i < new.len() implies !session_differs(#[trigger] new[i], last_for_app(c, new[i].app@)) by {
        assert forall|j: int| 0 <= j < c.len() && j != i implies (#[trigger] c[j]).app@ != c[i].app@ by {
            if j < i {
                assert(new[j].app@ != new[i].app@);
            } else {
                assert(new[i].app@ != new[j].app@);
            }
        };
        lemma_last_for_app_unique(c, i);
    };
}

/// Two sessions differ in something other than their two timestamps: the
/// application, track, play state, suppression, volume, device, device volume,
/// control, link, artwork, position or length (numbers compared as doubles).
pub open spec fn differs_beyond_timestamps(n: AppMediaSession, o: AppMediaSession) -> bool {
    ||| n.app@ != o.app@
    ||| opt_view(n.title) != opt_view(o.title)
    ||| opt_view(n.artist) != opt_view(o.artist)
    ||| n.is_resumed != o.is_resumed
    ||| n.is_suppressed != o.is_suppressed
    ||| !opt_double_eq(n.volume, o.volume)
    ||| opt_view(n.device) != opt_view(o.device)
    ||| !opt_double_eq(n.device_volume, o.device_volume)
    ||| n.can_control != o.can_control
    ||| opt_view(n.url) != opt_view(o.url)
    ||| opt_view(n.art) != opt_view(o.art)
    ||| !opt_double_eq(n.position, o.position)
    ||| !opt_double_eq(n.duration, o.duration)
}

/// A new session is news: its application had no session, or the last one it
/// had differs from it beyond the timestamps.
pub open spec fn is_news(old: Seq<AppMediaSession>, n: AppMediaSession) -> bool {
    match last_for_app(old, n.app@) {
        Some(o) => differs_beyond_timestamps(n, o),
        None => true,
    }
}

/// Every difference is reported: when some new session is news, or the number
/// of sessions changed, the sessions count as changed (and `emit_if_changed`
/// reports them); when none is news and the number stayed, they do not.
pub proof fn lemma_differences_are_reported(old: Seq<AppMediaSession>, new: Seq<AppMediaSession>)
    ensures
        ((exists|i: int| 0 <= i < new.len() && is_news(old, #[trigger] new[i])) || new.len() != old.len())
            == sessions_changed(old, new),
{
    assert forall|i: int| 0 <= i < new.len() implies is_news(old, #[trigger] new[i]) == session_differs(new[i], last_for_app(old, new[i].app@)) by {
        match last_for_app(old, new[i].app@) {
            Some(o) => {},
            None => {},
        }
    }
}

/// The sessions stored after a report with `new` when the state held `old`.
pub open spec fn stored_after(old: Seq<AppMediaSession>, new: Seq<AppMediaSession>) -> Seq<AppMediaSession> {
    if sessions_changed(old, new) { carried_sessions(old, new) } else { old }
}

/// Whatever the state held, once a list of sessions with distinct applications
/// (and no NaN among their numbers) has been taken, taking the same list again
/// reports nothing.
pub proof fn lemma_second_report_silent(old: Seq<AppMediaSession>, new: Seq<AppMediaSession>)
    requires
        distinct_apps(new),
        forall|i: int| 0 <= i < new.len() ==> no_nan_session(#[trigger] new[i]),
    ensures
        !sessions_changed(stored_after(old, new), new),
{
    lemma_report_once(old, new);
}

/// The characters of each string of a list.
pub open spec fn names_of(v: Seq<String>) -> Seq<Seq<char>> {
    v.map_values(|s: String| s@)
}

/// The lowercase characters of each string of a list.
pub open spec fn lowercase_names(v: Seq<String>) -> Seq<Seq<char>> {
    v.map_values(|s: String| lowercase(s@))
}

/// Whether one of the strings of `v` is `name`.
pub fn contains_name(v: &Vec<String>, name: &str) -> (r: bool)
    ensures
        r == names_of(v@).contains(name@),
{
    let mut i: usize = 0;
    while i < v.len()
        invariant
            i <= v.len(),
            forall|k: int| 0 <= k < i ==> v@[k]@ != name@,
        decreases v.len() - i,
    {
        if str_eq(v[i].as_str(), name) {
            proof {
                assert(names_of(v@)[i as int] == name@);
            }
            return true;
        }
        i += 1;
    }
    proof {
        if names_of(v@).contains(name@) {
            let k = choose|k: int| 0 <= k < names_of(v@).len() && names_of(v@)[k] == name@;
            assert(v@[k]@ == name@);
        }
    }
    false
}

/// The lowercase form of each string of a list.
pub fn lowercase_all(v: &Vec<String>) -> (r: Vec<String>)
    ensures
        names_of(r@) == lowercase_names(v@),
{
    let mut out: Vec<String> = Vec::new();
    let mut i: usize = 0;
    while i < v.len()
        invariant
            i <= v.len(),
            names_of(out@) =~= lowercase_names(v@.take(i as int)),
        decreases v.len() - i,
    {
        out.push(v[i].as_str().to_lowercase());
        proof {
            assert(lowercase_names(v@.take(i + 1)) =~= lowercase_names(v@.take(i as int)).push(lowercase(v@[i as int]@)));
            assert(names_of(out@) =~= names_of(out@.drop_last()).push(out@.last()@));
        }
        i += 1;
    }
    proof {
        assert(v@.take(v.len() as int) =~= v@);
    }
    out
}

/// Filtering a list without repetitions leaves one without repetitions.
pub proof fn lemma_filter_no_duplicates(s: Seq<Seq<char>>, keep: spec_fn(Seq<char>) -> bool)
    requires
        s.no_duplicates(),
    ensures
        s.filter(keep).no_duplicates(),
    decreases s.len(),
{
    reveal(Seq::filter);
    if s.len() > 0 {
        lemma_filter_no_duplicates(s.drop_last(), keep);
        if keep(s.last()) {
            assert(!s.drop_last().contains(s.last())) by {
                if s.drop_last().contains(s.last()) {
                    let k = choose|k: int| 0 <= k < s.drop_last().len() && s.drop_last()[k] == s.last();
                    assert(s[k] == s[s.len() - 1]);
                }
            };
            if s.drop_last().filter(keep).contains(s.last()) {
                s.drop_last().lemma_filter_contains_rev(keep, s.last());
            }
        }
    }
}

/// Pausing an application and then resuming it by name lifts its suppression:
/// whatever was suppressed before, after `suppress` of the lowercase name of
/// `apps[k]` and `unsuppress(apps)` that name is no longer suppressed (for names
/// whose lowercase form lowercases to itself).
pub proof fn lemma_resume_lifts_suppression(suppressed: Set<Seq<char>>, apps: Seq<String>, k: int)
    requires
        0 <= k < apps.len(),
        lowercase(lowercase(apps[k]@)) == lowercase(apps[k]@),
    ensures
        !suppressed.insert(lowercase(apps[k]@)).filter(
            |a: Seq<char>| !lowercase_names(apps).contains(lowercase(a)),
        ).contains(lowercase(apps[k]@)),
{
    assert(lowercase_names(apps)[k] == lowercase(apps[k]@));
}

/// The media state shared by the watchers of one platform: the sessions last
/// reported, the applications that were paused on the user's behalf (by their
/// lowercase name) and the volume of the default output.
pub struct MediaSessionState {
    sessions: Vec<AppMediaSession>,
    suppressed_apps: Vec<String>,
    system_volume: u64,
}

/// The bit pattern of the volume 1.0.
pub const FULL_VOLUME_BITS: u64 = 0x3FF0_0000_0000_0000;

impl MediaSessionState {
    pub closed spec fn sessions_view(self) -> Seq<AppMediaSession> {
        self.sessions@
    }

    /// The suppressed applications, by their characters.
    pub closed spec fn suppressed_view(self) -> Seq<Seq<char>> {
        self.suppressed_apps@.map_values(|s: String| s@)
    }

    pub closed spec fn suppressed_set(self) -> Set<Seq<char>> {
        self.suppressed_view().to_set()
    }

    pub closed spec fn spec_system_volume(self) -> u64 {
        self.system_volume
    }

    /// No application is suppressed twice.
    pub closed spec fn wf(self) -> bool {
        self.suppressed_view().no_duplicates()
    }

    pub fn new() -> (r: MediaSessionState)
        ensures
            r.wf(),
            r.sessions_view() == Seq::<AppMediaSession>::empty(),
            r.suppressed_set() == Set::<Seq<char>>::empty(),
            r.spec_system_volume() == FULL_VOLUME_BITS,
    {
        let r = MediaSessionState { sessions: Vec::new(), suppressed_apps: Vec::new(), system_volume: FULL_VOLUME_BITS };
        proof {
            assert(r.suppressed_view() =~= Seq::<Seq<char>>::empty());
            assert(r.suppressed_set() =~= Set::<Seq<char>>::empty());
        }
        r
    }

    /// The sessions last reported.
    pub fn sessions(&self) -> (r: Vec<AppMediaSession>)
        ensures
            r@ == self.sessions_view(),
    {
        duplicate_sessions(&self.sessions)
    }

    pub fn system_volume(&self) -> (r: u64)
        ensures
            r == self.spec_system_volume(),
    {
        self.system_volume
    }

    pub fn set_system_volume(&mut self, volume: u64)
        ensures
            final(self).spec_system_volume() == volume,
            final(self).sessions_view() == old(self).sessions_view(),
            final(self).suppressed_view() == old(self).suppressed_view(),
    {
        self.system_volume = volume;
    }

    /// Whether the application (by its lowercase name) was paused on the user's behalf.
    pub fn is_suppressed(&self, app: &str) -> (r: bool)
        ensures
            r == self.suppressed_set().contains(app@),
    {
        let mut i: usize = 0;
        while i < self.suppressed_apps.len()
            invariant
                i <= self.suppressed_apps.len(),
                forall|k: int| 0 <= k < i ==> self.suppressed_view()[k] != app@,
            decreases self.suppressed_apps.len() - i,
        {
            if str_eq(self.suppressed_apps[i].as_str(), app) {
                proof {
                    assert(self.suppressed_view()[i as int] == app@);
                }
                return true;
            }
            i += 1;
        }
        proof {
            if self.suppressed_set().contains(app@) {
                let k = choose|k: int| 0 <= k < self.suppressed_view().len() && self.suppressed_view()[k] == app@;
            }
        }
        false
    }

    /// Records that the application (by its lowercase name) was paused on the user's behalf.
    pub fn suppress(&mut self, app: String)
        requires
            old(self).wf(),
        ensures
            final(self).wf(),
            final(self).suppressed_set() == old(self).suppressed_set().insert(app@),
            final(self).sessions_view() == old(self).sessions_view(),
            final(self).spec_system_volume() == old(self).spec_system_volume(),
    {
        if self.is_suppressed(app.as_str()) {
            proof {
                assert(self.suppressed_set() =~= self.suppressed_set().insert(app@));
            }
            return;
        }
        let ghost before = self.suppressed_view();
        self.suppressed_apps.push(app);
        proof {
            assert(self.suppressed_view() =~= before.push(app@));
            assert(self.suppressed_view().to_set() =~= before.to_set().insert(app@)) by {
                assert forall|x: Seq<char>| self.suppressed_view().to_set().contains(x) == before.to_set().insert(app@).contains(x) by {
                    if x == app@ {
                        assert(self.suppressed_view()[before.len() as int] == x);
                    }
                    if before.to_set().contains(x) {
                        let k = choose|k: int| 0 <= k < before.len() && before[k] == x;
                        assert(self.suppressed_view()[k] == x);
                    }
                    if self.suppressed_view().to_set().contains(x) {
                        let k = choose|k: int| 0 <= k < self.suppressed_view().len() && self.suppressed_view()[k] == x;
                        if k < before.len() {
                            assert(before[k] == x);
                        }
                    }
                };
            };
        }
    }

    /// Keeps only the suppressed applications for which `keep` holds.
    fn retain_suppressed(&mut self, drop_names: &Vec<String>, lower: bool)
        requires
            old(self).wf(),
        ensures
            final(self).wf(),
            final(self).suppressed_set() == old(self).suppressed_set().filter(
                |a: Seq<char>| !names_of(drop_names@).contains(if lower { lowercase(a) } else { a }),
            ),
            final(self).sessions_view() == old(self).sessions_view(),
            final(self).spec_system_volume() == old(self).spec_system_volume(),
    {
        let ghost before = self.suppressed_view();
        let ghost keep = |a: Seq<char>| !names_of(drop_names@).contains(if lower { lowercase(a) } else { a });
        let mut kept: Vec<String> = Vec::new();
        let mut i: usize = 0;
        while i < self.suppressed_apps.len()
            invariant
                i <= self.suppressed_apps.len(),
                before == self.suppressed_view(),
                before.no_duplicates(),
                forall|a: Seq<char>| #[trigger] keep(a) == !names_of(drop_names@).contains(if lower { lowercase(a) } else { a }),
                kept@.map_values(|s: String| s@) == before.take(i as int).filter(keep),
            decreases self.suppressed_apps.len() - i,
        {
            let name = &self.suppressed_apps[i];
            let key = if lower { name.as_str().to_lowercase() } else { name.clone() };
            let listed = contains_name(drop_names, key.as_str());
            proof {
                assert(before.take(i + 1).drop_last() =~= before.take(i as int));
                assert(before.take(i + 1).last() == name@);
                assert(keep(name@) == !listed);
                reveal(Seq::filter);
            }
            if !listed {
                kept.push(name.clone());
                proof {
                    assert(kept@.map_values(|s: String| s@) =~= before.take(i as int).filter(keep).push(name@));
                }
            }
            i += 1;
        }
        proof {
            assert(before.take(before.len() as int) =~= before);
            lemma_filter_no_duplicates(before, keep);
            assert(before.filter(keep).to_set() =~= before.to_set().filter(keep)) by {
                assert forall|x: Seq<char>| before.filter(keep).to_set().contains(x) == before.to_set().filter(keep).contains(x) by {
                    if before.to_set().filter(keep).contains(x) {
                        let k = choose|k: int| 0 <= k < before.len() && before[k] == x;
                        before.lemma_filter_contains(keep, k);
                    }
                    if before.filter(keep).to_set().contains(x) {
                        assert(before.filter(keep).contains(x));
                        before.lemma_filter_contains_rev(keep, x);
                        let k = choose|k: int| 0 <= k < before.filter(keep).len() && before.filter(keep)[k] == x;
                        before.lemma_filter_pred(keep, k);
                    }
                };
            };
        }
        self.suppressed_apps = kept;
    }

    /// Forgets the suppression of every application now playing: once an
    /// application plays again, it is no longer held paused.
    pub fn retain_not_playing(&mut self, apps_playing: &Vec<String>)
        requires
            old(self).wf(),
        ensures
            final(self).wf(),
            final(self).suppressed_set() == old(self).suppressed_set().filter(
                |a: Seq<char>| !names_of(apps_playing@).contains(a),
            ),
            final(self).sessions_view() == old(self).sessions_view(),
            final(self).spec_system_volume() == old(self).spec_system_volume(),
    {
        self.retain_suppressed(apps_playing, false);
        proof {
            assert(self.suppressed_set() =~= old(self).suppressed_set().filter(
                |a: Seq<char>| !names_of(apps_playing@).contains(a),
            ));
        }
    }

    /// Forgets the suppression of the given applications, whatever their case.
    pub fn unsuppress(&mut self, apps: &Vec<String>)
        requires
            old(self).wf(),
        ensures
            final(self).wf(),
            final(self).suppressed_set() == old(self).suppressed_set().filter(
                |a: Seq<char>| !lowercase_names(apps@).contains(lowercase(a)),
            ),
            final(self).sessions_view() == old(self).sessions_view(),
            final(self).spec_system_volume() == old(self).spec_system_volume(),
    {
        let lowered = lowercase_all(apps);
        self.retain_suppressed(&lowered, true);
        proof {
            assert(self.suppressed_set() =~= old(self).suppressed_set().filter(
                |a: Seq<char>| !lowercase_names(apps@).contains(lowercase(a)),
            ));
        }
    }

    /// Takes a fresh list of sessions. When it differs from the list last
    /// reported (see `sessions_changed`), each new session keeps the timestamps of
    /// the old session of its application that its change does not touch, the
    /// result is stored and returned to be reported; otherwise nothing changes and
    /// nothing is returned.
    pub fn emit_if_changed(&mut self, new_sessions: Vec<AppMediaSession>) -> (r: Option<Vec<AppMediaSession>>)
        ensures
            sessions_changed(old(self).sessions_view(), new_sessions@) ==> {
                &&& r is Some
                &&& r.unwrap()@ == carried_sessions(old(self).sessions_view(), new_sessions@)
                &&& final(self).sessions_view() == r.unwrap()@
            },
            !sessions_changed(old(self).sessions_view(), new_sessions@) ==> {
                &&& r is None
                &&& final(self).sessions_view() == old(self).sessions_view()
            },
            (exists|i: int| 0 <= i < new_sessions@.len() && is_news(old(self).sessions_view(), #[trigger] new_sessions@[i]))
                ==> r is Some,
            final(self).suppressed_view() == old(self).suppressed_view(),
            final(self).suppressed_set() == old(self).suppressed_set(),
            final(self).wf() == old(self).wf(),
            final(self).spec_system_volume() == old(self).spec_system_volume(),
    {
        let ghost old_s = self.sessions@;
        let mut out: Vec<AppMediaSession> = Vec::new();
        let mut has_changes = false;
        let mut i: usize = 0;
        while i < new_sessions.len()
            invariant
                i <= new_sessions.len(),
                self.sessions@ == old_s,
                out@ =~= carried_sessions(old_s, new_sessions@.take(i as int)),
                has_changes == exists|k: int| 0 <= k < i
                    && session_differs(#[trigger] new_sessions@[k], last_for_app(old_s, new_sessions@[k].app@)),
            decreases new_sessions.len() - i,
        {
            let new = &new_sessions[i];
            let mut item = new.duplicate();
            match find_last_for_app(&self.sessions, &new.app) {
                Some(k) => {
                    let old = &self.sessions[k];
                    if !new.eq(old) {
                        has_changes = true;
                    }
                    if !new.content_changed(old) {
                        item.updated_at = old.updated_at;
                    }
                    if !new.activation_changed(old) {
                        item.activated_at = old.activated_at;
                    }
                },
                None => {
                    has_changes = true;
                },
            }
            proof {
                assert(item == carry_timestamps(new_sessions@[i as int], last_for_app(old_s, new_sessions@[i as int].app@)));
                assert(carried_sessions(old_s, new_sessions@.take(i + 1)) =~= carried_sessions(
                    old_s,
                    new_sessions@.take(i as int),
                ).push(item));
            }
            out.push(item);
            i += 1;
        }
        proof {
            assert(new_sessions@.take(new_sessions.len() as int) =~= new_sessions@);
            lemma_differences_are_reported(old_s, new_sessions@);
        }
        if !has_changes && new_sessions.len() != self.sessions.len() {
            has_changes = true;
        }
        if !has_changes {
            proof {
                assert(!sessions_changed(old_s, new_sessions@));
            }
            return None;
        }
        let reported = duplicate_sessions(&out);
        self.sessions = out;
        Some(reported)
    }
}

impl MediaResponse {
    /// The state handed to the host: the sessions last reported, the volume of
    /// the default output, the sources (none when they could not be listed) and
    /// the application's source (none when it could not be read).
    pub fn assemble(
        state: &MediaSessionState,
        volume: u64,
        sources: Option<Vec<AudioSource>>,
        app_source: Option<Option<AudioSource>>,
    ) -> (r: MediaResponse)
        ensures
            r.sessions@ == state.sessions_view(),
            r.volume == volume,
            r.sources@ == (match sources {
                Some(v) => v@,
                None => Seq::<AudioSource>::empty(),
            }),
            r.app_source == (match app_source {
                Some(a) => a,
                None => None,
            }),
    {
        let sources = match sources {
            Some(v) => v,
            None => Vec::new(),
        };
        let app_source = match app_source {
            Some(a) => a,
            None => None,
        };
        MediaResponse { volume, sessions: state.sessions(), sources, app_source }
    }
}

} // verus!
