//! The audio sessions of the Windows mixer: the names under which a process is
//! known, which session's volume stands for an application, and which session
//! an application's volume is set on.
use vstd::prelude::*;
use crate::models::media::{names_of, contains_name};
use crate::text::{lowercase, last_segment, remove_all, str_last_segment, str_remove_all};
use std::collections::HashMap;

verus! {

/// The names under which a process is known: its application user model id and
/// its image path, the file name of that path and the file name without `.exe`,
/// all in lowercase.
pub open spec fn spec_process_aliases(aumid: Option<Seq<char>>, image_path: Option<Seq<char>>) -> Seq<Seq<char>> {
    let from_aumid = match aumid {
        Some(a) => seq![lowercase(a)],
        None => Seq::empty(),
    };
    let from_path = match image_path {
        Some(p) => {
            let full = lowercase(p);
            let file = last_segment(full, '\\');
            seq![full, file, remove_all(file, ".exe"@)]
        },
        None => Seq::empty(),
    };
    from_aumid + from_path
}

/// The lowercase image name of a process, from its image path.
pub open spec fn spec_process_name(image_path: Seq<char>) -> Seq<char> {
    lowercase(last_segment(image_path, '\\'))
}

pub fn get_process_name(image_path: &str) -> (r: String)
    ensures
        r@ == spec_process_name(image_path@),
{
    let file = str_last_segment(image_path, '\\');
    file.as_str().to_lowercase()
}

/// One session of the mixer, with what decides which session stands for an
/// application.
#[derive(Clone, Debug)]
pub struct SessionSample {
    /// The names of the session's process.
    pub aliases: Vec<String>,
    /// The session is playing (not merely inactive).
    pub active: bool,
    /// The session is on the default endpoint.
    pub is_default: bool,
    /// The bit pattern of the session's volume.
    pub app_volume: u64,
    /// The endpoint of the session.
    pub device_id: String,
    /// The bit pattern of the endpoint's volume.
    pub device_volume: u64,
}

/// The volumes that stand for one application.
#[derive(Clone, Debug)]
pub struct VolumeMatch {
    pub app_volume: u64,
    pub device_id: String,
    pub device_volume: u64,
}

/// How well a session stands for its application: playing beats inactive, and
/// the default endpoint beats the others.
pub open spec fn session_score(s: SessionSample) -> int {
    if s.active {
        if s.is_default { 4 } else { 3 }
    } else {
        if s.is_default { 2 } else { 1 }
    }
}

/// The index of the session that stands for `alias` among the first `n`: of the
/// sessions known by that name, the best scored, the later one on a tie.
pub open spec fn best_session(samples: Seq<SessionSample>, n: int, alias: Seq<char>) -> Option<int>
    decreases n,
{
    if n <= 0 {
        None
    } else {
        let prev = best_session(samples, n - 1, alias);
        if names_of(samples[n - 1].aliases@).contains(alias) && (prev is None || session_score(samples[n - 1])
            >= session_score(samples[prev.unwrap()])) {
            Some(n - 1)
        } else {
            prev
        }
    }
}

/// The entry of `alias` in a list of (name, index) entries.
pub open spec fn entry_for(entries: Seq<(String, usize)>, alias: Seq<char>) -> Option<int>
    decreases entries.len(),
{
    if entries.len() == 0 {
        None
    } else if entries.last().0@ == alias {
        Some(entries.last().1 as int)
    } else {
        entry_for(entries.drop_last(), alias)
    }
}

fn score_of(s: &SessionSample) -> (r: u8)
    ensures
        r == session_score(*s),
{
    if s.active {
        if s.is_default { 4 } else { 3 }
    } else {
        if s.is_default { 2 } else { 1 }
    }
}

fn find_entry(entries: &Vec<(String, usize)>, alias: &String) -> (r: Option<usize>)
    ensures
        match r {
            Some(k) => k < entries.len() && entries@[k as int].0@ == alias@ && entry_for(entries@, alias@) == Some(
                entries@[k as int].1 as int,
            ),
            None => entry_for(entries@, alias@) is None,
        },
{
    let mut i = entries.len();
    proof {
        assert(entries@.take(i as int) =~= entries@);
    }
    while i > 0
        invariant
            i <= entries.len(),
            entry_for(entries@, alias@) == entry_for(entries@.take(i as int), alias@),
        decreases i,
    {
        proof {
            assert(entries@.take(i as int).drop_last() =~= entries@.take(i - 1));
        }
        if entries[i - 1].0 == *alias {
            return Some(i - 1);
        }
        i -= 1;
    }
    None
}

/// A list of entries with each name once.
pub open spec fn distinct_names(entries: Seq<(String, usize)>) -> bool {
    forall|a: int, b: int| 0 <= a < b < entries.len() ==> (#[trigger] entries[a]).0@ != (#[trigger] entries[b]).0@
}

proof fn lemma_entry_for_distinct(entries: Seq<(String, usize)>, k: int)
    requires
        distinct_names(entries),
        0 <= k < entries.len(),
    ensures
        entry_for(entries, entries[k].0@) == Some(entries[k].1 as int),
    decreases entries.len(),
{
    if k < entries.len() - 1 {
        assert(entries.last().0@ != entries[k].0@);
        let t = entries.drop_last();
        assert(t[k] == entries[k]);
        lemma_entry_for_distinct(t, k);
    }
}

proof fn lemma_entry_for_missing(entries: Seq<(String, usize)>, alias: Seq<char>)
    requires
        forall|a: int| 0 <= a < entries.len() ==> (#[trigger] entries[a]).0@ != alias,
    ensures
        entry_for(entries, alias) is None,
    decreases entries.len(),
{
    if entries.len() > 0 {
        let t = entries.drop_last();
        assert forall|a: int| 0 <= a < t.len() implies (#[trigger] t[a]).0@ != alias by {
            assert(t[a] == entries[a]);
        };
        lemma_entry_for_missing(t, alias);
    }
}

/// The per-process session manager: it remembers the names of each process it
/// has looked up.
pub struct WindowsAudioSessionManager {
    pid_cache: HashMap<u32, Vec<String>>,
}

impl WindowsAudioSessionManager {
    pub closed spec fn cached(self, pid: u32) -> Option<Seq<Seq<char>>> {
        if self.pid_cache@.contains_key(pid) { Some(names_of(self.pid_cache@[pid]@)) } else { None }
    }

    pub fn new() -> (r: WindowsAudioSessionManager)
        ensures
            forall|pid: u32| r.cached(pid) is None,
    {
        broadcast use vstd::std_specs::hash::group_hash_axioms;
        WindowsAudioSessionManager { pid_cache: HashMap::new() }
    }

    /// The names remembered for a process.
    pub fn cached_aliases(&self, pid: u32) -> (r: Option<Vec<String>>)
        ensures
            match r {
                Some(v) => self.cached(pid) == Some(names_of(v@)),
                None => self.cached(pid) is None,
            },
    {
        broadcast use vstd::std_specs::hash::group_hash_axioms;
        match self.pid_cache.get(&pid) {
            Some(v) => Some(v.clone()),
            None => None,
        }
    }

    /// Remembers the names of a process, when it has any.
    pub fn remember_aliases(&mut self, pid: u32, aliases: &Vec<String>)
        ensures
            aliases@.len() > 0 ==> final(self).cached(pid) == Some(names_of(aliases@)),
            aliases@.len() == 0 ==> final(self).cached(pid) == old(self).cached(pid),
            forall|other: u32| other != pid ==> final(self).cached(other) == old(self).cached(other),
    {
        broadcast use vstd::std_specs::hash::group_hash_axioms;
        if aliases.len() > 0 {
            self.pid_cache.insert(pid, aliases.clone());
        }
    }

    /// The volumes that stand for each name: for every name of a sampled
    /// session, the volumes of the best session known by that name (see
    /// `best_session`). Each name is listed once.
    pub fn get_all_volumes(&self, samples: &Vec<SessionSample>) -> (r: Vec<(String, VolumeMatch)>)
        ensures
            forall|a: int, b: int| 0 <= a < b < r@.len() ==> (#[trigger] r@[a]).0@ != (#[trigger] r@[b]).0@,
            forall|a: int| 0 <= a < r@.len() ==> {
                let best = best_session(samples@, samples@.len() as int, (#[trigger] r@[a]).0@);
                &&& best is Some
                &&& r@[a].1.app_volume == samples@[best.unwrap()].app_volume
                &&& r@[a].1.device_id == samples@[best.unwrap()].device_id
                &&& r@[a].1.device_volume == samples@[best.unwrap()].device_volume
            },
            forall|alias: Seq<char>| #![trigger best_session(samples@, samples@.len() as int, alias)]
                best_session(samples@, samples@.len() as int, alias) is Some ==> exists|a: int| 0 <= a < r@.len()
                    && (#[trigger] r@[a]).0@ == alias,
    {
        let mut entries: Vec<(String, usize)> = Vec::new();
        let mut i: usize = 0;
        while i < samples.len()
            invariant
                i <= samples.len(),
                distinct_names(entries@),
                forall|a: int| 0 <= a < entries@.len() ==> (#[trigger] entries@[a]).1 < i,
                forall|alias: Seq<char>| #[trigger] entry_for(entries@, alias) == best_session(samples@, i as int, alias),
            decreases samples.len() - i,
        {
            let s = &samples[i];
            let score = score_of(s);
            let ghost before = entries@;
            let mut j: usize = 0;
            while j < s.aliases.len()
                invariant
                    i < samples.len(),
                    s == samples@[i as int],
                    score == session_score(*s),
                    j <= s.aliases.len(),
                    distinct_names(entries@),
                    forall|a: int| 0 <= a < entries@.len() ==> (#[trigger] entries@[a]).1 <= i,
                    forall|alias: Seq<char>| #[trigger] entry_for(entries@, alias) == (if names_of(s.aliases@.take(
                        j as int,
                    )).contains(alias) && (best_session(samples@, i as int, alias) is None || session_score(*s)
                        >= session_score(samples@[best_session(samples@, i as int, alias).unwrap()])) {
                        Some(i as int)
                    } else {
                        best_session(samples@, i as int, alias)
                    }),
                decreases s.aliases.len() - j,
            {
                let alias = &s.aliases[j];
                let ghost old_entries = entries@;
                proof {
                    assert(names_of(s.aliases@.take(j + 1)) =~= names_of(s.aliases@.take(j as int)).push(alias@));
                }
                let ghost in_prev = names_of(s.aliases@.take(j as int)).contains(alias@);
                let ghost bx = best_session(samples@, i as int, alias@);
                match find_entry(&entries, alias) {
                    Some(k) => {
                        let current = entries[k].1;
                        let current_score = score_of(&samples[current]);
                        if score >= current_score {
                            let entry = (alias.clone(), i);
                            let ghost e = entry;
                            entries.set(k, entry);
                            proof {
                                assert forall|alias2: Seq<char>| #[trigger] entry_for(entries@, alias2) == (if alias2 == alias@ {
                                    Some(i as int)
                                } else {
                                    entry_for(old_entries, alias2)
                                }) by {
                                    lemma_entry_set(old_entries, k as int, e, alias2);
                                };
                            }
                        } else {
                            proof {
                                if current as int == i as int {
                                    assert(samples@[current as int] == *s);
                                }
                            }
                        }
                        proof {
                            assert forall|a: int, b: int| 0 <= a < b < entries@.len() implies (#[trigger] entries@[a]).0@
                                != (#[trigger] entries@[b]).0@ by {
                                assert(old_entries[a].0@ != old_entries[b].0@);
                            };
                        }
                    },
                    None => {
                        entries.push((alias.clone(), i));
                        proof {
                            assert(entries@.drop_last() =~= old_entries);
                            assert forall|a: int, b: int| 0 <= a < b < entries@.len() implies (#[trigger] entries@[a]).0@
                                != (#[trigger] entries@[b]).0@ by {
                                if b == old_entries.len() {
                                    if old_entries[a].0@ == alias@ {
                                        lemma_entry_for_distinct(old_entries, a);
                                    }
                                }
                            };
                        }
                    },
                }
                proof {
                    assert forall|alias2: Seq<char>| #[trigger] entry_for(entries@, alias2) == (if names_of(s.aliases@.take(
                        j + 1,
                    )).contains(alias2) && (best_session(samples@, i as int, alias2) is None || session_score(*s)
                        >= session_score(samples@[best_session(samples@, i as int, alias2).unwrap()])) {
                        Some(i as int)
                    } else {
                        best_session(samples@, i as int, alias2)
                    }) by {
                        let t = names_of(s.aliases@.take(j as int));
                        assert(names_of(s.aliases@.take(j + 1)) == t.push(alias@));
                        if alias2 != alias@ {
                            if t.push(alias@).contains(alias2) {
                                let w = choose|w: int| 0 <= w < t.push(alias@).len() && t.push(alias@)[w] == alias2;
                                assert(w < t.len());
                                assert(t.contains(alias2));
                            }
                            if t.contains(alias2) {
                                let w = choose|w: int| 0 <= w < t.len() && t[w] == alias2;
                                assert(t.push(alias@)[w] == alias2);
                            }
                        } else {
                            assert(t.push(alias@)[t.len() as int] == alias2);
                        }
                    };
                }
                j += 1;
            }
            proof {
                assert(s.aliases@.take(s.aliases@.len() as int) =~= s.aliases@);
                assert forall|alias: Seq<char>| #[trigger] entry_for(entries@, alias) == best_session(samples@, i + 1, alias) by {
                    assert(samples@[i as int] == *s);
                };
            }
            i += 1;
        }
        let mut out: Vec<(String, VolumeMatch)> = Vec::new();
        let mut k: usize = 0;
        while k < entries.len()
            invariant
                k <= entries.len(),
                distinct_names(entries@),
                forall|a: int| 0 <= a < entries@.len() ==> (#[trigger] entries@[a]).1 < samples@.len(),
                forall|alias: Seq<char>| #[trigger] entry_for(entries@, alias) == best_session(samples@, samples@.len() as int, alias),
                out@.len() == k,
                forall|a: int| 0 <= a < k ==> (#[trigger] out@[a]).0@ == entries@[a].0@ && out@[a].1.app_volume
                    == samples@[entries@[a].1 as int].app_volume && out@[a].1.device_id == samples@[entries@[a].1 as int].device_id
                    && out@[a].1.device_volume == samples@[entries@[a].1 as int].device_volume,
            decreases entries.len() - k,
        {
            let idx = entries[k].1;
            let s = &samples[idx];
            out.push((
                entries[k].0.clone(),
                VolumeMatch { app_volume: s.app_volume, device_id: s.device_id.clone(), device_volume: s.device_volume },
            ));
            k += 1;
        }
        proof {
            assert forall|a: int| 0 <= a < out@.len() implies {
                let best = best_session(samples@, samples@.len() as int, (#[trigger] out@[a]).0@);
                &&& best is Some
                &&& out@[a].1.app_volume == samples@[best.unwrap()].app_volume
                &&& out@[a].1.device_id == samples@[best.unwrap()].device_id
                &&& out@[a].1.device_volume == samples@[best.unwrap()].device_volume
            } by {
                lemma_entry_for_distinct(entries@, a);
            };
            assert forall|alias: Seq<char>| #![trigger best_session(samples@, samples@.len() as int, alias)]
                best_session(samples@, samples@.len() as int, alias) is Some implies exists|a: int| 0 <= a < out@.len()
                    && (#[trigger] out@[a]).0@ == alias by {
                if forall|a: int| 0 <= a < entries@.len() ==> (#[trigger] entries@[a]).0@ != alias {
                    lemma_entry_for_missing(entries@, alias);
                }
                let a = choose|a: int| 0 <= a < entries@.len() && (#[trigger] entries@[a]).0@ == alias;
                assert(out@[a].0@ == alias);
            };
        }
        out
    }
}

proof fn lemma_entry_set(entries: Seq<(String, usize)>, k: int, e: (String, usize), alias: Seq<char>)
    requires
        0 <= k < entries.len(),
        distinct_names(entries),
        entries[k].0@ == e.0@,
    ensures
        entry_for(entries.update(k, e), alias) == (if alias == e.0@ {
            Some(e.1 as int)
        } else {
            entry_for(entries, alias)
        }),
    decreases entries.len(),
{
    let u = entries.update(k, e);
    if k == entries.len() - 1 {
        assert(u.drop_last() =~= entries.drop_last());
        if alias == e.0@ {
        } else {
        }
    } else {
        assert(u.drop_last() =~= entries.drop_last().update(k, e));
        assert(entries.last().0@ != entries[k].0@);
        lemma_entry_set(entries.drop_last(), k, e, alias);
    }
}

pub fn process_aliases(aumid: &Option<String>, image_path: &Option<String>) -> (r: Vec<String>)
    ensures
        names_of(r@) == spec_process_aliases(crate::models::media::opt_view(*aumid), crate::models::media::opt_view(*image_path)),
{
    let mut aliases: Vec<String> = Vec::new();
    if let Some(a) = aumid {
        aliases.push(a.as_str().to_lowercase());
    }
    if let Some(p) = image_path {
        let full = p.as_str().to_lowercase();
        let file = str_last_segment(full.as_str(), '\\');
        let stem = str_remove_all(file.as_str(), ".exe");
        aliases.push(full);
        aliases.push(file);
        aliases.push(stem);
    }
    proof {
        assert(names_of(aliases@) =~= spec_process_aliases(
            crate::models::media::opt_view(*aumid),
            crate::models::media::opt_view(*image_path),
        ));
    }
    aliases
}

} // verus!

verus! {

/// The first index below `n` where `p` holds.
pub open spec fn first_where(n: int, p: spec_fn(int) -> bool) -> Option<int>
    decreases n,
{
    if n <= 0 {
        None
    } else {
        match first_where(n - 1, p) {
            Some(k) => Some(k),
            None => if p(n - 1) { Some(n - 1) } else { None },
        }
    }
}

/// The last index below `n` where `p` holds.
pub open spec fn last_where(n: int, p: spec_fn(int) -> bool) -> Option<int>
    decreases n,
{
    if n <= 0 {
        None
    } else if p(n - 1) {
        Some(n - 1)
    } else {
        last_where(n - 1, p)
    }
}

/// A session of the mixer that could carry an application's volume.
#[derive(Clone, Debug)]
pub struct SessionCandidate {
    /// The names of the session's process.
    pub aliases: Vec<String>,
    /// The session is playing (not merely inactive).
    pub active: bool,
    /// The session is on the default endpoint.
    pub is_default: bool,
}

pub open spec fn known_as(c: SessionCandidate, app: Seq<char>) -> bool {
    names_of(c.aliases@).contains(app)
}

/// The session on which an application's volume is set, among those known by
/// its name: the first playing one on the default endpoint; else the last
/// playing one; else the last inactive one on the default endpoint; else the
/// first inactive one.
pub open spec fn chosen_session(cands: Seq<SessionCandidate>, app: Seq<char>) -> Option<int> {
    let n = cands.len() as int;
    let active_default = |i: int| known_as(cands[i], app) && cands[i].active && cands[i].is_default;
    let active = |i: int| known_as(cands[i], app) && cands[i].active;
    let idle_default = |i: int| known_as(cands[i], app) && !cands[i].active && cands[i].is_default;
    let idle = |i: int| known_as(cands[i], app) && !cands[i].active;
    match first_where(n, active_default) {
        Some(i) => Some(i),
        None => match last_where(n, active) {
            Some(i) => Some(i),
            None => match last_where(n, idle_default) {
                Some(i) => Some(i),
                None => first_where(n, idle),
            },
        },
    }
}

/// The fallback among the first `n` candidates: the last idle one on the
/// default endpoint, else the first idle one.
pub open spec fn idle_fallback(cands: Seq<SessionCandidate>, app: Seq<char>, n: int) -> Option<int> {
    let idle_default = |i: int| known_as(cands[i], app) && !cands[i].active && cands[i].is_default;
    let idle = |i: int| known_as(cands[i], app) && !cands[i].active;
    match last_where(n, idle_default) {
        Some(i) => Some(i),
        None => first_where(n, idle),
    }
}

proof fn lemma_first_where_stable(n: int, m: int, p: spec_fn(int) -> bool)
    requires
        0 <= n <= m,
        first_where(n, p) is Some,
    ensures
        first_where(m, p) == first_where(n, p),
    decreases m - n,
{
    if n < m {
        lemma_first_where_stable(n, m - 1, p);
    }
}

pub fn find_audio_session_for_app(cands: &Vec<SessionCandidate>, app: &str) -> (r: Option<usize>)
    ensures
        match r {
            Some(i) => chosen_session(cands@, app@) == Some(i as int),
            None => chosen_session(cands@, app@) is None,
        },
{
    let ghost n = cands@.len() as int;
    let ghost active_default = |i: int| known_as(cands@[i], app@) && cands@[i].active && cands@[i].is_default;
    let ghost active = |i: int| known_as(cands@[i], app@) && cands@[i].active;
    let ghost idle_default = |i: int| known_as(cands@[i], app@) && !cands@[i].active && cands@[i].is_default;
    let ghost idle = |i: int| known_as(cands@[i], app@) && !cands@[i].active;
    let mut best: Option<usize> = None;
    let mut fallback: Option<usize> = None;
    let mut i: usize = 0;
    while i < cands.len()
        invariant
            i <= cands.len(),
            n == cands@.len(),
            forall|k: int| #[trigger] active_default(k) == (known_as(cands@[k], app@) && cands@[k].active && cands@[k].is_default),
            forall|k: int| #[trigger] active(k) == (known_as(cands@[k], app@) && cands@[k].active),
            forall|k: int| #[trigger] idle_default(k) == (known_as(cands@[k], app@) && !cands@[k].active && cands@[k].is_default),
            forall|k: int| #[trigger] idle(k) == (known_as(cands@[k], app@) && !cands@[k].active),
            first_where(i as int, active_default) is None,
            match best {
                Some(b) => last_where(i as int, active) == Some(b as int),
                None => last_where(i as int, active) is None,
            },
            best is None ==> match fallback {
                Some(f) => idle_fallback(cands@, app@, i as int) == Some(f as int),
                None => idle_fallback(cands@, app@, i as int) is None,
            },
        decreases cands.len() - i,
    {
        let c = &cands[i];
        if contains_name(&c.aliases, app) {
            if c.active {
                if c.is_default {
                    proof {
                        assert(active_default(i as int));
                        assert(first_where(i + 1, active_default) == Some(i as int));
                        lemma_first_where_stable(i + 1, n, active_default);
                        let spec_ad = |k: int| known_as(cands@[k], app@) && cands@[k].active && cands@[k].is_default;
                        assert(spec_ad =~= active_default);
                        assert(first_where(cands@.len() as int, spec_ad) == Some(i as int));
                    }
                    return Some(i);
                } else {
                    best = Some(i);
                }
            } else if best.is_none() {
                if c.is_default || fallback.is_none() {
                    fallback = Some(i);
                }
            }
        }
        proof {
            assert(!active_default(i as int) ==> first_where(i + 1, active_default) is None);
        }
        i += 1;
    }
    proof {
        assert(first_where(n, active_default) is None);
    }
    match best {
        Some(b) => Some(b),
        None => fallback,
    }
}

} // verus!
