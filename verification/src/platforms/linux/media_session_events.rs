//! How the player monitor reacts to the session bus: which ownership changes
//! concern players, which property changes call for a new round of sessions,
//! and which players are being watched.
use vstd::prelude::*;
use crate::models::media::names_of;
use crate::platforms::linux::media_session_mpris::MPRIS_PREFIX;
use crate::text::{has_prefix, str_eq, str_starts_with};

verus! {

/// The interface whose property changes matter.
pub const PLAYER_INTERFACE: &'static str = "org.mpris.MediaPlayer2.Player";

/// What the monitor does about a change of ownership of a bus name.
#[derive(Clone, Copy, Debug, PartialEq, Eq, Structural)]
pub enum OwnerChange {
    /// The name is no player.
    Ignore,
    /// The player left the bus: stop watching it and collect the sessions again.
    PlayerRemoved,
    /// A player came (or changed hands): watch it anew and collect the sessions again.
    PlayerAppeared,
}

pub open spec fn spec_owner_change(name: Seq<char>, new_owner: Option<Seq<char>>) -> OwnerChange {
    if !has_prefix(name, MPRIS_PREFIX@) {
        OwnerChange::Ignore
    } else if new_owner is None || new_owner.unwrap().len() == 0 {
        OwnerChange::PlayerRemoved
    } else {
        OwnerChange::PlayerAppeared
    }
}

/// Classifies a `NameOwnerChanged` signal by the name and its new owner.
pub fn owner_change(name: &str, new_owner: Option<&str>) -> (r: OwnerChange)
    ensures
        r == spec_owner_change(name@, match new_owner { Some(o) => Some(o@), None => None }),
{
    if !str_starts_with(name, MPRIS_PREFIX) {
        return OwnerChange::Ignore;
    }
    match new_owner {
        Some(o) => if o.is_empty() { OwnerChange::PlayerRemoved } else { OwnerChange::PlayerAppeared },
        None => OwnerChange::PlayerRemoved,
    }
}

/// A property change of a player calls for a new round of sessions unless it
/// concerns another interface or is only the position moving on.
pub open spec fn spec_needs_refresh(interface: Seq<char>, changed: Seq<Seq<char>>) -> bool {
    interface == PLAYER_INTERFACE@ && !(changed.len() == 1 && changed.contains("Position"@))
}

pub fn needs_refresh(interface: &str, changed: &Vec<String>) -> (r: bool)
    ensures
        r == spec_needs_refresh(interface@, names_of(changed@)),
{
    if !str_eq(interface, PLAYER_INTERFACE) {
        return false;
    }
    if changed.len() == 1 {
        let only_position = str_eq(changed[0].as_str(), "Position");
        proof {
            assert(names_of(changed@)[0] == changed@[0]@);
            if names_of(changed@).contains("Position"@) {
                let k = choose|k: int| 0 <= k < names_of(changed@).len() && names_of(changed@)[k] == "Position"@;
                assert(k == 0);
            }
        }
        !only_position
    } else {
        true
    }
}

/// `s` without every occurrence of `x`.
pub open spec fn without(s: Seq<Seq<char>>, x: Seq<char>) -> Seq<Seq<char>>
    decreases s.len(),
{
    if s.len() == 0 {
        s
    } else if s.last() == x {
        without(s.drop_last(), x)
    } else {
        without(s.drop_last(), x).push(s.last())
    }
}

/// What `without` keeps: exactly the elements other than `x`.
pub proof fn lemma_without_contains(s: Seq<Seq<char>>, x: Seq<char>, y: Seq<char>)
    ensures
        without(s, x).contains(y) == (y != x && s.contains(y)),
    decreases s.len(),
{
    if s.len() > 0 {
        lemma_without_contains(s.drop_last(), x, y);
        let w = without(s.drop_last(), x);
        if s.drop_last().contains(y) {
            let k = choose|k: int| 0 <= k < s.drop_last().len() && s.drop_last()[k] == y;
            assert(s[k] == y);
        }
        if s.contains(y) && !s.drop_last().contains(y) {
            let k = choose|k: int| 0 <= k < s.len() && s[k] == y;
            if k < s.len() - 1 {
                assert(s.drop_last()[k] == y);
            }
        }
        if s.last() != x {
            if w.push(s.last()).contains(y) && y != s.last() {
                let k = choose|k: int| 0 <= k < w.push(s.last()).len() && w.push(s.last())[k] == y;
                assert(w[k] == y);
            }
            if w.contains(y) {
                let k = choose|k: int| 0 <= k < w.len() && w[k] == y;
                assert(w.push(s.last())[k] == y);
            }
            assert(w.push(s.last())[w.len() as int] == s.last());
        }
    }
}

/// `without` keeps a list free of repetitions.
pub proof fn lemma_without_no_duplicates(s: Seq<Seq<char>>, x: Seq<char>)
    requires
        s.no_duplicates(),
    ensures
        without(s, x).no_duplicates(),
    decreases s.len(),
{
    if s.len() > 0 {
        let d = s.drop_last();
        assert(d.no_duplicates()) by {
            assert forall|a: int, b: int| 0 <= a < b < d.len() implies d[a] != d[b] by {
                assert(s[a] == d[a] && s[b] == d[b]);
            }
        }
        lemma_without_no_duplicates(d, x);
        if s.last() != x {
            let w = without(d, x);
            lemma_without_contains(d, x, s.last());
            assert(!d.contains(s.last())) by {
                if d.contains(s.last()) {
                    let k = choose|k: int| 0 <= k < d.len() && d[k] == s.last();
                    assert(s[k] == s[s.len() - 1]);
                }
            }
            assert forall|a: int, b: int| 0 <= a < b < w.push(s.last()).len() implies w.push(s.last())[a] != w.push(s.last())[b] by {
                if b == w.len() {
                    assert(w.contains(w[a]));
                }
            }
        }
    }
}

/// The players being watched, each once.
pub struct PlayerWatchers {
    names: Vec<String>,
}

impl PlayerWatchers {
    pub closed spec fn view(self) -> Seq<Seq<char>> {
        names_of(self.names@)
    }

    pub fn new() -> (r: PlayerWatchers)
        ensures
            r.view() == Seq::<Seq<char>>::empty(),
    {
        let r = PlayerWatchers { names: Vec::new() };
        proof {
            assert(r.view() =~= Seq::<Seq<char>>::empty());
        }
        r
    }

    pub fn contains(&self, name: &str) -> (r: bool)
        ensures
            r == self.view().contains(name@),
    {
        crate::models::media::contains_name(&self.names, name)
    }

    /// Stops watching a player; true when it was watched (its watcher is to be
    /// stopped).
    pub fn remove(&mut self, name: &str) -> (r: bool)
        requires
            old(self).view().no_duplicates(),
        ensures
            r == old(self).view().contains(name@),
            final(self).view().no_duplicates(),
            final(self).view() == without(old(self).view(), name@),
    {
        let ghost before = self.view();
        let mut kept: Vec<String> = Vec::new();
        let mut found = false;
        let mut i: usize = 0;
        while i < self.names.len()
            invariant
                i <= self.names.len(),
                before == self.view(),
                before.no_duplicates(),
                names_of(kept@) == without(before.take(i as int), name@),
                found == before.take(i as int).contains(name@),
            decreases self.names.len() - i,
        {
            let same = str_eq(self.names[i].as_str(), name);
            proof {
                assert(before.take(i + 1).drop_last() =~= before.take(i as int));
                assert(before.take(i + 1).last() == self.names@[i as int]@);
                if before.take(i + 1).contains(name@) && !same {
                    let k = choose|k: int| 0 <= k < i + 1 && #[trigger] before.take(i + 1)[k] == name@;
                    assert(before.take(i as int)[k] == name@);
                }
                if before.take(i as int).contains(name@) {
                    let k = choose|k: int| 0 <= k < i && #[trigger] before.take(i as int)[k] == name@;
                    assert(before.take(i + 1)[k] == name@);
                }
                if same {
                    assert(before.take(i + 1)[i as int] == name@);
                }
            }
            if same {
                found = true;
            } else {
                let ghost prev = kept@;
                kept.push(self.names[i].clone());
                proof {
                    assert(names_of(kept@) =~= names_of(prev).push(self.names@[i as int]@));
                }
            }
            i += 1;
        }
        proof {
            assert(before.take(before.len() as int) =~= before);
            lemma_without_no_duplicates(before, name@);
        }
        self.names = kept;
        found
    }

    /// Watches a player anew; true when it was watched already (its old
    /// watcher is to be stopped first).
    pub fn replace(&mut self, name: String) -> (r: bool)
        requires
            old(self).view().no_duplicates(),
        ensures
            r == old(self).view().contains(name@),
            final(self).view().no_duplicates(),
            final(self).view() == without(old(self).view(), name@).push(name@),
    {
        let had = self.remove(name.as_str());
        let ghost before = self.view();
        let ghost nm = name@;
        self.names.push(name);
        proof {
            assert(self.view() =~= before.push(nm));
            lemma_without_contains(old(self).view(), nm, nm);
            assert forall|a: int, b: int| 0 <= a < b < self.view().len() implies self.view()[a] != self.view()[b] by {
                if b == before.len() {
                    assert(before[a] == self.view()[a]);
                    assert(before.contains(before[a]));
                }
            }
        }
        had
    }
}

/// What the monitor does about one change of ownership: stop the watcher the
/// name had, start a new one, and collect the sessions again.
#[derive(Clone, Copy, Debug, PartialEq, Eq, Structural)]
pub struct OwnerReaction {
    pub stop_old: bool,
    pub start_new: bool,
    pub refresh: bool,
}

/// The optional text of a new owner, as characters.
pub open spec fn opt_chars(o: Option<String>) -> Option<Seq<char>> {
    match o {
        Some(s) => Some(s@),
        None => None,
    }
}

impl PlayerWatchers {
    /// Reacts to a `NameOwnerChanged` signal for `name`. A name that is no
    /// player changes nothing and calls for nothing. Otherwise the watcher the
    /// player had (if any) is stopped, a new one is started exactly when the
    /// name has a new owner, and the sessions are collected again; each player
    /// stays watched at most once.
    pub fn on_owner_change(&mut self, name: String, new_owner: Option<String>) -> (r: OwnerReaction)
        requires
            old(self).view().no_duplicates(),
        ensures
            final(self).view().no_duplicates(),
            final(self).view() == watch_step(old(self).view(), name@, opt_chars(new_owner)),
            match spec_owner_change(name@, opt_chars(new_owner)) {
                OwnerChange::Ignore => {
                    &&& r == OwnerReaction { stop_old: false, start_new: false, refresh: false }
                    &&& final(self).view() == old(self).view()
                },
                OwnerChange::PlayerRemoved => {
                    &&& r == OwnerReaction { stop_old: old(self).view().contains(name@), start_new: false, refresh: true }
                    &&& final(self).view() == without(old(self).view(), name@)
                },
                OwnerChange::PlayerAppeared => {
                    &&& r == OwnerReaction { stop_old: old(self).view().contains(name@), start_new: true, refresh: true }
                    &&& final(self).view() == without(old(self).view(), name@).push(name@)
                },
            },
    {
        let change = match &new_owner {
            Some(o) => owner_change(name.as_str(), Some(o.as_str())),
            None => owner_change(name.as_str(), None),
        };
        match change {
            OwnerChange::Ignore => OwnerReaction { stop_old: false, start_new: false, refresh: false },
            OwnerChange::PlayerRemoved => {
                let had = self.remove(name.as_str());
                OwnerReaction { stop_old: had, start_new: false, refresh: true }
            },
            OwnerChange::PlayerAppeared => {
                let had = self.replace(name);
                OwnerReaction { stop_old: had, start_new: true, refresh: true }
            },
        }
    }
}

/// The players watched after one `NameOwnerChanged` signal.
pub open spec fn watch_step(w: Seq<Seq<char>>, name: Seq<char>, owner: Option<Seq<char>>) -> Seq<Seq<char>> {
    match spec_owner_change(name, owner) {
        OwnerChange::Ignore => w,
        OwnerChange::PlayerRemoved => without(w, name),
        OwnerChange::PlayerAppeared => without(w, name).push(name),
    }
}

/// The players watched after a run of signals (name and new owner each).
pub open spec fn watched_after(w: Seq<Seq<char>>, signals: Seq<(Seq<char>, Option<Seq<char>>)>) -> Seq<Seq<char>>
    decreases signals.len(),
{
    if signals.len() == 0 {
        w
    } else {
        watch_step(watched_after(w, signals.drop_last()), signals.last().0, signals.last().1)
    }
}

/// Whether `x` is watched after a run of signals: as the last signal for `x`
/// that concerns a player says (watched when it has an owner), or as before
/// the run when there is none.
pub open spec fn watched_by_signals(w: Seq<Seq<char>>, signals: Seq<(Seq<char>, Option<Seq<char>>)>, x: Seq<char>) -> bool
    decreases signals.len(),
{
    if signals.len() == 0 {
        w.contains(x)
    } else if signals.last().0 == x && spec_owner_change(x, signals.last().1) != OwnerChange::Ignore {
        spec_owner_change(x, signals.last().1) == OwnerChange::PlayerAppeared
    } else {
        watched_by_signals(w, signals.drop_last(), x)
    }
}

/// Over any run of signals, each player is watched at most once, and a player
/// is watched exactly when the last signal that concerns it gave it an owner
/// (or, with no such signal, when it was watched before); names that are no
/// player change nothing.
pub proof fn lemma_watchers_over_signals(w: Seq<Seq<char>>, signals: Seq<(Seq<char>, Option<Seq<char>>)>, x: Seq<char>)
    requires
        w.no_duplicates(),
    ensures
        watched_after(w, signals).no_duplicates(),
        watched_after(w, signals).contains(x) == watched_by_signals(w, signals, x),
    decreases signals.len(),
{
    if signals.len() > 0 {
        let prev = signals.drop_last();
        lemma_watchers_over_signals(w, prev, x);
        let v = watched_after(w, prev);
        let (name, owner) = signals.last();
        lemma_without_no_duplicates(v, name);
        lemma_without_contains(v, name, x);
        match spec_owner_change(name, owner) {
            OwnerChange::Ignore => {},
            OwnerChange::PlayerRemoved => {},
            OwnerChange::PlayerAppeared => {
                lemma_appeared_watched_once(v, name, x);
            },
        }
    }
}

/// A player that appears is watched once afterwards, whether or not it was
/// watched before, and every other watched player stays watched.
pub proof fn lemma_appeared_watched_once(watched: Seq<Seq<char>>, name: Seq<char>, other: Seq<char>)
    requires
        watched.no_duplicates(),
    ensures
        without(watched, name).push(name).no_duplicates(),
        without(watched, name).push(name).contains(name),
        other != name ==> (without(watched, name).push(name).contains(other) == watched.contains(other)),
{
    let w = without(watched, name);
    lemma_without_no_duplicates(watched, name);
    lemma_without_contains(watched, name, name);
    lemma_without_contains(watched, name, other);
    assert(w.push(name)[w.len() as int] == name);
    assert forall|a: int, b: int| 0 <= a < b < w.push(name).len() implies w.push(name)[a] != w.push(name)[b] by {
        if b == w.len() {
            assert(w.contains(w[a]));
        }
    }
    if w.push(name).contains(other) && other != name {
        let k = choose|k: int| 0 <= k < w.push(name).len() && w.push(name)[k] == other;
        assert(w[k] == other);
    }
    if w.contains(other) {
        let k = choose|k: int| 0 <= k < w.len() && w[k] == other;
        assert(w.push(name)[k] == other);
    }
}

} // verus!
