//! What the audio watchers of Windows decide: which change of the application's
//! output device is worth announcing, and which endpoints to subscribe to or
//! leave as devices come and go.
use vstd::prelude::*;
use crate::models::media::{AudioSource, same_opt_source, is_nan_bits, opt_source_equals, opt_source_duplicate, names_of, contains_name};
use crate::platforms::linux::media_session_events::{without, lemma_without_contains, lemma_without_no_duplicates};
use crate::text::str_eq;

verus! {

/// Follows the output device of the application and says when it changed.
pub struct AppSourceWatcher {
    poll_interval_ms: u64,
    last_value: Option<Option<AudioSource>>,
}

impl AppSourceWatcher {
    /// The value last announced; none before the first.
    pub closed spec fn last(self) -> Option<Option<AudioSource>> {
        self.last_value
    }

    pub closed spec fn interval(self) -> u64 {
        self.poll_interval_ms
    }

    /// A watcher that polls every `poll_interval_ms` milliseconds and has
    /// announced nothing yet.
    pub fn new(poll_interval_ms: u64) -> (r: AppSourceWatcher)
        ensures
            r.last() is None,
            r.interval() == poll_interval_ms,
    {
        AppSourceWatcher { poll_interval_ms, last_value: None }
    }

    pub fn poll_interval_ms(&self) -> (r: u64)
        ensures
            r == self.interval(),
    {
        self.poll_interval_ms
    }

    /// Takes the device the application plays on now; true when it is to be
    /// announced: the first time, and whenever it differs from the one last
    /// announced.
    pub fn observe(&mut self, current: &Option<AudioSource>) -> (r: bool)
        ensures
            r == announces(old(self).last(), *current),
            r ==> final(self).last() == Some(*current),
            !r ==> final(self).last() == old(self).last(),
            final(self).interval() == old(self).interval(),
    {
        let changed = match &self.last_value {
            None => true,
            Some(prev) => !opt_source_equals(prev, current),
        };
        if changed {
            self.last_value = Some(opt_source_duplicate(current));
        }
        changed
    }
}

/// Whether a watcher that last announced `last` announces `current`.
pub open spec fn announces(last: Option<Option<AudioSource>>, current: Option<AudioSource>) -> bool {
    match last {
        None => true,
        Some(prev) => !same_opt_source(prev, current),
    }
}

/// The first device seen is announced, and a device that was just announced
/// is not announced again while it stays (its volume being a number: a NaN
/// volume differs from itself).
pub proof fn lemma_app_source_announced_once(current: Option<AudioSource>)
    requires
        current matches Some(s) ==> !is_nan_bits(s.volume),
    ensures
        announces(None, current),
        !announces(Some(current), current),
{
}

/// The endpoint ids among what the enumeration gave: those it could read and
/// that are not empty, in order.
pub open spec fn listed_ids(active: Seq<Option<String>>) -> Seq<Seq<char>>
    decreases active.len(),
{
    if active.len() == 0 {
        Seq::empty()
    } else {
        let rest = listed_ids(active.drop_last());
        match active.last() {
            Some(id) => if id@.len() > 0 { rest.push(id@) } else { rest },
            None => rest,
        }
    }
}

proof fn lemma_push_contains(s: Seq<Seq<char>>, v: Seq<char>, x: Seq<char>)
    ensures
        s.push(v).contains(x) <==> (s.contains(x) || x == v),
{
    if s.push(v).contains(x) && x != v {
        let k = choose|k: int| 0 <= k < s.push(v).len() && s.push(v)[k] == x;
        assert(s[k] == x);
    }
    if s.contains(x) {
        let k = choose|k: int| 0 <= k < s.len() && s[k] == x;
        assert(s.push(v)[k] == x);
    }
    assert(s.push(v)[s.len() as int] == v);
}

/// `sub` holds exactly the ids of `listed` that `followed` lacks.
pub open spec fn missing_from(sub: Seq<Seq<char>>, listed: Seq<Seq<char>>, followed: Seq<Seq<char>>) -> bool {
    forall|x: Seq<char>| #[trigger] sub.contains(x) <==> (listed.contains(x) && !followed.contains(x))
}

/// A plan fits the endpoints `followed` and the enumeration `active`: it
/// subscribes, each once, to exactly the listed endpoints not followed, and
/// leaves, each once, exactly the followed endpoints no longer listed.
pub open spec fn plan_fits(followed: Seq<Seq<char>>, active: Seq<Option<String>>, plan: SyncPlan) -> bool {
    &&& names_of(plan.subscribe@).no_duplicates()
    &&& names_of(plan.unsubscribe@).no_duplicates()
    &&& missing_from(names_of(plan.subscribe@), listed_ids(active), followed)
    &&& forall|id: Seq<char>| #[trigger] names_of(plan.unsubscribe@).contains(id) <==> (followed.contains(id) && !listed_ids(active).contains(id))
}

/// Whether the subscription to `id` was among those of the plan that succeeded.
pub open spec fn subscribed_in(plan: SyncPlan, ok: Seq<bool>, id: Seq<char>) -> bool {
    exists|k: int| 0 <= k < plan.subscribe@.len() && ok[k] && (#[trigger] plan.subscribe@[k])@ == id
}

/// What one pass over the endpoints does: the endpoints to subscribe to, and
/// those to leave.
pub struct SyncPlan {
    pub subscribe: Vec<String>,
    pub unsubscribe: Vec<String>,
}

/// The endpoints whose volume is followed, each once.
pub struct EndpointSubscriptions {
    ids: Vec<String>,
}

impl EndpointSubscriptions {
    pub closed spec fn view(self) -> Seq<Seq<char>> {
        names_of(self.ids@)
    }

    pub closed spec fn wf(self) -> bool {
        self.view().no_duplicates()
    }

    pub fn new() -> (r: EndpointSubscriptions)
        ensures
            r.wf(),
            r.view() == Seq::<Seq<char>>::empty(),
    {
        let r = EndpointSubscriptions { ids: Vec::new() };
        proof {
            assert(r.view() =~= Seq::<Seq<char>>::empty());
        }
        r
    }

    /// The plan of a pass: subscribe to each listed endpoint not followed yet
    /// (once, in the order listed), leave each followed endpoint not listed.
    pub fn plan_sync(&self, active: &Vec<Option<String>>) -> (r: SyncPlan)
        requires
            self.wf(),
        ensures
            names_of(r.subscribe@).no_duplicates(),
            names_of(r.unsubscribe@).no_duplicates(),
            missing_from(names_of(r.subscribe@), listed_ids(active@), self.view()),
            forall|id: Seq<char>| names_of(r.unsubscribe@).contains(id) <==> (self.view().contains(id) && !listed_ids(active@).contains(id)),
            plan_fits(self.view(), active@, r),
    {
        let mut listed: Vec<String> = Vec::new();
        let mut subscribe: Vec<String> = Vec::new();
        let mut i: usize = 0;
        while i < active.len()
            invariant
                i <= active.len(),
                self.wf(),
                names_of(listed@) == listed_ids(active@.take(i as int)),
                names_of(subscribe@).no_duplicates(),
                missing_from(names_of(subscribe@), listed_ids(active@.take(i as int)), self.view()),
            decreases active.len() - i,
        {
            proof {
                assert(active@.take(i + 1).drop_last() =~= active@.take(i as int));
                assert(active@.take(i + 1).last() == active@[i as int]);
            }
            if let Some(id) = &active[i] {
                if !id.as_str().is_empty() {
                    let ghost before_l = listed@;
                    let ghost bs = names_of(subscribe@);
                    let ghost prev = listed_ids(active@.take(i as int));
                    let followed = contains_name(&self.ids, id.as_str());
                    let known = contains_name(&subscribe, id.as_str());
                    listed.push(id.clone());
                    proof {
                        assert(names_of(listed@) =~= names_of(before_l).push(id@));
                    }
                    if !followed && !known {
                        subscribe.push(id.clone());
                        proof {
                            assert(names_of(subscribe@) =~= bs.push(id@));
                            assert forall|a: int, b: int| 0 <= a < b < bs.push(id@).len() implies bs.push(id@)[a] != bs.push(id@)[b] by {
                                if b == bs.len() {
                                    assert(bs.contains(bs[a]));
                                }
                            }
                        }
                    }
                    proof {
                        let now = listed_ids(active@.take(i + 1));
                        assert(now == prev.push(id@));
                        assert(missing_from(bs, prev, self.view()));
                        assert forall|x: Seq<char>| names_of(subscribe@).contains(x) <==> (now.contains(x) && !self.view().contains(x)) by {
                            lemma_push_contains(prev, id@, x);
                            lemma_push_contains(bs, id@, x);
                            assert(bs.contains(x) <==> (prev.contains(x) && !self.view().contains(x)));
                        }
                    }
                }
            }
            i += 1;
        }
        proof {
            assert(active@.take(active.len() as int) =~= active@);
            assert(listed_ids(active@.take(active.len() as int)) == listed_ids(active@));
        }
        let mut unsubscribe: Vec<String> = Vec::new();
        let mut j: usize = 0;
        while j < self.ids.len()
            invariant
                j <= self.ids.len(),
                self.wf(),
                names_of(listed@) == listed_ids(active@),
                names_of(unsubscribe@) == self.view().take(j as int).filter(|x: Seq<char>| !listed_ids(active@).contains(x)),
            decreases self.ids.len() - j,
        {
            let id = &self.ids[j];
            let present = contains_name(&listed, id.as_str());
            proof {
                assert(self.view().take(j + 1).drop_last() =~= self.view().take(j as int));
                assert(self.view().take(j + 1).last() == id@);
                reveal(Seq::filter);
            }
            if !present {
                let ghost before = unsubscribe@;
                unsubscribe.push(id.clone());
                proof {
                    assert(names_of(unsubscribe@) =~= names_of(before).push(id@));
                }
            }
            j += 1;
        }
        proof {
            let v = self.view();
            let p = |x: Seq<char>| !listed_ids(active@).contains(x);
            assert(v.take(v.len() as int) =~= v);
            crate::models::media::lemma_filter_no_duplicates(v, p);
            assert forall|id: Seq<char>| v.filter(p).contains(id) <==> (v.contains(id) && !listed_ids(active@).contains(id)) by {
                if v.filter(p).contains(id) {
                    v.lemma_filter_contains_rev(p, id);
                    let k = choose|k: int| 0 <= k < v.filter(p).len() && v.filter(p)[k] == id;
                    v.lemma_filter_pred(p, k);
                }
                if v.contains(id) && !listed_ids(active@).contains(id) {
                    let k = choose|k: int| 0 <= k < v.len() && v[k] == id;
                    v.lemma_filter_contains(p, k);
                }
            }
        }
        SyncPlan { subscribe, unsubscribe }
    }

    /// Records a pass of `plan` over the enumeration `active`: `ok[k]` tells
    /// whether the subscription to `plan.subscribe[k]` succeeded, and every
    /// endpoint of `plan.unsubscribe` was left. Afterwards exactly the
    /// endpoints followed before that are still listed, and those newly
    /// subscribed to, are followed, each once.
    pub fn finish_sync(&mut self, active: &Vec<Option<String>>, plan: &SyncPlan, ok: &Vec<bool>)
        requires
            old(self).wf(),
            plan_fits(old(self).view(), active@, *plan),
            ok@.len() == plan.subscribe@.len(),
        ensures
            final(self).wf(),
            forall|id: Seq<char>| #[trigger] final(self).view().contains(id) <==> (
                (old(self).view().contains(id) && listed_ids(active@).contains(id)) || subscribed_in(*plan, ok@, id)),
    {
        let ghost followed = self.view();
        let ghost subs = names_of(plan.subscribe@);
        let mut k: usize = 0;
        while k < plan.subscribe.len()
            invariant
                k <= plan.subscribe.len(),
                ok@.len() == plan.subscribe@.len(),
                self.wf(),
                plan_fits(followed, active@, *plan),
                subs == names_of(plan.subscribe@),
                forall|x: Seq<char>| #[trigger] self.view().contains(x) <==> (followed.contains(x)
                    || exists|j: int| 0 <= j < k && ok[j] && (#[trigger] plan.subscribe@[j])@ == x),
            decreases plan.subscribe.len() - k,
        {
            if ok[k] {
                let id = plan.subscribe[k].clone();
                proof {
                    assert(subs[k as int] == id@);
                    assert(subs.contains(id@));
                    assert(!followed.contains(id@));
                    if self.view().contains(id@) {
                        let j = choose|j: int| 0 <= j < k && ok[j] && (#[trigger] plan.subscribe@[j])@ == id@;
                        assert(subs[j] == subs[k as int]);
                    }
                }
                let ghost before = self.view();
                self.subscribed(id);
                proof {
                    assert forall|x: Seq<char>| #[trigger] self.view().contains(x) <==> (followed.contains(x)
                        || exists|j: int| 0 <= j < k + 1 && ok[j] && (#[trigger] plan.subscribe@[j])@ == x) by {
                        lemma_push_contains(before, plan.subscribe@[k as int]@, x);
                        if exists|j: int| 0 <= j < k + 1 && ok[j] && (#[trigger] plan.subscribe@[j])@ == x {
                            let j = choose|j: int| 0 <= j < k + 1 && ok[j] && (#[trigger] plan.subscribe@[j])@ == x;
                            if j < k {
                                assert(exists|j: int| 0 <= j < k && ok[j] && (#[trigger] plan.subscribe@[j])@ == x);
                            }
                        }
                    }
                }
            } else {
                proof {
                    assert forall|x: Seq<char>| #[trigger] self.view().contains(x) <==> (followed.contains(x)
                        || exists|j: int| 0 <= j < k + 1 && ok[j] && (#[trigger] plan.subscribe@[j])@ == x) by {
                        if exists|j: int| 0 <= j < k + 1 && ok[j] && (#[trigger] plan.subscribe@[j])@ == x {
                            let j = choose|j: int| 0 <= j < k + 1 && ok[j] && (#[trigger] plan.subscribe@[j])@ == x;
                            assert(j != k);
                            assert(exists|j: int| 0 <= j < k && ok[j] && (#[trigger] plan.subscribe@[j])@ == x);
                        }
                    }
                }
            }
            k += 1;
        }
        let ghost added = self.view();
        let mut u: usize = 0;
        while u < plan.unsubscribe.len()
            invariant
                u <= plan.unsubscribe.len(),
                self.wf(),
                plan_fits(followed, active@, *plan),
                forall|x: Seq<char>| #[trigger] added.contains(x) <==> (followed.contains(x) || subscribed_in(*plan, ok@, x)),
                forall|x: Seq<char>| #[trigger] self.view().contains(x) <==> (added.contains(x)
                    && !exists|j: int| 0 <= j < u && (#[trigger] plan.unsubscribe@[j])@ == x),
            decreases plan.unsubscribe.len() - u,
        {
            let ghost before = self.view();
            self.unsubscribed(plan.unsubscribe[u].as_str());
            proof {
                assert forall|x: Seq<char>| #[trigger] self.view().contains(x) <==> (added.contains(x)
                    && !exists|j: int| 0 <= j < u + 1 && (#[trigger] plan.unsubscribe@[j])@ == x) by {
                    crate::platforms::linux::media_session_events::lemma_without_contains(before, plan.unsubscribe@[u as int]@, x);
                    if exists|j: int| 0 <= j < u + 1 && (#[trigger] plan.unsubscribe@[j])@ == x {
                        let j = choose|j: int| 0 <= j < u + 1 && (#[trigger] plan.unsubscribe@[j])@ == x;
                        if j < u {
                            assert(exists|j: int| 0 <= j < u && (#[trigger] plan.unsubscribe@[j])@ == x);
                        }
                    }
                }
            }
            u += 1;
        }
        proof {
            let uns = names_of(plan.unsubscribe@);
            assert forall|id: Seq<char>| #[trigger] self.view().contains(id) <==> (
                (followed.contains(id) && listed_ids(active@).contains(id)) || subscribed_in(*plan, ok@, id)) by {
                let gone = exists|j: int| 0 <= j < plan.unsubscribe@.len() && (#[trigger] plan.unsubscribe@[j])@ == id;
                if gone {
                    let j = choose|j: int| 0 <= j < plan.unsubscribe@.len() && (#[trigger] plan.unsubscribe@[j])@ == id;
                    assert(uns[j] == id);
                    assert(uns.contains(id));
                }
                if uns.contains(id) {
                    let j = choose|j: int| 0 <= j < uns.len() && uns[j] == id;
                    assert(plan.unsubscribe@[j]@ == id);
                }
                assert(gone == uns.contains(id));
                if subscribed_in(*plan, ok@, id) {
                    let k = choose|k: int| 0 <= k < plan.subscribe@.len() && ok[k] && (#[trigger] plan.subscribe@[k])@ == id;
                    assert(names_of(plan.subscribe@)[k] == id);
                    assert(names_of(plan.subscribe@).contains(id));
                }
            }
        }
    }

    /// Records a subscription that succeeded.
    pub fn subscribed(&mut self, id: String)
        requires
            old(self).wf(),
            !old(self).view().contains(id@),
        ensures
            final(self).wf(),
            final(self).view() == old(self).view().push(id@),
    {
        let ghost before = self.view();
        let ghost v = id@;
        self.ids.push(id);
        proof {
            assert(self.view() =~= before.push(v));
            assert forall|a: int, b: int| 0 <= a < b < self.view().len() implies self.view()[a] != self.view()[b] by {
                if b == before.len() {
                    assert(before.contains(before[a]));
                }
            }
        }
    }

    /// Records that an endpoint is no longer followed.
    pub fn unsubscribed(&mut self, id: &str)
        requires
            old(self).wf(),
        ensures
            final(self).wf(),
            final(self).view() == without(old(self).view(), id@),
    {
        let ghost before = self.view();
        let mut kept: Vec<String> = Vec::new();
        let mut i: usize = 0;
        while i < self.ids.len()
            invariant
                i <= self.ids.len(),
                before == self.view(),
                names_of(kept@) == without(before.take(i as int), id@),
            decreases self.ids.len() - i,
        {
            proof {
                assert(before.take(i + 1).drop_last() =~= before.take(i as int));
                assert(before.take(i + 1).last() == self.ids@[i as int]@);
            }
            if !str_eq(self.ids[i].as_str(), id) {
                let ghost prev = kept@;
                kept.push(self.ids[i].clone());
                proof {
                    assert(names_of(kept@) =~= names_of(prev).push(self.ids@[i as int]@));
                }
            }
            i += 1;
        }
        proof {
            assert(before.take(before.len() as int) =~= before);
            lemma_without_no_duplicates(before, id@);
        }
        self.ids = kept;
    }
}

/// After a pass whose subscriptions all succeed, exactly the listed endpoints
/// are followed.
pub proof fn lemma_sync_follows_listed(followed: Set<Seq<char>>, listed: Set<Seq<char>>, subscribe: Set<Seq<char>>, unsubscribe: Set<Seq<char>>)
    requires
        forall|id: Seq<char>| subscribe.contains(id) <==> (listed.contains(id) && !followed.contains(id)),
        forall|id: Seq<char>| unsubscribe.contains(id) <==> (followed.contains(id) && !listed.contains(id)),
    ensures
        followed.difference(unsubscribe).union(subscribe) == listed,
{
    assert(followed.difference(unsubscribe).union(subscribe) =~= listed);
}

/// After any pass, whichever of its subscriptions succeed: only listed
/// endpoints are followed, every followed endpoint that is still listed stays
/// followed, every one no longer listed is left, and a newly listed endpoint
/// is followed exactly when its subscription succeeded.
pub proof fn lemma_sync_keeps_listed(
    followed: Set<Seq<char>>,
    listed: Set<Seq<char>>,
    subscribe: Set<Seq<char>>,
    unsubscribe: Set<Seq<char>>,
    succeeded: Set<Seq<char>>,
)
    requires
        forall|id: Seq<char>| subscribe.contains(id) <==> (listed.contains(id) && !followed.contains(id)),
        forall|id: Seq<char>| unsubscribe.contains(id) <==> (followed.contains(id) && !listed.contains(id)),
        succeeded.subset_of(subscribe),
    ensures
        followed.difference(unsubscribe).union(succeeded).subset_of(listed),
        followed.intersect(listed).subset_of(followed.difference(unsubscribe).union(succeeded)),
        forall|id: Seq<char>| followed.contains(id) && !listed.contains(id) ==> !#[trigger] followed.difference(unsubscribe).union(succeeded).contains(id),
        forall|id: Seq<char>| listed.contains(id) && !followed.contains(id) ==> (#[trigger] followed.difference(unsubscribe).union(succeeded).contains(id) <==> succeeded.contains(id)),
{
}

/// The listener of endpoint volumes: the endpoints it follows, rescanned every
/// two seconds.
pub struct VolumeListener {
    pub subscriptions: EndpointSubscriptions,
    pub rescan_interval_ms: u64,
}

impl VolumeListener {
    pub fn new() -> (r: VolumeListener)
        ensures
            r.subscriptions.wf(),
            r.subscriptions.view() == Seq::<Seq<char>>::empty(),
            r.rescan_interval_ms == 2000,
    {
        VolumeListener { subscriptions: EndpointSubscriptions::new(), rescan_interval_ms: 2000 }
    }
}

} // verus!
