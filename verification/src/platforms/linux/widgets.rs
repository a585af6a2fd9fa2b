//! The overlay widgets of the desktop: the ids they are known by, and where on
//! the screen a widget's monitor is looked for.
use vstd::prelude::*;
use crate::models::widgets::WidgetBounds;

verus! {

/// The id of the first widget; ids count up from it.
pub const FIRST_WIDGET_ID: u32 = 0x4000_0000;

/// The ids of the widgets alive, each once, all below the next id to hand out.
pub struct WidgetsManager {
    widgets: Vec<u32>,
    next_id: u32,
}

impl WidgetsManager {
    pub closed spec fn ids(self) -> Seq<u32> {
        self.widgets@
    }

    pub closed spec fn next(self) -> u32 {
        self.next_id
    }

    pub closed spec fn wf(self) -> bool {
        &&& self.widgets@.no_duplicates()
        &&& forall|k: int| 0 <= k < self.widgets@.len() ==> FIRST_WIDGET_ID <= #[trigger] self.widgets@[k] < self.next_id
        &&& FIRST_WIDGET_ID <= self.next_id
    }

    pub fn new() -> (r: WidgetsManager)
        ensures
            r.wf(),
            r.ids() == Seq::<u32>::empty(),
            r.next() == FIRST_WIDGET_ID,
    {
        WidgetsManager { widgets: Vec::new(), next_id: FIRST_WIDGET_ID }
    }

    /// Whether another widget can get an id.
    pub fn can_create(&self) -> (r: bool)
        ensures
            r == (self.next() < u32::MAX),
    {
        self.next_id < u32::MAX
    }

    /// The id the next widget gets.
    pub fn next_id(&self) -> (r: u32)
        ensures
            r == self.next(),
    {
        self.next_id
    }

    /// Records a widget created under the next id, and moves on.
    pub fn register(&mut self) -> (id: u32)
        requires
            old(self).wf(),
            old(self).next() < u32::MAX,
        ensures
            final(self).wf(),
            id == old(self).next(),
            !old(self).ids().contains(id),
            final(self).ids() == old(self).ids().push(id),
            final(self).next() == id + 1,
    {
        let id = self.next_id;
        proof {
            if self.widgets@.contains(id) {
                let k = choose|k: int| 0 <= k < self.widgets@.len() && self.widgets@[k] == id;
            }
        }
        self.widgets.push(id);
        self.next_id = id + 1;
        proof {
            assert forall|a: int, b: int| 0 <= a < b < self.widgets@.len() implies self.widgets@[a] != self.widgets@[b] by {
                if b == self.widgets@.len() - 1 {
                    assert(old(self).widgets@[a] < id);
                } else {
                    assert(old(self).widgets@[a] != old(self).widgets@[b]);
                }
            }
        }
        id
    }

    /// Forgets a widget; true when it was alive (its window is to be closed).
    pub fn destroy(&mut self, id: u32) -> (r: bool)
        requires
            old(self).wf(),
        ensures
            final(self).wf(),
            r == old(self).ids().contains(id),
            !final(self).ids().contains(id),
            forall|x: u32| x != id ==> (final(self).ids().contains(x) == old(self).ids().contains(x)),
            final(self).next() == old(self).next(),
    {
        let ghost before = self.widgets@;
        let mut kept: Vec<u32> = Vec::new();
        let mut found = false;
        let mut i: usize = 0;
        while i < self.widgets.len()
            invariant
                i <= self.widgets.len(),
                self.widgets@ == before,
                *self == *old(self),
                old(self).wf(),
                kept@.no_duplicates(),
                forall|x: u32| kept@.contains(x) <==> (x != id && before.take(i as int).contains(x)),
                found == before.take(i as int).contains(id),
            decreases self.widgets.len() - i,
        {
            let w = self.widgets[i];
            proof {
                assert(before.take(i + 1) =~= before.take(i as int).push(w));
                assert forall|x: u32| before.take(i + 1).contains(x) <==> (before.take(i as int).contains(x) || x == w) by {
                    if before.take(i + 1).contains(x) && x != w {
                        let k = choose|k: int| 0 <= k < i + 1 && #[trigger] before.take(i + 1)[k] == x;
                        assert(before.take(i as int)[k] == x);
                    }
                    if before.take(i as int).contains(x) {
                        let k = choose|k: int| 0 <= k < i && #[trigger] before.take(i as int)[k] == x;
                        assert(before.take(i + 1)[k] == x);
                    }
                    assert(before.take(i + 1)[i as int] == w);
                }
            }
            let ghost kept_before = kept@;
            if w == id {
                found = true;
                proof {
                    assert forall|x: u32| kept@.contains(x) <==> (x != id && before.take(i + 1).contains(x)) by {
                        assert(kept_before.contains(x) <==> (x != id && before.take(i as int).contains(x)));
                    }
                }
            } else {
                proof {
                    if kept@.contains(w) {
                        let k = choose|k: int| 0 <= k < i && #[trigger] before.take(i as int)[k] == w;
                        assert(before[k] == before[i as int]);
                    }
                }
                let ghost prev = kept@;
                kept.push(w);
                proof {
                    assert forall|x: u32| kept@.contains(x) <==> (prev.contains(x) || x == w) by {
                        if kept@.contains(x) && x != w {
                            let k = choose|k: int| 0 <= k < kept@.len() && kept@[k] == x;
                            assert(prev[k] == x);
                        }
                        if prev.contains(x) {
                            let k = choose|k: int| 0 <= k < prev.len() && prev[k] == x;
                            assert(kept@[k] == x);
                        }
                        assert(kept@[prev.len() as int] == w);
                    }
                    assert forall|a: int, b: int| 0 <= a < b < kept@.len() implies kept@[a] != kept@[b] by {
                        if b == prev.len() {
                            assert(prev.contains(prev[a]));
                        }
                    }
                    assert forall|x: u32| kept@.contains(x) <==> (x != id && before.take(i + 1).contains(x)) by {
                        assert(prev.contains(x) <==> (x != id && before.take(i as int).contains(x)));
                    }
                }
            }
            i += 1;
        }
        proof {
            assert(before.take(before.len() as int) =~= before);
            assert forall|k: int| 0 <= k < kept@.len() implies FIRST_WIDGET_ID <= #[trigger] kept@[k] < old(self).next_id by {
                assert(kept@.contains(kept@[k]));
                let j = choose|j: int| 0 <= j < before.len() && before[j] == kept@[k];
            }
        }
        self.widgets = kept;
        found
    }

    /// Forgets every widget (their windows are to be closed).
    pub fn destroy_all(&mut self)
        requires
            old(self).wf(),
        ensures
            final(self).wf(),
            final(self).ids() == Seq::<u32>::empty(),
            final(self).next() == old(self).next(),
    {
        self.widgets = Vec::new();
    }
}

/// Every widget alive has an id below the next one to hand out, and from the
/// first id up: so the next id is fresh, and as it only grows (by one on each
/// creation, not at all on a destruction), no id is ever handed out twice.
pub proof fn lemma_next_id_is_fresh(m: WidgetsManager)
    requires
        m.wf(),
    ensures
        FIRST_WIDGET_ID <= m.next(),
        forall|x: u32| #[trigger] m.ids().contains(x) ==> FIRST_WIDGET_ID <= x < m.next(),
        !m.ids().contains(m.next()),
{
    assert forall|x: u32| #[trigger] m.ids().contains(x) implies FIRST_WIDGET_ID <= x < m.next() by {
        let k = choose|k: int| 0 <= k < m.ids().len() && m.ids()[k] == x;
        assert(FIRST_WIDGET_ID <= m.widgets@[k] < m.next_id);
    }
}

/// One call on the widgets: a creation that succeeded, a destruction of an id,
/// or a destruction of all.
pub enum WidgetOp {
    Create,
    Destroy(u32),
    DestroyAll,
}

/// The next id after a run of calls from `next`: each creation takes the next
/// id and moves on by one (`register`); destructions leave it (`destroy`,
/// `destroy_all`).
pub open spec fn next_after(next: int, ops: Seq<WidgetOp>) -> int
    decreases ops.len(),
{
    if ops.len() == 0 {
        next
    } else {
        let n = next_after(next, ops.drop_last());
        match ops.last() {
            WidgetOp::Create => n + 1,
            _ => n,
        }
    }
}

/// The ids handed out by the creations of a run of calls from `next`, in order.
pub open spec fn ids_handed(next: int, ops: Seq<WidgetOp>) -> Seq<int>
    decreases ops.len(),
{
    if ops.len() == 0 {
        Seq::empty()
    } else {
        let p = ids_handed(next, ops.drop_last());
        match ops.last() {
            WidgetOp::Create => p.push(next_after(next, ops.drop_last())),
            _ => p,
        }
    }
}

/// Over any run of creations and destructions, the ids handed out are the
/// next id, then one more each time: strictly increasing, so none is handed
/// out twice, whatever was destroyed in between; the next id is one past the
/// last handed out.
pub proof fn lemma_ids_over_calls(next: int, ops: Seq<WidgetOp>)
    ensures
        forall|k: int| 0 <= k < ids_handed(next, ops).len() ==> #[trigger] ids_handed(next, ops)[k] == next + k,
        next_after(next, ops) == next + ids_handed(next, ops).len(),
    decreases ops.len(),
{
    if ops.len() > 0 {
        lemma_ids_over_calls(next, ops.drop_last());
    }
}

/// The point whose monitor a widget goes on: the centre of its bounds, each
/// coordinate saturated at the limits of `i32` (as `i32::saturating_add` does).
pub open spec fn spec_widget_center(b: WidgetBounds) -> (i32, i32) {
    let cx = b.x + (b.width / 2) as int;
    let cy = b.y + (b.height / 2) as int;
    (
        if cx > i32::MAX { i32::MAX } else { cx as i32 },
        if cy > i32::MAX { i32::MAX } else { cy as i32 },
    )
}

/// The point lies halfway across the bounds (rounded down), unless that is
/// past the largest `i32`, where it stops.
pub proof fn lemma_center_is_halfway(b: WidgetBounds)
    ensures
        ({
            let (cx, cy) = spec_widget_center(b);
            &&& (b.x + b.width / 2 <= i32::MAX) ==> (2 * (cx - b.x) <= b.width < 2 * (cx - b.x) + 2)
            &&& (b.y + b.height / 2 <= i32::MAX) ==> (2 * (cy - b.y) <= b.height < 2 * (cy - b.y) + 2)
            &&& (b.x + b.width / 2 > i32::MAX) ==> cx == i32::MAX
            &&& (b.y + b.height / 2 > i32::MAX) ==> cy == i32::MAX
            &&& b.x <= cx && b.y <= cy
        }),
{
}

pub fn widget_center(bounds: &WidgetBounds) -> (r: (i32, i32))
    ensures
        r == spec_widget_center(*bounds),
{
    let half_w = (bounds.width / 2) as i32;
    let half_h = (bounds.height / 2) as i32;
    let cx = if bounds.x > i32::MAX - half_w { i32::MAX } else { bounds.x + half_w };
    let cy = if bounds.y > i32::MAX - half_h { i32::MAX } else { bounds.y + half_h };
    (cx, cy)
}

} // verus!
