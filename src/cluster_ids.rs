//! Stable cluster identifiers for tracked objects.
//!
//! Every tracklet, known by its 128-bit UUID, is given a small positive
//! cluster ID that stays the same while the tracklet lives.  ID 0 is reserved
//! for noise.  When a tracklet disappears its ID goes onto a LIFO free list,
//! and the next new tracklet takes the most recently freed ID before any
//! fresh one is counted up.
use vstd::prelude::*;

verus! {

/// The cluster ID that the assignment list `s` gives to `track`: the entry
/// nearest the end wins.
pub open spec fn lookup(s: Seq<(u128, usize)>, track: u128) -> Option<usize>
    decreases s.len(),
{
    if s.len() == 0 {
        None
    } else if s.last().0 == track {
        Some(s.last().1)
    } else {
        lookup(s.drop_last(), track)
    }
}

/// The entries of `s` whose tracklet is in `live`, in order.
pub open spec fn kept(s: Seq<(u128, usize)>, live: Seq<u128>) -> Seq<(u128, usize)>
    decreases s.len(),
{
    if s.len() == 0 {
        s
    } else if live.contains(s.last().0) {
        kept(s.drop_last(), live).push(s.last())
    } else {
        kept(s.drop_last(), live)
    }
}

/// The cluster IDs of the entries of `s` whose tracklet is not in `live`,
/// in order.
pub open spec fn released(s: Seq<(u128, usize)>, live: Seq<u128>) -> Seq<usize>
    decreases s.len(),
{
    if s.len() == 0 {
        Seq::empty()
    } else if live.contains(s.last().0) {
        released(s.drop_last(), live)
    } else {
        released(s.drop_last(), live).push(s.last().1)
    }
}

/// Assignment of cluster IDs to tracklets.
#[derive(Debug, Clone)]
pub struct ClusterIds {
    /// Tracklet UUID and cluster ID of every live tracklet.
    pub assigned: Vec<(u128, usize)>,
    /// Freed cluster IDs; the most recently freed is last.
    pub free: Vec<usize>,
    /// The largest cluster ID handed out so far.
    pub max_id: usize,
}

fn contains(live: &Vec<u128>, track: u128) -> (r: bool)
    ensures
        r == live@.contains(track),
{
    let mut i: usize = 0;
    while i < live.len()
        invariant
            i <= live@.len(),
            forall|k: int| 0 <= k < i ==> live@[k] != track,
        decreases live@.len() - i,
    {
        if live[i] == track {
            return true;
        }
        i = i + 1;
    }
    false
}

fn find(assigned: &Vec<(u128, usize)>, track: u128) -> (r: Option<usize>)
    ensures
        r == lookup(assigned@, track),
{
    let mut i: usize = assigned.len();
    assert(assigned@.take(i as int) =~= assigned@);
    while i > 0
        invariant
            i <= assigned@.len(),
            lookup(assigned@, track) == lookup(assigned@.take(i as int), track),
        decreases i,
    {
        let e = assigned[i - 1];
        assert(assigned@.take(i as int).drop_last() =~= assigned@.take(i - 1));
        if e.0 == track {
            return Some(e.1);
        }
        i = i - 1;
    }
    None
}

/// What `id_for(track)` does: `old` becomes `new` and `r` is returned.
pub open spec fn id_for_spec(old: ClusterIds, new: ClusterIds, track: u128, r: usize) -> bool {
    &&& lookup(new.assigned@, track) == Some(r)
    &&& (lookup(old.assigned@, track) matches Some(c) ==> {
        &&& r == c
        &&& new.assigned@ == old.assigned@
        &&& new.free@ == old.free@
        &&& new.max_id == old.max_id
    })
    &&& (lookup(old.assigned@, track) is None ==> {
        &&& new.assigned@ == old.assigned@.push((track, r))
        &&& old.free@.len() > 0 ==> {
            &&& r == old.free@.last()
            &&& new.free@ == old.free@.drop_last()
            &&& new.max_id == old.max_id
        }
        &&& old.free@.len() == 0 ==> {
            &&& r == old.max_id + 1
            &&& new.free@ == old.free@
            &&& new.max_id == old.max_id + 1
        }
    })
}


/// Number of times `x` occurs in `s`.
pub open spec fn occurrences<T>(s: Seq<T>, x: T) -> nat
    decreases s.len(),
{
    if s.len() == 0 {
        0
    } else {
        occurrences(s.drop_last(), x) + if s.last() == x { 1nat } else { 0nat }
    }
}

/// The cluster IDs of an assignment list.
pub open spec fn ids_of(s: Seq<(u128, usize)>) -> Seq<usize> {
    s.map_values(|e: (u128, usize)| e.1)
}

/// The tracklets of an assignment list.
pub open spec fn tracks_of(s: Seq<(u128, usize)>) -> Seq<u128> {
    s.map_values(|e: (u128, usize)| e.0)
}

proof fn lemma_occurrences_push<T>(s: Seq<T>, v: T, x: T)
    ensures
        occurrences(s.push(v), x) == occurrences(s, x) + if v == x { 1nat } else { 0nat },
{
    assert(s.push(v).drop_last() =~= s);
}

proof fn lemma_occurrences_concat<T>(a: Seq<T>, b: Seq<T>, x: T)
    ensures
        occurrences(a + b, x) == occurrences(a, x) + occurrences(b, x),
    decreases b.len(),
{
    if b.len() > 0 {
        assert((a + b).drop_last() =~= a + b.drop_last());
        lemma_occurrences_concat(a, b.drop_last(), x);
    } else {
        assert(a + b =~= a);
    }
}

proof fn lemma_release_occurrences(s: Seq<(u128, usize)>, live: Seq<u128>, x: usize, t: u128)
    ensures
        occurrences(ids_of(kept(s, live)), x) + occurrences(released(s, live), x) == occurrences(
            ids_of(s),
            x,
        ),
        occurrences(tracks_of(kept(s, live)), t) <= occurrences(tracks_of(s), t),
    decreases s.len(),
{
    if s.len() > 0 {
        let p = s.drop_last();
        lemma_release_occurrences(p, live, x, t);
        assert(ids_of(s) =~= ids_of(p).push(s.last().1));
        assert(tracks_of(s) =~= tracks_of(p).push(s.last().0));
        lemma_occurrences_push(ids_of(p), s.last().1, x);
        lemma_occurrences_push(tracks_of(p), s.last().0, t);
        if live.contains(s.last().0) {
            let k = kept(p, live);
            assert(ids_of(k.push(s.last())) =~= ids_of(k).push(s.last().1));
            assert(tracks_of(k.push(s.last())) =~= tracks_of(k).push(s.last().0));
            lemma_occurrences_push(ids_of(k), s.last().1, x);
            lemma_occurrences_push(tracks_of(k), s.last().0, t);
        } else {
            lemma_occurrences_push(released(p, live), s.last().1, x);
        }
    } else {
        assert(ids_of(s).len() == 0);
        assert(ids_of(kept(s, live)).len() == 0);
        assert(tracks_of(kept(s, live)).len() == 0);
    }
}

proof fn lemma_lookup_counted(s: Seq<(u128, usize)>, t: u128)
    requires
        lookup(s, t) is Some,
    ensures
        occurrences(ids_of(s), lookup(s, t)->0) > 0,
    decreases s.len(),
{
    let c = lookup(s, t)->0;
    assert(ids_of(s) =~= ids_of(s.drop_last()).push(s.last().1));
    lemma_occurrences_push(ids_of(s.drop_last()), s.last().1, c);
    if s.last().0 != t {
        lemma_lookup_counted(s.drop_last(), t);
    }
}

proof fn lemma_absent_track(s: Seq<(u128, usize)>, t: u128)
    requires
        lookup(s, t) is None,
    ensures
        occurrences(tracks_of(s), t) == 0,
    decreases s.len(),
{
    if s.len() > 0 {
        lemma_absent_track(s.drop_last(), t);
        assert(tracks_of(s) =~= tracks_of(s.drop_last()).push(s.last().0));
        lemma_occurrences_push(tracks_of(s.drop_last()), s.last().0, t);
    } else {
        assert(tracks_of(s).len() == 0);
    }
}

/// Every cluster ID in use or free.
pub open spec fn all_ids(c: ClusterIds) -> Seq<usize> {
    ids_of(c.assigned@) + c.free@
}

impl ClusterIds {
    /// The invariant: every ID, assigned or free, lies in `1..=max_id` and
    /// occurs once, and every tracklet has at most one ID.
    pub open spec fn wf(&self) -> bool {
        &&& forall|x: usize| #[trigger] occurrences(all_ids(*self), x) <= 1
        &&& forall|x: usize|
            #[trigger] occurrences(all_ids(*self), x) > 0 ==> 1 <= x <= self.max_id
        &&& forall|t: u128| #[trigger] occurrences(tracks_of(self.assigned@), t) <= 1
    }
}

/// What `release_missing(live)` does: `old` becomes `new`.
pub open spec fn release_spec(old: ClusterIds, new: ClusterIds, live: Seq<u128>) -> bool {
    &&& new.assigned@ == kept(old.assigned@, live)
    &&& new.free@ == old.free@ + released(old.assigned@, live)
    &&& new.max_id == old.max_id
}

impl ClusterIds {
    /// No tracklet known, no ID handed out.
    pub fn new() -> (r: Self)
        ensures
            r.wf(),
            r.assigned@.len() == 0,
            r.free@.len() == 0,
            r.max_id == 0,
    {
        let r = ClusterIds { assigned: Vec::new(), free: Vec::new(), max_id: 0 };
        assert(all_ids(r).len() == 0);
        assert(tracks_of(r.assigned@).len() == 0);
        r
    }

    /// The cluster ID of `track`, if it has one.
    pub fn get(&self, track: u128) -> (r: Option<usize>)
        ensures
            r == lookup(self.assigned@, track),
    {
        find(&self.assigned, track)
    }

    /// Hands out a cluster ID: the most recently freed one, or else the next
    /// fresh one.
    fn get_new_cluster_id(&mut self) -> (r: usize)
        requires
            old(self).max_id < usize::MAX,
        ensures
            final(self).assigned@ == old(self).assigned@,
            old(self).free@.len() > 0 ==> {
                &&& r == old(self).free@.last()
                &&& final(self).free@ == old(self).free@.drop_last()
                &&& final(self).max_id == old(self).max_id
            },
            old(self).free@.len() == 0 ==> {
                &&& r == old(self).max_id + 1
                &&& final(self).free@ == old(self).free@
                &&& final(self).max_id == old(self).max_id + 1
            },
    {
        match self.free.pop() {
            Some(id) => id,
            None => {
                self.max_id = self.max_id + 1;
                self.max_id
            },
        }
    }

    /// The cluster ID of `track`; a tracklet seen for the first time is given
    /// one by `get_new_cluster_id`.
    pub fn id_for(&mut self, track: u128) -> (r: usize)
        requires
            old(self).wf(),
            old(self).max_id < usize::MAX,
        ensures
            final(self).wf(),
            1 <= r <= final(self).max_id,
            id_for_spec(*old(self), *final(self), track, r),
    {
        match find(&self.assigned, track) {
            Some(c) => {
                proof {
                    self.lemma_lookup_in_range(track);
                }
                c
            },
            None => {
                let ghost before = *self;
                let id = self.get_new_cluster_id();
                self.assigned.push((track, id));
                proof {
                    assert(self.assigned@.drop_last() =~= old(self).assigned@);
                    assert(ids_of(self.assigned@) =~= ids_of(before.assigned@).push(id));
                    assert(tracks_of(self.assigned@) =~= tracks_of(before.assigned@).push(track));
                    lemma_absent_track(before.assigned@, track);
                    if before.free@.len() > 0 {
                        assert(before.free@ =~= self.free@.push(id));
                    }
                    assert forall|x: usize|
                        #[trigger] occurrences(all_ids(*self), x) == occurrences(all_ids(before), x)
                            + if x == id && before.free@.len() == 0 { 1nat } else { 0nat } by {
                        lemma_occurrences_concat(ids_of(self.assigned@), self.free@, x);
                        lemma_occurrences_concat(ids_of(before.assigned@), before.free@, x);
                        lemma_occurrences_push(ids_of(before.assigned@), id, x);
                        if before.free@.len() > 0 {
                            lemma_occurrences_push(self.free@, id, x);
                        }
                    }
                    assert forall|t: u128| #[trigger] occurrences(tracks_of(self.assigned@), t) <= 1 by {
                        lemma_occurrences_push(tracks_of(before.assigned@), track, t);
                    }
                    if before.free@.len() > 0 {
                        lemma_occurrences_concat(ids_of(before.assigned@), before.free@, id);
                        lemma_occurrences_push(self.free@, id, id);
                        assert(occurrences(all_ids(before), id) > 0);
                    } else {
                        assert(occurrences(all_ids(before), id) == 0);
                    }
                }
                id
            },
        }
    }

    /// An ID that a tracklet holds lies in `1..=max_id`.
    proof fn lemma_lookup_in_range(&self, track: u128)
        requires
            self.wf(),
            lookup(self.assigned@, track) is Some,
        ensures
            1 <= lookup(self.assigned@, track)->0 <= self.max_id,
    {
        let c = lookup(self.assigned@, track)->0;
        lemma_lookup_counted(self.assigned@, track);
        lemma_occurrences_concat(ids_of(self.assigned@), self.free@, c);
        assert(occurrences(all_ids(*self), c) > 0);
    }

    /// Forgets every tracklet not in `live` and pushes its cluster ID onto
    /// the free list, in the order the tracklets were assigned.
    pub fn release_missing(&mut self, live: &Vec<u128>)
        requires
            old(self).wf(),
        ensures
            final(self).wf(),
            release_spec(*old(self), *final(self), live@),
    {
        let mut keep: Vec<(u128, usize)> = Vec::new();
        let mut i: usize = 0;
        while i < self.assigned.len()
            invariant
                i <= self.assigned@.len(),
                self.assigned@ == old(self).assigned@,
                self.max_id == old(self).max_id,
                keep@ == kept(old(self).assigned@.take(i as int), live@),
                self.free@ == old(self).free@ + released(old(self).assigned@.take(i as int), live@),
            decreases self.assigned@.len() - i,
        {
            let e = self.assigned[i];
            assert(old(self).assigned@.take(i + 1).drop_last() =~= old(self).assigned@.take(
                i as int,
            ));
            if contains(live, e.0) {
                keep.push(e);
            } else {
                self.free.push(e.1);
                assert(self.free@ =~= old(self).free@ + released(
                    old(self).assigned@.take(i + 1),
                    live@,
                ));
            }
            i = i + 1;
        }
        assert(old(self).assigned@.take(i as int) =~= old(self).assigned@);
        self.assigned = keep;
        proof {
            let o = *old(self);
            let rel = released(o.assigned@, live@);
            assert forall|x: usize|
                #[trigger] occurrences(all_ids(*self), x) == occurrences(all_ids(o), x) by {
                lemma_release_occurrences(o.assigned@, live@, x, 0);
                lemma_occurrences_concat(ids_of(self.assigned@), self.free@, x);
                lemma_occurrences_concat(o.free@, rel, x);
                lemma_occurrences_concat(ids_of(o.assigned@), o.free@, x);
            }
            assert forall|t: u128| #[trigger] occurrences(tracks_of(self.assigned@), t) <= 1 by {
                lemma_release_occurrences(o.assigned@, live@, 0, t);
                assert(occurrences(tracks_of(o.assigned@), t) <= 1);
            }
        }
    }
}

/// A tracklet keeps its cluster ID: asking twice for the same tracklet
/// returns the same ID, and the second request changes nothing.
pub proof fn lemma_cluster_id_stable(
    s0: ClusterIds,
    s1: ClusterIds,
    s2: ClusterIds,
    track: u128,
    first: usize,
    again: usize,
)
    requires
        id_for_spec(s0, s1, track, first),
        id_for_spec(s1, s2, track, again),
    ensures
        again == first,
        s2.assigned@ == s1.assigned@,
        s2.free@ == s1.free@,
        s2.max_id == s1.max_id,
{
}

/// A freed cluster ID is reused first: after tracklets are released, the
/// last ID released is at the head of the free list, and the next new
/// tracklet is given that ID without raising the largest ID.
pub proof fn lemma_freed_id_reused(
    s0: ClusterIds,
    s1: ClusterIds,
    s2: ClusterIds,
    live: Seq<u128>,
    track: u128,
    r: usize,
)
    requires
        release_spec(s0, s1, live),
        released(s0.assigned@, live).len() > 0,
        lookup(s1.assigned@, track) is None,
        id_for_spec(s1, s2, track, r),
    ensures
        s1.free@.last() == released(s0.assigned@, live).last(),
        r == released(s0.assigned@, live).last(),
        s2.max_id == s1.max_id,
        s2.free@ == s0.free@ + released(s0.assigned@, live).drop_last(),
{
    let rel = released(s0.assigned@, live);
    assert((s0.free@ + rel).drop_last() =~= s0.free@ + rel.drop_last());
}

} // verus!
