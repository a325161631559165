//! The sliding window of recent target lists that clustering runs over.
use vstd::prelude::*;
use crate::can::Target;

verus! {

/// The last `size` target lists, oldest first.
#[derive(Debug, Clone)]
pub struct TargetWindow {
    pub size: usize,
    pub frames: Vec<Vec<Target>>,
}

/// The views of the lists in `frames`.
pub open spec fn frame_views(frames: Seq<Vec<Target>>) -> Seq<Seq<Target>> {
    frames.map_values(|f: Vec<Target>| f@)
}

/// The targets of `frames`, list after list.
pub open spec fn flat_targets(frames: Seq<Seq<Target>>) -> Seq<Target>
    decreases frames.len(),
{
    if frames.len() == 0 {
        Seq::empty()
    } else {
        flat_targets(frames.drop_last()) + frames.last()
    }
}

impl TargetWindow {
    /// The window's invariant: it holds at most `size` lists.
    pub open spec fn wf(&self) -> bool {
        self.size > 0 && self.frames@.len() <= self.size
    }

    /// An empty window of `size` lists.
    pub fn new(size: usize) -> (r: Self)
        requires
            size > 0,
        ensures
            r.wf(),
            r.size == size,
            r.frames@.len() == 0,
    {
        TargetWindow { size, frames: Vec::new() }
    }

    /// Adds the newest list, dropping the oldest when the window is full.
    pub fn push(&mut self, targets: Vec<Target>)
        requires
            old(self).wf(),
        ensures
            final(self).wf(),
            final(self).size == old(self).size,
            old(self).frames@.len() < old(self).size ==> final(self).frames@ == old(
                self,
            ).frames@.push(targets),
            old(self).frames@.len() == old(self).size ==> final(self).frames@ == old(
                self,
            ).frames@.subrange(1, old(self).size as int).push(targets),
    {
        if self.frames.len() == self.size {
            self.frames.remove(0);
        }
        self.frames.push(targets);
    }

    /// Every target of the window, oldest list first.
    pub fn targets(&self) -> (r: Vec<Target>)
        ensures
            r@ == flat_targets(frame_views(self.frames@)),
    {
        let mut r: Vec<Target> = Vec::new();
        let mut i: usize = 0;
        while i < self.frames.len()
            invariant
                i <= self.frames@.len(),
                r@ == flat_targets(frame_views(self.frames@.take(i as int))),
            decreases self.frames@.len() - i,
        {
            let f = &self.frames[i];
            let ghost before = r@;
            let mut j: usize = 0;
            while j < f.len()
                invariant
                    j <= f@.len(),
                    r@ == before + f@.take(j as int),
                decreases f@.len() - j,
            {
                r.push(f[j]);
                assert(r@ =~= before + f@.take(j + 1));
                j = j + 1;
            }
            assert(frame_views(self.frames@.take(i + 1)).drop_last() =~= frame_views(
                self.frames@.take(i as int),
            ));
            assert(f@.take(f@.len() as int) =~= f@);
            i = i + 1;
        }
        assert(self.frames@.take(self.frames@.len() as int) =~= self.frames@);
        r
    }
}

} // verus!
