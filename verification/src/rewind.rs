//! Rewinding: a bounded history of machine snapshots (taken once per frame)
//! with a position that can move back and forward through it. Snapshots
//! are opaque byte strings here; making and restoring them is the
//! caller's business.
use vstd::prelude::*;

verus! {

/// The most snapshots kept beyond the newest.
pub const MAX_LEN: usize = 3600;

/// The snapshot history.
pub struct Rewind {
    states: Vec<Vec<u8>>,
    free: Vec<Vec<u8>>,
    pos: Option<usize>,
}

/// The snapshots of a history, oldest first.
pub open spec fn views(v: Seq<Vec<u8>>) -> Seq<Seq<u8>> {
    Seq::new(v.len(), |i: int| v[i]@)
}

impl Rewind {
    pub closed spec fn spec_states(&self) -> Seq<Seq<u8>> {
        views(self.states@)
    }

    /// Buffers of discarded snapshots, kept for reuse.
    pub closed spec fn spec_free(&self) -> Seq<Seq<u8>> {
        views(self.free@)
    }

    /// The snapshot a restore goes back to, if any.
    pub closed spec fn spec_pos(&self) -> Option<usize> {
        self.pos
    }

    /// The position, when there is one, names a snapshot.
    pub open spec fn wf(&self) -> bool {
        self.spec_pos() matches Some(p) ==> p < self.spec_states().len()
    }

    pub fn new() -> (r: Rewind)
        ensures
            r.wf(),
            r.spec_states() == Seq::<Seq<u8>>::empty(),
            r.spec_free() == Seq::<Seq<u8>>::empty(),
            r.spec_pos() is None,
    {
        let r = Rewind { states: Vec::new(), free: Vec::new(), pos: None };
        assert(r.spec_states() =~= Seq::<Seq<u8>>::empty());
        assert(r.spec_free() =~= Seq::<Seq<u8>>::empty());
        r
    }

    /// Records a new snapshot after the others and moves the position one
    /// on (to the first snapshot when there was none). A free buffer is
    /// used up if there is one; otherwise, once more than `MAX_LEN`
    /// snapshots are kept, the oldest is dropped and the position moves
    /// back one (not below the first).
    pub fn snapshot(&mut self, s: Vec<u8>)
        requires
            old(self).wf(),
            old(self).spec_states().len() < usize::MAX,
        ensures
            final(self).wf(),
            ({
                let dropped = old(self).spec_free().len() == 0 && old(self).spec_states().len() > MAX_LEN;
                let kept = if dropped { old(self).spec_states().drop_first() } else { old(self).spec_states() };
                let p = match old(self).spec_pos() {
                    Some(p) => Some(if dropped && p > 0 { (p - 1) as usize } else { p }),
                    None => None,
                };
                &&& final(self).spec_states() == kept.push(s@)
                &&& final(self).spec_free() == (if old(self).spec_free().len() > 0 {
                    old(self).spec_free().drop_last()
                } else {
                    old(self).spec_free()
                })
                &&& final(self).spec_pos() == (match p {
                    Some(q) => Some((q + 1) as usize),
                    None => Some(0usize),
                })
            }),
    {
        let ghost st0 = self.states@;
        let ghost fr0 = self.free@;
        if self.free.len() > 0 {
            self.free.pop();
            assert(views(self.free@) =~= views(fr0).drop_last());
        } else if self.states.len() > MAX_LEN {
            self.pos = match self.pos {
                Some(p) => Some(if p > 0 { p - 1 } else { 0 }),
                None => None,
            };
            self.states.remove(0);
            assert(views(self.states@) =~= views(st0).drop_first());
        }
        let ghost st1 = self.states@;
        self.states.push(s);
        assert(views(self.states@) =~= views(st1).push(self.states@[self.states@.len() - 1]@));
        self.pos = match self.pos {
            Some(i) => Some(i + 1),
            None => Some(0),
        };
    }

    /// Moves the position back one snapshot (not below the first).
    pub fn back(&mut self)
        requires
            old(self).wf(),
        ensures
            final(self).wf(),
            final(self).spec_states() == old(self).spec_states(),
            final(self).spec_free() == old(self).spec_free(),
            final(self).spec_pos() == (match old(self).spec_pos() {
                Some(p) => Some(if p > 0 { (p - 1) as usize } else { 0usize }),
                None => None,
            }),
    {
        self.pos = match self.pos {
            Some(p) => Some(if p > 0 { p - 1 } else { 0 }),
            None => None,
        };
    }

    /// Moves the position on one snapshot (not past the newest).
    pub fn forward(&mut self)
        requires
            old(self).wf(),
        ensures
            final(self).wf(),
            final(self).spec_states() == old(self).spec_states(),
            final(self).spec_free() == old(self).spec_free(),
            final(self).spec_pos() == (match old(self).spec_pos() {
                Some(p) => Some(if p + 1 < old(self).spec_states().len() { (p + 1) as usize } else { p }),
                None => None,
            }),
    {
        self.pos = match self.pos {
            Some(p) => {
                let last = self.states.len() - 1;
                Some(if p < last { p + 1 } else { last })
            },
            None => None,
        };
    }

    /// Carries on from the current position: the snapshots after it are
    /// discarded (their buffers kept for reuse, in order).
    pub fn cont(&mut self)
        requires
            old(self).wf(),
            old(self).spec_free().len() + old(self).spec_states().len() <= usize::MAX,
        ensures
            final(self).wf(),
            final(self).spec_pos() == old(self).spec_pos(),
            match old(self).spec_pos() {
                Some(p) => {
                    &&& final(self).spec_states() == old(self).spec_states().take(p + 1)
                    &&& final(self).spec_free() == old(self).spec_free() + old(self).spec_states().skip(p + 1)
                },
                None => {
                    &&& final(self).spec_states() == old(self).spec_states()
                    &&& final(self).spec_free() == old(self).spec_free()
                },
            },
    {
        if let Some(p) = self.pos {
            let ghost st0 = self.states@;
            let ghost fr0 = self.free@;
            let mut rest = self.states.split_off(p + 1);
            let ghost moved = rest@;
            self.free.append(&mut rest);
            assert(views(self.states@) =~= views(st0).take(p + 1));
            assert(views(self.free@) =~= views(fr0) + views(st0).skip(p + 1)) by {
                assert(self.free@ =~= fr0 + moved);
            }
        }
    }

    /// The snapshot at the position, if any.
    pub fn current(&self) -> (r: Option<&Vec<u8>>)
        requires
            self.wf(),
        ensures
            match self.spec_pos() {
                Some(p) => r matches Some(v) && v@ == self.spec_states()[p as int],
                None => r is None,
            },
    {
        match self.pos {
            Some(p) => Some(&self.states[p]),
            None => None,
        }
    }
}

} // verus!
