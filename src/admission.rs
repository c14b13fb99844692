//! The admission controller: a reserve-or-fail counter bounding the number of
//! connections admitted at once.
use vstd::prelude::*;

verus! {

/// Whether a controller holding `in_use` of `ceiling` slots grants one more.
pub open spec fn admits(in_use: nat, ceiling: nat) -> bool {
    in_use < ceiling
}

/// Counts reserved slots against a fixed ceiling.
pub struct Admission {
    active: usize,
    ceiling: usize,
}

impl Admission {
    /// Slots reserved now.
    pub closed spec fn in_use(&self) -> nat {
        self.active as nat
    }

    /// The most slots that may be reserved at once.
    pub closed spec fn limit(&self) -> nat {
        self.ceiling as nat
    }

    /// Never more slots reserved than the ceiling allows.
    pub closed spec fn wf(&self) -> bool {
        self.active <= self.ceiling
    }

    /// A controller with no slot reserved.
    pub fn new(ceiling: usize) -> (r: Admission)
        ensures
            r.wf(),
            r.in_use() == 0,
            r.limit() == ceiling,
    {
        Admission { active: 0, ceiling }
    }

    /// Reserves one slot if one is free; otherwise changes nothing.
    pub fn try_admit(&mut self) -> (r: bool)
        requires
            old(self).wf(),
        ensures
            final(self).wf(),
            r == admits(old(self).in_use(), old(self).limit()),
            final(self).limit() == old(self).limit(),
            r ==> final(self).in_use() == old(self).in_use() + 1,
            !r ==> final(self).in_use() == old(self).in_use(),
    {
        if self.active < self.ceiling {
            self.active = self.active + 1;
            true
        } else {
            false
        }
    }

    /// Gives back one reserved slot; with none reserved it changes nothing.
    pub fn release(&mut self)
        requires
            old(self).wf(),
        ensures
            final(self).wf(),
            final(self).limit() == old(self).limit(),
            final(self).in_use() == if old(self).in_use() > 0 {
                (old(self).in_use() - 1) as nat
            } else {
                0
            },
    {
        if self.active > 0 {
            self.active = self.active - 1;
        }
    }

    /// Slots reserved now.
    pub fn active(&self) -> (r: usize)
        ensures
            r == self.in_use(),
    {
        self.active
    }

    /// The ceiling this controller was made with.
    pub fn ceiling(&self) -> (r: usize)
        ensures
            r == self.limit(),
    {
        self.ceiling
    }
}

} // verus!
