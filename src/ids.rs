use vstd::prelude::*;

verus! {

/// Hands out identifiers in strictly increasing order, starting at 1.
/// Each mesh owns one, so identifiers never repeat within a mesh.
#[derive(Debug)]
pub struct IdGen {
    pub last: u32,
}

impl IdGen {
    /// A generator that has issued nothing yet.
    pub fn new() -> (r: IdGen)
        ensures
            r.last == 0,
    {
        IdGen { last: 0 }
    }

    /// Whether another identifier can be issued without running out of `u32`.
    pub open spec fn can_issue(&self) -> bool {
        self.last < u32::MAX
    }

    /// Issues the next identifier: one more than the last one issued.
    pub fn fresh(&mut self) -> (r: u32)
        requires
            old(self).can_issue(),
        ensures
            r == old(self).last + 1,
            final(self).last == r,
    {
        self.last = self.last + 1;
        self.last
    }
}

/// A generator never issues an identifier twice: whatever it issued up to
/// some state is at most that state's `last`, and `fresh` from that state
/// issues something strictly greater.
pub proof fn lemma_fresh_ids_increase(issued: u32, before: IdGen, id: u32)
    requires
        issued <= before.last,
        id == before.last + 1,
    ensures
        issued < id,
        issued != id,
{
}

} // verus!
