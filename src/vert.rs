use vstd::prelude::*;
use crate::ids::IdGen;
use crate::ptr::EdgePtr;

verus! {

/// A vertex: its position, of whatever point type the mesh is built over, and
/// one half-edge that leaves it.
#[derive(Debug)]
pub struct Vert<P> {
    pub edge: EdgePtr,
    pub pos: P,
    pub id: u32,
}

impl<P> Vert<P> {
    /// A vertex at `pos` with a fresh identifier and no outgoing edge yet.
    pub fn new(ids: &mut IdGen, pos: P) -> (r: Vert<P>)
        requires
            old(ids).can_issue(),
        ensures
            r.id == old(ids).last + 1,
            final(ids).last == r.id,
            r.edge.slot is None,
            r.pos == pos,
    {
        Vert { edge: EdgePtr::empty(), pos: pos, id: ids.fresh() }
    }

    pub fn set_edge(&mut self, edge: &EdgePtr)
        ensures
            final(self).edge == *edge,
            final(self).pos == old(self).pos,
            final(self).id == old(self).id,
    {
        self.edge = *edge;
    }
}

} // verus!
