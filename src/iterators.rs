use vstd::prelude::*;
use crate::face::Face;
use crate::mesh::{edge_index, HalfEdgeMesh};
use crate::ptr::{EdgePtr, VertPtr};
use crate::walk::Around;

verus! {

/// Yields the vertices around a face one at a time, walking `next` from the
/// face's boundary edge. It has not started while `current` is `None`; once
/// `done` it yields nothing more. `taken` counts the vertices yielded so far.
pub struct FaceAdjacentVertIterator {
    pub start: EdgePtr,
    pub current: Option<usize>,
    pub done: bool,
    pub taken: Ghost<nat>,
}

impl FaceAdjacentVertIterator {
    /// `current` is the edge whose origin was yielded last, and the walk from
    /// the start has gone on through every step so far.
    pub open spec fn wf<P, N>(&self, mesh: &HalfEdgeMesh<P, N>) -> bool {
        let s = edge_index(self.start);
        match self.current {
            None => self.taken@ == 0,
            Some(c) => {
                &&& self.taken@ > 0
                &&& mesh.orbit(s, (self.taken@ - 1) as nat, Around::Face) == Some(c as int)
                &&& mesh.walk_goes_on_upto(s, self.taken@, Around::Face)
            },
        }
    }

    /// An iterator that has not started, whose walk begins at `start`.
    pub fn new(start: EdgePtr) -> (r: FaceAdjacentVertIterator)
        ensures
            r.start == start,
            r.current is None,
            !r.done,
            r.taken@ == 0,
    {
        FaceAdjacentVertIterator { start: start, current: None, done: false, taken: Ghost(0) }
    }

    /// The next vertex: the origin of the start edge at first, then the origin
    /// of each following edge. It stops for good once the walk comes back to
    /// the start edge or meets a link that dangles.
    pub fn next<P, N>(&mut self, mesh: &HalfEdgeMesh<P, N>) -> (r: Option<VertPtr>)
        requires
            old(self).wf(mesh),
        ensures
            final(self).wf(mesh),
            final(self).start == old(self).start,
            !old(self).done && r is Some ==> {
                &&& r == Some(mesh.corner(edge_index(old(self).start), old(self).taken@))
                &&& final(self).taken@ == old(self).taken@ + 1
            },
            !old(self).done && r is None ==> !(mesh.walk_goes_on(
                edge_index(old(self).start),
                old(self).taken@,
                Around::Face,
            ) && mesh.vert_live(mesh.corner(edge_index(old(self).start), old(self).taken@))),
            r is None <==> final(self).done,
            old(self).done ==> *final(self) == *old(self),
            !old(self).done && old(self).current is None ==> {
                let s = edge_index(old(self).start);
                if mesh.edge_slot_live(s) && mesh.vert_live(mesh.edge_in(s).origin) {
                    &&& r == Some(mesh.edge_in(s).origin)
                    &&& final(self).current == old(self).start.slot
                } else {
                    r is None
                }
            },
            !old(self).done && old(self).current is Some ==> {
                let n = mesh.step(old(self).current.unwrap() as int, Around::Face);
                if n is Some && n != Some(edge_index(old(self).start)) && mesh.vert_live(
                    mesh.edge_in(n.unwrap()).origin,
                ) {
                    &&& r == Some(mesh.edge_in(n.unwrap()).origin)
                    &&& final(self).current == Some(n.unwrap() as usize)
                } else {
                    r is None
                }
            },
    {
        if self.done {
            return None;
        }
        proof {
            let t = self.taken@;
            if t > 0 {
                assert(((t - 1) + 1) as nat == t);
            }
        }
        let at = match self.current {
            None => self.start.slot,
            Some(c) => match mesh.step_from(c, Around::Face) {
                Some(n) => if Some(n) == self.start.slot {
                    None
                } else {
                    Some(n)
                },
                None => None,
            },
        };
        let item = match at {
            Some(i) => match mesh.edge(EdgePtr::new(i)) {
                Some(e) => if mesh.vert_is_valid(e.origin) {
                    Some(e.origin)
                } else {
                    None
                },
                None => None,
            },
            None => None,
        };
        match item {
            Some(_) => {
                self.current = at;
                proof {
                    let s = edge_index(self.start);
                    let t = self.taken@;
                    assert(mesh.walk_goes_on(s, t, Around::Face));
                    assert forall|k: nat| k < t + 1 implies #[trigger] mesh.walk_goes_on(
                        s,
                        k,
                        Around::Face,
                    ) by {
                        if k < t {
                            assert(mesh.walk_goes_on(s, k, Around::Face));
                        }
                    }
                    self.taken = Ghost(t + 1);
                }
            },
            None => {
                self.done = true;
            },
        }
        item
    }
}

impl<P, N> Face<P, N> {
    /// A lazy walk over the vertices around the face.
    pub fn adjacent_verts(&self) -> (r: FaceAdjacentVertIterator)
        ensures
            r.start == self.edge,
            r.current is None,
            !r.done,
            r.taken@ == 0,
    {
        FaceAdjacentVertIterator::new(self.edge)
    }
}

} // verus!
