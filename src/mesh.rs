use vstd::prelude::*;
use crate::edge::Edge;
use crate::face::Face;
use crate::ids::IdGen;
use crate::ptr::{EdgePtr, FacePtr, VertPtr};
use crate::vert::Vert;

verus! {

/// The owner of every vertex, edge and face. Each entity sits in a slot of its
/// arena; releasing it leaves `None` in the slot, which is never reused, so a
/// reference to a released entity stays recognisably dangling.
pub struct HalfEdgeMesh<P, N> {
    pub verts: Vec<Option<Vert<P>>>,
    pub edges: Vec<Option<Edge>>,
    pub faces: Vec<Option<Face<P, N>>>,
    pub ids: IdGen,
}

/// The slot a reference names, or -1 for an empty reference.
pub open spec fn edge_index(p: EdgePtr) -> int {
    match p.slot {
        Some(i) => i as int,
        None => -1,
    }
}

impl<P, N> HalfEdgeMesh<P, N> {
    pub open spec fn edge_slot_live(&self, i: int) -> bool {
        0 <= i < self.edges@.len() && self.edges@[i] is Some
    }

    /// Whether `p` refers to an edge that is still held.
    pub open spec fn edge_live(&self, p: EdgePtr) -> bool {
        self.edge_slot_live(edge_index(p))
    }

    /// The edge held in slot `i`.
    pub open spec fn edge_in(&self, i: int) -> Edge {
        self.edges@[i].unwrap()
    }

    pub open spec fn vert_live(&self, p: VertPtr) -> bool {
        match p.slot {
            Some(i) => i < self.verts@.len() && self.verts@[i as int] is Some,
            None => false,
        }
    }

    pub open spec fn face_live(&self, p: FacePtr) -> bool {
        match p.slot {
            Some(i) => i < self.faces@.len() && self.faces@[i as int] is Some,
            None => false,
        }
    }

    /// A mesh with no entities.
    pub fn new() -> (r: Self)
        ensures
            r.verts@.len() == 0,
            r.edges@.len() == 0,
            r.faces@.len() == 0,
            r.ids.last == 0,
    {
        HalfEdgeMesh { verts: Vec::new(), edges: Vec::new(), faces: Vec::new(), ids: IdGen::new() }
    }

    /// Takes ownership of `v` and returns a reference to it.
    pub fn add_vert(&mut self, v: Vert<P>) -> (r: VertPtr)
        requires
            old(self).verts.len() < usize::MAX,
        ensures
            r.slot == Some(old(self).verts.len()),
            final(self).verts@ == old(self).verts@.push(Some(v)),
            final(self).edges@ == old(self).edges@,
            final(self).faces@ == old(self).faces@,
            final(self).ids == old(self).ids,
    {
        let slot = self.verts.len();
        self.verts.push(Some(v));
        VertPtr::new(slot)
    }

    /// Takes ownership of `e` and returns a reference to it.
    pub fn add_edge(&mut self, e: Edge) -> (r: EdgePtr)
        requires
            old(self).edges.len() < usize::MAX,
        ensures
            r.slot == Some(old(self).edges.len()),
            final(self).edges@ == old(self).edges@.push(Some(e)),
            final(self).verts@ == old(self).verts@,
            final(self).faces@ == old(self).faces@,
            final(self).ids == old(self).ids,
    {
        let slot = self.edges.len();
        self.edges.push(Some(e));
        EdgePtr::new(slot)
    }

    /// Takes ownership of `f` and returns a reference to it.
    pub fn add_face(&mut self, f: Face<P, N>) -> (r: FacePtr)
        requires
            old(self).faces.len() < usize::MAX,
        ensures
            r.slot == Some(old(self).faces.len()),
            final(self).faces@ == old(self).faces@.push(Some(f)),
            final(self).verts@ == old(self).verts@,
            final(self).edges@ == old(self).edges@,
            final(self).ids == old(self).ids,
    {
        let slot = self.faces.len();
        self.faces.push(Some(f));
        FacePtr::new(slot)
    }

    /// Whether `p` refers to an edge that is still held.
    pub fn edge_is_valid(&self, p: EdgePtr) -> (r: bool)
        ensures
            r == self.edge_live(p),
    {
        match p.slot {
            Some(i) => i < self.edges.len() && self.edges[i].is_some(),
            None => false,
        }
    }

    /// Whether `p` refers to a vertex that is still held.
    pub fn vert_is_valid(&self, p: VertPtr) -> (r: bool)
        ensures
            r == self.vert_live(p),
    {
        match p.slot {
            Some(i) => i < self.verts.len() && self.verts[i].is_some(),
            None => false,
        }
    }

    /// Whether `p` refers to a face that is still held.
    pub fn face_is_valid(&self, p: FacePtr) -> (r: bool)
        ensures
            r == self.face_live(p),
    {
        match p.slot {
            Some(i) => i < self.faces.len() && self.faces[i].is_some(),
            None => false,
        }
    }

    /// The edge that `p` refers to, or `None` once it has been released.
    pub fn edge(&self, p: EdgePtr) -> (r: Option<Edge>)
        ensures
            self.edge_live(p) ==> r == Some(self.edge_in(edge_index(p))),
            !self.edge_live(p) ==> r is None,
    {
        match p.slot {
            Some(i) => if i < self.edges.len() {
                self.edges[i]
            } else {
                None
            },
            None => None,
        }
    }

    /// The vertex that `p` refers to, or `None` once it has been released.
    pub fn vert(&self, p: VertPtr) -> (r: Option<&Vert<P>>)
        ensures
            self.vert_live(p) ==> r == Some(&self.verts@[p.slot.unwrap() as int].unwrap()),
            !self.vert_live(p) ==> r is None,
    {
        match p.slot {
            Some(i) => if i < self.verts.len() {
                self.verts[i].as_ref()
            } else {
                None
            },
            None => None,
        }
    }

    /// The face that `p` refers to, or `None` once it has been released.
    pub fn face(&self, p: FacePtr) -> (r: Option<&Face<P, N>>)
        ensures
            self.face_live(p) ==> r == Some(&self.faces@[p.slot.unwrap() as int].unwrap()),
            !self.face_live(p) ==> r is None,
    {
        match p.slot {
            Some(i) => if i < self.faces.len() {
                self.faces[i].as_ref()
            } else {
                None
            },
            None => None,
        }
    }

    /// Replaces the edge that `p` refers to by `e`, if it is still held;
    /// returns whether it was.
    pub fn put_edge(&mut self, p: EdgePtr, e: Edge) -> (r: bool)
        ensures
            r == old(self).edge_live(p),
            r ==> final(self).edges@ == old(self).edges@.update(edge_index(p), Some(e)),
            !r ==> final(self).edges@ == old(self).edges@,
            final(self).verts@ == old(self).verts@,
            final(self).faces@ == old(self).faces@,
            final(self).ids == old(self).ids,
    {
        if self.edge_is_valid(p) {
            let i = p.slot.unwrap();
            self.edges.set(i, Some(e));
            true
        } else {
            false
        }
    }

    /// Stores `center` and `normal` on the face that `p` refers to, if it is
    /// still held; returns whether it was.
    pub fn set_face_attrs(&mut self, p: FacePtr, center: P, normal: N) -> (r: bool)
        ensures
            r == old(self).face_live(p),
            r ==> final(self).faces@ == old(self).faces@.update(
                p.slot.unwrap() as int,
                Some(
                    (Face {
                        center: center,
                        normal: normal,
                        ..old(self).faces@[p.slot.unwrap() as int].unwrap()
                    }),
                ),
            ),
            !r ==> final(self).faces@ == old(self).faces@,
            final(self).verts@ == old(self).verts@,
            final(self).edges@ == old(self).edges@,
            final(self).ids == old(self).ids,
    {
        if !self.face_is_valid(p) {
            return false;
        }
        let i = p.slot.unwrap();
        let mut held: Option<Face<P, N>> = None;
        self.faces.set_and_swap(i, &mut held);
        let f = held.unwrap();
        self.faces.set(i, Some(Face { edge: f.edge, normal: normal, center: center, id: f.id }));
        true
    }

    /// Points the outgoing edge of the vertex that `p` refers to at `edge`, if
    /// the vertex is still held; returns whether it was.
    pub fn set_vert_edge(&mut self, p: VertPtr, edge: EdgePtr) -> (r: bool)
        ensures
            r == old(self).vert_live(p),
            r ==> final(self).verts@ == old(self).verts@.update(
                p.slot.unwrap() as int,
                Some((Vert { edge: edge, ..old(self).verts@[p.slot.unwrap() as int].unwrap() })),
            ),
            !r ==> final(self).verts@ == old(self).verts@,
            final(self).edges@ == old(self).edges@,
            final(self).faces@ == old(self).faces@,
            final(self).ids == old(self).ids,
    {
        if !self.vert_is_valid(p) {
            return false;
        }
        let i = p.slot.unwrap();
        let mut held: Option<Vert<P>> = None;
        self.verts.set_and_swap(i, &mut held);
        let v = held.unwrap();
        self.verts.set(i, Some(Vert { edge: edge, pos: v.pos, id: v.id }));
        true
    }

    /// Points the boundary edge of the face that `p` refers to at `edge`, if
    /// the face is still held; returns whether it was.
    pub fn set_face_edge(&mut self, p: FacePtr, edge: EdgePtr) -> (r: bool)
        ensures
            r == old(self).face_live(p),
            r ==> final(self).faces@ == old(self).faces@.update(
                p.slot.unwrap() as int,
                Some((Face { edge: edge, ..old(self).faces@[p.slot.unwrap() as int].unwrap() })),
            ),
            !r ==> final(self).faces@ == old(self).faces@,
            final(self).verts@ == old(self).verts@,
            final(self).edges@ == old(self).edges@,
            final(self).ids == old(self).ids,
    {
        if !self.face_is_valid(p) {
            return false;
        }
        let i = p.slot.unwrap();
        let mut held: Option<Face<P, N>> = None;
        self.faces.set_and_swap(i, &mut held);
        let f = held.unwrap();
        self.faces.set(i, Some(Face { edge: edge, normal: f.normal, center: f.center, id: f.id }));
        true
    }

    /// Every held edge whose pair is held is the pair of its pair.
    pub open spec fn pairs_match(&self) -> bool {
        forall|i: int|
            #![trigger self.edges@[i]]
            self.edge_slot_live(i) && self.edge_live(self.edge_in(i).pair) ==> self.edge_in(
                edge_index(self.edge_in(i).pair),
            ).pair == (EdgePtr { slot: Some(i as usize) })
    }

    /// Whether pairing is a matching: `pairs_match`.
    pub fn pairs_are_consistent(&self) -> (r: bool)
        ensures
            r == self.pairs_match(),
    {
        let mut i: usize = 0;
        while i < self.edges.len()
            invariant
                i <= self.edges@.len(),
                forall|j: int|
                    #![trigger self.edges@[j]]
                    0 <= j < i ==> (self.edge_slot_live(j) && self.edge_live(self.edge_in(j).pair)
                        ==> self.edge_in(edge_index(self.edge_in(j).pair)).pair == (EdgePtr {
                        slot: Some(j as usize),
                    })),
            decreases self.edges@.len() - i,
        {
            if let Some(e) = self.edges[i] {
                if let Some(q) = self.edge(e.pair) {
                    if q.pair != EdgePtr::new(i) {
                        assert(!(self.edge_in(edge_index(self.edge_in(i as int).pair)).pair == (
                        EdgePtr { slot: Some(i) })));
                        return false;
                    }
                }
            }
            i = i + 1;
        }
        true
    }

    /// Drops the edge that `p` refers to; every reference to it dangles from
    /// then on.
    pub fn release_edge(&mut self, p: EdgePtr)
        ensures
            old(self).edge_live(p) ==> final(self).edges@ == old(self).edges@.update(
                edge_index(p),
                None,
            ),
            !old(self).edge_live(p) ==> final(self).edges@ == old(self).edges@,
            !final(self).edge_live(p),
            final(self).verts@ == old(self).verts@,
            final(self).faces@ == old(self).faces@,
            final(self).ids == old(self).ids,
    {
        if self.edge_is_valid(p) {
            let i = p.slot.unwrap();
            self.edges.set(i, None);
        }
    }

    /// Drops the vertex that `p` refers to.
    pub fn release_vert(&mut self, p: VertPtr)
        ensures
            old(self).vert_live(p) ==> final(self).verts@ == old(self).verts@.update(
                p.slot.unwrap() as int,
                None,
            ),
            !old(self).vert_live(p) ==> final(self).verts@ == old(self).verts@,
            !final(self).vert_live(p),
            final(self).edges@ == old(self).edges@,
            final(self).faces@ == old(self).faces@,
            final(self).ids == old(self).ids,
    {
        if self.vert_is_valid(p) {
            let i = p.slot.unwrap();
            self.verts.set(i, None);
        }
    }

    /// Drops the face that `p` refers to.
    pub fn release_face(&mut self, p: FacePtr)
        ensures
            old(self).face_live(p) ==> final(self).faces@ == old(self).faces@.update(
                p.slot.unwrap() as int,
                None,
            ),
            !old(self).face_live(p) ==> final(self).faces@ == old(self).faces@,
            !final(self).face_live(p),
            final(self).edges@ == old(self).edges@,
            final(self).verts@ == old(self).verts@,
            final(self).ids == old(self).ids,
    {
        if self.face_is_valid(p) {
            let i = p.slot.unwrap();
            self.faces.set(i, None);
        }
    }
}

/// In a mesh whose pairs match, the pair of an edge's pair is that edge.
pub proof fn lemma_pair_of_pair<P, N>(mesh: &HalfEdgeMesh<P, N>, e: EdgePtr)
    requires
        mesh.pairs_match(),
        mesh.edge_live(e),
        mesh.edge_live(mesh.edge_in(edge_index(e)).pair),
    ensures
        mesh.edge_in(edge_index(mesh.edge_in(edge_index(e)).pair)).pair == e,
{
    let i = edge_index(e);
    assert(mesh.edges@[i] is Some);
}

} // verus!
