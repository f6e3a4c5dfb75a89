use vstd::prelude::*;
use crate::ids::IdGen;
use crate::mesh::{edge_index, HalfEdgeMesh};
use crate::walk::Around;
use crate::ptr::{EdgePtr, FacePtr, VertPtr};

verus! {

/// A directed half-edge: where it starts, the face it bounds, the next
/// half-edge around that face, and the opposite half-edge.
#[derive(Clone, Copy, Debug)]
pub struct Edge {
    pub next: EdgePtr,
    pub pair: EdgePtr,
    pub origin: VertPtr,
    pub face: FacePtr,
    pub id: u32,
}

impl Edge {
    /// An edge with a fresh identifier and no links.
    pub fn empty(ids: &mut IdGen) -> (r: Edge)
        requires
            old(ids).can_issue(),
        ensures
            r.id == old(ids).last + 1,
            final(ids).last == r.id,
            r.next.slot is None,
            r.pair.slot is None,
            r.origin.slot is None,
            r.face.slot is None,
    {
        Edge {
            id: ids.fresh(),
            next: EdgePtr::empty(),
            pair: EdgePtr::empty(),
            origin: VertPtr::empty(),
            face: FacePtr::empty(),
        }
    }

    /// An edge with a fresh identifier that starts at `origin`.
    pub fn with_origin(ids: &mut IdGen, origin: VertPtr) -> (r: Edge)
        requires
            old(ids).can_issue(),
        ensures
            r.id == old(ids).last + 1,
            final(ids).last == r.id,
            r.next.slot is None,
            r.pair.slot is None,
            r.origin == origin,
            r.face.slot is None,
    {
        Edge {
            id: ids.fresh(),
            next: EdgePtr::empty(),
            pair: EdgePtr::empty(),
            origin: origin,
            face: FacePtr::empty(),
        }
    }

    pub fn take_next(&mut self, next: EdgePtr)
        ensures
            *final(self) == (Edge { next: next, ..*old(self) }),
    {
        self.next = next;
    }

    pub fn set_next(&mut self, next: &EdgePtr)
        ensures
            *final(self) == (Edge { next: *next, ..*old(self) }),
    {
        self.next = *next;
    }

    /// Points `next` at the edge held in slot `next`.
    pub fn set_next_rc(&mut self, next: usize)
        ensures
            *final(self) == (Edge { next: EdgePtr { slot: Some(next) }, ..*old(self) }),
    {
        self.next = EdgePtr::new(next);
    }

    pub fn take_pair(&mut self, pair: EdgePtr)
        ensures
            *final(self) == (Edge { pair: pair, ..*old(self) }),
    {
        self.pair = pair;
    }

    pub fn set_pair(&mut self, pair: &EdgePtr)
        ensures
            *final(self) == (Edge { pair: *pair, ..*old(self) }),
    {
        self.pair = *pair;
    }

    /// Points `pair` at the edge held in slot `pair`.
    pub fn set_pair_rc(&mut self, pair: usize)
        ensures
            *final(self) == (Edge { pair: EdgePtr { slot: Some(pair) }, ..*old(self) }),
    {
        self.pair = EdgePtr::new(pair);
    }

    pub fn take_origin(&mut self, origin: VertPtr)
        ensures
            *final(self) == (Edge { origin: origin, ..*old(self) }),
    {
        self.origin = origin;
    }

    pub fn set_origin(&mut self, origin: &VertPtr)
        ensures
            *final(self) == (Edge { origin: *origin, ..*old(self) }),
    {
        self.origin = *origin;
    }

    /// Points `origin` at the vertex held in slot `origin`.
    pub fn set_origin_rc(&mut self, origin: usize)
        ensures
            *final(self) == (Edge { origin: VertPtr { slot: Some(origin) }, ..*old(self) }),
    {
        self.origin = VertPtr::new(origin);
    }

    pub fn set_face(&mut self, face: &FacePtr)
        ensures
            *final(self) == (Edge { face: *face, ..*old(self) }),
    {
        self.face = *face;
    }

    pub fn take_face(&mut self, face: FacePtr)
        ensures
            *final(self) == (Edge { face: face, ..*old(self) }),
    {
        self.face = face;
    }

    /// Points `face` at the face held in slot `face`.
    pub fn set_face_rc(&mut self, face: usize)
        ensures
            *final(self) == (Edge { face: FacePtr { slot: Some(face) }, ..*old(self) }),
    {
        self.face = FacePtr::new(face);
    }
}

impl Edge {
    /// All four links are held.
    pub open spec fn valid_in<P, N>(&self, mesh: &HalfEdgeMesh<P, N>) -> bool {
        &&& mesh.edge_live(self.pair)
        &&& mesh.face_live(self.face)
        &&& mesh.vert_live(self.origin)
        &&& mesh.edge_live(self.next)
    }

    /// Where the edge ends: the origin of its `next`, or nothing while `next`
    /// dangles.
    pub open spec fn target<P, N>(&self, mesh: &HalfEdgeMesh<P, N>) -> VertPtr {
        if mesh.edge_live(self.next) {
            mesh.edge_in(edge_index(self.next)).origin
        } else {
            VertPtr { slot: None }
        }
    }

    /// The face on the far side: the face of `pair`, or nothing while `pair`
    /// dangles.
    pub open spec fn far_face<P, N>(&self, mesh: &HalfEdgeMesh<P, N>) -> FacePtr {
        if mesh.edge_live(self.pair) {
            mesh.edge_in(edge_index(self.pair)).face
        } else {
            FacePtr { slot: None }
        }
    }

    /// Whether every link of the edge is held. The links are tested in order
    /// of how likely they are to dangle, and the test stops at the first one
    /// that does.
    pub fn is_valid<P, N>(&self, mesh: &HalfEdgeMesh<P, N>) -> (r: bool)
        ensures
            r == self.valid_in(mesh),
    {
        mesh.edge_is_valid(self.pair) && mesh.face_is_valid(self.face) && mesh.vert_is_valid(
            self.origin,
        ) && mesh.edge_is_valid(self.next)
    }

    /// The source of the half-edge, then its target.
    pub fn adjacent_verts<P, N>(&self, mesh: &HalfEdgeMesh<P, N>) -> (r: Vec<VertPtr>)
        ensures
            r@ == seq![self.origin, self.target(mesh)],
    {
        let target = match mesh.edge(self.next) {
            Some(n) => n.origin,
            None => VertPtr::empty(),
        };
        let r = vec![self.origin, target];
        assert(r@ =~= seq![self.origin, self.target(mesh)]);
        r
    }

    /// The face to the left of the half-edge, then the face to its right,
    /// which is the face of its pair. Either may dangle on the mesh boundary.
    pub fn adjacent_faces<P, N>(&self, mesh: &HalfEdgeMesh<P, N>) -> (r: Vec<FacePtr>)
        ensures
            r@ == seq![self.face, self.far_face(mesh)],
    {
        let far = match mesh.edge(self.pair) {
            Some(p) => p.face,
            None => FacePtr::empty(),
        };
        let r = vec![self.face, far];
        assert(r@ =~= seq![self.face, self.far_face(mesh)]);
        r
    }

    /// The edges leaving the source of the half-edge, clockwise from the
    /// half-edge itself, which is held at `at`; then the edges leaving its
    /// target, clockwise from `next`. Each fan is the walk that `walk_edges`
    /// lists.
    pub fn adjacent_edges<P, N>(&self, mesh: &HalfEdgeMesh<P, N>, at: EdgePtr) -> (r: Vec<
        EdgePtr,
    >)
        ensures
            exists|n1: nat, n2: nat|
                {
                    &&& mesh.walk_stops_at(edge_index(at), n1, Around::Origin)
                    &&& mesh.walk_stops_at(edge_index(self.next), n2, Around::Origin)
                    &&& r@ == mesh.walk_seq(edge_index(at), n1, Around::Origin) + mesh.walk_seq(
                        edge_index(self.next),
                        n2,
                        Around::Origin,
                    )
                },
    {
        let (mut first, _) = mesh.walk_edges(at, Around::Origin);
        let (mut second, _) = mesh.walk_edges(self.next, Around::Origin);
        let ghost a = first@;
        let ghost b = second@;
        first.append(&mut second);
        assert(mesh.walk_stops_at(edge_index(at), a.len() as nat, Around::Origin));
        assert(mesh.walk_stops_at(edge_index(self.next), b.len() as nat, Around::Origin));
        assert(first@ == mesh.walk_seq(edge_index(at), a.len() as nat, Around::Origin) + mesh.walk_seq(
            edge_index(self.next),
            b.len() as nat,
            Around::Origin,
        ));
        first
    }
}

/// Releasing the edge that another edge's `next` or `pair` refers to makes
/// that other edge report itself invalid.
pub proof fn lemma_release_edge_invalidates<P, N>(
    before: &HalfEdgeMesh<P, N>,
    after: &HalfEdgeMesh<P, N>,
    p: EdgePtr,
    e: Edge,
)
    requires
        before.edge_live(p),
        after.edges@ == before.edges@.update(edge_index(p), None),
        e.next == p || e.pair == p,
    ensures
        !e.valid_in(after),
        !after.edge_live(p),
{
}

/// Releasing the vertex an edge starts at makes the edge report itself
/// invalid.
pub proof fn lemma_release_vert_invalidates<P, N>(
    before: &HalfEdgeMesh<P, N>,
    after: &HalfEdgeMesh<P, N>,
    v: VertPtr,
    e: Edge,
)
    requires
        before.vert_live(v),
        after.verts@ == before.verts@.update(v.slot.unwrap() as int, None),
        e.origin == v,
    ensures
        !e.valid_in(after),
        !after.vert_live(v),
{
}

/// Releasing the face an edge bounds makes the edge report itself invalid.
pub proof fn lemma_release_face_invalidates<P, N>(
    before: &HalfEdgeMesh<P, N>,
    after: &HalfEdgeMesh<P, N>,
    f: FacePtr,
    e: Edge,
)
    requires
        before.face_live(f),
        after.faces@ == before.faces@.update(f.slot.unwrap() as int, None),
        e.face == f,
    ensures
        !e.valid_in(after),
        !after.face_live(f),
{
}

impl PartialEq for Edge {
    /// Edges are the same edge when their identifiers are equal.
    fn eq(&self, other: &Edge) -> (r: bool) {
        self.id == other.id
    }
}

impl vstd::std_specs::cmp::PartialEqSpecImpl for Edge {
    open spec fn obeys_eq_spec() -> bool {
        true
    }

    open spec fn eq_spec(&self, other: &Edge) -> bool {
        self.id == other.id
    }
}

impl Eq for Edge {}

} // verus!
