use vstd::prelude::*;
use crate::ids::IdGen;
use crate::mesh::{edge_index, HalfEdgeMesh};
use crate::ptr::{EdgePtr, FacePtr, VertPtr};
use crate::walk::{Around, WalkEnd};

verus! {

/// A face: one half-edge of its boundary, and its centroid and normal, of
/// whatever point and vector types the mesh is built over.
#[derive(Debug)]
pub struct Face<P, N> {
    pub edge: EdgePtr,
    pub normal: N,
    pub center: P,
    pub id: u32,
}

impl<P, N> Face<P, N> {
    /// A face with a fresh identifier, no boundary edge, and the given initial
    /// normal and centroid.
    pub fn empty(ids: &mut IdGen, normal: N, center: P) -> (r: Face<P, N>)
        requires
            old(ids).can_issue(),
        ensures
            r.id == old(ids).last + 1,
            final(ids).last == r.id,
            r.edge.slot is None,
            r.normal == normal,
            r.center == center,
    {
        Face { id: ids.fresh(), edge: EdgePtr::empty(), normal: normal, center: center }
    }

    /// A face with a fresh identifier bounded by `edge`.
    pub fn with_edge(ids: &mut IdGen, edge: EdgePtr, normal: N, center: P) -> (r: Face<P, N>)
        requires
            old(ids).can_issue(),
        ensures
            r.id == old(ids).last + 1,
            final(ids).last == r.id,
            r.edge == edge,
            r.normal == normal,
            r.center == center,
    {
        Face { id: ids.fresh(), edge: edge, normal: normal, center: center }
    }

    pub fn take_edge(&mut self, edge: EdgePtr)
        ensures
            final(self).edge == edge,
            final(self).normal == old(self).normal,
            final(self).center == old(self).center,
            final(self).id == old(self).id,
    {
        self.edge = edge;
    }

    pub fn set_edge(&mut self, edge: &EdgePtr)
        ensures
            final(self).edge == *edge,
            final(self).normal == old(self).normal,
            final(self).center == old(self).center,
            final(self).id == old(self).id,
    {
        self.edge = *edge;
    }

    /// A face is valid while its boundary edge is held.
    pub fn is_valid(&self, mesh: &HalfEdgeMesh<P, N>) -> (r: bool)
        ensures
            r == mesh.edge_live(self.edge),
    {
        mesh.edge_is_valid(self.edge)
    }
}

impl<P, N> HalfEdgeMesh<P, N> {
    /// The vertex that the walk from `s` along a face yields at step `k`.
    pub open spec fn corner(&self, s: int, k: nat) -> VertPtr {
        self.edge_in(self.orbit(s, k, Around::Face).unwrap()).origin
    }

    /// The face across the edge that the walk from `s` along a face meets at
    /// step `k`.
    pub open spec fn neighbour(&self, s: int, k: nat) -> FacePtr {
        self.edge_in(self.orbit(s, k, Around::Face).unwrap()).far_face(self)
    }

    /// The corners of the face walk from `s` stop after `m`: every step before
    /// `m` yields a held vertex, and at `m` the walk ends, reaches the listing
    /// limit (as many edges as the mesh has slots), or meets a released vertex.
    pub open spec fn corners_stop_at(&self, s: int, m: nat) -> bool {
        &&& m <= self.edges@.len()
        &&& forall|k: nat|
            k < m ==> #[trigger] self.walk_goes_on(s, k, Around::Face) && self.vert_live(
                self.corner(s, k),
            )
        &&& (m == self.edges@.len() || !self.walk_goes_on(s, m, Around::Face) || !self.vert_live(
            self.corner(s, m),
        ))
    }

    /// Where the corners of a walk stop is determined by the walk.
    pub proof fn lemma_corners_stop_unique(&self, s: int, m1: nat, m2: nat)
        ensures
            self.corners_stop_at(s, m1) && self.corners_stop_at(s, m2) ==> m1 == m2,
    {
        if self.corners_stop_at(s, m1) && self.corners_stop_at(s, m2) && m1 != m2 {
            if m1 < m2 {
                assert(self.walk_goes_on(s, m1, Around::Face));
            } else {
                assert(self.walk_goes_on(s, m2, Around::Face));
            }
        }
    }

    /// The first `m` corners of the face walk from `s`.
    pub open spec fn corner_seq(&self, s: int, m: nat) -> Seq<VertPtr> {
        Seq::new(m, |k: int| self.corner(s, k as nat))
    }

    /// The neighbours met along the face walk from `s` stop after `m`: every
    /// step before `m` has a held face across it, and at `m` the walk ends,
    /// reaches the listing limit, or has no held face across.
    pub open spec fn neighbours_stop_at(&self, s: int, m: nat) -> bool {
        &&& m <= self.edges@.len()
        &&& forall|k: nat|
            k < m ==> #[trigger] self.walk_goes_on(s, k, Around::Face) && self.face_live(
                self.neighbour(s, k),
            )
        &&& (m == self.edges@.len() || !self.walk_goes_on(s, m, Around::Face) || !self.face_live(
            self.neighbour(s, m),
        ))
    }

    /// The first `m` neighbours met along the face walk from `s`.
    pub open spec fn neighbour_seq(&self, s: int, m: nat) -> Seq<FacePtr> {
        Seq::new(m, |k: int| self.neighbour(s, k as nat))
    }
}

impl<P, N> Face<P, N> {
    /// The vertices around the face, in the order of its half-edges, starting
    /// at the origin of its boundary edge. The list ends where the boundary
    /// closes or first meets a released entity.
    pub fn vert_list(&self, mesh: &HalfEdgeMesh<P, N>) -> (r: Vec<VertPtr>)
        ensures
            mesh.corners_stop_at(edge_index(self.edge), r@.len() as nat),
            r@ == mesh.corner_seq(edge_index(self.edge), r@.len() as nat),
    {
        let ghost s = edge_index(self.edge);
        let (walk, _) = mesh.walk_edges(self.edge, Around::Face);
        let mut out: Vec<VertPtr> = Vec::new();
        let limit = mesh.edges.len();
        let mut i: usize = 0;
        let mut stopped = false;
        while !stopped && i < walk.len()
            invariant
                limit == mesh.edges@.len(),
                i <= walk@.len(),
                out@.len() == i,
                mesh.walk_stops_at(s, walk@.len() as nat, Around::Face),
                walk@ == mesh.walk_seq(s, walk@.len() as nat, Around::Face),
                forall|k: nat|
                    k < i ==> #[trigger] mesh.walk_goes_on(s, k, Around::Face) && mesh.vert_live(
                        mesh.corner(s, k),
                    ),
                out@ == mesh.corner_seq(s, i as nat),
                stopped ==> i < walk@.len() && !mesh.vert_live(mesh.corner(s, i as nat)),
            decreases walk@.len() - i, if stopped { 0int } else { 1int },
        {
            assert(mesh.walk_goes_on(s, i as nat, Around::Face));
            proof {
                mesh.lemma_orbit_live(s, i as nat, Around::Face);
                assert(walk@[i as int] == mesh.walk_seq(s, walk@.len() as nat, Around::Face)[i as int]);
            }
            let slot = walk[i].slot.unwrap();
            assert(slot as int == mesh.orbit(s, i as nat, Around::Face).unwrap());
            let item = mesh.edges[slot].unwrap().origin;
            if !mesh.vert_is_valid(item) {
                stopped = true;
            } else {
                out.push(item);
                proof {
                    assert forall|k: nat| k < i + 1 implies #[trigger] mesh.walk_goes_on(
                        s,
                        k,
                        Around::Face,
                    ) && mesh.vert_live(mesh.corner(s, k)) by {
                        if k < i {
                            assert(mesh.walk_goes_on(s, k, Around::Face));
                        }
                    }
                }
                i = i + 1;
                assert(out@ =~= mesh.corner_seq(s, i as nat));
            }
        }
        out
    }

    /// The three corners of a triangular face in half-edge order, or `None`
    /// when `vert_list` does not yield exactly three vertices.
    pub fn triangle(&self, mesh: &HalfEdgeMesh<P, N>) -> (r: Option<(VertPtr, VertPtr, VertPtr)>)
        ensures
            r is Some <==> mesh.corners_stop_at(edge_index(self.edge), 3),
            r is Some ==> r == Some(
                (
                    mesh.corner(edge_index(self.edge), 0),
                    mesh.corner(edge_index(self.edge), 1),
                    mesh.corner(edge_index(self.edge), 2),
                ),
            ),
    {
        let verts = self.vert_list(mesh);
        proof {
            mesh.lemma_corners_stop_unique(edge_index(self.edge), verts@.len() as nat, 3);
        }
        if verts.len() == 3 {
            assert(verts@[0] == mesh.corner_seq(edge_index(self.edge), 3)[0]);
            assert(verts@[1] == mesh.corner_seq(edge_index(self.edge), 3)[1]);
            assert(verts@[2] == mesh.corner_seq(edge_index(self.edge), 3)[2]);
            Some((verts[0], verts[1], verts[2]))
        } else {
            None
        }
    }

    /// How many vertices `vert_list` yields.
    pub fn num_vertices(&self, mesh: &HalfEdgeMesh<P, N>) -> (r: usize)
        ensures
            mesh.corners_stop_at(edge_index(self.edge), r as nat),
    {
        self.vert_list(mesh).len()
    }

    /// The boundary half-edges of the face, starting at its boundary edge,
    /// until the boundary closes or a link dangles.
    pub fn adjacent_edges(&self, mesh: &HalfEdgeMesh<P, N>) -> (r: Vec<EdgePtr>)
        ensures
            mesh.walk_stops_at(edge_index(self.edge), r@.len() as nat, Around::Face),
            r@ == mesh.walk_seq(edge_index(self.edge), r@.len() as nat, Around::Face),
    {
        let (walk, _) = mesh.walk_edges(self.edge, Around::Face);
        walk
    }

    /// The faces across each boundary half-edge, in boundary order, until the
    /// boundary closes or a link dangles (on the mesh boundary, there is no
    /// face across).
    pub fn adjacent_faces(&self, mesh: &HalfEdgeMesh<P, N>) -> (r: Vec<FacePtr>)
        ensures
            mesh.neighbours_stop_at(edge_index(self.edge), r@.len() as nat),
            r@ == mesh.neighbour_seq(edge_index(self.edge), r@.len() as nat),
    {
        let ghost s = edge_index(self.edge);
        let (walk, _) = mesh.walk_edges(self.edge, Around::Face);
        let mut out: Vec<FacePtr> = Vec::new();
        let limit = mesh.edges.len();
        let mut i: usize = 0;
        let mut stopped = false;
        while !stopped && i < walk.len()
            invariant
                limit == mesh.edges@.len(),
                i <= walk@.len(),
                out@.len() == i,
                mesh.walk_stops_at(s, walk@.len() as nat, Around::Face),
                walk@ == mesh.walk_seq(s, walk@.len() as nat, Around::Face),
                forall|k: nat|
                    k < i ==> #[trigger] mesh.walk_goes_on(s, k, Around::Face) && mesh.face_live(
                        mesh.neighbour(s, k),
                    ),
                out@ == mesh.neighbour_seq(s, i as nat),
                stopped ==> i < walk@.len() && !mesh.face_live(mesh.neighbour(s, i as nat)),
            decreases walk@.len() - i, if stopped { 0int } else { 1int },
        {
            assert(mesh.walk_goes_on(s, i as nat, Around::Face));
            proof {
                mesh.lemma_orbit_live(s, i as nat, Around::Face);
                assert(walk@[i as int] == mesh.walk_seq(s, walk@.len() as nat, Around::Face)[i as int]);
            }
            let slot = walk[i].slot.unwrap();
            assert(slot as int == mesh.orbit(s, i as nat, Around::Face).unwrap());
            let item = mesh.edges[slot].unwrap().adjacent_faces(mesh)[1];
            if !mesh.face_is_valid(item) {
                stopped = true;
            } else {
                out.push(item);
                proof {
                    assert forall|k: nat| k < i + 1 implies #[trigger] mesh.walk_goes_on(
                        s,
                        k,
                        Around::Face,
                    ) && mesh.face_live(mesh.neighbour(s, k)) by {
                        if k < i {
                            assert(mesh.walk_goes_on(s, k, Around::Face));
                        }
                    }
                }
                i = i + 1;
                assert(out@ =~= mesh.neighbour_seq(s, i as nat));
            }
        }
        out
    }
}

impl<P, N> PartialEq for Face<P, N> {
    /// Faces are the same face when their identifiers are equal.
    fn eq(&self, other: &Face<P, N>) -> (r: bool) {
        self.id == other.id
    }
}

impl<P, N> vstd::std_specs::cmp::PartialEqSpecImpl for Face<P, N> {
    open spec fn obeys_eq_spec() -> bool {
        true
    }

    open spec fn eq_spec(&self, other: &Face<P, N>) -> bool {
        self.id == other.id
    }
}

impl<P, N> Eq for Face<P, N> {}

/// Around a face whose boundary comes back to its boundary edge after `n`
/// half-edges, each starting at a held vertex, the vertex count `m` that
/// `num_vertices` reports is `n`; the walk that `adjacent_edges` lists stops
/// after `n` edges, and `n` steps from the boundary edge lead back to it.
pub proof fn lemma_face_cycle_closes<P, N>(mesh: &HalfEdgeMesh<P, N>, f: &Face<P, N>, n: nat, m: nat)
    requires
        n > 0,
        mesh.walk_goes_on_upto(edge_index(f.edge), n, Around::Face),
        mesh.orbit(edge_index(f.edge), n, Around::Face) == Some(edge_index(f.edge)),
        forall|k: nat| k < n ==> mesh.vert_live(#[trigger] mesh.corner(edge_index(f.edge), k)),
        mesh.corners_stop_at(edge_index(f.edge), m),
    ensures
        m == n,
        mesh.walk_stops_at(edge_index(f.edge), n, Around::Face),
        mesh.orbit(edge_index(f.edge), m, Around::Face) == Some(edge_index(f.edge)),
{
    let s = edge_index(f.edge);
    mesh.lemma_closed_walk_within_slots(s, n, Around::Face);
    assert(!mesh.walk_goes_on(s, n, Around::Face));
    assert forall|k: nat| k < n implies #[trigger] mesh.walk_goes_on(s, k, Around::Face)
        && mesh.vert_live(mesh.corner(s, k)) by {
        assert(mesh.walk_goes_on(s, k, Around::Face));
        assert(mesh.vert_live(mesh.corner(s, k)));
    }
    assert(mesh.corners_stop_at(s, n));
    mesh.lemma_corners_stop_unique(s, n, m);
}

} // verus!
