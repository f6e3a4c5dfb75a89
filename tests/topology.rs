use half_edge::{
    Around, Edge, EdgePtr, Face, FacePtr, HalfEdgeMesh, IdGen, VertPtr, Vert, WalkEnd,
};

type Mesh = HalfEdgeMesh<[f32; 3], [f32; 3]>;

struct Triangle {
    mesh: Mesh,
    v: [VertPtr; 3],
    e: [EdgePtr; 3],
    f: FacePtr,
}

/// V0(0,0,0), V1(1,0,0), V2(0,1,0); E0 -> E1 -> E2 -> E0 from V0, V1, V2;
/// no pairs; one face F bounded by E0.
fn triangle() -> Triangle {
    let mut mesh: Mesh = HalfEdgeMesh::new();
    let corners = [[0.0, 0.0, 0.0], [1.0, 0.0, 0.0], [0.0, 1.0, 0.0]];
    let mut v = [VertPtr::empty(); 3];
    for k in 0..3 {
        let vert = Vert::new(&mut mesh.ids, corners[k]);
        v[k] = mesh.add_vert(vert);
    }
    let mut e = [EdgePtr::empty(); 3];
    for k in 0..3 {
        let edge = Edge::with_origin(&mut mesh.ids, v[k]);
        e[k] = mesh.add_edge(edge);
    }
    let face = Face::with_edge(&mut mesh.ids, e[0], [0.0, 0.0, 1.0], [0.0, 0.0, 0.0]);
    let f = mesh.add_face(face);
    for k in 0..3 {
        let mut edge = mesh.edge(e[k]).unwrap();
        edge.set_next(&e[(k + 1) % 3]);
        edge.set_face(&f);
        assert!(mesh.put_edge(e[k], edge));
    }
    Triangle { mesh, v, e, f }
}

#[test]
fn triangle_scenario() {
    let t = triangle();
    let face = t.mesh.face(t.f).unwrap();
    assert_eq!(face.num_vertices(&t.mesh), 3);
    assert!(face.is_valid(&t.mesh));
    let e0 = t.mesh.edge(t.e[0]).unwrap();
    assert_eq!(e0.adjacent_faces(&t.mesh), vec![t.f, FacePtr::empty()]);
    assert_eq!(face.triangle(&t.mesh), Some((t.v[0], t.v[1], t.v[2])));
    let (a, b, c) = face.triangle(&t.mesh).unwrap();
    assert_eq!(t.mesh.vert(a).unwrap().pos, [0.0, 0.0, 0.0]);
    assert_eq!(t.mesh.vert(b).unwrap().pos, [1.0, 0.0, 0.0]);
    assert_eq!(t.mesh.vert(c).unwrap().pos, [0.0, 1.0, 0.0]);
}

#[test]
fn boundary_edge_is_not_valid_without_pair() {
    let t = triangle();
    let e0 = t.mesh.edge(t.e[0]).unwrap();
    assert!(!e0.is_valid(&t.mesh));
}

#[test]
fn edge_adjacent_verts_are_source_then_target() {
    let t = triangle();
    for k in 0..3 {
        let edge = t.mesh.edge(t.e[k]).unwrap();
        assert_eq!(edge.adjacent_verts(&t.mesh), vec![t.v[k], t.v[(k + 1) % 3]]);
    }
}

#[test]
fn edge_adjacent_verts_with_dangling_next() {
    let mut t = triangle();
    t.mesh.release_edge(t.e[1]);
    let e0 = t.mesh.edge(t.e[0]).unwrap();
    assert_eq!(e0.adjacent_verts(&t.mesh), vec![t.v[0], VertPtr::empty()]);
}

#[test]
fn face_walks_close_after_three_edges() {
    let t = triangle();
    let face = t.mesh.face(t.f).unwrap();
    assert_eq!(face.adjacent_edges(&t.mesh), t.e.to_vec());
    let (walk, end) = t.mesh.walk_edges(t.e[1], Around::Face);
    assert_eq!(walk, vec![t.e[1], t.e[2], t.e[0]]);
    assert_eq!(end, WalkEnd::Closed);
    assert_eq!(face.vert_list(&t.mesh), t.v.to_vec());
}

#[test]
fn face_walk_stops_at_released_edge() {
    let mut t = triangle();
    t.mesh.release_edge(t.e[2]);
    let (walk, end) = t.mesh.walk_edges(t.e[0], Around::Face);
    assert_eq!(walk, vec![t.e[0], t.e[1]]);
    assert_eq!(end, WalkEnd::Dangling);
    let face = t.mesh.face(t.f).unwrap();
    assert_eq!(face.num_vertices(&t.mesh), 2);
    assert_eq!(face.triangle(&t.mesh), None);
}

#[test]
fn walk_from_empty_reference_dangles() {
    let t = triangle();
    let (walk, end) = t.mesh.walk_edges(EdgePtr::empty(), Around::Face);
    assert!(walk.is_empty());
    assert_eq!(end, WalkEnd::Dangling);
}

#[test]
fn walk_that_never_returns_is_unclosed() {
    let mut t = triangle();
    // E0 -> E1 -> E2 -> E1: the walk from E0 never comes back.
    let mut e2 = t.mesh.edge(t.e[2]).unwrap();
    e2.set_next(&t.e[1]);
    assert!(t.mesh.put_edge(t.e[2], e2));
    let (walk, end) = t.mesh.walk_edges(t.e[0], Around::Face);
    assert_eq!(walk, vec![t.e[0], t.e[1], t.e[2]]);
    assert_eq!(end, WalkEnd::Unclosed);
    let face = t.mesh.face(t.f).unwrap();
    assert_eq!(face.num_vertices(&t.mesh), 3);
}

#[test]
fn lazy_vertex_iterator_is_exhausted_for_good() {
    let t = triangle();
    let face = t.mesh.face(t.f).unwrap();
    let mut it = face.adjacent_verts();
    assert_eq!(it.next(&t.mesh), Some(t.v[0]));
    assert_eq!(it.next(&t.mesh), Some(t.v[1]));
    assert_eq!(it.next(&t.mesh), Some(t.v[2]));
    assert_eq!(it.next(&t.mesh), None);
    assert!(it.done);
    assert_eq!(it.next(&t.mesh), None);
    assert_eq!(it.next(&t.mesh), None);
}

#[test]
fn lazy_vertex_iterator_stops_at_released_vertex() {
    let mut t = triangle();
    t.mesh.release_vert(t.v[1]);
    let face = t.mesh.face(t.f).unwrap();
    let mut it = face.adjacent_verts();
    assert_eq!(it.next(&t.mesh), Some(t.v[0]));
    assert_eq!(it.next(&t.mesh), None);
    assert_eq!(it.next(&t.mesh), None);
    assert_eq!(face.vert_list(&t.mesh), vec![t.v[0]]);
}

#[test]
fn releasing_entities_invalidates_references() {
    let mut t = triangle();
    assert!(t.mesh.face(t.f).unwrap().is_valid(&t.mesh));
    t.mesh.release_edge(t.e[0]);
    assert!(!t.mesh.edge_is_valid(t.e[0]));
    assert!(t.mesh.edge(t.e[0]).is_none());
    assert!(!t.mesh.face(t.f).unwrap().is_valid(&t.mesh));
    t.mesh.release_vert(t.v[2]);
    assert!(!t.mesh.vert_is_valid(t.v[2]));
    assert!(t.mesh.vert(t.v[2]).is_none());
    t.mesh.release_face(t.f);
    assert!(!t.mesh.face_is_valid(t.f));
    assert!(t.mesh.face(t.f).is_none());
    // releasing twice changes nothing
    t.mesh.release_face(t.f);
    assert!(!t.mesh.face_is_valid(t.f));
}

#[test]
fn paired_triangles() {
    // two triangles sharing the edge V1-V2, wired with pairs
    let mut t = triangle();
    let v3 = {
        let vert = Vert::new(&mut t.mesh.ids, [1.0, 1.0, 0.0]);
        t.mesh.add_vert(vert)
    };
    let origins = [t.v[2], t.v[1], v3];
    let mut g = [EdgePtr::empty(); 3];
    for k in 0..3 {
        let edge = Edge::with_origin(&mut t.mesh.ids, origins[k]);
        g[k] = t.mesh.add_edge(edge);
    }
    let face2 = Face::with_edge(&mut t.mesh.ids, g[0], [0.0, 0.0, 1.0], [0.0, 0.0, 0.0]);
    let f2 = t.mesh.add_face(face2);
    for k in 0..3 {
        let mut edge = t.mesh.edge(g[k]).unwrap();
        edge.set_next(&g[(k + 1) % 3]);
        edge.set_face(&f2);
        assert!(t.mesh.put_edge(g[k], edge));
    }
    // E1 (V1 -> V2) pairs with G0 (V2 -> V1)
    let mut e1 = t.mesh.edge(t.e[1]).unwrap();
    e1.set_pair(&g[0]);
    assert!(t.mesh.put_edge(t.e[1], e1));
    assert!(!t.mesh.pairs_are_consistent());
    let mut g0 = t.mesh.edge(g[0]).unwrap();
    g0.set_pair(&t.e[1]);
    assert!(t.mesh.put_edge(g[0], g0));
    assert!(t.mesh.pairs_are_consistent());

    let e1 = t.mesh.edge(t.e[1]).unwrap();
    assert!(e1.is_valid(&t.mesh));
    let pair = t.mesh.edge(e1.pair).unwrap();
    assert_eq!(t.mesh.edge(pair.pair).unwrap(), e1);
    assert_eq!(e1.adjacent_faces(&t.mesh), vec![t.f, f2]);
    assert_eq!(pair.adjacent_verts(&t.mesh), vec![t.v[2], t.v[1]]);

    let face = t.mesh.face(t.f).unwrap();
    assert_eq!(face.adjacent_faces(&t.mesh), Vec::<FacePtr>::new());
    // from E1, the face walk meets the shared edge first
    let mut f1 = Face::with_edge(&mut IdGen::new(), t.e[1], [0.0; 3], [0.0; 3]);
    assert_eq!(f1.adjacent_faces(&t.mesh), vec![f2]);
    f1.take_edge(g[0]);
    assert_eq!(f1.adjacent_faces(&t.mesh), vec![t.f]);

    // fan around V1 clockwise from E1: E1, then G0's next (G1, from V1)
    // then around V2 from E2, whose pair dangles
    let fan = e1.adjacent_edges(&t.mesh, t.e[1]);
    assert_eq!(fan, vec![t.e[1], g[1], t.e[2]]);
}

#[test]
fn ids_increase_and_identify() {
    let mut ids = IdGen::new();
    let a = Edge::empty(&mut ids);
    let b = Edge::empty(&mut ids);
    let f = Face::empty(&mut ids, [0.0f32; 3], [0.0f32; 3]);
    assert_eq!(a.id, 1);
    assert_eq!(b.id, 2);
    assert_eq!(f.id, 3);
    assert!(a != b);
    let mut c = a;
    c.take_next(EdgePtr::new(7));
    c.set_origin_rc(4);
    assert!(c == a);
    assert_eq!(c.next, EdgePtr::new(7));
    assert_eq!(c.origin, VertPtr::new(4));
    let mut g = Face::empty(&mut ids, [1.0f32; 3], [1.0f32; 3]);
    assert!(g != f);
    g.id = f.id;
    assert!(g == f);
    assert_eq!(ids.fresh(), 5);
}

#[test]
fn edge_setters_replace_one_link() {
    let mut ids = IdGen::new();
    let mut e = Edge::empty(&mut ids);
    e.set_next_rc(1);
    e.set_pair_rc(2);
    e.set_face_rc(3);
    e.take_origin(VertPtr::new(4));
    assert_eq!(e.next, EdgePtr::new(1));
    assert_eq!(e.pair, EdgePtr::new(2));
    assert_eq!(e.face, FacePtr::new(3));
    assert_eq!(e.origin, VertPtr::new(4));
    e.take_pair(EdgePtr::empty());
    e.take_face(FacePtr::empty());
    e.set_origin(&VertPtr::empty());
    assert_eq!(e.pair, EdgePtr::empty());
    assert_eq!(e.face, FacePtr::empty());
    assert_eq!(e.origin, VertPtr::empty());
    assert_eq!(e.next, EdgePtr::new(1));
}

#[test]
fn face_attributes_are_stored() {
    let mut t = triangle();
    assert!(t.mesh.set_face_attrs(t.f, [1.0 / 3.0, 1.0 / 3.0, 0.0], [0.0, 0.0, 1.0]));
    let face = t.mesh.face(t.f).unwrap();
    assert_eq!(face.center, [1.0 / 3.0, 1.0 / 3.0, 0.0]);
    assert_eq!(face.normal, [0.0, 0.0, 1.0]);
    assert_eq!(face.edge, t.e[0]);
    t.mesh.release_face(t.f);
    assert!(!t.mesh.set_face_attrs(t.f, [0.0; 3], [0.0; 3]));
}
