//! Half-edge mesh topology kept in arenas: vertices, directed half-edges and
//! faces refer to one another through slot indices, so a released entity leaves
//! a tombstone and every reference to it reports itself invalid.
pub mod ptr;
pub mod ids;
pub mod edge;
pub mod vert;
pub mod face;
pub mod mesh;
pub mod walk;
pub mod iterators;

pub use edge::Edge;
pub use face::Face;
pub use ids::IdGen;
pub use iterators::FaceAdjacentVertIterator;
pub use mesh::HalfEdgeMesh;
pub use ptr::{EdgePtr, FacePtr, VertPtr};
pub use vert::Vert;
pub use walk::{Around, WalkEnd};
