use vstd::prelude::*;

verus! {

/// A non-owning reference to an edge: the slot that the edge occupies in its
/// mesh, or nothing.
#[derive(Clone, Copy, Debug, PartialEq, Eq, Structural)]
pub struct EdgePtr {
    pub slot: Option<usize>,
}

/// A non-owning reference to a vertex.
#[derive(Clone, Copy, Debug, PartialEq, Eq, Structural)]
pub struct VertPtr {
    pub slot: Option<usize>,
}

/// A non-owning reference to a face.
#[derive(Clone, Copy, Debug, PartialEq, Eq, Structural)]
pub struct FacePtr {
    pub slot: Option<usize>,
}

impl EdgePtr {
    /// A reference that points at nothing.
    pub fn empty() -> (r: EdgePtr)
        ensures
            r.slot is None,
    {
        EdgePtr { slot: None }
    }

    /// A reference to the edge held in `slot`.
    pub fn new(slot: usize) -> (r: EdgePtr)
        ensures
            r.slot == Some(slot),
    {
        EdgePtr { slot: Some(slot) }
    }
}

impl VertPtr {
    /// A reference that points at nothing.
    pub fn empty() -> (r: VertPtr)
        ensures
            r.slot is None,
    {
        VertPtr { slot: None }
    }

    /// A reference to the vertex held in `slot`.
    pub fn new(slot: usize) -> (r: VertPtr)
        ensures
            r.slot == Some(slot),
    {
        VertPtr { slot: Some(slot) }
    }
}

impl FacePtr {
    /// A reference that points at nothing.
    pub fn empty() -> (r: FacePtr)
        ensures
            r.slot is None,
    {
        FacePtr { slot: None }
    }

    /// A reference to the face held in `slot`.
    pub fn new(slot: usize) -> (r: FacePtr)
        ensures
            r.slot == Some(slot),
    {
        FacePtr { slot: Some(slot) }
    }
}

} // verus!
