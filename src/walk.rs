use vstd::prelude::*;
use vstd::set_lib::{lemma_int_range, lemma_len_subset, set_int_range};
use crate::mesh::{edge_index, HalfEdgeMesh};
use crate::ptr::EdgePtr;

verus! {

/// Which cycle of half-edges a walk follows.
#[derive(Clone, Copy, Debug, PartialEq, Eq, Structural)]
pub enum Around {
    /// Along `next`: the boundary of the edge's face.
    Face,
    /// Along `pair` then `next`: the edges leaving the edge's origin, clockwise.
    Origin,
}

/// How a walk ended.
#[derive(Clone, Copy, Debug, PartialEq, Eq, Structural)]
pub enum WalkEnd {
    /// The walk came back to the edge it started from.
    Closed,
    /// A link on the way pointed at nothing or at a released entity.
    Dangling,
    /// The walk took as many steps as the mesh has edge slots without coming
    /// back: the links do not form a cycle through the start.
    Unclosed,
}

impl<P, N> HalfEdgeMesh<P, N> {
    /// The slot one step after slot `i`, when every link of the step is held.
    pub open spec fn step(&self, i: int, around: Around) -> Option<int> {
        if !self.edge_slot_live(i) {
            None
        } else {
            match around {
                Around::Face => {
                    let n = edge_index(self.edge_in(i).next);
                    if self.edge_slot_live(n) {
                        Some(n)
                    } else {
                        None
                    }
                },
                Around::Origin => {
                    let p = edge_index(self.edge_in(i).pair);
                    if self.edge_slot_live(p) {
                        let n = edge_index(self.edge_in(p).next);
                        if self.edge_slot_live(n) {
                            Some(n)
                        } else {
                            None
                        }
                    } else {
                        None
                    }
                },
            }
        }
    }

    /// The slot reached after `k` steps from slot `s`; `None` once a link
    /// dangles.
    pub open spec fn orbit(&self, s: int, k: nat, around: Around) -> Option<int>
        decreases k,
    {
        if k == 0 {
            if self.edge_slot_live(s) {
                Some(s)
            } else {
                None
            }
        } else {
            match self.orbit(s, (k - 1) as nat, around) {
                Some(c) => self.step(c, around),
                None => None,
            }
        }
    }

    /// The walk from `s` still yields an edge at step `k`: every link so far
    /// is held and the walk has not yet come back to `s`.
    pub open spec fn walk_goes_on(&self, s: int, k: nat, around: Around) -> bool {
        self.orbit(s, k, around) is Some && (k > 0 ==> self.orbit(s, k, around) != Some(s))
    }

    /// The walk from `s` goes on through every step before `n`.
    pub open spec fn walk_goes_on_upto(&self, s: int, n: nat, around: Around) -> bool {
        forall|k: nat| k < n ==> #[trigger] self.walk_goes_on(s, k, around)
    }

    /// The walk from `s` stops after listing `n` edges: it went on through
    /// every step before `n`, and at `n` it ends or reaches the listing limit.
    pub open spec fn walk_stops_at(&self, s: int, n: nat, around: Around) -> bool {
        &&& n <= self.edges@.len()
        &&& self.walk_goes_on_upto(s, n, around)
        &&& (n == self.edges@.len() || !self.walk_goes_on(s, n, around))
    }

    /// References to the first `n` edges of the walk from `s`.
    pub open spec fn walk_seq(&self, s: int, n: nat, around: Around) -> Seq<EdgePtr> {
        Seq::new(n, |k: int| EdgePtr { slot: Some(self.orbit(s, k as nat, around).unwrap() as usize) })
    }

    /// Every slot that a walk reaches holds an edge.
    pub proof fn lemma_orbit_live(&self, s: int, k: nat, around: Around)
        ensures
            self.orbit(s, k, around) is Some ==> self.edge_slot_live(
                self.orbit(s, k, around).unwrap(),
            ),
    {
        if k > 0 {
            match self.orbit(s, (k - 1) as nat, around) {
                Some(_) => {},
                None => {},
            }
        }
    }

    /// Steps depend on the slot alone: two points of a walk at the same slot
    /// stay together.
    pub proof fn lemma_orbit_shift(&self, s: int, i: nat, j: nat, t: nat, around: Around)
        requires
            self.orbit(s, i, around) == self.orbit(s, j, around),
        ensures
            self.orbit(s, i + t, around) == self.orbit(s, j + t, around),
        decreases t,
    {
        if t > 0 {
            self.lemma_orbit_shift(s, i, j, (t - 1) as nat, around);
            assert(((i + t) - 1) as nat == i + (t - 1) as nat);
            assert(((j + t) - 1) as nat == j + (t - 1) as nat);
        }
    }

    /// A walk that comes back to its start after `n` steps meets `n` distinct
    /// slots on the way, so `n` is at most the number of edge slots.
    pub proof fn lemma_closed_walk_within_slots(&self, s: int, n: nat, around: Around)
        requires
            n > 0,
            self.walk_goes_on_upto(s, n, around),
            self.orbit(s, n, around) == Some(s),
        ensures
            n <= self.edges@.len(),
    {
        let slots = Seq::new(n, |k: int| self.orbit(s, k as nat, around).unwrap());
        assert forall|a: int, b: int| 0 <= a < b < n implies slots[a] != slots[b] by {
            assert(self.walk_goes_on(s, a as nat, around));
            assert(self.walk_goes_on(s, b as nat, around));
            if slots[a] == slots[b] {
                self.lemma_orbit_shift(s, a as nat, b as nat, (n - b) as nat, around);
                assert(b + (n - b) as nat == n);
                let k = (a + (n - b)) as nat;
                assert(0 < k < n);
                assert(self.walk_goes_on(s, k, around));
            }
        }
        assert(slots.no_duplicates());
        slots.unique_seq_to_set();
        assert forall|x: int| slots.to_set().contains(x) implies set_int_range(
            0,
            self.edges@.len() as int,
        ).contains(x) by {
            let k = choose|k: int| 0 <= k < slots.len() && slots[k] == x;
            assert(self.walk_goes_on(s, k as nat, around));
            self.lemma_orbit_live(s, k as nat, around);
        }
        lemma_int_range(0, self.edges@.len() as int);
        lemma_len_subset(slots.to_set(), set_int_range(0, self.edges@.len() as int));
    }

    /// One step from the edge held in slot `i`.
    pub fn step_from(&self, i: usize, around: Around) -> (r: Option<usize>)
        ensures
            match r {
                Some(n) => self.step(i as int, around) == Some(n as int),
                None => self.step(i as int, around) is None,
            },
    {
        if i >= self.edges.len() {
            return None;
        }
        match self.edges[i] {
            None => None,
            Some(e) => match around {
                Around::Face => if self.edge_is_valid(e.next) {
                    e.next.slot
                } else {
                    None
                },
                Around::Origin => if self.edge_is_valid(e.pair) {
                    let p = e.pair.slot.unwrap();
                    let q = self.edges[p].unwrap();
                    if self.edge_is_valid(q.next) {
                        q.next.slot
                    } else {
                        None
                    }
                } else {
                    None
                },
            },
        }
    }

    /// A listing that agrees with the walk slot by slot is the walk's own list.
    proof fn lemma_walk_seq_of(&self, s: int, v: Seq<EdgePtr>, around: Around)
        requires
            forall|k: int|
                0 <= k < v.len() ==> Some(edge_index(#[trigger] v[k])) == self.orbit(
                    s,
                    k as nat,
                    around,
                ),
        ensures
            v == self.walk_seq(s, v.len() as nat, around),
    {
        assert forall|k: int| 0 <= k < v.len() implies #[trigger] v[k] == self.walk_seq(
            s,
            v.len() as nat,
            around,
        )[k] by {
            assert(Some(edge_index(v[k])) == self.orbit(s, k as nat, around));
        }
        assert(v =~= self.walk_seq(s, v.len() as nat, around));
    }

    /// Walks the cycle through `start` and lists the edges met, `start`
    /// first, until the walk comes back to `start`, a link dangles, or the
    /// walk has listed as many edges as the mesh has edge slots.
    pub fn walk_edges(&self, start: EdgePtr, around: Around) -> (r: (Vec<EdgePtr>, WalkEnd))
        ensures
            r.0@.len() <= self.edges@.len(),
            self.walk_stops_at(edge_index(start), r.0@.len() as nat, around),
            r.0@ == self.walk_seq(edge_index(start), r.0@.len() as nat, around),
            forall|k: int|
                0 <= k < r.0@.len() ==> Some(edge_index(#[trigger] r.0@[k])) == self.orbit(
                    edge_index(start),
                    k as nat,
                    around,
                ),
            r.1 == WalkEnd::Closed <==> (r.0@.len() > 0 && self.orbit(
                edge_index(start),
                r.0@.len() as nat,
                around,
            ) == Some(edge_index(start))),
            r.1 == WalkEnd::Dangling <==> self.orbit(
                edge_index(start),
                r.0@.len() as nat,
                around,
            ) is None,
            r.1 == WalkEnd::Unclosed ==> r.0@.len() == self.edges@.len(),
    {
        let mut out: Vec<EdgePtr> = Vec::new();
        if !self.edge_is_valid(start) {
            assert(out@ =~= self.walk_seq(edge_index(start), 0, around));
            return (out, WalkEnd::Dangling);
        }
        let s = start.slot.unwrap();
        let limit = self.edges.len();
        let mut cur: usize = s;
        out.push(start);
        assert(self.walk_goes_on(s as int, 0, around));
        loop
            invariant
                1 <= out@.len() <= limit,
                limit == self.edges@.len(),
                s as int == edge_index(start),
                self.walk_goes_on_upto(s as int, out@.len() as nat, around),
                forall|k: int|
                    0 <= k < out@.len() ==> Some(edge_index(#[trigger] out@[k])) == self.orbit(
                        s as int,
                        k as nat,
                        around,
                    ),
                self.orbit(s as int, (out@.len() - 1) as nat, around) == Some(cur as int),
            decreases limit - out@.len(),
        {
            let n = self.step_from(cur, around);
            assert(self.orbit(s as int, out@.len() as nat, around) == self.step(cur as int, around));
            proof {
                self.lemma_walk_seq_of(s as int, out@, around);
            }
            match n {
                None => {
                    return (out, WalkEnd::Dangling);
                },
                Some(n) => {
                    if n == s {
                        return (out, WalkEnd::Closed);
                    }
                    if out.len() == limit {
                        return (out, WalkEnd::Unclosed);
                    }
                    let ghost before = out@.len();
                    out.push(EdgePtr::new(n));
                    assert forall|k: nat| k < out@.len() implies #[trigger] self.walk_goes_on(
                        s as int,
                        k,
                        around,
                    ) by {
                        if k < before {
                            assert(self.walk_goes_on(s as int, k, around));
                        }
                    }
                    cur = n;
                },
            }
        }
    }
}

} // verus!
