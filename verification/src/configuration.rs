//! Configuration of a running drone: drop rate, neighbour table, lifecycle.
//!
//! Every failure here is fatal to the drone — it reveals a controller
//! programming error — so each operation reports exactly when it fails and
//! leaves the state untouched in that case.

use vstd::prelude::*;

use crate::packet::NodeId;
use crate::{FatalError, MyDrone, SpecDrone, State, PDR_SCALE};

verus! {

/// Finds the first index holding `x`, if any.
fn index_of(v: &Vec<NodeId>, x: NodeId) -> (r: Option<usize>)
    ensures
        match r {
            Some(i) => 0 <= i < v@.len() && v@[i as int] == x && (forall|j: int|
                0 <= j < i ==> v@[j] != x),
            None => !v@.contains(x),
        },
{
    let n = v.len();
    for i in 0..n
        invariant
            n == v@.len(),
            forall|j: int| 0 <= j < i ==> v@[j] != x,
    {
        if v[i] == x {
            return Some(i);
        }
    }
    None
}

/// Removing one entry of a duplicate-free sequence keeps it duplicate-free
/// and cannot make it contain anything it did not contain.
proof fn lemma_remove_keeps_distinct(s: Seq<NodeId>, i: int, x: NodeId)
    requires
        0 <= i < s.len(),
        s.no_duplicates(),
        !s.contains(x),
    ensures
        s.remove(i).no_duplicates(),
        !s.remove(i).contains(x),
{
    s.remove_ensures(i);
    let t = s.remove(i);
    assert forall|p: int, q: int| 0 <= p < q < t.len() implies t[p] != t[q] by {
        if q < i {
            assert(t[p] == s[p] && t[q] == s[q]);
        } else if p < i {
            assert(t[p] == s[p] && t[q] == s[q + 1]);
        } else {
            assert(t[p] == s[p + 1] && t[q] == s[q + 1]);
        }
    }
    if t.contains(x) {
        let w = choose|w: int| 0 <= w < t.len() && t[w] == x;
        if w < i {
            assert(s[w] == x);
        } else {
            assert(s[w + 1] == x);
        }
    }
}

impl MyDrone {
    /// Replaces the drop rate. Fails with `InvalidPdr`, changing nothing,
    /// exactly when the requested rate lies outside `0 ..= PDR_SCALE`.
    pub fn set_pdr(&mut self, pdr: i64) -> (r: Result<(), FatalError>)
        ensures
            0 <= pdr <= PDR_SCALE ==> r is Ok && final(self)@ == (SpecDrone {
                pdr: pdr as u64,
                ..old(self)@
            }),
            !(0 <= pdr <= PDR_SCALE) ==> r == Err::<(), FatalError>(FatalError::InvalidPdr)
                && *final(self) == *old(self),
    {
        if 0 <= pdr && pdr <= PDR_SCALE as i64 {
            self.pdr = pdr as u64;
            Ok(())
        } else {
            Err(FatalError::InvalidPdr)
        }
    }

    /// Registers `id` as a neighbour. Fails with `SelfLoop`, changing
    /// nothing, exactly when `id` is the drone's own id; registering an
    /// existing neighbour again replaces its port and leaves the set as it
    /// was.
    pub fn add_channel(&mut self, id: NodeId) -> (r: Result<(), FatalError>)
        ensures
            id == old(self).id ==> r == Err::<(), FatalError>(FatalError::SelfLoop) && *final(self)
                == *old(self),
            id != old(self).id ==> r is Ok && final(self)@ == (SpecDrone {
                neighbors: if old(self)@.neighbors.contains(id) {
                    old(self)@.neighbors
                } else {
                    old(self)@.neighbors.push(id)
                },
                ..old(self)@
            }),
            old(self).wf() ==> final(self).wf(),
    {
        if id == self.id {
            return Err(FatalError::SelfLoop);
        }
        if index_of(&self.neighbors, id).is_none() {
            self.neighbors.push(id);
            proof {
                let s = old(self)@.neighbors;
                if old(self).wf() {
                    assert forall|p: int, q: int|
                        0 <= p < q < s.push(id).len() implies s.push(id)[p] != s.push(id)[q] by {
                        if q < s.len() {
                        } else {
                            assert(s.push(id)[q] == id);
                            assert(s.push(id)[p] == s[p]);
                            assert(s[p] != id) by {
                                if s[p] == id {
                                    assert(s.contains(id));
                                }
                            }
                        }
                    }
                    assert(!s.push(id).contains(self.id)) by {
                        if s.push(id).contains(self.id) {
                            let w = choose|w: int|
                                0 <= w < s.push(id).len() && s.push(id)[w] == self.id;
                            if w < s.len() {
                                assert(s.contains(self.id));
                            }
                        }
                    }
                }
            }
        }
        Ok(())
    }

    /// Unregisters a neighbour. Fails with `UnknownNeighbor`, changing
    /// nothing, exactly when `node_id` is not a neighbour.
    pub fn remove_channel(&mut self, node_id: NodeId) -> (r: Result<(), FatalError>)
        ensures
            !old(self)@.neighbors.contains(node_id) ==> r == Err::<(), FatalError>(
                FatalError::UnknownNeighbor,
            ) && *final(self) == *old(self),
            old(self)@.neighbors.contains(node_id) ==> r is Ok && final(self)@ == (SpecDrone {
                neighbors: old(self)@.neighbors.remove_value(node_id),
                ..old(self)@
            }),
            old(self).wf() ==> final(self).wf(),
    {
        match index_of(&self.neighbors, node_id) {
            Some(i) => {
                proof {
                    let s = self@.neighbors;
                    assert(s.contains(node_id)) by {
                        assert(s[i as int] == node_id);
                    }
                    s.index_of_first_ensures(node_id);
                    match s.index_of_first(node_id) {
                        Some(idx) => {
                            assert(idx == i as int) by {
                                if idx < i as int {
                                    assert(s[idx] != node_id);
                                } else if idx > i as int {
                                    assert(s[i as int] != node_id);
                                }
                            }
                        },
                        None => {},
                    }
                    if old(self).wf() {
                        lemma_remove_keeps_distinct(s, i as int, self.id);
                    }
                }
                self.neighbors.remove(i);
                Ok(())
            },
            None => Err(FatalError::UnknownNeighbor),
        }
    }

    /// Replaces the lifecycle state, unconditionally.
    pub fn set_state(&mut self, state: State)
        ensures
            final(self)@ == (SpecDrone { state, ..old(self)@ }),
    {
        self.state = state;
    }
}

} // verus!
