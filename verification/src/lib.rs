//! A verified model of a drone node in a simulated overlay network running a
//! multi-hop, source-routed packet protocol.
//!
//! The drone forwards data packets along sender-chosen routes, answers failed
//! forwards with negative acknowledgements built over the reverse path,
//! participates in network-discovery floods with deduplication, drops data
//! fragments probabilistically, and obeys a controller that can reconfigure
//! its neighbourhood, change its loss rate, and ask it to shut down.
//!
//! The crate is the decision core: a state machine from drone state and input
//! event to next state and a list of output actions. The surrounding process
//! (channel plumbing, the biased two-port wait) performs the actions.

use vstd::prelude::*;

pub mod configuration;
pub mod laws;
pub mod packet;
pub mod packet_processing;
pub mod packet_sending;
pub mod supervisor;

use packet::NodeId;

verus! {

/// Fixed-point scale for the packet drop rate: a rate is a value in
/// `0 ..= PDR_SCALE`, standing for a probability in `[0, 1]`.
pub const PDR_SCALE: u64 = 4294967296;

/// Lifecycle of a drone: `Working` until a crash command arrives, then
/// `Crashing` while in-flight packets drain.
#[derive(Clone, Copy, Debug, PartialEq, Eq)]
pub enum State {
    Working,
    Crashing,
}

/// A condition that must halt the drone: it reveals a bug in the controller
/// or in an upstream node, never an ordinary network failure.
#[derive(Clone, Copy, Debug, PartialEq, Eq)]
pub enum FatalError {
    /// A drop rate outside `0 ..= PDR_SCALE` was requested.
    InvalidPdr,
    /// A neighbour with the drone's own id was to be added.
    SelfLoop,
    /// A neighbour that does not exist was to be removed.
    UnknownNeighbor,
    /// A routed packet arrived with an empty path.
    EmptyRoutingHeader,
    /// A routed packet arrived with `hop_index` past the end of its path.
    HopIndexOutOfBounds,
    /// A routed packet arrived with `hop_index` zero.
    HopIndexZero,
    /// A flood request arrived with an empty path trace.
    EmptyPathTrace,
    /// The controller released its command port.
    ControllerPortClosed,
    /// The ingress port closed before any crash command arrived.
    IngressClosedWhileWorking,
}

/// The drone's private state: its identity, its drop rate, the set of
/// neighbours it can reach, the floods it has already propagated, and its
/// lifecycle phase.
#[derive(Clone, Debug)]
pub struct MyDrone {
    pub id: NodeId,
    pub pdr: u64,
    pub neighbors: Vec<NodeId>,
    pub known_flood_ids: Vec<(u64, NodeId)>,
    pub state: State,
}

/// View of the drone state.
pub struct SpecDrone {
    pub id: NodeId,
    pub pdr: u64,
    pub neighbors: Seq<NodeId>,
    pub known_flood_ids: Seq<(u64, NodeId)>,
    pub state: State,
}

impl View for MyDrone {
    type V = SpecDrone;

    open spec fn view(&self) -> SpecDrone {
        SpecDrone {
            id: self.id,
            pdr: self.pdr,
            neighbors: self.neighbors@,
            known_flood_ids: self.known_flood_ids@,
            state: self.state,
        }
    }
}

impl SpecDrone {
    /// The invariant every drone maintains: the drop rate is a probability,
    /// the drone is not its own neighbour, and both the neighbour table and
    /// the flood-deduplication set hold each entry once.
    pub open spec fn wf(self) -> bool {
        &&& self.pdr <= PDR_SCALE
        &&& !self.neighbors.contains(self.id)
        &&& self.neighbors.no_duplicates()
        &&& self.known_flood_ids.no_duplicates()
    }
}

impl MyDrone {
    /// The drone's invariant, on the executable value.
    pub open spec fn wf(self) -> bool {
        self@.wf()
    }

    /// Creates a drone, rejecting a drop rate outside `0 ..= PDR_SCALE` and a
    /// neighbour set that contains the drone's own id. An invalid drop rate
    /// is reported first, as configuration happens in that order.
    pub fn new(id: NodeId, neighbors: Vec<NodeId>, pdr: i64) -> (r: Result<MyDrone, FatalError>)
        requires
            neighbors@.no_duplicates(),
        ensures
            !(0 <= pdr <= PDR_SCALE) ==> r == Err::<MyDrone, FatalError>(FatalError::InvalidPdr),
            0 <= pdr <= PDR_SCALE && neighbors@.contains(id) ==> r == Err::<MyDrone, FatalError>(
                FatalError::SelfLoop,
            ),
            0 <= pdr <= PDR_SCALE && !neighbors@.contains(id) ==> {
                &&& r is Ok
                &&& r->Ok_0@ == (SpecDrone {
                    id,
                    pdr: pdr as u64,
                    neighbors: neighbors@,
                    known_flood_ids: Seq::<(u64, NodeId)>::empty(),
                    state: State::Working,
                })
                &&& r->Ok_0.wf()
            },
    {
        let mut result = MyDrone {
            id,
            pdr: 0,
            neighbors: Vec::new(),
            known_flood_ids: Vec::new(),
            state: State::Working,
        };
        if let Err(e) = result.set_pdr(pdr) {
            return Err(e);
        }
        let n = neighbors.len();
        for i in 0..n
            invariant
                n == neighbors@.len(),
                0 <= pdr <= PDR_SCALE,
                result.id == id,
                result.pdr == pdr as u64,
                result.state == State::Working,
                result.known_flood_ids@ == Seq::<(u64, NodeId)>::empty(),
                neighbors@.no_duplicates(),
                forall|j: int| 0 <= j < i ==> neighbors@[j] != id,
                result.neighbors@ == neighbors@.take(i as int),
        {
            let node_id = neighbors[i];
            if let Err(e) = result.add_channel(node_id) {
                return Err(e);
            }
            proof {
                assert(neighbors@.take(i as int).contains(node_id) ==> !neighbors@.no_duplicates());
                assert(neighbors@.take(i + 1) =~= neighbors@.take(i as int).push(node_id));
            }
        }
        proof {
            assert(neighbors@.take(n as int) =~= neighbors@);
        }
        Ok(result)
    }
}

} // verus!
