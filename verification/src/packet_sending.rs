//! Egress: deciding where a packet goes and which events the controller
//! hears about, including the construction of reverse-path negative
//! acknowledgements and the probabilistic drop of data fragments.

use vstd::prelude::*;

use crate::packet::{
    Nack, NackType, NodeId, Packet, PacketType, SourceRoutingHeader, SpecHeader, SpecPacket,
    SpecPacketType,
};
use crate::{MyDrone, SpecDrone, PDR_SCALE};

verus! {

/// What the drone reports to the simulation controller.
#[derive(Clone, Debug, PartialEq, Eq)]
pub enum DroneEvent {
    /// A packet left on a neighbour port; its `hop_index` names the recipient.
    PacketSent(Packet),
    /// A data fragment fell to the probabilistic drop; its `hop_index` names
    /// what would have been the next hop.
    PacketDropped(Packet),
    /// An undroppable packet whose next hop is no longer a neighbour; the
    /// controller re-injects it out of band.
    ControllerShortcut(Packet),
}

/// One step of output: a packet handed to a neighbour port, or an event
/// handed to the controller. Actions are performed in list order.
#[derive(Clone, Debug, PartialEq, Eq)]
pub enum Action {
    ToNeighbor(NodeId, Packet),
    ToController(DroneEvent),
}

/// View of a controller event.
pub enum SpecDroneEvent {
    PacketSent(SpecPacket),
    PacketDropped(SpecPacket),
    ControllerShortcut(SpecPacket),
}

/// View of an output action.
pub enum SpecAction {
    ToNeighbor(NodeId, SpecPacket),
    ToController(SpecDroneEvent),
}

impl View for DroneEvent {
    type V = SpecDroneEvent;

    open spec fn view(&self) -> SpecDroneEvent {
        match self {
            DroneEvent::PacketSent(p) => SpecDroneEvent::PacketSent(p@),
            DroneEvent::PacketDropped(p) => SpecDroneEvent::PacketDropped(p@),
            DroneEvent::ControllerShortcut(p) => SpecDroneEvent::ControllerShortcut(p@),
        }
    }
}

impl View for Action {
    type V = SpecAction;

    open spec fn view(&self) -> SpecAction {
        match self {
            Action::ToNeighbor(d, p) => SpecAction::ToNeighbor(*d, p@),
            Action::ToController(e) => SpecAction::ToController(e@),
        }
    }
}

impl DeepView for Action {
    type V = SpecAction;

    open spec fn deep_view(&self) -> SpecAction {
        self@
    }
}

// ---------------------------------------------------------------------------
// The NACK constructor
// ---------------------------------------------------------------------------

/// The negative acknowledgement answering packet `p` at position `k` of its
/// path: the path up to and including `k`, reversed, already consumed by the
/// node at `k` (so the next recipient sits at local index 1), with the
/// offending fragment's index and the same session.
pub open spec fn spec_nack_packet(p: SpecPacket, k: int, nack_type: NackType) -> SpecPacket
    recommends
        0 <= k < p.routing_header.hops.len(),
{
    SpecPacket {
        pack_type: SpecPacketType::Nack(
            Nack { fragment_index: p.nack_fragment_index(), nack_type },
        ),
        routing_header: SpecHeader { hops: p.routing_header.hops.take(k + 1).reverse(), hop_index: 1 },
        session_id: p.session_id,
    }
}

/// Builds the NACK answering `packet` at position `k` of its path.
pub fn make_nack(packet: &Packet, k: usize, nack_type: NackType) -> (r: Packet)
    requires
        k < packet@.routing_header.hops.len(),
    ensures
        r@ == spec_nack_packet(packet@, k as int, nack_type),
{
    let fragment_index = match &packet.pack_type {
        PacketType::MsgFragment(f) => f.fragment_index,
        _ => 0,
    };
    let ghost rev = packet@.routing_header.hops.take(k + 1).reverse();
    let mut hops: Vec<NodeId> = Vec::new();
    let len = packet.routing_header.hops.len();
    proof {
        assert(k < len);
    }
    let end = k + 1;
    for j in 0..end
        invariant
            end == k + 1,
            k < packet@.routing_header.hops.len(),
            rev == packet@.routing_header.hops.take(k + 1).reverse(),
            hops@ == rev.take(j as int),
    {
        hops.push(packet.routing_header.hops[k - j]);
        proof {
            assert(rev[j as int] == packet@.routing_header.hops.take(k + 1)[k - j]);
            assert(rev.take(j + 1) =~= rev.take(j as int).push(rev[j as int]));
        }
    }
    proof {
        assert(rev.take(end as int) =~= rev);
    }
    Packet {
        pack_type: PacketType::Nack(Nack { fragment_index, nack_type }),
        routing_header: SourceRoutingHeader { hops, hop_index: 1 },
        session_id: packet.session_id,
    }
}

// ---------------------------------------------------------------------------
// The egress decision table
// ---------------------------------------------------------------------------

/// Whether a draw below the drop rate fell: drawn values are uniform over
/// `0 .. PDR_SCALE`, so a rate of `0` never drops and a rate of `PDR_SCALE`
/// always drops.
pub open spec fn spec_should_drop(draw: u64, pdr: u64) -> bool {
    draw < pdr
}

/// The node a packet is addressed to: the path entry under `hop_index`,
/// which egress expects to point at the intended next recipient.
pub open spec fn spec_destination(p: SpecPacket) -> NodeId
    recommends
        0 <= p.routing_header.hop_index < p.routing_header.hops.len(),
{
    p.routing_header.hops[p.routing_header.hop_index]
}

/// Egress of a packet that may not be lost (Ack, Nack, FloodResponse): to
/// the neighbour port when the destination is a neighbour, to the controller
/// as a shortcut when it is not.
pub open spec fn spec_send_undroppable(st: SpecDrone, p: SpecPacket) -> Seq<SpecAction> {
    let d = spec_destination(p);
    if st.neighbors.contains(d) {
        seq![
            SpecAction::ToNeighbor(d, p),
            SpecAction::ToController(SpecDroneEvent::PacketSent(p)),
        ]
    } else {
        seq![SpecAction::ToController(SpecDroneEvent::ControllerShortcut(p))]
    }
}

/// The full egress decision table, for a packet whose `hop_index` points at
/// the intended next recipient. A fragment addressed to a neighbour falls to
/// the drop draw: dropped, it is reported and answered with a `Dropped` NACK
/// toward the previous hop. A fragment addressed past a missing neighbour is
/// answered with an `ErrorInRouting` NACK. Undroppable packets take the
/// shortcut. A flood request is only ever addressed to a neighbour.
pub open spec fn spec_send(st: SpecDrone, p: SpecPacket, drop: bool) -> Seq<SpecAction>
    recommends
        1 <= p.routing_header.hop_index < p.routing_header.hops.len(),
        p.is_fragment() ==> p.routing_header.hop_index >= 2,
        p.is_flood_request() ==> st.neighbors.contains(spec_destination(p)),
{
    let d = spec_destination(p);
    if st.neighbors.contains(d) {
        if p.is_fragment() && drop {
            let nack = spec_nack_packet(p, p.routing_header.hop_index - 1, NackType::Dropped);
            seq![SpecAction::ToController(SpecDroneEvent::PacketDropped(p))]
                + spec_send_undroppable(st, nack)
        } else {
            seq![
                SpecAction::ToNeighbor(d, p),
                SpecAction::ToController(SpecDroneEvent::PacketSent(p)),
            ]
        }
    } else {
        if p.is_fragment() {
            spec_send_undroppable(
                st,
                spec_nack_packet(p, p.routing_header.hop_index - 1, NackType::ErrorInRouting(d)),
            )
        } else if p.is_flood_request() {
            Seq::empty()
        } else {
            seq![SpecAction::ToController(SpecDroneEvent::ControllerShortcut(p))]
        }
    }
}

impl MyDrone {
    /// True when `d` is a registered neighbour.
    pub fn has_neighbor(&self, d: NodeId) -> (r: bool)
        ensures
            r == self@.neighbors.contains(d),
    {
        let n = self.neighbors.len();
        for i in 0..n
            invariant
                n == self@.neighbors.len(),
                forall|j: int| 0 <= j < i ==> self@.neighbors[j] != d,
        {
            if self.neighbors[i] == d {
                return true;
            }
        }
        false
    }

    /// Sends a packet that may not be lost, to its neighbour or out of band.
    pub fn send_undroppable(&self, packet: Packet) -> (r: Vec<Action>)
        requires
            packet@.is_undroppable(),
            0 <= packet@.routing_header.hop_index < packet@.routing_header.hops.len(),
        ensures
            r.deep_view() == spec_send_undroppable(self@, packet@),
    {
        let dest = packet.routing_header.hops[packet.routing_header.hop_index];
        let mut r: Vec<Action> = Vec::new();
        if self.has_neighbor(dest) {
            r.push(Action::ToNeighbor(dest, packet.duplicate()));
            r.push(Action::ToController(DroneEvent::PacketSent(packet)));
            proof {
                assert(r.deep_view() =~= spec_send_undroppable(self@, packet@));
            }
        } else {
            r.push(Action::ToController(DroneEvent::ControllerShortcut(packet)));
            proof {
                assert(r.deep_view() =~= spec_send_undroppable(self@, packet@));
            }
        }
        r
    }

    /// Egress entry point: applies the decision table to a packet whose
    /// `hop_index` the caller has already advanced to the intended next
    /// recipient, with `draw` deciding the probabilistic drop.
    pub fn send_packet(&self, packet: Packet, draw: u64) -> (r: Vec<Action>)
        requires
            draw < PDR_SCALE,
            1 <= packet@.routing_header.hop_index < packet@.routing_header.hops.len(),
            packet@.is_fragment() ==> packet@.routing_header.hop_index >= 2,
            packet@.is_flood_request() ==> self@.neighbors.contains(spec_destination(packet@)),
        ensures
            r.deep_view() == spec_send(self@, packet@, spec_should_drop(draw, self@.pdr)),
    {
        let hop_index = packet.routing_header.hop_index;
        let dest = packet.routing_header.hops[hop_index];
        let is_fragment = matches!(&packet.pack_type, PacketType::MsgFragment(_));
        if self.has_neighbor(dest) {
            if is_fragment && draw < self.pdr {
                let nack = make_nack(&packet, hop_index - 1, NackType::Dropped);
                let mut r: Vec<Action> = Vec::new();
                r.push(Action::ToController(DroneEvent::PacketDropped(packet)));
                let ghost head = r.deep_view();
                proof {
                    assert(head =~= seq![
                        SpecAction::ToController(SpecDroneEvent::PacketDropped(packet@)),
                    ]);
                    assert(nack@.routing_header.hops.len() == hop_index as int);
                }
                let mut rest = self.send_undroppable(nack);
                let ghost tail = rest.deep_view();
                r.append(&mut rest);
                proof {
                    assert forall|i: int| 0 <= i < r@.len() implies r.deep_view()[i] == (head
                        + tail)[i] by {}
                    assert(r.deep_view() =~= head + tail);
                }
                r
            } else {
                let mut r: Vec<Action> = Vec::new();
                r.push(Action::ToNeighbor(dest, packet.duplicate()));
                r.push(Action::ToController(DroneEvent::PacketSent(packet)));
                proof {
                    assert(r.deep_view() =~= spec_send(
                        self@,
                        packet@,
                        spec_should_drop(draw, self@.pdr),
                    ));
                }
                r
            }
        } else {
            match &packet.pack_type {
                PacketType::MsgFragment(_) => {
                    let nack = make_nack(&packet, hop_index - 1, NackType::ErrorInRouting(dest));
                    proof {
                        assert(nack@.routing_header.hops.len() == hop_index as int);
                    }
                    self.send_undroppable(nack)
                },
                PacketType::FloodRequest(_) => {
                    // excluded by the contract: a flood request is only ever
                    // addressed to a neighbour
                    proof {
                        assert(false);
                    }
                    Vec::new()
                },
                _ => {
                    let mut r: Vec<Action> = Vec::new();
                    r.push(Action::ToController(DroneEvent::ControllerShortcut(packet)));
                    proof {
                        assert(r.deep_view() =~= spec_send(
                            self@,
                            packet@,
                            spec_should_drop(draw, self@.pdr),
                        ));
                    }
                    r
                },
            }
        }
    }
}

/// Relies on `rand::Rng::gen_range` over `0 .. PDR_SCALE`: a uniform draw
/// strictly below the bound (the range is never empty, so it cannot panic).
#[verifier::external_body]
pub fn draw_drop_value() -> (r: u64)
    ensures
        r < PDR_SCALE,
{
    rand::Rng::gen_range(&mut rand::thread_rng(), 0..PDR_SCALE)
}

} // verus!
