//! Packet processing: validating source-routed packets at this hop and
//! advancing them (the routed path), and answering or propagating
//! network-discovery floods (the flood path).

use vstd::prelude::*;

use crate::packet::{
    FloodRequest, FloodResponse, NackType, NodeId, NodeType, Packet, PacketType,
    SourceRoutingHeader, SpecFloodRequest, SpecFloodResponse, SpecHeader, SpecPacket,
    SpecPacketType, vec_dup,
};
use crate::packet_sending::{
    draw_drop_value, make_nack, spec_destination, spec_nack_packet, spec_send,
    spec_send_undroppable, spec_should_drop, Action, SpecAction, SpecDroneEvent,
};
use crate::{FatalError, MyDrone, SpecDrone, PDR_SCALE};

verus! {

// ---------------------------------------------------------------------------
// The routed path (non-flood packets)
// ---------------------------------------------------------------------------

/// The packet as it leaves this drone: the same path, with `hop_index`
/// advanced past this hop to name the next recipient.
pub open spec fn spec_advanced(p: SpecPacket) -> SpecPacket {
    SpecPacket {
        routing_header: SpecHeader {
            hops: p.routing_header.hops,
            hop_index: p.routing_header.hop_index + 1,
        },
        ..p
    }
}

/// What this drone does with a non-flood packet: reject malformed headers as
/// fatal, answer a packet that is not addressed to this hop or that ends at
/// this drone with a NACK over the reverse path, and otherwise advance the
/// hop index and hand the packet to egress.
pub open spec fn spec_route(st: SpecDrone, p: SpecPacket, drop: bool) -> Result<
    Seq<SpecAction>,
    FatalError,
>
    recommends
        !p.is_flood_request(),
{
    let i = p.routing_header.hop_index;
    let h = p.routing_header.hops;
    if h.len() == 0 {
        Err(FatalError::EmptyRoutingHeader)
    } else if i >= h.len() {
        Err(FatalError::HopIndexOutOfBounds)
    } else if i == 0 {
        Err(FatalError::HopIndexZero)
    } else if h[i] != st.id {
        Ok(spec_send_undroppable(st, spec_nack_packet(p, i, NackType::UnexpectedRecipient(st.id))))
    } else if i == h.len() - 1 {
        Ok(spec_send_undroppable(st, spec_nack_packet(p, i, NackType::DestinationIsDrone)))
    } else {
        Ok(spec_send(st, spec_advanced(p), drop))
    }
}

// ---------------------------------------------------------------------------
// The flood path
// ---------------------------------------------------------------------------

/// The node ids recorded in a path trace, in trace order.
pub open spec fn spec_trace_ids(trace: Seq<(NodeId, NodeType)>) -> Seq<NodeId> {
    trace.map_values(|e: (NodeId, NodeType)| e.0)
}

/// The neighbours a flood request is propagated to: everyone but the node it
/// came from, in table order.
pub open spec fn spec_forward_set(neighbors: Seq<NodeId>, sender: NodeId) -> Seq<NodeId>
    decreases neighbors.len(),
{
    if neighbors.len() == 0 {
        Seq::empty()
    } else {
        let rest = spec_forward_set(neighbors.drop_last(), sender);
        if neighbors.last() != sender {
            rest.push(neighbors.last())
        } else {
            rest
        }
    }
}

/// The flood response this drone generates: the augmented path trace, routed
/// back along the trace's ids in reverse, already past this drone.
pub open spec fn spec_flood_response_packet(
    id: NodeId,
    fr: SpecFloodRequest,
    session_id: u64,
) -> SpecPacket {
    let trace2 = fr.path_trace.push((id, NodeType::Drone));
    SpecPacket {
        pack_type: SpecPacketType::FloodResponse(
            SpecFloodResponse { flood_id: fr.flood_id, path_trace: trace2 },
        ),
        routing_header: SpecHeader { hops: spec_trace_ids(trace2).reverse(), hop_index: 1 },
        session_id,
    }
}

/// One propagated copy of a flood request, addressed to neighbour `n` with
/// the minimal informational header `[id, n]`.
pub open spec fn spec_flood_copy(
    id: NodeId,
    n: NodeId,
    fr2: SpecFloodRequest,
    session_id: u64,
) -> SpecPacket {
    SpecPacket {
        pack_type: SpecPacketType::FloodRequest(fr2),
        routing_header: SpecHeader { hops: seq![id, n], hop_index: 1 },
        session_id,
    }
}

/// The actions of propagating a flood request to each target in order: every
/// copy goes out on its neighbour port and is reported as sent.
pub open spec fn spec_flood_copies(
    id: NodeId,
    targets: Seq<NodeId>,
    fr2: SpecFloodRequest,
    session_id: u64,
) -> Seq<SpecAction>
    decreases targets.len(),
{
    if targets.len() == 0 {
        Seq::empty()
    } else {
        let n = targets[0];
        let p = spec_flood_copy(id, n, fr2, session_id);
        seq![
            SpecAction::ToNeighbor(n, p),
            SpecAction::ToController(SpecDroneEvent::PacketSent(p)),
        ] + spec_flood_copies(id, targets.skip(1), fr2, session_id)
    }
}

/// What this drone does with a flood request: an empty path trace is fatal; a
/// flood already seen — keyed by the pair `(flood_id, initiator_id)` — or one
/// with nowhere left to go is answered with a flood response back to its
/// sender; any other flood is recorded in the deduplication set and
/// propagated, with the augmented trace, to every neighbour but the sender.
pub open spec fn spec_flood(st: SpecDrone, fr: SpecFloodRequest, session_id: u64) -> (
    SpecDrone,
    Result<Seq<SpecAction>, FatalError>,
) {
    if fr.path_trace.len() == 0 {
        (st, Err(FatalError::EmptyPathTrace))
    } else {
        let sender = fr.path_trace.last().0;
        let fwd = spec_forward_set(st.neighbors, sender);
        if st.known_flood_ids.contains((fr.flood_id, fr.initiator_id)) || fwd.len() == 0 {
            (st, Ok(spec_send_undroppable(st, spec_flood_response_packet(st.id, fr, session_id))))
        } else {
            let fr2 = SpecFloodRequest {
                flood_id: fr.flood_id,
                initiator_id: fr.initiator_id,
                path_trace: fr.path_trace.push((st.id, NodeType::Drone)),
            };
            let st2 = SpecDrone {
                known_flood_ids: st.known_flood_ids.push((fr.flood_id, fr.initiator_id)),
                ..st
            };
            (st2, Ok(spec_flood_copies(st.id, fwd, fr2, session_id)))
        }
    }
}

/// One processing step over any packet: floods take the flood path, all
/// other packets the routed path, which never changes the drone's state.
pub open spec fn spec_process(st: SpecDrone, p: SpecPacket, drop: bool) -> (
    SpecDrone,
    Result<Seq<SpecAction>, FatalError>,
) {
    match p.pack_type {
        SpecPacketType::FloodRequest(fr) => spec_flood(st, fr, p.session_id),
        _ => (st, spec_route(st, p, drop)),
    }
}

// ---------------------------------------------------------------------------
// Executable processors
// ---------------------------------------------------------------------------

impl MyDrone {
    /// True when the pair `(flood_id, initiator_id)` has been seen before.
    fn knows_flood(&self, flood_id: u64, initiator_id: NodeId) -> (r: bool)
        ensures
            r == self@.known_flood_ids.contains((flood_id, initiator_id)),
    {
        let n = self.known_flood_ids.len();
        for i in 0..n
            invariant
                n == self@.known_flood_ids.len(),
                forall|j: int| 0 <= j < i ==> self@.known_flood_ids[j] != (flood_id, initiator_id),
        {
            let entry = self.known_flood_ids[i];
            if entry.0 == flood_id && entry.1 == initiator_id {
                return true;
            }
        }
        false
    }

    /// The neighbours a flood request goes on to, in table order: everyone
    /// but its sender.
    fn neighbors_except(&self, sender: NodeId) -> (r: Vec<NodeId>)
        ensures
            r@ == spec_forward_set(self@.neighbors, sender),
            forall|j: int| 0 <= j < r@.len() ==> self@.neighbors.contains(#[trigger] r@[j]),
    {
        let mut r: Vec<NodeId> = Vec::new();
        let n = self.neighbors.len();
        for i in 0..n
            invariant
                n == self@.neighbors.len(),
                r@ == spec_forward_set(self@.neighbors.take(i as int), sender),
                forall|j: int| 0 <= j < r@.len() ==> self@.neighbors.contains(#[trigger] r@[j]),
        {
            proof {
                assert(self@.neighbors.take(i + 1).drop_last() =~= self@.neighbors.take(i as int));
                assert(self@.neighbors.take(i + 1).last() == self@.neighbors[i as int]);
            }
            let nb = self.neighbors[i];
            if nb != sender {
                r.push(nb);
                proof {
                    assert(self@.neighbors.contains(self@.neighbors[i as int]));
                }
            }
        }
        proof {
            assert(self@.neighbors.take(n as int) =~= self@.neighbors);
        }
        r
    }

    /// Processes a non-flood packet at this hop: fatal on a malformed
    /// header, a reverse-path NACK when misdelivered or terminating here,
    /// and otherwise the advanced packet handed to egress.
    pub fn process_not_flood_request(&self, packet: Packet, draw: u64) -> (r: Result<
        Vec<Action>,
        FatalError,
    >)
        requires
            draw < PDR_SCALE,
            !packet@.is_flood_request(),
        ensures
            match spec_route(self@, packet@, spec_should_drop(draw, self@.pdr)) {
                Ok(acts) => r is Ok && r->Ok_0.deep_view() == acts,
                Err(e) => r == Err::<Vec<Action>, FatalError>(e),
            },
    {
        let current_index = packet.routing_header.hop_index;
        if packet.routing_header.is_empty() {
            return Err(FatalError::EmptyRoutingHeader);
        }
        if current_index >= packet.routing_header.hops.len() {
            return Err(FatalError::HopIndexOutOfBounds);
        }
        if current_index == 0 {
            return Err(FatalError::HopIndexZero);
        }
        let current_hop = packet.routing_header.hops[current_index];
        if current_hop != self.id {
            let nack = make_nack(&packet, current_index, NackType::UnexpectedRecipient(self.id));
            return Ok(self.send_undroppable(nack));
        }
        if packet.routing_header.is_last_hop() {
            let nack = make_nack(&packet, current_index, NackType::DestinationIsDrone);
            return Ok(self.send_undroppable(nack));
        }
        let mut packet = packet;
        let ghost orig = packet@;
        packet.routing_header.hop_index = current_index + 1;
        proof {
            assert(packet@ == spec_advanced(orig));
        }
        Ok(self.send_packet(packet, draw))
    }

    /// Processes a flood request: answers a repeated or dead-end flood with a
    /// response toward its sender, and propagates a fresh one — recorded in
    /// the deduplication set — to every other neighbour.
    pub fn process_flood_request(&mut self, flood_request: FloodRequest, session_id: u64) -> (r:
        Result<Vec<Action>, FatalError>)
        requires
            old(self).wf(),
        ensures
            final(self).wf(),
            ({
                let (st2, acts) = spec_flood(old(self)@, flood_request@, session_id);
                &&& final(self)@ == st2
                &&& match r {
                    Ok(v) => acts is Ok && v.deep_view() == acts->Ok_0,
                    Err(e) => acts == Err::<Seq<SpecAction>, FatalError>(e),
                }
            }),
    {
        let ghost frv = flood_request@;
        let FloodRequest { flood_id, initiator_id, mut path_trace } = flood_request;
        if path_trace.len() == 0 {
            return Err(FatalError::EmptyPathTrace);
        }
        let received_from = path_trace[path_trace.len() - 1].0;
        path_trace.push((self.id, NodeType::Drone));
        let neighbors_minus_sender = self.neighbors_except(received_from);
        let seen = self.knows_flood(flood_id, initiator_id);
        if seen || neighbors_minus_sender.len() == 0 {
            let hops = reversed_trace_ids(&path_trace);
            let response = Packet {
                pack_type: PacketType::FloodResponse(
                    FloodResponse { flood_id, path_trace },
                ),
                routing_header: SourceRoutingHeader { hops, hop_index: 1 },
                session_id,
            };
            proof {
                assert(response@ == spec_flood_response_packet(self.id, frv, session_id));
            }
            Ok(self.send_undroppable(response))
        } else {
            self.known_flood_ids.push((flood_id, initiator_id));
            proof {
                let olds = old(self)@.known_flood_ids;
                assert forall|p: int, q: int|
                    0 <= p < q < olds.push((flood_id, initiator_id)).len() implies olds.push(
                    (flood_id, initiator_id),
                )[p] != olds.push((flood_id, initiator_id))[q] by {
                    if q == olds.len() {
                        assert(olds[p] == olds.push((flood_id, initiator_id))[p]);
                        if olds[p] == (flood_id, initiator_id) {
                            assert(olds.contains((flood_id, initiator_id)));
                        }
                    }
                }
            }
            let ghost fr2v = SpecFloodRequest {
                flood_id,
                initiator_id,
                path_trace: frv.path_trace.push((self.id, NodeType::Drone)),
            };
            let ghost targets = neighbors_minus_sender@;
            let ghost whole = spec_flood_copies(self.id, targets, fr2v, session_id);
            let mut actions: Vec<Action> = Vec::new();
            proof {
                assert(targets.skip(0) =~= targets);
                assert(actions.deep_view() =~= Seq::<SpecAction>::empty());
                assert(Seq::<SpecAction>::empty() + whole =~= whole);
            }
            let n_fwd = neighbors_minus_sender.len();
            for idx in 0..n_fwd
                invariant
                    n_fwd == targets.len(),
                    targets == neighbors_minus_sender@,
                    fr2v == (SpecFloodRequest {
                        flood_id,
                        initiator_id,
                        path_trace: path_trace@,
                    }),
                    whole == spec_flood_copies(self.id, targets, fr2v, session_id),
                    self.wf(),
                    forall|j: int| 0 <= j < targets.len() ==> self@.neighbors.contains(
                        #[trigger] targets[j],
                    ),
                    actions.deep_view() + spec_flood_copies(
                        self.id,
                        targets.skip(idx as int),
                        fr2v,
                        session_id,
                    ) == whole,
                    path_trace@ == fr2v.path_trace,
            {
                let next_hop = neighbors_minus_sender[idx];
                let mut hops: Vec<NodeId> = Vec::new();
                hops.push(self.id);
                hops.push(next_hop);
                let packet = Packet {
                    pack_type: PacketType::FloodRequest(
                        FloodRequest {
                            flood_id,
                            initiator_id,
                            path_trace: vec_dup(&path_trace),
                        },
                    ),
                    routing_header: SourceRoutingHeader { hops, hop_index: 1 },
                    session_id,
                };
                proof {
                    assert(packet@.routing_header.hops =~= seq![self.id, next_hop]);
                    assert(packet@ == spec_flood_copy(self.id, next_hop, fr2v, session_id));
                    assert(spec_destination(packet@) == next_hop);
                }
                let ghost before = actions.deep_view();
                let mut sent = self.send_packet(packet, 0);
                let ghost sent_dv = sent.deep_view();
                actions.append(&mut sent);
                proof {
                    assert forall|i: int| 0 <= i < actions@.len() implies actions.deep_view()[i]
                        == (before + sent_dv)[i] by {}
                    assert(actions.deep_view() =~= before + sent_dv);
                    let rem = targets.skip(idx as int);
                    assert(rem[0] == targets[idx as int]);
                    assert(rem.skip(1) =~= targets.skip(idx + 1));
                    assert(sent_dv =~= seq![
                        SpecAction::ToNeighbor(
                            next_hop,
                            spec_flood_copy(self.id, next_hop, fr2v, session_id),
                        ),
                        SpecAction::ToController(
                            SpecDroneEvent::PacketSent(
                                spec_flood_copy(self.id, next_hop, fr2v, session_id),
                            ),
                        ),
                    ]);
                    assert(before + sent_dv + spec_flood_copies(
                        self.id,
                        targets.skip(idx + 1),
                        fr2v,
                        session_id,
                    ) =~= before + (sent_dv + spec_flood_copies(
                        self.id,
                        targets.skip(idx + 1),
                        fr2v,
                        session_id,
                    )));
                }
            }
            proof {
                assert(targets.skip(n_fwd as int) =~= Seq::<NodeId>::empty());
                assert(actions.deep_view() + Seq::<SpecAction>::empty() =~= actions.deep_view());
            }
            Ok(actions)
        }
    }

    /// Processes any packet, with `draw` deciding a probabilistic drop:
    /// floods take the flood path, everything else the routed path.
    pub fn process_packet_with_draw(&mut self, packet: Packet, draw: u64) -> (r: Result<
        Vec<Action>,
        FatalError,
    >)
        requires
            old(self).wf(),
            draw < PDR_SCALE,
        ensures
            final(self).wf(),
            ({
                let (st2, acts) = spec_process(
                    old(self)@,
                    packet@,
                    spec_should_drop(draw, old(self)@.pdr),
                );
                &&& final(self)@ == st2
                &&& match r {
                    Ok(v) => acts is Ok && v.deep_view() == acts->Ok_0,
                    Err(e) => acts == Err::<Seq<SpecAction>, FatalError>(e),
                }
            }),
    {
        if matches!(&packet.pack_type, PacketType::FloodRequest(_)) {
            let session_id = packet.session_id;
            match packet {
                Packet { pack_type: PacketType::FloodRequest(fr), .. } => self.process_flood_request(
                    fr,
                    session_id,
                ),
                _ => {
                    proof {
                        assert(false);
                    }
                    Err(FatalError::EmptyPathTrace)
                },
            }
        } else {
            self.process_not_flood_request(packet, draw)
        }
    }

    /// Processes any packet, drawing the drop value from the drone's own
    /// random source: some uniform draw below `PDR_SCALE` decides the
    /// probabilistic drop, and everything else follows one processing step.
    pub fn process_packet(&mut self, packet: Packet) -> (r: Result<Vec<Action>, FatalError>)
        requires
            old(self).wf(),
        ensures
            final(self).wf(),
            exists|draw: u64|
                {
                    &&& draw < PDR_SCALE
                    &&& final(self)@ == (#[trigger] spec_process(
                        old(self)@,
                        packet@,
                        spec_should_drop(draw, old(self)@.pdr),
                    )).0
                    &&& match r {
                        Ok(v) => spec_process(
                            old(self)@,
                            packet@,
                            spec_should_drop(draw, old(self)@.pdr),
                        ).1 is Ok && v.deep_view() == spec_process(
                            old(self)@,
                            packet@,
                            spec_should_drop(draw, old(self)@.pdr),
                        ).1->Ok_0,
                        Err(e) => spec_process(
                            old(self)@,
                            packet@,
                            spec_should_drop(draw, old(self)@.pdr),
                        ).1 == Err::<Seq<SpecAction>, FatalError>(e),
                    }
                },
    {
        let draw = draw_drop_value();
        let ghost p0 = packet@;
        let r = self.process_packet_with_draw(packet, draw);
        proof {
            let (st2, acts) = spec_process(old(self)@, p0, spec_should_drop(draw, old(self)@.pdr));
            assert(draw < PDR_SCALE && {
                &&& self@ == st2
                &&& match r {
                    Ok(v) => acts is Ok && v.deep_view() == acts->Ok_0,
                    Err(e) => acts == Err::<Seq<SpecAction>, FatalError>(e),
                }
            });
        }
        r
    }
}

/// The path's worth of node ids a flood response travels back along: the
/// trace's ids, reversed.
fn reversed_trace_ids(trace: &Vec<(NodeId, NodeType)>) -> (r: Vec<NodeId>)
    ensures
        r@ == spec_trace_ids(trace@).reverse(),
{
    let ghost rev = spec_trace_ids(trace@).reverse();
    let mut r: Vec<NodeId> = Vec::new();
    let n = trace.len();
    for j in 0..n
        invariant
            n == trace@.len(),
            rev == spec_trace_ids(trace@).reverse(),
            r@ == rev.take(j as int),
    {
        r.push(trace[n - 1 - j].0);
        proof {
            assert(rev[j as int] == spec_trace_ids(trace@)[n - 1 - j]);
            assert(spec_trace_ids(trace@)[n - 1 - j] == trace@[n - 1 - j].0);
            assert(rev.take(j + 1) =~= rev.take(j as int).push(rev[j as int]));
        }
    }
    proof {
        assert(rev.take(n as int) =~= rev);
    }
    r
}

} // verus!
