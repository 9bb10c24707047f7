//! The protocol's laws, proved once and for all over the specification
//! functions: how forwarding, NACK construction, flood deduplication, the
//! drop rate and the crash discipline behave on every input.

use vstd::prelude::*;

use crate::packet::{Nack, NackType, NodeId, NodeType, SpecFloodRequest, SpecPacket, SpecPacketType};
use crate::packet_processing::{
    spec_advanced, spec_flood, spec_flood_copies, spec_flood_copy, spec_flood_response_packet,
    spec_forward_set, spec_process, spec_route,
};
use crate::packet_sending::{
    spec_nack_packet, spec_send, spec_send_undroppable, spec_should_drop, SpecAction,
    SpecDroneEvent,
};
use crate::supervisor::{spec_step, DroneCommand, SpecLoopEvent, SpecStepOutcome};
use crate::{FatalError, SpecDrone, State, PDR_SCALE};

verus! {

/// The packet an action carries, wherever it goes.
pub open spec fn spec_action_packet(a: SpecAction) -> SpecPacket {
    match a {
        SpecAction::ToNeighbor(_, p) => p,
        SpecAction::ToController(e) => match e {
            SpecDroneEvent::PacketSent(p) => p,
            SpecDroneEvent::PacketDropped(p) => p,
            SpecDroneEvent::ControllerShortcut(p) => p,
        },
    }
}

/// Whether an action reports a probabilistic drop to the controller.
pub open spec fn spec_is_drop_event(a: SpecAction) -> bool {
    a matches SpecAction::ToController(SpecDroneEvent::PacketDropped(_))
}

/// Every NACK is built over the reverse path: its path is the original's up
/// to and including position `k`, reversed — element `j` of the NACK's path
/// is element `k - j` of the original's — its `hop_index` is 1, its session
/// is the original's, and its fragment index is the original fragment's, or
/// zero when the original carried no fragment.
pub proof fn lemma_nack_shape(p: SpecPacket, k: int, nack_type: NackType)
    requires
        0 <= k < p.routing_header.hops.len(),
    ensures
        ({
            let n = spec_nack_packet(p, k, nack_type);
            &&& n.routing_header.hop_index == 1
            &&& n.routing_header.hops == p.routing_header.hops.take(k + 1).reverse()
            &&& n.routing_header.hops.len() == k + 1
            &&& forall|j: int|
                0 <= j <= k ==> n.routing_header.hops[j] == p.routing_header.hops[k - j]
            &&& n.session_id == p.session_id
            &&& n.pack_type == SpecPacketType::Nack(
                Nack { fragment_index: p.nack_fragment_index(), nack_type },
            )
            &&& p.is_fragment() ==> n.pack_type->Nack_0.fragment_index
                == p.pack_type->MsgFragment_0.fragment_index
            &&& !p.is_fragment() ==> n.pack_type->Nack_0.fragment_index == 0
        }),
{
    let n = spec_nack_packet(p, k, nack_type);
    let t = p.routing_header.hops.take(k + 1);
    assert forall|j: int| 0 <= j <= k implies n.routing_header.hops[j]
        == p.routing_header.hops[k - j] by {
        assert(t.reverse()[j] == t[k - j]);
    }
}

/// A packet forwarded by the routed path leaves with the same path, the same
/// variant, the same session, and `hop_index` advanced by exactly one; it
/// goes out on the next hop's port and is reported sent, in that order.
pub proof fn lemma_forward_advances_hop(st: SpecDrone, p: SpecPacket, drop: bool)
    requires
        !p.is_flood_request(),
        1 <= p.routing_header.hop_index < p.routing_header.hops.len() - 1,
        p.routing_header.hops[p.routing_header.hop_index] == st.id,
        st.neighbors.contains(p.routing_header.hops[p.routing_header.hop_index + 1]),
        !(p.is_fragment() && drop),
    ensures
        ({
            let fwd = spec_advanced(p);
            &&& fwd.routing_header.hop_index == p.routing_header.hop_index + 1
            &&& fwd.routing_header.hops == p.routing_header.hops
            &&& fwd.pack_type == p.pack_type
            &&& fwd.session_id == p.session_id
            &&& spec_route(st, p, drop) == Ok::<Seq<SpecAction>, FatalError>(
                seq![
                    SpecAction::ToNeighbor(
                        p.routing_header.hops[p.routing_header.hop_index + 1],
                        fwd,
                    ),
                    SpecAction::ToController(SpecDroneEvent::PacketSent(fwd)),
                ],
            )
        }),
{
}

/// After a crash command the drone keeps running in the `Crashing` phase and
/// emits nothing; a closed ingress port then terminates it cleanly, while in
/// the `Working` phase a closed ingress port is fatal.
pub proof fn lemma_crash_discipline(st: SpecDrone, drop: bool)
    ensures
        ({
            let (st2, out) = spec_step(
                st,
                SpecLoopEvent::Command(DroneCommand::Crash),
                drop,
            );
            &&& st2 == (SpecDrone { state: State::Crashing, ..st })
            &&& out == SpecStepOutcome::Continue(Seq::<SpecAction>::empty())
        }),
        st.state == State::Crashing ==> spec_step(
            st,
            SpecLoopEvent::IngressClosed,
            drop,
        ) == (st, SpecStepOutcome::Terminate),
        st.state == State::Working ==> spec_step(
            st,
            SpecLoopEvent::IngressClosed,
            drop,
        ) == (
            st,
            SpecStepOutcome::Fatal(FatalError::IngressClosedWhileWorking),
        ),
{
}

/// The shape of a flood propagation: two actions per target, in target
/// order — the copy out on the target's port, then its sent report.
pub proof fn lemma_flood_copies_shape(
    id: NodeId,
    targets: Seq<NodeId>,
    fr2: SpecFloodRequest,
    session_id: u64,
)
    ensures
        ({
            let acts = spec_flood_copies(id, targets, fr2, session_id);
            &&& acts.len() == 2 * targets.len()
            &&& forall|i: int|
                0 <= i < acts.len() ==> #[trigger] acts[i] == (if i % 2 == 0 {
                    SpecAction::ToNeighbor(
                        targets[i / 2],
                        spec_flood_copy(id, targets[i / 2], fr2, session_id),
                    )
                } else {
                    SpecAction::ToController(
                        SpecDroneEvent::PacketSent(
                            spec_flood_copy(id, targets[i / 2], fr2, session_id),
                        ),
                    )
                })
        }),
    decreases targets.len(),
{
    if targets.len() == 0 {
    } else {
        lemma_flood_copies_shape(id, targets.skip(1), fr2, session_id);
        let acts = spec_flood_copies(id, targets, fr2, session_id);
        let rest = spec_flood_copies(id, targets.skip(1), fr2, session_id);
        assert forall|i: int| 0 <= i < acts.len() implies #[trigger] acts[i] == (if i % 2 == 0 {
            SpecAction::ToNeighbor(
                targets[i / 2],
                spec_flood_copy(id, targets[i / 2], fr2, session_id),
            )
        } else {
            SpecAction::ToController(
                SpecDroneEvent::PacketSent(spec_flood_copy(id, targets[i / 2], fr2, session_id)),
            )
        }) by {
            if i >= 2 {
                assert(acts[i] == rest[i - 2]);
                assert(targets.skip(1)[(i - 2) / 2] == targets[i / 2]);
            }
        }
    }
}

/// The session identifier is preserved: every packet a processing step emits
/// — forwarded, NACK, flood response or flood copy — carries the session of
/// the packet that came in.
pub proof fn lemma_session_preserved(st: SpecDrone, p: SpecPacket, drop: bool)
    ensures
        ({
            let (st2, acts) = spec_process(st, p, drop);
            acts is Ok ==> forall|i: int|
                0 <= i < acts->Ok_0.len() ==> spec_action_packet(
                    #[trigger] acts->Ok_0[i],
                ).session_id == p.session_id
        }),
{
    let (st2, acts) = spec_process(st, p, drop);
    match p.pack_type {
        SpecPacketType::FloodRequest(fr) => {
            if acts is Ok {
                if fr.path_trace.len() > 0 {
                    let sender = fr.path_trace.last().0;
                    let fwd = spec_forward_set(st.neighbors, sender);
                    if !(st.known_flood_ids.contains((fr.flood_id, fr.initiator_id)) || fwd.len()
                        == 0) {
                        let fr2 = SpecFloodRequest {
                            flood_id: fr.flood_id,
                            initiator_id: fr.initiator_id,
                            path_trace: fr.path_trace.push((st.id, NodeType::Drone)),
                        };
                        lemma_flood_copies_shape(st.id, fwd, fr2, p.session_id);
                    }
                }
            }
        },
        _ => {},
    }
}

/// Flood deduplication: a flood whose `(flood_id, initiator_id)` pair is
/// already known changes nothing and propagates no flood request; a step
/// that changes the state at all records exactly that pair, so a full
/// propagation happens at most once per pair over the drone's lifetime.
pub proof fn lemma_flood_dedup(st: SpecDrone, fr: SpecFloodRequest, session_id: u64)
    ensures
        ({
            let pair = (fr.flood_id, fr.initiator_id);
            let (st2, acts) = spec_flood(st, fr, session_id);
            &&& st.known_flood_ids.contains(pair) ==> st2 == st && (acts is Ok ==> forall|i: int|
                0 <= i < acts->Ok_0.len() ==> !spec_action_packet(
                    #[trigger] acts->Ok_0[i],
                ).is_flood_request())
            &&& st2 != st ==> {
                &&& !st.known_flood_ids.contains(pair)
                &&& st2.known_flood_ids == st.known_flood_ids.push(pair)
                &&& st2.known_flood_ids.contains(pair)
            }
        }),
{
    let pair = (fr.flood_id, fr.initiator_id);
    let (st2, acts) = spec_flood(st, fr, session_id);
    if st2 != st {
        assert(st2.known_flood_ids == st.known_flood_ids.push(pair));
        assert(st.known_flood_ids.push(pair)[st.known_flood_ids.len() as int] == pair);
    }
}

/// The set of known floods only ever grows, whatever one loop iteration
/// observes.
pub proof fn lemma_known_floods_monotonic(
    st: SpecDrone,
    event: SpecLoopEvent,
    drop: bool,
)
    ensures
        ({
            let (st2, out) = spec_step(st, event, drop);
            forall|k: (u64, NodeId)|
                st.known_flood_ids.contains(k) ==> #[trigger] st2.known_flood_ids.contains(k)
        }),
{
    let (st2, out) = spec_step(st, event, drop);
    assert forall|k: (u64, NodeId)| st.known_flood_ids.contains(k) implies #[trigger] st2
        .known_flood_ids.contains(k) by {
        if st2.known_flood_ids != st.known_flood_ids {
            let w = choose|w: int|
                0 <= w < st.known_flood_ids.len() && st.known_flood_ids[w] == k;
            assert(st2.known_flood_ids[w] == k);
        }
    }
}

/// A drop rate of zero drops nothing: no processing step ever reports a
/// dropped packet, whatever the draw.
pub proof fn lemma_pdr_zero_never_drops(st: SpecDrone, p: SpecPacket, draw: u64)
    requires
        st.pdr == 0,
    ensures
        ({
            let (st2, acts) = spec_process(st, p, spec_should_drop(draw, st.pdr));
            acts is Ok ==> forall|i: int|
                0 <= i < acts->Ok_0.len() ==> !spec_is_drop_event(#[trigger] acts->Ok_0[i])
        }),
{
    let (st2, acts) = spec_process(st, p, spec_should_drop(draw, st.pdr));
    match p.pack_type {
        SpecPacketType::FloodRequest(fr) => {
            if acts is Ok && fr.path_trace.len() > 0 {
                let sender = fr.path_trace.last().0;
                let fwd = spec_forward_set(st.neighbors, sender);
                if !(st.known_flood_ids.contains((fr.flood_id, fr.initiator_id)) || fwd.len()
                    == 0) {
                    let fr2 = SpecFloodRequest {
                        flood_id: fr.flood_id,
                        initiator_id: fr.initiator_id,
                        path_trace: fr.path_trace.push((st.id, NodeType::Drone)),
                    };
                    lemma_flood_copies_shape(st.id, fwd, fr2, p.session_id);
                }
            }
        },
        _ => {},
    }
}

/// A full drop rate drops every data fragment whose next hop is a neighbour:
/// the step reports exactly one drop — of the packet as it would have left —
/// and answers with exactly one `Dropped` NACK built backward over the path
/// up to this drone.
pub proof fn lemma_pdr_full_always_drops(st: SpecDrone, p: SpecPacket, draw: u64)
    requires
        st.pdr == PDR_SCALE,
        draw < PDR_SCALE,
        p.is_fragment(),
        1 <= p.routing_header.hop_index < p.routing_header.hops.len() - 1,
        p.routing_header.hops[p.routing_header.hop_index] == st.id,
        st.neighbors.contains(p.routing_header.hops[p.routing_header.hop_index + 1]),
    ensures
        spec_should_drop(draw, st.pdr),
        ({
            let (st2, acts) = spec_process(st, p, spec_should_drop(draw, st.pdr));
            let i = p.routing_header.hop_index;
            let fwd = spec_advanced(p);
            let nack = spec_nack_packet(fwd, i, NackType::Dropped);
            &&& st2 == st
            &&& acts is Ok
            &&& acts->Ok_0 == seq![
                SpecAction::ToController(SpecDroneEvent::PacketDropped(fwd)),
            ] + spec_send_undroppable(st, nack)
            &&& spec_is_drop_event(acts->Ok_0[0])
            &&& spec_action_packet(acts->Ok_0[0]) == fwd
            &&& forall|j: int|
                1 <= j < acts->Ok_0.len() ==> !spec_is_drop_event(#[trigger] acts->Ok_0[j])
            &&& spec_action_packet(acts->Ok_0[1]) == nack
            &&& nack.routing_header.hops == p.routing_header.hops.take(i + 1).reverse()
            &&& nack.routing_header.hop_index == 1
            &&& nack.pack_type == SpecPacketType::Nack(
                Nack {
                    fragment_index: p.pack_type->MsgFragment_0.fragment_index,
                    nack_type: NackType::Dropped,
                },
            )
        }),
{
    let (st2, acts) = spec_process(st, p, spec_should_drop(draw, st.pdr));
    let i = p.routing_header.hop_index;
    let fwd = spec_advanced(p);
    let nack = spec_nack_packet(fwd, i, NackType::Dropped);
    let tail = spec_send_undroppable(st, nack);
    assert(acts->Ok_0 == seq![
        SpecAction::ToController(SpecDroneEvent::PacketDropped(fwd)),
    ] + tail);
    assert(acts->Ok_0[1] == tail[0]);
    assert forall|j: int| 1 <= j < acts->Ok_0.len() implies !spec_is_drop_event(
        #[trigger] acts->Ok_0[j],
    ) by {
        assert(acts->Ok_0[j] == tail[j - 1]);
    }
}

/// Processing is blind to the lifecycle phase: a crashing drone handles
/// every incoming packet exactly as a working one would, so after a crash
/// command the drone keeps forwarding correctly while it drains.
pub proof fn lemma_crashing_processes_like_working(st: SpecDrone, p: SpecPacket, drop: bool)
    ensures
        ({
            let stc = SpecDrone { state: State::Crashing, ..st };
            let (w2, wacts) = spec_process(st, p, drop);
            let (c2, cacts) = spec_process(stc, p, drop);
            &&& cacts == wacts
            &&& c2 == (SpecDrone { state: State::Crashing, ..w2 })
        }),
{
    let stc = SpecDrone { state: State::Crashing, ..st };
    let (w2, wacts) = spec_process(st, p, drop);
    let (c2, cacts) = spec_process(stc, p, drop);
    match p.pack_type {
        SpecPacketType::FloodRequest(fr) => {
            if fr.path_trace.len() > 0 {
                let sender = fr.path_trace.last().0;
                assert(spec_forward_set(stc.neighbors, sender)
                    == spec_forward_set(st.neighbors, sender));
                let resp = spec_flood_response_packet(
                    st.id,
                    fr,
                    p.session_id,
                );
                assert(spec_send_undroppable(stc, resp) == spec_send_undroppable(st, resp));
            }
        },
        _ => {
            let i = p.routing_header.hop_index;
            let h = p.routing_header.hops;
            if h.len() > 0 && 0 < i < h.len() {
                if h[i] != st.id {
                    let n = spec_nack_packet(p, i, NackType::UnexpectedRecipient(st.id));
                    assert(spec_send_undroppable(stc, n) == spec_send_undroppable(st, n));
                } else if i == h.len() - 1 {
                    let n = spec_nack_packet(p, i, NackType::DestinationIsDrone);
                    assert(spec_send_undroppable(stc, n) == spec_send_undroppable(st, n));
                } else {
                    let fwd = spec_advanced(p);
                    let d = fwd.routing_header.hops[fwd.routing_header.hop_index];
                    if st.neighbors.contains(d) && fwd.is_fragment() && drop {
                        let n = spec_nack_packet(
                            fwd,
                            fwd.routing_header.hop_index - 1,
                            NackType::Dropped,
                        );
                        assert(spec_send_undroppable(stc, n) == spec_send_undroppable(st, n));
                    } else if !st.neighbors.contains(d) && fwd.is_fragment() {
                        let n = spec_nack_packet(
                            fwd,
                            fwd.routing_header.hop_index - 1,
                            NackType::ErrorInRouting(d),
                        );
                        assert(spec_send_undroppable(stc, n) == spec_send_undroppable(st, n));
                    }
                    assert(spec_send(stc, fwd, drop)
                        == spec_send(st, fwd, drop));
                }
            }
        },
    }
}

} // verus!
