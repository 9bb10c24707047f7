//! The wire-level data model: source-routing headers, the five packet
//! variants, and their mathematical views.

use vstd::prelude::*;

verus! {

/// Identifier of a node in the simulated graph.
pub type NodeId = u8;

/// Number of payload bytes carried by every message fragment.
pub const FRAGMENT_DSIZE: usize = 128;

/// What kind of node a path-trace entry was recorded by.
#[derive(Clone, Copy, Debug, PartialEq, Eq)]
pub enum NodeType {
    Drone,
    Client,
    Server,
}

/// Why a negative acknowledgement was generated.
#[derive(Clone, Copy, Debug, PartialEq, Eq)]
pub enum NackType {
    Dropped,
    DestinationIsDrone,
    ErrorInRouting(NodeId),
    UnexpectedRecipient(NodeId),
}

/// The source-routing header carried by every packet: the full path from
/// originator to destination and the index of the node currently expected to
/// hold the packet.
#[derive(Clone, Debug, PartialEq, Eq)]
pub struct SourceRoutingHeader {
    pub hops: Vec<NodeId>,
    pub hop_index: usize,
}

/// A data-bearing fragment of a user message.
#[derive(Clone, Debug, PartialEq, Eq)]
pub struct Fragment {
    pub fragment_index: u64,
    pub total_n_fragments: u64,
    pub length: u8,
    pub data: [u8; FRAGMENT_DSIZE],
}

/// A positive acknowledgement for one fragment.
#[derive(Clone, Copy, Debug, PartialEq, Eq)]
pub struct Ack {
    pub fragment_index: u64,
}

/// A negative acknowledgement for one fragment (index 0 when the offending
/// packet carried no fragment).
#[derive(Clone, Copy, Debug, PartialEq, Eq)]
pub struct Nack {
    pub fragment_index: u64,
    pub nack_type: NackType,
}

/// A network-discovery flood, identified by the pair
/// `(flood_id, initiator_id)`, recording every node traversed so far.
#[derive(Clone, Debug, PartialEq, Eq)]
pub struct FloodRequest {
    pub flood_id: u64,
    pub initiator_id: NodeId,
    pub path_trace: Vec<(NodeId, NodeType)>,
}

/// The answer to a flood request, carrying the completed path trace back to
/// the initiator.
#[derive(Clone, Debug, PartialEq, Eq)]
pub struct FloodResponse {
    pub flood_id: u64,
    pub path_trace: Vec<(NodeId, NodeType)>,
}

/// The five packet variants of the protocol.
#[derive(Clone, Debug, PartialEq, Eq)]
pub enum PacketType {
    MsgFragment(Fragment),
    Ack(Ack),
    Nack(Nack),
    FloodRequest(FloodRequest),
    FloodResponse(FloodResponse),
}

/// A packet: a variant payload, a source-routing header, and an opaque
/// session identifier preserved across forwarding and NACKing.
#[derive(Clone, Debug, PartialEq, Eq)]
pub struct Packet {
    pub pack_type: PacketType,
    pub routing_header: SourceRoutingHeader,
    pub session_id: u64,
}

// ---------------------------------------------------------------------------
// Mathematical views
// ---------------------------------------------------------------------------

/// View of a source-routing header.
pub struct SpecHeader {
    pub hops: Seq<NodeId>,
    pub hop_index: int,
}

/// View of a message fragment.
pub struct SpecFragment {
    pub fragment_index: u64,
    pub total_n_fragments: u64,
    pub length: u8,
    pub data: Seq<u8>,
}

/// View of a flood request.
pub struct SpecFloodRequest {
    pub flood_id: u64,
    pub initiator_id: NodeId,
    pub path_trace: Seq<(NodeId, NodeType)>,
}

/// View of a flood response.
pub struct SpecFloodResponse {
    pub flood_id: u64,
    pub path_trace: Seq<(NodeId, NodeType)>,
}

/// View of a packet variant.
pub enum SpecPacketType {
    MsgFragment(SpecFragment),
    Ack(Ack),
    Nack(Nack),
    FloodRequest(SpecFloodRequest),
    FloodResponse(SpecFloodResponse),
}

/// View of a packet.
pub struct SpecPacket {
    pub pack_type: SpecPacketType,
    pub routing_header: SpecHeader,
    pub session_id: u64,
}

impl View for SourceRoutingHeader {
    type V = SpecHeader;

    open spec fn view(&self) -> SpecHeader {
        SpecHeader { hops: self.hops@, hop_index: self.hop_index as int }
    }
}

impl View for Fragment {
    type V = SpecFragment;

    open spec fn view(&self) -> SpecFragment {
        SpecFragment {
            fragment_index: self.fragment_index,
            total_n_fragments: self.total_n_fragments,
            length: self.length,
            data: self.data@,
        }
    }
}

impl View for FloodRequest {
    type V = SpecFloodRequest;

    open spec fn view(&self) -> SpecFloodRequest {
        SpecFloodRequest {
            flood_id: self.flood_id,
            initiator_id: self.initiator_id,
            path_trace: self.path_trace@,
        }
    }
}

impl View for FloodResponse {
    type V = SpecFloodResponse;

    open spec fn view(&self) -> SpecFloodResponse {
        SpecFloodResponse { flood_id: self.flood_id, path_trace: self.path_trace@ }
    }
}

impl View for PacketType {
    type V = SpecPacketType;

    open spec fn view(&self) -> SpecPacketType {
        match self {
            PacketType::MsgFragment(f) => SpecPacketType::MsgFragment(f@),
            PacketType::Ack(a) => SpecPacketType::Ack(*a),
            PacketType::Nack(n) => SpecPacketType::Nack(*n),
            PacketType::FloodRequest(fr) => SpecPacketType::FloodRequest(fr@),
            PacketType::FloodResponse(fr) => SpecPacketType::FloodResponse(fr@),
        }
    }
}

impl View for Packet {
    type V = SpecPacket;

    open spec fn view(&self) -> SpecPacket {
        SpecPacket {
            pack_type: self.pack_type@,
            routing_header: self.routing_header@,
            session_id: self.session_id,
        }
    }
}

impl DeepView for Packet {
    type V = SpecPacket;

    open spec fn deep_view(&self) -> SpecPacket {
        self@
    }
}

impl SpecPacket {
    /// Fragment index reported when a NACK answers this packet: the
    /// fragment's own index for a message fragment, zero otherwise.
    pub open spec fn nack_fragment_index(self) -> u64 {
        match self.pack_type {
            SpecPacketType::MsgFragment(f) => f.fragment_index,
            _ => 0,
        }
    }

    /// A data fragment: the one variant subject to probabilistic drop.
    pub open spec fn is_fragment(self) -> bool {
        self.pack_type is MsgFragment
    }

    /// A flood request: routed by its path trace, never by the header.
    pub open spec fn is_flood_request(self) -> bool {
        self.pack_type is FloodRequest
    }

    /// Ack, Nack and FloodResponse packets may never be lost: when their next
    /// hop is gone they travel out of band through the controller.
    pub open spec fn is_undroppable(self) -> bool {
        self.pack_type is Ack || self.pack_type is Nack || self.pack_type is FloodResponse
    }
}

// ---------------------------------------------------------------------------
// Duplication
// ---------------------------------------------------------------------------

/// Copies a vector of plain values, element for element.
pub fn vec_dup<T: Copy>(v: &Vec<T>) -> (r: Vec<T>)
    ensures
        r@ == v@,
{
    let mut r: Vec<T> = Vec::new();
    let n = v.len();
    for i in 0..n
        invariant
            n == v@.len(),
            r@ == v@.take(i as int),
    {
        r.push(v[i]);
        proof {
            assert(v@.take(i + 1) =~= v@.take(i as int).push(v@[i as int]));
        }
    }
    proof {
        assert(v@.take(n as int) =~= v@);
    }
    r
}

impl SourceRoutingHeader {
    /// A copy of this header with the same view.
    pub fn duplicate(&self) -> (r: SourceRoutingHeader)
        ensures
            r@ == self@,
    {
        SourceRoutingHeader { hops: vec_dup(&self.hops), hop_index: self.hop_index }
    }
}

impl Packet {
    /// A copy of this packet with the same view.
    pub fn duplicate(&self) -> (r: Packet)
        ensures
            r@ == self@,
    {
        let pack_type = match &self.pack_type {
            PacketType::MsgFragment(f) => PacketType::MsgFragment(
                Fragment {
                    fragment_index: f.fragment_index,
                    total_n_fragments: f.total_n_fragments,
                    length: f.length,
                    data: f.data,
                },
            ),
            PacketType::Ack(a) => PacketType::Ack(*a),
            PacketType::Nack(n) => PacketType::Nack(*n),
            PacketType::FloodRequest(fr) => PacketType::FloodRequest(
                FloodRequest {
                    flood_id: fr.flood_id,
                    initiator_id: fr.initiator_id,
                    path_trace: vec_dup(&fr.path_trace),
                },
            ),
            PacketType::FloodResponse(fr) => PacketType::FloodResponse(
                FloodResponse { flood_id: fr.flood_id, path_trace: vec_dup(&fr.path_trace) },
            ),
        };
        Packet {
            pack_type,
            routing_header: self.routing_header.duplicate(),
            session_id: self.session_id,
        }
    }
}

// ---------------------------------------------------------------------------
// Header operations
// ---------------------------------------------------------------------------

impl SourceRoutingHeader {
    /// True when the path is empty.
    pub fn is_empty(&self) -> (r: bool)
        ensures
            r == (self@.hops.len() == 0),
    {
        self.hops.len() == 0
    }

    /// True when `hop_index` points at the last entry of the path.
    pub fn is_last_hop(&self) -> (r: bool)
        ensures
            r == (self@.hop_index == self@.hops.len() - 1),
    {
        self.hops.len() > 0 && self.hop_index == self.hops.len() - 1
    }

    /// The node currently expected to hold the packet, when `hop_index` is in
    /// bounds.
    pub fn current_hop(&self) -> (r: Option<NodeId>)
        ensures
            r == (if 0 <= self@.hop_index < self@.hops.len() {
                Some(self@.hops[self@.hop_index])
            } else {
                None::<NodeId>
            }),
    {
        if self.hop_index < self.hops.len() {
            Some(self.hops[self.hop_index])
        } else {
            None
        }
    }

    /// The node the packet came from, when there is one.
    pub fn previous_hop(&self) -> (r: Option<NodeId>)
        ensures
            r == (if 1 <= self@.hop_index && self@.hop_index - 1 < self@.hops.len() {
                Some(self@.hops[self@.hop_index - 1])
            } else {
                None::<NodeId>
            }),
    {
        if 1 <= self.hop_index && self.hop_index - 1 < self.hops.len() {
            Some(self.hops[self.hop_index - 1])
        } else {
            None
        }
    }
}

} // verus!
