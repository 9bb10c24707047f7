//! The probabilistic drop of data fragments.

use null_pointer_drone::packet::{Fragment, Nack, NackType, Packet, PacketType, SourceRoutingHeader};
use null_pointer_drone::packet_sending::{Action, DroneEvent};
use null_pointer_drone::{MyDrone, PDR_SCALE};

fn fragment_packet(hops: Vec<u8>, hop_index: usize) -> Packet {
    Packet {
        pack_type: PacketType::MsgFragment(Fragment {
            fragment_index: 0,
            total_n_fragments: 1,
            length: 128,
            data: [0; 128],
        }),
        routing_header: SourceRoutingHeader { hops, hop_index },
        session_id: 0,
    }
}

/// sends this packet:
/// 0 -> (1) -> 2
/// but drone 1 has the full drop rate so it gets dropped, and we expect:
/// - a PacketDropped report of the packet as it would have left (hop index 2)
/// - a nack of this form: 1->(0), nack type Dropped
/// - a PacketSent report for the created nack
/// - nothing toward drone 2
#[test]
fn expect_drop() {
    let mut drone = MyDrone::new(1, vec![0, 2], PDR_SCALE as i64).expect("valid drone");

    let p = fragment_packet(vec![0, 1, 2], 1);
    let out = drone.process_packet(p).expect("no fatal error");

    let dropped = fragment_packet(vec![0, 1, 2], 2);
    let nack = Packet {
        pack_type: PacketType::Nack(Nack {
            fragment_index: 0,
            nack_type: NackType::Dropped,
        }),
        routing_header: SourceRoutingHeader {
            hops: vec![1, 0],
            hop_index: 1,
        },
        session_id: 0,
    };
    assert_eq!(
        out,
        vec![
            Action::ToController(DroneEvent::PacketDropped(dropped)),
            Action::ToNeighbor(0, nack.clone()),
            Action::ToController(DroneEvent::PacketSent(nack)),
        ]
    );
    for a in &out {
        if let Action::ToNeighbor(dest, _) = a {
            assert_ne!(*dest, 2);
        }
    }
}

/// with a drop rate of zero the same fragment is always forwarded, whatever
/// the drone's own draw turns out to be
#[test]
fn pdr_zero_forwards() {
    let mut drone = MyDrone::new(1, vec![0, 2], 0).expect("valid drone");

    let p = fragment_packet(vec![0, 1, 2], 1);
    let out = drone.process_packet(p).expect("no fatal error");

    let expected = fragment_packet(vec![0, 1, 2], 2);
    assert_eq!(
        out,
        vec![
            Action::ToNeighbor(2, expected.clone()),
            Action::ToController(DroneEvent::PacketSent(expected)),
        ]
    );
}

/// only data fragments fall to the drop rate: an ack passes a full-rate
/// drone untouched
#[test]
fn pdr_full_spares_undroppable() {
    let mut drone = MyDrone::new(1, vec![0, 2], PDR_SCALE as i64).expect("valid drone");

    let ack = Packet {
        pack_type: PacketType::Ack(null_pointer_drone::packet::Ack { fragment_index: 7 }),
        routing_header: SourceRoutingHeader {
            hops: vec![0, 1, 2],
            hop_index: 1,
        },
        session_id: 9,
    };
    let out = drone.process_packet(ack.clone()).expect("no fatal error");

    let mut expected = ack;
    expected.routing_header.hop_index = 2;
    assert_eq!(
        out,
        vec![
            Action::ToNeighbor(2, expected.clone()),
            Action::ToController(DroneEvent::PacketSent(expected)),
        ]
    );
}
