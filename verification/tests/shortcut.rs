//! Out-of-band delivery: an undroppable packet whose next hop is no longer a
//! neighbour goes to the controller as a shortcut.

use null_pointer_drone::packet::{
    Ack, FloodResponse, Fragment, Nack, NackType, Packet, PacketType, SourceRoutingHeader,
};
use null_pointer_drone::packet_sending::{Action, DroneEvent};
use null_pointer_drone::MyDrone;

fn routed(pack_type: PacketType, hops: Vec<u8>) -> Packet {
    Packet {
        pack_type,
        routing_header: SourceRoutingHeader { hops, hop_index: 1 },
        session_id: 0,
    }
}

/// sends packets 0 -> (1) -> 2 at drone 1, whose neighbour 2 is gone:
/// undroppable packets are shortcut to the controller with the hop index
/// pointing at where they were headed; a fragment is answered with
/// ErrorInRouting instead
#[test]
fn shortcut() {
    let mut drone = MyDrone::new(1, vec![0], 0).expect("valid drone");

    let hops = vec![0u8, 1, 2];
    let undroppables = vec![
        routed(
            PacketType::FloodResponse(FloodResponse { flood_id: 0, path_trace: vec![] }),
            hops.clone(),
        ),
        routed(
            PacketType::Nack(Nack { fragment_index: 0, nack_type: NackType::Dropped }),
            hops.clone(),
        ),
        routed(PacketType::Ack(Ack { fragment_index: 0 }), hops.clone()),
    ];

    for p in undroppables {
        let out = drone.process_packet(p.clone()).expect("no fatal error");
        let mut expected = p;
        expected.routing_header.hop_index += 1;
        assert_eq!(
            out,
            vec![Action::ToController(DroneEvent::ControllerShortcut(expected))]
        );
    }

    let fragment = routed(
        PacketType::MsgFragment(Fragment {
            fragment_index: 0,
            total_n_fragments: 1,
            length: 128,
            data: [0; 128],
        }),
        hops,
    );
    let out = drone.process_packet(fragment).expect("no fatal error");
    let nack = Packet {
        pack_type: PacketType::Nack(Nack {
            fragment_index: 0,
            nack_type: NackType::ErrorInRouting(2),
        }),
        routing_header: SourceRoutingHeader {
            hops: vec![1, 0],
            hop_index: 1,
        },
        session_id: 0,
    };
    assert_eq!(
        out,
        vec![
            Action::ToNeighbor(0, nack.clone()),
            Action::ToController(DroneEvent::PacketSent(nack)),
        ]
    );
}

/// header operations on concrete values
#[test]
fn header_operations() {
    let h = SourceRoutingHeader {
        hops: vec![3, 4, 5],
        hop_index: 1,
    };
    assert!(!h.is_empty());
    assert!(!h.is_last_hop());
    assert_eq!(h.current_hop(), Some(4));
    assert_eq!(h.previous_hop(), Some(3));

    let last = SourceRoutingHeader {
        hops: vec![3, 4, 5],
        hop_index: 2,
    };
    assert!(last.is_last_hop());

    let empty = SourceRoutingHeader {
        hops: vec![],
        hop_index: 0,
    };
    assert!(empty.is_empty());
    assert!(!empty.is_last_hop());
    assert_eq!(empty.current_hop(), None);
    assert_eq!(empty.previous_hop(), None);

    let p = routed(PacketType::Ack(Ack { fragment_index: 1 }), vec![9, 8, 7]);
    let q = p.duplicate();
    assert_eq!(p, q);
}
