//! Fatal protocol violations: each one is reported so the surrounding
//! process can halt with a diagnostic.

use null_pointer_drone::packet::{
    FloodRequest, Fragment, Packet, PacketType, SourceRoutingHeader,
};
use null_pointer_drone::supervisor::{DroneCommand, LoopEvent, StepOutcome};
use null_pointer_drone::{FatalError, MyDrone};

fn fragment_packet(hops: Vec<u8>, hop_index: usize) -> Packet {
    Packet {
        pack_type: PacketType::MsgFragment(Fragment {
            fragment_index: 0,
            total_n_fragments: 1,
            length: 128,
            data: [0; 128],
        }),
        routing_header: SourceRoutingHeader { hops, hop_index },
        session_id: 0,
    }
}

#[test]
fn dropped_command_sender() {
    let mut drone = MyDrone::new(1, vec![], 0).expect("valid drone");
    let out = drone.step_with_draw(LoopEvent::CommandPortClosed, 0);
    assert_eq!(out, StepOutcome::Fatal(FatalError::ControllerPortClosed));
}

#[test]
fn dropped_packet_sender() {
    let mut drone = MyDrone::new(1, vec![], 0).expect("valid drone");
    let out = drone.step_with_draw(LoopEvent::IngressClosed, 0);
    assert_eq!(out, StepOutcome::Fatal(FatalError::IngressClosedWhileWorking));
}

#[test]
fn remove_nonexisting_channel() {
    let mut drone = MyDrone::new(1, vec![], 0).expect("valid drone");
    let out = drone.step_with_draw(LoopEvent::Command(DroneCommand::RemoveSender(1)), 0);
    assert_eq!(out, StepOutcome::Fatal(FatalError::UnknownNeighbor));
}

#[test]
fn empty_routing_header() {
    let mut drone = MyDrone::new(1, vec![], 0).expect("valid drone");
    let p = fragment_packet(vec![], 1);
    let out = drone.process_packet(p);
    assert_eq!(out.unwrap_err(), FatalError::EmptyRoutingHeader);
}

#[test]
fn hop_index_out_of_bounds() {
    let mut drone = MyDrone::new(1, vec![], 0).expect("valid drone");
    let p = fragment_packet(vec![1, 2], 2);
    let out = drone.process_packet(p);
    assert_eq!(out.unwrap_err(), FatalError::HopIndexOutOfBounds);
}

#[test]
fn hop_index_0() {
    let mut drone = MyDrone::new(1, vec![], 0).expect("valid drone");
    let p = fragment_packet(vec![1, 2, 3, 4, 5], 0);
    let out = drone.process_packet(p);
    assert_eq!(out.unwrap_err(), FatalError::HopIndexZero);
}

#[test]
fn no_path_trace() {
    let mut drone = MyDrone::new(1, vec![], 0).expect("valid drone");
    let p = Packet {
        pack_type: PacketType::FloodRequest(FloodRequest {
            flood_id: 0,
            initiator_id: 0,
            path_trace: vec![],
        }),
        routing_header: SourceRoutingHeader {
            hops: vec![],
            hop_index: 0,
        },
        session_id: 0,
    };
    let out = drone.process_packet(p);
    assert_eq!(out.unwrap_err(), FatalError::EmptyPathTrace);
}

/// a fatal step leaves the drone's state exactly as it was
#[test]
fn fatal_leaves_state_untouched() {
    let mut drone = MyDrone::new(1, vec![0, 2], 0).expect("valid drone");
    let before = (
        drone.id,
        drone.pdr,
        drone.neighbors.clone(),
        drone.known_flood_ids.clone(),
        drone.state,
    );
    let out = drone.step_with_draw(LoopEvent::Command(DroneCommand::RemoveSender(9)), 0);
    assert_eq!(out, StepOutcome::Fatal(FatalError::UnknownNeighbor));
    let after = (
        drone.id,
        drone.pdr,
        drone.neighbors.clone(),
        drone.known_flood_ids.clone(),
        drone.state,
    );
    assert_eq!(before, after);
}
