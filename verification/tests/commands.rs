//! Controller commands observed through the supervisor step: adding and
//! removing neighbours, changing the drop rate, and the crash discipline.

use null_pointer_drone::packet::{Fragment, Nack, NackType, Packet, PacketType, SourceRoutingHeader};
use null_pointer_drone::packet_sending::{Action, DroneEvent};
use null_pointer_drone::supervisor::{DroneCommand, LoopEvent, StepOutcome};
use null_pointer_drone::{FatalError, MyDrone, State, PDR_SCALE};

fn fragment_packet(hops: Vec<u8>, hop_index: usize) -> Packet {
    Packet {
        pack_type: PacketType::MsgFragment(Fragment {
            fragment_index: 0,
            total_n_fragments: 1,
            length: 128,
            data: [0; 128],
        }),
        routing_header: SourceRoutingHeader { hops, hop_index },
        session_id: 0,
    }
}

fn nack_packet(hops: Vec<u8>, nack_type: NackType) -> Packet {
    Packet {
        pack_type: PacketType::Nack(Nack {
            fragment_index: 0,
            nack_type,
        }),
        routing_header: SourceRoutingHeader { hops, hop_index: 1 },
        session_id: 0,
    }
}

fn expect_forwarded(drone: &mut MyDrone, hops: Vec<u8>, dest: u8) {
    let p = fragment_packet(hops.clone(), 1);
    let out = drone.step_with_draw(LoopEvent::Packet(p), 0);
    let expected = fragment_packet(hops, 2);
    assert_eq!(
        out,
        StepOutcome::Continue(vec![
            Action::ToNeighbor(dest, expected.clone()),
            Action::ToController(DroneEvent::PacketSent(expected)),
        ])
    );
}

/// topology: 0-1-2
/// send 0->(1)->2 and check it forwards
/// remove from 1 the neighbour 2
/// send 0->(1)->2 and check it returns the correct nack
#[test]
fn removesender() {
    let mut drone = MyDrone::new(1, vec![0, 2], 0).expect("valid drone");

    expect_forwarded(&mut drone, vec![0, 1, 2], 2);

    let out = drone.step_with_draw(LoopEvent::Command(DroneCommand::RemoveSender(2)), 0);
    assert_eq!(out, StepOutcome::Continue(vec![]));

    let p = fragment_packet(vec![0, 1, 2], 1);
    let out = drone.step_with_draw(LoopEvent::Packet(p), 0);
    let nack = nack_packet(vec![1, 0], NackType::ErrorInRouting(2));
    assert_eq!(
        out,
        StepOutcome::Continue(vec![
            Action::ToNeighbor(0, nack.clone()),
            Action::ToController(DroneEvent::PacketSent(nack)),
        ])
    );
}

/// topology: 0-1-2
/// send 0->(1)->2 and check it gives nack
/// add to 1 the neighbour 2
/// send 0->(1)->2 and check it behaves normally
#[test]
fn addsender() {
    let mut drone = MyDrone::new(1, vec![0], 0).expect("valid drone");

    let p = fragment_packet(vec![0, 1, 2], 1);
    let out = drone.step_with_draw(LoopEvent::Packet(p), 0);
    let nack = nack_packet(vec![1, 0], NackType::ErrorInRouting(2));
    assert_eq!(
        out,
        StepOutcome::Continue(vec![
            Action::ToNeighbor(0, nack.clone()),
            Action::ToController(DroneEvent::PacketSent(nack)),
        ])
    );

    let out = drone.step_with_draw(LoopEvent::Command(DroneCommand::AddSender(2)), 0);
    assert_eq!(out, StepOutcome::Continue(vec![]));

    expect_forwarded(&mut drone, vec![0, 1, 2], 2);
}

/// topology: 0-1-2
/// send 0->(1)->2 and check it behaves normally
/// set pdr with command to the full rate
/// send 0->(1)->2 and check it gives a dropped nack
#[test]
fn changepdr() {
    let mut drone = MyDrone::new(1, vec![0, 2], 0).expect("valid drone");

    expect_forwarded(&mut drone, vec![0, 1, 2], 2);

    let out = drone.step_with_draw(
        LoopEvent::Command(DroneCommand::SetPacketDropRate(PDR_SCALE as i64)),
        0,
    );
    assert_eq!(out, StepOutcome::Continue(vec![]));

    let p = fragment_packet(vec![0, 1, 2], 1);
    let out = drone.step_with_draw(LoopEvent::Packet(p), 0);
    let dropped = fragment_packet(vec![0, 1, 2], 2);
    let nack = nack_packet(vec![1, 0], NackType::Dropped);
    assert_eq!(
        out,
        StepOutcome::Continue(vec![
            Action::ToController(DroneEvent::PacketDropped(dropped)),
            Action::ToNeighbor(0, nack.clone()),
            Action::ToController(DroneEvent::PacketSent(nack)),
        ])
    );
}

/// topology: 0-1-2
/// send 0->(1)->2 and check it behaves normally
/// send crash command to drone 1
/// send 0->(1)->2 and check it behaves normally
/// close the ingress port
/// check that the drone terminates
#[test]
fn crash() {
    let mut drone = MyDrone::new(1, vec![0, 2], 0).expect("valid drone");

    expect_forwarded(&mut drone, vec![0, 1, 2], 2);

    let out = drone.step_with_draw(LoopEvent::Command(DroneCommand::Crash), 0);
    assert_eq!(out, StepOutcome::Continue(vec![]));
    assert_eq!(drone.state, State::Crashing);

    expect_forwarded(&mut drone, vec![0, 1, 2], 2);

    let out = drone.step_with_draw(LoopEvent::IngressClosed, 0);
    assert_eq!(out, StepOutcome::Terminate);
}

/// an out-of-range rate from the controller is the fatal `InvalidPdr`
#[test]
fn changepdr_out_of_range() {
    let mut drone = MyDrone::new(1, vec![0, 2], 0).expect("valid drone");
    let out = drone.step_with_draw(
        LoopEvent::Command(DroneCommand::SetPacketDropRate(PDR_SCALE as i64 + 1)),
        0,
    );
    assert_eq!(out, StepOutcome::Fatal(FatalError::InvalidPdr));

    let mut drone = MyDrone::new(1, vec![0, 2], 0).expect("valid drone");
    let out = drone.handle_command(DroneCommand::SetPacketDropRate(-1));
    assert_eq!(out, Err(FatalError::InvalidPdr));
}

/// adding the drone's own id is the fatal `SelfLoop`
#[test]
fn addsender_self_is_fatal() {
    let mut drone = MyDrone::new(1, vec![0], 0).expect("valid drone");
    let out = drone.handle_command(DroneCommand::AddSender(1));
    assert_eq!(out, Err(FatalError::SelfLoop));
    assert_eq!(drone.neighbors, vec![0]);
}

/// registering an existing neighbour again keeps the table as it was
#[test]
fn addsender_replaces_idempotently() {
    let mut drone = MyDrone::new(1, vec![0, 2], 0).expect("valid drone");
    let out = drone.handle_command(DroneCommand::AddSender(2));
    assert_eq!(out, Ok(()));
    assert_eq!(drone.neighbors, vec![0, 2]);
}
