//! The supervisor step: one iteration of the drone's event loop, as a pure
//! transition from drone state and observed event to next state and outcome.
//!
//! The surrounding process waits on the controller port and the ingress port
//! with a fixed priority (controller first), hands each observation to
//! [`MyDrone::step`], performs the returned actions in order, and obeys the
//! outcome: keep looping, terminate cleanly, or halt with a diagnostic.

use vstd::prelude::*;

use crate::packet::{NodeId, Packet, SpecPacket};
use crate::packet_processing::spec_process;
use crate::packet_sending::{draw_drop_value, spec_should_drop, Action, SpecAction};
use crate::{FatalError, MyDrone, SpecDrone, State, PDR_SCALE};

verus! {

/// A reconfiguration or shutdown order from the simulation controller.
#[derive(Clone, Copy, Debug, PartialEq, Eq)]
pub enum DroneCommand {
    /// Register (or replace) the port toward a neighbour.
    AddSender(NodeId),
    /// Unregister a neighbour's port.
    RemoveSender(NodeId),
    /// Replace the drop rate, as a fixed-point value against `PDR_SCALE`.
    SetPacketDropRate(i64),
    /// Begin the graceful shutdown: drain in-flight packets, then terminate
    /// once the ingress port closes.
    Crash,
}

/// One observation of the event loop's two input ports.
#[derive(Clone, Debug, PartialEq, Eq)]
pub enum LoopEvent {
    /// The controller port yielded a command.
    Command(DroneCommand),
    /// The controller port is closed: the controller must outlive the drone.
    CommandPortClosed,
    /// The ingress port yielded a packet.
    Packet(Packet),
    /// The ingress port is closed: every upstream sender is gone.
    IngressClosed,
}

/// What one loop iteration decides.
#[derive(Clone, Debug, PartialEq, Eq)]
pub enum StepOutcome {
    /// Perform these actions in order, then wait for the next event.
    Continue(Vec<Action>),
    /// The drone crashed gracefully: stop the loop.
    Terminate,
    /// A protocol violation: halt with a diagnostic.
    Fatal(FatalError),
}

/// View of a loop event.
pub enum SpecLoopEvent {
    Command(DroneCommand),
    CommandPortClosed,
    Packet(SpecPacket),
    IngressClosed,
}

/// View of a step outcome.
pub enum SpecStepOutcome {
    Continue(Seq<SpecAction>),
    Terminate,
    Fatal(FatalError),
}

impl View for LoopEvent {
    type V = SpecLoopEvent;

    open spec fn view(&self) -> SpecLoopEvent {
        match self {
            LoopEvent::Command(c) => SpecLoopEvent::Command(*c),
            LoopEvent::CommandPortClosed => SpecLoopEvent::CommandPortClosed,
            LoopEvent::Packet(p) => SpecLoopEvent::Packet(p@),
            LoopEvent::IngressClosed => SpecLoopEvent::IngressClosed,
        }
    }
}

impl View for StepOutcome {
    type V = SpecStepOutcome;

    open spec fn view(&self) -> SpecStepOutcome {
        match self {
            StepOutcome::Continue(v) => SpecStepOutcome::Continue(v.deep_view()),
            StepOutcome::Terminate => SpecStepOutcome::Terminate,
            StepOutcome::Fatal(e) => SpecStepOutcome::Fatal(*e),
        }
    }
}

/// What a controller command does to the drone's state, and when it is a
/// fatal controller error instead: adding the drone itself, removing an
/// unknown neighbour, or an out-of-range drop rate.
pub open spec fn spec_command(st: SpecDrone, cmd: DroneCommand) -> Result<SpecDrone, FatalError> {
    match cmd {
        DroneCommand::AddSender(n) => if n == st.id {
            Err(FatalError::SelfLoop)
        } else {
            Ok(
                SpecDrone {
                    neighbors: if st.neighbors.contains(n) {
                        st.neighbors
                    } else {
                        st.neighbors.push(n)
                    },
                    ..st
                },
            )
        },
        DroneCommand::RemoveSender(n) => if st.neighbors.contains(n) {
            Ok(SpecDrone { neighbors: st.neighbors.remove_value(n), ..st })
        } else {
            Err(FatalError::UnknownNeighbor)
        },
        DroneCommand::SetPacketDropRate(p) => if 0 <= p <= PDR_SCALE {
            Ok(SpecDrone { pdr: p as u64, ..st })
        } else {
            Err(FatalError::InvalidPdr)
        },
        DroneCommand::Crash => Ok(SpecDrone { state: State::Crashing, ..st }),
    }
}

/// One iteration of the event loop. Commands reconfigure the state and emit
/// nothing; packets take one processing step; a closed controller port is
/// always fatal; a closed ingress port is fatal while `Working` and the
/// clean termination signal while `Crashing`. A fatal condition leaves the
/// state as it was.
pub open spec fn spec_step(st: SpecDrone, event: SpecLoopEvent, drop: bool) -> (
    SpecDrone,
    SpecStepOutcome,
) {
    match event {
        SpecLoopEvent::Command(cmd) => match spec_command(st, cmd) {
            Ok(st2) => (st2, SpecStepOutcome::Continue(Seq::empty())),
            Err(e) => (st, SpecStepOutcome::Fatal(e)),
        },
        SpecLoopEvent::CommandPortClosed => (
            st,
            SpecStepOutcome::Fatal(FatalError::ControllerPortClosed),
        ),
        SpecLoopEvent::Packet(p) => {
            let (st2, acts) = spec_process(st, p, drop);
            match acts {
                Ok(a) => (st2, SpecStepOutcome::Continue(a)),
                Err(e) => (st2, SpecStepOutcome::Fatal(e)),
            }
        },
        SpecLoopEvent::IngressClosed => if st.state == State::Working {
            (st, SpecStepOutcome::Fatal(FatalError::IngressClosedWhileWorking))
        } else {
            (st, SpecStepOutcome::Terminate)
        },
    }
}

impl MyDrone {
    /// Applies a controller command, leaving the state untouched when the
    /// command is a fatal controller error.
    pub fn handle_command(&mut self, command: DroneCommand) -> (r: Result<(), FatalError>)
        requires
            old(self).wf(),
        ensures
            final(self).wf(),
            match spec_command(old(self)@, command) {
                Ok(st2) => r is Ok && final(self)@ == st2,
                Err(e) => r == Err::<(), FatalError>(e) && *final(self) == *old(self),
            },
    {
        match command {
            DroneCommand::AddSender(node_id) => self.add_channel(node_id),
            DroneCommand::RemoveSender(node_id) => self.remove_channel(node_id),
            DroneCommand::SetPacketDropRate(pdr) => self.set_pdr(pdr),
            DroneCommand::Crash => {
                self.set_state(State::Crashing);
                Ok(())
            },
        }
    }

    /// One iteration of the event loop, with `draw` deciding a probabilistic
    /// drop should the event carry a data fragment.
    pub fn step_with_draw(&mut self, event: LoopEvent, draw: u64) -> (r: StepOutcome)
        requires
            old(self).wf(),
            draw < PDR_SCALE,
        ensures
            final(self).wf(),
            ({
                let (st2, out) = spec_step(
                    old(self)@,
                    event@,
                    spec_should_drop(draw, old(self)@.pdr),
                );
                final(self)@ == st2 && r@ == out
            }),
    {
        match event {
            LoopEvent::Command(command) => match self.handle_command(command) {
                Ok(()) => {
                    let v: Vec<Action> = Vec::new();
                    proof {
                        assert(v.deep_view() =~= Seq::<SpecAction>::empty());
                    }
                    StepOutcome::Continue(v)
                },
                Err(e) => StepOutcome::Fatal(e),
            },
            LoopEvent::CommandPortClosed => StepOutcome::Fatal(FatalError::ControllerPortClosed),
            LoopEvent::Packet(packet) => match self.process_packet_with_draw(packet, draw) {
                Ok(actions) => StepOutcome::Continue(actions),
                Err(e) => StepOutcome::Fatal(e),
            },
            LoopEvent::IngressClosed => match self.state {
                State::Working => StepOutcome::Fatal(FatalError::IngressClosedWhileWorking),
                State::Crashing => StepOutcome::Terminate,
            },
        }
    }

    /// One iteration of the event loop, drawing the drop value from the
    /// drone's own random source.
    pub fn step(&mut self, event: LoopEvent) -> (r: StepOutcome)
        requires
            old(self).wf(),
        ensures
            final(self).wf(),
            exists|draw: u64|
                {
                    &&& draw < PDR_SCALE
                    &&& final(self)@ == (#[trigger] spec_step(
                        old(self)@,
                        event@,
                        spec_should_drop(draw, old(self)@.pdr),
                    )).0
                    &&& r@ == spec_step(
                        old(self)@,
                        event@,
                        spec_should_drop(draw, old(self)@.pdr),
                    ).1
                },
    {
        let draw = draw_drop_value();
        let ghost e0 = event@;
        let r = self.step_with_draw(event, draw);
        proof {
            let (st2, out) = spec_step(old(self)@, e0, spec_should_drop(draw, old(self)@.pdr));
            assert(self@ == st2 && r@ == out);
        }
        r
    }
}

} // verus!
