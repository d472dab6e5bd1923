use vstd::prelude::*;

use crate::hub::Delivery;
use crate::state::SensorStateMap;

verus! {

/// One of the two activities of a live session.
#[derive(Clone, Copy, Debug, PartialEq, Eq, Structural)]
pub enum Pump {
    /// Forwards published snapshots to the client.
    Outbound,
    /// Drains what the client sends.
    Inbound,
}

/// The stage a session is in.
#[derive(Clone, Copy, Debug, PartialEq, Eq, Structural)]
pub enum Phase {
    Connecting,
    Active,
    Closing,
    Closed,
}

/// What happened to a session.
#[derive(Clone, Copy, Debug, PartialEq, Eq, Structural)]
pub enum SessionEvent {
    /// The transport handshake completed.
    Upgraded,
    /// The transport handshake failed.
    UpgradeFailed,
    /// A pump ended: error, close by the client, end of stream, or cancelled.
    PumpExited(Pump),
}

/// What the session's driver must do next.
#[derive(Clone, Copy, Debug, PartialEq, Eq, Structural)]
pub enum SessionAction {
    /// Nothing.
    Idle,
    /// Subscribe to the hub and start both pumps.
    StartPumps,
    /// Cancel this pump, the sibling of the one that ended.
    Cancel(Pump),
    /// Both pumps are gone: release the subscription and the transport.
    Release,
}

/// The content of a session: its phase and which pumps run.
pub struct SessionView {
    pub phase: Phase,
    pub outbound: bool,
    pub inbound: bool,
}

pub open spec fn other(p: Pump) -> Pump {
    match p {
        Pump::Outbound => Pump::Inbound,
        Pump::Inbound => Pump::Outbound,
    }
}

pub open spec fn runs(v: SessionView, p: Pump) -> bool {
    match p {
        Pump::Outbound => v.outbound,
        Pump::Inbound => v.inbound,
    }
}

/// A view in which only pump `p` runs.
pub open spec fn only(phase: Phase, p: Pump) -> SessionView {
    SessionView { phase, outbound: p == Pump::Outbound, inbound: p == Pump::Inbound }
}

/// The pumps that run are those that the phase allows: none before
/// activation and after closing, both while active, one while closing.
pub open spec fn session_wf(v: SessionView) -> bool {
    match v.phase {
        Phase::Connecting => !v.outbound && !v.inbound,
        Phase::Active => v.outbound && v.inbound,
        Phase::Closing => v.outbound != v.inbound,
        Phase::Closed => !v.outbound && !v.inbound,
    }
}

/// The transition of a session on an event, with the action it asks for.
/// When either pump of an active session ends the other is cancelled; the
/// session is closed once both have ended. Any other event is ignored.
pub open spec fn step_spec(v: SessionView, ev: SessionEvent) -> (SessionView, SessionAction) {
    match (v.phase, ev) {
        (Phase::Connecting, SessionEvent::Upgraded) => (
            SessionView { phase: Phase::Active, outbound: true, inbound: true },
            SessionAction::StartPumps,
        ),
        (Phase::Connecting, SessionEvent::UpgradeFailed) => (
            SessionView { phase: Phase::Closed, outbound: false, inbound: false },
            SessionAction::Idle,
        ),
        (Phase::Active, SessionEvent::PumpExited(p)) => (
            only(Phase::Closing, other(p)),
            SessionAction::Cancel(other(p)),
        ),
        (Phase::Closing, SessionEvent::PumpExited(p)) => if runs(v, p) {
            (
                SessionView { phase: Phase::Closed, outbound: false, inbound: false },
                SessionAction::Release,
            )
        } else {
            (v, SessionAction::Idle)
        },
        _ => (v, SessionAction::Idle),
    }
}

/// The decisions of one client connection, driven by the events its
/// driver reports.
pub struct ConnectionSession {
    phase: Phase,
    outbound: bool,
    inbound: bool,
}

impl View for ConnectionSession {
    type V = SessionView;

    closed spec fn view(&self) -> SessionView {
        SessionView { phase: self.phase, outbound: self.outbound, inbound: self.inbound }
    }
}

impl ConnectionSession {
    /// A session whose handshake is under way.
    pub fn new() -> (r: ConnectionSession)
        ensures
            r@ == (SessionView { phase: Phase::Connecting, outbound: false, inbound: false }),
    {
        ConnectionSession { phase: Phase::Connecting, outbound: false, inbound: false }
    }

    pub fn phase(&self) -> (r: Phase)
        ensures
            r == self@.phase,
    {
        self.phase
    }

    pub fn is_running(&self, p: Pump) -> (r: bool)
        ensures
            r == runs(self@, p),
    {
        match p {
            Pump::Outbound => self.outbound,
            Pump::Inbound => self.inbound,
        }
    }

    /// Takes the session through `ev` and returns what the driver must do.
    pub fn step(&mut self, ev: SessionEvent) -> (action: SessionAction)
        ensures
            (final(self)@, action) == step_spec(old(self)@, ev),
    {
        match (self.phase, ev) {
            (Phase::Connecting, SessionEvent::Upgraded) => {
                self.phase = Phase::Active;
                self.outbound = true;
                self.inbound = true;
                SessionAction::StartPumps
            },
            (Phase::Connecting, SessionEvent::UpgradeFailed) => {
                self.phase = Phase::Closed;
                self.outbound = false;
                self.inbound = false;
                SessionAction::Idle
            },
            (Phase::Active, SessionEvent::PumpExited(p)) => {
                self.phase = Phase::Closing;
                let sibling = match p {
                    Pump::Outbound => Pump::Inbound,
                    Pump::Inbound => Pump::Outbound,
                };
                self.outbound = sibling == Pump::Outbound;
                self.inbound = sibling == Pump::Inbound;
                SessionAction::Cancel(sibling)
            },
            (Phase::Closing, SessionEvent::PumpExited(p)) => {
                if self.is_running(p) {
                    self.phase = Phase::Closed;
                    self.outbound = false;
                    self.inbound = false;
                    SessionAction::Release
                } else {
                    SessionAction::Idle
                }
            },
            _ => SessionAction::Idle,
        }
    }
}

/// What the outbound pump does with a delivery from its subscription.
pub enum OutboundStep {
    /// Send this snapshot to the client.
    Forward(SensorStateMap),
    /// Nothing yet: wait for the next publish.
    Wait,
    /// End the pump.
    Stop,
}

/// The outbound pump forwards each snapshot in order, waits when there is
/// none, and ends when it has lagged or the hub is gone.
pub fn outbound_step(d: Delivery) -> (r: OutboundStep)
    ensures
        r == match d {
            Delivery::Snapshot(s) => OutboundStep::Forward(s),
            Delivery::Empty => OutboundStep::Wait,
            Delivery::Lagged(_) => OutboundStep::Stop,
            Delivery::Closed => OutboundStep::Stop,
        },
{
    match d {
        Delivery::Snapshot(s) => OutboundStep::Forward(s),
        Delivery::Empty => OutboundStep::Wait,
        Delivery::Lagged(_) => OutboundStep::Stop,
        Delivery::Closed => OutboundStep::Stop,
    }
}

/// A frame read from the client, or why there is none.
pub enum InboundFrame {
    Text(String),
    Binary,
    Ping,
    Pong,
    /// The client closed the connection.
    Close,
    /// The transport failed.
    Error,
    /// The stream ended.
    End,
}

/// What the inbound pump does with a frame.
#[derive(Clone, Copy, Debug, PartialEq, Eq, Structural)]
pub enum InboundStep {
    /// Drop it and read on: client payloads carry no mutation.
    Discard,
    /// End the pump.
    Stop,
}

/// The inbound pump discards every data frame and ends on a close, a
/// transport error or the end of the stream.
pub fn inbound_step(f: &InboundFrame) -> (r: InboundStep)
    ensures
        r == (match f {
            InboundFrame::Close | InboundFrame::Error | InboundFrame::End => InboundStep::Stop,
            _ => InboundStep::Discard,
        }),
{
    match f {
        InboundFrame::Close | InboundFrame::Error | InboundFrame::End => InboundStep::Stop,
        _ => InboundStep::Discard,
    }
}

} // verus!
