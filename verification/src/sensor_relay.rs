//! The relay between the guest listener and the sensor: when it connects,
//! what it does with each payload, and when it gives up.

use vstd::prelude::*;
use crate::certs::Certs;
use crate::client::{client_plan, spec_user_agent, ClientPlan, Service, TLS_SERVER_NAME};
use crate::vsock::VmMessage;

verus! {

/// Where the relay stands.
#[derive(Debug, Clone, Copy, PartialEq, Eq, Structural)]
pub enum RelayPhase {
    /// Not started.
    Idle,
    /// Connecting for the first time.
    Connecting,
    /// Waiting for a payload or for shutdown.
    Receiving,
    /// Decoding a payload and sending it on.
    Forwarding,
    /// Connecting again after a payload could not be sent on.
    Reconnecting,
    /// Done.
    Stopped,
}

/// What became of a payload that was to be sent on.
#[derive(Debug, Clone, Copy, PartialEq, Eq, Structural)]
pub enum ForwardOutcome {
    /// The payload was decoded and upserted.
    Sent,
    /// The payload is no index report; it was dropped and nothing was sent.
    Undecodable,
    /// The payload was decoded, and the upsert failed.
    RpcFailed,
}

/// What the host reports to the relay.
#[derive(Debug, PartialEq, Eq)]
pub enum RelayEvent {
    /// The relay is to start.
    Begin,
    /// The connection attempt ended, well or not.
    Connected(bool),
    /// A payload arrived.
    Message(VmMessage),
    /// The queue of payloads was closed.
    QueueClosed,
    /// The payload was dealt with, in this way.
    Forwarded(ForwardOutcome),
    /// Shutdown was signalled.
    Shutdown,
}

/// What the relay asks of the host.
#[derive(Debug, PartialEq, Eq)]
pub enum RelayAction {
    /// Open a client to the sensor and report how it went.
    Connect,
    /// Wait for the next payload or for shutdown.
    Receive,
    /// Decode this payload as an index report and, if it is one, upsert it;
    /// report how it went.
    Forward(VmMessage),
    /// Leave; `true` for success.
    Exit(bool),
    /// Nothing: the event does not belong to the phase the relay is in.
    Ignored,
}

/// The relay.
pub struct SensorRelay {
    endpoint: String,
    certs: Option<Certs>,
    phase: RelayPhase,
}

/// The phase after `e`, and whether `e` belonged to the phase.
///
/// The first connection must succeed, or the relay leaves with failure. Each
/// payload is dealt with once. A payload that is no report is dropped, and
/// the relay goes on with the client it has. When an upsert fails the relay
/// connects again, once, and goes on with the next payload however the
/// attempt ends. Shutdown and a closed queue end the relay with success.
pub open spec fn relay_step(phase: RelayPhase, e: RelayEvent) -> (RelayPhase, bool) {
    match (phase, e) {
        (RelayPhase::Idle, RelayEvent::Begin) => (RelayPhase::Connecting, true),
        (RelayPhase::Connecting, RelayEvent::Connected(ok)) => (
            if ok {
                RelayPhase::Receiving
            } else {
                RelayPhase::Stopped
            },
            true,
        ),
        (RelayPhase::Receiving, RelayEvent::Message(_)) => (RelayPhase::Forwarding, true),
        (RelayPhase::Receiving, RelayEvent::QueueClosed) => (RelayPhase::Stopped, true),
        (RelayPhase::Receiving, RelayEvent::Shutdown) => (RelayPhase::Stopped, true),
        (RelayPhase::Forwarding, RelayEvent::Forwarded(outcome)) => (
            if outcome == ForwardOutcome::RpcFailed {
                RelayPhase::Reconnecting
            } else {
                RelayPhase::Receiving
            },
            true,
        ),
        (RelayPhase::Reconnecting, RelayEvent::Connected(_)) => (RelayPhase::Receiving, true),
        _ => (phase, false),
    }
}

/// What the relay asks for after `e` took it from `phase`.
pub open spec fn relay_action(phase: RelayPhase, e: RelayEvent) -> RelayAction {
    match (phase, e) {
        (RelayPhase::Idle, RelayEvent::Begin) => RelayAction::Connect,
        (RelayPhase::Connecting, RelayEvent::Connected(ok)) => if ok {
            RelayAction::Receive
        } else {
            RelayAction::Exit(false)
        },
        (RelayPhase::Receiving, RelayEvent::Message(m)) => RelayAction::Forward(m),
        (RelayPhase::Receiving, RelayEvent::QueueClosed) => RelayAction::Exit(true),
        (RelayPhase::Receiving, RelayEvent::Shutdown) => RelayAction::Exit(true),
        (RelayPhase::Forwarding, RelayEvent::Forwarded(outcome)) => if outcome
            == ForwardOutcome::RpcFailed {
            RelayAction::Connect
        } else {
            RelayAction::Receive
        },
        (RelayPhase::Reconnecting, RelayEvent::Connected(_)) => RelayAction::Receive,
        _ => RelayAction::Ignored,
    }
}

impl SensorRelay {
    /// The relay's upstream.
    pub closed spec fn endpoint(&self) -> Seq<char> {
        self.endpoint@
    }

    /// The relay's certificate bundle.
    pub closed spec fn certs(&self) -> Option<Certs> {
        self.certs
    }

    /// The phase the relay is in.
    pub closed spec fn spec_phase(&self) -> RelayPhase {
        self.phase
    }

    /// A relay to `endpoint`, not started.
    pub fn new(endpoint: String, certs: Option<Certs>) -> (r: Self)
        ensures
            r.endpoint() == endpoint@,
            r.certs() == certs,
            r.spec_phase() == RelayPhase::Idle,
    {
        SensorRelay { endpoint, certs, phase: RelayPhase::Idle }
    }

    /// The phase the relay is in.
    pub fn phase(&self) -> (r: RelayPhase)
        ensures
            r == self.spec_phase(),
    {
        self.phase
    }

    /// How the relay's client is to be set up: the index report service at
    /// the relay's upstream, under the relay's user agent, with TLS where a
    /// bundle is there.
    pub fn connect(&self) -> (r: ClientPlan)
        ensures
            r.service == Service::IndexReport,
            r.url@ == self.endpoint(),
            r.user_agent@ == spec_user_agent(true),
            r.tls is Some <==> self.certs() is Some,
            r.tls matches Some(t) ==> t.domain_name@ == TLS_SERVER_NAME@ && t.ca@
                == self.certs()->0.ca@ && t.cert@ == self.certs()->0.cert@ && t.key@
                == self.certs()->0.key@,
    {
        client_plan(Service::IndexReport, self.endpoint.as_str(), &self.certs, true)
    }

    /// Starts the relay: it connects first. A relay that was started before
    /// is left as it is.
    pub fn start(&mut self) -> (a: RelayAction)
        ensures
            final(self).spec_phase() == relay_step(old(self).spec_phase(), RelayEvent::Begin).0,
            final(self).endpoint() == old(self).endpoint(),
            final(self).certs() == old(self).certs(),
            a == relay_action(old(self).spec_phase(), RelayEvent::Begin),
    {
        self.step(RelayEvent::Begin)
    }

    /// Takes in what the host reports and says what to do next.
    pub fn step(&mut self, event: RelayEvent) -> (a: RelayAction)
        ensures
            final(self).spec_phase() == relay_step(old(self).spec_phase(), event).0,
            final(self).endpoint() == old(self).endpoint(),
            final(self).certs() == old(self).certs(),
            a == relay_action(old(self).spec_phase(), event),
    {
        match (self.phase, event) {
            (RelayPhase::Idle, RelayEvent::Begin) => {
                self.phase = RelayPhase::Connecting;
                RelayAction::Connect
            },
            (RelayPhase::Connecting, RelayEvent::Connected(ok)) => {
                if ok {
                    self.phase = RelayPhase::Receiving;
                    RelayAction::Receive
                } else {
                    self.phase = RelayPhase::Stopped;
                    RelayAction::Exit(false)
                }
            },
            (RelayPhase::Receiving, RelayEvent::Message(m)) => {
                self.phase = RelayPhase::Forwarding;
                RelayAction::Forward(m)
            },
            (RelayPhase::Receiving, RelayEvent::QueueClosed) => {
                self.phase = RelayPhase::Stopped;
                RelayAction::Exit(true)
            },
            (RelayPhase::Receiving, RelayEvent::Shutdown) => {
                self.phase = RelayPhase::Stopped;
                RelayAction::Exit(true)
            },
            (RelayPhase::Forwarding, RelayEvent::Forwarded(outcome)) => {
                match outcome {
                    ForwardOutcome::RpcFailed => {
                        self.phase = RelayPhase::Reconnecting;
                        RelayAction::Connect
                    },
                    _ => {
                        self.phase = RelayPhase::Receiving;
                        RelayAction::Receive
                    },
                }
            },
            (RelayPhase::Reconnecting, RelayEvent::Connected(_)) => {
                self.phase = RelayPhase::Receiving;
                RelayAction::Receive
            },
            _ => RelayAction::Ignored,
        }
    }
}

} // verus!
