use vstd::prelude::*;
use crate::relay::admission::AdmissionGate;
use crate::relay::error::RelayError;
use crate::relay::hub::{Delivery, DeliveryView, Hub, HubView, Subscription, SubscriptionView};
use crate::relay::message::{Message, MessageView};

verus! {

/// Where a session stands in its life.
#[derive(Clone, Copy, Debug, PartialEq, Eq, Structural)]
pub enum SessionState {
    /// The credential was accepted; the transport has not been upgraded yet.
    Admitted,
    /// Both loops run.
    Active,
    /// One loop has found a reason to end the session; the other is being
    /// stopped.
    Draining,
    /// Both loops have confirmed their exit. Nothing is used any more.
    Closed,
}

/// One of the two loops of a session.
#[derive(Clone, Copy, Debug, PartialEq, Eq, Structural)]
pub enum Half {
    /// Client to hub.
    Inbound,
    /// Hub to client.
    Outbound,
}

/// What a read on the inbound half of the transport produced.
#[derive(Debug, PartialEq, Eq)]
pub enum Inbound {
    /// A frame arrived.
    Frame(Message),
    /// The read failed, or the stream ended without a close frame.
    Failed,
}

/// The mathematical content of an [`Inbound`].
pub enum InboundView {
    Frame(MessageView),
    Failed,
}

impl View for Inbound {
    type V = InboundView;

    open spec fn view(&self) -> InboundView {
        match self {
            Inbound::Frame(m) => InboundView::Frame(m@),
            Inbound::Failed => InboundView::Failed,
        }
    }
}

/// Whether a loop goes on.
#[derive(Clone, Copy, Debug, PartialEq, Eq, Structural)]
pub enum Flow {
    /// Take the next step.
    Continue,
    /// Signal cancellation to the other loop, confirm the exit and return.
    Stop,
}

/// What the outbound loop does next.
#[derive(Debug, PartialEq, Eq)]
pub enum Outbound {
    /// Write this message to the client, then report how the write went.
    Write(Message),
    /// Nothing to deliver yet: wait for a publish or for cancellation.
    Wait,
    /// Signal cancellation to the other loop, confirm the exit and return.
    Stop,
}

/// The mathematical content of an [`Outbound`].
pub enum OutboundView {
    Write(MessageView),
    Wait,
    Stop,
}

impl View for Outbound {
    type V = OutboundView;

    open spec fn view(&self) -> OutboundView {
        match self {
            Outbound::Write(m) => OutboundView::Write(m@),
            Outbound::Wait => OutboundView::Wait,
            Outbound::Stop => OutboundView::Stop,
        }
    }
}

/// The mathematical state of a session.
pub struct SessionView {
    pub state: SessionState,
    /// The read cursor into the hub, held from activation until both loops
    /// have gone.
    pub subscription: Option<SubscriptionView>,
    /// Whether the inbound loop has yet to confirm its exit.
    pub inbound_running: bool,
    /// Whether the outbound loop has yet to confirm its exit.
    pub outbound_running: bool,
    /// Why the session left `Active`, where an error made it.
    pub cause: Option<RelayError>,
}

impl SessionView {
    /// A session that has passed admission and nothing else.
    pub open spec fn admitted() -> SessionView {
        SessionView {
            state: SessionState::Admitted,
            subscription: None,
            inbound_running: false,
            outbound_running: false,
            cause: None,
        }
    }

    /// The states that the operations below produce and preserve.
    pub open spec fn wf(self) -> bool {
        match self.state {
            SessionState::Admitted => {
                &&& self.subscription is None
                &&& !self.inbound_running
                &&& !self.outbound_running
                &&& self.cause is None
            },
            SessionState::Active => {
                &&& self.subscription is Some
                &&& self.inbound_running
                &&& self.outbound_running
                &&& self.cause is None
            },
            SessionState::Draining => {
                &&& self.subscription is Some
                &&& (self.inbound_running || self.outbound_running)
            },
            SessionState::Closed => {
                &&& self.subscription is None
                &&& !self.inbound_running
                &&& !self.outbound_running
            },
        }
    }

    /// The cancellation signal that both loops observe: it is raised when the
    /// session leaves `Active` and never lowered.
    pub open spec fn cancelled(self) -> bool {
        self.state is Draining || self.state is Closed
    }

    /// The session after the transport has been upgraded: an admitted session
    /// becomes active with a fresh subscription to `hub`, and any other
    /// session stays as it is.
    pub open spec fn activate(self, hub: HubView) -> SessionView {
        if self.state is Admitted {
            SessionView {
                state: SessionState::Active,
                subscription: Some(hub.subscribe()),
                inbound_running: true,
                outbound_running: true,
                cause: None,
            }
        } else {
            self
        }
    }

    /// The session once a loop has found that it must end.
    pub open spec fn drain(self, cause: Option<RelayError>) -> SessionView {
        if self.state is Active {
            SessionView { state: SessionState::Draining, cause, ..self }
        } else {
            self
        }
    }

    /// One decision of the inbound loop: the session and the hub afterwards,
    /// and whether the loop goes on.
    pub open spec fn on_inbound(self, hub: HubView, input: InboundView) -> (
        SessionView,
        HubView,
        Flow,
    ) {
        if !(self.state is Active) {
            (self, hub, Flow::Stop)
        } else {
            match input {
                InboundView::Failed => (
                    self.drain(Some(RelayError::PeerDisconnected)),
                    hub,
                    Flow::Stop,
                ),
                InboundView::Frame(m) => {
                    if m is Close {
                        (self.drain(None), hub, Flow::Stop)
                    } else if !m.relayed() {
                        (self, hub, Flow::Continue)
                    } else if hub.accepting() {
                        (self, hub.publish(m), Flow::Continue)
                    } else {
                        (self.drain(Some(RelayError::HubUnavailable)), hub, Flow::Stop)
                    }
                },
            }
        }
    }

    /// One decision of the outbound loop before it writes: the session
    /// afterwards and what the loop does.
    pub open spec fn poll(self, hub: HubView) -> (SessionView, OutboundView) {
        if !(self.state is Active) || self.subscription is None {
            (self, OutboundView::Stop)
        } else {
            let (sub, delivery) = hub.next(self.subscription->0);
            let moved = SessionView { subscription: Some(sub), ..self };
            match delivery {
                DeliveryView::Message(m) => (moved, OutboundView::Write(m)),
                DeliveryView::Pending => (moved, OutboundView::Wait),
                DeliveryView::Lagged => (
                    moved.drain(Some(RelayError::SubscriberLagged)),
                    OutboundView::Stop,
                ),
                DeliveryView::Closed => (
                    moved.drain(Some(RelayError::HubUnavailable)),
                    OutboundView::Stop,
                ),
            }
        }
    }

    /// One decision of the outbound loop after a write: the session
    /// afterwards and whether the loop goes on.
    pub open spec fn on_write(self, delivered: bool) -> (SessionView, Flow) {
        if !(self.state is Active) {
            (self, Flow::Stop)
        } else if delivered {
            (self, Flow::Continue)
        } else {
            (self.drain(Some(RelayError::PeerDisconnected)), Flow::Stop)
        }
    }

    /// The session after the loop `half` has confirmed its exit, and whether
    /// this was the confirmation that closed the session.
    pub open spec fn confirm_exit(self, half: Half) -> (SessionView, bool) {
        if self.state is Active || self.state is Draining {
            let inbound_running = self.inbound_running && half != Half::Inbound;
            let outbound_running = self.outbound_running && half != Half::Outbound;
            if !inbound_running && !outbound_running {
                (
                    SessionView {
                        state: SessionState::Closed,
                        subscription: None,
                        inbound_running,
                        outbound_running,
                        ..self
                    },
                    true,
                )
            } else {
                (
                    SessionView {
                        state: SessionState::Draining,
                        inbound_running,
                        outbound_running,
                        ..self
                    },
                    false,
                )
            }
        } else {
            (self, false)
        }
    }
}

/// One connection: its place in the life cycle, its read cursor into the
/// hub, and the bookkeeping by which its two loops stop each other.
///
/// The loops themselves run elsewhere. Each brings what it read or wrote to
/// the session, and the session decides what happens next.
#[derive(Debug)]
pub struct Session {
    state: SessionState,
    subscription: Option<Subscription>,
    inbound_running: bool,
    outbound_running: bool,
    cause: Option<RelayError>,
}

impl View for Session {
    type V = SessionView;

    closed spec fn view(&self) -> SessionView {
        SessionView {
            state: self.state,
            subscription: match self.subscription {
                Some(sub) => Some(sub@),
                None => None,
            },
            inbound_running: self.inbound_running,
            outbound_running: self.outbound_running,
            cause: self.cause,
        }
    }
}

impl Session {
    /// Runs the admission check on an upgrade attempt and, if it passes,
    /// creates the session for the connection. A refused attempt leaves
    /// nothing behind: no session, and so no way to a subscription.
    pub fn accept(admission: &AdmissionGate, headers: &axum::http::HeaderMap) -> (r: Result<
        Session,
        RelayError,
    >)
        ensures
            r is Ok <==> admission.admits(*headers),
            r matches Ok(session) ==> session@ == SessionView::admitted(),
            r matches Err(e) ==> e == RelayError::AdmissionDenied,
    {
        match admission.authenticate(headers) {
            Ok(()) => Ok(
                Session {
                    state: SessionState::Admitted,
                    subscription: None,
                    inbound_running: false,
                    outbound_running: false,
                    cause: None,
                },
            ),
            Err(e) => Err(e),
        }
    }

    pub fn state(&self) -> (s: SessionState)
        ensures
            s == self@.state,
    {
        self.state
    }

    /// Why the session left `Active`, where an error made it.
    pub fn cause(&self) -> (c: Option<RelayError>)
        ensures
            c == self@.cause,
    {
        self.cause
    }

    /// Whether the cancellation signal is raised.
    pub fn is_cancelled(&self) -> (c: bool)
        ensures
            c == self@.cancelled(),
    {
        match self.state {
            SessionState::Draining => true,
            SessionState::Closed => true,
            _ => false,
        }
    }

    /// Whether the loop `half` has yet to confirm its exit.
    pub fn is_running(&self, half: Half) -> (r: bool)
        ensures
            r == match half {
                Half::Inbound => self@.inbound_running,
                Half::Outbound => self@.outbound_running,
            },
    {
        match half {
            Half::Inbound => self.inbound_running,
            Half::Outbound => self.outbound_running,
        }
    }

    /// The position of the read cursor, while the session holds one.
    pub fn position(&self) -> (p: Option<u64>)
        ensures
            p is Some <==> self@.subscription is Some,
            p matches Some(n) ==> n == self@.subscription->0.cursor,
    {
        match &self.subscription {
            Some(sub) => Some(sub.position()),
            None => None,
        }
    }

    /// Records the upgrade of the transport. An admitted session subscribes
    /// to `hub` at its tail and becomes active; on any other session this
    /// does nothing.
    pub fn activate(&mut self, hub: &Hub)
        ensures
            final(self)@ == old(self)@.activate(hub@),
    {
        match self.state {
            SessionState::Admitted => {
                self.state = SessionState::Active;
                self.subscription = Some(hub.subscribe());
                self.inbound_running = true;
                self.outbound_running = true;
                self.cause = None;
            },
            _ => {},
        }
    }

    fn drain(&mut self, cause: Option<RelayError>)
        ensures
            final(self)@ == old(self)@.drain(cause),
    {
        match self.state {
            SessionState::Active => {
                self.state = SessionState::Draining;
                self.cause = cause;
            },
            _ => {},
        }
    }

    /// Decides what the inbound loop does with what it has just read.
    ///
    /// Text and binary frames are published to `hub` as they are; ping and
    /// pong are left to the transport. A close frame, a failed read and a hub
    /// that takes no more messages each end the session. Once the session
    /// has left `Active` the answer is `Stop`, whatever was read, and nothing
    /// is published.
    pub fn on_inbound(&mut self, hub: &mut Hub, input: Inbound) -> (flow: Flow)
        ensures
            (final(self)@, final(hub)@, flow) == old(self)@.on_inbound(old(hub)@, input@),
    {
        match self.state {
            SessionState::Active => {},
            _ => {
                return Flow::Stop;
            },
        }
        match input {
            Inbound::Failed => {
                self.drain(Some(RelayError::PeerDisconnected));
                Flow::Stop
            },
            Inbound::Frame(message) => {
                if message.is_close() {
                    self.drain(None);
                    Flow::Stop
                } else if !message.is_relayed() {
                    Flow::Continue
                } else {
                    match hub.publish(message) {
                        Ok(()) => Flow::Continue,
                        Err(e) => {
                            self.drain(Some(e));
                            Flow::Stop
                        },
                    }
                }
            },
        }
    }

    /// Decides what the outbound loop does next, advancing the read cursor
    /// when there is a message to deliver.
    ///
    /// A lagging subscriber is not resumed and a hub that is gone is not
    /// waited for: both end the session. Once the session has left `Active`
    /// the answer is `Stop` and the cursor stays where it is.
    pub fn poll(&mut self, hub: &Hub) -> (action: Outbound)
        ensures
            (final(self)@, action@) == old(self)@.poll(hub@),
    {
        match self.state {
            SessionState::Active => {},
            _ => {
                return Outbound::Stop;
            },
        }
        let mut taken: Option<Subscription> = None;
        std::mem::swap(&mut taken, &mut self.subscription);
        match taken {
            None => Outbound::Stop,
            Some(mut sub) => {
                let delivery = hub.next(&mut sub);
                self.subscription = Some(sub);
                match delivery {
                    Delivery::Message(message) => Outbound::Write(message),
                    Delivery::Pending => Outbound::Wait,
                    Delivery::Lagged => {
                        self.drain(Some(RelayError::SubscriberLagged));
                        Outbound::Stop
                    },
                    Delivery::Closed => {
                        self.drain(Some(RelayError::HubUnavailable));
                        Outbound::Stop
                    },
                }
            },
        }
    }

    /// Decides what the outbound loop does after a write to the client:
    /// it goes on after a write that succeeded, and a write that failed ends
    /// the session. Once the session has left `Active` the answer is `Stop`.
    pub fn on_write(&mut self, delivered: bool) -> (flow: Flow)
        ensures
            (final(self)@, flow) == old(self)@.on_write(delivered),
    {
        match self.state {
            SessionState::Active => {},
            _ => {
                return Flow::Stop;
            },
        }
        if delivered {
            Flow::Continue
        } else {
            self.drain(Some(RelayError::PeerDisconnected));
            Flow::Stop
        }
    }

    /// Records that the loop `half` has returned. The result is `true` for
    /// the confirmation that closes the session, and only for that one: the
    /// caller then closes the transport. The subscription is discarded at
    /// that moment.
    pub fn confirm_exit(&mut self, half: Half) -> (closed: bool)
        ensures
            (final(self)@, closed) == old(self)@.confirm_exit(half),
    {
        match self.state {
            SessionState::Admitted => {
                return false;
            },
            SessionState::Closed => {
                return false;
            },
            _ => {},
        }
        match half {
            Half::Inbound => {
                self.inbound_running = false;
            },
            Half::Outbound => {
                self.outbound_running = false;
            },
        }
        if !self.inbound_running && !self.outbound_running {
            self.state = SessionState::Closed;
            self.subscription = None;
            true
        } else {
            self.state = SessionState::Draining;
            false
        }
    }
}

} // verus!
