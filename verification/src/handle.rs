//! One connection handle per client: the heartbeat state machine that keeps
//! a connection alive, detects a silent peer, and notifies the registry of
//! its own disconnection exactly once.
//!
//! The handle is a pure state machine: the transport layer feeds it events
//! (`step`, `on_heartbeat_tick`) and performs the actions it returns. Times
//! are in the configured time unit (seconds in the reference deployment).

use vstd::prelude::*;

verus! {

/// How often the heartbeat timer fires, in time units.
pub const HEARTBEAT_INTERVAL: i64 = 5;

/// How long the peer may stay silent before the handle disconnects itself,
/// in time units.
pub const CLIENT_TIMEOUT: i64 = 10;

/// Lifecycle of a connection handle.
#[derive(Clone, Copy, Debug, PartialEq, Eq, Structural)]
pub enum HandleState {
    /// Created; waiting for the registry to resolve the session identity.
    Starting,
    /// Registered; heartbeat loop running.
    Active,
    /// Shutting down; the registry has been notified.
    Closing,
    /// Fully stopped.
    Closed,
}

/// Everything the transport layer can report to a handle.
pub enum HandleEvent {
    /// The registry answered the Connect with the resolved identity.
    ConnectResolved { id: String },
    /// The registry could not be reached; the handle gives up.
    ConnectFailed,
    /// A ping arrived from the peer at time `now`.
    PingReceived { now: i64 },
    /// A pong arrived from the peer at time `now`.
    PongReceived { now: i64 },
    /// An application data frame arrived; accepted, not interpreted.
    TextFrame,
    /// A binary frame arrived; accepted, not interpreted.
    BinaryFrame,
    /// An empty event from the transport; nothing happens.
    NopFrame,
    /// The peer closed the connection.
    CloseReceived,
    /// An unsupported continuation frame arrived; the handle shuts down.
    ContinuationReceived,
    /// The transport reported a protocol error; the handle shuts down.
    ProtocolError,
    /// The surrounding runtime stops the handle for good.
    Stop,
}

/// What the transport layer must do after a step.
#[derive(Clone, Copy, Debug, PartialEq, Eq, Structural)]
pub enum HandleAction {
    /// Nothing to do.
    Idle,
    /// Answer the peer's ping with a pong.
    ReplyPong,
    /// Send a liveness probe (ping) to the peer.
    EmitProbe,
    /// Tell the registry this handle's session disconnected.
    NotifyDisconnect,
}

/// A connection handle: session identity plus heartbeat bookkeeping.
pub struct ConnectionHandle {
    /// The session identifier this handle answers for; adopted from the
    /// registry's Connect reply once it arrives.
    pub id: String,
    /// Where the handle stands in its lifecycle.
    pub state: HandleState,
    /// When the last liveness signal (ping or pong) was received.
    pub last_signal: i64,
    /// Whether the registry has already been told of this disconnection.
    pub disconnect_notified: bool,
}

impl ConnectionHandle {
    /// The handle's bookkeeping is consistent: the registry has been
    /// notified exactly on the shutdown paths.
    pub open spec fn wf(&self) -> bool {
        self.disconnect_notified <==> (self.state is Closing || self.state is Closed)
    }

    /// A handle for a freshly opened connection carrying the (possibly
    /// empty) inbound identifier; the peer counts as alive right now.
    pub fn new(id: String, now: i64) -> (r: ConnectionHandle)
        ensures
            r.wf(),
            r.id@ == id@,
            r.state is Starting,
            r.last_signal == now,
            !r.disconnect_notified,
    {
        ConnectionHandle { id, state: HandleState::Starting, last_signal: now, disconnect_notified: false }
    }
}

/// Shutdown entered from any state: the handle is closing, and the registry
/// is notified now if it has not been yet.
pub open spec fn spec_close(h: ConnectionHandle) -> ConnectionHandle {
    ConnectionHandle {
        state: if h.state is Closed {
            HandleState::Closed
        } else {
            HandleState::Closing
        },
        disconnect_notified: true,
        ..h
    }
}

/// The handle's transition function, one event at a time.
pub open spec fn spec_step(h: ConnectionHandle, e: HandleEvent) -> ConnectionHandle {
    match e {
        HandleEvent::ConnectResolved { id } => if h.state is Starting {
            ConnectionHandle { id, state: HandleState::Active, ..h }
        } else {
            h
        },
        HandleEvent::ConnectFailed => if h.state is Starting {
            spec_close(h)
        } else {
            h
        },
        HandleEvent::PingReceived { now } => if h.state is Active {
            ConnectionHandle { last_signal: now, ..h }
        } else {
            h
        },
        HandleEvent::PongReceived { now } => if h.state is Active {
            ConnectionHandle { last_signal: now, ..h }
        } else {
            h
        },
        HandleEvent::TextFrame => h,
        HandleEvent::BinaryFrame => h,
        HandleEvent::NopFrame => h,
        HandleEvent::CloseReceived => spec_close(h),
        HandleEvent::ContinuationReceived => spec_close(h),
        HandleEvent::ProtocolError => spec_close(h),
        HandleEvent::Stop => ConnectionHandle {
            state: HandleState::Closed,
            disconnect_notified: true,
            ..h
        },
    }
}

/// What a step hands back to the transport layer.
pub open spec fn spec_action(h: ConnectionHandle, e: HandleEvent) -> HandleAction {
    match e {
        HandleEvent::ConnectResolved { .. } => HandleAction::Idle,
        HandleEvent::ConnectFailed => if h.state is Starting && !h.disconnect_notified {
            HandleAction::NotifyDisconnect
        } else {
            HandleAction::Idle
        },
        HandleEvent::PingReceived { .. } => if h.state is Active {
            HandleAction::ReplyPong
        } else {
            HandleAction::Idle
        },
        HandleEvent::PongReceived { .. } => HandleAction::Idle,
        HandleEvent::TextFrame => HandleAction::Idle,
        HandleEvent::BinaryFrame => HandleAction::Idle,
        HandleEvent::NopFrame => HandleAction::Idle,
        HandleEvent::CloseReceived => if !h.disconnect_notified {
            HandleAction::NotifyDisconnect
        } else {
            HandleAction::Idle
        },
        HandleEvent::ContinuationReceived => if !h.disconnect_notified {
            HandleAction::NotifyDisconnect
        } else {
            HandleAction::Idle
        },
        HandleEvent::ProtocolError => if !h.disconnect_notified {
            HandleAction::NotifyDisconnect
        } else {
            HandleAction::Idle
        },
        HandleEvent::Stop => if !h.disconnect_notified {
            HandleAction::NotifyDisconnect
        } else {
            HandleAction::Idle
        },
    }
}

/// Does this step notify the registry of a disconnection?
pub open spec fn step_notifies(h: ConnectionHandle, e: HandleEvent) -> bool {
    spec_action(h, e) == HandleAction::NotifyDisconnect
}

/// The heartbeat tick as a transition: past the timeout the handle closes
/// without a further probe; otherwise it probes.
pub open spec fn spec_tick(h: ConnectionHandle, now: i64) -> ConnectionHandle {
    if h.state is Active && now - h.last_signal > CLIENT_TIMEOUT {
        spec_close(h)
    } else {
        h
    }
}

/// What the heartbeat tick asks of the transport layer.
pub open spec fn spec_tick_action(h: ConnectionHandle, now: i64) -> HandleAction {
    if h.state is Active {
        if now - h.last_signal > CLIENT_TIMEOUT {
            HandleAction::NotifyDisconnect
        } else {
            HandleAction::EmitProbe
        }
    } else {
        HandleAction::Idle
    }
}

impl ConnectionHandle {
    /// Applies one transport event and returns what to do for it.
    pub fn step(&mut self, e: HandleEvent) -> (r: HandleAction)
        requires
            old(self).wf(),
        ensures
            final(self).wf(),
            *final(self) == spec_step(*old(self), e),
            r == spec_action(*old(self), e),
    {
        match e {
            HandleEvent::ConnectResolved { id } => {
                if matches!(self.state, HandleState::Starting) {
                    self.id = id;
                    self.state = HandleState::Active;
                }
                HandleAction::Idle
            },
            HandleEvent::ConnectFailed => {
                if matches!(self.state, HandleState::Starting) {
                    self.close()
                } else {
                    HandleAction::Idle
                }
            },
            HandleEvent::PingReceived { now } => {
                if matches!(self.state, HandleState::Active) {
                    self.last_signal = now;
                    HandleAction::ReplyPong
                } else {
                    HandleAction::Idle
                }
            },
            HandleEvent::PongReceived { now } => {
                if matches!(self.state, HandleState::Active) {
                    self.last_signal = now;
                }
                HandleAction::Idle
            },
            HandleEvent::TextFrame => HandleAction::Idle,
            HandleEvent::BinaryFrame => HandleAction::Idle,
            HandleEvent::NopFrame => HandleAction::Idle,
            HandleEvent::CloseReceived => self.close(),
            HandleEvent::ContinuationReceived => self.close(),
            HandleEvent::ProtocolError => self.close(),
            HandleEvent::Stop => {
                let notified = self.disconnect_notified;
                self.state = HandleState::Closed;
                self.disconnect_notified = true;
                if notified {
                    HandleAction::Idle
                } else {
                    HandleAction::NotifyDisconnect
                }
            },
        }
    }

    /// One heartbeat timer tick at time `now`: a peer silent for more than
    /// `CLIENT_TIMEOUT` makes the handle disconnect itself — once — and no
    /// probe is emitted for it; a live peer gets the next probe.
    pub fn on_heartbeat_tick(&mut self, now: i64) -> (r: HandleAction)
        requires
            old(self).wf(),
        ensures
            final(self).wf(),
            *final(self) == spec_tick(*old(self), now),
            r == spec_tick_action(*old(self), now),
    {
        if matches!(self.state, HandleState::Active) {
            let elapsed: i128 = now as i128 - self.last_signal as i128;
            if elapsed > CLIENT_TIMEOUT as i128 {
                self.close()
            } else {
                HandleAction::EmitProbe
            }
        } else {
            HandleAction::Idle
        }
    }

    /// A message routed from the registry is forwarded verbatim as one
    /// outbound frame; no transformation, no acknowledgement.
    pub fn outbound_frame(&self, payload: String) -> (r: String)
        ensures
            r@ == payload@,
    {
        payload
    }

    fn close(&mut self) -> (r: HandleAction)
        ensures
            *final(self) == spec_close(*old(self)),
            r == (if old(self).disconnect_notified {
                HandleAction::Idle
            } else {
                HandleAction::NotifyDisconnect
            }),
    {
        if !matches!(self.state, HandleState::Closed) {
            self.state = HandleState::Closing;
        }
        let notified = self.disconnect_notified;
        self.disconnect_notified = true;
        if notified {
            HandleAction::Idle
        } else {
            HandleAction::NotifyDisconnect
        }
    }
}

/// Disconnect notifications emitted along a run of events.
pub open spec fn notify_count(h: ConnectionHandle, es: Seq<HandleEvent>) -> nat
    decreases es.len(),
{
    if es.len() == 0 {
        0
    } else {
        (if step_notifies(h, es[0]) {
            1nat
        } else {
            0nat
        }) + notify_count(spec_step(h, es[0]), es.subrange(1, es.len() as int))
    }
}

proof fn lemma_step_wf(h: ConnectionHandle, e: HandleEvent)
    requires
        h.wf(),
    ensures
        spec_step(h, e).wf(),
        step_notifies(h, e) ==> !h.disconnect_notified,
        spec_step(h, e).disconnect_notified == (h.disconnect_notified || step_notifies(h, e)),
{
}

/// Law: over any run of transport events, a well-formed handle notifies the
/// registry of its disconnection at most once — multiple close reports,
/// errors and stops after the first notification all stay silent.
pub proof fn lemma_disconnect_at_most_once(h: ConnectionHandle, es: Seq<HandleEvent>)
    requires
        h.wf(),
    ensures
        notify_count(h, es) <= 1,
        h.disconnect_notified ==> notify_count(h, es) == 0,
    decreases es.len(),
{
    if es.len() > 0 {
        lemma_step_wf(h, es[0]);
        lemma_disconnect_at_most_once(spec_step(h, es[0]), es.subrange(1, es.len() as int));
    }
}

/// Law: a handle that is Active and has heard nothing from its peer for more
/// than `CLIENT_TIMEOUT` time units notifies the registry on the next
/// heartbeat tick, and exactly once over that tick and everything after it.
pub proof fn lemma_timeout_disconnects_once(h: ConnectionHandle, now: i64, es: Seq<HandleEvent>)
    requires
        h.wf(),
        h.state is Active,
        now - h.last_signal > CLIENT_TIMEOUT,
    ensures
        spec_tick_action(h, now) == HandleAction::NotifyDisconnect,
        spec_tick(h, now).wf(),
        notify_count(spec_tick(h, now), es) == 0,
{
    lemma_disconnect_at_most_once(spec_tick(h, now), es);
}

} // verus!
