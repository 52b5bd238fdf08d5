//! The gateway connection: the aggregate that binds the handshake
//! coordinator, the sequence tracker and the heartbeat timer to one
//! socket's lifetime. The caller owns the socket and the clock: it opens
//! the socket, hands every inbound frame here, writes whatever frames this
//! object answers with, and reports transport failures. States move only
//! forward — `Connecting`, `Handshaking`, `Connected`, `Closed` — and a
//! closed connection is never reused; reconnection is a fresh instance.

use vstd::prelude::*;

use crate::codec::{decode, spec_decode, spec_encode, SendableGatewayMessage};
use crate::config::BotConfig;
use crate::dispatch::{spec_dispatch, GatewayEvent};
use crate::error::GatewayError;
use crate::handshake::{
    hs_step, spec_identify_payload, spec_is_hello, spec_is_ready, HandshakeAction,
    HandshakeCoordinator, HandshakeModel, Ready,
};
use crate::heartbeat::{heartbeat_payload_text, sat_add, Heartbeat, HeartbeatScheduler};
use crate::tracker::{observed, SequenceTracker};

verus! {

/// Check and parse the gateway URL the bootstrap answer named, before a
/// socket is opened to it. A string the URL grammar rejects can never
/// reach the transport; the failure is the same terminal transport error
/// the caller would see from a failed open.
pub fn parse_gateway_url(s: &str) -> (r: Result<url::Url, GatewayError>)
    ensures
        r is Ok <==> crate::outside::url_accepted(s@),
        r is Err ==> r->Err_0 == GatewayError::TransportError,
{
    match crate::outside::parse_url(s) {
        Ok(u) => Ok(u),
        Err(_) => Err(GatewayError::TransportError),
    }
}

/// Where a connection stands in its life.
#[derive(Clone, Copy, Debug, PartialEq, Eq, Structural)]
pub enum ConnectionState {
    /// Constructed; the socket is not open yet.
    Connecting,
    /// The socket is open; the opening exchange is running.
    Handshaking,
    /// The exchange succeeded; events flow and heartbeats are owed.
    Connected,
    /// Torn down for good, by failure or by explicit shutdown.
    Closed,
}

/// What the ghost model of a connection holds.
pub struct ConnectionModel {
    pub state: ConnectionState,
    pub handshake: HandshakeModel,
    pub tracker: Option<i64>,
    pub scheduler: Option<HeartbeatScheduler>,
    pub session_id: Option<Seq<char>>,
}

/// What the connection answers while handshaking.
pub enum HandshakeOutcome {
    /// The hello was accepted: write this identify frame to the socket.
    SendIdentify(Vec<char>),
    /// The ready was accepted: the connection is live.
    Live(Ready),
    /// The attempt failed for good.
    Fatal(GatewayError),
}

/// What the connection answers to one steady-state inbound frame.
pub enum ReadOutcome {
    /// One classified event; its sequence number, if any, has already been
    /// passed to the tracker.
    Event(GatewayEvent),
    /// The frame was structurally malformed; the connection stays up.
    Malformed,
    /// The connection is not delivering events; the error is terminal.
    Terminal(GatewayError),
}

/// One gateway connection's lifecycle state.
pub struct GatewayConnection {
    state: ConnectionState,
    handshake: HandshakeCoordinator,
    tracker: SequenceTracker,
    scheduler: Option<HeartbeatScheduler>,
    session_id: Option<String>,
}

impl View for GatewayConnection {
    type V = ConnectionModel;

    closed spec fn view(&self) -> ConnectionModel {
        ConnectionModel {
            state: self.state,
            handshake: self.handshake@,
            tracker: self.tracker@,
            scheduler: self.scheduler,
            session_id: match self.session_id {
                None => None,
                Some(s) => Some(s@),
            },
        }
    }
}

impl GatewayConnection {
    /// A fresh connection for one socket, set up to identify with the
    /// caller's credentials and the given operating system name.
    pub fn new(config: &BotConfig, os: String) -> (c: Self)
        ensures
            c@.state is Connecting,
            c@.handshake.phase is AwaitHello,
            c@.handshake.token == config@.token,
            c@.handshake.intents == config@.intents,
            c@.handshake.os == os@,
            c@.tracker is None,
            c@.scheduler is None,
            c@.session_id is None,
    {
        GatewayConnection {
            state: ConnectionState::Connecting,
            handshake: HandshakeCoordinator::new(config, os),
            tracker: SequenceTracker::new(),
            scheduler: None,
            session_id: None,
        }
    }

    pub fn state(&self) -> (s: ConnectionState)
        ensures
            s == self@.state,
    {
        self.state
    }

    /// The interval the hello prescribed; meaningful once handshaking has
    /// passed the hello.
    pub fn heartbeat_interval(&self) -> (r: u64)
        ensures
            r == self@.handshake.heartbeat_interval,
    {
        self.handshake.heartbeat_interval()
    }

    /// The highest sequence number seen on this connection, if any.
    pub fn current_sequence(&self) -> (r: Option<i64>)
        ensures
            r == self@.tracker,
    {
        self.tracker.current()
    }

    /// Note that the socket is open: handshaking begins. Answers whether
    /// the connection was indeed waiting for the socket.
    pub fn socket_opened(&mut self) -> (r: bool)
        ensures
            old(self)@.state is Connecting ==> r && final(self)@ == (ConnectionModel {
                state: ConnectionState::Handshaking,
                ..old(self)@
            }),
            !(old(self)@.state is Connecting) ==> !r && final(self)@ == old(self)@,
    {
        match self.state {
            ConnectionState::Connecting => {
                self.state = ConnectionState::Handshaking;
                true
            },
            _ => false,
        }
    }

    /// Feed one inbound frame to the opening exchange. `now` is the
    /// caller's clock in milliseconds; when the exchange completes it
    /// starts the heartbeat timer, whose first beat is owed one full
    /// interval later. Any frame that is not the expected step — or any
    /// structurally malformed frame — is fatal to the attempt.
    pub fn handshake_frame(&mut self, raw: &Vec<char>, now: u64) -> (a: HandshakeOutcome)
        ensures
            !(old(self)@.state is Handshaking) ==> final(self)@ == old(self)@ && (a
                matches HandshakeOutcome::Fatal(e) && e == GatewayError::ProtocolViolation),
            old(self)@.state is Handshaking && spec_decode(raw@) is None ==> final(self)@.state
                is Closed && final(self)@.scheduler is None && (a matches HandshakeOutcome::Fatal(e)
                && e == GatewayError::ProtocolViolation),
            old(self)@.state is Handshaking ==> (spec_decode(raw@) matches Some(env) ==> {
                &&& final(self)@.handshake == hs_step(old(self)@.handshake, env)
                &&& final(self)@.tracker == old(self)@.tracker
                &&& (old(self)@.handshake.phase is AwaitHello && spec_is_hello(env) is Some ==> (
                final(self)@.state is Handshaking && final(self)@.scheduler == old(self)@.scheduler
                    && final(self)@.session_id == old(self)@.session_id && (a
                    matches HandshakeOutcome::SendIdentify(f) && f@ == spec_encode(
                    2,
                    spec_identify_payload(
                        old(self)@.handshake.token,
                        old(self)@.handshake.intents,
                        old(self)@.handshake.os,
                        "rustcord"@,
                        "rustcord"@,
                    ),
                ))))
                &&& (old(self)@.handshake.phase is AwaitReady ==> (spec_is_ready(env) matches Some(
                rm) ==> (final(self)@.state is Connected && (a matches HandshakeOutcome::Live(rd)
                    && rd@ == rm) && final(self)@.session_id == Some(rm.session_id) && (final(self)@.scheduler matches Some(h) && h.spec_interval()
                    == old(self)@.handshake.heartbeat_interval && h.spec_next_due() == sat_add(
                    now,
                    old(self)@.handshake.heartbeat_interval,
                )))))
                &&& (old(self)@.handshake.phase is AwaitHello && spec_is_hello(env) is None ==> (
                final(self)@.state is Closed && final(self)@.scheduler is None && (a
                    matches HandshakeOutcome::Fatal(e) && e == GatewayError::ProtocolViolation)))
                &&& (old(self)@.handshake.phase is AwaitReady && spec_is_ready(env) is None ==> (
                final(self)@.state is Closed && final(self)@.scheduler is None && (a
                    matches HandshakeOutcome::Fatal(e) && e == GatewayError::ProtocolViolation)))
                &&& (old(self)@.handshake.phase is Complete || old(self)@.handshake.phase is Failed
                    ==> (final(self)@.state is Closed && final(self)@.scheduler is None && (a
                    matches HandshakeOutcome::Fatal(e) && e == GatewayError::ProtocolViolation)))
            }),
    {
        match self.state {
            ConnectionState::Handshaking => {
                let env = match decode(raw) {
                    Ok(env) => env,
                    Err(_) => {
                        self.state = ConnectionState::Closed;
                        self.scheduler = None;
                        return HandshakeOutcome::Fatal(GatewayError::ProtocolViolation);
                    },
                };
                let interval = self.handshake.heartbeat_interval();
                match self.handshake.on_envelope(&env) {
                    HandshakeAction::SendIdentify(f) => HandshakeOutcome::SendIdentify(f),
                    HandshakeAction::Completed(r) => {
                        self.state = ConnectionState::Connected;
                        self.scheduler = Some(HeartbeatScheduler::new(interval, now));
                        self.session_id = Some(r.session_id.clone());
                        HandshakeOutcome::Live(r)
                    },
                    HandshakeAction::Failed(e) => {
                        self.state = ConnectionState::Closed;
                        self.scheduler = None;
                        HandshakeOutcome::Fatal(e)
                    },
                }
            },
            _ => HandshakeOutcome::Fatal(GatewayError::ProtocolViolation),
        }
    }

    /// Process one steady-state inbound frame: decode it, pass its
    /// sequence number — if it carries one — to the tracker, and deliver
    /// the classified event, all in this one call, so a heartbeat sent
    /// afterwards reports a position at least as new. A malformed frame is
    /// skipped without touching anything; the heartbeat timer is never
    /// reset by inbound traffic. On a connection that is not live the
    /// result is terminal.
    pub fn read_event(&mut self, raw: &Vec<char>) -> (o: ReadOutcome)
        ensures
            old(self)@.state is Closed ==> final(self)@ == old(self)@ && (o
                matches ReadOutcome::Terminal(e) && e == GatewayError::TransportError),
            old(self)@.state is Connecting || old(self)@.state is Handshaking ==> final(self)@
                == old(self)@ && (o matches ReadOutcome::Terminal(e) && e
                == GatewayError::ProtocolViolation),
            old(self)@.state is Connected && spec_decode(raw@) is None ==> final(self)@ == old(self)@
                && o is Malformed,
            old(self)@.state is Connected ==> (spec_decode(raw@) matches Some(env) ==> {
                &&& o matches ReadOutcome::Event(ev) && ev@ == spec_dispatch(env)
                &&& final(self)@.tracker == (match env.sequence {
                    Some(n) => observed(old(self)@.tracker, n),
                    None => old(self)@.tracker,
                })
                &&& final(self)@.state == old(self)@.state
                &&& final(self)@.scheduler == old(self)@.scheduler
                &&& final(self)@.handshake == old(self)@.handshake
                &&& final(self)@.session_id == old(self)@.session_id
            }),
    {
        match self.state {
            ConnectionState::Connected => {
                let env = match decode(raw) {
                    Ok(env) => env,
                    Err(_) => {
                        return ReadOutcome::Malformed;
                    },
                };
                if let Some(n) = env.sequence {
                    self.tracker.observe(n);
                }
                ReadOutcome::Event(GatewayEvent::from_envelope(env))
            },
            ConnectionState::Closed => ReadOutcome::Terminal(GatewayError::TransportError),
            _ => ReadOutcome::Terminal(GatewayError::ProtocolViolation),
        }
    }

    /// Note a transport failure, from any state: the connection closes,
    /// the heartbeat timer is torn down so nothing more is written, and
    /// the terminal error for the consumer is returned.
    pub fn on_transport_error(&mut self) -> (e: GatewayError)
        ensures
            e == GatewayError::TransportError,
            final(self)@.state is Closed,
            final(self)@.scheduler is None,
            final(self)@.tracker == old(self)@.tracker,
    {
        self.state = ConnectionState::Closed;
        self.scheduler = None;
        GatewayError::TransportError
    }

    /// Shut the connection down deliberately: same teardown as a failure,
    /// without an error to report.
    pub fn close(&mut self)
        ensures
            final(self)@.state is Closed,
            final(self)@.scheduler is None,
            final(self)@.tracker == old(self)@.tracker,
    {
        self.state = ConnectionState::Closed;
        self.scheduler = None;
    }

    /// Whether a heartbeat is owed at `now`: never before the connection
    /// is live, and afterwards exactly when the timer says so.
    pub fn heartbeat_due(&self, now: u64) -> (r: bool)
        ensures
            r == (self@.state is Connected && match self@.scheduler {
                Some(h) => h.spec_due(now),
                None => false,
            }),
    {
        match self.state {
            ConnectionState::Connected => match &self.scheduler {
                Some(h) => h.is_due(now),
                None => false,
            },
            _ => false,
        }
    }

    /// The heartbeat frame owed at `now`, if one is owed: it carries
    /// exactly the tracker's current value at this call, and the timer
    /// moves one full interval past the send. On a connection that is not
    /// live — or before the timer is due — nothing is sent and nothing
    /// changes.
    pub fn heartbeat_frame(&mut self, now: u64) -> (r: Option<Vec<char>>)
        ensures
            ({
                let m = old(self)@;
                match m.scheduler {
                    Some(h) => if m.state is Connected && h.spec_due(now) {
                        &&& r matches Some(f) && f@ == spec_encode(
                            1,
                            heartbeat_payload_text(m.tracker),
                        )
                        &&& final(self)@.state == m.state
                        &&& final(self)@.tracker == m.tracker
                        &&& final(self)@.handshake == m.handshake
                        &&& final(self)@.session_id == m.session_id
                        &&& (final(self)@.scheduler matches Some(h2) && h2.spec_interval()
                            == h.spec_interval() && h2.spec_next_due() == sat_add(
                            now,
                            h.spec_interval(),
                        ))
                    } else {
                        r is None && final(self)@ == m
                    },
                    None => r is None && final(self)@ == m,
                }
            }),
    {
        match self.state {
            ConnectionState::Connected => {
                let due = match &self.scheduler {
                    Some(h) => h.is_due(now),
                    None => false,
                };
                if !due {
                    return None;
                }
                match &mut self.scheduler {
                    Some(h) => {
                        let hb = Heartbeat::from_atom(&self.tracker);
                        let frame = hb.encode_frame();
                        h.mark_sent(now);
                        Some(frame)
                    },
                    None => None,
                }
            },
            _ => None,
        }
    }
}

} // verus!
