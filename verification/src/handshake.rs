//! The handshake coordinator: the fixed opening exchange of a connection.
//! The first inbound frame must be a hello (opcode 10) carrying the
//! heartbeat interval; the coordinator then sends an identify (opcode 2)
//! built from the caller's token and intents; the next inbound frame must
//! be a ready (opcode 0, event name `READY`) carrying the session. Any
//! other frame at either step fails the attempt for good — the exchange is
//! strictly linear and never retried here.

use vstd::prelude::*;

use crate::channel::{push_quoted, quoted_text};
use crate::codec::{spec_encode, Envelope, EnvelopeModel, SendableGatewayMessage};
use crate::config::BotConfig;
use crate::error::GatewayError;
use crate::guild::{
    spec_unavailable_guild_list, unavailable_guilds_view, UnavailableGuild,
    unavailable_guild_list_from_json,
};
use crate::json::{
    doc_fields_exec, fs_raw, fs_req_i64, fs_req_str, fs_req_u64, spec_doc_fields, spec_fs_raw,
    spec_fs_req_i64, spec_fs_req_str, spec_fs_req_u64,
};
use crate::misc::{spec_application, Application};
use crate::outside::chars_to_string;
use crate::text::{push_u64_digits, u64_digits};
use crate::user::{spec_user, User, UserModel};

verus! {

/// The first inbound message: how often to heartbeat.
pub struct Hello {
    pub heartbeat_interval: u64,
}

/// The hello payload's wire shape: an object with an unsigned
/// `heartbeat_interval`.
pub open spec fn spec_hello(p: Seq<char>) -> Option<u64> {
    match spec_doc_fields(p) {
        None => None,
        Some(fs) => spec_fs_req_u64(p, fs, "heartbeat_interval"@),
    }
}

impl Hello {
    pub fn from_json(p: &Vec<char>) -> (r: Option<Hello>)
        ensures
            match r {
                Some(h) => spec_hello(p@) == Some(h.heartbeat_interval),
                None => spec_hello(p@) is None,
            },
    {
        let fields = match doc_fields_exec(p) {
            Some(f) => f,
            None => {
                return None;
            },
        };
        match fs_req_u64(p, &fields, "heartbeat_interval") {
            Some(v) => Some(Hello { heartbeat_interval: v }),
            None => None,
        }
    }
}

/// What the ghost model of a ready holds.
pub struct ReadyModel {
    pub version: i32,
    pub user: UserModel,
    pub session_id: Seq<char>,
    pub application: u64,
    pub guilds: Seq<Seq<char>>,
}

/// The message that marks the connection live: the protocol version, the
/// connected account, the session, the application, and the guilds the
/// session will hear about.
pub struct Ready {
    pub version: i32,
    pub user: User,
    pub session_id: String,
    pub application: Application,
    pub guilds: Vec<UnavailableGuild>,
}

impl View for Ready {
    type V = ReadyModel;

    open spec fn view(&self) -> ReadyModel {
        ReadyModel {
            version: self.version,
            user: self.user@,
            session_id: self.session_id@,
            application: self.application@,
            guilds: unavailable_guilds_view(self.guilds@),
        }
    }
}

/// The ready payload's wire shape; the protocol version stands under the
/// key `v`.
pub open spec fn spec_ready(p: Seq<char>) -> Option<ReadyModel> {
    match spec_doc_fields(p) {
        None => None,
        Some(fs) => match (spec_fs_req_i64(p, fs, "v"@), spec_fs_req_str(p, fs, "session_id"@)) {
            (Some(v), Some(session_id)) => if i32::MIN <= v <= i32::MAX {
                match spec_fs_raw(p, fs, "user"@) {
                    None => None,
                    Some(uraw) => match spec_user(uraw) {
                        None => None,
                        Some(user) => match spec_fs_raw(p, fs, "application"@) {
                            None => None,
                            Some(araw) => match spec_application(araw) {
                                None => None,
                                Some(application) => match spec_fs_raw(p, fs, "guilds"@) {
                                    None => None,
                                    Some(graw) => match spec_unavailable_guild_list(graw) {
                                        None => None,
                                        Some(guilds) => Some(
                                            ReadyModel {
                                                version: v as i32,
                                                user,
                                                session_id,
                                                application,
                                                guilds,
                                            },
                                        ),
                                    },
                                },
                            },
                        },
                    },
                }
            } else {
                None
            },
            _ => None,
        },
    }
}

impl Ready {
    pub fn from_json(p: &Vec<char>) -> (r: Option<Ready>)
        ensures
            match r {
                Some(rd) => spec_ready(p@) == Some(rd@),
                None => spec_ready(p@) is None,
            },
    {
        let fields = match doc_fields_exec(p) {
            Some(f) => f,
            None => {
                return None;
            },
        };
        let v = match fs_req_i64(p, &fields, "v") {
            Some(v) => v,
            None => {
                return None;
            },
        };
        let session_id = match fs_req_str(p, &fields, "session_id") {
            Some(s) => chars_to_string(&s),
            None => {
                return None;
            },
        };
        if v < i32::MIN as i64 || v > i32::MAX as i64 {
            return None;
        }
        let uraw = match fs_raw(p, &fields, "user") {
            Some(x) => x,
            None => {
                return None;
            },
        };
        let user = match User::from_json(&uraw) {
            Some(u) => u,
            None => {
                return None;
            },
        };
        let araw = match fs_raw(p, &fields, "application") {
            Some(x) => x,
            None => {
                return None;
            },
        };
        let application = match Application::from_json(&araw) {
            Some(a) => a,
            None => {
                return None;
            },
        };
        let graw = match fs_raw(p, &fields, "guilds") {
            Some(x) => x,
            None => {
                return None;
            },
        };
        let guilds = match unavailable_guild_list_from_json(&graw) {
            Some(g) => g,
            None => {
                return None;
            },
        };
        Some(Ready { version: v as i32, user, session_id, application, guilds })
    }
}

/// The client properties announced when identifying.
pub struct ConnectionProperties {
    pub os: String,
    pub browser: String,
    pub device: String,
}

/// The identify message: the credentials and properties the client
/// announces right after the hello.
pub struct Identify {
    pub token: String,
    pub intents: u32,
    pub properties: ConnectionProperties,
}

/// The identify payload's wire form: the token and the properties written
/// as escaped strings, the intents as a decimal number.
pub open spec fn spec_identify_payload(
    token: Seq<char>,
    intents: u32,
    os: Seq<char>,
    browser: Seq<char>,
    device: Seq<char>,
) -> Seq<char> {
    seq!['{', '"', 't', 'o', 'k', 'e', 'n', '"', ':'] + quoted_text(token) + seq![
        ',',
        '"',
        'i',
        'n',
        't',
        'e',
        'n',
        't',
        's',
        '"',
        ':',
    ] + u64_digits(intents as int) + seq![
        ',',
        '"',
        'p',
        'r',
        'o',
        'p',
        'e',
        'r',
        't',
        'i',
        'e',
        's',
        '"',
        ':',
        '{',
        '"',
        '$',
        'o',
        's',
        '"',
        ':',
    ] + quoted_text(os) + seq![',', '"', '$', 'b', 'r', 'o', 'w', 's', 'e', 'r', '"', ':']
        + quoted_text(browser) + seq![',', '"', '$', 'd', 'e', 'v', 'i', 'c', 'e', '"', ':']
        + quoted_text(device) + seq!['}', '}']
}

impl Identify {
    /// The identify the caller's configuration prescribes, with the given
    /// operating system name and this client's name as browser and device.
    pub fn from_config(config: &BotConfig, os: String) -> (r: Identify)
        ensures
            r.token@ == config@.token,
            r.intents == config@.intents,
            r.properties.os@ == os@,
            r.properties.browser@ == "rustcord"@,
            r.properties.device@ == "rustcord"@,
    {
        Identify {
            token: config.token.clone(),
            intents: config.intents,
            properties: ConnectionProperties {
                os,
                browser: String::from_str("rustcord"),
                device: String::from_str("rustcord"),
            },
        }
    }
}

impl SendableGatewayMessage for Identify {
    open spec fn spec_opcode(&self) -> i64 {
        2
    }

    open spec fn spec_payload(&self) -> Seq<char> {
        spec_identify_payload(
            self.token@,
            self.intents,
            self.properties.os@,
            self.properties.browser@,
            self.properties.device@,
        )
    }

    fn opcode(&self) -> (r: i64) {
        2
    }

    fn payload_chars(&self) -> (r: Vec<char>) {
        let mut out: Vec<char> = vec!['{', '"', 't', 'o', 'k', 'e', 'n', '"', ':'];
        proof {
            assert(out@ =~= seq!['{', '"', 't', 'o', 'k', 'e', 'n', '"', ':']);
        }
        push_quoted(&mut out, &self.token);
        out.push(',');
        out.push('"');
        out.push('i');
        out.push('n');
        out.push('t');
        out.push('e');
        out.push('n');
        out.push('t');
        out.push('s');
        out.push('"');
        out.push(':');
        proof {
            assert(out@ =~= seq!['{', '"', 't', 'o', 'k', 'e', 'n', '"', ':'] + quoted_text(
                self.token@,
            ) + seq![',', '"', 'i', 'n', 't', 'e', 'n', 't', 's', '"', ':']);
        }
        push_u64_digits(&mut out, self.intents as u64);
        out.push(',');
        out.push('"');
        out.push('p');
        out.push('r');
        out.push('o');
        out.push('p');
        out.push('e');
        out.push('r');
        out.push('t');
        out.push('i');
        out.push('e');
        out.push('s');
        out.push('"');
        out.push(':');
        out.push('{');
        out.push('"');
        out.push('$');
        out.push('o');
        out.push('s');
        out.push('"');
        out.push(':');
        let ghost mid = out@;
        proof {
            assert(mid =~= seq!['{', '"', 't', 'o', 'k', 'e', 'n', '"', ':'] + quoted_text(
                self.token@,
            ) + seq![',', '"', 'i', 'n', 't', 'e', 'n', 't', 's', '"', ':'] + u64_digits(
                self.intents as int,
            ) + seq![
                ',',
                '"',
                'p',
                'r',
                'o',
                'p',
                'e',
                'r',
                't',
                'i',
                'e',
                's',
                '"',
                ':',
                '{',
                '"',
                '$',
                'o',
                's',
                '"',
                ':',
            ]);
        }
        push_quoted(&mut out, &self.properties.os);
        out.push(',');
        out.push('"');
        out.push('$');
        out.push('b');
        out.push('r');
        out.push('o');
        out.push('w');
        out.push('s');
        out.push('e');
        out.push('r');
        out.push('"');
        out.push(':');
        push_quoted(&mut out, &self.properties.browser);
        out.push(',');
        out.push('"');
        out.push('$');
        out.push('d');
        out.push('e');
        out.push('v');
        out.push('i');
        out.push('c');
        out.push('e');
        out.push('"');
        out.push(':');
        push_quoted(&mut out, &self.properties.device);
        out.push('}');
        out.push('}');
        proof {
            assert(out@ =~= self.spec_payload());
        }
        out
    }
}

/// Where the opening exchange stands.
#[derive(Clone, Copy, Debug, PartialEq, Eq, Structural)]
pub enum HandshakePhase {
    /// Nothing received yet: the next frame must be the hello.
    AwaitHello,
    /// Identify sent: the next frame must be the ready.
    AwaitReady,
    /// The exchange succeeded; the connection may go live.
    Complete,
    /// The exchange failed; the attempt is over for good.
    Failed,
}

/// What the ghost model of the coordinator holds.
pub struct HandshakeModel {
    pub phase: HandshakePhase,
    pub heartbeat_interval: u64,
    pub session_id: Option<Seq<char>>,
    pub token: Seq<char>,
    pub intents: u32,
    pub os: Seq<char>,
}

/// Whether a frame is a well-formed hello, and the interval it carries.
pub open spec fn spec_is_hello(env: EnvelopeModel) -> Option<u64> {
    if env.opcode == 10 {
        spec_hello(env.payload)
    } else {
        None
    }
}

/// Whether a frame is a well-formed ready, and what it carries.
pub open spec fn spec_is_ready(env: EnvelopeModel) -> Option<ReadyModel> {
    if env.opcode == 0 && env.event_name == Some("READY"@) {
        spec_ready(env.payload)
    } else {
        None
    }
}

/// One step of the opening exchange: what the coordinator becomes when a
/// frame arrives. A completed or failed exchange never moves again.
pub open spec fn hs_step(m: HandshakeModel, env: EnvelopeModel) -> HandshakeModel {
    match m.phase {
        HandshakePhase::AwaitHello => match spec_is_hello(env) {
            Some(interval) => HandshakeModel {
                phase: HandshakePhase::AwaitReady,
                heartbeat_interval: interval,
                ..m
            },
            None => HandshakeModel { phase: HandshakePhase::Failed, ..m },
        },
        HandshakePhase::AwaitReady => match spec_is_ready(env) {
            Some(r) => HandshakeModel {
                phase: HandshakePhase::Complete,
                session_id: Some(r.session_id),
                ..m
            },
            None => HandshakeModel { phase: HandshakePhase::Failed, ..m },
        },
        HandshakePhase::Complete => m,
        HandshakePhase::Failed => m,
    }
}

/// The coordinator after a whole run of frames, oldest first.
pub open spec fn hs_run(m: HandshakeModel, envs: Seq<EnvelopeModel>) -> HandshakeModel
    decreases envs.len(),
{
    if envs.len() == 0 {
        m
    } else {
        hs_run(hs_step(m, envs[0]), envs.drop_first())
    }
}

/// What the coordinator answers to one inbound frame.
pub enum HandshakeAction {
    /// The hello was accepted: send this identify frame.
    SendIdentify(Vec<char>),
    /// The ready was accepted: the connection may go live.
    Completed(Ready),
    /// The exchange failed; the error is terminal.
    Failed(GatewayError),
}

/// Drives the opening exchange over decoded envelopes.
pub struct HandshakeCoordinator {
    phase: HandshakePhase,
    heartbeat_interval: u64,
    session_id: Option<String>,
    token: String,
    intents: u32,
    os: String,
}

impl View for HandshakeCoordinator {
    type V = HandshakeModel;

    closed spec fn view(&self) -> HandshakeModel {
        HandshakeModel {
            phase: self.phase,
            heartbeat_interval: self.heartbeat_interval,
            session_id: match self.session_id {
                None => None,
                Some(s) => Some(s@),
            },
            token: self.token@,
            intents: self.intents,
            os: self.os@,
        }
    }
}

impl HandshakeCoordinator {
    /// A coordinator that has seen nothing yet, set up to identify with
    /// the caller's credentials and the given operating system name.
    pub fn new(config: &BotConfig, os: String) -> (c: Self)
        ensures
            c@.phase is AwaitHello,
            c@.session_id is None,
            c@.token == config@.token,
            c@.intents == config@.intents,
            c@.os == os@,
    {
        HandshakeCoordinator {
            phase: HandshakePhase::AwaitHello,
            heartbeat_interval: 0,
            session_id: None,
            token: config.token.clone(),
            intents: config.intents,
            os,
        }
    }

    pub fn phase(&self) -> (p: HandshakePhase)
        ensures
            p == self@.phase,
    {
        self.phase
    }

    /// The interval the hello carried; meaningful from the identify step
    /// on.
    pub fn heartbeat_interval(&self) -> (r: u64)
        ensures
            r == self@.heartbeat_interval,
    {
        self.heartbeat_interval
    }

    /// Feed one decoded inbound frame to the exchange.
    pub fn on_envelope(&mut self, env: &Envelope) -> (a: HandshakeAction)
        ensures
            final(self)@ == hs_step(old(self)@, env@),
            old(self)@.phase is AwaitHello && spec_is_hello(env@) is Some ==> (a matches
                HandshakeAction::SendIdentify(f) && f@ == spec_encode(
                2,
                spec_identify_payload(
                    old(self)@.token,
                    old(self)@.intents,
                    old(self)@.os,
                    "rustcord"@,
                    "rustcord"@,
                ),
            )),
            old(self)@.phase is AwaitHello && spec_is_hello(env@) is None ==> a
                == HandshakeAction::Failed(GatewayError::ProtocolViolation),
            old(self)@.phase is AwaitReady && spec_is_ready(env@) is Some ==> (a matches
                HandshakeAction::Completed(r) && spec_is_ready(env@) == Some(r@)),
            old(self)@.phase is AwaitReady && spec_is_ready(env@) is None ==> a
                == HandshakeAction::Failed(GatewayError::ProtocolViolation),
            old(self)@.phase is Complete || old(self)@.phase is Failed ==> a
                == HandshakeAction::Failed(GatewayError::ProtocolViolation),
    {
        match self.phase {
            HandshakePhase::AwaitHello => {
                if env.opcode != 10 {
                    self.phase = HandshakePhase::Failed;
                    return HandshakeAction::Failed(GatewayError::ProtocolViolation);
                }
                match Hello::from_json(&env.payload) {
                    None => {
                        self.phase = HandshakePhase::Failed;
                        HandshakeAction::Failed(GatewayError::ProtocolViolation)
                    },
                    Some(h) => {
                        let identify = Identify {
                            token: self.token.clone(),
                            intents: self.intents,
                            properties: ConnectionProperties {
                                os: self.os.clone(),
                                browser: String::from_str("rustcord"),
                                device: String::from_str("rustcord"),
                            },
                        };
                        let frame = identify.encode_frame();
                        self.phase = HandshakePhase::AwaitReady;
                        self.heartbeat_interval = h.heartbeat_interval;
                        HandshakeAction::SendIdentify(frame)
                    },
                }
            },
            HandshakePhase::AwaitReady => {
                let ready_name = String::from_str("READY");
                let is_ready_name = match &env.event_name {
                    Some(n) => *n == ready_name,
                    None => false,
                };
                if env.opcode != 0 || !is_ready_name {
                    self.phase = HandshakePhase::Failed;
                    return HandshakeAction::Failed(GatewayError::ProtocolViolation);
                }
                match Ready::from_json(&env.payload) {
                    None => {
                        self.phase = HandshakePhase::Failed;
                        HandshakeAction::Failed(GatewayError::ProtocolViolation)
                    },
                    Some(r) => {
                        self.phase = HandshakePhase::Complete;
                        self.session_id = Some(r.session_id.clone());
                        HandshakeAction::Completed(r)
                    },
                }
            },
            HandshakePhase::Complete => HandshakeAction::Failed(GatewayError::ProtocolViolation),
            HandshakePhase::Failed => HandshakeAction::Failed(GatewayError::ProtocolViolation),
        }
    }
}

/// Law: a well-formed hello followed by a well-formed ready completes the
/// exchange, with the heartbeat interval the hello carried and the session
/// the ready carried.
pub proof fn lemma_handshake_accepts(
    m0: HandshakeModel,
    hello: EnvelopeModel,
    ready: EnvelopeModel,
)
    requires
        m0.phase is AwaitHello,
        spec_is_hello(hello) is Some,
        spec_is_ready(ready) is Some,
    ensures
        hs_run(m0, seq![hello, ready]).phase is Complete,
        hs_run(m0, seq![hello, ready]).heartbeat_interval == spec_is_hello(hello)->Some_0,
        hs_run(m0, seq![hello, ready]).session_id == Some(spec_is_ready(ready)->Some_0.session_id),
{
    let m1 = hs_step(m0, hello);
    let m2 = hs_step(m1, ready);
    let envs = seq![hello, ready];
    assert(envs.drop_first() =~= seq![ready]);
    assert(seq![ready].drop_first() =~= Seq::<EnvelopeModel>::empty());
    assert(hs_run(m0, envs) == hs_run(m1, seq![ready]));
    assert(hs_run(m1, seq![ready]) == hs_run(m2, Seq::empty()));
}

/// Law: a frame out of order — anything but a hello first, or anything
/// but a ready second — fails the exchange, and no later frame ever
/// completes it.
pub proof fn lemma_handshake_rejects(m0: HandshakeModel, env: EnvelopeModel, later: Seq<
    EnvelopeModel,
>)
    requires
        (m0.phase is AwaitHello && spec_is_hello(env) is None) || (m0.phase is AwaitReady
            && spec_is_ready(env) is None),
    ensures
        hs_step(m0, env).phase is Failed,
        hs_run(hs_step(m0, env), later).phase is Failed,
{
    lemma_failed_is_terminal(hs_step(m0, env), later);
}

/// Law: a failed exchange stays failed under any run of further frames.
pub proof fn lemma_failed_is_terminal(m: HandshakeModel, envs: Seq<EnvelopeModel>)
    requires
        m.phase is Failed,
    ensures
        hs_run(m, envs).phase is Failed,
    decreases envs.len(),
{
    if envs.len() > 0 {
        lemma_failed_is_terminal(hs_step(m, envs[0]), envs.drop_first());
    }
}

} // verus!
