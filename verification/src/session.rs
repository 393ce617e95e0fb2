//! The session lifecycle: what the client does when the transport opens,
//! fails or closes, when a message arrives, when the heartbeat timer fires
//! and when the caller sends a command or shuts down.
//!
//! The session owns no transport and no timer. Each method takes what
//! happened and the time, changes the session's state, and says in a
//! [`Reaction`] what is to be done: open or close the transport, write an
//! envelope, hand an event to the caller, start or stop the timer.

use crate::error::DecodeError;
use crate::error::GatewayError;
use crate::gateway::envelope::decode;
use crate::gateway::envelope::decode_spec;
use crate::gateway::envelope::encode;
use crate::gateway::envelope::encode_spec;
use crate::gateway::envelope::DispatchPayload;
use crate::gateway::envelope::GatewayPayload;
use crate::gateway::envelope::PayloadModel;
use crate::gateway::events::EventModel;
use crate::gateway::events::GatewayEvent;
use crate::gateway::intents::GatewayIntents;
use crate::gateway::payload::HelloPayload;
use crate::gateway::payload::IdentifyModel;
use crate::gateway::payload::IdentifyPayload;
use crate::gateway::payload::IdentifyProperties;
use crate::gateway::payload::IdentifyPropertiesModel;
use crate::gateway::payload::ResumeModel;
use crate::gateway::payload::ResumePayload;
use crate::heartbeat::add_delay;
use crate::heartbeat::backoff;
use crate::heartbeat::backoff_spec;
use crate::heartbeat::first_delay;
use crate::heartbeat::first_delay_spec;
use crate::heartbeat::later;
use crate::json::opt_text;
use crate::ratelimit::token_bucket::lemma_step_wf;
use crate::ratelimit::token_bucket::BucketModel;
use crate::ratelimit::token_bucket::Permit;
use crate::ratelimit::token_bucket::TokenBucket;
use vstd::prelude::*;

verus! {

/// Where a fresh session connects to.
pub const GATEWAY_URL: &'static str = "wss://gateway.discord.gg/?v=10&encoding=json";

/// Where the session stands.
#[derive(Clone, Copy, Debug, PartialEq, Eq, Structural)]
pub enum Phase {
    /// Not started yet.
    Disconnected,
    /// Opening a transport for a fresh start.
    Connecting,
    /// The transport is open; the handshake has not come.
    AwaitingHandshake,
    /// Identified, or about to; the session is not confirmed yet.
    Identifying,
    /// The session is up.
    Connected,
    /// The transport was given up; a new one is being opened.
    Reconnecting,
    /// A resume was asked for, or is about to be.
    Resuming,
    /// Ended for good.
    Closed,
}

/// What the client identifies with.
#[derive(Debug, Clone)]
pub struct Credentials {
    pub token: String,
    pub intents: GatewayIntents,
    pub properties: IdentifyProperties,
}

/// The content of a [`Credentials`].
pub struct CredentialsModel {
    pub token: Seq<char>,
    pub intents: u32,
    pub properties: IdentifyPropertiesModel,
}

impl View for Credentials {
    type V = CredentialsModel;

    open spec fn view(&self) -> CredentialsModel {
        CredentialsModel {
            token: self.token@,
            intents: self.intents.value(),
            properties: self.properties@,
        }
    }
}

/// The state of a session.
#[derive(Debug, Clone)]
pub struct SessionState {
    pub phase: Phase,
    /// The session's name, once the server has given it.
    pub session_id: Option<String>,
    /// Where to connect to for a resume.
    pub resume_url: Option<String>,
    /// The highest sequence number seen.
    pub last_sequence: Option<i64>,
    /// Milliseconds between two probes.
    pub heartbeat_interval: u64,
    /// Whether the last probe was answered.
    pub heartbeat_acked: bool,
    pub identify_credentials: Credentials,
}

/// The content of a [`SessionState`].
pub struct StateModel {
    pub phase: Phase,
    pub session_id: Option<Seq<char>>,
    pub resume_url: Option<Seq<char>>,
    pub last_sequence: Option<i64>,
    pub heartbeat_interval: u64,
    pub heartbeat_acked: bool,
    pub credentials: CredentialsModel,
}

impl View for SessionState {
    type V = StateModel;

    open spec fn view(&self) -> StateModel {
        StateModel {
            phase: self.phase,
            session_id: opt_text(self.session_id),
            resume_url: opt_text(self.resume_url),
            last_sequence: self.last_sequence,
            heartbeat_interval: self.heartbeat_interval,
            heartbeat_acked: self.heartbeat_acked,
            credentials: self.identify_credentials@,
        }
    }
}

/// What is to be done with the transport.
#[derive(Debug, Clone)]
pub enum Transport {
    /// Nothing.
    Keep,
    /// Open one to `url`.
    Open { url: String },
    /// Give up the one there is, without writing to it, and open one to
    /// `url`.
    Reopen { url: String },
    /// Close the one there is.
    Close,
}

/// The content of a [`Transport`].
pub enum TransportModel {
    Keep,
    Open { url: Seq<char> },
    Reopen { url: Seq<char> },
    Close,
}

impl View for Transport {
    type V = TransportModel;

    open spec fn view(&self) -> TransportModel {
        match self {
            Transport::Keep => TransportModel::Keep,
            Transport::Open { url } => TransportModel::Open { url: url@ },
            Transport::Reopen { url } => TransportModel::Reopen { url: url@ },
            Transport::Close => TransportModel::Close,
        }
    }
}

/// What is to be done with the heartbeat timer.
#[derive(Clone, Copy, Debug, PartialEq, Eq, Structural)]
pub enum Timer {
    /// Nothing.
    Keep,
    /// Start it: the first tick after `first_delay` milliseconds, and one
    /// every `interval` milliseconds from then on.
    Start { first_delay: u64, interval: u64 },
    /// Stop it.
    Stop,
}

/// What is to be done after something happened.
#[derive(Debug, Clone)]
pub struct Reaction {
    pub transport: Transport,
    pub heartbeat: Timer,
    /// The envelope to write, if any.
    pub send: Option<GatewayPayload>,
    /// The event to hand to the caller, if any.
    pub deliver: Option<GatewayEvent>,
    /// How many milliseconds to wait before acting: before opening the
    /// transport, or before asking again for what the quota held back.
    pub retry_after: Option<u64>,
    /// What went wrong, if anything did.
    pub error: Option<GatewayError>,
}

/// The content of a [`Reaction`].
pub struct ReactionModel {
    pub transport: TransportModel,
    pub heartbeat: Timer,
    pub send: Option<PayloadModel>,
    pub deliver: Option<EventModel>,
    pub retry_after: Option<u64>,
    pub error: Option<GatewayError>,
}

impl View for Reaction {
    type V = ReactionModel;

    open spec fn view(&self) -> ReactionModel {
        ReactionModel {
            transport: self.transport@,
            heartbeat: self.heartbeat,
            send: match self.send {
                Some(p) => Some(p@),
                None => None,
            },
            deliver: match self.deliver {
                Some(e) => Some(e@),
                None => None,
            },
            retry_after: self.retry_after,
            error: self.error,
        }
    }
}

impl ReactionModel {
    /// Nothing is to be done.
    pub open spec fn quiet() -> ReactionModel {
        ReactionModel {
            transport: TransportModel::Keep,
            heartbeat: Timer::Keep,
            send: None,
            deliver: None,
            retry_after: None,
            error: None,
        }
    }
}

/// A session: its state, the limiter of what it sends, when the next probe
/// is due, and how often in a row the transport has failed.
pub struct SessionModel {
    pub state: StateModel,
    pub limiter: BucketModel,
    pub next_beat: u64,
    pub failures: u32,
}

/// The higher of the sequence number held and the one that came.
pub open spec fn advance(held: Option<i64>, sequence: i64) -> Option<i64> {
    match held {
        Some(last) => if last > sequence {
            Some(last)
        } else {
            Some(sequence)
        },
        None => Some(sequence),
    }
}

impl SessionModel {
    /// The limiter is well formed, and once the handshake has come the
    /// heartbeat interval is at least a millisecond.
    pub open spec fn wf(self) -> bool {
        &&& self.limiter.wf()
        &&& self.state.phase == Phase::Identifying || self.state.phase == Phase::Resuming
            || self.state.phase == Phase::Connected ==> self.state.heartbeat_interval >= 1
    }

    /// Whether the session holds what a resume needs.
    pub open spec fn can_resume(self) -> bool {
        self.state.session_id is Some && self.state.last_sequence is Some
    }

    /// Where the next transport connects to: the resume address where the
    /// session can be resumed and has one, the gateway's own otherwise.
    pub open spec fn url(self) -> Seq<char> {
        if self.can_resume() && self.state.resume_url is Some {
            self.state.resume_url->Some_0
        } else {
            GATEWAY_URL@
        }
    }

    /// The session in another phase.
    pub open spec fn in_phase(self, phase: Phase) -> SessionModel {
        SessionModel { state: StateModel { phase, ..self.state }, ..self }
    }

    /// Whether a transport is open.
    pub open spec fn active(self) -> bool {
        self.state.phase == Phase::AwaitingHandshake || self.state.phase == Phase::Identifying
            || self.state.phase == Phase::Resuming || self.state.phase == Phase::Connected
    }

    /// The caller starts the session.
    pub open spec fn connect(self) -> (SessionModel, ReactionModel) {
        if self.state.phase == Phase::Disconnected {
            (
                self.in_phase(Phase::Connecting),
                ReactionModel {
                    transport: TransportModel::Open { url: self.url() },
                    ..ReactionModel::quiet()
                },
            )
        } else {
            (self, ReactionModel::quiet())
        }
    }

    /// The transport is open: the handshake is awaited.
    pub open spec fn transport_opened(self) -> (SessionModel, ReactionModel) {
        if self.state.phase == Phase::Connecting || self.state.phase == Phase::Reconnecting {
            (
                SessionModel { failures: 0, ..self.in_phase(Phase::AwaitingHandshake) },
                ReactionModel::quiet(),
            )
        } else {
            (self, ReactionModel::quiet())
        }
    }

    /// The transport is given up and a new one opened. What a resume needs
    /// is kept.
    pub open spec fn reconnect(self) -> (SessionModel, ReactionModel) {
        (
            self.in_phase(Phase::Reconnecting),
            ReactionModel {
                transport: TransportModel::Reopen { url: self.url() },
                heartbeat: Timer::Stop,
                ..ReactionModel::quiet()
            },
        )
    }

    /// The transport could not be opened, or broke: it is tried again after
    /// a wait that grows with each failure in a row.
    pub open spec fn transport_failed(self) -> (SessionModel, ReactionModel) {
        if self.state.phase == Phase::Connecting || self.state.phase == Phase::Reconnecting {
            (
                SessionModel {
                    failures: if self.failures < u32::MAX {
                        (self.failures + 1) as u32
                    } else {
                        self.failures
                    },
                    ..self
                },
                ReactionModel {
                    transport: TransportModel::Open { url: self.url() },
                    retry_after: Some(backoff_spec(self.failures)),
                    ..ReactionModel::quiet()
                },
            )
        } else {
            self.transport_closed()
        }
    }

    /// The transport closed without being asked to: a new one is opened.
    pub open spec fn transport_closed(self) -> (SessionModel, ReactionModel) {
        if self.active() {
            (
                self.in_phase(Phase::Reconnecting),
                ReactionModel {
                    transport: TransportModel::Open { url: self.url() },
                    heartbeat: Timer::Stop,
                    ..ReactionModel::quiet()
                },
            )
        } else {
            (self, ReactionModel::quiet())
        }
    }

    /// The server broke the protocol: the connection is given up. Before
    /// the handshake the session starts over; after it, it reconnects.
    pub open spec fn violation(self) -> (SessionModel, ReactionModel) {
        if self.state.phase == Phase::AwaitingHandshake {
            (
                self.in_phase(Phase::Connecting),
                ReactionModel {
                    transport: TransportModel::Reopen { url: self.url() },
                    error: Some(GatewayError::ProtocolViolation),
                    ..ReactionModel::quiet()
                },
            )
        } else {
            let (next, reaction) = self.reconnect();
            (next, ReactionModel { error: Some(GatewayError::ProtocolViolation), ..reaction })
        }
    }

    /// The envelope that identifies the client afresh.
    pub open spec fn identify_payload(self) -> PayloadModel {
        PayloadModel::Identify(
            IdentifyModel {
                token: self.state.credentials.token,
                properties: self.state.credentials.properties,
                compress: false,
                large_threshold: None,
                shard: None,
                intents: self.state.credentials.intents,
            },
        )
    }

    /// The envelope that asks to resume: it carries the session's name and
    /// the last sequence number seen.
    pub open spec fn resume_payload(self) -> PayloadModel {
        PayloadModel::Resume(
            ResumeModel {
                token: self.state.credentials.token,
                session_id: self.state.session_id->Some_0,
                seq: self.state.last_sequence->Some_0,
            },
        )
    }

    /// The probe.
    pub open spec fn probe_payload(self) -> PayloadModel {
        PayloadModel::Heartbeat
    }

    /// The session asks for the quota at the time `now` and, where it is
    /// granted, writes `payload`. Where it is not, nothing is written and
    /// the reaction says how long to wait.
    pub open spec fn gated(self, payload: PayloadModel, now: u64) -> (SessionModel, ReactionModel) {
        let (limiter, permit) = self.limiter.step(now);
        let next = SessionModel { limiter, ..self };
        match permit {
            Permit::Allowed => (next, ReactionModel { send: Some(payload), ..ReactionModel::quiet() }),
            Permit::Denied { retry_after } => (
                next,
                ReactionModel { retry_after: Some(retry_after), ..ReactionModel::quiet() },
            ),
        }
    }

    /// After the handshake the session resumes where it can, and
    /// identifies afresh where it cannot.
    pub open spec fn identify(self, now: u64) -> (SessionModel, ReactionModel) {
        if self.can_resume() {
            self.in_phase(Phase::Resuming).gated(self.resume_payload(), now)
        } else {
            self.in_phase(Phase::Identifying).gated(self.identify_payload(), now)
        }
    }

    /// The identification or the resume that the quota held back is
    /// tried again. A session that is waiting for neither does nothing.
    pub open spec fn retry_identify(self, now: u64) -> (SessionModel, ReactionModel) {
        if self.state.phase == Phase::Identifying || self.state.phase == Phase::Resuming {
            self.identify(now)
        } else {
            (self, ReactionModel::quiet())
        }
    }

    /// What the quota held back is tried again at the time `now`: the
    /// identification or the resume after the handshake, or the probe of a
    /// connected session.
    pub open spec fn retry(self, now: u64) -> (SessionModel, ReactionModel) {
        if self.state.phase == Phase::Connected {
            self.tick(now)
        } else {
            self.retry_identify(now)
        }
    }

    /// The handshake came: its interval is taken, and the session
    /// identifies or resumes. A handshake without an interval breaks the
    /// protocol.
    pub open spec fn hello(self, hello: HelloPayload, now: u64) -> (SessionModel, ReactionModel) {
        if hello.heartbeat_interval >= 1 {
            SessionModel {
                state: StateModel {
                    heartbeat_interval: hello.heartbeat_interval as u64,
                    ..self.state
                },
                ..self
            }.identify(now)
        } else {
            self.violation()
        }
    }

    /// An event came. Its sequence number is taken where it is higher than
    /// the one held, and the event goes to the caller. The first event of a
    /// resumed session, and the `Ready` of a fresh one, confirm the session:
    /// it is then connected and the heartbeat starts.
    pub open spec fn dispatch(self, event: EventModel, sequence: i64, now: u64, seed: u64) -> (
        SessionModel,
        ReactionModel,
    ) {
        let fresh = self.state.phase == Phase::Identifying && event is Ready;
        let confirmed = fresh || self.state.phase == Phase::Resuming;
        let delay = first_delay_spec(self.state.heartbeat_interval, seed) as u64;
        let state = StateModel {
            phase: if confirmed {
                Phase::Connected
            } else {
                self.state.phase
            },
            session_id: if fresh {
                Some(event->Ready_0.session_id)
            } else {
                self.state.session_id
            },
            resume_url: if fresh {
                Some(event->Ready_0.resume_gateway_url)
            } else {
                self.state.resume_url
            },
            last_sequence: advance(self.state.last_sequence, sequence),
            heartbeat_acked: if confirmed {
                true
            } else {
                self.state.heartbeat_acked
            },
            ..self.state
        };
        (
            SessionModel {
                state,
                next_beat: if confirmed {
                    later(now, delay)
                } else {
                    self.next_beat
                },
                ..self
            },
            ReactionModel {
                heartbeat: if confirmed {
                    Timer::Start { first_delay: delay, interval: self.state.heartbeat_interval }
                } else {
                    Timer::Keep
                },
                deliver: Some(event),
                ..ReactionModel::quiet()
            },
        )
    }

    /// The session without what a resume needs.
    pub open spec fn forgotten(self) -> SessionModel {
        SessionModel {
            state: StateModel {
                session_id: None,
                resume_url: None,
                last_sequence: None,
                ..self.state
            },
            ..self
        }
    }

    /// The server declared the session invalid. Where it can be resumed the
    /// session reconnects and keeps what a resume needs. Where it cannot,
    /// that is forgotten: a session that was resuming identifies afresh on
    /// the transport it has, a connected one reconnects first. A fresh
    /// identification that is refused leaves nothing to try: the session
    /// ends.
    pub open spec fn invalid_session(self, resumable: bool, now: u64) -> (
        SessionModel,
        ReactionModel,
    ) {
        if resumable {
            self.reconnect()
        } else if self.state.phase == Phase::Resuming {
            self.forgotten().identify(now)
        } else if self.state.phase == Phase::Identifying {
            self.forgotten().end(Some(GatewayError::Unrecoverable))
        } else {
            self.forgotten().reconnect()
        }
    }

    /// An envelope came at the time `now`.
    pub open spec fn payload(self, payload: PayloadModel, now: u64, seed: u64) -> (
        SessionModel,
        ReactionModel,
    ) {
        if self.state.phase == Phase::AwaitingHandshake {
            match payload {
                PayloadModel::Hello(hello) => self.hello(hello, now),
                _ => self.violation(),
            }
        } else if self.active() {
            match payload {
                PayloadModel::Dispatch { event, sequence } => self.dispatch(
                    event,
                    sequence,
                    now,
                    seed,
                ),
                PayloadModel::HeartBeatACK => (
                    SessionModel {
                        state: StateModel { heartbeat_acked: true, ..self.state },
                        ..self
                    },
                    ReactionModel::quiet(),
                ),
                PayloadModel::Heartbeat => self.gated(self.probe_payload(), now),
                PayloadModel::Reconnect => self.reconnect(),
                PayloadModel::InvalidSession(resumable) => self.invalid_session(resumable, now),
                _ => self.violation(),
            }
        } else {
            (self, ReactionModel::quiet())
        }
    }

    /// A message came that is no envelope.
    pub open spec fn unreadable(self, error: DecodeError) -> (SessionModel, ReactionModel) {
        if self.active() {
            let (next, reaction) = self.violation();
            (next, ReactionModel { error: Some(GatewayError::Json(error)), ..reaction })
        } else {
            (self, ReactionModel::quiet())
        }
    }

    /// The text of one message came at the time `now`.
    pub open spec fn message(self, text: Seq<char>, now: u64, seed: u64) -> (
        SessionModel,
        ReactionModel,
    ) {
        match decode_spec(text) {
            Ok(payload) => self.payload(payload, now, seed),
            Err(e) => self.unreadable(e),
        }
    }

    /// The heartbeat timer fired at the time `now`. Where the last probe
    /// went unanswered the connection counts as dead and the session
    /// reconnects at once. Otherwise a probe goes out, if the quota allows,
    /// and its answer is awaited.
    pub open spec fn tick(self, now: u64) -> (SessionModel, ReactionModel) {
        if self.state.phase == Phase::Connected && now >= self.next_beat {
            if !self.state.heartbeat_acked {
                self.reconnect()
            } else {
                let (next, reaction) = self.gated(self.probe_payload(), now);
                if reaction.send is Some {
                    (
                        SessionModel {
                            state: StateModel { heartbeat_acked: false, ..next.state },
                            next_beat: later(self.next_beat, self.state.heartbeat_interval),
                            ..next
                        },
                        reaction,
                    )
                } else {
                    (next, reaction)
                }
            }
        } else {
            (self, ReactionModel::quiet())
        }
    }

    /// The caller sends a command at the time `now`. It goes out where the
    /// session is connected and the quota allows.
    pub open spec fn command(self, now: u64) -> (SessionModel, Result<(), GatewayError>) {
        if self.state.phase == Phase::Connected {
            let (limiter, permit) = self.limiter.step(now);
            (
                SessionModel { limiter, ..self },
                match permit {
                    Permit::Allowed => Ok(()),
                    Permit::Denied { retry_after } => Err(GatewayError::Ratelimit { retry_after }),
                },
            )
        } else {
            (self, Err(GatewayError::NotConnected))
        }
    }

    /// The session ends: by the caller's wish, or for an `error` that no
    /// reconnection can mend.
    pub open spec fn end(self, error: Option<GatewayError>) -> (SessionModel, ReactionModel) {
        if self.state.phase == Phase::Closed {
            (self, ReactionModel::quiet())
        } else {
            (
                self.in_phase(Phase::Closed),
                ReactionModel {
                    transport: TransportModel::Close,
                    heartbeat: Timer::Stop,
                    error,
                    ..ReactionModel::quiet()
                },
            )
        }
    }
}

/// Whether a close code says that the server has refused the client for
/// good: failed authentication, or a shard, an API version or intents that
/// it does not accept.
pub open spec fn is_final_close(code: u16) -> bool {
    code == 4004 || 4010 <= code <= 4014
}

/// Whether a close code says that reconnecting is of no use.
pub fn closes_for_good(code: u16) -> (fatal: bool)
    ensures
        fatal == is_final_close(code),
{
    code == 4004 || (4010 <= code && code <= 4014)
}

/// Whether a session holds the same as another of what a resume needs.
pub open spec fn same_resume_data(a: SessionModel, b: SessionModel) -> bool {
    &&& a.state.session_id == b.state.session_id
    &&& a.state.resume_url == b.state.resume_url
    &&& a.state.last_sequence == b.state.last_sequence
}

/// Whether a sequence number held is no lower than another.
pub open spec fn no_lower(after: Option<i64>, before: Option<i64>) -> bool {
    match before {
        Some(b) => after matches Some(a) && a >= b,
        None => true,
    }
}

/// A session that has ended stays ended: whatever happens, nothing is to
/// be done and nothing is sent.
pub proof fn lemma_closed_is_final(
    m: SessionModel,
    payload: PayloadModel,
    text: Seq<char>,
    now: u64,
    seed: u64,
)
    requires
        m.state.phase == Phase::Closed,
    ensures
        m.connect() == (m, ReactionModel::quiet()),
        m.transport_opened() == (m, ReactionModel::quiet()),
        m.transport_closed() == (m, ReactionModel::quiet()),
        m.transport_failed() == (m, ReactionModel::quiet()),
        m.payload(payload, now, seed) == (m, ReactionModel::quiet()),
        m.message(text, now, seed) == (m, ReactionModel::quiet()),
        m.tick(now) == (m, ReactionModel::quiet()),
        m.retry_identify(now) == (m, ReactionModel::quiet()),
        m.end(None) == (m, ReactionModel::quiet()),
        m.command(now) == (m, Err::<(), GatewayError>(GatewayError::NotConnected)),
{
}

/// A session ends only by the caller's wish, by a refusal for good, or
/// when the server refuses a fresh identification: nothing else that
/// happens takes a session that has not ended to its end.
pub proof fn lemma_only_refusal_ends(
    m: SessionModel,
    payload: PayloadModel,
    e: DecodeError,
    now: u64,
    seed: u64,
)
    requires
        m.state.phase != Phase::Closed,
    ensures
        m.connect().0.state.phase != Phase::Closed,
        m.transport_opened().0.state.phase != Phase::Closed,
        m.transport_closed().0.state.phase != Phase::Closed,
        m.transport_failed().0.state.phase != Phase::Closed,
        m.unreadable(e).0.state.phase != Phase::Closed,
        m.tick(now).0.state.phase != Phase::Closed,
        m.retry(now).0.state.phase != Phase::Closed,
        m.command(now).0.state.phase != Phase::Closed,
        m.payload(payload, now, seed).0.state.phase == Phase::Closed ==> m.state.phase
            == Phase::Identifying && payload == PayloadModel::InvalidSession(false) && m.payload(
            payload,
            now,
            seed,
        ).1.error == Some(GatewayError::Unrecoverable),
        m.end(None).0.state.phase == Phase::Closed,
{
}

/// Losing the transport loses nothing that a resume needs: when the
/// transport closes or fails, when the server asks for a reconnect, when a
/// probe went unanswered, and when a message cannot be read, the session's
/// name, resume address and last sequence number stay as they were.
pub proof fn lemma_reconnect_keeps_resume_data(m: SessionModel, now: u64, seed: u64, e: DecodeError)
    ensures
        same_resume_data(m.transport_closed().0, m),
        same_resume_data(m.transport_failed().0, m),
        same_resume_data(m.reconnect().0, m),
        same_resume_data(m.violation().0, m),
        same_resume_data(m.unreadable(e).0, m),
        same_resume_data(m.payload(PayloadModel::Reconnect, now, seed).0, m),
        same_resume_data(m.payload(PayloadModel::InvalidSession(true), now, seed).0, m),
        same_resume_data(m.tick(now).0, m),
{
}

/// The last sequence number never goes down: whatever envelope comes, and
/// whenever the timer fires, it stays or rises, unless the server
/// declares the session invalid beyond resuming.
pub proof fn lemma_sequence_never_regresses(
    m: SessionModel,
    payload: PayloadModel,
    now: u64,
    seed: u64,
)
    requires
        payload != PayloadModel::InvalidSession(false),
    ensures
        no_lower(m.payload(payload, now, seed).0.state.last_sequence, m.state.last_sequence),
        no_lower(m.tick(now).0.state.last_sequence, m.state.last_sequence),
        payload is Dispatch && m.active() && m.state.phase != Phase::AwaitingHandshake
            ==> no_lower(
            m.payload(payload, now, seed).0.state.last_sequence,
            Some(payload->sequence),
        ),
{
}

/// A probe that went unanswered until the timer fires again takes a
/// connected session to reconnecting at once: nothing is sent, the timer
/// stops, and the transport is given up for a new one.
pub proof fn lemma_missed_ack_reconnects(m: SessionModel, now: u64)
    requires
        m.state.phase == Phase::Connected,
        !m.state.heartbeat_acked,
        now >= m.next_beat,
    ensures
        m.tick(now).0.state.phase == Phase::Reconnecting,
        m.tick(now).1.send is None,
        m.tick(now).1.error is None,
        m.tick(now).1.heartbeat == Timer::Stop,
        m.tick(now).1.transport == (TransportModel::Reopen { url: m.url() }),
{
}

/// After the handshake a session that can be resumed asks to resume, and
/// the request carries exactly the session's name and its last sequence
/// number; where the quota is used up nothing is sent.
pub proof fn lemma_resume_carries_session(m: SessionModel, hello: HelloPayload, now: u64)
    requires
        m.state.phase == Phase::AwaitingHandshake,
        m.can_resume(),
        hello.heartbeat_interval >= 1,
    ensures
        m.hello(hello, now).0.state.phase == Phase::Resuming,
        m.limiter.step(now).1 is Allowed ==> m.hello(hello, now).1.send == Some(
            PayloadModel::Resume(
                ResumeModel {
                    token: m.state.credentials.token,
                    session_id: m.state.session_id->Some_0,
                    seq: m.state.last_sequence->Some_0,
                },
            ),
        ),
        !(m.limiter.step(now).1 is Allowed) ==> m.hello(hello, now).1.send is None,
        same_resume_data(m.hello(hello, now).0, m),
{
}

/// An event that is not known goes to the caller as it is, without an
/// error, and a connected session stays connected.
pub proof fn lemma_unknown_event_is_delivered(
    m: SessionModel,
    name: Seq<char>,
    data: crate::json::JsonModel,
    sequence: i64,
    now: u64,
    seed: u64,
)
    requires
        m.state.phase == Phase::Connected,
    ensures
        ({
            let event = EventModel::Unknown { name, data };
            let (next, reaction) = m.payload(PayloadModel::Dispatch { event, sequence }, now, seed);
            &&& next.state.phase == Phase::Connected
            &&& reaction.deliver == Some(event)
            &&& reaction.error is None
            &&& reaction.transport == TransportModel::Keep
            &&& reaction.heartbeat == Timer::Keep
        }),
{
}

/// The heartbeat starts when a session becomes connected and at no other
/// time, and whatever gives the transport up stops it.
pub proof fn lemma_heartbeat_follows_connection(
    m: SessionModel,
    payload: PayloadModel,
    now: u64,
    seed: u64,
)
    ensures
        ({
            let (next, reaction) = m.payload(payload, now, seed);
            &&& reaction.heartbeat is Start ==> next.state.phase == Phase::Connected
                && m.state.phase != Phase::Connected && next.state.heartbeat_acked
                && reaction.heartbeat == (Timer::Start {
                first_delay: first_delay_spec(m.state.heartbeat_interval, seed) as u64,
                interval: m.state.heartbeat_interval,
            })
            &&& next.state.phase == Phase::Connected && m.state.phase != Phase::Connected
                ==> reaction.heartbeat is Start
            &&& next.state.phase == Phase::Reconnecting && m.state.phase != Phase::Reconnecting
                ==> reaction.heartbeat == Timer::Stop
        }),
        !(m.tick(now).1.heartbeat is Start),
        !(m.connect().1.heartbeat is Start),
        !(m.transport_opened().1.heartbeat is Start),
        !(m.retry_identify(now).1.heartbeat is Start),
        m.transport_closed().0.state.phase != m.state.phase ==> m.transport_closed().1.heartbeat
            == Timer::Stop,
        m.tick(now).0.state.phase != m.state.phase ==> m.tick(now).1.heartbeat == Timer::Stop,
{
}

/// Nothing is written that the limiter did not let through: whenever a
/// reaction holds an envelope to send, the limiter answered `Allowed` at
/// that time, and a command is accepted only then.
pub proof fn lemma_sends_are_gated(m: SessionModel, payload: PayloadModel, now: u64, seed: u64)
    ensures
        m.payload(payload, now, seed).1.send is Some ==> m.limiter.step(now).1 is Allowed,
        m.tick(now).1.send is Some ==> m.limiter.step(now).1 is Allowed,
        m.retry_identify(now).1.send is Some ==> m.limiter.step(now).1 is Allowed,
        m.command(now).1 is Ok ==> m.limiter.step(now).1 is Allowed,
        m.connect().1.send is None,
        m.transport_opened().1.send is None,
        m.transport_closed().1.send is None,
        m.transport_failed().1.send is None,
{
}

/// Every step leaves a well-formed session well formed.
pub proof fn lemma_steps_keep_wf(m: SessionModel, payload: PayloadModel, now: u64, seed: u64)
    requires
        m.wf(),
    ensures
        m.connect().0.wf(),
        m.transport_opened().0.wf(),
        m.transport_closed().0.wf(),
        m.transport_failed().0.wf(),
        m.payload(payload, now, seed).0.wf(),
        m.tick(now).0.wf(),
        m.retry_identify(now).0.wf(),
        m.command(now).0.wf(),
        m.end(None).0.wf(),
{
    lemma_step_wf(m.limiter, now);
}

/// A session.
pub struct Session {
    state: SessionState,
    limiter: TokenBucket,
    next_beat: u64,
    failures: u32,
}

impl View for Session {
    type V = SessionModel;

    closed spec fn view(&self) -> SessionModel {
        SessionModel {
            state: self.state@,
            limiter: self.limiter@,
            next_beat: self.next_beat,
            failures: self.failures,
        }
    }
}

/// A reaction that asks for nothing.
pub fn quiet() -> (reaction: Reaction)
    ensures
        reaction@ == ReactionModel::quiet(),
{
    Reaction {
        transport: Transport::Keep,
        heartbeat: Timer::Keep,
        send: None,
        deliver: None,
        retry_after: None,
        error: None,
    }
}

impl Session {
    /// The session's parts are well formed.
    pub closed spec fn wf(&self) -> bool {
        self@.wf() && self.limiter.wf()
    }

    /// What holds of every session.
    pub proof fn lemma_wf(&self)
        requires
            self.wf(),
        ensures
            self@.wf(),
    {
    }

    /// A session that has not started, for a client with the given
    /// credentials and outbound limiter.
    pub fn new(credentials: Credentials, limiter: TokenBucket) -> (session: Session)
        requires
            limiter.wf(),
        ensures
            session.wf(),
            session@ == (SessionModel {
                state: StateModel {
                    phase: Phase::Disconnected,
                    session_id: None,
                    resume_url: None,
                    last_sequence: None,
                    heartbeat_interval: 0,
                    heartbeat_acked: true,
                    credentials: credentials@,
                },
                limiter: limiter@,
                next_beat: 0,
                failures: 0,
            }),
    {
        proof {
            limiter.lemma_wf();
        }
        Session {
            state: SessionState {
                phase: Phase::Disconnected,
                session_id: None,
                resume_url: None,
                last_sequence: None,
                heartbeat_interval: 0,
                heartbeat_acked: true,
                identify_credentials: credentials,
            },
            limiter,
            next_beat: 0,
            failures: 0,
        }
    }

    /// The session's state.
    pub fn state(&self) -> (state: &SessionState)
        ensures
            state@ == self@.state,
    {
        &self.state
    }

    /// Where the session stands.
    pub fn phase(&self) -> (phase: Phase)
        ensures
            phase == self@.state.phase,
    {
        self.state.phase
    }

    /// When the next probe is due.
    pub fn next_beat(&self) -> (due: u64)
        ensures
            due == self@.next_beat,
    {
        self.next_beat
    }

    /// Whether a transport is open.
    pub fn is_active(&self) -> (active: bool)
        ensures
            active == self@.active(),
    {
        match self.state.phase {
            Phase::AwaitingHandshake | Phase::Identifying | Phase::Resuming | Phase::Connected => true,
            _ => false,
        }
    }

    /// Where the next transport connects to.
    pub fn url(&self) -> (url: String)
        ensures
            url@ == self@.url(),
    {
        if self.state.session_id.is_some() && self.state.last_sequence.is_some() {
            if let Some(resume) = &self.state.resume_url {
                return resume.clone();
            }
        }
        GATEWAY_URL.to_owned()
    }

    /// The caller starts the session.
    pub fn connect(&mut self) -> (reaction: Reaction)
        requires
            old(self).wf(),
        ensures
            final(self).wf(),
            (final(self)@, reaction@) == old(self)@.connect(),
    {
        match self.state.phase {
            Phase::Disconnected => {
                let url = self.url();
                self.state.phase = Phase::Connecting;
                let mut reaction = quiet();
                reaction.transport = Transport::Open { url };
                reaction
            },
            _ => quiet(),
        }
    }

    /// The transport is open.
    pub fn on_transport_opened(&mut self) -> (reaction: Reaction)
        requires
            old(self).wf(),
        ensures
            final(self).wf(),
            (final(self)@, reaction@) == old(self)@.transport_opened(),
    {
        match self.state.phase {
            Phase::Connecting | Phase::Reconnecting => {
                self.state.phase = Phase::AwaitingHandshake;
                self.failures = 0;
                quiet()
            },
            _ => quiet(),
        }
    }

    /// Gives the transport up and asks for a new one.
    fn reconnect(&mut self) -> (reaction: Reaction)
        requires
            old(self).wf(),
        ensures
            final(self).wf(),
            (final(self)@, reaction@) == old(self)@.reconnect(),
    {
        let url = self.url();
        self.state.phase = Phase::Reconnecting;
        let mut reaction = quiet();
        reaction.transport = Transport::Reopen { url };
        reaction.heartbeat = Timer::Stop;
        reaction
    }

    /// The transport closed without being asked to.
    pub fn on_transport_closed(&mut self) -> (reaction: Reaction)
        requires
            old(self).wf(),
        ensures
            final(self).wf(),
            (final(self)@, reaction@) == old(self)@.transport_closed(),
    {
        if self.is_active() {
            let url = self.url();
            self.state.phase = Phase::Reconnecting;
            let mut reaction = quiet();
            reaction.transport = Transport::Open { url };
            reaction.heartbeat = Timer::Stop;
            reaction
        } else {
            quiet()
        }
    }

    /// The transport could not be opened, or broke.
    pub fn on_transport_failed(&mut self) -> (reaction: Reaction)
        requires
            old(self).wf(),
        ensures
            final(self).wf(),
            (final(self)@, reaction@) == old(self)@.transport_failed(),
    {
        match self.state.phase {
            Phase::Connecting | Phase::Reconnecting => {
                let wait = backoff(self.failures);
                if self.failures < u32::MAX {
                    self.failures = self.failures + 1;
                }
                let mut reaction = quiet();
                reaction.transport = Transport::Open { url: self.url() };
                reaction.retry_after = Some(wait);
                reaction
            },
            _ => self.on_transport_closed(),
        }
    }

    /// The server broke the protocol.
    fn violation(&mut self) -> (reaction: Reaction)
        requires
            old(self).wf(),
        ensures
            final(self).wf(),
            (final(self)@, reaction@) == old(self)@.violation(),
    {
        match self.state.phase {
            Phase::AwaitingHandshake => {
                let url = self.url();
                self.state.phase = Phase::Connecting;
                let mut reaction = quiet();
                reaction.transport = Transport::Reopen { url };
                reaction.error = Some(GatewayError::ProtocolViolation);
                reaction
            },
            _ => {
                let mut reaction = self.reconnect();
                reaction.error = Some(GatewayError::ProtocolViolation);
                reaction
            },
        }
    }

    /// Asks for the quota and, where it is granted, hands `payload` on to
    /// be written.
    fn gated(&mut self, payload: GatewayPayload, now: u64) -> (reaction: Reaction)
        requires
            old(self).wf(),
        ensures
            final(self).wf(),
            (final(self)@, reaction@) == old(self)@.gated(payload@, now),
    {
        let mut reaction = quiet();
        match self.limiter.try_acquire(now) {
            Permit::Allowed => {
                reaction.send = Some(payload);
            },
            Permit::Denied { retry_after } => {
                reaction.retry_after = Some(retry_after);
            },
        }
        proof {
            self.limiter.lemma_wf();
        }
        reaction
    }

    /// Identifies the client, or asks to resume where the session can be.
    fn identify(&mut self, now: u64) -> (reaction: Reaction)
        requires
            old(self).wf(),
            old(self)@.state.heartbeat_interval >= 1,
        ensures
            final(self).wf(),
            (final(self)@, reaction@) == old(self)@.identify(now),
    {
        let token = self.state.identify_credentials.token.clone();
        let resume = match (&self.state.session_id, self.state.last_sequence) {
            (Some(session_id), Some(seq)) => Some(
                ResumePayload { token: token.clone(), session_id: session_id.clone(), seq },
            ),
            _ => None,
        };
        match resume {
            Some(payload) => {
                self.state.phase = Phase::Resuming;
                self.gated(GatewayPayload::Resume(payload), now)
            },
            None => {
                let payload = IdentifyPayload {
                    token,
                    properties: self.state.identify_credentials.properties.duplicate(),
                    compress: false,
                    large_threshold: None,
                    shard: None,
                    intents: self.state.identify_credentials.intents,
                };
                self.state.phase = Phase::Identifying;
                self.gated(GatewayPayload::Identify(payload), now)
            },
        }
    }

    /// Asks again, at the time `now`, for the identification or the resume
    /// that the quota held back after the handshake.
    pub fn retry_identify(&mut self, now: u64) -> (reaction: Reaction)
        requires
            old(self).wf(),
        ensures
            final(self).wf(),
            (final(self)@, reaction@) == old(self)@.retry_identify(now),
    {
        match self.state.phase {
            Phase::Identifying | Phase::Resuming => self.identify(now),
            _ => quiet(),
        }
    }

    /// Asks again, at the time `now`, for what the quota held back: call
    /// this after the wait that a reaction without a transport change asks
    /// for.
    pub fn retry(&mut self, now: u64) -> (reaction: Reaction)
        requires
            old(self).wf(),
        ensures
            final(self).wf(),
            (final(self)@, reaction@) == old(self)@.retry(now),
    {
        match self.state.phase {
            Phase::Connected => self.on_tick(now),
            _ => self.retry_identify(now),
        }
    }

    /// The handshake came.
    fn hello(&mut self, hello: HelloPayload, now: u64) -> (reaction: Reaction)
        requires
            old(self).wf(),
        ensures
            final(self).wf(),
            (final(self)@, reaction@) == old(self)@.hello(hello, now),
    {
        if hello.heartbeat_interval >= 1 {
            self.state.heartbeat_interval = hello.heartbeat_interval as u64;
            self.identify(now)
        } else {
            self.violation()
        }
    }

    /// An event came.
    fn dispatch(&mut self, dispatch: DispatchPayload, now: u64, seed: u64) -> (reaction: Reaction)
        requires
            old(self).wf(),
            old(self)@.state.phase == Phase::Identifying || old(self)@.state.phase
                == Phase::Resuming || old(self)@.state.phase == Phase::Connected,
        ensures
            final(self).wf(),
            (final(self)@, reaction@) == old(self)@.dispatch(
                dispatch.data@,
                dispatch.sequence,
                now,
                seed,
            ),
    {
        let mut reaction = quiet();
        let mut confirmed = false;
        match self.state.phase {
            Phase::Identifying => {
                if let GatewayEvent::Ready(ready) = &dispatch.data {
                    self.state.session_id = Some(ready.session_id.clone());
                    self.state.resume_url = Some(ready.resume_gateway_url.clone());
                    confirmed = true;
                }
            },
            Phase::Resuming => {
                confirmed = true;
            },
            _ => {},
        }
        self.state.last_sequence = match self.state.last_sequence {
            Some(last) => if last > dispatch.sequence {
                Some(last)
            } else {
                Some(dispatch.sequence)
            },
            None => Some(dispatch.sequence),
        };
        if confirmed {
            let delay = first_delay(self.state.heartbeat_interval, seed);
            self.state.phase = Phase::Connected;
            self.state.heartbeat_acked = true;
            self.next_beat = add_delay(now, delay);
            reaction.heartbeat = Timer::Start {
                first_delay: delay,
                interval: self.state.heartbeat_interval,
            };
        }
        reaction.deliver = Some(dispatch.data);
        reaction
    }

    /// Forgets what a resume needs.
    fn forget(&mut self)
        requires
            old(self).wf(),
        ensures
            final(self).wf(),
            final(self)@ == old(self)@.forgotten(),
    {
        self.state.session_id = None;
        self.state.resume_url = None;
        self.state.last_sequence = None;
    }

    /// The server declared the session invalid.
    fn invalid_session(&mut self, resumable: bool, now: u64) -> (reaction: Reaction)
        requires
            old(self).wf(),
            old(self)@.active(),
            old(self)@.state.phase != Phase::AwaitingHandshake,
        ensures
            final(self).wf(),
            (final(self)@, reaction@) == old(self)@.invalid_session(resumable, now),
    {
        if resumable {
            self.reconnect()
        } else {
            let phase = self.state.phase;
            self.forget();
            match phase {
                Phase::Resuming => self.identify(now),
                Phase::Identifying => self.end(Some(GatewayError::Unrecoverable)),
                _ => self.reconnect(),
            }
        }
    }

    /// An envelope came at the time `now`. `seed` is any number, best a
    /// random one; it sets the jitter of the first probe.
    pub fn on_payload(&mut self, payload: GatewayPayload, now: u64, seed: u64) -> (reaction:
        Reaction)
        requires
            old(self).wf(),
        ensures
            final(self).wf(),
            (final(self)@, reaction@) == old(self)@.payload(payload@, now, seed),
    {
        match self.state.phase {
            Phase::AwaitingHandshake => match payload {
                GatewayPayload::Hello(hello) => self.hello(hello, now),
                _ => self.violation(),
            },
            Phase::Identifying | Phase::Resuming | Phase::Connected => match payload {
                GatewayPayload::Dispatch(dispatch) => self.dispatch(dispatch, now, seed),
                GatewayPayload::HeartBeatACK => {
                    self.state.heartbeat_acked = true;
                    quiet()
                },
                GatewayPayload::Heartbeat => self.gated(GatewayPayload::Heartbeat, now),
                GatewayPayload::Reconnect => self.reconnect(),
                GatewayPayload::InvalidSession(resumable) => self.invalid_session(resumable, now),
                _ => self.violation(),
            },
            _ => quiet(),
        }
    }

    /// A message came that is no envelope.
    pub fn on_unreadable(&mut self, error: DecodeError) -> (reaction: Reaction)
        requires
            old(self).wf(),
        ensures
            final(self).wf(),
            (final(self)@, reaction@) == old(self)@.unreadable(error),
    {
        if self.is_active() {
            let mut reaction = self.violation();
            reaction.error = Some(GatewayError::Json(error));
            reaction
        } else {
            quiet()
        }
    }

    /// The text of one message came at the time `now`.
    pub fn on_message(&mut self, text: &str, now: u64, seed: u64) -> (reaction: Reaction)
        requires
            old(self).wf(),
        ensures
            final(self).wf(),
            (final(self)@, reaction@) == old(self)@.message(text@, now, seed),
    {
        match decode(text) {
            Ok(payload) => self.on_payload(payload, now, seed),
            Err(e) => self.on_unreadable(e),
        }
    }

    /// The heartbeat timer fired at the time `now`.
    pub fn on_tick(&mut self, now: u64) -> (reaction: Reaction)
        requires
            old(self).wf(),
        ensures
            final(self).wf(),
            (final(self)@, reaction@) == old(self)@.tick(now),
    {
        let connected = match self.state.phase {
            Phase::Connected => true,
            _ => false,
        };
        if !connected || now < self.next_beat {
            return quiet();
        }
        if !self.state.heartbeat_acked {
            return self.reconnect();
        }
        let reaction = self.gated(GatewayPayload::Heartbeat, now);
        if reaction.send.is_some() {
            self.state.heartbeat_acked = false;
            self.next_beat = add_delay(self.next_beat, self.state.heartbeat_interval);
        }
        reaction
    }

    /// The caller sends a command at the time `now`. Where the session is
    /// connected and the quota allows, the command comes back to be
    /// written. Where the quota is used up the answer is the error, and
    /// nothing is to be written.
    pub fn send_command(&mut self, command: GatewayPayload, now: u64) -> (outcome: Result<
        GatewayPayload,
        GatewayError,
    >)
        requires
            old(self).wf(),
        ensures
            final(self).wf(),
            final(self)@ == old(self)@.command(now).0,
            match outcome {
                Ok(payload) => old(self)@.command(now).1 is Ok && payload@ == command@,
                Err(e) => old(self)@.command(now).1 == Err::<(), GatewayError>(e),
            },
    {
        match self.state.phase {
            Phase::Connected => {},
            _ => {
                return Err(GatewayError::NotConnected);
            },
        }
        let permit = self.limiter.try_acquire(now);
        proof {
            self.limiter.lemma_wf();
        }
        match permit {
            Permit::Allowed => Ok(command),
            Permit::Denied { retry_after } => Err(GatewayError::Ratelimit { retry_after }),
        }
    }

    /// The caller sends a command: as [`Session::send_command`], with the
    /// command written as the text of one message.
    pub fn write_payload(&mut self, payload: GatewayPayload, now: u64) -> (outcome: Result<
        String,
        GatewayError,
    >)
        requires
            old(self).wf(),
        ensures
            final(self).wf(),
            final(self)@ == old(self)@.command(now).0,
            match outcome {
                Ok(text) => old(self)@.command(now).1 is Ok && encode_spec(payload@) == Some(
                    text@,
                ),
                Err(GatewayError::Encode) => old(self)@.command(now).1 is Ok && encode_spec(
                    payload@,
                ) is None && !payload@.plain(),
                Err(e) => old(self)@.command(now).1 == Err::<(), GatewayError>(e),
            },
    {
        let command = self.send_command(payload, now)?;
        match encode(command) {
            Some(text) => Ok(text),
            None => Err(GatewayError::Encode),
        }
    }

    /// Ends the session.
    fn end(&mut self, error: Option<GatewayError>) -> (reaction: Reaction)
        requires
            old(self).wf(),
        ensures
            final(self).wf(),
            (final(self)@, reaction@) == old(self)@.end(error),
    {
        match self.state.phase {
            Phase::Closed => quiet(),
            _ => {
                self.state.phase = Phase::Closed;
                let mut reaction = quiet();
                reaction.transport = Transport::Close;
                reaction.heartbeat = Timer::Stop;
                reaction.error = error;
                reaction
            },
        }
    }

    /// The caller shuts the session down.
    pub fn close(&mut self) -> (reaction: Reaction)
        requires
            old(self).wf(),
        ensures
            final(self).wf(),
            (final(self)@, reaction@) == old(self)@.end(None),
    {
        self.end(None)
    }

    /// The server refused the client for good: its credentials, or what it
    /// asked for.
    pub fn on_unrecoverable(&mut self) -> (reaction: Reaction)
        requires
            old(self).wf(),
        ensures
            final(self).wf(),
            (final(self)@, reaction@) == old(self)@.end(Some(GatewayError::Unrecoverable)),
    {
        self.end(Some(GatewayError::Unrecoverable))
    }
}

} // verus!
