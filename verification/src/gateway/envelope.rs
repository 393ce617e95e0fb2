//! The envelope: one protocol message, tagged with its opcode.
//!
//! On the wire an envelope is a JSON object. `op` holds the opcode. A
//! dispatch holds the event's name under `t`, its body under `d` and its
//! sequence number under `s`; every other envelope holds what it carries
//! under `d`, or nothing. Members are written in the order of their names,
//! which is the order that `serde_json` lists them in when it reads a
//! document.

use crate::error::DecodeError;
use crate::gateway::events::lemma_event_roundtrip;
use crate::gateway::events::lemma_known_event_plain;
use crate::gateway::events::EventModel;
use crate::gateway::events::GatewayEvent;
use crate::gateway::opcode::is_defined;
use crate::gateway::opcode::Opcode;
use crate::gateway::payload::lemma_hello_roundtrip;
use crate::gateway::payload::lemma_identify_roundtrip;
use crate::gateway::payload::lemma_payloads_plain;
use crate::gateway::payload::lemma_resume_roundtrip;
use crate::gateway::payload::HelloPayload;
use crate::gateway::payload::IdentifyModel;
use crate::gateway::payload::IdentifyPayload;
use crate::gateway::payload::ResumeModel;
use crate::gateway::payload::ResumePayload;
use crate::json::int_member;
use crate::json::json_parse;
use crate::json::json_print;
use crate::json::lemma_lookup_empty;
use crate::json::lemma_lookup_push;
use crate::json::lemma_plain_push;
use crate::json::plain;
use crate::json::print_document;
use crate::json::read_document;
use crate::json::required;
use crate::json::text_member;
use crate::json::with_optional;
use crate::json::JsonModel;
use crate::json::JsonValue;
use crate::json::ObjectBuilder;
use vstd::prelude::*;

verus! {

/// What a dispatch envelope carries: an event and its place in the
/// session's sequence.
#[derive(Debug, Clone)]
pub struct DispatchPayload {
    pub data: GatewayEvent,
    pub sequence: i64,
}

/// An envelope.
#[derive(Debug, Clone)]
pub enum GatewayPayload {
    /// An event (opcode 0).
    Dispatch(DispatchPayload),
    /// A liveness probe (opcode 1).
    Heartbeat,
    /// The identification that opens a session (opcode 2).
    Identify(IdentifyPayload),
    PresenceUpdate,
    VoiceStateUpdate,
    /// The request to resume a session (opcode 6).
    Resume(ResumePayload),
    /// The server asks the client to reconnect (opcode 7).
    Reconnect,
    RequestGuildMembers,
    /// The session is invalid; the flag says whether it can be resumed
    /// (opcode 9).
    InvalidSession(bool),
    /// The handshake (opcode 10).
    Hello(HelloPayload),
    /// The answer to a liveness probe (opcode 11).
    HeartBeatACK,
    RequestSoundboardSounds,
}

/// The content of a [`GatewayPayload`].
pub enum PayloadModel {
    Dispatch { event: EventModel, sequence: i64 },
    Heartbeat,
    Identify(IdentifyModel),
    PresenceUpdate,
    VoiceStateUpdate,
    Resume(ResumeModel),
    Reconnect,
    RequestGuildMembers,
    InvalidSession(bool),
    Hello(HelloPayload),
    HeartBeatACK,
    RequestSoundboardSounds,
}

impl View for GatewayPayload {
    type V = PayloadModel;

    open spec fn view(&self) -> PayloadModel {
        match self {
            GatewayPayload::Dispatch(d) => PayloadModel::Dispatch {
                event: d.data@,
                sequence: d.sequence,
            },
            GatewayPayload::Heartbeat => PayloadModel::Heartbeat,
            GatewayPayload::Identify(p) => PayloadModel::Identify(p@),
            GatewayPayload::PresenceUpdate => PayloadModel::PresenceUpdate,
            GatewayPayload::VoiceStateUpdate => PayloadModel::VoiceStateUpdate,
            GatewayPayload::Resume(p) => PayloadModel::Resume(p@),
            GatewayPayload::Reconnect => PayloadModel::Reconnect,
            GatewayPayload::RequestGuildMembers => PayloadModel::RequestGuildMembers,
            GatewayPayload::InvalidSession(resumable) => PayloadModel::InvalidSession(*resumable),
            GatewayPayload::Hello(h) => PayloadModel::Hello(*h),
            GatewayPayload::HeartBeatACK => PayloadModel::HeartBeatACK,
            GatewayPayload::RequestSoundboardSounds => PayloadModel::RequestSoundboardSounds,
        }
    }
}

/// The opcode that a JSON document holds: the member `op`, a 32-bit integer.
pub open spec fn opcode_in(doc: JsonModel) -> Result<Opcode, DecodeError> {
    match int_member(doc, "op", i32::MIN as int, i32::MAX as int) {
        Ok(code) => Ok(Opcode::of_number(code as i32)),
        Err(e) => Err(e),
    }
}

/// The dispatch that a JSON document holds: a name under `t`, a body under
/// `d`, and a sequence number under `s`.
pub open spec fn dispatch_in(doc: JsonModel) -> Result<PayloadModel, DecodeError> {
    let name = text_member(doc, "t");
    let body = required(doc, "d");
    let sequence = int_member(doc, "s", i64::MIN as int, i64::MAX as int);
    if name is Err {
        Err(name->Err_0)
    } else if body is Err {
        Err(body->Err_0)
    } else if sequence is Err {
        Err(sequence->Err_0)
    } else {
        Ok(
            PayloadModel::Dispatch {
                event: EventModel::decode(name->Ok_0, body->Ok_0),
                sequence: sequence->Ok_0 as i64,
            },
        )
    }
}

impl PayloadModel {
    /// The opcode that tags the envelope.
    pub open spec fn opcode(self) -> Opcode {
        match self {
            PayloadModel::Dispatch { .. } => Opcode::Dispatch,
            PayloadModel::Heartbeat => Opcode::Heartbeat,
            PayloadModel::Identify(_) => Opcode::Identify,
            PayloadModel::PresenceUpdate => Opcode::PresenceUpdate,
            PayloadModel::VoiceStateUpdate => Opcode::VoiceStateUpdate,
            PayloadModel::Resume(_) => Opcode::Resume,
            PayloadModel::Reconnect => Opcode::Reconnect,
            PayloadModel::RequestGuildMembers => Opcode::RequestGuildMembers,
            PayloadModel::InvalidSession(_) => Opcode::InvalidSession,
            PayloadModel::Hello(_) => Opcode::Hello,
            PayloadModel::HeartBeatACK => Opcode::HeartbeatAck,
            PayloadModel::RequestSoundboardSounds => Opcode::RequestSoundboardSounds,
        }
    }

    /// What the envelope carries is well formed.
    pub open spec fn wf(self) -> bool {
        match self {
            PayloadModel::Dispatch { event, sequence } => event.wf(),
            PayloadModel::Identify(p) => p.wf(),
            _ => true,
        }
    }

    /// Whether the envelope holds no number that is kept as text: every
    /// envelope does, but for the dispatch of an unknown event whose body
    /// holds one.
    pub open spec fn plain(self) -> bool {
        self matches PayloadModel::Dispatch { event, sequence } ==> (event matches EventModel::Unknown {
            name,
            data,
        } ==> plain(data))
    }

    /// What stands under `d`: the body of an event, what an identification,
    /// a resume request or a handshake holds, and whether an invalid
    /// session can be resumed. Every other envelope has no `d`.
    pub open spec fn data(self) -> Option<JsonModel> {
        match self {
            PayloadModel::Dispatch { event, sequence } => Some(event.body()),
            PayloadModel::Identify(p) => Some(p.json_of()),
            PayloadModel::Resume(p) => Some(p.json_of()),
            PayloadModel::InvalidSession(resumable) => Some(JsonModel::Bool(resumable)),
            PayloadModel::Hello(h) => Some(h.json_of()),
            _ => None,
        }
    }

    /// The members of the envelope, in the order of their names: `d` where
    /// there is one, `op`, and for a dispatch `s` and `t`.
    pub open spec fn members(self) -> Seq<(Seq<char>, JsonModel)> {
        let head = with_optional(Seq::empty(), "d"@, self.data()).push(
            ("op"@, JsonModel::Int(self.opcode().number())),
        );
        match self {
            PayloadModel::Dispatch { event, sequence } => head.push(
                ("s"@, JsonModel::Int(sequence as int)),
            ).push(("t"@, JsonModel::Str(event.name()))),
            _ => head,
        }
    }

    /// The JSON object that stands for the envelope.
    pub open spec fn json_of(self) -> JsonModel {
        JsonModel::Object(self.members())
    }

    /// The envelope that a JSON document stands for.
    ///
    /// Without `op` the document is rejected as missing a field, and with
    /// an `op` that the protocol does not define, as an unknown opcode. An
    /// invalid session can be resumed only where `d` is `true`. What else
    /// an envelope without data holds is not looked at.
    pub open spec fn parse(doc: JsonModel) -> Result<PayloadModel, DecodeError> {
        match opcode_in(doc) {
            Err(e) => Err(e),
            Ok(op) => match op {
                Opcode::Dispatch => dispatch_in(doc),
                Opcode::Heartbeat => Ok(PayloadModel::Heartbeat),
                Opcode::Identify => match required(doc, "d") {
                    Ok(d) => match IdentifyModel::parse(d) {
                        Ok(p) => Ok(PayloadModel::Identify(p)),
                        Err(e) => Err(e),
                    },
                    Err(e) => Err(e),
                },
                Opcode::PresenceUpdate => Ok(PayloadModel::PresenceUpdate),
                Opcode::VoiceStateUpdate => Ok(PayloadModel::VoiceStateUpdate),
                Opcode::Resume => match required(doc, "d") {
                    Ok(d) => match ResumeModel::parse(d) {
                        Ok(p) => Ok(PayloadModel::Resume(p)),
                        Err(e) => Err(e),
                    },
                    Err(e) => Err(e),
                },
                Opcode::Reconnect => Ok(PayloadModel::Reconnect),
                Opcode::RequestGuildMembers => Ok(PayloadModel::RequestGuildMembers),
                Opcode::InvalidSession => Ok(
                    PayloadModel::InvalidSession(doc.member("d"@) == Some(JsonModel::Bool(true))),
                ),
                Opcode::Hello => match required(doc, "d") {
                    Ok(d) => match HelloPayload::parse(d) {
                        Ok(h) => Ok(PayloadModel::Hello(h)),
                        Err(e) => Err(e),
                    },
                    Err(e) => Err(e),
                },
                Opcode::HeartbeatAck => Ok(PayloadModel::HeartBeatACK),
                Opcode::RequestSoundboardSounds => Ok(PayloadModel::RequestSoundboardSounds),
                Opcode::Unrecognized(code) => Err(DecodeError::UnknownOpcode(code)),
            },
        }
    }
}

/// The envelope that a text stands for: the text must be a JSON document,
/// and the document an envelope.
pub open spec fn decode_spec(text: Seq<char>) -> Result<PayloadModel, DecodeError> {
    match json_parse(text) {
        Some(doc) => PayloadModel::parse(doc),
        None => Err(DecodeError::Syntax),
    }
}

/// The text that stands for an envelope, where its JSON can be printed.
pub open spec fn encode_spec(payload: PayloadModel) -> Option<Seq<char>> {
    json_print(payload.json_of())
}

/// Reads the dispatch that a JSON document holds.
fn read_dispatch(doc: &JsonValue) -> (read: Result<GatewayPayload, DecodeError>)
    ensures
        match read {
            Ok(p) => dispatch_in(doc@) == Ok::<PayloadModel, DecodeError>(p@) && p@.wf(),
            Err(e) => dispatch_in(doc@) == Err::<PayloadModel, DecodeError>(e),
        },
{
    let name = doc.text_field("t")?;
    let body = doc.require("d")?.clone();
    let sequence = doc.int_field("s", i64::MIN, i64::MAX)?;
    Ok(GatewayPayload::Dispatch(DispatchPayload { data: GatewayEvent::decode(name, body), sequence }))
}

impl GatewayPayload {
    /// The number of the opcode that tags the envelope.
    pub fn op(&self) -> (code: i32)
        ensures
            code == self@.opcode().number(),
            is_defined(code as int),
    {
        match self {
            GatewayPayload::Dispatch(_) => 0,
            GatewayPayload::Heartbeat => 1,
            GatewayPayload::Identify(_) => 2,
            GatewayPayload::PresenceUpdate => 3,
            GatewayPayload::VoiceStateUpdate => 4,
            GatewayPayload::Resume(_) => 6,
            GatewayPayload::Reconnect => 7,
            GatewayPayload::RequestGuildMembers => 8,
            GatewayPayload::InvalidSession(_) => 9,
            GatewayPayload::Hello(_) => 10,
            GatewayPayload::HeartBeatACK => 11,
            GatewayPayload::RequestSoundboardSounds => 31,
        }
    }

    /// Writes the envelope as a JSON document.
    pub fn to_json(self) -> (doc: JsonValue)
        ensures
            doc@ == self@.json_of(),
    {
        let op = self.op();
        let mut fields = ObjectBuilder::new();
        match self {
            GatewayPayload::Dispatch(d) => {
                let name = d.data.name();
                fields.put("d", d.data.into_body());
                fields.put("op", JsonValue::Int(op as i64));
                fields.put("s", JsonValue::Int(d.sequence));
                fields.put("t", JsonValue::Str(name));
            },
            GatewayPayload::Identify(p) => {
                fields.put("d", p.to_json());
                fields.put("op", JsonValue::Int(op as i64));
            },
            GatewayPayload::Resume(p) => {
                fields.put("d", p.to_json());
                fields.put("op", JsonValue::Int(op as i64));
            },
            GatewayPayload::InvalidSession(resumable) => {
                fields.put("d", JsonValue::Bool(resumable));
                fields.put("op", JsonValue::Int(op as i64));
            },
            GatewayPayload::Hello(h) => {
                fields.put("d", h.to_json());
                fields.put("op", JsonValue::Int(op as i64));
            },
            _ => {
                fields.put("op", JsonValue::Int(op as i64));
            },
        }
        fields.finish()
    }

    /// Reads an envelope from a JSON document.
    pub fn from_json(value: JsonValue) -> (read: Result<GatewayPayload, DecodeError>)
        ensures
            match read {
                Ok(p) => PayloadModel::parse(value@) == Ok::<PayloadModel, DecodeError>(p@)
                    && p@.wf(),
                Err(e) => PayloadModel::parse(value@) == Err::<PayloadModel, DecodeError>(e),
            },
    {
        let code = value.int_field("op", i32::MIN as i64, i32::MAX as i64)?;
        match Opcode::from_code(code as i32) {
            Opcode::Dispatch => read_dispatch(&value),
            Opcode::Heartbeat => Ok(GatewayPayload::Heartbeat),
            Opcode::Identify => Ok(
                GatewayPayload::Identify(IdentifyPayload::from_json(value.require("d")?)?),
            ),
            Opcode::PresenceUpdate => Ok(GatewayPayload::PresenceUpdate),
            Opcode::VoiceStateUpdate => Ok(GatewayPayload::VoiceStateUpdate),
            Opcode::Resume => Ok(
                GatewayPayload::Resume(ResumePayload::from_json(value.require("d")?)?),
            ),
            Opcode::Reconnect => Ok(GatewayPayload::Reconnect),
            Opcode::RequestGuildMembers => Ok(GatewayPayload::RequestGuildMembers),
            Opcode::InvalidSession => {
                let resumable = match value.get("d") {
                    Some(d) => match d.as_bool() {
                        Some(b) => b,
                        None => false,
                    },
                    None => false,
                };
                Ok(GatewayPayload::InvalidSession(resumable))
            },
            Opcode::Hello => Ok(GatewayPayload::Hello(HelloPayload::from_json(value.require("d")?)?)),
            Opcode::HeartbeatAck => Ok(GatewayPayload::HeartBeatACK),
            Opcode::RequestSoundboardSounds => Ok(GatewayPayload::RequestSoundboardSounds),
            Opcode::Unrecognized(code) => Err(DecodeError::UnknownOpcode(code)),
        }
    }
}

/// Reads an envelope from the text of one message.
pub fn decode(text: &str) -> (read: Result<GatewayPayload, DecodeError>)
    ensures
        match read {
            Ok(p) => decode_spec(text@) == Ok::<PayloadModel, DecodeError>(p@) && p@.wf(),
            Err(e) => decode_spec(text@) == Err::<PayloadModel, DecodeError>(e),
        },
{
    match read_document(text) {
        Some(doc) => GatewayPayload::from_json(doc),
        None => Err(DecodeError::Syntax),
    }
}

/// Writes an envelope as the text of one message. There is a text for every
/// envelope but, at most, the dispatch of an unknown event whose body
/// holds a number that is kept as text.
pub fn encode(payload: GatewayPayload) -> (text: Option<String>)
    ensures
        match text {
            Some(s) => encode_spec(payload@) == Some(s@),
            None => encode_spec(payload@) is None,
        },
        payload@.plain() ==> text is Some,
{
    proof {
        if payload@.plain() {
            lemma_envelope_plain(payload@);
        }
    }
    print_document(&payload.to_json())
}

/// What is written for an envelope holds no number but integers, unless
/// the body of an unknown event brings one.
pub proof fn lemma_envelope_plain(payload: PayloadModel)
    requires
        payload.plain(),
    ensures
        plain(payload.json_of()),
{
    broadcast use lemma_plain_push;

    reveal_with_fuel(plain, 3);
    match payload {
        PayloadModel::Dispatch { event, sequence } => {
            if !(event is Unknown) {
                lemma_known_event_plain(event);
            }
        },
        PayloadModel::Identify(p) => {
            lemma_payloads_plain(HelloPayload { heartbeat_interval: 0 }, p, arbitrary());
        },
        PayloadModel::Resume(p) => {
            lemma_payloads_plain(HelloPayload { heartbeat_interval: 0 }, arbitrary(), p);
        },
        PayloadModel::Hello(h) => {
            lemma_payloads_plain(h, arbitrary(), arbitrary());
        },
        _ => {},
    }
}

/// Reading back a written envelope gives the envelope.
pub proof fn lemma_envelope_roundtrip(payload: PayloadModel)
    requires
        payload.wf(),
    ensures
        PayloadModel::parse(payload.json_of()) == Ok::<PayloadModel, DecodeError>(payload),
{
    broadcast use lemma_lookup_push, lemma_lookup_empty;

    reveal_strlit("op");
    reveal_strlit("t");
    reveal_strlit("d");
    reveal_strlit("s");
    assert("t"@[0] == 't' && "d"@[0] == 'd' && "s"@[0] == 's');
    match payload {
        PayloadModel::Dispatch { event, sequence } => {
            lemma_event_roundtrip(event);
        },
        PayloadModel::Identify(p) => {
            lemma_identify_roundtrip(p);
        },
        PayloadModel::Resume(p) => {
            lemma_resume_roundtrip(p);
        },
        PayloadModel::Hello(h) => {
            lemma_hello_roundtrip(h);
        },
        _ => {},
    }
}

/// Where printing and reading a document give the document back, decoding
/// an encoded envelope gives the envelope. `serde_json` lists the members
/// of an object that it reads in the order of their names, which is the
/// order that an envelope is written in: so a written envelope can be read
/// back member for member, where the body of an unknown event can.
pub proof fn lemma_codec_roundtrip(payload: PayloadModel, text: Seq<char>)
    requires
        payload.wf(),
        encode_spec(payload) == Some(text),
        json_parse(text) == Some(payload.json_of()),
    ensures
        decode_spec(text) == Ok::<PayloadModel, DecodeError>(payload),
{
    lemma_envelope_roundtrip(payload);
}

} // verus!
