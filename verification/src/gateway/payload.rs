//! What the envelopes carry, apart from events.

use crate::error::DecodeError;
use crate::gateway::intents::GatewayIntents;
use crate::gateway::intents::ALL_INTENTS;
use crate::gateway::intents::within;
use crate::json::bool_in;
use crate::json::int_in;
use crate::json::int_member;
use crate::json::lemma_lookup_empty;
use crate::json::lemma_lookup_push;
use crate::json::lemma_plain_items;
use crate::json::lemma_plain_push;
use crate::json::plain;
use crate::json::plain_fields;
use crate::json::plain_items;
use crate::json::opt_int_member;
use crate::json::optional;
use crate::json::required;
use crate::json::text_member;
use crate::json::with_optional;
use crate::json::JsonModel;
use crate::json::JsonValue;
use crate::json::ObjectBuilder;
use vstd::prelude::*;

verus! {

/// The handshake: the first message on a new transport.
#[derive(Clone, Copy, Debug, PartialEq, Eq, Structural)]
pub struct HelloPayload {
    /// Milliseconds between two liveness probes.
    pub heartbeat_interval: i32,
}

impl HelloPayload {
    /// The JSON object that stands for a handshake.
    pub open spec fn json_of(self) -> JsonModel {
        JsonModel::Object(
            Seq::empty().push(("heartbeat_interval"@, JsonModel::Int(self.heartbeat_interval as int))),
        )
    }

    /// The handshake that a JSON document stands for.
    pub open spec fn parse(doc: JsonModel) -> Result<HelloPayload, DecodeError> {
        match int_member(doc, "heartbeat_interval", i32::MIN as int, i32::MAX as int) {
            Ok(i) => Ok(HelloPayload { heartbeat_interval: i as i32 }),
            Err(e) => Err(e),
        }
    }

    /// Writes the handshake as JSON.
    pub fn to_json(&self) -> (doc: JsonValue)
        ensures
            doc@ == self.json_of(),
    {
        let mut fields = ObjectBuilder::new();
        fields.put("heartbeat_interval", JsonValue::Int(self.heartbeat_interval as i64));
        fields.finish()
    }

    /// Reads a handshake from JSON.
    pub fn from_json(doc: &JsonValue) -> (hello: Result<HelloPayload, DecodeError>)
        ensures
            hello == HelloPayload::parse(doc@),
    {
        let interval = doc.int_field("heartbeat_interval", i32::MIN as i64, i32::MAX as i64)?;
        Ok(HelloPayload { heartbeat_interval: interval as i32 })
    }
}

/// Reading back a written handshake gives the handshake.
pub proof fn lemma_hello_roundtrip(hello: HelloPayload)
    ensures
        HelloPayload::parse(hello.json_of()) == Ok::<HelloPayload, DecodeError>(hello),
{
    broadcast use lemma_lookup_push, lemma_lookup_empty;

}


/// What the client says of itself when identifying.
#[derive(Clone, Debug)]
pub struct IdentifyProperties {
    pub os: String,
    pub browser: String,
    pub device: String,
}

/// The content of an [`IdentifyProperties`].
pub struct IdentifyPropertiesModel {
    pub os: Seq<char>,
    pub browser: Seq<char>,
    pub device: Seq<char>,
}

impl View for IdentifyProperties {
    type V = IdentifyPropertiesModel;

    open spec fn view(&self) -> IdentifyPropertiesModel {
        IdentifyPropertiesModel { os: self.os@, browser: self.browser@, device: self.device@ }
    }
}

impl IdentifyPropertiesModel {
    /// The JSON object that stands for these properties.
    pub open spec fn json_of(self) -> JsonModel {
        JsonModel::Object(
            Seq::empty().push(("browser"@, JsonModel::Str(self.browser))).push(
                ("device"@, JsonModel::Str(self.device)),
            ).push(("os"@, JsonModel::Str(self.os))),
        )
    }

    /// The properties that a JSON document stands for.
    pub open spec fn parse(doc: JsonModel) -> Result<IdentifyPropertiesModel, DecodeError> {
        let os = text_member(doc, "os");
        let browser = text_member(doc, "browser");
        let device = text_member(doc, "device");
        if os is Err {
            Err(os->Err_0)
        } else if browser is Err {
            Err(browser->Err_0)
        } else if device is Err {
            Err(device->Err_0)
        } else {
            Ok(IdentifyPropertiesModel { os: os->Ok_0, browser: browser->Ok_0, device: device->Ok_0 })
        }
    }
}

impl IdentifyProperties {
    /// A copy of the properties.
    pub fn duplicate(&self) -> (copy: IdentifyProperties)
        ensures
            copy@ == self@,
    {
        IdentifyProperties {
            os: self.os.clone(),
            browser: self.browser.clone(),
            device: self.device.clone(),
        }
    }

    /// Writes the properties as JSON.
    pub fn to_json(&self) -> (doc: JsonValue)
        ensures
            doc@ == self@.json_of(),
    {
        let mut fields = ObjectBuilder::new();
        fields.put("browser", JsonValue::text(self.browser.as_str()));
        fields.put("device", JsonValue::text(self.device.as_str()));
        fields.put("os", JsonValue::text(self.os.as_str()));
        fields.finish()
    }

    /// Reads the properties from JSON.
    pub fn from_json(doc: &JsonValue) -> (read: Result<IdentifyProperties, DecodeError>)
        ensures
            match read {
                Ok(p) => IdentifyPropertiesModel::parse(doc@) == Ok::<
                    IdentifyPropertiesModel,
                    DecodeError,
                >(p@),
                Err(e) => IdentifyPropertiesModel::parse(doc@) == Err::<
                    IdentifyPropertiesModel,
                    DecodeError,
                >(e),
            },
    {
        let os = doc.text_field("os")?;
        let browser = doc.text_field("browser")?;
        let device = doc.text_field("device")?;
        Ok(IdentifyProperties { os, browser, device })
    }
}

/// Reading back written properties gives the properties.
pub proof fn lemma_properties_roundtrip(p: IdentifyPropertiesModel)
    ensures
        IdentifyPropertiesModel::parse(p.json_of()) == Ok::<IdentifyPropertiesModel, DecodeError>(p),
{
    broadcast use lemma_lookup_push, lemma_lookup_empty;

    reveal_strlit("os");
    reveal_strlit("browser");
    reveal_strlit("device");
    assert("os"@.len() == 2 && "browser"@.len() == 7 && "device"@.len() == 6);
}

/// The identification that opens a fresh session.
#[derive(Clone, Debug)]
pub struct IdentifyPayload {
    pub token: String,
    pub properties: IdentifyProperties,
    pub compress: bool,
    pub large_threshold: Option<i32>,
    pub shard: Option<[i32; 2]>,
    pub intents: GatewayIntents,
}

/// The content of an [`IdentifyPayload`].
pub struct IdentifyModel {
    pub token: Seq<char>,
    pub properties: IdentifyPropertiesModel,
    pub compress: bool,
    pub large_threshold: Option<i32>,
    pub shard: Option<(i32, i32)>,
    pub intents: u32,
}

impl View for IdentifyPayload {
    type V = IdentifyModel;

    open spec fn view(&self) -> IdentifyModel {
        IdentifyModel {
            token: self.token@,
            properties: self.properties@,
            compress: self.compress,
            large_threshold: self.large_threshold,
            shard: match self.shard {
                Some(pair) => Some((pair[0], pair[1])),
                None => None,
            },
            intents: self.intents.value(),
        }
    }
}

/// A pair of 32-bit integers, read from `value`, which came from the member
/// `key`: an array of exactly two.
pub open spec fn pair_in(value: JsonModel, key: &'static str) -> Result<(i32, i32), DecodeError> {
    match value {
        JsonModel::Array(items) => if items.len() == 2 {
            let a = int_in(items[0], key, i32::MIN as int, i32::MAX as int);
            let b = int_in(items[1], key, i32::MIN as int, i32::MAX as int);
            if a is Err {
                Err(a->Err_0)
            } else if b is Err {
                Err(b->Err_0)
            } else {
                Ok((a->Ok_0 as i32, b->Ok_0 as i32))
            }
        } else {
            Err(DecodeError::InvalidField(key))
        },
        _ => Err(DecodeError::InvalidField(key)),
    }
}

/// The array of two integers that stands for a pair.
pub open spec fn pair_json(pair: (i32, i32)) -> JsonModel {
    JsonModel::Array(
        Seq::empty().push(JsonModel::Int(pair.0 as int)).push(JsonModel::Int(pair.1 as int)),
    )
}

impl IdentifyModel {
    /// Every intent bit is one that the protocol names.
    pub open spec fn wf(self) -> bool {
        within(self.intents, ALL_INTENTS)
    }

    /// The JSON object that stands for an identification, its members in
    /// the order of their names. The threshold and the shard are written
    /// only where they are set.
    pub open spec fn json_of(self) -> JsonModel {
        let head = Seq::empty().push(("compress"@, JsonModel::Bool(self.compress))).push(
            ("intents"@, JsonModel::Int(self.intents as int)),
        );
        let threshold = with_optional(
            head,
            "large_threshold"@,
            match self.large_threshold {
                Some(n) => Some(JsonModel::Int(n as int)),
                None => None,
            },
        ).push(("properties"@, self.properties.json_of()));
        let shard = with_optional(
            threshold,
            "shard"@,
            match self.shard {
                Some(pair) => Some(pair_json(pair)),
                None => None,
            },
        );
        JsonModel::Object(shard.push(("token"@, JsonModel::Str(self.token))))
    }

    /// The identification that a JSON document stands for. `compress` may
    /// be left out and is then `false`; the threshold and the shard may be
    /// left out or `null`.
    pub open spec fn parse(doc: JsonModel) -> Result<IdentifyModel, DecodeError> {
        let token = text_member(doc, "token");
        let properties = match required(doc, "properties") {
            Ok(v) => IdentifyPropertiesModel::parse(v),
            Err(e) => Err(e),
        };
        let compress = match doc.member("compress"@) {
            Some(v) => bool_in(v, "compress"),
            None => Ok(false),
        };
        let threshold = opt_int_member(doc, "large_threshold", i32::MIN as int, i32::MAX as int);
        let shard = match optional(doc, "shard") {
            Some(v) => match pair_in(v, "shard") {
                Ok(pair) => Ok(Some(pair)),
                Err(e) => Err(e),
            },
            None => Ok(None),
        };
        let intents = match int_member(doc, "intents", 0, u32::MAX as int) {
            Ok(bits) => if within(bits as u32, ALL_INTENTS) {
                Ok(bits as u32)
            } else {
                Err(DecodeError::InvalidField("intents"))
            },
            Err(e) => Err(e),
        };
        if token is Err {
            Err(token->Err_0)
        } else if properties is Err {
            Err(properties->Err_0)
        } else if compress is Err {
            Err(compress->Err_0)
        } else if threshold is Err {
            Err(threshold->Err_0)
        } else if shard is Err {
            Err(shard->Err_0)
        } else if intents is Err {
            Err(intents->Err_0)
        } else {
            Ok(
                IdentifyModel {
                    token: token->Ok_0,
                    properties: properties->Ok_0,
                    compress: compress->Ok_0,
                    large_threshold: match threshold->Ok_0 {
                        Some(n) => Some(n as i32),
                        None => None,
                    },
                    shard: shard->Ok_0,
                    intents: intents->Ok_0,
                },
            )
        }
    }
}

/// Reads a pair of 32-bit integers from an array of two.
pub fn read_pair(value: &JsonValue, key: &'static str) -> (pair: Result<[i32; 2], DecodeError>)
    ensures
        match pair {
            Ok(p) => pair_in(value@, key) == Ok::<(i32, i32), DecodeError>((p[0], p[1])),
            Err(e) => pair_in(value@, key) == Err::<(i32, i32), DecodeError>(e),
        },
{
    match value.as_items() {
        Some(items) => {
            if items.len() != 2 {
                return Err(DecodeError::InvalidField(key));
            }
            let a = items[0].int_between(key, i32::MIN as i64, i32::MAX as i64)?;
            let b = items[1].int_between(key, i32::MIN as i64, i32::MAX as i64)?;
            Ok([a as i32, b as i32])
        },
        None => Err(DecodeError::InvalidField(key)),
    }
}

/// Writes a pair of 32-bit integers as an array of two.
pub fn write_pair(pair: &[i32; 2]) -> (doc: JsonValue)
    ensures
        doc@ == pair_json((pair[0], pair[1])),
{
    let mut items: Vec<JsonValue> = Vec::new();
    items.push(JsonValue::Int(pair[0] as i64));
    items.push(JsonValue::Int(pair[1] as i64));
    let doc = JsonValue::array(items);
    assert(doc@->Array_0 =~= pair_json((pair[0], pair[1]))->Array_0);
    doc
}

impl IdentifyPayload {
    /// Writes the identification as JSON.
    pub fn to_json(&self) -> (doc: JsonValue)
        ensures
            doc@ == self@.json_of(),
    {
        let mut fields = ObjectBuilder::new();
        fields.put("compress", JsonValue::Bool(self.compress));
        fields.put("intents", JsonValue::Int(self.intents.bits() as i64));
        if let Some(n) = self.large_threshold {
            fields.put("large_threshold", JsonValue::Int(n as i64));
        }
        fields.put("properties", self.properties.to_json());
        if let Some(pair) = &self.shard {
            fields.put("shard", write_pair(pair));
        }
        fields.put("token", JsonValue::text(self.token.as_str()));
        fields.finish()
    }

    /// Reads an identification from JSON.
    pub fn from_json(doc: &JsonValue) -> (read: Result<IdentifyPayload, DecodeError>)
        ensures
            match read {
                Ok(p) => IdentifyModel::parse(doc@) == Ok::<IdentifyModel, DecodeError>(p@) && p@.wf(),
                Err(e) => IdentifyModel::parse(doc@) == Err::<IdentifyModel, DecodeError>(e),
            },
    {
        let token = doc.text_field("token")?;
        let properties = IdentifyProperties::from_json(doc.require("properties")?)?;
        let compress = match doc.get("compress") {
            Some(v) => v.boolean("compress")?,
            None => false,
        };
        let threshold = doc.opt_int_field("large_threshold", i32::MIN as i64, i32::MAX as i64)?;
        let large_threshold = match threshold {
            Some(n) => Some(n as i32),
            None => None,
        };
        let shard = match doc.maybe("shard") {
            Some(v) => Some(read_pair(v, "shard")?),
            None => None,
        };
        let bits = doc.int_field("intents", 0, u32::MAX as i64)?;
        let intents = match GatewayIntents::from_bits(bits as u32) {
            Some(set) => set,
            None => {
                return Err(DecodeError::InvalidField("intents"));
            },
        };
        Ok(IdentifyPayload { token, properties, compress, large_threshold, shard, intents })
    }
}

/// Reading back a written identification gives the identification.
pub proof fn lemma_identify_roundtrip(p: IdentifyModel)
    requires
        p.wf(),
    ensures
        IdentifyModel::parse(p.json_of()) == Ok::<IdentifyModel, DecodeError>(p),
{
    broadcast use lemma_lookup_push, lemma_lookup_empty;

    reveal_strlit("token");
    reveal_strlit("properties");
    reveal_strlit("compress");
    reveal_strlit("large_threshold");
    reveal_strlit("shard");
    reveal_strlit("intents");
    assert("token"@.len() == 5 && "properties"@.len() == 10 && "compress"@.len() == 8);
    assert("large_threshold"@.len() == 15 && "shard"@.len() == 5 && "intents"@.len() == 7);
    assert("token"@[0] == 't' && "shard"@[0] == 's');
    lemma_properties_roundtrip(p.properties);
}


/// The request to take up a session where it broke off.
#[derive(Clone, Debug)]
pub struct ResumePayload {
    pub token: String,
    pub session_id: String,
    /// The sequence number of the last event received.
    pub seq: i64,
}

/// The content of a [`ResumePayload`].
pub struct ResumeModel {
    pub token: Seq<char>,
    pub session_id: Seq<char>,
    pub seq: i64,
}

impl View for ResumePayload {
    type V = ResumeModel;

    open spec fn view(&self) -> ResumeModel {
        ResumeModel { token: self.token@, session_id: self.session_id@, seq: self.seq }
    }
}

impl ResumeModel {
    /// The JSON object that stands for a resume request.
    pub open spec fn json_of(self) -> JsonModel {
        JsonModel::Object(
            Seq::empty().push(("seq"@, JsonModel::Int(self.seq as int))).push(
                ("session_id"@, JsonModel::Str(self.session_id)),
            ).push(("token"@, JsonModel::Str(self.token))),
        )
    }

    /// The resume request that a JSON document stands for.
    pub open spec fn parse(doc: JsonModel) -> Result<ResumeModel, DecodeError> {
        let token = text_member(doc, "token");
        let session_id = text_member(doc, "session_id");
        let seq = int_member(doc, "seq", i64::MIN as int, i64::MAX as int);
        if token is Err {
            Err(token->Err_0)
        } else if session_id is Err {
            Err(session_id->Err_0)
        } else if seq is Err {
            Err(seq->Err_0)
        } else {
            Ok(ResumeModel { token: token->Ok_0, session_id: session_id->Ok_0, seq: seq->Ok_0 as i64 })
        }
    }
}

impl ResumePayload {
    /// Writes the resume request as JSON.
    pub fn to_json(&self) -> (doc: JsonValue)
        ensures
            doc@ == self@.json_of(),
    {
        let mut fields = ObjectBuilder::new();
        fields.put("seq", JsonValue::Int(self.seq));
        fields.put("session_id", JsonValue::text(self.session_id.as_str()));
        fields.put("token", JsonValue::text(self.token.as_str()));
        fields.finish()
    }

    /// Reads a resume request from JSON.
    pub fn from_json(doc: &JsonValue) -> (read: Result<ResumePayload, DecodeError>)
        ensures
            match read {
                Ok(p) => ResumeModel::parse(doc@) == Ok::<ResumeModel, DecodeError>(p@),
                Err(e) => ResumeModel::parse(doc@) == Err::<ResumeModel, DecodeError>(e),
            },
    {
        let token = doc.text_field("token")?;
        let session_id = doc.text_field("session_id")?;
        let seq = doc.int_field("seq", i64::MIN, i64::MAX)?;
        Ok(ResumePayload { token, session_id, seq })
    }
}

/// Reading back a written resume request gives the request.
pub proof fn lemma_resume_roundtrip(p: ResumeModel)
    ensures
        ResumeModel::parse(p.json_of()) == Ok::<ResumeModel, DecodeError>(p),
{
    broadcast use lemma_lookup_push, lemma_lookup_empty;

    reveal_strlit("token");
    reveal_strlit("session_id");
    reveal_strlit("seq");
    assert("token"@.len() == 5 && "session_id"@.len() == 10 && "seq"@.len() == 3);
}

/// What is written for a handshake, an identification or a resume
/// request holds no number but integers.
pub proof fn lemma_payloads_plain(hello: HelloPayload, identify: IdentifyModel, resume: ResumeModel)
    ensures
        plain(hello.json_of()),
        plain(identify.properties.json_of()),
        plain(identify.json_of()),
        plain(resume.json_of()),
{
    broadcast use lemma_plain_push, lemma_plain_items;

    reveal_with_fuel(plain, 3);
    assert(plain_fields(Seq::empty()) && plain_items(Seq::empty()));
    assert(plain(identify.properties.json_of()));
    if identify.shard is Some {
        assert(plain(pair_json(identify.shard->Some_0)));
    }
}

} // verus!
