//! What the service says of the gateway before a session is opened.

use crate::error::DecodeError;
use crate::json::int_member;
use crate::json::lemma_lookup_empty;
use crate::json::lemma_lookup_push;
use crate::json::required;
use crate::json::text_member;
use crate::json::JsonModel;
use crate::json::JsonValue;
use crate::json::ObjectBuilder;
use vstd::prelude::*;

verus! {

/// How many sessions the client may still start.
#[derive(Debug, Clone, Copy, PartialEq, Eq, Structural)]
pub struct SessionStartLimit {
    /// Total number of session starts the current user is allowed
    pub total: i32,
    /// Remaining number of session starts the current user is allowed
    pub remaining: i32,
    /// Number of milliseconds after which the limit resets
    pub reset_after: i64,
    /// Number of identify requests allowed per 5 seconds
    pub max_concurrency: i32,
}

impl SessionStartLimit {
    /// The JSON object that stands for the limit.
    pub open spec fn json_of(self) -> JsonModel {
        JsonModel::Object(
            Seq::empty().push(("max_concurrency"@, JsonModel::Int(self.max_concurrency as int))).push(
                ("remaining"@, JsonModel::Int(self.remaining as int)),
            ).push(("reset_after"@, JsonModel::Int(self.reset_after as int))).push(
                ("total"@, JsonModel::Int(self.total as int)),
            ),
        )
    }

    /// The limit that a JSON document stands for.
    pub open spec fn parse(doc: JsonModel) -> Result<SessionStartLimit, DecodeError> {
        let total = int_member(doc, "total", i32::MIN as int, i32::MAX as int);
        let remaining = int_member(doc, "remaining", i32::MIN as int, i32::MAX as int);
        let reset_after = int_member(doc, "reset_after", i64::MIN as int, i64::MAX as int);
        let max_concurrency = int_member(doc, "max_concurrency", i32::MIN as int, i32::MAX as int);
        if total is Err {
            Err(total->Err_0)
        } else if remaining is Err {
            Err(remaining->Err_0)
        } else if reset_after is Err {
            Err(reset_after->Err_0)
        } else if max_concurrency is Err {
            Err(max_concurrency->Err_0)
        } else {
            Ok(
                SessionStartLimit {
                    total: total->Ok_0 as i32,
                    remaining: remaining->Ok_0 as i32,
                    reset_after: reset_after->Ok_0 as i64,
                    max_concurrency: max_concurrency->Ok_0 as i32,
                },
            )
        }
    }

    /// Writes the limit as JSON.
    pub fn to_json(&self) -> (doc: JsonValue)
        ensures
            doc@ == self.json_of(),
    {
        let mut fields = ObjectBuilder::new();
        fields.put("max_concurrency", JsonValue::Int(self.max_concurrency as i64));
        fields.put("remaining", JsonValue::Int(self.remaining as i64));
        fields.put("reset_after", JsonValue::Int(self.reset_after));
        fields.put("total", JsonValue::Int(self.total as i64));
        fields.finish()
    }

    /// Reads the limit from JSON.
    pub fn from_json(doc: &JsonValue) -> (read: Result<SessionStartLimit, DecodeError>)
        ensures
            read == SessionStartLimit::parse(doc@),
    {
        let total = doc.int_field("total", i32::MIN as i64, i32::MAX as i64)?;
        let remaining = doc.int_field("remaining", i32::MIN as i64, i32::MAX as i64)?;
        let reset_after = doc.int_field("reset_after", i64::MIN, i64::MAX)?;
        let max_concurrency = doc.int_field("max_concurrency", i32::MIN as i64, i32::MAX as i64)?;
        Ok(
            SessionStartLimit {
                total: total as i32,
                remaining: remaining as i32,
                reset_after,
                max_concurrency: max_concurrency as i32,
            },
        )
    }
}

/// Where the gateway is, and how it wants to be used.
#[derive(Debug, Clone)]
pub struct GatewayBot {
    pub url: String,
    pub shards: i32,
    pub session_start_limit: SessionStartLimit,
}

/// The content of a [`GatewayBot`].
pub struct GatewayBotModel {
    pub url: Seq<char>,
    pub shards: i32,
    pub session_start_limit: SessionStartLimit,
}

impl View for GatewayBot {
    type V = GatewayBotModel;

    open spec fn view(&self) -> GatewayBotModel {
        GatewayBotModel {
            url: self.url@,
            shards: self.shards,
            session_start_limit: self.session_start_limit,
        }
    }
}

impl GatewayBotModel {
    /// The JSON object that stands for the answer.
    pub open spec fn json_of(self) -> JsonModel {
        JsonModel::Object(
            Seq::empty().push(("session_start_limit"@, self.session_start_limit.json_of())).push(
                ("shards"@, JsonModel::Int(self.shards as int)),
            ).push(("url"@, JsonModel::Str(self.url))),
        )
    }

    /// The answer that a JSON document stands for.
    pub open spec fn parse(doc: JsonModel) -> Result<GatewayBotModel, DecodeError> {
        let url = text_member(doc, "url");
        let shards = int_member(doc, "shards", i32::MIN as int, i32::MAX as int);
        let limit = match required(doc, "session_start_limit") {
            Ok(v) => SessionStartLimit::parse(v),
            Err(e) => Err(e),
        };
        if url is Err {
            Err(url->Err_0)
        } else if shards is Err {
            Err(shards->Err_0)
        } else if limit is Err {
            Err(limit->Err_0)
        } else {
            Ok(
                GatewayBotModel {
                    url: url->Ok_0,
                    shards: shards->Ok_0 as i32,
                    session_start_limit: limit->Ok_0,
                },
            )
        }
    }
}

impl GatewayBot {
    /// Writes the answer as JSON.
    pub fn to_json(&self) -> (doc: JsonValue)
        ensures
            doc@ == self@.json_of(),
    {
        let mut fields = ObjectBuilder::new();
        fields.put("session_start_limit", self.session_start_limit.to_json());
        fields.put("shards", JsonValue::Int(self.shards as i64));
        fields.put("url", JsonValue::text(self.url.as_str()));
        fields.finish()
    }

    /// Reads the answer from JSON.
    pub fn from_json(doc: &JsonValue) -> (read: Result<GatewayBot, DecodeError>)
        ensures
            match read {
                Ok(b) => GatewayBotModel::parse(doc@) == Ok::<GatewayBotModel, DecodeError>(b@),
                Err(e) => GatewayBotModel::parse(doc@) == Err::<GatewayBotModel, DecodeError>(e),
            },
    {
        let url = doc.text_field("url")?;
        let shards = doc.int_field("shards", i32::MIN as i64, i32::MAX as i64)?;
        let session_start_limit = SessionStartLimit::from_json(
            doc.require("session_start_limit")?,
        )?;
        Ok(GatewayBot { url, shards: shards as i32, session_start_limit })
    }
}

/// Reading back a written limit gives the limit.
pub proof fn lemma_limit_roundtrip(limit: SessionStartLimit)
    ensures
        SessionStartLimit::parse(limit.json_of()) == Ok::<SessionStartLimit, DecodeError>(limit),
{
    broadcast use lemma_lookup_push, lemma_lookup_empty;

    reveal_strlit("total");
    reveal_strlit("remaining");
    reveal_strlit("reset_after");
    reveal_strlit("max_concurrency");
    assert("total"@.len() == 5 && "remaining"@.len() == 9 && "reset_after"@.len() == 11);
}

/// Reading back a written answer gives the answer.
pub proof fn lemma_bot_roundtrip(bot: GatewayBotModel)
    ensures
        GatewayBotModel::parse(bot.json_of()) == Ok::<GatewayBotModel, DecodeError>(bot),
{
    broadcast use lemma_lookup_push, lemma_lookup_empty;

    reveal_strlit("url");
    reveal_strlit("shards");
    reveal_strlit("session_start_limit");
    assert("url"@.len() == 3 && "shards"@.len() == 6 && "session_start_limit"@.len() == 19);
    lemma_limit_roundtrip(bot.session_start_limit);
}

} // verus!
