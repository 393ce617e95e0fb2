//! A guild became known: the client joined it, or it became available.
//!
//! On the wire the event has two shapes. An available guild is the guild's
//! own members together with `joined_at`, and with `unavailable` set to
//! `false` where the guild was there before and has become available. A
//! guild that is still unavailable is an `id` and the flag alone. Members
//! are written in the order of their names.

use crate::error::DecodeError;
use crate::guild::id_member;
use crate::guild::unavailable::lemma_list_plain;
use crate::guild::unavailable::lemma_unavailable_roundtrip;
use crate::guild::unavailable::unavailable_in;
use crate::guild::unavailable::unavailable_json;
use crate::guild::unavailable::UnavailableGuild;
use crate::guild::Guild;
use crate::id::id_json;
use crate::id::lemma_id_roundtrip;
use crate::id::GuildId;
use crate::json::lemma_lookup_empty;
use crate::json::lemma_lookup_push;
use crate::json::lemma_plain_push;
use crate::json::plain;
use crate::json::opt_bool_member;
use crate::json::required;
use crate::json::with_optional;
use crate::json::JsonModel;
use crate::json::JsonValue;
use crate::json::ObjectBuilder;
use crate::timestamp::Timestamp;
use crate::timestamp::TimestampModel;
use vstd::prelude::*;

verus! {

/// Why a guild-create event was sent.
#[derive(Debug, Clone, Copy, PartialEq, Eq, Structural)]
pub enum GuildCreateSource {
    /// The guild was known and has become available.
    BecameAvailable,
    /// The user joined the guild.
    Joined,
}

/// What the event tells beyond the guild itself.
#[derive(Debug, Clone)]
pub struct GuildCreateExtraData {
    joined_at: Timestamp,
}

impl GuildCreateExtraData {
    /// When the guild was joined.
    pub closed spec fn joined(&self) -> TimestampModel {
        self.joined_at@
    }

    /// The extra data of a guild joined at `joined_at`.
    pub fn new(joined_at: Timestamp) -> (data: Self)
        ensures
            data.joined() == joined_at@,
    {
        GuildCreateExtraData { joined_at }
    }

    /// When the guild was joined.
    pub fn joined_at(&self) -> (at: &Timestamp)
        ensures
            at@ == self.joined(),
    {
        &self.joined_at
    }
}

/// A guild-create event.
#[derive(Debug, Clone)]
pub enum GuildCreate {
    /// A guild with its extra data, and why the event was sent.
    Available { guild: Guild, source: GuildCreateSource, extra_data: GuildCreateExtraData },
    /// The identifier of a guild that is not available.
    Unavailable(GuildId),
}

/// The content of a [`GuildCreate`].
pub enum GuildCreateModel {
    Available { id: u64, source: GuildCreateSource, joined_at: TimestampModel },
    Unavailable(u64),
}

impl View for GuildCreate {
    type V = GuildCreateModel;

    open spec fn view(&self) -> GuildCreateModel {
        match self {
            GuildCreate::Available { guild, source, extra_data } => GuildCreateModel::Available {
                id: guild.id@,
                source: *source,
                joined_at: extra_data.joined(),
            },
            GuildCreate::Unavailable(id) => GuildCreateModel::Unavailable(id@),
        }
    }
}

/// What an available guild's JSON holds: the identifier, the time of
/// joining, and the flag `unavailable` where it is there and not `null`.
pub open spec fn available_in(doc: JsonModel) -> Result<
    (u64, TimestampModel, Option<bool>),
    DecodeError,
> {
    let flag = opt_bool_member(doc, "unavailable");
    let id = id_member(doc);
    let joined_at = match required(doc, "joined_at") {
        Ok(v) => TimestampModel::parse(v, "joined_at"),
        Err(e) => Err(e),
    };
    if flag is Err {
        Err(flag->Err_0)
    } else if id is Err {
        Err(id->Err_0)
    } else if joined_at is Err {
        Err(joined_at->Err_0)
    } else {
        Ok((id->Ok_0, joined_at->Ok_0, flag->Ok_0))
    }
}

impl GuildCreateModel {
    /// The identifier is not zero and the time of joining is well formed.
    pub open spec fn wf(self) -> bool {
        match self {
            GuildCreateModel::Available { id, source, joined_at } => id != 0 && joined_at.wf(),
            GuildCreateModel::Unavailable(id) => id != 0,
        }
    }

    /// The JSON object that stands for the event.
    pub open spec fn json_of(self) -> JsonModel {
        match self {
            GuildCreateModel::Available { id, source, joined_at } => JsonModel::Object(
                with_optional(
                    Seq::empty().push(("id"@, id_json(id))).push(("joined_at"@, joined_at.json_of())),
                    "unavailable"@,
                    match source {
                        GuildCreateSource::Joined => None,
                        GuildCreateSource::BecameAvailable => Some(JsonModel::Bool(false)),
                    },
                ),
            ),
            GuildCreateModel::Unavailable(id) => unavailable_json(id, true),
        }
    }

    /// The event that a JSON document stands for. A document that reads as
    /// an available guild is one, unless it says that it is unavailable; any
    /// other document must read as an unavailable guild.
    pub open spec fn parse(doc: JsonModel) -> Result<GuildCreateModel, DecodeError> {
        match available_in(doc) {
            Ok((id, joined_at, flag)) => match flag {
                None => Ok(
                    GuildCreateModel::Available { id, source: GuildCreateSource::Joined, joined_at },
                ),
                Some(false) => Ok(
                    GuildCreateModel::Available {
                        id,
                        source: GuildCreateSource::BecameAvailable,
                        joined_at,
                    },
                ),
                Some(true) => Err(DecodeError::InvalidField("unavailable")),
            },
            Err(_) => match unavailable_in(doc) {
                Ok(guild) => Ok(GuildCreateModel::Unavailable(guild.0)),
                Err(e) => Err(e),
            },
        }
    }
}

/// Reads what an available guild's JSON holds.
fn read_available(doc: &JsonValue) -> (read: Result<(GuildId, Timestamp, Option<bool>), DecodeError>)
    ensures
        match read {
            Ok((id, at, flag)) => available_in(doc@) == Ok::<
                (u64, TimestampModel, Option<bool>),
                DecodeError,
            >((id@, at@, flag)) && id.wf() && at@.wf(),
            Err(e) => available_in(doc@) == Err::<(u64, TimestampModel, Option<bool>), DecodeError>(
                e,
            ),
        },
{
    let flag = doc.opt_bool_field("unavailable")?;
    let guild = Guild::from_json(doc)?;
    let joined_at = Timestamp::from_json(doc.require("joined_at")?, "joined_at")?;
    Ok((guild.id, joined_at, flag))
}

impl GuildCreate {
    /// The identifier of the guild that the event is about.
    pub fn guild_id(&self) -> (id: GuildId)
        ensures
            id@ == match self@ {
                GuildCreateModel::Available { id, source, joined_at } => id,
                GuildCreateModel::Unavailable(id) => id,
            },
    {
        match self {
            GuildCreate::Available { guild, .. } => guild.id,
            GuildCreate::Unavailable(guild_id) => *guild_id,
        }
    }

    /// Writes the event as JSON.
    pub fn serialize(&self) -> (doc: JsonValue)
        ensures
            doc@ == self@.json_of(),
    {
        match self {
            GuildCreate::Available { guild, source, extra_data } => {
                let mut fields = ObjectBuilder::new();
                fields.put("id", guild.id.to_json());
                fields.put("joined_at", extra_data.joined_at().to_json());
                match source {
                    GuildCreateSource::Joined => {},
                    GuildCreateSource::BecameAvailable => {
                        fields.put("unavailable", JsonValue::Bool(false));
                    },
                }
                fields.finish()
            },
            GuildCreate::Unavailable(id) => UnavailableGuild::from(*id).to_json(),
        }
    }

    /// Reads the event from JSON.
    pub fn deserialize(doc: &JsonValue) -> (read: Result<GuildCreate, DecodeError>)
        ensures
            match read {
                Ok(g) => GuildCreateModel::parse(doc@) == Ok::<GuildCreateModel, DecodeError>(g@)
                    && g@.wf(),
                Err(e) => GuildCreateModel::parse(doc@) == Err::<GuildCreateModel, DecodeError>(e),
            },
    {
        match read_available(doc) {
            Ok((id, joined_at, flag)) => {
                let source = match flag {
                    None => GuildCreateSource::Joined,
                    Some(false) => GuildCreateSource::BecameAvailable,
                    Some(true) => {
                        return Err(DecodeError::InvalidField("unavailable"));
                    },
                };
                Ok(
                    GuildCreate::Available {
                        guild: Guild { id },
                        source,
                        extra_data: GuildCreateExtraData::new(joined_at),
                    },
                )
            },
            Err(_) => {
                let guild = UnavailableGuild::from_json(doc)?;
                Ok(GuildCreate::Unavailable(guild.id))
            },
        }
    }
}

/// Reading back a written event gives the event.
pub proof fn lemma_guild_create_roundtrip(g: GuildCreateModel)
    requires
        g.wf(),
    ensures
        GuildCreateModel::parse(g.json_of()) == Ok::<GuildCreateModel, DecodeError>(g),
{
    broadcast use lemma_lookup_push, lemma_lookup_empty;

    reveal_strlit("id");
    reveal_strlit("unavailable");
    reveal_strlit("joined_at");
    assert("id"@.len() == 2 && "unavailable"@.len() == 11 && "joined_at"@.len() == 9);
    match g {
        GuildCreateModel::Available { id, source, joined_at } => {
            lemma_id_roundtrip(id, "id");
        },
        GuildCreateModel::Unavailable(id) => {
            lemma_unavailable_roundtrip(id, true);
            lemma_id_roundtrip(id, "id");
        },
    }
}

/// What is written for the event holds no number but integers.
pub proof fn lemma_guild_create_plain(g: GuildCreateModel)
    ensures
        plain(g.json_of()),
{
    broadcast use lemma_plain_push;

    reveal_with_fuel(plain, 3);
    lemma_list_plain(Seq::empty());
}

} // verus!
