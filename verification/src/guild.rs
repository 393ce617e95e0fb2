//! A guild, as the gateway describes one.

pub mod unavailable;

use crate::error::DecodeError;
use crate::id::id_in;
use crate::id::id_json;
use crate::id::GuildId;
use crate::json::required;
use crate::json::JsonModel;
use crate::json::JsonValue;
use crate::json::ObjectBuilder;
use vstd::prelude::*;

verus! {

/// A guild.
#[derive(Debug, Clone, Copy)]
pub struct Guild {
    pub id: GuildId,
}

/// The identifier member that a JSON document holds.
pub open spec fn id_member(doc: JsonModel) -> Result<u64, DecodeError> {
    match required(doc, "id") {
        Ok(v) => id_in(v, "id"),
        Err(e) => Err(e),
    }
}

impl Guild {
    /// The JSON object that stands for the guild with the identifier `id`.
    pub open spec fn json_of(id: u64) -> JsonModel {
        JsonModel::Object(Seq::empty().push(("id"@, id_json(id))))
    }

    /// Writes the guild as JSON.
    pub fn to_json(&self) -> (doc: JsonValue)
        ensures
            doc@ == Guild::json_of(self.id@),
    {
        let mut fields = ObjectBuilder::new();
        fields.put("id", self.id.to_json());
        fields.finish()
    }

    /// Reads a guild from JSON.
    pub fn from_json(doc: &JsonValue) -> (read: Result<Guild, DecodeError>)
        ensures
            match read {
                Ok(g) => id_member(doc@) == Ok::<u64, DecodeError>(g.id@) && g.id.wf(),
                Err(e) => id_member(doc@) == Err::<u64, DecodeError>(e),
            },
    {
        let id = GuildId::from_json(doc.require("id")?, "id")?;
        Ok(Guild { id })
    }
}

} // verus!
