//! Which share of the guilds a session receives events for.

use crate::error::DecodeError;
use crate::json::int_in;
use crate::json::JsonModel;
use crate::json::JsonValue;
use vstd::prelude::*;

verus! {

/// A shard: its number, and how many shards there are.
#[derive(Debug, Clone, Copy, PartialEq, Eq, Structural)]
pub struct ShardInfo {
    /// Shard ID
    pub id: u16,
    /// Number of shards, never zero
    pub num: u16,
}

impl ShardInfo {
    /// There is at least one shard.
    pub open spec fn wf(self) -> bool {
        self.num != 0
    }

    /// The JSON array that stands for a shard: its number, then the count.
    pub open spec fn json_of(self) -> JsonModel {
        JsonModel::Array(
            Seq::empty().push(JsonModel::Int(self.id as int)).push(JsonModel::Int(self.num as int)),
        )
    }

    /// The shard that a JSON value stands for: an array of a number and a
    /// count that is not zero. `key` is the member that it came from.
    pub open spec fn parse(value: JsonModel, key: &'static str) -> Result<ShardInfo, DecodeError> {
        match value {
            JsonModel::Array(items) => if items.len() == 2 {
                let id = int_in(items[0], key, 0, u16::MAX as int);
                let num = int_in(items[1], key, 1, u16::MAX as int);
                if id is Err {
                    Err(id->Err_0)
                } else if num is Err {
                    Err(num->Err_0)
                } else {
                    Ok(ShardInfo { id: id->Ok_0 as u16, num: num->Ok_0 as u16 })
                }
            } else {
                Err(DecodeError::InvalidField(key))
            },
            _ => Err(DecodeError::InvalidField(key)),
        }
    }

    /// Writes the shard as JSON.
    pub fn to_json(&self) -> (doc: JsonValue)
        ensures
            doc@ == self.json_of(),
    {
        let mut items: Vec<JsonValue> = Vec::new();
        items.push(JsonValue::Int(self.id as i64));
        items.push(JsonValue::Int(self.num as i64));
        let doc = JsonValue::array(items);
        assert(doc@->Array_0 =~= self.json_of()->Array_0);
        doc
    }

    /// Reads a shard from the JSON value of the member `key`.
    pub fn from_json(value: &JsonValue, key: &'static str) -> (read: Result<ShardInfo, DecodeError>)
        ensures
            read == ShardInfo::parse(value@, key),
            read matches Ok(s) ==> s.wf(),
    {
        match value.as_items() {
            Some(items) => {
                if items.len() != 2 {
                    return Err(DecodeError::InvalidField(key));
                }
                let id = items[0].int_between(key, 0, u16::MAX as i64)?;
                let num = items[1].int_between(key, 1, u16::MAX as i64)?;
                Ok(ShardInfo { id: id as u16, num: num as u16 })
            },
            None => Err(DecodeError::InvalidField(key)),
        }
    }
}

/// Reading back a written shard gives the shard.
pub proof fn lemma_shard_roundtrip(shard: ShardInfo, key: &'static str)
    requires
        shard.wf(),
    ensures
        ShardInfo::parse(shard.json_of(), key) == Ok::<ShardInfo, DecodeError>(shard),
{
}

} // verus!
