//! The guilds a session starts with: known by identifier, not yet loaded.
//!
//! On the wire each is an object with an `id` and the flag `unavailable`;
//! in a list of them the flag is always set, so the list is kept as the
//! identifiers alone.

use crate::error::DecodeError;
use crate::guild::id_member;
use crate::id::id_json;
use crate::id::lemma_id_roundtrip;
use crate::id::GuildId;
use crate::json::bool_in;
use crate::json::items_model;
use crate::json::lemma_lookup_empty;
use crate::json::lemma_lookup_push;
use crate::json::lemma_plain_push;
use crate::json::plain;
use crate::json::plain_fields;
use crate::json::required;
use crate::json::JsonModel;
use crate::json::JsonValue;
use crate::json::ObjectBuilder;
use vstd::prelude::*;

verus! {

/// A guild that is known by its identifier only.
#[derive(Debug, Clone, Copy)]
pub struct UnavailableGuild {
    pub id: GuildId,
    pub unavailable: bool,
}

impl From<GuildId> for UnavailableGuild {
    fn from(value: GuildId) -> (guild: UnavailableGuild) {
        UnavailableGuild { id: value, unavailable: true }
    }
}

impl vstd::std_specs::convert::FromSpecImpl<GuildId> for UnavailableGuild {
    open spec fn obeys_from_spec() -> bool {
        true
    }

    open spec fn from_spec(value: GuildId) -> UnavailableGuild {
        UnavailableGuild { id: value, unavailable: true }
    }
}

/// The JSON object that stands for an unavailable guild.
pub open spec fn unavailable_json(id: u64, unavailable: bool) -> JsonModel {
    JsonModel::Object(
        Seq::empty().push(("id"@, id_json(id))).push(("unavailable"@, JsonModel::Bool(unavailable))),
    )
}

/// The identifier and the flag that a JSON document holds.
pub open spec fn unavailable_in(doc: JsonModel) -> Result<(u64, bool), DecodeError> {
    let id = id_member(doc);
    let flag = match required(doc, "unavailable") {
        Ok(v) => bool_in(v, "unavailable"),
        Err(e) => Err(e),
    };
    if id is Err {
        Err(id->Err_0)
    } else if flag is Err {
        Err(flag->Err_0)
    } else {
        Ok((id->Ok_0, flag->Ok_0))
    }
}

/// The numbers of a run of identifiers.
pub open spec fn ids_of(guilds: Seq<GuildId>) -> Seq<u64> {
    guilds.map_values(|g: GuildId| g@)
}

/// The JSON array that stands for a list of unavailable guilds.
pub open spec fn list_json(ids: Seq<u64>) -> JsonModel {
    JsonModel::Array(ids.map_values(|id: u64| unavailable_json(id, true)))
}

/// The identifiers that a run of JSON objects holds, or the error of the
/// first object that does not read as an unavailable guild.
pub open spec fn list_items_in(items: Seq<JsonModel>) -> Result<Seq<u64>, DecodeError>
    decreases items.len(),
{
    if items.len() == 0 {
        Ok(Seq::empty())
    } else {
        match list_items_in(items.drop_last()) {
            Ok(ids) => match unavailable_in(items.last()) {
                Ok(guild) => Ok(ids.push(guild.0)),
                Err(e) => Err(e),
            },
            Err(e) => Err(e),
        }
    }
}

/// The identifiers that a JSON array of unavailable guilds holds. `key` is
/// the member that the array came from.
pub open spec fn list_in(value: JsonModel, key: &'static str) -> Result<Seq<u64>, DecodeError> {
    match value {
        JsonModel::Array(items) => list_items_in(items),
        _ => Err(DecodeError::InvalidField(key)),
    }
}

/// An error met in a prefix of a list is the error of the whole list.
pub proof fn lemma_list_error_stays(items: Seq<JsonModel>, k: int)
    requires
        0 <= k <= items.len(),
        list_items_in(items.take(k)) is Err,
    ensures
        list_items_in(items) == list_items_in(items.take(k)),
    decreases items.len() - k,
{
    if k < items.len() {
        assert(items.take(k + 1).drop_last() =~= items.take(k));
        lemma_list_error_stays(items, k + 1);
    } else {
        assert(items.take(k) =~= items);
    }
}

impl UnavailableGuild {
    /// Writes the guild as JSON.
    pub fn to_json(&self) -> (doc: JsonValue)
        ensures
            doc@ == unavailable_json(self.id@, self.unavailable),
    {
        let mut fields = ObjectBuilder::new();
        fields.put("id", self.id.to_json());
        fields.put("unavailable", JsonValue::Bool(self.unavailable));
        fields.finish()
    }

    /// Reads an unavailable guild from JSON.
    pub fn from_json(doc: &JsonValue) -> (read: Result<UnavailableGuild, DecodeError>)
        ensures
            match read {
                Ok(g) => unavailable_in(doc@) == Ok::<(u64, bool), DecodeError>(
                    (g.id@, g.unavailable),
                ) && g.id.wf(),
                Err(e) => unavailable_in(doc@) == Err::<(u64, bool), DecodeError>(e),
            },
    {
        let id = GuildId::from_json(doc.require("id")?, "id")?;
        let unavailable = doc.require("unavailable")?.boolean("unavailable")?;
        Ok(UnavailableGuild { id, unavailable })
    }
}

/// Writes a list of guild identifiers as the array of unavailable guilds
/// that the wire format has.
pub fn serialize(guilds: &Vec<GuildId>) -> (doc: JsonValue)
    ensures
        doc@ == list_json(ids_of(guilds@)),
{
    let mut items: Vec<JsonValue> = Vec::new();
    let mut i: usize = 0;
    while i < guilds.len()
        invariant
            i <= guilds.len(),
            items@.len() == i,
            items_model(items@) == ids_of(guilds@).take(i as int).map_values(
                |id: u64| unavailable_json(id, true),
            ),
        decreases guilds.len() - i,
    {
        let guild = UnavailableGuild::from(guilds[i]);
        let ghost before = items@;
        let item = guild.to_json();
        items.push(item);
        i += 1;
        proof {
            let want = ids_of(guilds@).take(i as int).map_values(
                |id: u64| unavailable_json(id, true),
            );
            assert forall|k: int| 0 <= k < want.len() implies items_model(items@)[k] == want[k] by {
                if k < i - 1 {
                    assert(items_model(before)[k] == want[k]);
                }
            }
        }
    }
    assert(ids_of(guilds@).take(i as int) =~= ids_of(guilds@));
    JsonValue::array(items)
}

/// Reads a list of unavailable guilds from the JSON value of the member
/// `key`, and keeps the identifiers.
pub fn deserialize(value: &JsonValue, key: &'static str) -> (read: Result<Vec<GuildId>, DecodeError>)
    ensures
        match read {
            Ok(guilds) => list_in(value@, key) == Ok::<Seq<u64>, DecodeError>(ids_of(guilds@))
                && forall|i: int| 0 <= i < guilds@.len() ==> (#[trigger] guilds@[i]).wf(),
            Err(e) => list_in(value@, key) == Err::<Seq<u64>, DecodeError>(e),
        },
{
    let items = match value.as_items() {
        Some(items) => items,
        None => {
            return Err(DecodeError::InvalidField(key));
        },
    };
    let ghost models = items_model(items@);
    let mut out: Vec<GuildId> = Vec::new();
    let mut i: usize = 0;
    assert(ids_of(out@) =~= Seq::empty());
    while i < items.len()
        invariant
            i <= items.len(),
            models == items_model(items@),
            value@ == JsonModel::Array(models),
            list_items_in(models.take(i as int)) == Ok::<Seq<u64>, DecodeError>(ids_of(out@)),
            forall|k: int| 0 <= k < out@.len() ==> (#[trigger] out@[k]).wf(),
        decreases items.len() - i,
    {
        proof {
            assert(models.take(i + 1).drop_last() =~= models.take(i as int));
        }
        match UnavailableGuild::from_json(&items[i]) {
            Ok(guild) => {
                let ghost before = out@;
                out.push(guild.id);
                assert(ids_of(out@) =~= ids_of(before).push(guild.id@));
            },
            Err(e) => {
                proof {
                    lemma_list_error_stays(models, i + 1);
                }
                return Err(e);
            },
        }
        i += 1;
    }
    assert(models.take(i as int) =~= models);
    Ok(out)
}

/// Reading back a written unavailable guild gives its identifier and flag.
pub proof fn lemma_unavailable_roundtrip(id: u64, unavailable: bool)
    requires
        id != 0,
    ensures
        unavailable_in(unavailable_json(id, unavailable)) == Ok::<(u64, bool), DecodeError>(
            (id, unavailable),
        ),
{
    broadcast use lemma_lookup_push, lemma_lookup_empty;

    reveal_strlit("id");
    reveal_strlit("unavailable");
    assert("id"@.len() == 2 && "unavailable"@.len() == 11);
    lemma_id_roundtrip(id, "id");
}

/// Reading back a written list of guilds gives the list.
pub proof fn lemma_list_roundtrip(ids: Seq<u64>, key: &'static str)
    requires
        forall|i: int| 0 <= i < ids.len() ==> ids[i] != 0,
    ensures
        list_in(list_json(ids), key) == Ok::<Seq<u64>, DecodeError>(ids),
    decreases ids.len(),
{
    let items = ids.map_values(|id: u64| unavailable_json(id, true));
    if ids.len() == 0 {
        assert(ids =~= Seq::empty());
    } else {
        lemma_list_roundtrip(ids.drop_last(), key);
        assert(items.drop_last() =~= ids.drop_last().map_values(
            |id: u64| unavailable_json(id, true),
        ));
        lemma_unavailable_roundtrip(ids.last(), true);
        assert(ids.drop_last().push(ids.last()) =~= ids);
    }
}

/// What is written for a list of guilds holds no number but integers.
pub proof fn lemma_list_plain(ids: Seq<u64>)
    ensures
        plain(list_json(ids)),
        forall|id: u64, flag: bool| plain(#[trigger] unavailable_json(id, flag)),
{
    broadcast use lemma_plain_push;

    reveal_with_fuel(plain, 3);
    assert forall|id: u64, flag: bool| plain(#[trigger] unavailable_json(id, flag)) by {
        assert(plain_fields(Seq::empty()));
    }
    let items = ids.map_values(|id: u64| unavailable_json(id, true));
    assert forall|i: int| 0 <= i < items.len() implies plain(#[trigger] items[i]) by {
        assert(items[i] == unavailable_json(ids[i], true));
    }
}

} // verus!
