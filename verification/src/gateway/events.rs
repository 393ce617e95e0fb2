//! The events that dispatch envelopes carry.

pub mod guild_create;
pub mod partial_application;
pub mod ready;
pub mod shard_info;

use crate::gateway::events::guild_create::lemma_guild_create_plain;
use crate::gateway::events::guild_create::lemma_guild_create_roundtrip;
use crate::gateway::events::guild_create::GuildCreate;
use crate::gateway::events::guild_create::GuildCreateModel;
use crate::gateway::events::ready::lemma_ready_plain;
use crate::gateway::events::ready::lemma_ready_roundtrip;
use crate::gateway::events::ready::Ready;
use crate::gateway::events::ready::ReadyModel;
use crate::json::plain;
use crate::json::JsonModel;
use crate::json::JsonValue;
use crate::text::str_eq;
use vstd::prelude::*;

verus! {

/// The event that opens a session, under the name the wire gives it.
pub type ReadyEvent = Ready;

/// An event, read as far as its name and body allow.
///
/// An event whose name is not known, and one whose body does not read as
/// its name promises, is `Unknown` and keeps name and body as they came.
#[derive(Debug, Clone)]
pub enum GatewayEvent {
    Ready(Ready),
    GuildCreate(GuildCreate),
    Unknown { name: String, data: JsonValue },
}

/// The content of a [`GatewayEvent`].
pub enum EventModel {
    Ready(ReadyModel),
    GuildCreate(GuildCreateModel),
    Unknown { name: Seq<char>, data: JsonModel },
}

impl View for GatewayEvent {
    type V = EventModel;

    open spec fn view(&self) -> EventModel {
        match self {
            GatewayEvent::Ready(r) => EventModel::Ready(r@),
            GatewayEvent::GuildCreate(g) => EventModel::GuildCreate(g@),
            GatewayEvent::Unknown { name, data } => EventModel::Unknown { name: name@, data: data@ },
        }
    }
}

impl EventModel {
    /// The name that the event has on the wire.
    pub open spec fn name(self) -> Seq<char> {
        match self {
            EventModel::Ready(_) => "READY"@,
            EventModel::GuildCreate(_) => "GUILD_CREATE"@,
            EventModel::Unknown { name, data } => name,
        }
    }

    /// The body that the event has on the wire.
    pub open spec fn body(self) -> JsonModel {
        match self {
            EventModel::Ready(r) => r.json_of(),
            EventModel::GuildCreate(g) => g.json_of(),
            EventModel::Unknown { name, data } => data,
        }
    }

    /// The event with the given name and body. This never fails: what
    /// cannot be read as a known event is an unknown one.
    pub open spec fn decode(name: Seq<char>, body: JsonModel) -> EventModel {
        if name == "READY"@ {
            match ReadyModel::parse(body) {
                Ok(r) => EventModel::Ready(r),
                Err(_) => EventModel::Unknown { name, data: body },
            }
        } else if name == "GUILD_CREATE"@ {
            match GuildCreateModel::parse(body) {
                Ok(g) => EventModel::GuildCreate(g),
                Err(_) => EventModel::Unknown { name, data: body },
            }
        } else {
            EventModel::Unknown { name, data: body }
        }
    }

    /// A known event is well formed; an unknown one holds a name and a body
    /// that do not read as a known event.
    pub open spec fn wf(self) -> bool {
        match self {
            EventModel::Ready(r) => r.wf(),
            EventModel::GuildCreate(g) => g.wf(),
            EventModel::Unknown { name, data } => EventModel::decode(name, data) is Unknown,
        }
    }
}

impl GatewayEvent {
    /// The name that the event has on the wire.
    pub fn name(&self) -> (name: String)
        ensures
            name@ == self@.name(),
    {
        match self {
            GatewayEvent::Ready(_) => "READY".to_owned(),
            GatewayEvent::GuildCreate(_) => "GUILD_CREATE".to_owned(),
            GatewayEvent::Unknown { name, .. } => name.clone(),
        }
    }

    /// The body that the event has on the wire.
    pub fn into_body(self) -> (body: JsonValue)
        ensures
            body@ == self@.body(),
    {
        match self {
            GatewayEvent::Ready(r) => r.to_json(),
            GatewayEvent::GuildCreate(g) => g.serialize(),
            GatewayEvent::Unknown { data, .. } => data,
        }
    }

    /// Reads the event with the given name from its body.
    pub fn decode(name: String, body: JsonValue) -> (event: GatewayEvent)
        ensures
            event@ == EventModel::decode(name@, body@),
            event@.wf(),
    {
        if str_eq(name.as_str(), "READY") {
            match Ready::from_json(&body) {
                Ok(r) => GatewayEvent::Ready(r),
                Err(_) => GatewayEvent::Unknown { name, data: body },
            }
        } else if str_eq(name.as_str(), "GUILD_CREATE") {
            match GuildCreate::deserialize(&body) {
                Ok(g) => GatewayEvent::GuildCreate(g),
                Err(_) => GatewayEvent::Unknown { name, data: body },
            }
        } else {
            GatewayEvent::Unknown { name, data: body }
        }
    }

    /// Whether the event is one that could not be read as a known event.
    pub fn is_unknown(&self) -> (unknown: bool)
        ensures
            unknown == (self@ is Unknown),
    {
        match self {
            GatewayEvent::Unknown { .. } => true,
            _ => false,
        }
    }
}

/// Reading an event back from its name and body gives the event.
pub proof fn lemma_event_roundtrip(event: EventModel)
    requires
        event.wf(),
    ensures
        EventModel::decode(event.name(), event.body()) == event,
{
    reveal_strlit("READY");
    reveal_strlit("GUILD_CREATE");
    assert("READY"@.len() == 5 && "GUILD_CREATE"@.len() == 12);
    match event {
        EventModel::Ready(r) => {
            lemma_ready_roundtrip(r);
        },
        EventModel::GuildCreate(g) => {
            lemma_guild_create_roundtrip(g);
        },
        EventModel::Unknown { name, data } => {},
    }
}

/// The body of a known event holds no number but integers.
pub proof fn lemma_known_event_plain(event: EventModel)
    requires
        !(event is Unknown),
    ensures
        plain(event.body()),
{
    match event {
        EventModel::Ready(r) => {
            lemma_ready_plain(r);
        },
        EventModel::GuildCreate(g) => {
            lemma_guild_create_plain(g);
        },
        EventModel::Unknown { name, data } => {},
    }
}

} // verus!
