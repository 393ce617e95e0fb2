//! The application a session belongs to, as far as the gateway tells.

use crate::error::DecodeError;
use crate::gateway::intents::within;
use crate::id::id_in;
use crate::id::id_json;
use crate::id::lemma_id_roundtrip;
use crate::id::ApplicationId;
use crate::json::int_member;
use crate::json::lemma_lookup_empty;
use crate::json::lemma_lookup_push;
use crate::json::required;
use crate::json::JsonModel;
use crate::json::JsonValue;
use crate::json::ObjectBuilder;
use vstd::prelude::*;

verus! {

pub const APPLICATION_AUTO_MODERATION_RULE_CREATE_BADGE: u32 = 1 << 6;

pub const GATEWAY_PRESENCE: u32 = 1 << 12;

pub const GATEWAY_PRESENCE_LIMITED: u32 = 1 << 13;

pub const GATEWAY_GUILD_MEMBERS: u32 = 1 << 14;

pub const GATEWAY_GUILD_MEMBERS_LIMITED: u32 = 1 << 15;

pub const VERIFICATION_PENDING_GUILD_LIMIT: u32 = 1 << 16;

pub const EMBEDDED: u32 = 1 << 17;

pub const GATEWAY_MESSAGE_CONTENT: u32 = 1 << 18;

pub const GATEWAY_MESSAGE_CONTENT_LIMITED: u32 = 1 << 19;

pub const APPLICATION_COMMAND_BADGE: u32 = 1 << 23;

/// Every bit that names an application flag.
pub const ALL_APPLICATION_FLAGS: u32 = 0x008f_f040;

/// An application's public flags, one bit each.
#[derive(Debug, Clone, Copy)]
pub struct ApplicationFlags {
    bits: u32,
}

impl ApplicationFlags {
    /// The bits that are set.
    pub closed spec fn value(self) -> u32 {
        self.bits
    }

    /// The flags with exactly the given bits, where each names a flag.
    pub fn from_bits(bits: u32) -> (flags: Option<Self>)
        ensures
            match flags {
                Some(f) => f.value() == bits && within(bits, ALL_APPLICATION_FLAGS),
                None => !within(bits, ALL_APPLICATION_FLAGS),
            },
    {
        if bits & !ALL_APPLICATION_FLAGS == 0 {
            Some(ApplicationFlags { bits })
        } else {
            None
        }
    }

    /// The bits that are set.
    pub fn bits(self) -> (bits: u32)
        ensures
            bits == self.value(),
    {
        self.bits
    }

    /// Whether every bit of `flags` is set.
    pub fn contains(self, flags: u32) -> (held: bool)
        ensures
            held == (self.value() & flags == flags),
    {
        self.bits & flags == flags
    }
}

/// An application: its identifier and its flags.
#[derive(Clone, Copy, Debug)]
pub struct PartialApplication {
    id: ApplicationId,
    flags: ApplicationFlags,
}

/// The content of a [`PartialApplication`].
pub struct PartialApplicationModel {
    pub id: u64,
    pub flags: u32,
}

impl View for PartialApplication {
    type V = PartialApplicationModel;

    closed spec fn view(&self) -> PartialApplicationModel {
        PartialApplicationModel { id: self.id@, flags: self.flags.value() }
    }
}

impl PartialApplicationModel {
    /// The identifier is not zero and every flag bit names a flag.
    pub open spec fn wf(self) -> bool {
        self.id != 0 && within(self.flags, ALL_APPLICATION_FLAGS)
    }

    /// The JSON object that stands for an application.
    pub open spec fn json_of(self) -> JsonModel {
        JsonModel::Object(
            Seq::empty().push(("flags"@, JsonModel::Int(self.flags as int))).push(
                ("id"@, id_json(self.id)),
            ),
        )
    }

    /// The application that a JSON document stands for.
    pub open spec fn parse(doc: JsonModel) -> Result<PartialApplicationModel, DecodeError> {
        let id = match required(doc, "id") {
            Ok(v) => id_in(v, "id"),
            Err(e) => Err(e),
        };
        let flags = match int_member(doc, "flags", 0, u32::MAX as int) {
            Ok(bits) => if within(bits as u32, ALL_APPLICATION_FLAGS) {
                Ok(bits as u32)
            } else {
                Err(DecodeError::InvalidField("flags"))
            },
            Err(e) => Err(e),
        };
        if id is Err {
            Err(id->Err_0)
        } else if flags is Err {
            Err(flags->Err_0)
        } else {
            Ok(PartialApplicationModel { id: id->Ok_0, flags: flags->Ok_0 })
        }
    }
}

impl PartialApplication {
    /// The application with the given identifier and flags.
    pub fn new(id: ApplicationId, flags: ApplicationFlags) -> (app: Self)
        ensures
            app@ == (PartialApplicationModel { id: id@, flags: flags.value() }),
    {
        PartialApplication { id, flags }
    }

    /// The application's identifier.
    pub fn id(&self) -> (id: ApplicationId)
        ensures
            id@ == self@.id,
    {
        self.id
    }

    /// The application's flags.
    pub fn flags(&self) -> (flags: ApplicationFlags)
        ensures
            flags.value() == self@.flags,
    {
        self.flags
    }

    /// Writes the application as JSON.
    pub fn to_json(&self) -> (doc: JsonValue)
        ensures
            doc@ == self@.json_of(),
    {
        let mut fields = ObjectBuilder::new();
        fields.put("flags", JsonValue::Int(self.flags.bits() as i64));
        fields.put("id", self.id.to_json());
        fields.finish()
    }

    /// Reads an application from JSON.
    pub fn from_json(doc: &JsonValue) -> (read: Result<PartialApplication, DecodeError>)
        ensures
            match read {
                Ok(a) => PartialApplicationModel::parse(doc@) == Ok::<
                    PartialApplicationModel,
                    DecodeError,
                >(a@) && a@.wf(),
                Err(e) => PartialApplicationModel::parse(doc@) == Err::<
                    PartialApplicationModel,
                    DecodeError,
                >(e),
            },
    {
        let id = ApplicationId::from_json(doc.require("id")?, "id")?;
        let bits = doc.int_field("flags", 0, u32::MAX as i64)?;
        match ApplicationFlags::from_bits(bits as u32) {
            Some(flags) => Ok(PartialApplication { id, flags }),
            None => Err(DecodeError::InvalidField("flags")),
        }
    }
}

/// Reading back a written application gives the application.
pub proof fn lemma_application_roundtrip(app: PartialApplicationModel)
    requires
        app.wf(),
    ensures
        PartialApplicationModel::parse(app.json_of()) == Ok::<PartialApplicationModel, DecodeError>(
            app,
        ),
{
    broadcast use lemma_lookup_push, lemma_lookup_empty;

    reveal_strlit("id");
    reveal_strlit("flags");
    assert("id"@.len() == 2 && "flags"@.len() == 5);
    lemma_id_roundtrip(app.id, "id");
}

} // verus!
