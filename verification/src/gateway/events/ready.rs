//! The event that opens a session: who the client is, which guilds it is
//! in, and what it needs to resume.

use crate::error::DecodeError;
use crate::gateway::events::partial_application::lemma_application_roundtrip;
use crate::gateway::events::partial_application::PartialApplication;
use crate::gateway::events::partial_application::PartialApplicationModel;
use crate::gateway::events::shard_info::lemma_shard_roundtrip;
use crate::gateway::events::shard_info::ShardInfo;
use crate::guild::unavailable::deserialize;
use crate::guild::unavailable::ids_of;
use crate::guild::unavailable::lemma_list_plain;
use crate::guild::unavailable::lemma_list_roundtrip;
use crate::guild::unavailable::list_in;
use crate::guild::unavailable::list_json;
use crate::guild::unavailable::serialize;
use crate::id::GuildId;
use crate::json::int_member;
use crate::json::lemma_lookup_empty;
use crate::json::lemma_lookup_push;
use crate::json::lemma_plain_items;
use crate::json::lemma_plain_push;
use crate::json::plain;
use crate::json::plain_fields;
use crate::json::plain_items;
use crate::json::optional;
use crate::json::required;
use crate::json::text_member;
use crate::json::with_optional;
use crate::json::JsonModel;
use crate::json::JsonValue;
use crate::json::ObjectBuilder;
use crate::user::lemma_user_plain;
use crate::user::lemma_user_roundtrip;
use crate::user::User;
use crate::user::UserModel;
use vstd::prelude::*;

verus! {

/// The initial state of a session.
#[derive(Debug, Clone)]
pub struct Ready {
    /// API version
    pub version: u8,
    /// The user the session belongs to
    pub user: User,
    /// Guilds the user is in
    pub guilds: Vec<GuildId>,
    /// Used for resuming connections
    pub session_id: String,
    /// Gateway URL for resuming connections
    pub resume_gateway_url: String,
    /// The shard of this session, if one was sent when identifying
    pub shard: Option<ShardInfo>,
    /// The application's identifier and flags
    pub application: PartialApplication,
}

/// The content of a [`Ready`].
pub struct ReadyModel {
    pub version: u8,
    pub user: UserModel,
    pub guilds: Seq<u64>,
    pub session_id: Seq<char>,
    pub resume_gateway_url: Seq<char>,
    pub shard: Option<ShardInfo>,
    pub application: PartialApplicationModel,
}

impl View for Ready {
    type V = ReadyModel;

    open spec fn view(&self) -> ReadyModel {
        ReadyModel {
            version: self.version,
            user: self.user@,
            guilds: ids_of(self.guilds@),
            session_id: self.session_id@,
            resume_gateway_url: self.resume_gateway_url@,
            shard: self.shard,
            application: self.application@,
        }
    }
}

impl ReadyModel {
    /// Every part is well formed.
    pub open spec fn wf(self) -> bool {
        &&& self.user.wf()
        &&& forall|i: int| 0 <= i < self.guilds.len() ==> self.guilds[i] != 0
        &&& self.shard matches Some(s) ==> s.wf()
        &&& self.application.wf()
    }

    /// The JSON object that stands for the event, its members in the order
    /// of their names. The shard is written only where there is one.
    pub open spec fn json_of(self) -> JsonModel {
        let head = Seq::empty().push(("application"@, self.application.json_of())).push(
            ("guilds"@, list_json(self.guilds)),
        ).push(("resume_gateway_url"@, JsonModel::Str(self.resume_gateway_url))).push(
            ("session_id"@, JsonModel::Str(self.session_id)),
        );
        let shard = with_optional(
            head,
            "shard"@,
            match self.shard {
                Some(s) => Some(s.json_of()),
                None => None,
            },
        );
        JsonModel::Object(
            shard.push(("user"@, self.user.json_of())).push(
                ("v"@, JsonModel::Int(self.version as int)),
            ),
        )
    }

    /// The event that a JSON document stands for.
    pub open spec fn parse(doc: JsonModel) -> Result<ReadyModel, DecodeError> {
        let version = int_member(doc, "v", 0, u8::MAX as int);
        let user = match required(doc, "user") {
            Ok(v) => UserModel::parse(v),
            Err(e) => Err(e),
        };
        let guilds = match required(doc, "guilds") {
            Ok(v) => list_in(v, "guilds"),
            Err(e) => Err(e),
        };
        let session_id = text_member(doc, "session_id");
        let resume_gateway_url = text_member(doc, "resume_gateway_url");
        let shard = match optional(doc, "shard") {
            Some(v) => match ShardInfo::parse(v, "shard") {
                Ok(s) => Ok(Some(s)),
                Err(e) => Err(e),
            },
            None => Ok(None),
        };
        let application = match required(doc, "application") {
            Ok(v) => PartialApplicationModel::parse(v),
            Err(e) => Err(e),
        };
        if version is Err {
            Err(version->Err_0)
        } else if user is Err {
            Err(user->Err_0)
        } else if guilds is Err {
            Err(guilds->Err_0)
        } else if session_id is Err {
            Err(session_id->Err_0)
        } else if resume_gateway_url is Err {
            Err(resume_gateway_url->Err_0)
        } else if shard is Err {
            Err(shard->Err_0)
        } else if application is Err {
            Err(application->Err_0)
        } else {
            Ok(
                ReadyModel {
                    version: version->Ok_0 as u8,
                    user: user->Ok_0,
                    guilds: guilds->Ok_0,
                    session_id: session_id->Ok_0,
                    resume_gateway_url: resume_gateway_url->Ok_0,
                    shard: shard->Ok_0,
                    application: application->Ok_0,
                },
            )
        }
    }
}

impl Ready {
    /// Writes the event as JSON.
    pub fn to_json(&self) -> (doc: JsonValue)
        ensures
            doc@ == self@.json_of(),
    {
        let mut fields = ObjectBuilder::new();
        fields.put("application", self.application.to_json());
        fields.put("guilds", serialize(&self.guilds));
        fields.put("resume_gateway_url", JsonValue::text(self.resume_gateway_url.as_str()));
        fields.put("session_id", JsonValue::text(self.session_id.as_str()));
        if let Some(shard) = &self.shard {
            fields.put("shard", shard.to_json());
        }
        fields.put("user", self.user.to_json());
        fields.put("v", JsonValue::Int(self.version as i64));
        fields.finish()
    }

    /// Reads the event from JSON.
    pub fn from_json(doc: &JsonValue) -> (read: Result<Ready, DecodeError>)
        ensures
            match read {
                Ok(r) => ReadyModel::parse(doc@) == Ok::<ReadyModel, DecodeError>(r@) && r@.wf(),
                Err(e) => ReadyModel::parse(doc@) == Err::<ReadyModel, DecodeError>(e),
            },
    {
        let version = doc.int_field("v", 0, u8::MAX as i64)?;
        let user = User::from_json(doc.require("user")?)?;
        let guilds = deserialize(doc.require("guilds")?, "guilds")?;
        let session_id = doc.text_field("session_id")?;
        let resume_gateway_url = doc.text_field("resume_gateway_url")?;
        let shard = match doc.maybe("shard") {
            Some(v) => Some(ShardInfo::from_json(v, "shard")?),
            None => None,
        };
        let application = PartialApplication::from_json(doc.require("application")?)?;
        let ready = Ready {
            version: version as u8,
            user,
            guilds,
            session_id,
            resume_gateway_url,
            shard,
            application,
        };
        assert forall|i: int| 0 <= i < ready@.guilds.len() implies ready@.guilds[i] != 0 by {
            assert(ready.guilds@[i].wf());
        }
        Ok(ready)
    }
}

/// Reading back a written event gives the event.
pub proof fn lemma_ready_roundtrip(r: ReadyModel)
    requires
        r.wf(),
    ensures
        ReadyModel::parse(r.json_of()) == Ok::<ReadyModel, DecodeError>(r),
{
    broadcast use lemma_lookup_push, lemma_lookup_empty;

    reveal_strlit("v");
    reveal_strlit("user");
    reveal_strlit("guilds");
    reveal_strlit("session_id");
    reveal_strlit("resume_gateway_url");
    reveal_strlit("shard");
    reveal_strlit("application");
    assert("v"@.len() == 1 && "user"@.len() == 4 && "guilds"@.len() == 6);
    assert("session_id"@.len() == 10 && "resume_gateway_url"@.len() == 18);
    assert("shard"@.len() == 5 && "application"@.len() == 11);
    lemma_user_roundtrip(r.user);
    lemma_list_roundtrip(r.guilds, "guilds");
    lemma_application_roundtrip(r.application);
    if r.shard is Some {
        lemma_shard_roundtrip(r.shard->Some_0, "shard");
    }
}

/// What is written for the event holds no number but integers.
pub proof fn lemma_ready_plain(r: ReadyModel)
    ensures
        plain(r.json_of()),
{
    broadcast use lemma_plain_push, lemma_plain_items;

    reveal_with_fuel(plain, 3);
    lemma_user_plain(r.user);
    lemma_list_plain(r.guilds);
    assert(plain_fields(Seq::empty()) && plain_items(Seq::empty()));
    assert(plain(r.application.json_of()));
    if r.shard is Some {
        assert(plain(r.shard->Some_0.json_of()));
    }
}

} // verus!
