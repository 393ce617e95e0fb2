//! A user, as the gateway describes one.

pub mod discriminator;

use crate::error::DecodeError;
use crate::id::id_in;
use crate::id::id_json;
use crate::id::lemma_id_roundtrip;
use crate::id::UserId;
use crate::json::lemma_lookup_empty;
use crate::json::lemma_lookup_push;
use crate::json::lemma_plain_push;
use crate::json::plain;
use crate::json::opt_bool_json;
use crate::json::opt_bool_member;
use crate::json::opt_text;
use crate::json::opt_text_json;
use crate::json::opt_text_member;
use crate::json::required;
use crate::json::text_member;
use crate::json::with_optional;
use crate::json::JsonModel;
use crate::json::JsonValue;
use crate::json::ObjectBuilder;
use crate::user::discriminator::discriminator_in;
use crate::user::discriminator::discriminator_json;
use crate::user::discriminator::lemma_discriminator_roundtrip;
use crate::user::discriminator::read_discriminator;
use crate::user::discriminator::write_discriminator;
use crate::user::discriminator::Discriminator;
use vstd::prelude::*;

verus! {

/// A user.
#[derive(Debug, Clone)]
pub struct User {
    pub id: UserId,
    pub username: String,
    pub discriminator: Option<Discriminator>,
    pub global_name: Option<String>,
    pub avatar: Option<String>,
    pub bot: Option<bool>,
    pub system: Option<bool>,
}

/// The content of a [`User`].
pub struct UserModel {
    pub id: u64,
    pub username: Seq<char>,
    pub discriminator: Option<u16>,
    pub global_name: Option<Seq<char>>,
    pub avatar: Option<Seq<char>>,
    pub bot: Option<bool>,
    pub system: Option<bool>,
}

impl View for User {
    type V = UserModel;

    open spec fn view(&self) -> UserModel {
        UserModel {
            id: self.id@,
            username: self.username@,
            discriminator: match self.discriminator {
                Some(d) => Some(d.0),
                None => None,
            },
            global_name: opt_text(self.global_name),
            avatar: opt_text(self.avatar),
            bot: self.bot,
            system: self.system,
        }
    }
}

impl UserModel {
    /// The identifier is not zero, and a discriminator is between 1 and 9999.
    pub open spec fn wf(self) -> bool {
        &&& self.id != 0
        &&& self.discriminator matches Some(d) ==> 1 <= d <= 9999
    }

    /// The JSON object that stands for a user, its members in the order of
    /// their names. The name shown and the avatar are `null` where unset;
    /// `bot` and `system` are left out.
    pub open spec fn json_of(self) -> JsonModel {
        let head = Seq::empty().push(("avatar"@, opt_text_json(self.avatar)));
        let bot = with_optional(head, "bot"@, opt_bool_json(self.bot)).push(
            ("discriminator"@, discriminator_json(self.discriminator)),
        ).push(("global_name"@, opt_text_json(self.global_name))).push(("id"@, id_json(self.id)));
        JsonModel::Object(
            with_optional(bot, "system"@, opt_bool_json(self.system)).push(
                ("username"@, JsonModel::Str(self.username)),
            ),
        )
    }

    /// The user that a JSON document stands for.
    pub open spec fn parse(doc: JsonModel) -> Result<UserModel, DecodeError> {
        let id = match required(doc, "id") {
            Ok(v) => id_in(v, "id"),
            Err(e) => Err(e),
        };
        let username = text_member(doc, "username");
        let discriminator = match required(doc, "discriminator") {
            Ok(v) => discriminator_in(v, "discriminator"),
            Err(e) => Err(e),
        };
        let global_name = opt_text_member(doc, "global_name");
        let avatar = opt_text_member(doc, "avatar");
        let bot = opt_bool_member(doc, "bot");
        let system = opt_bool_member(doc, "system");
        if id is Err {
            Err(id->Err_0)
        } else if username is Err {
            Err(username->Err_0)
        } else if discriminator is Err {
            Err(discriminator->Err_0)
        } else if global_name is Err {
            Err(global_name->Err_0)
        } else if avatar is Err {
            Err(avatar->Err_0)
        } else if bot is Err {
            Err(bot->Err_0)
        } else if system is Err {
            Err(system->Err_0)
        } else {
            Ok(
                UserModel {
                    id: id->Ok_0,
                    username: username->Ok_0,
                    discriminator: discriminator->Ok_0,
                    global_name: global_name->Ok_0,
                    avatar: avatar->Ok_0,
                    bot: bot->Ok_0,
                    system: system->Ok_0,
                },
            )
        }
    }
}

impl User {
    /// Writes the user as JSON.
    pub fn to_json(&self) -> (doc: JsonValue)
        ensures
            doc@ == self@.json_of(),
    {
        let mut fields = ObjectBuilder::new();
        fields.put("avatar", JsonValue::opt_text(&self.avatar));
        if let Some(bot) = self.bot {
            fields.put("bot", JsonValue::Bool(bot));
        }
        fields.put("discriminator", write_discriminator(&self.discriminator));
        fields.put("global_name", JsonValue::opt_text(&self.global_name));
        fields.put("id", self.id.to_json());
        if let Some(system) = self.system {
            fields.put("system", JsonValue::Bool(system));
        }
        fields.put("username", JsonValue::text(self.username.as_str()));
        fields.finish()
    }

    /// Reads a user from JSON.
    pub fn from_json(doc: &JsonValue) -> (read: Result<User, DecodeError>)
        ensures
            match read {
                Ok(u) => UserModel::parse(doc@) == Ok::<UserModel, DecodeError>(u@) && u@.wf(),
                Err(e) => UserModel::parse(doc@) == Err::<UserModel, DecodeError>(e),
            },
    {
        let id = UserId::from_json(doc.require("id")?, "id")?;
        let username = doc.text_field("username")?;
        let discriminator = read_discriminator(doc.require("discriminator")?, "discriminator")?;
        let global_name = doc.opt_text_field("global_name")?;
        let avatar = doc.opt_text_field("avatar")?;
        let bot = doc.opt_bool_field("bot")?;
        let system = doc.opt_bool_field("system")?;
        Ok(User { id, username, discriminator, global_name, avatar, bot, system })
    }
}

/// Reading back a written user gives the user.
pub proof fn lemma_user_roundtrip(u: UserModel)
    requires
        u.wf(),
    ensures
        UserModel::parse(u.json_of()) == Ok::<UserModel, DecodeError>(u),
{
    broadcast use lemma_lookup_push, lemma_lookup_empty;

    reveal_strlit("id");
    reveal_strlit("username");
    reveal_strlit("discriminator");
    reveal_strlit("global_name");
    reveal_strlit("avatar");
    reveal_strlit("bot");
    reveal_strlit("system");
    assert("id"@.len() == 2 && "username"@.len() == 8 && "discriminator"@.len() == 13);
    assert("global_name"@.len() == 11 && "avatar"@.len() == 6 && "bot"@.len() == 3);
    assert("avatar"@[0] == 'a' && "system"@[0] == 's');
    lemma_id_roundtrip(u.id, "id");
    lemma_discriminator_roundtrip(u.discriminator, "discriminator");
}

/// What is written for a user holds no number but integers.
pub proof fn lemma_user_plain(u: UserModel)
    ensures
        plain(u.json_of()),
{
    broadcast use lemma_plain_push;

    reveal_with_fuel(plain, 3);
}

} // verus!
