//! Identifiers: a 64-bit number that is never zero, tagged with the kind
//! of thing it names.

pub mod marker;

use crate::error::DecodeError;
use crate::id::marker::Application;
use crate::id::marker::Entity;
use crate::id::marker::Guild;
use crate::id::marker::User;
use crate::json::JsonModel;
use crate::json::JsonValue;
use crate::text::decimal_text;
use crate::text::decimal_u64;
use crate::text::format_u64;
use crate::text::lemma_decimal_text;
use crate::text::parse_u64;
use core::marker::PhantomData;
use vstd::prelude::*;

verus! {

pub type ApplicationId = Snowflake<Application>;

pub type GuildId = Snowflake<Guild>;

pub type UserId = Snowflake<User>;

/// The identifier of a `T`.
#[derive(Debug)]
pub struct Snowflake<T: Entity> {
    inner: u64,
    entity: PhantomData<T>,
}

impl<T: Entity> Clone for Snowflake<T> {
    fn clone(&self) -> (copy: Self)
        ensures
            copy == *self,
    {
        Snowflake { inner: self.inner, entity: PhantomData }
    }
}

impl<T: Entity> Copy for Snowflake<T> {

}

impl<T: Entity> PartialEq for Snowflake<T> {
    fn eq(&self, other: &Self) -> (same: bool) {
        self.inner == other.inner
    }
}

impl<T: Entity> vstd::std_specs::cmp::PartialEqSpecImpl for Snowflake<T> {
    open spec fn obeys_eq_spec() -> bool {
        true
    }

    /// Two identifiers of one kind are equal where their numbers are.
    open spec fn eq_spec(&self, other: &Self) -> bool {
        self@ == other@
    }
}

impl<T: Entity> Eq for Snowflake<T> {

}

impl<T: Entity> View for Snowflake<T> {
    type V = u64;

    closed spec fn view(&self) -> u64 {
        self.inner
    }
}

/// The string that stands for an identifier in JSON: its number in base ten.
pub open spec fn id_json(id: u64) -> JsonModel {
    JsonModel::Str(decimal_text(id as nat))
}

/// The identifier that a JSON value stands for: a string that writes a
/// 64-bit number other than zero. `key` is the member that it came from.
pub open spec fn id_in(value: JsonModel, key: &'static str) -> Result<u64, DecodeError> {
    match value {
        JsonModel::Str(s) => match decimal_u64(s) {
            Some(n) => if n != 0 {
                Ok(n)
            } else {
                Err(DecodeError::InvalidField(key))
            },
            None => Err(DecodeError::InvalidField(key)),
        },
        _ => Err(DecodeError::InvalidField(key)),
    }
}

impl<T: Entity> Snowflake<T> {
    /// An identifier is never zero.
    pub open spec fn wf(self) -> bool {
        self@ != 0
    }

    /// The identifier with the number `n`, which is not zero.
    pub fn new_nonzero(n: u64) -> (id: Self)
        requires
            n != 0,
        ensures
            id@ == n,
            id.wf(),
    {
        Snowflake { inner: n, entity: PhantomData }
    }

    /// The identifier with the number `n`, unless `n` is zero.
    pub fn new(n: u64) -> (id: Option<Self>)
        ensures
            match id {
                Some(s) => n != 0 && s@ == n && s.wf(),
                None => n == 0,
            },
    {
        if n != 0 {
            Some(Snowflake { inner: n, entity: PhantomData })
        } else {
            None
        }
    }

    /// The identifier's number.
    pub fn get_nonzero(self) -> (n: u64)
        ensures
            n == self@,
    {
        self.inner
    }

    /// The identifier's number.
    pub fn get(self) -> (n: u64)
        ensures
            n == self@,
    {
        self.inner
    }

    /// The same number as the identifier of a `U`.
    pub fn cast_into<U: Entity>(self) -> (id: Snowflake<U>)
        ensures
            id@ == self@,
    {
        Snowflake::cast_from(self)
    }

    /// The identifier of a `T` with the number of `value`.
    pub fn cast_from<U: Entity>(value: Snowflake<U>) -> (id: Self)
        ensures
            id@ == value@,
    {
        Snowflake { inner: value.inner, entity: PhantomData }
    }

    /// Writes the identifier as JSON.
    pub fn to_json(&self) -> (doc: JsonValue)
        ensures
            doc@ == id_json(self@),
    {
        JsonValue::Str(format_u64(self.inner))
    }

    /// Reads an identifier from the JSON value of the member `key`.
    pub fn from_json(value: &JsonValue, key: &'static str) -> (read: Result<Self, DecodeError>)
        ensures
            match read {
                Ok(id) => id_in(value@, key) == Ok::<u64, DecodeError>(id@) && id.wf(),
                Err(e) => id_in(value@, key) == Err::<u64, DecodeError>(e),
            },
    {
        let text = match value.as_text() {
            Some(t) => t,
            None => {
                return Err(DecodeError::InvalidField(key));
            },
        };
        match parse_u64(text.as_str()) {
            Some(n) => if n != 0 {
                Ok(Snowflake { inner: n, entity: PhantomData })
            } else {
                Err(DecodeError::InvalidField(key))
            },
            None => Err(DecodeError::InvalidField(key)),
        }
    }
}

/// Reading back a written identifier gives the identifier.
pub proof fn lemma_id_roundtrip(id: u64, key: &'static str)
    requires
        id != 0,
    ensures
        id_in(id_json(id), key) == Ok::<u64, DecodeError>(id),
{
    lemma_decimal_text(id as nat);
}

} // verus!
