//! A point in time, kept as the RFC 3339 text that names it together with
//! the instant that the text stands for.

use crate::error::DecodeError;
use crate::json::JsonModel;
use crate::json::JsonValue;
use time::format_description::well_known::Rfc3339;
use time::OffsetDateTime;
use vstd::prelude::*;

verus! {

/// The instant that `time` reads from an RFC 3339 text, in nanoseconds
/// since the Unix epoch: `None` where it rejects the text.
pub uninterp spec fn rfc3339_instant(text: Seq<char>) -> Option<int>;

/// Calls `OffsetDateTime::parse` with the `Rfc3339` description and takes
/// `unix_timestamp_nanos` of what it reads. The contract claims only that
/// the outcome is a function of the text.
#[verifier::external_body]
fn instant_of(text: &str) -> (nanos: Option<i128>)
    ensures
        match nanos {
            Some(n) => rfc3339_instant(text@) == Some(n as int),
            None => rfc3339_instant(text@) is None,
        },
{
    OffsetDateTime::parse(text, &Rfc3339).ok().map(|t| t.unix_timestamp_nanos())
}

/// A point in time.
#[derive(Debug, Clone)]
pub struct Timestamp {
    text: String,
    unix_nanos: i128,
}

/// The content of a [`Timestamp`].
pub struct TimestampModel {
    pub text: Seq<char>,
    pub nanos: int,
}

impl View for Timestamp {
    type V = TimestampModel;

    closed spec fn view(&self) -> TimestampModel {
        TimestampModel { text: self.text@, nanos: self.unix_nanos as int }
    }
}

impl TimestampModel {
    /// The text is RFC 3339 and stands for the instant.
    pub open spec fn wf(self) -> bool {
        rfc3339_instant(self.text) == Some(self.nanos)
    }

    /// The JSON string that stands for a point in time: its text.
    pub open spec fn json_of(self) -> JsonModel {
        JsonModel::Str(self.text)
    }

    /// The point in time that a JSON value stands for: a string that is
    /// RFC 3339. `key` is the member that it came from.
    pub open spec fn parse(value: JsonModel, key: &'static str) -> Result<
        TimestampModel,
        DecodeError,
    > {
        match value {
            JsonModel::Str(s) => match rfc3339_instant(s) {
                Some(n) => Ok(TimestampModel { text: s, nanos: n }),
                None => Err(DecodeError::InvalidField(key)),
            },
            _ => Err(DecodeError::InvalidField(key)),
        }
    }
}

impl Timestamp {
    /// The point in time that an RFC 3339 text names, if it names one.
    pub fn parse(text: &str) -> (read: Option<Timestamp>)
        ensures
            match read {
                Some(t) => t@.text == text@ && t@.wf(),
                None => rfc3339_instant(text@) is None,
            },
    {
        match instant_of(text) {
            Some(unix_nanos) => Some(Timestamp { text: text.to_owned(), unix_nanos }),
            None => None,
        }
    }

    /// The text that names this point in time.
    pub fn as_str(&self) -> (text: &str)
        ensures
            text@ == self@.text,
    {
        self.text.as_str()
    }

    /// Nanoseconds since the Unix epoch.
    pub fn unix_nanos(&self) -> (nanos: i128)
        ensures
            nanos == self@.nanos,
    {
        self.unix_nanos
    }

    /// Writes the point in time as JSON.
    pub fn to_json(&self) -> (doc: JsonValue)
        ensures
            doc@ == self@.json_of(),
    {
        JsonValue::text(self.text.as_str())
    }

    /// Reads a point in time from the JSON value of the member `key`.
    pub fn from_json(value: &JsonValue, key: &'static str) -> (read: Result<Timestamp, DecodeError>)
        ensures
            match read {
                Ok(t) => TimestampModel::parse(value@, key) == Ok::<TimestampModel, DecodeError>(t@)
                    && t@.wf(),
                Err(e) => TimestampModel::parse(value@, key) == Err::<TimestampModel, DecodeError>(
                    e,
                ),
            },
    {
        let text = match value.as_text() {
            Some(t) => t,
            None => {
                return Err(DecodeError::InvalidField(key));
            },
        };
        match Timestamp::parse(text.as_str()) {
            Some(t) => Ok(t),
            None => Err(DecodeError::InvalidField(key)),
        }
    }
}

/// Reading back a written point in time gives the point in time.
pub proof fn lemma_timestamp_roundtrip(t: TimestampModel, key: &'static str)
    requires
        t.wf(),
    ensures
        TimestampModel::parse(t.json_of(), key) == Ok::<TimestampModel, DecodeError>(t),
{
}

} // verus!
