//! What can go wrong, and how it is put in words.

use vstd::prelude::*;
use vstd::string::StringExecFns;

verus! {

/// Why a message could not be read. Each of these spoils one message only.
#[derive(Clone, Copy, Debug)]
pub enum DecodeError {
    /// The text is not a JSON document.
    Syntax,
    /// A member that must be there is not.
    MissingField(&'static str),
    /// A member is there and holds the wrong kind of value, or a number out
    /// of range.
    InvalidField(&'static str),
    /// The opcode is a number that the protocol does not define.
    UnknownOpcode(i32),
}

/// `name` between backticks, after `what` and a space.
pub open spec fn named(what: Seq<char>, name: Seq<char>) -> Seq<char> {
    what + " `"@ + name + "`"@
}

/// Writes `name` between backticks, after `what` and a space.
fn describe(what: &str, name: &str) -> (text: String)
    ensures
        text@ == named(what@, name@),
{
    what.to_owned().concat(" `").concat(name).concat("`")
}

impl DecodeError {
    /// The sentence that says what went wrong.
    pub open spec fn sentence(self) -> Seq<char> {
        match self {
            DecodeError::Syntax => "malformed JSON text"@,
            DecodeError::MissingField(name) => named("missing field"@, name@),
            DecodeError::InvalidField(name) => named("invalid value in field"@, name@),
            DecodeError::UnknownOpcode(_) => "not a valid opcode"@,
        }
    }

    /// A sentence that says what went wrong.
    pub fn message(&self) -> (text: String)
        ensures
            text@ == self.sentence(),
    {
        match self {
            DecodeError::Syntax => "malformed JSON text".to_owned(),
            DecodeError::MissingField(name) => describe("missing field", name),
            DecodeError::InvalidField(name) => describe("invalid value in field", name),
            DecodeError::UnknownOpcode(_) => "not a valid opcode".to_owned(),
        }
    }
}

/// Why a request counts as refused by the request limiter.
#[derive(Clone, Copy, Debug, PartialEq, Eq, Structural)]
pub enum RateLimitError {
    /// The bucket's quota is used up. The time is when it is full again, in
    /// seconds since the Unix epoch.
    Hit(u64),
    /// A header that reports the quota is missing.
    NotEnoughHeaders,
    /// A header that reports the quota does not hold what it should.
    InvalidHeaders,
}

impl RateLimitError {
    /// The sentence that says what went wrong.
    pub open spec fn sentence(self) -> Seq<char> {
        match self {
            RateLimitError::Hit(_) => "Ratelimit was hit"@,
            RateLimitError::NotEnoughHeaders =>
                "Not all headers were supplied to construct a valid ratelimit state"@,
            RateLimitError::InvalidHeaders =>
                "Provided headers cannot be used to construct valid ratelimit state"@,
        }
    }

    /// A sentence that says what went wrong.
    pub fn message(&self) -> (text: String)
        ensures
            text@ == self.sentence(),
    {
        match self {
            RateLimitError::Hit(_) => "Ratelimit was hit".to_owned(),
            RateLimitError::NotEnoughHeaders =>
                "Not all headers were supplied to construct a valid ratelimit state".to_owned(),
            RateLimitError::InvalidHeaders =>
                "Provided headers cannot be used to construct valid ratelimit state".to_owned(),
        }
    }
}

/// Why the session could not do what was asked, or what ended it.
#[derive(Clone, Copy, Debug)]
pub enum GatewayError {
    /// The outbound quota is used up; nothing was written. After
    /// `retry_after` milliseconds a send will be let through again.
    Ratelimit { retry_after: u64 },
    /// A message from the server could not be read.
    Json(DecodeError),
    /// An envelope holds what cannot be written as text.
    Encode,
    /// The session is not connected.
    NotConnected,
    /// The server sent what the protocol does not allow at that point.
    ProtocolViolation,
    /// The session has ended and will not be taken up again.
    Unrecoverable,
}

impl GatewayError {
    /// The sentence that says what went wrong.
    pub open spec fn sentence(self) -> Seq<char> {
        match self {
            GatewayError::Ratelimit { .. } => "Websocket ratelimit hit"@,
            GatewayError::Json(e) => e.sentence(),
            GatewayError::Encode => "Envelope cannot be written as JSON text"@,
            GatewayError::NotConnected => "Session is not connected"@,
            GatewayError::ProtocolViolation => "Server broke the gateway protocol"@,
            GatewayError::Unrecoverable => "Session ended for good"@,
        }
    }

    /// A sentence that says what went wrong.
    pub fn message(&self) -> (text: String)
        ensures
            text@ == self.sentence(),
    {
        match self {
            GatewayError::Ratelimit { .. } => "Websocket ratelimit hit".to_owned(),
            GatewayError::Json(e) => e.message(),
            GatewayError::Encode => "Envelope cannot be written as JSON text".to_owned(),
            GatewayError::NotConnected => "Session is not connected".to_owned(),
            GatewayError::ProtocolViolation => "Server broke the gateway protocol".to_owned(),
            GatewayError::Unrecoverable => "Session ended for good".to_owned(),
        }
    }
}

/// Why a request gave no answer.
#[derive(Clone, Copy, Debug)]
pub enum HttpError {
    /// The response reports a failure with this status.
    Status(u16),
    /// The body of the response could not be read.
    JsonError(DecodeError),
    /// The request was not within the quota, or the response does not
    /// report one.
    RatelimitError(RateLimitError),
}

impl HttpError {
    /// The sentence that says what went wrong.
    pub open spec fn sentence(self) -> Seq<char> {
        match self {
            HttpError::Status(_) => "Request failed"@,
            HttpError::JsonError(e) => e.sentence(),
            HttpError::RatelimitError(e) => e.sentence(),
        }
    }

    /// A sentence that says what went wrong.
    pub fn message(&self) -> (text: String)
        ensures
            text@ == self.sentence(),
    {
        match self {
            HttpError::Status(_) => "Request failed".to_owned(),
            HttpError::JsonError(e) => e.message(),
            HttpError::RatelimitError(e) => e.message(),
        }
    }
}

} // verus!
