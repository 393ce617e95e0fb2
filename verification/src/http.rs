//! The request channel, as far as it is plain computing: where a request
//! goes, how the client names itself, and what a response amounts to.

use crate::error::DecodeError;
use crate::error::HttpError;
use crate::gateway::bot::GatewayBot;
use crate::gateway::bot::GatewayBotModel;
use crate::json::json_parse;
use crate::json::read_document;
use crate::json::JsonModel;
use crate::json::JsonValue;
use crate::ratelimit::bucket::check_spec;
use crate::ratelimit::bucket::RateLimiter;
use crate::ratelimit::headers::HeadersModel;
use crate::ratelimit::headers::RateLimitHeaders;
use crate::text::ascii_bytes;
use vstd::prelude::*;
use vstd::string::StringExecFns;

verus! {

/// Where every request goes.
pub const API_BASE: &'static str = "https://discord.com/api/v10";

/// The path of the request that asks about the gateway.
pub const GATEWAY_BOT_PATH: &'static str = "/gateway/bot";

/// The address of the request with the given path.
pub fn url(path: &str) -> (address: String)
    ensures
        address@ == API_BASE@ + path@,
{
    API_BASE.to_owned().concat(path)
}

/// Whether a character may stand in the value of a header: a tab, or a
/// printable ASCII character.
pub open spec fn header_char(c: char) -> bool {
    c == '\t' || ' ' <= c <= '~'
}

/// Whether every character of `s` may stand in the value of a header.
pub open spec fn header_safe(s: Seq<char>) -> bool {
    forall|i: int| 0 <= i < s.len() ==> header_char(#[trigger] s[i])
}

/// The value of the `Authorization` header for a bot with the given token:
/// `Bot`, a space, and the token. There is none where the token holds what
/// cannot stand in a header.
pub fn authorization(token: &str) -> (value: Option<String>)
    ensures
        match value {
            Some(v) => header_safe(token@) && v@ == "Bot "@ + token@,
            None => !header_safe(token@),
        },
{
    let bytes = match ascii_bytes(token) {
        Some(b) => b,
        None => {
            proof {
                let s = token@;
                let i = choose|i: int| 0 <= i < s.len() && !('\0' <= #[trigger] s[i] <= '\u{7f}');
                assert(!header_char(s[i]));
            }
            return None;
        },
    };
    let mut i: usize = 0;
    while i < bytes.len()
        invariant
            i <= bytes.len(),
            bytes@.len() == token@.len(),
            forall|k: int| 0 <= k < token@.len() ==> bytes@[k] as int == token@[k] as int,
            forall|k: int| 0 <= k < i ==> header_char(token@[k]),
        decreases bytes.len() - i,
    {
        let b = bytes[i];
        if !(b == 9 || (32 <= b && b <= 126)) {
            assert(!header_char(token@[i as int]));
            return None;
        }
        i += 1;
    }
    Some("Bot ".to_owned().concat(token))
}

/// Whether a status reports that the request failed: 400 to 599.
pub open spec fn is_failure(status: u16) -> bool {
    400 <= status <= 599
}

/// What a response amounts to, and the limiter's entries after it: the
/// error of a failed status, else what the limiter says of the request,
/// else the JSON document of the body.
pub open spec fn response_spec(
    held: Map<Seq<char>, crate::ratelimit::headers::RateLimitState>,
    status: u16,
    headers: HeadersModel,
    body: Seq<char>,
    now: u64,
) -> (Map<Seq<char>, crate::ratelimit::headers::RateLimitState>, Result<JsonModel, HttpError>) {
    if is_failure(status) {
        (held, Err(HttpError::Status(status)))
    } else {
        let (next, answer) = check_spec(held, headers, now);
        match answer {
            Err(e) => (next, Err(HttpError::RatelimitError(e))),
            Ok(_) => match json_parse(body) {
                Some(doc) => (next, Ok(doc)),
                None => (next, Err(HttpError::JsonError(DecodeError::Syntax))),
            },
        }
    }
}

/// Takes a response in: its status, the headers that report the quota, and
/// its body, seen at the time `now` in seconds since the Unix epoch.
pub fn read_response(
    limiter: &mut RateLimiter,
    status: u16,
    headers: &RateLimitHeaders,
    body: &str,
    now: u64,
) -> (outcome: Result<JsonValue, HttpError>)
    requires
        old(limiter).wf(),
    ensures
        final(limiter).wf(),
        final(limiter)@ == response_spec(old(limiter)@, status, headers@, body@, now).0,
        match outcome {
            Ok(doc) => response_spec(old(limiter)@, status, headers@, body@, now).1 == Ok::<
                JsonModel,
                HttpError,
            >(doc@),
            Err(e) => response_spec(old(limiter)@, status, headers@, body@, now).1 == Err::<
                JsonModel,
                HttpError,
            >(e),
        },
{
    if 400 <= status && status <= 599 {
        return Err(HttpError::Status(status));
    }
    match limiter.check(headers, now) {
        Ok(_) => {},
        Err(e) => {
            return Err(HttpError::RatelimitError(e));
        },
    }
    match read_document(body) {
        Some(doc) => Ok(doc),
        None => Err(HttpError::JsonError(DecodeError::Syntax)),
    }
}

/// Reads the answer to the request about the gateway from a response.
pub fn get_gateway_bot(
    limiter: &mut RateLimiter,
    status: u16,
    headers: &RateLimitHeaders,
    body: &str,
    now: u64,
) -> (outcome: Result<GatewayBot, HttpError>)
    requires
        old(limiter).wf(),
    ensures
        final(limiter).wf(),
        final(limiter)@ == response_spec(old(limiter)@, status, headers@, body@, now).0,
        match response_spec(old(limiter)@, status, headers@, body@, now).1 {
            Ok(doc) => match outcome {
                Ok(bot) => GatewayBotModel::parse(doc) == Ok::<GatewayBotModel, DecodeError>(bot@),
                Err(e) => e matches HttpError::JsonError(d) && GatewayBotModel::parse(doc) == Err::<
                    GatewayBotModel,
                    DecodeError,
                >(d),
            },
            Err(e) => outcome matches Err(x) && x == e,
        },
{
    let doc = read_response(limiter, status, headers, body, now)?;
    match GatewayBot::from_json(&doc) {
        Ok(bot) => Ok(bot),
        Err(e) => Err(HttpError::JsonError(e)),
    }
}

} // verus!
