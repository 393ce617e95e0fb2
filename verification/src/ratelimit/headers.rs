//! The quota that a response reports in its headers.

use crate::error::RateLimitError;
use crate::text::all_digits;
use crate::text::ascii_bytes;
use crate::text::decimal_u64;
use crate::text::natural;
use crate::text::parse_natural;
use crate::text::is_digit;
use crate::text::parse_u64;
use vstd::prelude::*;
use vstd::string::StrSliceExecFns;

verus! {

/// One header of a response.
#[derive(Debug, Clone)]
pub enum Header {
    /// The response does not have the header.
    Absent,
    /// The header is there and its value is not text.
    Unreadable,
    /// The header's value.
    Text(String),
}

/// The content of a [`Header`].
pub enum HeaderModel {
    Absent,
    Unreadable,
    Text(Seq<char>),
}

impl View for Header {
    type V = HeaderModel;

    open spec fn view(&self) -> HeaderModel {
        match self {
            Header::Absent => HeaderModel::Absent,
            Header::Unreadable => HeaderModel::Unreadable,
            Header::Text(s) => HeaderModel::Text(s@),
        }
    }
}

/// The headers that report a quota: `X-RateLimit-Bucket`,
/// `X-RateLimit-Limit`, `X-RateLimit-Remaining` and `X-RateLimit-Reset`.
#[derive(Debug, Clone)]
pub struct RateLimitHeaders {
    pub bucket: Header,
    pub limit: Header,
    pub remaining: Header,
    pub reset: Header,
}

/// The content of a [`RateLimitHeaders`].
pub struct HeadersModel {
    pub bucket: HeaderModel,
    pub limit: HeaderModel,
    pub remaining: HeaderModel,
    pub reset: HeaderModel,
}

impl View for RateLimitHeaders {
    type V = HeadersModel;

    open spec fn view(&self) -> HeadersModel {
        HeadersModel {
            bucket: self.bucket@,
            limit: self.limit@,
            remaining: self.remaining@,
            reset: self.reset@,
        }
    }
}

/// The quota of one bucket.
#[derive(Debug, Clone, Copy, PartialEq, Eq, Structural)]
pub struct RateLimitState {
    /// How many requests one period holds. Read from a header, this is at
    /// most [`MAX_COUNT`].
    pub limit: u32,
    /// How many requests are left before the reset. Never negative; read
    /// from a header, this is at most [`MAX_COUNT`].
    pub remaining: u32,
    /// When the quota is full again, in seconds since the Unix epoch.
    pub reset: u64,
}

/// The text of a header, which must be there and be text.
pub open spec fn header_text(header: HeaderModel) -> Result<Seq<char>, RateLimitError> {
    match header {
        HeaderModel::Absent => Err(RateLimitError::NotEnoughHeaders),
        HeaderModel::Unreadable => Err(RateLimitError::InvalidHeaders),
        HeaderModel::Text(s) => Ok(s),
    }
}

/// The most that a count can be: the most that fits 32 bits with a sign.
pub const MAX_COUNT: u32 = 2147483647;

/// The count that a header holds: a number in base ten that fits 32 bits
/// with a sign and is not negative.
pub open spec fn count_header(header: HeaderModel) -> Result<u32, RateLimitError> {
    match header_text(header) {
        Ok(s) => match natural(s) {
            Some(n) => if n <= MAX_COUNT {
                Ok(n as u32)
            } else {
                Err(RateLimitError::InvalidHeaders)
            },
            None => Err(RateLimitError::InvalidHeaders),
        },
        Err(e) => Err(e),
    }
}

/// Where the first dot of `s` stands, or the length of `s` if it has none.
pub open spec fn dot_at(s: Seq<char>) -> int
    decreases s.len(),
{
    if s.len() == 0 || s[0] == '.' {
        0
    } else {
        1 + dot_at(s.drop_first())
    }
}

/// The whole seconds of a time written as seconds since the Unix epoch in
/// plain decimal notation, such as `1470173023.123`: digits, with a dot and
/// more digits or without. The digits before the dot may be left out, or
/// those after it, not both; a `+` may stand in front.
///
/// This is how the service writes the time. The seconds are read exactly,
/// with whole numbers: the text is not taken for a floating-point number,
/// so that the forms particular to those (an exponent as in `1e9`,
/// `inf`, `nan`) are refused, and so is a time before the epoch.
pub open spec fn whole_seconds(s: Seq<char>) -> Option<u64> {
    let dot = dot_at(s);
    let fraction = if dot < s.len() {
        s.skip(dot + 1)
    } else {
        Seq::empty()
    };
    if !all_digits(fraction) {
        None
    } else if dot == 0 && fraction.len() > 0 {
        Some(0)
    } else {
        decimal_u64(s.take(dot))
    }
}

/// The time that a header holds, in whole seconds.
pub open spec fn time_header(header: HeaderModel) -> Result<u64, RateLimitError> {
    match header_text(header) {
        Ok(s) => match whole_seconds(s) {
            Some(n) => Ok(n),
            None => Err(RateLimitError::InvalidHeaders),
        },
        Err(e) => Err(e),
    }
}

impl HeadersModel {
    /// The quota that the headers report: the limit, what remains of it,
    /// and the time of the reset.
    pub open spec fn state(self) -> Result<RateLimitState, RateLimitError> {
        let limit = count_header(self.limit);
        let remaining = count_header(self.remaining);
        let reset = time_header(self.reset);
        if limit is Err {
            Err(limit->Err_0)
        } else if remaining is Err {
            Err(remaining->Err_0)
        } else if reset is Err {
            Err(reset->Err_0)
        } else {
            Ok(RateLimitState { limit: limit->Ok_0, remaining: remaining->Ok_0, reset: reset->Ok_0 })
        }
    }
}

impl Header {
    /// The header's text, or the error that says why there is none.
    pub fn text(&self) -> (text: Result<&String, RateLimitError>)
        ensures
            match text {
                Ok(s) => header_text(self@) == Ok::<Seq<char>, RateLimitError>(s@),
                Err(e) => header_text(self@) == Err::<Seq<char>, RateLimitError>(e),
            },
    {
        match self {
            Header::Absent => Err(RateLimitError::NotEnoughHeaders),
            Header::Unreadable => Err(RateLimitError::InvalidHeaders),
            Header::Text(s) => Ok(s),
        }
    }

    /// The count that the header holds.
    pub fn count(&self) -> (count: Result<u32, RateLimitError>)
        ensures
            count == count_header(self@),
    {
        let text = self.text()?;
        match parse_natural(text.as_str()) {
            Some(n) => if n <= MAX_COUNT as u64 {
                Ok(n as u32)
            } else {
                Err(RateLimitError::InvalidHeaders)
            },
            None => Err(RateLimitError::InvalidHeaders),
        }
    }

    /// The time that the header holds, in whole seconds.
    pub fn time(&self) -> (time: Result<u64, RateLimitError>)
        ensures
            time == time_header(self@),
    {
        let text = self.text()?;
        match read_whole_seconds(text.as_str()) {
            Some(n) => Ok(n),
            None => Err(RateLimitError::InvalidHeaders),
        }
    }
}

/// A dot that stands in `s` stands no later than the first dot.
proof fn lemma_dot_at(s: Seq<char>, k: int)
    requires
        0 <= k <= s.len(),
        forall|i: int| 0 <= i < k ==> s[i] != '.',
        k < s.len() ==> s[k] == '.',
    ensures
        dot_at(s) == k,
    decreases k,
{
    if k > 0 {
        lemma_dot_at(s.drop_first(), k - 1);
    }
}

/// Reads the whole seconds of a time written with an optional fraction.
#[verifier::loop_isolation(false)]
pub fn read_whole_seconds(s: &str) -> (seconds: Option<u64>)
    ensures
        seconds == whole_seconds(s@),
{
    let bytes = match ascii_bytes(s) {
        Some(b) => b,
        None => {
            proof {
                lemma_not_ascii(s@);
            }
            return None;
        },
    };
    let mut dot: usize = 0;
    while dot < bytes.len() && bytes[dot] != 46
        invariant
            dot <= bytes.len(),
            forall|i: int| 0 <= i < dot ==> s@[i] != '.',
        decreases bytes.len() - dot,
    {
        dot += 1;
    }
    proof {
        lemma_dot_at(s@, dot as int);
    }
    let mut i: usize = if dot < bytes.len() {
        dot + 1
    } else {
        dot
    };
    let ghost start = i;
    let ghost fraction = s@.skip(start as int);
    assert(fraction =~= if dot < s@.len() {
        s@.skip(dot + 1)
    } else {
        Seq::empty()
    });
    while i < bytes.len()
        invariant
            start <= i <= bytes.len(),
            forall|k: int| start <= k < i ==> is_digit(s@[k]),
        decreases bytes.len() - i,
    {
        if bytes[i] < 48 || bytes[i] > 57 {
            assert(!is_digit(fraction[i - start]));
            return None;
        }
        i += 1;
    }
    if dot == 0 && bytes.len() > 1 {
        return Some(0);
    }
    parse_u64(s.substring_ascii(0, dot))
}

/// A time that holds a character outside ASCII is no time.
proof fn lemma_not_ascii(s: Seq<char>)
    requires
        !vstd::utf8::is_ascii_chars(s),
    ensures
        whole_seconds(s) is None,
{
    let i = choose|i: int| 0 <= i < s.len() && !('\0' <= #[trigger] s[i] <= '\u{7f}');
    let dot = dot_at(s);
    lemma_dot_bounds(s);
    if 0 < i < dot {
        assert(s.take(dot).drop_first()[i - 1] == s[i]);
    } else if i > dot {
        assert(s.skip(dot + 1)[i - dot - 1] == s[i]);
    }
}

/// The first dot stands within the text, and a dot stands there if it
/// stands before the end.
proof fn lemma_dot_bounds(s: Seq<char>)
    ensures
        0 <= dot_at(s) <= s.len(),
        dot_at(s) < s.len() ==> s[dot_at(s)] == '.',
    decreases s.len(),
{
    if s.len() == 0 || s[0] == '.' {
    } else {
        lemma_dot_bounds(s.drop_first());
    }
}

impl RateLimitState {
    /// Reads the quota that the headers of a response report.
    pub fn extract_state(headers: &RateLimitHeaders) -> (state: Result<
        RateLimitState,
        RateLimitError,
    >)
        ensures
            state == headers@.state(),
    {
        let limit = headers.limit.count()?;
        let remaining = headers.remaining.count()?;
        let reset = headers.reset.time()?;
        Ok(RateLimitState { limit, remaining, reset })
    }
}

} // verus!
