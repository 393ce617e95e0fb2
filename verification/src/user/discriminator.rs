//! The four digits that tell users of one name apart.

use crate::error::DecodeError;
use crate::json::JsonModel;
use crate::json::JsonValue;
use crate::text::all_digits;
use crate::text::ascii_bytes;
use crate::text::decimal_text;
use crate::text::digit_char;
use crate::text::digits_value;
use crate::text::format_u64;
use crate::text::is_digit;
use crate::text::str_eq;
use crate::text::string_of;
use vstd::prelude::*;

verus! {

/// A discriminator: a number from 1 to 9999, written with four digits.
#[derive(Debug, Clone, Copy)]
pub struct Discriminator(pub u16);

/// The four digits of `n`, with leading zeros.
pub open spec fn padded4(n: int) -> Seq<char> {
    Seq::empty().push(digit_char(n / 1000 % 10)).push(digit_char(n / 100 % 10)).push(
        digit_char(n / 10 % 10),
    ).push(digit_char(n % 10))
}

/// How a discriminator is written: with four digits up to 9999, and with
/// all its digits above.
pub open spec fn discriminator_text(n: u16) -> Seq<char> {
    if n <= 9999 {
        padded4(n as int)
    } else {
        decimal_text(n as nat)
    }
}

/// The JSON string for a discriminator; the string `0` stands for none.
pub open spec fn discriminator_json(d: Option<u16>) -> JsonModel {
    match d {
        Some(n) => JsonModel::Str(discriminator_text(n)),
        None => JsonModel::Str("0"@),
    }
}

/// The discriminator that a JSON value stands for: the string `0` for none,
/// or four digits that are not all zero. `key` is the member it came from.
pub open spec fn discriminator_in(value: JsonModel, key: &'static str) -> Result<
    Option<u16>,
    DecodeError,
> {
    match value {
        JsonModel::Str(s) => if s == "0"@ {
            Ok(None)
        } else if s.len() == 4 && all_digits(s) && digits_value(s) != 0 {
            Ok(Some(digits_value(s) as u16))
        } else {
            Err(DecodeError::InvalidField(key))
        },
        _ => Err(DecodeError::InvalidField(key)),
    }
}

/// Four digits write the number that their places add up to.
pub proof fn lemma_four_digits(s: Seq<char>)
    requires
        s.len() == 4,
    ensures
        digits_value(s) == (s[0] as int - 48) * 1000 + (s[1] as int - 48) * 100 + (s[2] as int
            - 48) * 10 + (s[3] as int - 48),
{
    reveal_with_fuel(digits_value, 5);
    let s3 = s.drop_last();
    let s2 = s3.drop_last();
    let s1 = s2.drop_last();
    assert(s1.drop_last().len() == 0);
    assert(s3.last() == s[2] && s2.last() == s[1] && s1.last() == s[0]);
}

impl Discriminator {
    /// The number is between 1 and 9999.
    pub open spec fn wf(self) -> bool {
        1 <= self.0 <= 9999
    }

    /// Writes the discriminator.
    pub fn to_text(&self) -> (text: String)
        ensures
            text@ == discriminator_text(self.0),
    {
        let n = self.0;
        if n > 9999 {
            return format_u64(n as u64);
        }
        let mut chars: Vec<char> = Vec::new();
        chars.push(((n / 1000 % 10) as u8 + 48) as char);
        chars.push(((n / 100 % 10) as u8 + 48) as char);
        chars.push(((n / 10 % 10) as u8 + 48) as char);
        chars.push(((n % 10) as u8 + 48) as char);
        assert(chars@ =~= padded4(n as int));
        string_of(&chars)
    }
}

/// Writes a discriminator, or `0` for none, as a JSON string.
pub fn write_discriminator(d: &Option<Discriminator>) -> (doc: JsonValue)
    ensures
        doc@ == discriminator_json(
            match *d {
                Some(x) => Some(x.0),
                None => None,
            },
        ),
{
    match d {
        Some(x) => JsonValue::Str(x.to_text()),
        None => JsonValue::text("0"),
    }
}

/// Reads a discriminator from the JSON value of the member `key`.
#[verifier::loop_isolation(false)]
pub fn read_discriminator(value: &JsonValue, key: &'static str) -> (read: Result<
    Option<Discriminator>,
    DecodeError,
>)
    ensures
        match read {
            Ok(Some(d)) => discriminator_in(value@, key) == Ok::<Option<u16>, DecodeError>(
                Some(d.0),
            ) && d.wf(),
            Ok(None) => discriminator_in(value@, key) == Ok::<Option<u16>, DecodeError>(None),
            Err(e) => discriminator_in(value@, key) == Err::<Option<u16>, DecodeError>(e),
        },
{
    let text = match value.as_text() {
        Some(t) => t,
        None => {
            return Err(DecodeError::InvalidField(key));
        },
    };
    if str_eq(text.as_str(), "0") {
        return Ok(None);
    }
    let bytes = match ascii_bytes(text.as_str()) {
        Some(b) => b,
        None => {
            proof {
                let s = text@;
                let i = choose|i: int| 0 <= i < s.len() && !('\0' <= #[trigger] s[i] <= '\u{7f}');
                assert(!is_digit(s[i]));
            }
            return Err(DecodeError::InvalidField(key));
        },
    };
    if bytes.len() != 4 {
        return Err(DecodeError::InvalidField(key));
    }
    let mut acc: u16 = 0;
    let mut i: usize = 0;
    while i < 4
        invariant
            i <= 4,
            bytes@.len() == 4,
            text@.len() == 4,
            forall|k: int| 0 <= k < 4 ==> bytes@[k] as int == text@[k] as int,
            forall|k: int| 0 <= k < i ==> is_digit(text@[k]),
            i == 0 ==> acc == 0,
            i == 1 ==> acc == bytes@[0] - 48,
            i == 2 ==> acc == (bytes@[0] - 48) * 10 + (bytes@[1] - 48),
            i == 3 ==> acc == (bytes@[0] - 48) * 100 + (bytes@[1] - 48) * 10 + (bytes@[2] - 48),
            i == 4 ==> acc == (bytes@[0] - 48) * 1000 + (bytes@[1] - 48) * 100 + (bytes@[2]
                - 48) * 10 + (bytes@[3] - 48),
        decreases 4 - i,
    {
        let b = bytes[i];
        if b < 48 || b > 57 {
            assert(!is_digit(text@[i as int]));
            return Err(DecodeError::InvalidField(key));
        }
        acc = acc * 10 + (b - 48) as u16;
        i += 1;
    }
    proof {
        lemma_four_digits(text@);
    }
    if acc == 0 {
        return Err(DecodeError::InvalidField(key));
    }
    Ok(Some(Discriminator(acc)))
}

/// The four places of a number below ten thousand add up to the number.
proof fn lemma_places(n: int)
    requires
        0 <= n <= 9999,
    ensures
        (n / 1000 % 10) * 1000 + (n / 100 % 10) * 100 + (n / 10 % 10) * 10 + n % 10 == n,
{
    let c = n / 10;
    let b = c / 10;
    let a = b / 10;
    assert(n / 100 == b);
    assert(n / 1000 == a);
    assert(a < 10);
}

/// The four digits of a number below ten thousand write the number.
proof fn lemma_padded4(n: int)
    requires
        0 <= n <= 9999,
    ensures
        padded4(n).len() == 4,
        all_digits(padded4(n)),
        digits_value(padded4(n)) == n,
{
    let s = padded4(n);
    assert(s[0] == digit_char(n / 1000 % 10));
    assert(s[1] == digit_char(n / 100 % 10));
    assert(s[2] == digit_char(n / 10 % 10));
    assert(s[3] == digit_char(n % 10));
    assert forall|d: int| 0 <= d <= 9 implies is_digit(#[trigger] digit_char(d)) && digit_char(
        d,
    ) as int - 48 == d by {}
    lemma_four_digits(s);
    lemma_places(n);
}

/// Reading back a written discriminator gives the discriminator.
pub proof fn lemma_discriminator_roundtrip(d: Option<u16>, key: &'static str)
    requires
        d matches Some(n) ==> 1 <= n <= 9999,
    ensures
        discriminator_in(discriminator_json(d), key) == Ok::<Option<u16>, DecodeError>(d),
{
    reveal_strlit("0");
    assert("0"@.len() == 1);
    match d {
        Some(n) => {
            lemma_padded4(n as int);
        },
        None => {},
    }
}

} // verus!
