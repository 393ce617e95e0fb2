//! Comparing text, and reading and writing decimal numbers.

use vstd::prelude::*;
use vstd::string::StringSliceAdditionalSpecFns;
use vstd::utf8::encode_utf8_decode_utf8;
use vstd::utf8::is_ascii_chars_encode_utf8;

verus! {

/// Whether two string slices hold the same characters.
pub fn str_eq(a: &str, b: &str) -> (same: bool)
    ensures
        same == (a@ == b@),
{
    let x = a.as_bytes();
    let y = b.as_bytes();
    proof {
        encode_utf8_decode_utf8(a@);
        encode_utf8_decode_utf8(b@);
    }
    if x.len() != y.len() {
        return false;
    }
    let mut i: usize = 0;
    while i < x.len()
        invariant
            i <= x.len(),
            x.len() == y.len(),
            x@ == a.spec_bytes(),
            y@ == b.spec_bytes(),
            forall|k: int| 0 <= k < i ==> x@[k] == y@[k],
        decreases x.len() - i,
    {
        if x[i] != y[i] {
            return false;
        }
        i += 1;
    }
    assert(x@ =~= y@);
    true
}

/// The bytes of a string that holds ASCII only: one byte for each character,
/// with the character's number. `None` where some character is not ASCII.
pub fn ascii_bytes(s: &str) -> (bytes: Option<&[u8]>)
    ensures
        match bytes {
            Some(b) => vstd::utf8::is_ascii_chars(s@) && b@.len() == s@.len() && forall|k: int|
                0 <= k < s@.len() ==> b@[k] as int == s@[k] as int,
            None => !vstd::utf8::is_ascii_chars(s@),
        },
{
    if !s.is_ascii() {
        return None;
    }
    let bytes = s.as_bytes();
    proof {
        is_ascii_chars_encode_utf8(s@);
        vstd::utf8::is_ascii_chars_nat_bound(s@);
    }
    Some(bytes)
}

/// Whether `c` is one of `0` to `9`.
pub open spec fn is_digit(c: char) -> bool {
    '0' <= c <= '9'
}

/// The number a digit stands for.
pub open spec fn digit_value(c: char) -> int {
    c as int - 48
}

/// The digit that stands for `d`, for `d` below ten.
pub open spec fn digit_char(d: int) -> char {
    (d + 48) as u8 as char
}

/// Whether every character of `s` is a digit.
pub open spec fn all_digits(s: Seq<char>) -> bool {
    forall|i: int| 0 <= i < s.len() ==> is_digit(#[trigger] s[i])
}

/// The number that a run of digits writes in base ten; the empty run writes 0.
pub open spec fn digits_value(s: Seq<char>) -> int
    decreases s.len(),
{
    if s.len() == 0 {
        0
    } else {
        digits_value(s.drop_last()) * 10 + digit_value(s.last())
    }
}

/// The number that `s` writes: one or more digits, after an optional `+`.
/// `None` for any other text.
pub open spec fn decimal(s: Seq<char>) -> Option<int> {
    let body = if s.len() > 0 && s[0] == '+' {
        s.drop_first()
    } else {
        s
    };
    if body.len() > 0 && all_digits(body) {
        Some(digits_value(body))
    } else {
        None
    }
}

/// The unsigned 64-bit number that `s` writes, if it writes one.
pub open spec fn decimal_u64(s: Seq<char>) -> Option<u64> {
    match decimal(s) {
        Some(n) => if n <= u64::MAX {
            Some(n as u64)
        } else {
            None
        },
        None => None,
    }
}

/// The number that `s` writes with an optional sign: one or more digits
/// after `+`, `-` or nothing. `None` for any other text.
pub open spec fn signed_decimal(s: Seq<char>) -> Option<int> {
    if s.len() > 0 && s[0] == '-' {
        let body = s.drop_first();
        if body.len() > 0 && all_digits(body) {
            Some(-digits_value(body))
        } else {
            None
        }
    } else {
        decimal(s)
    }
}

/// The number that `s` writes with an optional sign, where it is not
/// negative and fits 64 bits.
pub open spec fn natural(s: Seq<char>) -> Option<u64> {
    match signed_decimal(s) {
        Some(n) => if 0 <= n <= u64::MAX {
            Some(n as u64)
        } else {
            None
        },
        None => None,
    }
}

/// The shortest run of digits that writes `n`.
pub open spec fn decimal_text(n: nat) -> Seq<char>
    decreases n,
{
    if n < 10 {
        seq![digit_char(n as int)]
    } else {
        decimal_text(n / 10).push(digit_char((n % 10) as int))
    }
}

/// A run of digits writes no less than any of its prefixes.
pub proof fn lemma_digits_prefix(s: Seq<char>, k: int)
    requires
        all_digits(s),
        0 <= k <= s.len(),
    ensures
        0 <= digits_value(s.take(k)) <= digits_value(s),
    decreases s.len() - k,
{
    lemma_digits_nonnegative(s.take(k));
    if k < s.len() {
        lemma_digits_prefix(s, k + 1);
        assert(s.take(k + 1).drop_last() =~= s.take(k));
    } else {
        assert(s.take(k) =~= s);
    }
}

/// A run of digits writes a number that is not negative.
pub proof fn lemma_digits_nonnegative(s: Seq<char>)
    requires
        all_digits(s),
    ensures
        0 <= digits_value(s),
    decreases s.len(),
{
    if s.len() > 0 {
        lemma_digits_nonnegative(s.drop_last());
    }
}

/// Reading back what [`decimal_text`] writes gives the number written.
pub proof fn lemma_decimal_text(n: nat)
    ensures
        decimal_text(n).len() > 0,
        all_digits(decimal_text(n)),
        digits_value(decimal_text(n)) == n,
        decimal_text(n)[0] != '+',
        decimal(decimal_text(n)) == Some(n as int),
        n <= u64::MAX ==> decimal_u64(decimal_text(n)) == Some(n as u64),
    decreases n,
{
    let t = decimal_text(n);
    if n < 10 {
        assert(digits_value(t.drop_last()) == 0);
    } else {
        lemma_decimal_text(n / 10);
        assert(t.drop_last() =~= decimal_text(n / 10));
    }
}

/// Reads an unsigned decimal number.
pub fn parse_u64(s: &str) -> (n: Option<u64>)
    ensures
        n == decimal_u64(s@),
{
    let bytes = match ascii_bytes(s) {
        Some(b) => b,
        None => {
            proof {
                lemma_not_ascii_not_decimal(s@);
            }
            return None;
        },
    };
    let start: usize = if bytes.len() > 0 && bytes[0] == 43 {
        1
    } else {
        0
    };
    let ghost body = s@.skip(start as int);
    assert(body =~= if s@.len() > 0 && s@[0] == '+' {
        s@.drop_first()
    } else {
        s@
    });
    if start == bytes.len() {
        return None;
    }
    let mut acc: u64 = 0;
    let mut i: usize = start;
    while i < bytes.len()
        invariant
            start <= i <= bytes.len(),
            bytes@.len() == s@.len(),
            forall|k: int| 0 <= k < s@.len() ==> bytes@[k] as int == s@[k] as int,
            body == s@.skip(start as int),
            body == if s@.len() > 0 && s@[0] == '+' {
                s@.drop_first()
            } else {
                s@
            },
            all_digits(body.take(i - start)),
            acc == digits_value(body.take(i - start)),
        decreases bytes.len() - i,
    {
        let b = bytes[i];
        let ghost next = body.take(i - start + 1);
        assert(next.drop_last() =~= body.take(i - start));
        if b < 48 || b > 57 {
            assert(!is_digit(body[i - start]));
            return None;
        }
        let d: u64 = (b - 48) as u64;
        if acc > (u64::MAX - d) / 10 {
            proof {
                if all_digits(body) {
                    lemma_digits_prefix(body, i - start + 1);
                }
            }
            return None;
        }
        acc = acc * 10 + d;
        i += 1;
    }
    assert(body.take(i - start) =~= body);
    Some(acc)
}

/// A run of digits that are all `0` writes nothing but 0.
proof fn lemma_zeros(s: Seq<char>)
    requires
        forall|i: int| 0 <= i < s.len() ==> s[i] == '0',
    ensures
        all_digits(s),
        digits_value(s) == 0,
    decreases s.len(),
{
    if s.len() > 0 {
        lemma_zeros(s.drop_last());
    }
}

/// A run of digits with a digit other than `0` writes more than 0.
proof fn lemma_positive(s: Seq<char>, k: int)
    requires
        all_digits(s),
        0 <= k < s.len(),
        s[k] != '0',
    ensures
        digits_value(s) > 0,
    decreases s.len(),
{
    lemma_digits_nonnegative(s.drop_last());
    if k < s.len() - 1 {
        lemma_positive(s.drop_last(), k);
    }
}

/// Reads a decimal number with an optional sign, where it is not negative:
/// `-0` is read as 0, and any number below 0 is refused.
pub fn parse_natural(s: &str) -> (n: Option<u64>)
    ensures
        n == natural(s@),
{
    let bytes = match ascii_bytes(s) {
        Some(b) => b,
        None => {
            proof {
                lemma_not_ascii_not_decimal(s@);
            }
            return None;
        },
    };
    if bytes.len() == 0 || bytes[0] != 45 {
        proof {
            let body = if s@.len() > 0 && s@[0] == '+' {
                s@.drop_first()
            } else {
                s@
            };
            if all_digits(body) {
                lemma_digits_nonnegative(body);
            }
        }
        return parse_u64(s);
    }
    let ghost body = s@.drop_first();
    let mut i: usize = 1;
    while i < bytes.len()
        invariant
            1 <= i <= bytes.len(),
            bytes@.len() == s@.len(),
            s@[0] == '-',
            body == s@.drop_first(),
            forall|k: int| 0 <= k < s@.len() ==> bytes@[k] as int == s@[k] as int,
            forall|k: int| 0 <= k < i - 1 ==> body[k] == '0',
        decreases bytes.len() - i,
    {
        if bytes[i] != 48 {
            proof {
                assert(body[i - 1] != '0');
                if all_digits(body) {
                    lemma_positive(body, i - 1);
                }
            }
            return None;
        }
        i += 1;
    }
    if bytes.len() == 1 {
        return None;
    }
    proof {
        lemma_zeros(body);
    }
    Some(0)
}

/// Text that holds a character outside ASCII writes no number.
proof fn lemma_not_ascii_not_decimal(s: Seq<char>)
    requires
        !vstd::utf8::is_ascii_chars(s),
    ensures
        decimal(s) is None,
        signed_decimal(s) is None,
{
    let i = choose|i: int| 0 <= i < s.len() && !('\0' <= #[trigger] s[i] <= '\u{7f}');
    if i > 0 {
        assert(s.drop_first()[i - 1] == s[i]);
    }
}

/// Writes an unsigned number in base ten.
pub fn format_u64(n: u64) -> (text: String)
    ensures
        text@ == decimal_text(n as nat),
{
    let mut rev: Vec<char> = Vec::new();
    let mut rest: u64 = n;
    // The digits come out last first.
    while rest >= 10
        invariant
            decimal_text(n as nat) == decimal_text(rest as nat) + rev@.reverse(),
        decreases rest,
    {
        rev.push(((rest % 10) as u8 + 48) as char);
        rest = rest / 10;
    }
    rev.push((rest as u8 + 48) as char);
    let mut chars: Vec<char> = Vec::new();
    let mut k: usize = rev.len();
    while k > 0
        invariant
            k <= rev.len(),
            chars@ == rev@.reverse().take(rev.len() - k),
        decreases k,
    {
        k -= 1;
        chars.push(rev[k]);
    }
    string_of(&chars)
}

/// Collects characters into a `String` with `String::from_iter`: the string
/// holds exactly those characters, in order.
#[verifier::external_body]
pub(crate) fn string_of(chars: &Vec<char>) -> (text: String)
    ensures
        text@ == chars@,
{
    String::from_iter(chars.iter())
}

} // verus!
