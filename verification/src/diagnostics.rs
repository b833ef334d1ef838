//! Reading errors: which API failures mean the token must be dropped, what
//! a panic reports, and how long a rate-limited request must wait.

use vstd::prelude::*;

use crate::text::{chars_of, contains_text, occurs_in};

verus! {

/// Whether an error, written out with its causes, reports a terminal
/// authentication failure.
pub open spec fn reports_auth_failure(text: Seq<char>) -> bool {
    ||| occurs_in(text, "Token is not valid"@)
    ||| occurs_in(text, "invalid_grant"@)
    ||| occurs_in(text, "status code 401"@)
    ||| occurs_in(text, "status code 403"@)
}

/// Whether the error written `err_text` is a terminal authentication or
/// token error, after which the token cache is cleared.
pub fn is_auth_error(err_text: &str) -> (r: bool)
    ensures
        r == reports_auth_failure(err_text@),
{
    let text = chars_of(err_text);
    let t = text.as_slice();
    contains_text(t, "Token is not valid") || contains_text(t, "invalid_grant") || contains_text(
        t,
        "status code 401",
    ) || contains_text(t, "status code 403")
}

/// What a panic reports: the text it carries, if any.
pub fn panic_payload_message(payload: Option<&str>) -> (r: &str)
    ensures
        match payload {
            Some(text) => r@ == text@,
            None => r@ == "unknown panic payload"@,
        },
{
    match payload {
        Some(text) => text,
        None => "unknown panic payload",
    }
}

/// The value of a decimal digit.
pub open spec fn digit_value(c: char) -> int {
    (c as u32) - 0x30
}

/// Whether `c` is a decimal digit.
pub open spec fn is_digit(c: char) -> bool {
    0x30 <= (c as u32) <= 0x39
}

/// The number the decimal digits `s` stand for.
pub open spec fn digits_value(s: Seq<char>) -> nat
    decreases s.len(),
{
    if s.len() == 0 {
        0
    } else {
        (digits_value(s.drop_last()) * 10 + digit_value(s.last())) as nat
    }
}

/// The number the decimal digits `digits` stand for, when there is at least
/// one, all are digits, and the number fits 64 bits.
pub open spec fn u64_of_digits(digits: Seq<char>) -> Option<u64> {
    if digits.len() > 0 && (forall|i: int| 0 <= i < digits.len() ==> is_digit(#[trigger] digits[i]))
        && digits_value(digits) <= u64::MAX {
        Some(digits_value(digits) as u64)
    } else {
        None
    }
}

/// The number written `s` in decimal, with an optional leading `+`, when it
/// fits 64 bits.
pub open spec fn u64_written(s: Seq<char>) -> Option<u64> {
    if s.len() > 0 && s[0] == '+' {
        u64_of_digits(s.drop_first())
    } else {
        u64_of_digits(s)
    }
}

/// The number written `s`, as `str::parse::<u64>` reads it.
pub fn parse_u64(s: &str) -> (r: Option<u64>)
    ensures
        r == u64_written(s@),
{
    let chars = chars_of(s);
    let n = chars.len();
    let start: usize = if n > 0 && chars[0] == '+' {
        1
    } else {
        0
    };
    let ghost digits = chars@.skip(start as int);
    if start == 1 {
        assert(digits =~= s@.drop_first());
    } else {
        assert(digits =~= s@);
    }
    if start == n {
        return None;
    }
    let mut value: u64 = 0;
    let mut i: usize = start;
    while i < n
        invariant
            start <= i <= n,
            n == chars@.len(),
            digits == chars@.skip(start as int),
            forall|j: int| 0 <= j < i - start ==> is_digit(#[trigger] digits[j]),
            value == digits_value(digits.take(i - start)),
            u64_written(s@) == u64_of_digits(digits),
            digits.len() == n - start,
        decreases n - i,
    {
        let c = chars[i];
        let d = c as u32;
        proof {
            let t = digits.take(i - start + 1);
            assert(t.drop_last() =~= digits.take(i - start));
            assert(t.last() == c);
        }
        if d < 0x30 || d > 0x39 {
            assert(!is_digit(digits[i - start]));
            return None;
        }
        let digit = (d - 0x30) as u64;
        if value > (u64::MAX - digit) / 10 {
            proof {
                lemma_digits_value_grows(digits, (i - start + 1) as nat);
            }
            return None;
        }
        value = value * 10 + digit;
        i = i + 1;
    }
    assert(digits.take(n - start) =~= digits);
    Some(value)
}

/// The value of a prefix of the digits is at most that of the whole.
proof fn lemma_digits_value_grows(s: Seq<char>, k: nat)
    requires
        k <= s.len(),
        forall|i: int| 0 <= i < k ==> is_digit(#[trigger] s[i]),
    ensures
        (forall|i: int| 0 <= i < s.len() ==> is_digit(#[trigger] s[i])) ==> digits_value(s.take(k as int))
            <= digits_value(s),
    decreases s.len() - k,
{
    if k < s.len() && (forall|i: int| 0 <= i < s.len() ==> is_digit(#[trigger] s[i])) {
        lemma_digits_value_grows(s, k + 1);
        let t = s.take(k + 1 as int);
        assert(t.drop_last() =~= s.take(k as int));
        assert(is_digit(s[k as int]));
    } else if k == s.len() {
        assert(s.take(k as int) =~= s);
    }
}

/// How long a rate-limited request must wait, in seconds: the value of its
/// `Retry-After` header when that is a whole number of seconds.
pub fn retry_after_secs(header: Option<&str>) -> (r: Option<u64>)
    ensures
        r == match header {
            Some(value) => u64_written(value@),
            None => None,
        },
{
    match header {
        Some(value) => parse_u64(value),
        None => None,
    }
}

} // verus!
