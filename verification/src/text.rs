//! Text: decimal numbers, and what the crate relies on of `String`.

use std::string::FromUtf8Error;
use std::time::Duration;
use vstd::prelude::*;
use vstd::utf8::*;

verus! {

/// `std::string::FromUtf8Error`, why bytes are not text.
#[verifier::external_type_specification]
#[verifier::external_body]
pub struct ExFromUtf8Error(std::string::FromUtf8Error);

/// The error that `String::from_utf8` gives for `bytes` that are no UTF-8.
pub uninterp spec fn utf8_error(bytes: Seq<u8>) -> FromUtf8Error;

/// What a `FromUtf8Error` displays as.
pub uninterp spec fn utf8_error_text(e: FromUtf8Error) -> Seq<char>;

/// What a duration of `nanos` nanoseconds displays as in `{:?}`.
pub uninterp spec fn duration_debug_text(nanos: nat) -> Seq<char>;

/// What `text` displays as in `{:?}`: quoted and escaped.
pub uninterp spec fn quoted_text(text: Seq<char>) -> Seq<char>;

/// `String::from_utf8`: the text that the bytes encode, or an error that depends
/// on the bytes alone where they are no UTF-8.
pub assume_specification[ String::from_utf8 ](bytes: Vec<u8>) -> (r: Result<String, FromUtf8Error>)
    ensures
        match r {
            Ok(text) => valid_utf8(bytes@) && text@ == decode_utf8(bytes@),
            Err(e) => !valid_utf8(bytes@) && e == utf8_error(bytes@),
        },
;

/// `FromUtf8Error::to_string`: its description, which depends on it alone.
#[verifier::external_body]
pub(crate) fn utf8_error_string(e: &FromUtf8Error) -> (r: String)
    ensures
        r@ == utf8_error_text(*e),
{
    e.to_string()
}

/// The `Debug` form of a `Duration`, which depends on its length alone.
#[verifier::external_body]
pub(crate) fn duration_debug(d: &Duration) -> (r: String)
    ensures
        r@ == duration_debug_text(crate::clock::duration_nanos(*d)),
{
    format!("{:?}", d)
}

/// The `Debug` form of a text, which depends on its characters alone.
#[verifier::external_body]
pub(crate) fn quoted(text: &str) -> (r: String)
    ensures
        r@ == quoted_text(text@),
{
    format!("{:?}", text)
}

/// `String::push`: one more character at the end.
pub assume_specification[ String::push ](s: &mut String, c: char)
    ensures
        final(s)@ == old(s)@.push(c),
;

/// The decimal digit of `d`.
pub open spec fn digit(d: nat) -> char {
    (48 + d) as char
}

/// `n` in decimal, without leading zeros.
pub open spec fn decimal(n: nat) -> Seq<char>
    decreases n,
{
    if n < 10 {
        seq![digit(n)]
    } else {
        decimal(n / 10).push(digit(n % 10))
    }
}

/// Appends `n` in decimal.
pub fn push_decimal(out: &mut String, n: u64)
    ensures
        final(out)@ == old(out)@ + decimal(n as nat),
    decreases n,
{
    if n >= 10 {
        push_decimal(out, n / 10);
    }
    let last: u8 = (n % 10) as u8;
    let c: char = (48u8 + last) as char;
    out.push(c);
    assert(out@ =~= old(out)@ + decimal(n as nat));
}

pub open spec fn is_digit(c: char) -> bool {
    '0' <= c <= '9'
}

/// The number that `digits` write in decimal.
pub open spec fn decimal_value(digits: Seq<char>) -> nat
    decreases digits.len(),
{
    if digits.len() == 0 {
        0
    } else {
        decimal_value(digits.drop_last()) * 10 + (digits.last() as nat - 48) as nat
    }
}

pub open spec fn all_digits(s: Seq<char>) -> bool {
    forall|i: int| 0 <= i < s.len() ==> is_digit(#[trigger] s[i])
}

/// The digits of a number written as an optional plus sign and digits.
pub open spec fn unsigned_digits(s: Seq<char>) -> Seq<char> {
    if s.len() > 0 && s[0] == '+' {
        s.skip(1)
    } else {
        s
    }
}

/// The unsigned 64-bit number that `s` writes: an optional plus sign, then
/// nothing but digits and at least one of them. `None` where `s` is anything
/// else, or the number is too large.
pub open spec fn parsed_u64(s: Seq<char>) -> Option<u64> {
    let digits = unsigned_digits(s);
    if digits.len() > 0 && all_digits(digits) && decimal_value(digits) <= u64::MAX {
        Some(decimal_value(digits) as u64)
    } else {
        None
    }
}

proof fn lemma_value_grows(digits: Seq<char>, i: int)
    requires
        0 <= i <= digits.len(),
    ensures
        decimal_value(digits.take(i)) <= decimal_value(digits),
    decreases digits.len() - i,
{
    if i == digits.len() {
        assert(digits.take(i) =~= digits);
    } else {
        lemma_value_grows(digits, i + 1);
        assert(digits.take(i + 1).drop_last() =~= digits.take(i));
    }
}

/// Reads an unsigned 64-bit number.
pub fn parse_u64(s: &str) -> (r: Option<u64>)
    ensures
        r == parsed_u64(s@),
{
    if !s.is_ascii() {
        proof {
            let at = choose|k: int|
                0 <= k < s@.len() && !('\0' <= #[trigger] s@[k] <= '\u{7f}');
            let digits = unsigned_digits(s@);
            if s@[0] == '+' {
                assert(digits[at - 1] == s@[at]);
            } else {
                assert(digits[at] == s@[at]);
            }
        }
        return None;
    }
    proof {
        vstd::string::is_ascii_spec_bytes(s);
    }
    let bytes = s.as_bytes();
    let len: usize = bytes.len();
    assert(forall|k: int| 0 <= k < len ==> s@[k] as u8 == #[trigger] bytes@[k]);
    let start: usize = if len > 0 && bytes[0] == 43 {
        1
    } else {
        0
    };
    let ghost digits = unsigned_digits(s@);
    assert(digits =~= s@.skip(start as int));
    if start == len {
        return None;
    }
    let mut value: u64 = 0;
    let mut i: usize = start;
    while i < len
        invariant
            is_ascii_chars(s@),
            len == s@.len(),
            len == bytes@.len(),
            forall|k: int| 0 <= k < len ==> s@[k] as u8 == #[trigger] bytes@[k],
            start <= i <= len,
            start <= 1,
            digits == unsigned_digits(s@),
            digits == s@.skip(start as int),
            digits.len() > 0,
            all_digits(digits.take(i - start)),
            value == decimal_value(digits.take(i - start)),
        decreases len - i,
    {
        let c: u8 = bytes[i];
        assert(digits[i - start] as u8 == c);
        if c < 48 || 57 < c {
            return None;
        }
        let d: u64 = (c - 48) as u64;
        assert(digits.take(i + 1 - start).drop_last() =~= digits.take(i - start));
        proof {
            lemma_value_grows(digits, i + 1 - start);
        }
        match value.checked_mul(10) {
            None => {
                return None;
            },
            Some(tens) => match tens.checked_add(d) {
                None => {
                    return None;
                },
                Some(next) => {
                    assert forall|k: int|
                        0 <= k < digits.take(i + 1 - start).len() implies is_digit(
                        #[trigger] digits.take(i + 1 - start)[k],
                    ) by {
                        if k < i - start {
                            assert(digits.take(i - start)[k] == digits.take(i + 1 - start)[k]);
                        }
                    }
                    value = next;
                },
            },
        }
        i = i + 1;
    }
    assert(digits.take(len - start) =~= digits);
    Some(value)
}

} // verus!
