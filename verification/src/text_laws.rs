//! What holds of numbers in texts.

use vstd::prelude::*;

verus! {

/// A number in decimal is made of digits, does not begin with a zero unless it is
/// zero, and can be read back; the digits are those from `0` to `9` in order.
pub proof fn law_decimal_can_be_read_back(n: nat)
    ensures
        crate::text::decimal(n).len() > 0,
        forall|i: int|
            0 <= i < crate::text::decimal(n).len() ==> '0' <= #[trigger] crate::text::decimal(n)[i]
                <= '9',
        n > 0 ==> crate::text::decimal(n)[0] != '0',
        n < 10 ==> crate::text::decimal(n).len() == 1 && crate::text::decimal(n)[0] as nat == '0'
            as nat + n,
        crate::text::decimal_value(crate::text::decimal(n)) == n,
        n <= u64::MAX ==> crate::text::parsed_u64(crate::text::decimal(n)) == Some(n as u64),
        n > u64::MAX ==> crate::text::parsed_u64(crate::text::decimal(n)) is None,
    decreases n,
{
    reveal_with_fuel(crate::text::decimal_value, 2);
    let text = crate::text::decimal(n);
    if n >= 10 {
        law_decimal_can_be_read_back(n / 10);
        let front = crate::text::decimal(n / 10);
        assert(text == front.push(crate::text::digit(n % 10)));
        assert(text.drop_last() =~= front);
        assert(text.last() == crate::text::digit(n % 10));
        assert(text[0] == front[0]);
        assert forall|i: int| 0 <= i < text.len() implies '0' <= #[trigger] text[i] <= '9' by {
            if i < front.len() {
                assert(text[i] == front[i]);
            }
        }
    } else {
        assert(text.drop_last() =~= Seq::<char>::empty());
    }
    assert(crate::text::unsigned_digits(text) == text);
    assert(crate::text::all_digits(text));
}

/// Reading a number digit by digit: one more digit at the end makes it ten times
/// as large and adds the digit, as long as it fits 64 bits.
pub proof fn law_numbers_are_read_digit_by_digit(text: Seq<char>, c: char)
    requires
        '0' <= c <= '9',
    ensures
        crate::text::parsed_u64(seq![c]) == Some((c as u64 - '0' as u64) as u64),
        crate::text::parsed_u64(text) matches Some(n) ==> {
            let next = n * 10 + (c as int - '0' as int);
            if next <= u64::MAX {
                crate::text::parsed_u64(text.push(c)) == Some(next as u64)
            } else {
                crate::text::parsed_u64(text.push(c)) is None
            }
        },
{
    reveal_with_fuel(crate::text::decimal_value, 2);
    assert(seq![c].drop_last() =~= Seq::<char>::empty());
    assert(crate::text::unsigned_digits(seq![c]) == seq![c]);
    assert(crate::text::decimal_value(seq![c]) == c as nat - 48);
    if crate::text::parsed_u64(text) is Some {
        let digits = crate::text::unsigned_digits(text);
        let longer = crate::text::unsigned_digits(text.push(c));
        assert(longer =~= digits.push(c));
        assert(longer.drop_last() =~= digits);
        assert forall|i: int| 0 <= i < longer.len() implies crate::text::is_digit(
            #[trigger] longer[i],
        ) by {
            if i < digits.len() {
                assert(longer[i] == digits[i]);
            }
        }
    }
}

/// A plus sign before the digits makes no difference.
pub proof fn law_a_plus_sign_makes_no_difference(digits: Seq<char>)
    requires
        digits.len() > 0,
        digits[0] != '+',
    ensures
        crate::text::parsed_u64(seq!['+'] + digits) == crate::text::parsed_u64(digits),
{
    assert((seq!['+'] + digits).skip(1) =~= digits);
}

/// Nothing is read from a text without digits or with anything but digits behind
/// the sign.
pub proof fn law_nothing_else_is_a_number(text: Seq<char>, i: int)
    ensures
        text.len() == 0 ==> crate::text::parsed_u64(text) is None,
        text == seq!['+'] ==> crate::text::parsed_u64(text) is None,
        0 <= i < text.len() && !('0' <= text[i] <= '9') && !(i == 0 && text[i] == '+')
            ==> crate::text::parsed_u64(text) is None,
{
    let digits = crate::text::unsigned_digits(text);
    if 0 <= i < text.len() && !('0' <= text[i] <= '9') && !(i == 0 && text[i] == '+') {
        if text[0] == '+' {
            assert(digits[i - 1] == text[i]);
        } else {
            assert(digits[i] == text[i]);
        }
    }
}

} // verus!
