//! What holds of numbers and their texts.

use vstd::prelude::*;

verus! {

/// The decimal text of a number is the only one: it is made of digits, stands for the
/// number, and starts with a zero only where it is no more than that.
pub proof fn decimal_text_is_canonical(n: nat)
    ensures
        crate::text::decimal(n).len() > 0,
        forall|i: int|
            0 <= i < crate::text::decimal(n).len() ==> '0' <= #[trigger] crate::text::decimal(n)[i]
                <= '9',
        crate::text::digits_value(crate::text::decimal(n)) == n,
        crate::text::decimal(n)[0] == '0' ==> n == 0 && crate::text::decimal(n) == seq!['0'],
    decreases n,
{
    crate::text::lemma_decimal(n);
    assert forall|i: int| 0 <= i < crate::text::decimal(n).len() implies '0'
        <= #[trigger] crate::text::decimal(n)[i] <= '9' by {
        assert(crate::text::is_digit_char(crate::text::decimal(n)[i]));
    }
    if n < 10 {
        assert(crate::text::decimal(n)[0] == crate::text::digit_char(n));
    } else {
        decimal_text_is_canonical(n / 10);
        assert(crate::text::decimal(n)[0] == crate::text::decimal(n / 10)[0]);
    }
}

/// The value of digits: nothing has none, and a digit behind others makes ten times their
/// value and its own.
pub proof fn digits_count_by_tens(s: Seq<char>, c: char)
    requires
        '0' <= c <= '9',
    ensures
        crate::text::digits_value(Seq::empty()) == 0,
        crate::text::digits_value(s.push(c)) == crate::text::digits_value(s) * 10 + (c as int
            - '0' as int),
        crate::text::is_digit_char(c),
{
    assert(s.push(c).drop_last() =~= s);
}

/// A character that is no digit is refused, but for a plus sign in front. So is a text
/// without any digit.
pub proof fn only_digits_are_numbers(s: Seq<char>, i: int)
    requires
        0 <= i < s.len(),
        !('0' <= s[i] <= '9'),
        i > 0 || s[i] != '+',
    ensures
        crate::text::parsed_u32(s) is None,
        crate::text::parsed_u32(Seq::empty()) is None,
        crate::text::parsed_u32(seq!['+']) is None,
{
    let digits = crate::text::unsigned_digits(s);
    if s[0] == '+' {
        assert(digits[i - 1] == s[i]);
        assert(!crate::text::is_digit_char(digits[i - 1]));
    } else {
        assert(!crate::text::is_digit_char(digits[i]));
    }
    assert(crate::text::unsigned_digits(Seq::<char>::empty()).len() == 0);
    assert(crate::text::unsigned_digits(seq!['+']).len() == 0);
}

/// A number is read digit by digit, as long as it fits. A plus sign in front of digits
/// makes no difference.
pub proof fn numbers_are_read_digit_by_digit(s: Seq<char>, c: char)
    requires
        '0' <= c <= '9',
    ensures
        crate::text::parsed_u32(seq![c]) == Some((c as int - '0' as int) as u32),
        crate::text::parsed_u32(s) matches Some(v) ==> {
            let w = v * 10 + (c as int - '0' as int);
            crate::text::parsed_u32(s.push(c)) == if w <= u32::MAX {
                Some(w as u32)
            } else {
                None
            }
        },
        crate::text::parsed_u32(s) is None && s.len() > 0 && s != seq!['+']
            ==> crate::text::parsed_u32(s.push(c)) is None,
        s.len() > 0 && s[0] != '+' ==> crate::text::parsed_u32(seq!['+'] + s)
            == crate::text::parsed_u32(s),
{
    let digits = crate::text::unsigned_digits(s);
    let more = crate::text::unsigned_digits(s.push(c));
    digits_count_by_tens(digits, c);
    digits_count_by_tens(Seq::empty(), c);
    assert(Seq::<char>::empty().push(c) =~= seq![c]);
    assert(crate::text::unsigned_digits(seq![c]) =~= seq![c]);
    if s.len() > 0 {
        assert(more =~= digits.push(c));
        assert(more.len() == digits.len() + 1);
        assert forall|i: int| 0 <= i < digits.len() && crate::text::is_digit_char(more[i])
            implies crate::text::is_digit_char(#[trigger] digits[i]) by {
            assert(more[i] == digits[i]);
        }
        assert forall|i: int| 0 <= i < more.len() && (i < digits.len()
            ==> crate::text::is_digit_char(digits[i])) implies crate::text::is_digit_char(
            #[trigger] more[i],
        ) by {
            if i < digits.len() {
                assert(more[i] == digits[i]);
            }
        }
        if digits.len() == 0 {
            assert(s =~= seq!['+']);
        }
        if crate::text::parsed_u32(s) is None && s != seq!['+'] && crate::text::parsed_u32(
            s.push(c),
        ) is Some {
            assert forall|i: int| 0 <= i < digits.len() implies crate::text::is_digit_char(
                #[trigger] digits[i],
            ) by {
                assert(crate::text::is_digit_char(more[i]));
            }
            assert(crate::text::digits_value(digits) <= crate::text::digits_value(more));
            assert(false);
        }
    } else {
        assert(s =~= Seq::empty());
        assert(digits.len() == 0);
    }
    assert((seq!['+'] + s).skip(1) =~= s);
}

} // verus!
