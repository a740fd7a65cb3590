//! Payment-card numbers: the Luhn checksum and two brand patterns.
use vstd::prelude::*;
use crate::pattern::{accepts, regex_accepts};

verus! {

/// Fewest digits a card number may have.
pub const MIN_CARD_DIGITS: usize = 13;

/// Visa: a `4`, then 12 digits, optionally 3 more.
pub const VISA_PATTERN: &'static str = r"^4\d{12}(\d{3})?$";

/// MasterCard: `51` to `55`, then 14 digits.
pub const MASTER_PATTERN: &'static str = r"^5[1-5]\d{14}$";

pub open spec fn is_decimal_digit(c: char) -> bool {
    '0' <= c && c <= '9'
}

pub open spec fn digit_value(c: char) -> nat {
    (c as int - '0' as int) as nat
}

/// The decimal digits of `s`, in order, as values; other characters are dropped.
pub open spec fn digits_of(s: Seq<char>) -> Seq<nat>
    decreases s.len(),
{
    if s.len() == 0 {
        seq![]
    } else if is_decimal_digit(s.last()) {
        digits_of(s.drop_last()).push(digit_value(s.last()))
    } else {
        digits_of(s.drop_last())
    }
}

/// What one digit adds to the Luhn sum: doubled digits count twice, less 9 when over 9.
pub open spec fn luhn_term(d: nat, doubled: bool) -> nat {
    if doubled {
        if 2 * d > 9 {
            (2 * d - 9) as nat
        } else {
            2 * d
        }
    } else {
        d
    }
}

/// The Luhn sum of `d`, read from the rightmost digit; `doubled` says whether
/// that rightmost digit is doubled, and the flag alternates from there.
pub open spec fn luhn_sum(d: Seq<nat>, doubled: bool) -> nat
    decreases d.len(),
{
    if d.len() == 0 {
        0
    } else {
        luhn_term(d.last(), doubled) + luhn_sum(d.drop_last(), !doubled)
    }
}

/// At least the minimum count of digits, with a Luhn sum divisible by 10.
pub open spec fn luhn_valid(d: Seq<nat>) -> bool {
    d.len() >= MIN_CARD_DIGITS && luhn_sum(d, false) % 10 == 0
}

pub open spec fn credit_card_accepts(s: Seq<char>) -> bool {
    luhn_valid(digits_of(s))
}

pub open spec fn visa_accepts(s: Seq<char>) -> bool {
    regex_accepts(VISA_PATTERN@, s) && credit_card_accepts(s)
}

pub open spec fn master_accepts(s: Seq<char>) -> bool {
    regex_accepts(MASTER_PATTERN@, s) && credit_card_accepts(s)
}

/// The digit that, appended to `d`, makes the Luhn sum a multiple of 10.
pub open spec fn check_digit(d: Seq<nat>) -> nat {
    ((10 - luhn_sum(d, true) % 10) % 10) as nat
}

pub open spec fn as_values(v: Seq<u32>) -> Seq<nat> {
    v.map_values(|x: u32| x as nat)
}

/// Whether the decimal digits of `input` (other characters ignored) number at
/// least 13 and pass the Luhn checksum.
pub fn is_credit_card(input: &str) -> (r: bool)
    ensures
        r == credit_card_accepts(input@),
{
    let mut digits: Vec<u32> = Vec::new();
    for ch in it: input.chars()
        invariant
            it.seq() == input@,
            as_values(digits@) =~= digits_of(input@.take(it.index())),
            forall|j: int| 0 <= j < digits.len() ==> digits[j] < 10,
    {
        let ghost k = it.index();
        assert(input@.take(k + 1).drop_last() =~= input@.take(k));
        if '0' <= ch && ch <= '9' {
            digits.push((ch as u32) - ('0' as u32));
        }
    }
    assert(input@.take(input@.len() as int) =~= input@);
    if digits.len() < MIN_CARD_DIGITS {
        return false;
    }
    let ghost d = as_values(digits@);
    assert(d.take(d.len() as int) =~= d);
    let mut sum: u128 = 0;
    let mut should_double = false;
    let mut i: usize = digits.len();
    while i > 0
        invariant
            i <= digits.len(),
            d == as_values(digits@),
            forall|j: int| 0 <= j < digits.len() ==> digits[j] < 10,
            sum + luhn_sum(d.take(i as int), should_double) == luhn_sum(d, false),
            sum <= 9 * (digits.len() - i),
        decreases i,
    {
        i = i - 1;
        assert(d.take(i + 1).drop_last() =~= d.take(i as int));
        let mut value = digits[i];
        if should_double {
            value = value * 2;
            if value > 9 {
                value = value - 9;
            }
        }
        sum = sum + value as u128;
        should_double = !should_double;
    }
    assert(d.take(0) =~= Seq::<nat>::empty());
    sum % 10 == 0
}

/// Whether `input` is written as a Visa number (`4`, then 12 or 15 more
/// digits, nothing else) and passes the card checksum.
pub fn is_visa_card(input: &str) -> (r: bool)
    ensures
        r == visa_accepts(input@),
{
    accepts(VISA_PATTERN, input) && is_credit_card(input)
}

/// Whether `input` is written as a MasterCard number (`51`..`55`, then 14
/// digits, nothing else) and passes the card checksum.
pub fn is_master_card(input: &str) -> (r: bool)
    ensures
        r == master_accepts(input@),
{
    accepts(MASTER_PATTERN, input) && is_credit_card(input)
}

/// A number that the Visa or the MasterCard check accepts also passes the
/// generic card check.
pub proof fn lemma_brand_implies_card(s: Seq<char>)
    ensures
        visa_accepts(s) ==> credit_card_accepts(s),
        master_accepts(s) ==> credit_card_accepts(s),
{
}

/// A string of 12 or more decimal digits, followed by its check digit, passes
/// the card check.
pub proof fn lemma_check_digit_completes(s: Seq<char>, c: char)
    requires
        s.len() >= 12,
        forall|i: int| 0 <= i < s.len() ==> is_decimal_digit(#[trigger] s[i]),
        is_decimal_digit(c),
        digit_value(c) == check_digit(digits_of(s)),
    ensures
        credit_card_accepts(s.push(c)),
{
    lemma_digits_of_digit_string(s);
    let d = digits_of(s);
    assert(s.push(c).drop_last() =~= s);
    assert(digits_of(s.push(c)) == d.push(digit_value(c)));
    assert(d.push(digit_value(c)).drop_last() =~= d);
    let total = luhn_sum(d, true);
    assert(luhn_sum(d.push(digit_value(c)), false) == digit_value(c) + total);
    assert((((10 - total % 10) % 10) + total) % 10 == 0) by (nonlinear_arith);
}

/// A string made of decimal digits keeps all of them.
proof fn lemma_digits_of_digit_string(s: Seq<char>)
    requires
        forall|i: int| 0 <= i < s.len() ==> is_decimal_digit(#[trigger] s[i]),
    ensures
        digits_of(s).len() == s.len(),
    decreases s.len(),
{
    if s.len() > 0 {
        assert(is_decimal_digit(s[s.len() - 1]));
        let t = s.drop_last();
        assert forall|i: int| 0 <= i < t.len() implies is_decimal_digit(#[trigger] t[i]) by {
            assert(t[i] == s[i]);
        }
        lemma_digits_of_digit_string(t);
    }
}

} // verus!
