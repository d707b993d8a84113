//! Decimal text of integers, as the cookies carry ids: what `format!`
//! writes and what `str::parse` reads back.

use vstd::prelude::*;

verus! {

/// The digit character for `d < 10`.
pub open spec fn digit_char(d: nat) -> char {
    (d + 48) as char
}

/// `c` is an ASCII decimal digit.
pub open spec fn is_digit(c: char) -> bool {
    48 <= c as int && c as int <= 57
}

/// The value of the digit character `c`.
pub open spec fn digit_value(c: char) -> int {
    c as int - 48
}

/// The shortest decimal text of `n`: digits with no leading zero.
pub open spec fn decimal(n: nat) -> Seq<char>
    decreases n,
{
    if n < 10 {
        seq![digit_char(n)]
    } else {
        decimal(n / 10).push(digit_char(n % 10))
    }
}

/// Every character of `s` is a decimal digit.
pub open spec fn all_digits(s: Seq<char>) -> bool {
    forall|i: int| 0 <= i < s.len() ==> #[trigger] is_digit(s[i])
}

/// The number that the digits `s` spell.
pub open spec fn digits_value(s: Seq<char>) -> int
    decreases s.len(),
{
    if s.len() == 0 {
        0
    } else {
        digits_value(s.drop_last()) * 10 + digit_value(s.last())
    }
}

/// How `i64` values are written: `-` before negative numbers, then the
/// shortest decimal digits.
pub open spec fn format_i64_spec(x: i64) -> Seq<char> {
    if x < 0 {
        seq!['-'] + decimal((-x) as nat)
    } else {
        decimal(x as nat)
    }
}

/// How `u64` values are written: the shortest decimal digits.
pub open spec fn format_u64_spec(x: u64) -> Seq<char> {
    decimal(x as nat)
}

/// How text is read as an `i64`: an optional `+` or `-`, then one or more
/// decimal digits, nothing else, and a value within range.
pub open spec fn parse_i64_spec(s: Seq<char>) -> Option<i64> {
    let negative = s.len() > 0 && s[0] == '-';
    let signed = s.len() > 0 && (s[0] == '-' || s[0] == '+');
    let body = if signed {
        s.drop_first()
    } else {
        s
    };
    let value = if negative {
        -digits_value(body)
    } else {
        digits_value(body)
    };
    if body.len() > 0 && all_digits(body) && i64::MIN <= value && value <= i64::MAX {
        Some(value as i64)
    } else {
        None
    }
}

/// How text is read as a `u64`: an optional `+`, then one or more decimal
/// digits, nothing else, and a value within range.
pub open spec fn parse_u64_spec(s: Seq<char>) -> Option<u64> {
    let body = if s.len() > 0 && s[0] == '+' {
        s.drop_first()
    } else {
        s
    };
    if body.len() > 0 && all_digits(body) && digits_value(body) <= u64::MAX {
        Some(digits_value(body) as u64)
    } else {
        None
    }
}

/// The decimal text of `n` is made of digits and spells `n`.
pub proof fn lemma_decimal_spells(n: nat)
    ensures
        decimal(n).len() > 0,
        all_digits(decimal(n)),
        digits_value(decimal(n)) == n,
    decreases n,
{
    if n < 10 {
        let s = decimal(n);
        assert(s.drop_last() =~= Seq::<char>::empty());
        assert(digit_value(digit_char(n)) == n);
        assert(digits_value(s.drop_last()) == 0);
        assert(is_digit(s[0]));
    } else {
        lemma_decimal_spells(n / 10);
        let s = decimal(n);
        let d = (n % 10) as nat;
        assert(s.drop_last() =~= decimal(n / 10));
        assert(s.last() == digit_char(d));
        assert(digit_value(digit_char(d)) == d);
        assert forall|i: int| 0 <= i < s.len() implies #[trigger] is_digit(s[i]) by {
            if i < s.len() - 1 {
                assert(s[i] == decimal(n / 10)[i]);
            }
        }
        vstd::arithmetic::div_mod::lemma_fundamental_div_mod(n as int, 10);
        assert(digits_value(s) == digits_value(decimal(n / 10)) * 10 + d);
    }
}

/// Reading back what `format_i64_spec` writes gives the number again.
pub proof fn lemma_i64_round_trip(x: i64)
    ensures
        parse_i64_spec(format_i64_spec(x)) == Some(x),
{
    if x < 0 {
        let n = (-x) as nat;
        lemma_decimal_spells(n);
        let s = format_i64_spec(x);
        assert(s.drop_first() =~= decimal(n));
    } else {
        lemma_decimal_spells(x as nat);
        let s = decimal(x as nat);
        assert(is_digit(s[0]));
    }
}

/// Reading back what `format_u64_spec` writes gives the number again.
pub proof fn lemma_u64_round_trip(x: u64)
    ensures
        parse_u64_spec(format_u64_spec(x)) == Some(x),
{
    lemma_decimal_spells(x as nat);
    let s = decimal(x as nat);
    assert(is_digit(s[0]));
}

/// `i64`'s `Display`, through `format!`: the shortest decimal digits, with a
/// leading `-` for negative numbers (what std documents for integers).
#[verifier::external_body]
pub(crate) fn format_i64(x: i64) -> (r: String)
    ensures
        r@ == format_i64_spec(x),
{
    format!("{}", x)
}

/// `u64`'s `Display`, through `format!`: the shortest decimal digits.
#[verifier::external_body]
pub(crate) fn format_u64(x: u64) -> (r: String)
    ensures
        r@ == format_u64_spec(x),
{
    format!("{}", x)
}

/// `str::parse::<i64>`, with the error dropped: std documents that the text
/// must be an optional `+` or `-` followed by decimal digits only, within
/// range, and that anything else is an error.
#[verifier::external_body]
pub(crate) fn parse_i64(s: &str) -> (r: Option<i64>)
    ensures
        r == parse_i64_spec(s@),
{
    s.parse::<i64>().ok()
}

/// `str::parse::<u64>`, with the error dropped: std documents that the text
/// must be an optional `+` followed by decimal digits only, within range, and
/// that anything else is an error.
#[verifier::external_body]
pub(crate) fn parse_u64(s: &str) -> (r: Option<u64>)
    ensures
        r == parse_u64_spec(s@),
{
    s.parse::<u64>().ok()
}

} // verus!
