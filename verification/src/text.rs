//! Text that messages are put together from: decimal numbers, quoted strings, optional values.

use vstd::prelude::*;

verus! {

/// The character of a decimal digit.
pub open spec fn digit_char(digit: nat) -> char
    recommends
        digit < 10,
{
    (48 + digit) as char
}

/// The decimal digits of `n`, most significant first and without leading zeros.
pub open spec fn decimal(n: nat) -> Seq<char>
    decreases n,
{
    if n < 10 {
        seq![digit_char(n)]
    } else {
        decimal(n / 10).push(digit_char(n % 10))
    }
}

/// The decimal form of `n`, with a minus sign before a negative number.
pub open spec fn signed_decimal(n: int) -> Seq<char> {
    if n < 0 {
        seq!['-'] + decimal((-n) as nat)
    } else {
        decimal(n as nat)
    }
}

/// `Some(..)` around a value's text, or `None`.
pub open spec fn optional_text(value: Option<Seq<char>>) -> Seq<char> {
    match value {
        Some(text) => "Some("@ + text + ")"@,
        None => "None"@,
    }
}

/// The characters of an optional string.
pub open spec fn text_of(value: Option<String>) -> Option<Seq<char>> {
    match value {
        Some(text) => Some(text@),
        None => None,
    }
}

/// The text that the standard library's `Debug` writes for a string: the string between double
/// quotes, with the characters that need it escaped.
pub uninterp spec fn quoted(text: Seq<char>) -> Seq<char>;

/// Writes a string with `{:?}`, the `Debug` of `str`. The text depends on the characters of the
/// string alone.
#[verifier::external_body]
pub(crate) fn quote(text: &str) -> (result: String)
    ensures
        result@ == quoted(text@),
{
    format!("{:?}", text)
}

/// `String::from` on a string slice makes a string of the same characters.
pub assume_specification<'a, 'b>[ <String as From<&'a str>>::from ](
    text: &'b str,
) -> (result: String)
    ensures
        result@ == text@,
;

/// `From` from a type to itself returns its argument unchanged.
pub assume_specification<Same>[ <Same as From<Same>>::from ](value: Same) -> (result: Same)
    ensures
        result == value,
;

/// A string that is converted into a string stays as it is.
pub proof fn law_string_conversion_keeps_string(value: String, stored: String)
    requires
        call_ensures(<String as Into<String>>::into, (value,), stored),
    ensures
        stored == value,
{
}

/// A string slice that is converted into a string keeps its characters.
pub proof fn law_str_conversion_keeps_characters(value: &str, stored: String)
    requires
        call_ensures(<&str as Into<String>>::into, (value,), stored),
    ensures
        stored@ == value@,
{
}

fn digit_text(digit: u64) -> (result: &'static str)
    requires
        digit < 10,
    ensures
        result@ == seq![digit_char(digit as nat)],
{
    proof {
        reveal_strlit("0");
        reveal_strlit("1");
        reveal_strlit("2");
        reveal_strlit("3");
        reveal_strlit("4");
        reveal_strlit("5");
        reveal_strlit("6");
        reveal_strlit("7");
        reveal_strlit("8");
        reveal_strlit("9");
    }
    match digit {
        0 => "0",
        1 => "1",
        2 => "2",
        3 => "3",
        4 => "4",
        5 => "5",
        6 => "6",
        7 => "7",
        8 => "8",
        _ => "9",
    }
}

/// Appends the decimal digits of `n`.
pub(crate) fn append_decimal(out: &mut String, n: u64)
    ensures
        final(out)@ == old(out)@ + decimal(n as nat),
    decreases n,
{
    if n >= 10 {
        append_decimal(out, n / 10);
    }
    out.append(digit_text(n % 10));
}

/// Appends the decimal form of `n`.
pub(crate) fn append_signed(out: &mut String, n: i64)
    ensures
        final(out)@ == old(out)@ + signed_decimal(n as int),
{
    if n < 0 {
        proof {
            reveal_strlit("-");
        }
        out.append("-");
        let magnitude: u64 = (0 - n as i128) as u64;
        append_decimal(out, magnitude);
    } else {
        append_decimal(out, n as u64);
    }
}

/// Appends `Some(n)` with `n` in decimal form, or `None`.
pub(crate) fn append_optional_signed(out: &mut String, value: &Option<i64>)
    ensures
        final(out)@ == old(out)@ + optional_text(
            match *value {
                Some(n) => Some(signed_decimal(n as int)),
                None => None,
            },
        ),
{
    match value {
        Some(n) => {
            out.append("Some(");
            append_signed(out, *n);
            out.append(")");
        },
        None => out.append("None"),
    }
}

/// Appends `Some(n)` with `n` in decimal form, or `None`.
pub(crate) fn append_optional_decimal(out: &mut String, value: Option<u64>)
    ensures
        final(out)@ == old(out)@ + optional_text(
            match value {
                Some(n) => Some(decimal(n as nat)),
                None => None,
            },
        ),
{
    match value {
        Some(n) => {
            out.append("Some(");
            append_decimal(out, n);
            out.append(")");
        },
        None => out.append("None"),
    }
}

/// The decimal form of a number consists of the digits from `0` to `9`. The last one is the number
/// modulo ten, those before it are the decimal form of a tenth of the number, and only the number
/// zero begins with a zero.
pub proof fn law_decimal_digits(n: nat)
    ensures
        decimal(n).len() > 0,
        forall|i: int| 0 <= i < decimal(n).len() ==> '0' <= #[trigger] decimal(n)[i] <= '9',
        decimal(n).last() as int - '0' as int == n % 10,
        n < 10 ==> decimal(n).len() == 1,
        n >= 10 ==> decimal(n).drop_last() == decimal(n / 10),
        decimal(n)[0] == '0' ==> n == 0,
    decreases n,
{
    if n >= 10 {
        law_decimal_digits(n / 10);
        assert(decimal(n).drop_last() =~= decimal(n / 10));
    }
}

/// Different numbers have different decimal forms.
pub proof fn law_decimal_tells_numbers_apart(one: nat, other: nat)
    requires
        decimal(one) == decimal(other),
    ensures
        one == other,
    decreases one,
{
    law_decimal_digits(one);
    law_decimal_digits(other);
    if one >= 10 {
        law_decimal_digits(one / 10);
        assert(other >= 10);
        law_decimal_tells_numbers_apart(one / 10, other / 10);
    } else if other >= 10 {
        law_decimal_digits(other / 10);
    }
}

/// A negative number is written as a minus sign and the digits of its opposite, any other number as
/// its digits alone.
pub proof fn law_signed_decimal(n: nat)
    ensures
        signed_decimal(n as int) == decimal(n),
        n > 0 ==> signed_decimal(-n) == "-"@ + decimal(n),
{
    reveal_strlit("-");
}

} // verus!
