//! Unit conventions: decimal numerals, whole gibibytes, percentages with two
//! fractional digits.

use vstd::prelude::*;

verus! {

/// Number of bytes in what the renderer calls a GB.
pub const BYTES_PER_GIB: u64 = 1073741824;

/// The character of a single decimal digit.
pub open spec fn digit(d: nat) -> char {
    if d == 0 {
        '0'
    } else if d == 1 {
        '1'
    } else if d == 2 {
        '2'
    } else if d == 3 {
        '3'
    } else if d == 4 {
        '4'
    } else if d == 5 {
        '5'
    } else if d == 6 {
        '6'
    } else if d == 7 {
        '7'
    } else if d == 8 {
        '8'
    } else {
        '9'
    }
}

/// Whether a character is one of the ten decimal digits.
pub open spec fn is_digit(c: char) -> bool {
    '0' <= c <= '9'
}

/// The value of a decimal digit character.
pub open spec fn digit_value(c: char) -> nat {
    (c as nat - '0' as nat) as nat
}

/// The decimal numeral of `n`: most significant digit first, no sign, no
/// separators, no leading zero except for zero itself.
pub open spec fn decimal(n: nat) -> Seq<char>
    decreases n,
{
    if n < 10 {
        seq![digit(n)]
    } else {
        decimal(n / 10).push(digit(n % 10))
    }
}

/// The number that a sequence of decimal digits denotes.
pub open spec fn decimal_value(s: Seq<char>) -> nat
    decreases s.len(),
{
    if s.len() == 0 {
        0
    } else {
        decimal_value(s.drop_last()) * 10 + digit_value(s.last())
    }
}

/// Whole gibibytes in a byte count, rounded down.
pub open spec fn gib(bytes: nat) -> nat {
    bytes / (BYTES_PER_GIB as nat)
}

/// A percentage given in hundredths of a percent, written with exactly two
/// digits after the decimal point.
pub open spec fn percent(hundredths: nat) -> Seq<char> {
    decimal(hundredths / 100).push('.').push(digit((hundredths / 10) % 10)).push(
        digit(hundredths % 10),
    )
}

/// Whole gibibytes round down: they never exceed the byte count, and one
/// more would.
pub proof fn lemma_gib_is_floor(bytes: nat)
    ensures
        gib(bytes) == bytes / 1073741824,
        gib(bytes) * 1073741824 <= bytes < (gib(bytes) + 1) * 1073741824,
{
}

/// Every digit character denotes the digit it was made from.
pub proof fn lemma_digit_value(d: nat)
    requires
        d < 10,
    ensures
        is_digit(digit(d)),
        digit_value(digit(d)) == d,
{
}

/// A numeral holds digits only, and starts with `0` only when it is `0`.
pub proof fn lemma_decimal_shape(n: nat)
    ensures
        decimal(n).len() >= 1,
        forall|i: int| 0 <= i < decimal(n).len() ==> is_digit(#[trigger] decimal(n)[i]),
        decimal(n)[0] == '0' <==> n == 0,
        n == 0 ==> decimal(n).len() == 1,
    decreases n,
{
    if n >= 10 {
        lemma_decimal_shape(n / 10);
        lemma_digit_value(n % 10);
    } else {
        lemma_digit_value(n);
    }
}

/// Reading a numeral back gives the number it was written for: nothing is
/// rounded away.
pub proof fn lemma_decimal_round_trip(n: nat)
    ensures
        decimal_value(decimal(n)) == n,
    decreases n,
{
    if n < 10 {
        lemma_digit_value(n);
        let s = decimal(n);
        assert(s.drop_last().len() == 0);
        assert(decimal_value(s.drop_last()) == 0);
    } else {
        lemma_decimal_round_trip(n / 10);
        lemma_digit_value(n % 10);
        let s = decimal(n);
        assert(s.drop_last() =~= decimal(n / 10));
        assert(s.last() == digit(n % 10));
    }
}

/// Different numbers have different numerals.
pub proof fn lemma_decimal_injective(a: nat, b: nat)
    requires
        decimal(a) == decimal(b),
    ensures
        a == b,
{
    lemma_decimal_round_trip(a);
    lemma_decimal_round_trip(b);
}

/// A percentage always ends in a point and two digits, after the numeral of
/// its whole part.
pub proof fn lemma_percent_shape(hundredths: nat)
    ensures
        percent(hundredths).len() == decimal(hundredths / 100).len() + 3,
        percent(hundredths).subrange(0, decimal(hundredths / 100).len() as int) == decimal(
            hundredths / 100,
        ),
        percent(hundredths)[percent(hundredths).len() - 3] == '.',
        is_digit(percent(hundredths)[percent(hundredths).len() - 2]),
        is_digit(percent(hundredths)[percent(hundredths).len() - 1]),
        digit_value(percent(hundredths)[percent(hundredths).len() - 2]) * 10 + digit_value(
            percent(hundredths)[percent(hundredths).len() - 1],
        ) == hundredths % 100,
{
    lemma_digit_value((hundredths / 10) % 10);
    lemma_digit_value(hundredths % 10);
    assert(percent(hundredths).subrange(0, decimal(hundredths / 100).len() as int) =~= decimal(
        hundredths / 100,
    ));
}

/// The text of one decimal digit.
fn digit_text(d: u64) -> (s: &'static str)
    requires
        d < 10,
    ensures
        s@ == seq![digit(d as nat)],
{
    proof {
        reveal_strlit("0");
        reveal_strlit("1");
        reveal_strlit("2");
        reveal_strlit("3");
        reveal_strlit("4");
        reveal_strlit("5");
        reveal_strlit("6");
        reveal_strlit("7");
        reveal_strlit("8");
        reveal_strlit("9");
    }
    let s = if d == 0 {
        "0"
    } else if d == 1 {
        "1"
    } else if d == 2 {
        "2"
    } else if d == 3 {
        "3"
    } else if d == 4 {
        "4"
    } else if d == 5 {
        "5"
    } else if d == 6 {
        "6"
    } else if d == 7 {
        "7"
    } else if d == 8 {
        "8"
    } else {
        "9"
    };
    assert(s@ =~= seq![digit(d as nat)]);
    s
}

/// Appends the decimal numeral of `n` to `out`.
pub fn push_decimal(out: &mut String, n: u64)
    ensures
        final(out)@ == old(out)@ + decimal(n as nat),
    decreases n,
{
    if n >= 10 {
        push_decimal(out, n / 10);
    }
    out.append(digit_text(n % 10));
    assert(out@ =~= old(out)@ + decimal(n as nat));
}

/// The decimal numeral of `n`.
pub fn decimal_text(n: u64) -> (text: String)
    ensures
        text@ == decimal(n as nat),
{
    let mut text = String::new();
    push_decimal(&mut text, n);
    assert(text@ =~= decimal(n as nat));
    text
}

/// Whole gibibytes in `bytes`, rounded down.
pub fn whole_gib(bytes: u64) -> (g: u64)
    ensures
        g == gib(bytes as nat),
        g == bytes / BYTES_PER_GIB,
{
    bytes / BYTES_PER_GIB
}

/// Appends a percentage, given in hundredths of a percent, with two digits
/// after the decimal point.
pub fn push_percent(out: &mut String, hundredths: u64)
    ensures
        final(out)@ == old(out)@ + percent(hundredths as nat),
{
    push_decimal(out, hundredths / 100);
    proof {
        reveal_strlit(".");
    }
    out.append(".");
    out.append(digit_text((hundredths / 10) % 10));
    out.append(digit_text(hundredths % 10));
    assert(out@ =~= old(out)@ + percent(hundredths as nat));
}

/// A percentage, given in hundredths of a percent, with two digits after the
/// decimal point.
pub fn percent_text(hundredths: u64) -> (text: String)
    ensures
        text@ == percent(hundredths as nat),
{
    let mut text = String::new();
    push_percent(&mut text, hundredths);
    assert(text@ =~= percent(hundredths as nat));
    text
}

} // verus!
