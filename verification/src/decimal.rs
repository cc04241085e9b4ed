//! Decimal rendering of counters: the in-memory backend mints its opaque
//! string identifiers as decimal numerals, and the injectivity proof here is
//! what makes every minted identifier fresh.

use vstd::prelude::*;

verus! {

/// The digit character for one decimal digit.
pub open spec fn decimal_digit_char(d: nat) -> char {
    if d == 0 {
        '0'
    } else if d == 1 {
        '1'
    } else if d == 2 {
        '2'
    } else if d == 3 {
        '3'
    } else if d == 4 {
        '4'
    } else if d == 5 {
        '5'
    } else if d == 6 {
        '6'
    } else if d == 7 {
        '7'
    } else if d == 8 {
        '8'
    } else {
        '9'
    }
}

/// The decimal numeral of `n`, most significant digit first, without
/// leading zeros (except for the numeral of zero itself).
pub open spec fn decimal_digits(n: nat) -> Seq<char>
    decreases n,
{
    if n < 10 {
        seq![decimal_digit_char(n)]
    } else {
        decimal_digits(n / 10).push(decimal_digit_char(n % 10))
    }
}

/// A numeral is never empty.
pub proof fn lemma_decimal_digits_nonempty(n: nat)
    ensures
        decimal_digits(n).len() >= 1,
    decreases n,
{
    if n >= 10 {
        lemma_decimal_digits_nonempty(n / 10);
    }
}

/// Distinct numbers have distinct numerals, so a numeral of a fresh counter
/// value never collides with one minted earlier.
pub proof fn lemma_decimal_digits_injective(a: nat, b: nat)
    requires
        decimal_digits(a) == decimal_digits(b),
    ensures
        a == b,
    decreases a,
{
    lemma_decimal_digits_nonempty(a);
    lemma_decimal_digits_nonempty(b);
    if a < 10 && b < 10 {
        assert(seq![decimal_digit_char(a)][0] == decimal_digit_char(a));
        assert(seq![decimal_digit_char(b)][0] == decimal_digit_char(b));
        assert(decimal_digit_char(a) == decimal_digit_char(b));
    } else if a >= 10 && b >= 10 {
        let sa = decimal_digits(a);
        let sb = decimal_digits(b);
        assert(sa.last() == sb.last());
        assert(a % 10 == b % 10);
        assert(sa.drop_last() =~= decimal_digits(a / 10));
        assert(sb.drop_last() =~= decimal_digits(b / 10));
        lemma_decimal_digits_injective(a / 10, b / 10);
        vstd::arithmetic::div_mod::lemma_fundamental_div_mod(a as int, 10);
        vstd::arithmetic::div_mod::lemma_fundamental_div_mod(b as int, 10);
    } else if a < 10 {
        lemma_decimal_digits_nonempty(b / 10);
        assert(decimal_digits(b).len() >= 2);
        assert(false);
    } else {
        lemma_decimal_digits_nonempty(a / 10);
        assert(decimal_digits(a).len() >= 2);
        assert(false);
    }
}

/// The single-character string for one decimal digit.
fn decimal_digit_str(d: u64) -> (s: &'static str)
    requires
        d < 10,
    ensures
        s@ == seq![decimal_digit_char(d as nat)],
{
    proof {
        reveal_strlit("0");
        reveal_strlit("1");
        reveal_strlit("2");
        reveal_strlit("3");
        reveal_strlit("4");
        reveal_strlit("5");
        reveal_strlit("6");
        reveal_strlit("7");
        reveal_strlit("8");
        reveal_strlit("9");
    }
    match d {
        0 => "0",
        1 => "1",
        2 => "2",
        3 => "3",
        4 => "4",
        5 => "5",
        6 => "6",
        7 => "7",
        8 => "8",
        _ => "9",
    }
}

/// Renders `n` as its decimal numeral.
pub fn u64_to_decimal(n: u64) -> (s: String)
    ensures
        s@ == decimal_digits(n as nat),
    decreases n,
{
    let digit = decimal_digit_str(n % 10);
    if n < 10 {
        digit.to_owned()
    } else {
        let prefix = u64_to_decimal(n / 10);
        let s = prefix.concat(digit);
        proof {
            assert(s@ =~= decimal_digits((n / 10) as nat).push(decimal_digit_char((n % 10) as nat)));
        }
        s
    }
}

} // verus!
