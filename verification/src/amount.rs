//! Amounts: smallest units, whole coins, and their text.

use vstd::prelude::*;
use vstd::string::StringExecFns;

verus! {

/// How many smallest units make one coin of the display denomination.
pub const UNITS_PER_COIN: u64 = 100_000_000;

/// The number of decimal places of an amount in the display denomination.
pub const COIN_DECIMALS: u32 = 8;

/// The character of a decimal digit.
pub open spec fn digit_char(d: int) -> char {
    if d == 0 {
        '0'
    } else if d == 1 {
        '1'
    } else if d == 2 {
        '2'
    } else if d == 3 {
        '3'
    } else if d == 4 {
        '4'
    } else if d == 5 {
        '5'
    } else if d == 6 {
        '6'
    } else if d == 7 {
        '7'
    } else if d == 8 {
        '8'
    } else {
        '9'
    }
}

/// A number in decimal, without leading zeros.
pub open spec fn decimal_text(n: nat) -> Seq<char>
    decreases n,
{
    if n < 10 {
        seq![digit_char(n as int)]
    } else {
        decimal_text(n / 10).push(digit_char((n % 10) as int))
    }
}

/// The last `width` decimal digits of a number, with leading zeros.
pub open spec fn fixed_text(n: nat, width: nat) -> Seq<char>
    decreases width,
{
    if width == 0 {
        Seq::empty()
    } else {
        fixed_text(n / 10, (width - 1) as nat).push(digit_char((n % 10) as int))
    }
}

/// An amount of smallest units in the display denomination: the whole
/// coins, a point, and always eight decimal places.
pub open spec fn amount_text(units: nat) -> Seq<char> {
    decimal_text(units / (UNITS_PER_COIN as nat)) + seq!['.'] + fixed_text(
        units % (UNITS_PER_COIN as nat),
        COIN_DECIMALS as nat,
    )
}

/// Calls `bitcoin::Amount::from_int_btc` and reads the result back with
/// `to_sat`. Trusted: the amount is the number of coins times the units per
/// coin. The outside function panics when that product does not fit, so
/// such a number is not admitted.
#[verifier::external_body]
fn units_of_coins(coins: u64) -> (units: u64)
    requires
        coins * UNITS_PER_COIN <= u64::MAX,
    ensures
        units == coins * UNITS_PER_COIN,
{
    bitcoin::Amount::from_int_btc(coins).to_sat()
}

/// A number of whole coins in smallest units, or `None` where that does not
/// fit the machine's amounts.
pub fn coins_to_units(coins: u64) -> (units: Option<u64>)
    ensures
        coins * UNITS_PER_COIN <= u64::MAX ==> units == Some((coins * UNITS_PER_COIN) as u64),
        coins * UNITS_PER_COIN > u64::MAX ==> units is None,
{
    if coins <= u64::MAX / UNITS_PER_COIN {
        assert(coins * UNITS_PER_COIN <= u64::MAX) by (nonlinear_arith)
            requires
                coins <= u64::MAX / UNITS_PER_COIN,
                UNITS_PER_COIN == 100_000_000,
        ;
        Some(units_of_coins(coins))
    } else {
        assert(coins * UNITS_PER_COIN > u64::MAX) by (nonlinear_arith)
            requires
                coins > u64::MAX / UNITS_PER_COIN,
                UNITS_PER_COIN == 100_000_000,
        ;
        None
    }
}

fn digit_text(d: u64) -> (text: &'static str)
    requires
        d < 10,
    ensures
        text@ == seq![digit_char(d as int)],
{
    proof {
        reveal_strlit("0");
        reveal_strlit("1");
        reveal_strlit("2");
        reveal_strlit("3");
        reveal_strlit("4");
        reveal_strlit("5");
        reveal_strlit("6");
        reveal_strlit("7");
        reveal_strlit("8");
        reveal_strlit("9");
    }
    let text = if d == 0 {
        "0"
    } else if d == 1 {
        "1"
    } else if d == 2 {
        "2"
    } else if d == 3 {
        "3"
    } else if d == 4 {
        "4"
    } else if d == 5 {
        "5"
    } else if d == 6 {
        "6"
    } else if d == 7 {
        "7"
    } else if d == 8 {
        "8"
    } else {
        "9"
    };
    assert(text@ =~= seq![digit_char(d as int)]);
    text
}

/// Appends a number in decimal.
pub fn push_decimal(text: &mut String, n: u64)
    ensures
        final(text)@ == old(text)@ + decimal_text(n as nat),
    decreases n,
{
    if n >= 10 {
        push_decimal(text, n / 10);
    }
    text.append(digit_text(n % 10));
    assert(final(text)@ =~= old(text)@ + decimal_text(n as nat));
}

/// Appends the last `width` digits of a number, with leading zeros.
pub fn push_fixed(text: &mut String, n: u64, width: u32)
    ensures
        final(text)@ == old(text)@ + fixed_text(n as nat, width as nat),
    decreases width,
{
    if width > 0 {
        push_fixed(text, n / 10, width - 1);
        text.append(digit_text(n % 10));
    }
    assert(final(text)@ =~= old(text)@ + fixed_text(n as nat, width as nat));
}

/// Appends an amount in the display denomination.
pub fn push_amount(text: &mut String, units: u64)
    ensures
        final(text)@ == old(text)@ + amount_text(units as nat),
{
    push_decimal(text, units / UNITS_PER_COIN);
    proof {
        reveal_strlit(".");
    }
    text.append(".");
    push_fixed(text, units % UNITS_PER_COIN, COIN_DECIMALS);
    assert("."@ =~= seq!['.']);
    assert(final(text)@ =~= old(text)@ + amount_text(units as nat));
}

/// An amount of smallest units as text in the display denomination, in
/// exact integer arithmetic: `2000000000` gives `20.00000000`.
pub fn format_amount(units: u64) -> (text: String)
    ensures
        text@ == amount_text(units as nat),
{
    let mut text = String::new();
    push_amount(&mut text, units);
    assert(text@ =~= amount_text(units as nat));
    text
}

} // verus!
