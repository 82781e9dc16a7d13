//! Numbers as text: integers in decimal, and quantities that are kept in
//! billionths of their unit with as many fractional digits as they need.

use vstd::prelude::*;
use vstd::string::StringExecFns;

verus! {

/// The number of billionths in a unit.
pub const BILLION: u128 = 1_000_000_000;

/// The number of nanoseconds in a second.
pub const NANOS_PER_SECOND: u128 = 1_000_000_000;

/// The character of a decimal digit.
pub open spec fn digit_char(d: nat) -> char {
    if d == 0 {
        '0'
    } else if d == 1 {
        '1'
    } else if d == 2 {
        '2'
    } else if d == 3 {
        '3'
    } else if d == 4 {
        '4'
    } else if d == 5 {
        '5'
    } else if d == 6 {
        '6'
    } else if d == 7 {
        '7'
    } else if d == 8 {
        '8'
    } else {
        '9'
    }
}

/// A number in decimal, without leading zeros.
pub open spec fn decimal(n: nat) -> Seq<char>
    decreases n,
{
    if n < 10 {
        seq![digit_char(n)]
    } else {
        decimal(n / 10).push(digit_char(n % 10))
    }
}

/// The digits of a fraction `numerator / (10 * unit)`, for `unit` a power of
/// ten and `numerator` below `10 * unit`, without trailing zeros.
pub open spec fn fraction_digits(numerator: nat, unit: nat) -> Seq<char>
    decreases unit,
{
    if numerator == 0 || unit == 0 {
        Seq::empty()
    } else {
        seq![digit_char(numerator / unit)] + fraction_digits(numerator % unit, unit / 10)
    }
}

/// `unit` is a power of ten that is less than a billion, or zero.
pub open spec fn is_unit(unit: nat) -> bool {
    unit == 0 || unit == 1 || unit == 10 || unit == 100 || unit == 1_000 || unit == 10_000 || unit
        == 100_000 || unit == 1_000_000 || unit == 10_000_000 || unit == 100_000_000
}

/// A quantity of `count` billionths of a unit, in units: the whole units in
/// decimal and, unless the quantity is a whole number of units, a point and
/// the fractional digits without trailing zeros.
pub open spec fn billionths(count: nat) -> Seq<char> {
    let whole = count / (BILLION as nat);
    let rest = count % (BILLION as nat);
    if rest == 0 {
        decimal(whole)
    } else {
        decimal(whole) + seq!['.'] + fraction_digits(rest, 100_000_000)
    }
}

/// The text of a decimal digit.
pub fn digit_text(d: u8) -> (text: &'static str)
    requires
        d < 10,
    ensures
        text@ == seq![digit_char(d as nat)],
{
    proof {
        reveal_strlit("0");
        reveal_strlit("1");
        reveal_strlit("2");
        reveal_strlit("3");
        reveal_strlit("4");
        reveal_strlit("5");
        reveal_strlit("6");
        reveal_strlit("7");
        reveal_strlit("8");
        reveal_strlit("9");
    }
    let text = if d == 0 {
        "0"
    } else if d == 1 {
        "1"
    } else if d == 2 {
        "2"
    } else if d == 3 {
        "3"
    } else if d == 4 {
        "4"
    } else if d == 5 {
        "5"
    } else if d == 6 {
        "6"
    } else if d == 7 {
        "7"
    } else if d == 8 {
        "8"
    } else {
        "9"
    };
    text
}

/// Appends `n` in decimal to `out`.
pub fn push_decimal(out: &mut String, n: u128)
    ensures
        final(out)@ == old(out)@ + decimal(n as nat),
    decreases n,
{
    if n >= 10 {
        push_decimal(out, n / 10);
    }
    let last = (n % 10) as u8;
    out.append(digit_text(last));
}

/// Appends a quantity of `count` billionths of a unit, in units, to `out`.
pub fn push_billionths(out: &mut String, count: u128)
    ensures
        final(out)@ == old(out)@ + billionths(count as nat),
{
    let whole = count / BILLION;
    let rest = count % BILLION;
    push_decimal(out, whole);
    if rest != 0 {
        proof {
            reveal_strlit(".");
        }
        out.append(".");
        let ghost head = out@;
        let mut left: u128 = rest;
        let mut unit: u128 = 100_000_000;
        while left != 0 && unit != 0
            invariant
                left < 10 * unit || left == 0,
                is_unit(unit as nat),
                out@ + fraction_digits(left as nat, unit as nat) == head + fraction_digits(
                    rest as nat,
                    100_000_000,
                ),
            decreases unit,
        {
            assert(left / unit < 10) by (nonlinear_arith)
                requires
                    left < 10 * unit,
                    unit > 0,
            ;
            assert(left % unit < unit) by (nonlinear_arith)
                requires
                    unit > 0,
            ;
            let digit = (left / unit) as u8;
            let ghost before = out@;
            out.append(digit_text(digit));
            proof {
                assert(out@ + fraction_digits((left % unit) as nat, (unit / 10) as nat) =~= before
                    + fraction_digits(left as nat, unit as nat));
            }
            left = left % unit;
            unit = unit / 10;
        }
    }
}

} // verus!
