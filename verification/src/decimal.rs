//! Integers written out in decimal, as they stand in the name of a stored
//! artifact.

use vstd::prelude::*;
use vstd::string::StringExecFns;

verus! {

/// The character of one decimal digit.
pub open spec fn digit(d: int) -> char {
    seq!['0', '1', '2', '3', '4', '5', '6', '7', '8', '9'][d]
}

/// The digits of a natural number, most significant first, without leading
/// zeros; zero is written `0`.
pub open spec fn decimal_nat(n: nat) -> Seq<char>
    decreases n,
{
    if n < 10 {
        seq![digit(n as int)]
    } else {
        decimal_nat(n / 10).push(digit(n as int % 10))
    }
}

/// An integer in decimal: a minus sign before the digits of a negative one.
pub open spec fn decimal(n: int) -> Seq<char> {
    if n < 0 {
        seq!['-'] + decimal_nat((-n) as nat)
    } else {
        decimal_nat(n as nat)
    }
}

fn digit_text(d: u64) -> (text: &'static str)
    requires
        d < 10,
    ensures
        text@ == seq![digit(d as int)],
{
    proof {
        reveal_strlit("0");
        reveal_strlit("1");
        reveal_strlit("2");
        reveal_strlit("3");
        reveal_strlit("4");
        reveal_strlit("5");
        reveal_strlit("6");
        reveal_strlit("7");
        reveal_strlit("8");
        reveal_strlit("9");
    }
    let text = if d == 0 {
        "0"
    } else if d == 1 {
        "1"
    } else if d == 2 {
        "2"
    } else if d == 3 {
        "3"
    } else if d == 4 {
        "4"
    } else if d == 5 {
        "5"
    } else if d == 6 {
        "6"
    } else if d == 7 {
        "7"
    } else if d == 8 {
        "8"
    } else {
        "9"
    };
    assert(text@ =~= seq![digit(d as int)]);
    text
}

fn magnitude_text(n: u64) -> (text: String)
    ensures
        text@ == decimal_nat(n as nat),
{
    let mut text = String::from_str(digit_text(n % 10));
    let mut rest: u64 = n / 10;
    assert(rest > 0 ==> decimal_nat(n as nat) =~= decimal_nat(rest as nat) + text@);
    while rest > 0
        invariant
            rest == 0 ==> text@ == decimal_nat(n as nat),
            rest > 0 ==> decimal_nat(n as nat) == decimal_nat(rest as nat) + text@,
        decreases rest,
    {
        let ghost lower = text@;
        text = String::from_str(digit_text(rest % 10)).concat(text.as_str());
        assert(decimal_nat(rest as nat) + lower =~= if rest < 10 {
            text@
        } else {
            decimal_nat(rest as nat / 10) + text@
        });
        rest = rest / 10;
    }
    text
}

/// Writes an integer out in decimal.
pub fn decimal_text(n: i64) -> (text: String)
    ensures
        text@ == decimal(n as int),
{
    if n < 0 {
        let magnitude: u64 = (-(n + 1)) as u64 + 1;
        proof {
            reveal_strlit("-");
        }
        let text = String::from_str("-").concat(magnitude_text(magnitude).as_str());
        assert(text@ =~= decimal(n as int));
        text
    } else {
        magnitude_text(n as u64)
    }
}

} // verus!
