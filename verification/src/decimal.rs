//! Decimal text of unsigned integers, as it appears in helper arguments.

use vstd::prelude::*;
use vstd::string::*;

verus! {

/// The character that stands for a single decimal digit.
pub open spec fn digit_char(d: nat) -> char
    recommends
        d < 10,
{
    if d == 0 {
        '0'
    } else if d == 1 {
        '1'
    } else if d == 2 {
        '2'
    } else if d == 3 {
        '3'
    } else if d == 4 {
        '4'
    } else if d == 5 {
        '5'
    } else if d == 6 {
        '6'
    } else if d == 7 {
        '7'
    } else if d == 8 {
        '8'
    } else {
        '9'
    }
}

/// The decimal numeral of `n`: most significant digit first, no sign, no
/// leading zero except for zero itself.
pub open spec fn decimal_text(n: nat) -> Seq<char>
    decreases n,
{
    if n < 10 {
        seq![digit_char(n)]
    } else {
        decimal_text(n / 10).push(digit_char(n % 10))
    }
}

/// A numeral has at least one digit, and every character of it is a digit.
pub proof fn lemma_decimal_text_digits(n: nat)
    ensures
        decimal_text(n).len() >= 1,
        forall|i: int|
            0 <= i < decimal_text(n).len() ==> '0' <= #[trigger] decimal_text(n)[i] <= '9',
        n >= 10 ==> decimal_text(n).len() >= 2,
        n > 0 ==> decimal_text(n)[0] != '0',
    decreases n,
{
    if n >= 10 {
        lemma_decimal_text_digits(n / 10);
    }
}

fn digit_str(d: u32) -> (s: &'static str)
    requires
        d < 10,
    ensures
        s@ == seq![digit_char(d as nat)],
{
    proof {
        reveal_strlit("0");
        reveal_strlit("1");
        reveal_strlit("2");
        reveal_strlit("3");
        reveal_strlit("4");
        reveal_strlit("5");
        reveal_strlit("6");
        reveal_strlit("7");
        reveal_strlit("8");
        reveal_strlit("9");
    }
    let s: &'static str = match d {
        0 => "0",
        1 => "1",
        2 => "2",
        3 => "3",
        4 => "4",
        5 => "5",
        6 => "6",
        7 => "7",
        8 => "8",
        _ => "9",
    };
    assert(s@ =~= seq![digit_char(d as nat)]);
    s
}

/// Writes `n` in decimal.
pub fn decimal_string(n: u32) -> (text: String)
    ensures
        text@ == decimal_text(n as nat),
{
    let mut rest: u32 = n / 10;
    let mut text: String = String::from_str(digit_str(n % 10));
    while rest > 0
        invariant
            rest == 0 ==> text@ == decimal_text(n as nat),
            rest > 0 ==> decimal_text(n as nat) == decimal_text(rest as nat) + text@,
        decreases rest,
    {
        let ghost tail: Seq<char> = text@;
        text = String::from_str(digit_str(rest % 10)).concat(text.as_str());
        proof {
            let d: Seq<char> = seq![digit_char((rest % 10) as nat)];
            assert(text@ == d + tail);
            if rest >= 10 {
                assert(decimal_text(rest as nat) == decimal_text((rest / 10) as nat) + d);
                assert(decimal_text((rest / 10) as nat) + d + tail =~= decimal_text(
                    (rest / 10) as nat,
                ) + (d + tail));
            } else {
                assert(decimal_text(rest as nat) == d);
            }
        }
        rest = rest / 10;
    }
    text
}

} // verus!
