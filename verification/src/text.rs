//! Texts for humans.

use vstd::prelude::*;
use vstd::string::*;

verus! {

/// The decimal digits.
pub open spec fn digits() -> Seq<char> {
    "0123456789"@
}

/// The decimal notation of a number.
pub open spec fn decimal(n: nat) -> Seq<char>
    decreases n,
{
    if n < 10 {
        seq![digits()[n as int]]
    } else {
        decimal(n / 10).push(digits()[(n % 10) as int])
    }
}

/// The text with an argument in brackets.
pub open spec fn applied(name: Seq<char>, arg: Seq<char>) -> Seq<char> {
    name + "("@ + arg + ")"@
}

fn digit_text(digit: u64) -> (res: &'static str)
    requires
        digit < 10,
    ensures
        res@ == seq![digits()[digit as int]],
{
    proof {
        reveal_strlit("0123456789");
        reveal_strlit("0");
        reveal_strlit("1");
        reveal_strlit("2");
        reveal_strlit("3");
        reveal_strlit("4");
        reveal_strlit("5");
        reveal_strlit("6");
        reveal_strlit("7");
        reveal_strlit("8");
        reveal_strlit("9");
    }
    match digit {
        0 => "0",
        1 => "1",
        2 => "2",
        3 => "3",
        4 => "4",
        5 => "5",
        6 => "6",
        7 => "7",
        8 => "8",
        _ => "9",
    }
}

/// Writes a number in decimal notation.
pub fn decimal_text(n: u64) -> (res: String)
    ensures
        res@ == decimal(n as nat),
    decreases n,
{
    let mut res = if n < 10 {
        String::new()
    } else {
        decimal_text(n / 10)
    };
    res.append(digit_text(n % 10));
    assert(res@ =~= decimal(n as nat));
    res
}

/// Writes the text with an argument in brackets.
pub fn applied_text(name: &str, arg: &str) -> (res: String)
    ensures
        res@ == applied(name@, arg@),
{
    let mut res = name.to_string();
    res.append("(");
    res.append(arg);
    res.append(")");
    res
}

} // verus!
