//! The snapshot suffix that a rewritten body computes from its case context.

use vstd::prelude::*;

verus! {

/// The decimal digit for `d`, which is below ten.
pub open spec fn digit_char(d: nat) -> char {
    if d == 0 { '0' } else if d == 1 { '1' } else if d == 2 { '2' } else if d == 3 { '3' }
    else if d == 4 { '4' } else if d == 5 { '5' } else if d == 6 { '6' } else if d == 7 { '7' }
    else if d == 8 { '8' } else { '9' }
}

/// The decimal digits of `n`, without leading zeros.
pub open spec fn decimal(n: nat) -> Seq<char>
    decreases n,
{
    if n < 10 {
        seq![digit_char(n)]
    } else {
        decimal(n / 10) + seq![digit_char(n % 10)]
    }
}

/// The suffix of a case: its description where it has one, else its ordinal
/// in decimal, `0` when the ordinal is absent too.
pub open spec fn suffix_of(description: Option<Seq<char>>, case: Option<nat>) -> Seq<char> {
    match description {
        Some(d) => d,
        None => match case {
            Some(c) => decimal(c),
            None => decimal(0),
        },
    }
}

/// The one-digit string for `d`.
fn digit_str(d: usize) -> (r: &'static str)
    requires
        d < 10,
    ensures
        r@ == seq![digit_char(d as nat)],
{
    proof {
        reveal_strlit("0");
        reveal_strlit("1");
        reveal_strlit("2");
        reveal_strlit("3");
        reveal_strlit("4");
        reveal_strlit("5");
        reveal_strlit("6");
        reveal_strlit("7");
        reveal_strlit("8");
        reveal_strlit("9");
    }
    let r = if d == 0 { "0" } else if d == 1 { "1" } else if d == 2 { "2" } else if d == 3 { "3" }
    else if d == 4 { "4" } else if d == 5 { "5" } else if d == 6 { "6" } else if d == 7 { "7" }
    else if d == 8 { "8" } else { "9" };
    assert(r@ =~= seq![digit_char(d as nat)]);
    r
}

/// `n` in decimal.
pub fn decimal_string(n: usize) -> (r: String)
    ensures
        r@ == decimal(n as nat),
    decreases n,
{
    if n < 10 {
        String::from_str(digit_str(n))
    } else {
        let mut s = decimal_string(n / 10);
        s.append(digit_str(n % 10));
        s
    }
}

/// The snapshot suffix of a case with the given description and ordinal.
pub fn snapshot_suffix(description: Option<&str>, case: Option<usize>) -> (r: String)
    ensures
        r@ == suffix_of(
            match description { Some(d) => Some(d@), None => None },
            match case { Some(c) => Some(c as nat), None => None },
        ),
{
    match description {
        Some(d) => String::from_str(d),
        None => match case {
            Some(c) => decimal_string(c),
            None => decimal_string(0),
        },
    }
}

} // verus!
