//! Numbers as they appear in messages.

use vstd::prelude::*;

verus! {

/// The decimal digit `d` as text.
pub open spec fn digit_text(d: nat) -> Seq<char>
    recommends
        d < 10,
{
    if d == 0 {
        "0"@
    } else if d == 1 {
        "1"@
    } else if d == 2 {
        "2"@
    } else if d == 3 {
        "3"@
    } else if d == 4 {
        "4"@
    } else if d == 5 {
        "5"@
    } else if d == 6 {
        "6"@
    } else if d == 7 {
        "7"@
    } else if d == 8 {
        "8"@
    } else {
        "9"@
    }
}

/// The decimal numeral of `n`: no sign, and no leading zero but for 0 itself.
pub open spec fn decimal_text(n: nat) -> Seq<char>
    decreases n,
{
    if n < 10 {
        digit_text(n)
    } else {
        decimal_text(n / 10) + digit_text(n % 10)
    }
}

fn digit(d: u32) -> (result: &'static str)
    requires
        d < 10,
    ensures
        result@ == digit_text(d as nat),
{
    if d == 0 {
        "0"
    } else if d == 1 {
        "1"
    } else if d == 2 {
        "2"
    } else if d == 3 {
        "3"
    } else if d == 4 {
        "4"
    } else if d == 5 {
        "5"
    } else if d == 6 {
        "6"
    } else if d == 7 {
        "7"
    } else if d == 8 {
        "8"
    } else {
        "9"
    }
}

/// Writes `n` as a decimal numeral.
pub fn decimal(n: u32) -> (result: String)
    ensures
        result@ == decimal_text(n as nat),
    decreases n,
{
    if n < 10 {
        String::from_str(digit(n))
    } else {
        let mut result = decimal(n / 10);
        result.append(digit(n % 10));
        result
    }
}

} // verus!
