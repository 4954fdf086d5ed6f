//! Rendering of numeric answers to decimal text.

use vstd::prelude::*;
use vstd::string::StringExecFns;

verus! {

/// The decimal digit character for `d`, where `0 <= d < 10`.
pub open spec fn digit_char(d: nat) -> char {
    if d == 0 {
        '0'
    } else if d == 1 {
        '1'
    } else if d == 2 {
        '2'
    } else if d == 3 {
        '3'
    } else if d == 4 {
        '4'
    } else if d == 5 {
        '5'
    } else if d == 6 {
        '6'
    } else if d == 7 {
        '7'
    } else if d == 8 {
        '8'
    } else {
        '9'
    }
}

/// The decimal rendering of `n`, most significant digit first, no sign and
/// no leading zeros (except for `n == 0`, which renders as `"0"`).
pub open spec fn dec_str(n: nat) -> Seq<char>
    decreases n,
{
    if n < 10 {
        seq![digit_char(n)]
    } else {
        dec_str(n / 10).push(digit_char(n % 10))
    }
}

/// The one-character string holding the decimal digit `d`.
fn digit_str(d: u64) -> (s: &'static str)
    requires
        d < 10,
    ensures
        s@ == seq![digit_char(d as nat)],
{
    proof {
        reveal_strlit("0");
        reveal_strlit("1");
        reveal_strlit("2");
        reveal_strlit("3");
        reveal_strlit("4");
        reveal_strlit("5");
        reveal_strlit("6");
        reveal_strlit("7");
        reveal_strlit("8");
        reveal_strlit("9");
    }
    let s: &'static str = if d == 0 {
        "0"
    } else if d == 1 {
        "1"
    } else if d == 2 {
        "2"
    } else if d == 3 {
        "3"
    } else if d == 4 {
        "4"
    } else if d == 5 {
        "5"
    } else if d == 6 {
        "6"
    } else if d == 7 {
        "7"
    } else if d == 8 {
        "8"
    } else {
        "9"
    };
    proof {
        assert(s@ =~= seq![digit_char(d as nat)]);
    }
    s
}

/// Render `n` as its decimal text.
pub fn u64_to_text(n: u64) -> (s: String)
    ensures
        s@ == dec_str(n as nat),
    decreases n,
{
    if n < 10 {
        String::from_str(digit_str(n))
    } else {
        let high = u64_to_text(n / 10);
        let s = high.concat(digit_str(n % 10));
        proof {
            assert(s@ =~= dec_str(n as nat));
        }
        s
    }
}

} // verus!
