//! Decimal rendering of the listen port: the one piece of text the
//! library builds besides plain concatenation.

use vstd::prelude::*;
use vstd::string::StringExecFns;

verus! {

/// The character for one decimal digit.
pub open spec fn digit_char(d: int) -> char {
    if d == 0 {
        '0'
    } else if d == 1 {
        '1'
    } else if d == 2 {
        '2'
    } else if d == 3 {
        '3'
    } else if d == 4 {
        '4'
    } else if d == 5 {
        '5'
    } else if d == 6 {
        '6'
    } else if d == 7 {
        '7'
    } else if d == 8 {
        '8'
    } else {
        '9'
    }
}

/// The decimal digits of `n`, most significant first, with no sign and
/// no leading zero (zero itself is the single digit '0').
pub open spec fn digits_seq(n: nat) -> Seq<char>
    decreases n,
{
    if n < 10 {
        seq![digit_char(n as int)]
    } else {
        digits_seq(n / 10).push(digit_char((n % 10) as int))
    }
}

/// The usual decimal rendering of `n`: a '-' before the digits of its
/// magnitude when `n` is negative, the bare digits otherwise.
pub open spec fn decimal_seq(n: int) -> Seq<char> {
    if n >= 0 {
        digits_seq(n as nat)
    } else {
        seq!['-'] + digits_seq((-n) as nat)
    }
}

fn digit_str(d: u32) -> (s: &'static str)
    requires
        d < 10,
    ensures
        s@ == seq![digit_char(d as int)],
{
    let res: &'static str = if d == 0 {
        "0"
    } else if d == 1 {
        "1"
    } else if d == 2 {
        "2"
    } else if d == 3 {
        "3"
    } else if d == 4 {
        "4"
    } else if d == 5 {
        "5"
    } else if d == 6 {
        "6"
    } else if d == 7 {
        "7"
    } else if d == 8 {
        "8"
    } else {
        "9"
    };
    proof {
        reveal_strlit("0");
        reveal_strlit("1");
        reveal_strlit("2");
        reveal_strlit("3");
        reveal_strlit("4");
        reveal_strlit("5");
        reveal_strlit("6");
        reveal_strlit("7");
        reveal_strlit("8");
        reveal_strlit("9");
        assert(res@ =~= seq![digit_char(d as int)]);
    }
    res
}

fn digits_string(n: u32) -> (s: String)
    ensures
        s@ == digits_seq(n as nat),
    decreases n,
{
    if n < 10 {
        String::from_str(digit_str(n))
    } else {
        let mut s = digits_string(n / 10);
        let d = digit_str(n % 10);
        s.append(d);
        proof {
            assert(s@ =~= digits_seq(n as nat));
        }
        s
    }
}

/// Renders `n` in decimal, exactly as `decimal_seq` describes it.
pub fn decimal_string(n: i32) -> (s: String)
    ensures
        s@ == decimal_seq(n as int),
{
    if n >= 0 {
        digits_string(n as u32)
    } else {
        let mag64: i64 = -(n as i64);
        let mag: u32 = mag64 as u32;
        assert(mag as int == -(n as int));
        let mut s = String::from_str("-");
        let d = digits_string(mag);
        s.append(d.as_str());
        proof {
            reveal_strlit("-");
            assert(s@ =~= decimal_seq(n as int));
        }
        s
    }
}

} // verus!
