//! Decimal rendering of integers, used for the current-year suffix.

use vstd::prelude::*;
use vstd::string::StringExecFns;

verus! {

/// The character for one decimal digit.
pub open spec fn digit_char(d: int) -> char {
    if d == 0 {
        '0'
    } else if d == 1 {
        '1'
    } else if d == 2 {
        '2'
    } else if d == 3 {
        '3'
    } else if d == 4 {
        '4'
    } else if d == 5 {
        '5'
    } else if d == 6 {
        '6'
    } else if d == 7 {
        '7'
    } else if d == 8 {
        '8'
    } else {
        '9'
    }
}

/// The decimal digits of a non-negative integer, most significant first,
/// with no leading zeros (a single `'0'` for zero).
pub open spec fn dec_digits(n: int) -> Seq<char>
    decreases n,
{
    if n < 10 {
        seq![digit_char(n)]
    } else {
        dec_digits(n / 10).push(digit_char(n % 10))
    }
}

/// The decimal form of an integer: a minus sign before the digits of the
/// magnitude when negative, the plain digits otherwise.
pub open spec fn dec_int(n: int) -> Seq<char> {
    if n < 0 {
        seq!['-'] + dec_digits(-n)
    } else {
        dec_digits(n)
    }
}

/// One decimal digit as a string.
fn digit_str(d: u64) -> (r: &'static str)
    requires
        d < 10,
    ensures
        r@ == seq![digit_char(d as int)],
{
    proof {
        reveal_strlit("0");
        reveal_strlit("1");
        reveal_strlit("2");
        reveal_strlit("3");
        reveal_strlit("4");
        reveal_strlit("5");
        reveal_strlit("6");
        reveal_strlit("7");
        reveal_strlit("8");
        reveal_strlit("9");
    }
    match d {
        0 => "0",
        1 => "1",
        2 => "2",
        3 => "3",
        4 => "4",
        5 => "5",
        6 => "6",
        7 => "7",
        8 => "8",
        _ => "9",
    }
}

/// The digits of `n`, built least significant first by prepending.
fn u64_digits(n: u64) -> (r: String)
    ensures
        r@ == dec_digits(n as int),
{
    let d: u64 = n % 10;
    let mut s = String::from_str(digit_str(d));
    let mut m: u64 = n / 10;
    proof {
        if m > 0 {
            assert(dec_digits(n as int) == dec_digits(n as int / 10).push(
                digit_char(n as int % 10),
            ));
            assert(dec_digits(m as int).push(digit_char(d as int)) =~= dec_digits(m as int)
                + s@);
        }
    }
    while m > 0
        invariant
            m == 0 ==> s@ == dec_digits(n as int),
            m > 0 ==> dec_digits(m as int) + s@ == dec_digits(n as int),
        decreases m,
    {
        let d2: u64 = m % 10;
        let prefix = String::from_str(digit_str(d2));
        let joined = prefix.concat(s.as_str());
        proof {
            let mi = m as int;
            if mi / 10 == 0 {
                assert(dec_digits(mi) =~= seq![digit_char(mi % 10)]);
                assert(dec_digits(mi) + s@ =~= joined@);
            } else {
                assert(dec_digits(mi) == dec_digits(mi / 10).push(digit_char(mi % 10)));
                assert(dec_digits(mi / 10).push(digit_char(mi % 10)) + s@ =~= dec_digits(mi / 10)
                    + joined@);
            }
        }
        s = joined;
        m = m / 10;
    }
    s
}

/// The decimal form of a signed integer, as `dec_int` describes it.
pub fn decimal_string(n: i32) -> (r: String)
    ensures
        r@ == dec_int(n as int),
{
    if n < 0 {
        let magnitude: u64 = (-(n as i64)) as u64;
        let digits = u64_digits(magnitude);
        let signed = String::from_str("-").concat(digits.as_str());
        proof {
            reveal_strlit("-");
            assert(signed@ =~= seq!['-'] + dec_digits(magnitude as int));
        }
        signed
    } else {
        u64_digits(n as u64)
    }
}

} // verus!
