//! Rendering of fixed-point numbers for the overlay.
//!
//! The overlay reports each reading to two decimal places, so a reading is
//! carried as a whole number of hundredths and rendered as the integer
//! part, a point, and exactly two fraction digits, with a leading minus
//! sign when it is negative.

use vstd::prelude::*;
use vstd::string::StringExecFns;

verus! {

/// The character for a single decimal digit.
pub open spec fn digit_char(d: nat) -> char {
    if d == 0 {
        '0'
    } else if d == 1 {
        '1'
    } else if d == 2 {
        '2'
    } else if d == 3 {
        '3'
    } else if d == 4 {
        '4'
    } else if d == 5 {
        '5'
    } else if d == 6 {
        '6'
    } else if d == 7 {
        '7'
    } else if d == 8 {
        '8'
    } else {
        '9'
    }
}

/// The decimal digits of a number, most significant first, with no leading
/// zeros (zero itself is the single digit '0').
pub open spec fn dec_digits(n: nat) -> Seq<char>
    decreases n,
{
    if n < 10 {
        seq![digit_char(n)]
    } else {
        dec_digits(n / 10) + seq![digit_char(n % 10)]
    }
}

/// A count of hundredths that is not negative, rendered as a decimal
/// number with exactly two fraction digits.
pub open spec fn hundredths_text_unsigned(n: nat) -> Seq<char> {
    dec_digits(n / 100) + seq!['.', digit_char((n % 100) / 10), digit_char(n % 10)]
}

/// A count of hundredths rendered as a decimal number with exactly two
/// fraction digits and a leading minus sign when it is negative.
pub open spec fn hundredths_text(v: int) -> Seq<char> {
    if v >= 0 {
        hundredths_text_unsigned(v as nat)
    } else {
        seq!['-'] + hundredths_text_unsigned((-v) as nat)
    }
}

/// The one-character string for a single decimal digit.
fn digit_str(d: u64) -> (r: &'static str)
    requires
        d < 10,
    ensures
        r@ == seq![digit_char(d as nat)],
{
    proof {
        reveal_strlit("0");
        reveal_strlit("1");
        reveal_strlit("2");
        reveal_strlit("3");
        reveal_strlit("4");
        reveal_strlit("5");
        reveal_strlit("6");
        reveal_strlit("7");
        reveal_strlit("8");
        reveal_strlit("9");
    }
    let r: &'static str = if d == 0 {
        "0"
    } else if d == 1 {
        "1"
    } else if d == 2 {
        "2"
    } else if d == 3 {
        "3"
    } else if d == 4 {
        "4"
    } else if d == 5 {
        "5"
    } else if d == 6 {
        "6"
    } else if d == 7 {
        "7"
    } else if d == 8 {
        "8"
    } else {
        "9"
    };
    proof {
        assert(r@ =~= seq![digit_char(d as nat)]);
    }
    r
}

/// The decimal digits of a number, as a string.
fn u64_to_decimal(n: u64) -> (r: String)
    ensures
        r@ == dec_digits(n as nat),
    decreases n,
{
    if n < 10 {
        digit_str(n).to_owned()
    } else {
        let mut s = u64_to_decimal(n / 10);
        s.append(digit_str(n % 10));
        proof {
            assert(s@ =~= dec_digits(n as nat));
        }
        s
    }
}

/// A count of hundredths that is not negative, as a string.
fn hundredths_unsigned(n: u64) -> (r: String)
    ensures
        r@ == hundredths_text_unsigned(n as nat),
{
    let mut s = u64_to_decimal(n / 100);
    let frac = n % 100;
    s.append(".");
    s.append(digit_str(frac / 10));
    s.append(digit_str(frac % 10));
    proof {
        reveal_strlit(".");
        assert(s@ =~= hundredths_text_unsigned(n as nat));
    }
    s
}

/// A count of hundredths, as the overlay shows it: the integer part, a
/// point, and exactly two fraction digits, with a leading minus sign when
/// the count is negative.
pub fn format_hundredths(v: i64) -> (r: String)
    requires
        v > i64::MIN,
    ensures
        r@ == hundredths_text(v as int),
{
    if v >= 0 {
        hundredths_unsigned(v as u64)
    } else {
        let mut s = "-".to_owned();
        let magnitude = hundredths_unsigned((-v) as u64);
        s.append(magnitude.as_str());
        proof {
            reveal_strlit("-");
            assert(s@ =~= hundredths_text(v as int));
        }
        s
    }
}

} // verus!
