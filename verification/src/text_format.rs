//! Verified decimal and boolean rendering for the status line the sample
//! scene displays. The specification functions give the exact character
//! sequences, and the executable builders are proved to produce them.

use vstd::prelude::*;
use vstd::string::StringExecFns;

verus! {

/// The decimal digit character for one digit value.
pub open spec fn digit_char(d: int) -> char
    recommends
        0 <= d < 10,
{
    if d == 0 {
        '0'
    } else if d == 1 {
        '1'
    } else if d == 2 {
        '2'
    } else if d == 3 {
        '3'
    } else if d == 4 {
        '4'
    } else if d == 5 {
        '5'
    } else if d == 6 {
        '6'
    } else if d == 7 {
        '7'
    } else if d == 8 {
        '8'
    } else {
        '9'
    }
}

/// Decimal rendering of a non-negative integer, most significant digit
/// first, without leading zeros (a single zero for zero itself).
pub open spec fn dec_text(n: int) -> Seq<char>
    recommends
        n >= 0,
    decreases n,
{
    if n < 10 {
        seq![digit_char(n)]
    } else {
        dec_text(n / 10).push(digit_char(n % 10))
    }
}

/// Decimal rendering of a signed integer: a leading minus for negatives.
pub open spec fn int_text(n: int) -> Seq<char> {
    if n < 0 {
        seq!['-'] + dec_text(-n)
    } else {
        dec_text(n)
    }
}

/// The words the standard boolean formatting prints.
pub open spec fn bool_text(b: bool) -> Seq<char> {
    if b {
        "true"@
    } else {
        "false"@
    }
}

fn digit_str(d: u64) -> (s: &'static str)
    requires
        d < 10,
    ensures
        s@ == seq![digit_char(d as int)],
{
    if d == 0 {
        proof {
            reveal_strlit("0");
        }
        assert("0"@ =~= seq![digit_char(0)]);
        "0"
    } else if d == 1 {
        proof {
            reveal_strlit("1");
        }
        assert("1"@ =~= seq![digit_char(1)]);
        "1"
    } else if d == 2 {
        proof {
            reveal_strlit("2");
        }
        assert("2"@ =~= seq![digit_char(2)]);
        "2"
    } else if d == 3 {
        proof {
            reveal_strlit("3");
        }
        assert("3"@ =~= seq![digit_char(3)]);
        "3"
    } else if d == 4 {
        proof {
            reveal_strlit("4");
        }
        assert("4"@ =~= seq![digit_char(4)]);
        "4"
    } else if d == 5 {
        proof {
            reveal_strlit("5");
        }
        assert("5"@ =~= seq![digit_char(5)]);
        "5"
    } else if d == 6 {
        proof {
            reveal_strlit("6");
        }
        assert("6"@ =~= seq![digit_char(6)]);
        "6"
    } else if d == 7 {
        proof {
            reveal_strlit("7");
        }
        assert("7"@ =~= seq![digit_char(7)]);
        "7"
    } else if d == 8 {
        proof {
            reveal_strlit("8");
        }
        assert("8"@ =~= seq![digit_char(8)]);
        "8"
    } else {
        proof {
            reveal_strlit("9");
        }
        assert("9"@ =~= seq![digit_char(9)]);
        "9"
    }
}

/// Renders an unsigned integer in decimal.
pub fn u64_dec(n: u64) -> (s: String)
    ensures
        s@ == dec_text(n as int),
    decreases n,
{
    if n < 10 {
        digit_str(n).to_owned()
    } else {
        let mut s = u64_dec(n / 10);
        s.append(digit_str(n % 10));
        proof {
            assert(s@ =~= dec_text(n as int));
        }
        s
    }
}

/// Renders a signed integer in decimal.
pub fn i32_dec(n: i32) -> (s: String)
    ensures
        s@ == int_text(n as int),
{
    if n < 0 {
        let mut s = "-".to_owned();
        let mag: u64 = (-(n as i64)) as u64;
        let digits = u64_dec(mag);
        s.append(digits.as_str());
        proof {
            reveal_strlit("-");
            assert(s@ =~= int_text(n as int));
        }
        s
    } else {
        u64_dec(n as u64)
    }
}

/// The status line the sample scene shows: the primary virtual slot, the
/// frame's wheel delta, and the measured frame rate.
pub open spec fn status_text(main_input: bool, wheel: int, fps: int) -> Seq<char> {
    "main: "@ + bool_text(main_input) + " wheel: "@ + int_text(wheel) + " fps: "@ + dec_text(
        fps,
    )
}

/// Builds the status line.
pub fn format_status(main_input: bool, wheel: i32, fps: u64) -> (s: String)
    ensures
        s@ == status_text(main_input, wheel as int, fps as int),
{
    let mut s = "main: ".to_owned();
    if main_input {
        s.append("true");
    } else {
        s.append("false");
    }
    s.append(" wheel: ");
    let w = i32_dec(wheel);
    s.append(w.as_str());
    s.append(" fps: ");
    let f = u64_dec(fps);
    s.append(f.as_str());
    proof {
        assert(s@ =~= status_text(main_input, wheel as int, fps as int));
    }
    s
}

} // verus!
