//! Decimal formatting: plain numbers, two-digit zero-padded fields, the
//! `mm:ss` / `hh:mm:ss` pretty-time text, and the elapsed percentage.

use vstd::prelude::*;
use vstd::string::StringExecFns;

verus! {

/// The decimal digit character for `d < 10`.
pub open spec fn digit_char(d: nat) -> char {
    if d == 0 {
        '0'
    } else if d == 1 {
        '1'
    } else if d == 2 {
        '2'
    } else if d == 3 {
        '3'
    } else if d == 4 {
        '4'
    } else if d == 5 {
        '5'
    } else if d == 6 {
        '6'
    } else if d == 7 {
        '7'
    } else if d == 8 {
        '8'
    } else {
        '9'
    }
}

/// The decimal digits of `n`, most significant first, without leading zeros
/// (a single `'0'` for zero).
pub open spec fn dec_digits(n: nat) -> Seq<char>
    decreases n,
{
    if n < 10 {
        seq![digit_char(n)]
    } else {
        dec_digits(n / 10).push(digit_char(n % 10))
    }
}

/// A number as a clock field: zero-padded to two digits, wider only when the
/// number itself is.
pub open spec fn two_digits(n: nat) -> Seq<char> {
    if n < 10 {
        seq!['0', digit_char(n)]
    } else {
        dec_digits(n)
    }
}

/// A duration in seconds as clock text: `mm:ss` under one hour, else
/// `hh:mm:ss`, every field zero-padded to two digits.
pub open spec fn pretty_time_spec(seconds: nat) -> Seq<char> {
    let hours = seconds / 3600;
    let mins = (seconds % 3600) / 60;
    let secs = seconds % 60;
    if seconds < 3600 {
        two_digits(mins) + seq![':'] + two_digits(secs)
    } else {
        two_digits(hours) + seq![':'] + two_digits(mins) + seq![':'] + two_digits(secs)
    }
}

/// How far playback has come, in whole percent; a zero or unreported
/// duration counts as 0%.
pub open spec fn percentage_spec(time_pos: nat, duration: nat) -> nat {
    if duration == 0 {
        0
    } else {
        (100 * time_pos) / duration
    }
}

fn digit_to_str(d: u64) -> (r: &'static str)
    requires
        d < 10,
    ensures
        r@ == seq![digit_char(d as nat)],
{
    proof {
        reveal_strlit("0");
        reveal_strlit("1");
        reveal_strlit("2");
        reveal_strlit("3");
        reveal_strlit("4");
        reveal_strlit("5");
        reveal_strlit("6");
        reveal_strlit("7");
        reveal_strlit("8");
        reveal_strlit("9");
    }
    let r: &'static str = if d == 0 {
        "0"
    } else if d == 1 {
        "1"
    } else if d == 2 {
        "2"
    } else if d == 3 {
        "3"
    } else if d == 4 {
        "4"
    } else if d == 5 {
        "5"
    } else if d == 6 {
        "6"
    } else if d == 7 {
        "7"
    } else if d == 8 {
        "8"
    } else {
        "9"
    };
    proof {
        assert(r@ =~= seq![digit_char(d as nat)]);
    }
    r
}

/// `n` in decimal, most significant digit first.
pub fn u64_to_dec(n: u64) -> (r: String)
    ensures
        r@ == dec_digits(n as nat),
    decreases n,
{
    if n < 10 {
        String::from_str(digit_to_str(n))
    } else {
        let mut s = u64_to_dec(n / 10);
        s.append(digit_to_str(n % 10));
        proof {
            assert(s@ =~= dec_digits(n as nat));
        }
        s
    }
}

/// `n` as a clock field, zero-padded to two digits.
pub fn u64_two_digits(n: u64) -> (r: String)
    ensures
        r@ == two_digits(n as nat),
{
    if n < 10 {
        proof {
            reveal_strlit("0");
        }
        let mut s = String::from_str("0");
        s.append(digit_to_str(n));
        proof {
            assert(s@ =~= two_digits(n as nat));
        }
        s
    } else {
        u64_to_dec(n)
    }
}

/// A duration in seconds as clock text, `mm:ss` under one hour and
/// `hh:mm:ss` from one hour up.
pub fn get_pretty_time(seconds: u64) -> (r: String)
    ensures
        r@ == pretty_time_spec(seconds as nat),
{
    let hours: u64 = seconds / 3600;
    let mins: u64 = (seconds % 3600) / 60;
    let secs: u64 = seconds % 60;
    proof {
        reveal_strlit(":");
    }
    if seconds < 3600 {
        let mut s = u64_two_digits(mins);
        s.append(":");
        let tail = u64_two_digits(secs);
        s.append(tail.as_str());
        proof {
            assert(s@ =~= pretty_time_spec(seconds as nat));
        }
        s
    } else {
        let mut s = u64_two_digits(hours);
        s.append(":");
        let mid = u64_two_digits(mins);
        s.append(mid.as_str());
        s.append(":");
        let tail = u64_two_digits(secs);
        s.append(tail.as_str());
        proof {
            assert(s@ =~= pretty_time_spec(seconds as nat));
        }
        s
    }
}

/// The elapsed percentage of playback, guarding a zero duration.
pub fn percentage(time_pos: u64, duration: u64) -> (r: u64)
    requires
        time_pos <= u64::MAX / 100,
    ensures
        r == percentage_spec(time_pos as nat, duration as nat),
{
    if duration == 0 {
        0
    } else {
        (100 * time_pos) / duration
    }
}

} // verus!
