//! Decimal rendering of integers, fixed-point values and clock times.
use vstd::prelude::*;

verus! {

/// The decimal digit `d` as a character.
pub open spec fn digit_char(d: int) -> char {
    if d == 0 {
        '0'
    } else if d == 1 {
        '1'
    } else if d == 2 {
        '2'
    } else if d == 3 {
        '3'
    } else if d == 4 {
        '4'
    } else if d == 5 {
        '5'
    } else if d == 6 {
        '6'
    } else if d == 7 {
        '7'
    } else if d == 8 {
        '8'
    } else {
        '9'
    }
}

/// The decimal digits of `n`, without leading zeros.
pub open spec fn nat_text(n: nat) -> Seq<char>
    decreases n,
{
    if n < 10 {
        seq![digit_char(n as int)]
    } else {
        nat_text(n / 10) + seq![digit_char((n % 10) as int)]
    }
}

/// `n` in decimal, with a leading `-` when negative.
pub open spec fn int_text(n: int) -> Seq<char> {
    if n < 0 {
        seq!['-'] + nat_text((-n) as nat)
    } else {
        nat_text(n as nat)
    }
}

/// A number of tenths written with one decimal place.
pub open spec fn tenths_text(t: int) -> Seq<char> {
    let a = if t < 0 {
        -t
    } else {
        t
    };
    (if t < 0 {
        seq!['-']
    } else {
        seq![]
    }) + nat_text((a / 10) as nat) + seq!['.', digit_char(a % 10)]
}

/// `n` written with at least two digits.
pub open spec fn two_digit_text(n: nat) -> Seq<char> {
    if n < 10 {
        seq!['0', digit_char(n as int)]
    } else {
        nat_text(n)
    }
}

/// The wall-clock time `HH:MM` of a second of the day.
pub open spec fn clock_text(second_of_day: nat) -> Seq<char> {
    two_digit_text(second_of_day / 3600) + seq![':'] + two_digit_text(second_of_day % 3600 / 60)
}

fn digit_str(d: u64) -> (r: &'static str)
    requires
        d < 10,
    ensures
        r@ == seq![digit_char(d as int)],
{
    proof {
        reveal_strlit("0");
        reveal_strlit("1");
        reveal_strlit("2");
        reveal_strlit("3");
        reveal_strlit("4");
        reveal_strlit("5");
        reveal_strlit("6");
        reveal_strlit("7");
        reveal_strlit("8");
        reveal_strlit("9");
    }
    if d == 0 {
        "0"
    } else if d == 1 {
        "1"
    } else if d == 2 {
        "2"
    } else if d == 3 {
        "3"
    } else if d == 4 {
        "4"
    } else if d == 5 {
        "5"
    } else if d == 6 {
        "6"
    } else if d == 7 {
        "7"
    } else if d == 8 {
        "8"
    } else {
        "9"
    }
}

/// Appends the decimal digits of `n`.
pub fn push_nat(s: &mut String, n: u64)
    ensures
        final(s)@ == old(s)@ + nat_text(n as nat),
    decreases n,
{
    if n >= 10 {
        push_nat(s, n / 10);
        s.append(digit_str(n % 10));
        assert(final(s)@ =~= old(s)@ + nat_text(n as nat)) by {
            assert(nat_text(n as nat) == nat_text((n / 10) as nat) + seq![digit_char((n % 10) as int)]);
        }
    } else {
        s.append(digit_str(n));
    }
}

/// Appends `n` in decimal.
pub fn push_int(s: &mut String, n: i64)
    ensures
        final(s)@ == old(s)@ + int_text(n as int),
{
    if n < 0 {
        proof {
            reveal_strlit("-");
        }
        s.append("-");
        let a: u64 = if n == i64::MIN {
            0x8000_0000_0000_0000u64
        } else {
            (0 - n) as u64
        };
        push_nat(s, a);
        assert(final(s)@ =~= old(s)@ + int_text(n as int));
    } else {
        push_nat(s, n as u64);
    }
}

/// Appends a number of tenths with one decimal place.
pub fn push_tenths(s: &mut String, t: i64)
    requires
        t > i64::MIN,
    ensures
        final(s)@ == old(s)@ + tenths_text(t as int),
{
    let a: i64 = if t < 0 {
        0 - t
    } else {
        t
    };
    if t < 0 {
        proof {
            reveal_strlit("-");
        }
        s.append("-");
    }
    push_nat(s, (a / 10) as u64);
    proof {
        reveal_strlit(".");
    }
    s.append(".");
    s.append(digit_str((a % 10) as u64));
    assert(final(s)@ =~= old(s)@ + tenths_text(t as int));
}

fn push_two_digits(s: &mut String, n: u64)
    ensures
        final(s)@ == old(s)@ + two_digit_text(n as nat),
{
    if n < 10 {
        proof {
            reveal_strlit("0");
        }
        s.append("0");
        s.append(digit_str(n));
        assert(final(s)@ =~= old(s)@ + two_digit_text(n as nat));
    } else {
        push_nat(s, n);
    }
}

/// Appends the wall-clock time `HH:MM` of a second of the day.
pub fn push_clock(s: &mut String, second_of_day: u64)
    ensures
        final(s)@ == old(s)@ + clock_text(second_of_day as nat),
{
    push_two_digits(s, second_of_day / 3600);
    proof {
        reveal_strlit(":");
    }
    s.append(":");
    push_two_digits(s, second_of_day % 3600 / 60);
    assert(final(s)@ =~= old(s)@ + clock_text(second_of_day as nat));
}

} // verus!
