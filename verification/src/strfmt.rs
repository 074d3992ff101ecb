//! Verified rendering of integers into decimal strings, used for alert ids
//! and alert message text.

use vstd::prelude::*;

verus! {

/// The decimal digit character for a value below ten.
pub open spec fn dec_digit(d: nat) -> char {
    if d == 0 {
        '0'
    } else if d == 1 {
        '1'
    } else if d == 2 {
        '2'
    } else if d == 3 {
        '3'
    } else if d == 4 {
        '4'
    } else if d == 5 {
        '5'
    } else if d == 6 {
        '6'
    } else if d == 7 {
        '7'
    } else if d == 8 {
        '8'
    } else {
        '9'
    }
}

/// Decimal representation of a natural number, most significant digit first,
/// without leading zeroes (a single zero for zero itself).
pub open spec fn spec_dec(n: nat) -> Seq<char>
    decreases n,
{
    if n < 10 {
        seq![dec_digit(n)]
    } else {
        spec_dec(n / 10) + seq![dec_digit(n % 10)]
    }
}

/// Decimal representation of a signed number: a minus sign ahead of the
/// digits when the number is negative.
pub open spec fn spec_dec_i64(n: int) -> Seq<char> {
    if n < 0 {
        seq!['-'] + spec_dec((-n) as nat)
    } else {
        spec_dec(n as nat)
    }
}

/// One-character string for a single decimal digit.
pub(crate) fn digit_str(d: u64) -> (s: &'static str)
    requires
        d < 10,
    ensures
        s@ == seq![dec_digit(d as nat)],
{
    proof {
        reveal_strlit("0");
        reveal_strlit("1");
        reveal_strlit("2");
        reveal_strlit("3");
        reveal_strlit("4");
        reveal_strlit("5");
        reveal_strlit("6");
        reveal_strlit("7");
        reveal_strlit("8");
        reveal_strlit("9");
    }
    let s = match d {
        0 => "0",
        1 => "1",
        2 => "2",
        3 => "3",
        4 => "4",
        5 => "5",
        6 => "6",
        7 => "7",
        8 => "8",
        _ => "9",
    };
    proof {
        assert(s@ =~= seq![dec_digit(d as nat)]);
    }
    s
}

/// Render an unsigned number in decimal.
pub fn u64_to_string(n: u64) -> (s: String)
    ensures
        s@ == spec_dec(n as nat),
    decreases n,
{
    if n < 10 {
        digit_str(n).to_owned()
    } else {
        let mut s = u64_to_string(n / 10);
        s.append(digit_str(n % 10));
        proof {
            assert(s@ =~= spec_dec(n as nat));
        }
        s
    }
}

/// Render a signed number in decimal.
pub fn i64_to_string(n: i64) -> (s: String)
    requires
        n > i64::MIN,
    ensures
        s@ == spec_dec_i64(n as int),
{
    if n < 0 {
        let mut s = "-".to_owned();
        proof {
            reveal_strlit("-");
        }
        s.append(u64_to_string((-n) as u64).as_str());
        proof {
            assert(s@ =~= spec_dec_i64(n as int));
        }
        s
    } else {
        u64_to_string(n as u64)
    }
}

/// Decimal string for a value counted in tenths: the whole part, a dot, and
/// one fractional digit (`65` tenths renders as `6.5`).
pub open spec fn spec_tenths(t: int) -> Seq<char> {
    if t < 0 {
        seq!['-'] + spec_dec(((-t) / 10) as nat) + seq!['.'] + seq![dec_digit(((-t) % 10) as nat)]
    } else {
        spec_dec((t / 10) as nat) + seq!['.'] + seq![dec_digit((t % 10) as nat)]
    }
}

/// Render a value counted in tenths with one digit after the dot.
pub fn tenths_to_string(t: i64) -> (s: String)
    requires
        t > i64::MIN,
    ensures
        s@ == spec_tenths(t as int),
{
    proof {
        reveal_strlit("-");
        reveal_strlit(".");
    }
    let mut s = if t < 0 { "-".to_owned() } else { "".to_owned() };
    let m: u64 = if t < 0 {
        (-t) as u64
    } else {
        t as u64
    };
    s.append(u64_to_string(m / 10).as_str());
    s.append(".");
    s.append(digit_str(m % 10));
    proof {
        reveal_strlit("");
        assert(s@ =~= spec_tenths(t as int));
    }
    s
}

/// Decimal string for a frequency counted in kilohertz, rendered in
/// megahertz with three fractional digits (`14074` renders as `14.074`).
pub open spec fn spec_khz_as_mhz(khz: nat) -> Seq<char> {
    spec_dec(khz / 1000) + seq!['.'] + seq![
        dec_digit((khz / 100) % 10),
        dec_digit((khz / 10) % 10),
        dec_digit(khz % 10),
    ]
}

/// Render a frequency in kilohertz as megahertz with three fractional digits.
pub fn khz_to_mhz_string(khz: u64) -> (s: String)
    ensures
        s@ == spec_khz_as_mhz(khz as nat),
{
    proof {
        reveal_strlit(".");
    }
    let mut s = u64_to_string(khz / 1000);
    s.append(".");
    s.append(digit_str((khz / 100) % 10));
    s.append(digit_str((khz / 10) % 10));
    s.append(digit_str(khz % 10));
    proof {
        assert(s@ =~= spec_khz_as_mhz(khz as nat));
    }
    s
}

/// Relies on String::push: appends exactly the one character.
#[verifier::external_body]
pub(crate) fn push_char(s: &mut String, c: char)
    ensures
        final(s)@ == old(s)@ + seq![c],
{
    s.push(c);
}

/// Decimal representation of a wide unsigned number.
pub fn u128_to_string(n: u128) -> (s: String)
    ensures
        s@ == spec_dec(n as nat),
    decreases n,
{
    if n < 10 {
        digit_str(n as u64).to_owned()
    } else {
        let mut s = u128_to_string(n / 10);
        s.append(digit_str((n % 10) as u64));
        proof {
            assert(s@ =~= spec_dec(n as nat));
        }
        s
    }
}

} // verus!
