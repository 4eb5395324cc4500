//! Decimal rendering of exit codes and signal numbers, and the summary line
//! the output reader records when the core process terminates.

use vstd::prelude::*;

verus! {

/// The decimal digit character for `d`.
pub open spec fn spec_digit_char(d: int) -> char
    recommends
        0 <= d < 10,
{
    if d == 0 {
        '0'
    } else if d == 1 {
        '1'
    } else if d == 2 {
        '2'
    } else if d == 3 {
        '3'
    } else if d == 4 {
        '4'
    } else if d == 5 {
        '5'
    } else if d == 6 {
        '6'
    } else if d == 7 {
        '7'
    } else if d == 8 {
        '8'
    } else {
        '9'
    }
}

/// The decimal digits of a non-negative integer, most significant first.
pub open spec fn spec_udec(n: int) -> Seq<char>
    recommends
        n >= 0,
    decreases n,
{
    if n < 10 {
        seq![spec_digit_char(n)]
    } else {
        spec_udec(n / 10).push(spec_digit_char(n % 10))
    }
}

/// The decimal rendering of an integer, with a leading minus sign when it is
/// negative.
pub open spec fn spec_dec(n: int) -> Seq<char> {
    if n < 0 {
        seq!['-'] + spec_udec(-n)
    } else {
        spec_udec(n)
    }
}

fn push_digit_char(s: &mut String, d: u64)
    requires
        d < 10,
    ensures
        final(s)@ == old(s)@.push(spec_digit_char(d as int)),
{
    let part: &str = match d {
        0 => "0",
        1 => "1",
        2 => "2",
        3 => "3",
        4 => "4",
        5 => "5",
        6 => "6",
        7 => "7",
        8 => "8",
        _ => "9",
    };
    proof {
        reveal_strlit("0");
        reveal_strlit("1");
        reveal_strlit("2");
        reveal_strlit("3");
        reveal_strlit("4");
        reveal_strlit("5");
        reveal_strlit("6");
        reveal_strlit("7");
        reveal_strlit("8");
        reveal_strlit("9");
    }
    s.append(part);
    proof {
        assert(final(s)@ =~= old(s)@.push(spec_digit_char(d as int)));
    }
}

/// Render a non-negative integer in decimal.
pub fn u64_to_string(n: u64) -> (s: String)
    ensures
        s@ == spec_udec(n as int),
    decreases n,
{
    if n < 10 {
        let mut s = String::new();
        push_digit_char(&mut s, n);
        proof {
            assert(s@ =~= spec_udec(n as int));
        }
        s
    } else {
        let mut s = u64_to_string(n / 10);
        push_digit_char(&mut s, n % 10);
        s
    }
}

/// Render a signed integer in decimal.
pub fn i32_to_string(n: i32) -> (s: String)
    ensures
        s@ == spec_dec(n as int),
{
    if n < 0 {
        let mag: u64 = (-(n as i64)) as u64;
        let mut s = String::from_str("-");
        let digits = u64_to_string(mag);
        s.append(digits.as_str());
        proof {
            reveal_strlit("-");
            assert(s@ =~= spec_dec(n as int));
        }
        s
    } else {
        u64_to_string(n as u64)
    }
}

/// The summary line recorded when the core process terminates: its exit code
/// if one was observed, else the terminating signal if one was observed,
/// else a generic notice.
pub open spec fn spec_termination_message(code: Option<i32>, signal: Option<i32>) -> Seq<char> {
    if code is Some {
        "Process terminated with code: "@ + spec_dec(code->0 as int)
    } else if signal is Some {
        "Process terminated by signal: "@ + spec_dec(signal->0 as int)
    } else {
        "Process terminated"@
    }
}

/// Build the termination summary line.
pub fn termination_message(code: Option<i32>, signal: Option<i32>) -> (s: String)
    ensures
        s@ == spec_termination_message(code, signal),
{
    match code {
        Some(c) => {
            let mut s = String::from_str("Process terminated with code: ");
            let digits = i32_to_string(c);
            s.append(digits.as_str());
            s
        },
        None => match signal {
            Some(g) => {
                let mut s = String::from_str("Process terminated by signal: ");
                let digits = i32_to_string(g);
                s.append(digits.as_str());
                s
            },
            None => String::from_str("Process terminated"),
        },
    }
}

} // verus!
