use vstd::prelude::*;
use std::time::{Duration, SystemTime};
use crate::state::{non_negative, MatchState};

verus! {

#[verifier::external_type_specification]
#[verifier::external_body]
pub struct ExSystemTime(SystemTime);

/// Reads the system clock with `std::time::SystemTime::now`. Nothing is
/// stated of the reading: it depends on the machine's clock.
#[verifier::external_body]
fn system_time_now() -> SystemTime {
    SystemTime::now()
}

/// `SystemTime::duration_since(UNIX_EPOCH)`: the time elapsed since the Unix
/// epoch, or `None` where `t` lies before it. Nothing is stated of the
/// duration: it comes from a reading of the machine's clock.
#[verifier::external_body]
fn since_unix_epoch(t: &SystemTime) -> Option<Duration> {
    match t.duration_since(std::time::UNIX_EPOCH) {
        Ok(d) => Some(d),
        Err(_) => None,
    }
}

/// `Duration::as_secs`: the whole seconds of a duration. Nothing is stated
/// of the count, since nothing is known of a duration's contents here.
#[verifier::external_body]
fn whole_seconds(d: &Duration) -> u64 {
    d.as_secs()
}

/// A Unix timestamp from a count of seconds since the epoch: the count taken
/// as an `i64` (wrapping like `as`), or 0 where the clock read before the
/// epoch.
pub fn timestamp_of(secs: Option<u64>) -> (r: i64)
    ensures
        r == match secs {
            Some(s) => s as i64,
            None => 0i64,
        },
{
    match secs {
        Some(s) => s as i64,
        None => 0,
    }
}

/// The current Unix timestamp in seconds (0 if the system clock reads
/// before 1970).
pub fn now() -> i64 {
    let secs = match since_unix_epoch(&system_time_now()) {
        Some(d) => Some(whole_seconds(&d)),
        None => None,
    };
    timestamp_of(secs)
}

/// The character of a decimal digit.
pub open spec fn digit_char(d: int) -> char {
    (48 + d) as char
}

/// The decimal digits of `n`, without leading zeros.
pub open spec fn decimal(n: nat) -> Seq<char>
    decreases n,
{
    if n < 10 {
        seq![digit_char(n as int)]
    } else {
        decimal(n / 10).push(digit_char((n % 10) as int))
    }
}

/// `n` in decimal, padded with a leading zero to at least two digits.
pub open spec fn two_digits(n: nat) -> Seq<char> {
    if n < 10 {
        seq!['0', digit_char(n as int)]
    } else {
        decimal(n)
    }
}

/// The clock face of a match time: minutes and seconds, each at least two
/// digits, a negative time showing as 00:00.
pub open spec fn clock_text(sec: int) -> Seq<char> {
    let s = non_negative(sec);
    two_digits((s / 60) as nat) + seq![':'] + two_digits((s % 60) as nat)
}

/// The text of one decimal digit.
fn digit_text(d: u64) -> (r: &'static str)
    requires
        d < 10,
    ensures
        r@ == seq![digit_char(d as int)],
{
    proof {
        reveal_strlit("0");
        reveal_strlit("1");
        reveal_strlit("2");
        reveal_strlit("3");
        reveal_strlit("4");
        reveal_strlit("5");
        reveal_strlit("6");
        reveal_strlit("7");
        reveal_strlit("8");
        reveal_strlit("9");
    }
    match d {
        0 => "0",
        1 => "1",
        2 => "2",
        3 => "3",
        4 => "4",
        5 => "5",
        6 => "6",
        7 => "7",
        8 => "8",
        _ => "9",
    }
}

/// Append `n` in decimal.
fn push_decimal(out: &mut String, n: u64)
    ensures
        final(out)@ == old(out)@ + decimal(n as nat),
    decreases n,
{
    if n >= 10 {
        push_decimal(out, n / 10);
    }
    out.append(digit_text(n % 10));
    proof {
        if n >= 10 {
            assert(decimal(n as nat) == decimal((n / 10) as nat).push(digit_char((n % 10) as int)));
        }
        assert(final(out)@ =~= old(out)@ + decimal(n as nat));
    }
}

/// Append `n` in decimal, padded to at least two digits.
fn push_two_digits(out: &mut String, n: u64)
    ensures
        final(out)@ == old(out)@ + two_digits(n as nat),
{
    proof {
        reveal_strlit("0");
    }
    if n < 10 {
        out.append("0");
    }
    push_decimal(out, n);
    proof {
        assert(final(out)@ =~= old(out)@ + two_digits(n as nat));
    }
}

/// The clock face `MM:SS` of a match time in seconds; minutes past 99 take
/// more digits, a negative time reads 00:00.
pub fn fmt_clock(sec: i64) -> (r: String)
    ensures
        r@ == clock_text(sec as int),
{
    let s: i64 = if sec > 0 {
        sec
    } else {
        0
    };
    let mut out = String::new();
    push_two_digits(&mut out, (s / 60) as u64);
    proof {
        reveal_strlit(":");
    }
    out.append(":");
    push_two_digits(&mut out, (s % 60) as u64);
    proof {
        assert(out@ =~= clock_text(sec as int));
    }
    out
}

impl MatchState {
    /// The score line `H : A` shown on the board.
    pub open spec fn score_text(&self) -> Seq<char> {
        decimal(self.home_score as nat) + " : "@ + decimal(self.away_score as nat)
    }

    /// The score line `H : A` shown on the board.
    pub fn score_line(&self) -> (r: String)
        ensures
            r@ == self.score_text(),
    {
        let mut out = String::new();
        push_decimal(&mut out, self.home_score as u64);
        out.append(" : ");
        push_decimal(&mut out, self.away_score as u64);
        proof {
            assert(out@ =~= self.score_text());
        }
        out
    }
}

} // verus!
