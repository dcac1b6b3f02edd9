//! Times as the player's controls use them: rewinding and fast-forwarding
//! by a step of seconds, the "MM:SS" labels, and the length a track shows.

use crate::media::{FALLBACK_TRACK_NANOS, MAX_DURATION_NANOS, NANOS_PER_SEC};
use crate::track::{Track, TrackView};
use vstd::prelude::*;

verus! {

/// The position `step_secs` seconds before `position` (nanoseconds), or
/// zero where that is before the start.
pub open spec fn back_target(position: u128, step_secs: u64) -> u128 {
    let step = step_secs * NANOS_PER_SEC;
    if position >= step {
        (position - step) as u128
    } else {
        0
    }
}

/// The position `step_secs` seconds after `position` (nanoseconds).
pub open spec fn forward_target(position: u128, step_secs: u64) -> nat {
    (position + step_secs * NANOS_PER_SEC) as nat
}

/// Where the rewind control seeks: `step_secs` seconds back, or the start.
pub fn seek_back_target(position: u128, step_secs: u64) -> (res: u128)
    ensures
        res == back_target(position, step_secs),
{
    let step: u128 = step_secs as u128 * NANOS_PER_SEC;
    if position >= step {
        position - step
    } else {
        0
    }
}

/// Where the fast-forward control seeks: `step_secs` seconds on (the seek
/// itself caps it at the track's limit). The sum must be a time that a
/// `Duration` holds.
pub fn seek_forward_target(position: u128, step_secs: u64) -> (res: u128)
    requires
        forward_target(position, step_secs) <= MAX_DURATION_NANOS,
    ensures
        res == forward_target(position, step_secs),
{
    position + step_secs as u128 * NANOS_PER_SEC
}

/// The character of a decimal digit.
pub open spec fn digit_char(d: nat) -> char {
    if d == 0 {
        '0'
    } else if d == 1 {
        '1'
    } else if d == 2 {
        '2'
    } else if d == 3 {
        '3'
    } else if d == 4 {
        '4'
    } else if d == 5 {
        '5'
    } else if d == 6 {
        '6'
    } else if d == 7 {
        '7'
    } else if d == 8 {
        '8'
    } else {
        '9'
    }
}

/// The decimal digits of `n`, without leading zeros.
pub open spec fn decimal(n: nat) -> Seq<char>
    decreases n,
{
    if n < 10 {
        seq![digit_char(n)]
    } else {
        decimal(n / 10).push(digit_char(n % 10))
    }
}

/// `n` in decimal, padded with a zero to two digits at least.
pub open spec fn two_digits(n: nat) -> Seq<char> {
    if n < 10 {
        seq!['0'] + decimal(n)
    } else {
        decimal(n)
    }
}

/// The "MM:SS" label of a time in nanoseconds: whole minutes and the
/// seconds past them, each at least two digits.
pub open spec fn clock_text(nanos: u128) -> Seq<char> {
    let secs = nanos / NANOS_PER_SEC;
    two_digits((secs / 60) as nat) + seq![':'] + two_digits((secs % 60) as nat)
}

fn digit_str(d: u128) -> (res: &'static str)
    requires
        d < 10,
    ensures
        res@ == seq![digit_char(d as nat)],
{
    proof {
        reveal_strlit("0");
        reveal_strlit("1");
        reveal_strlit("2");
        reveal_strlit("3");
        reveal_strlit("4");
        reveal_strlit("5");
        reveal_strlit("6");
        reveal_strlit("7");
        reveal_strlit("8");
        reveal_strlit("9");
    }
    let r = if d == 0 {
        "0"
    } else if d == 1 {
        "1"
    } else if d == 2 {
        "2"
    } else if d == 3 {
        "3"
    } else if d == 4 {
        "4"
    } else if d == 5 {
        "5"
    } else if d == 6 {
        "6"
    } else if d == 7 {
        "7"
    } else if d == 8 {
        "8"
    } else {
        "9"
    };
    assert(r@ =~= seq![digit_char(d as nat)]);
    r
}

fn push_decimal(s: &mut String, n: u128)
    ensures
        final(s)@ == old(s)@ + decimal(n as nat),
    decreases n,
{
    if n >= 10 {
        push_decimal(s, n / 10);
    }
    s.append(digit_str(n % 10));
    assert(s@ =~= old(s)@ + decimal(n as nat));
}

fn push_two_digits(s: &mut String, n: u128)
    ensures
        final(s)@ == old(s)@ + two_digits(n as nat),
{
    if n < 10 {
        proof {
            reveal_strlit("0");
        }
        s.append("0");
        push_decimal(s, n);
        assert(s@ =~= old(s)@ + two_digits(n as nat));
    } else {
        push_decimal(s, n);
    }
}

/// The "MM:SS" label of a time in nanoseconds (see `clock_text`).
pub fn clock_label(nanos: u128) -> (res: String)
    ensures
        res@ == clock_text(nanos),
{
    let secs = nanos / NANOS_PER_SEC;
    let mut s = String::new();
    push_two_digits(&mut s, secs / 60);
    proof {
        reveal_strlit(":");
    }
    s.append(":");
    push_two_digits(&mut s, secs % 60);
    assert(s@ =~= clock_text(nanos));
    s
}

/// The length a track shows: its duration, or three minutes where that is
/// unknown.
pub open spec fn shown_length(t: TrackView) -> u128 {
    match t.duration {
        Some(d) => d,
        None => FALLBACK_TRACK_NANOS,
    }
}

/// The length a track shows (see `shown_length`).
pub fn track_length(track: &Track) -> (res: u128)
    ensures
        res == shown_length(track@),
{
    match track.duration {
        Some(d) => d,
        None => FALLBACK_TRACK_NANOS,
    }
}

} // verus!
