//! How long a track lasts, from what a probe of its file reports: the time
//! base and frame count of each of its streams.

use vstd::prelude::*;

verus! {

/// Nanoseconds in one second.
pub const NANOS_PER_SEC: u128 = 1_000_000_000;

/// The longest time, in nanoseconds, that the player holds: `u64::MAX`
/// seconds and 999,999,999 nanoseconds (the longest `std::time::Duration`).
pub const MAX_DURATION_NANOS: u128 = 18_446_744_073_709_551_615_999_999_999;

/// The duration given to a track whose first stream does not tell its
/// length: three minutes, in nanoseconds.
pub const FALLBACK_TRACK_NANOS: u128 = 180_000_000_000;

/// The length of one frame of a stream: `numer / denom` seconds, with a
/// nonzero denominator.
#[derive(Clone, Copy, Debug)]
pub struct TimeBase {
    numer: u32,
    denom: u32,
}

impl View for TimeBase {
    type V = (u32, u32);

    closed spec fn view(&self) -> (u32, u32) {
        (self.numer, self.denom)
    }
}

impl TimeBase {
    #[verifier::type_invariant]
    spec fn denominator_nonzero(self) -> bool {
        self.denom > 0
    }

    /// The time base `numer / denom` seconds; `None` where `denom` is zero.
    pub fn new(numer: u32, denom: u32) -> (res: Option<TimeBase>)
        ensures
            match res {
                Some(t) => denom > 0 && t@ == (numer, denom),
                None => denom == 0,
            },
    {
        if denom == 0 {
            None
        } else {
            Some(TimeBase { numer, denom })
        }
    }

    /// The numerator.
    pub fn numer(&self) -> (res: u32)
        ensures
            res == self@.0,
    {
        self.numer
    }

    /// The denominator, never zero.
    pub fn denom(&self) -> (res: u32)
        ensures
            res == self@.1,
            res > 0,
    {
        proof {
            use_type_invariant(self);
        }
        self.denom
    }
}

/// What a probe reports of one stream of a media file: its time base and
/// its number of frames, each where known.
#[derive(Clone, Copy, Debug)]
pub struct TrackTiming {
    pub time_base: Option<TimeBase>,
    pub n_frames: Option<u64>,
}

/// `a / b` rounded to the nearest whole number, halves up.
pub open spec fn round_div(a: nat, b: nat) -> nat
    recommends
        b > 0,
{
    ((2 * a + b) / (2 * b)) as nat
}

/// The length, in nanoseconds rounded to the nearest, of `n_frames` frames
/// of `numer / denom` seconds each.
pub open spec fn frames_nanos(n_frames: u64, numer: u32, denom: u32) -> nat
    recommends
        denom > 0,
{
    round_div((n_frames as nat) * (numer as nat) * (NANOS_PER_SEC as nat), denom as nat)
}

/// Whether a stream's timing gives a duration that a `Duration` holds: at
/// most `MAX_DURATION_NANOS` (a longer one cannot be made).
pub open spec fn timing_fits(t: TrackTiming) -> bool {
    match (t.time_base, t.n_frames) {
        (Some(tb), Some(n)) => frames_nanos(n, tb@.0, tb@.1) <= MAX_DURATION_NANOS,
        _ => true,
    }
}

/// Whether the duration a probe report gives a track is one that a
/// `Duration` holds (see `timing_fits`).
pub open spec fn probe_fits(p: Option<Seq<TrackTiming>>) -> bool {
    match p {
        Some(ts) => ts.len() > 0 ==> timing_fits(ts[0]),
        None => true,
    }
}

/// The duration, in nanoseconds, that a stream's timing gives a track: its
/// frames times its time base where both are known, else three minutes.
pub open spec fn duration_of_timing(t: TrackTiming) -> u128 {
    match (t.time_base, t.n_frames) {
        (Some(tb), Some(n)) => frames_nanos(n, tb@.0, tb@.1) as u128,
        _ => FALLBACK_TRACK_NANOS,
    }
}

/// The duration, in nanoseconds, that a probe report gives a track: none
/// where the file could not be read or its format was not recognised
/// (`None`); that of its first stream; three minutes where it has none.
pub open spec fn duration_of_probe(p: Option<Seq<TrackTiming>>) -> Option<u128> {
    match p {
        None => None,
        Some(ts) => if ts.len() == 0 {
            Some(FALLBACK_TRACK_NANOS)
        } else {
            Some(duration_of_timing(ts[0]))
        },
    }
}

/// The view of a probe report.
pub open spec fn probe_view(p: Option<Vec<TrackTiming>>) -> Option<Seq<TrackTiming>> {
    match p {
        Some(v) => Some(v@),
        None => None,
    }
}

/// The length of `n_frames` frames of `numer / denom` seconds each, in
/// nanoseconds rounded to the nearest; or `None` where that is longer than a
/// `Duration` holds.
fn frames_to_nanos_checked(n_frames: u64, numer: u32, denom: u32) -> (res: Option<u128>)
    requires
        denom > 0,
    ensures
        match res {
            Some(x) => x == frames_nanos(n_frames, numer, denom) && x <= MAX_DURATION_NANOS,
            None => frames_nanos(n_frames, numer, denom) > MAX_DURATION_NANOS,
        },
{
    let a: u128 = n_frames as u128;
    let b: u128 = numer as u128;
    assert(a * b <= 0xffff_ffff_ffff_ffffu128 * 0xffff_ffffu128) by (nonlinear_arith)
        requires
            a <= 0xffff_ffff_ffff_ffffu128,
            b <= 0xffff_ffffu128,
            0 <= a,
            0 <= b,
    ;
    let ab: u128 = a * b;
    assert(ab * 2_000_000_000u128 <= 0xffff_ffff_ffff_ffffu128 * 0xffff_ffffu128 * 2_000_000_000u128)
        by (nonlinear_arith)
        requires
            ab <= 0xffff_ffff_ffff_ffffu128 * 0xffff_ffffu128,
            0 <= ab,
    ;
    let twice: u128 = ab * 2_000_000_000u128;
    let d: u128 = denom as u128;
    let q: u128 = (twice + d) / (2 * d);
    if q > MAX_DURATION_NANOS {
        None
    } else {
        Some(q)
    }
}

/// The length of `n_frames` frames of `numer / denom` seconds each, in
/// nanoseconds rounded to the nearest.
pub fn frames_to_nanos(n_frames: u64, numer: u32, denom: u32) -> (res: u128)
    requires
        denom > 0,
        frames_nanos(n_frames, numer, denom) <= MAX_DURATION_NANOS,
    ensures
        res == frames_nanos(n_frames, numer, denom),
{
    frames_to_nanos_checked(n_frames, numer, denom).unwrap()
}

/// Whether a stream's timing gives a duration that a `Duration` holds (see
/// `timing_fits`).
pub fn timing_in_range(t: &TrackTiming) -> (res: bool)
    ensures
        res == timing_fits(*t),
{
    match (&t.time_base, t.n_frames) {
        (Some(tb), Some(n)) => frames_to_nanos_checked(n, tb.numer(), tb.denom()).is_some(),
        _ => true,
    }
}

/// Whether the duration a probe report gives a track is one that a
/// `Duration` holds (see `probe_fits`).
pub fn probe_in_range(p: &Option<Vec<TrackTiming>>) -> (res: bool)
    ensures
        res == probe_fits(probe_view(*p)),
{
    match p {
        Some(ts) => if ts.len() > 0 {
            timing_in_range(&ts[0])
        } else {
            true
        },
        None => true,
    }
}

/// The duration a stream's timing gives a track (see `duration_of_timing`).
pub fn duration_from_timing(t: &TrackTiming) -> (res: u128)
    requires
        timing_fits(*t),
    ensures
        res == duration_of_timing(*t),
{
    match (&t.time_base, t.n_frames) {
        (Some(tb), Some(n)) => frames_to_nanos(n, tb.numer(), tb.denom()),
        _ => FALLBACK_TRACK_NANOS,
    }
}

/// The duration a probe report gives a track (see `duration_of_probe`).
pub fn duration_from_probe(p: &Option<Vec<TrackTiming>>) -> (res: Option<u128>)
    requires
        probe_fits(probe_view(*p)),
    ensures
        res == duration_of_probe(probe_view(*p)),
{
    match p {
        None => None,
        Some(ts) => if ts.len() == 0 {
            Some(FALLBACK_TRACK_NANOS)
        } else {
            Some(duration_from_timing(&ts[0]))
        },
    }
}

} // verus!
