//! Millisecond-resolution media timestamps and durations.

use vstd::prelude::*;

use vstd::string::StringExecFns;

use crate::text::{push_pad2, push_pad3, spec_pad2, spec_pad3};

verus! {

/// The canonical display text of a non-negative time value:
/// zero-padded `MM:SS.mmm`, or `HH:MM:SS.mmm` from one hour on.
pub open spec fn spec_time_text(ms: nat) -> Seq<char> {
    let total = ms / 1000;
    let z = ms % 1000;
    let s = total % 60;
    let m = (total / 60) % 60;
    let h = total / 3600;
    if h == 0 {
        spec_pad2(m) + ":"@ + spec_pad2(s) + "."@ + spec_pad3(z)
    } else {
        spec_pad2(h) + ":"@ + spec_pad2(m) + ":"@ + spec_pad2(s) + "."@ + spec_pad3(z)
    }
}

/// Reason a rational time base could not be turned into a time value.
#[derive(Clone, Copy, Debug, PartialEq, Eq, Structural)]
pub enum MediaTimeError {
    TimebaseNumeratorMissing,
    TimebaseDenominatorMissing,
    TimebaseDenominatorInvalid,
}

/// Error value for a time base that cannot be used at all.
#[derive(Clone, Copy, Debug, PartialEq, Eq, Structural)]
pub struct TimeBaseError;

impl TimeBaseError {
    /// Human-readable description of the error.
    pub fn message(&self) -> (r: &'static str)
        ensures
            r@ == "invalid time base"@,
    {
        "invalid time base"
    }
}

/// A stream time base: a rational number of seconds per timestamp unit.
///
/// Only the parts the conversion logic reads are kept: the numerator and
/// denominator, either of which may be absent (a degenerate rational).
#[derive(Clone, Copy, Debug)]
pub struct TimeBase {
    pub numer: Option<u64>,
    pub denom: Option<u64>,
}

impl TimeBase {
    /// A well-formed time base with the given numerator and denominator.
    pub fn new(numer: u64, denom: u64) -> (r: TimeBase)
        ensures
            r.numer == Some(numer),
            r.denom == Some(denom),
    {
        TimeBase { numer: Some(numer), denom: Some(denom) }
    }
}

/// Integer division truncating toward zero (the semantics of Rust's `/` on
/// signed integers), for a positive divisor.
pub open spec fn spec_trunc_div(a: int, b: int) -> int {
    if a >= 0 {
        a / b
    } else {
        -((-a) / b)
    }
}

/// The millisecond value `from_rational` produces for a timestamp and a
/// time base `numer / denom`.
pub open spec fn spec_scaled_millis(timestamp: int, numer: int, denom: int) -> int {
    spec_trunc_div(1000 * timestamp * numer, denom)
}

/// A time base that `from_rational` accepts: both parts present, nonzero
/// denominator.
pub open spec fn tb_valid(b: TimeBase) -> bool {
    b.numer is Some && b.denom is Some && b.denom != Some(0u64)
}

/// The numerator of a time base (0 when absent).
pub open spec fn tb_num(b: TimeBase) -> int {
    match b.numer {
        Some(n) => n as int,
        None => 0,
    }
}

/// The denominator of a time base (0 when absent).
pub open spec fn tb_den(b: TimeBase) -> int {
    match b.denom {
        Some(d) => d as int,
        None => 0,
    }
}

/// A time value with millisecond resolution.
#[derive(Clone, Copy, Debug, PartialEq, Eq, PartialOrd, Ord, Structural)]
pub struct MediaTime {
    pub millis: i64,
}

impl MediaTime {
    /// Converts a stream timestamp through its rational time base into
    /// milliseconds: `1000 * timestamp * numer / denom`, truncated toward
    /// zero.  Degenerate time bases are rejected with the matching error.
    pub fn from_rational(timestamp: i64, base: &TimeBase) -> (r: Result<MediaTime, MediaTimeError>)
        requires
            tb_valid(*base) ==> {
                &&& -(i128::MAX as int) <= 1000 * (timestamp as int) * tb_num(*base)
                    <= i128::MAX as int
                &&& i64::MIN as int <= spec_scaled_millis(
                    timestamp as int,
                    tb_num(*base),
                    tb_den(*base),
                ) <= i64::MAX as int
            },
        ensures
            base.numer is None ==> r == Err::<MediaTime, MediaTimeError>(
                MediaTimeError::TimebaseNumeratorMissing,
            ),
            base.numer is Some && base.denom is None ==> r == Err::<MediaTime, MediaTimeError>(
                MediaTimeError::TimebaseDenominatorMissing,
            ),
            base.numer is Some && base.denom == Some(0u64) ==> r == Err::<MediaTime, MediaTimeError>(
                MediaTimeError::TimebaseDenominatorInvalid,
            ),
            tb_valid(*base) ==> (r matches Ok(t) && t.millis == spec_scaled_millis(
                timestamp as int,
                tb_num(*base),
                tb_den(*base),
            )),
    {
        let num: u64 = match base.numer {
            Some(n) => n,
            None => { return Err(MediaTimeError::TimebaseNumeratorMissing); },
        };
        let den: u64 = match base.denom {
            Some(d) => d,
            None => { return Err(MediaTimeError::TimebaseDenominatorMissing); },
        };
        if den == 0 {
            return Err(MediaTimeError::TimebaseDenominatorInvalid);
        }

        let t128: i128 = timestamp as i128;
        let neg: bool = timestamp < 0;
        let mag: u128 = if neg {
            (-t128) as u128
        } else {
            t128 as u128
        };
        proof {
            assert(1000 * mag * (num as u128) <= i128::MAX as int) by (nonlinear_arith)
                requires
                    mag == if timestamp < 0 { -(timestamp as int) } else { timestamp as int },
                    -(i128::MAX as int) <= 1000 * (timestamp as int) * (num as int)
                        <= i128::MAX as int,
            ;
        }
        let prod: u128 = 1000u128 * mag * (num as u128);
        let q: u128 = prod / (den as u128);
        proof {
            assert(spec_scaled_millis(timestamp as int, num as int, den as int) == if neg {
                -(q as int)
            } else {
                q as int
            }) by (nonlinear_arith)
                requires
                    den != 0,
                    mag == if timestamp < 0 { -(timestamp as int) } else { timestamp as int },
                    neg == (timestamp < 0),
                    prod == 1000 * (mag as int) * (num as int),
                    q == (prod as int) / (den as int),
                    spec_scaled_millis(timestamp as int, num as int, den as int) == spec_trunc_div(
                        1000 * (timestamp as int) * (num as int),
                        den as int,
                    ),
            ;
        }
        let millis: i64 = if neg {
            if q == (i64::MAX as u128) + 1 {
                i64::MIN
            } else {
                -(q as i64)
            }
        } else {
            q as i64
        };
        Ok(MediaTime { millis })
    }

    /// A time value of exactly `timestamp` milliseconds.
    pub fn from_millis(timestamp: i64) -> (r: MediaTime)
        ensures
            r.millis == timestamp,
    {
        MediaTime { millis: timestamp }
    }

    /// A time value of exactly `timestamp` seconds.
    pub fn from_seconds(timestamp: i64) -> (r: MediaTime)
        requires
            i64::MIN as int <= 1000 * timestamp <= i64::MAX as int,
        ensures
            r.millis == 1000 * timestamp,
    {
        MediaTime { millis: timestamp * 1000 }
    }

    /// True exactly for the zero time value.
    pub fn is_zero(&self) -> (r: bool)
        ensures
            r == (self.millis == 0),
    {
        self.millis == 0
    }

    /// Whole seconds, truncated toward zero.
    pub fn seconds(&self) -> (r: i64)
        requires
            self.millis != i64::MIN,
        ensures
            r == spec_trunc_div(self.millis as int, 1000),
    {
        if self.millis >= 0 {
            (self.millis as u64 / 1000u64) as i64
        } else {
            -(((-self.millis) as u64 / 1000u64) as i64)
        }
    }

    /// The full millisecond count.
    pub fn milliseconds(&self) -> (r: i64)
        ensures
            r == self.millis,
    {
        self.millis
    }

    /// Sum of two time values.
    pub fn plus(self, other: MediaTime) -> (r: MediaTime)
        requires
            i64::MIN as int <= self.millis + other.millis <= i64::MAX as int,
        ensures
            r.millis == self.millis + other.millis,
    {
        MediaTime { millis: self.millis + other.millis }
    }

    /// The display text of a non-negative time value, as used in cue files:
    /// zero-padded `MM:SS.mmm`, or `HH:MM:SS.mmm` from one hour on.
    pub fn to_display(&self) -> (r: String)
        requires
            self.millis >= 0,
        ensures
            r@ == spec_time_text(self.millis as nat),
    {
        let ms: u64 = self.millis as u64;
        let total: u64 = ms / 1000;
        let z: u64 = ms % 1000;
        let sec: u64 = total % 60;
        let min: u64 = (total / 60) % 60;
        let hr: u64 = total / 3600;
        let mut out = String::new();
        if hr == 0 {
            push_pad2(&mut out, min);
            out.append(":");
            push_pad2(&mut out, sec);
            out.append(".");
            push_pad3(&mut out, z);
        } else {
            push_pad2(&mut out, hr);
            out.append(":");
            push_pad2(&mut out, min);
            out.append(":");
            push_pad2(&mut out, sec);
            out.append(".");
            push_pad3(&mut out, z);
        }
        proof {
            assert(out@ =~= spec_time_text(self.millis as nat));
        }
        out
    }

    /// Difference of two time values.
    pub fn minus(self, other: MediaTime) -> (r: MediaTime)
        requires
            i64::MIN as int <= self.millis - other.millis <= i64::MAX as int,
        ensures
            r.millis == self.millis - other.millis,
    {
        MediaTime { millis: self.millis - other.millis }
    }
}

} // verus!
