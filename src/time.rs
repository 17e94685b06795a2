use chrono::{DateTime, Months, TimeDelta};
use vstd::prelude::*;

verus! {

/// Earliest representable timestamp, in seconds since the Unix epoch: the
/// start of the earliest representable day, in year 262144 BCE.
pub const MIN_TIMESTAMP: i64 = -8334601228800;

/// Latest representable timestamp, in whole seconds since the Unix epoch
/// (December 31st of year 262142, 23:59:59 UTC).
pub const MAX_TIMESTAMP: i64 = 8210266876799;

pub const SECS_PER_MINUTE: i64 = 60;
pub const SECS_PER_HOUR: i64 = 3600;
pub const SECS_PER_DAY: i64 = 86400;
pub const SECS_PER_WEEK: i64 = 604800;

/// Largest magnitude, in seconds, that a time delta can be built from.
pub const MAX_DELTA_SECS: i64 = 9223372036854775;

/// A point in time in UTC: whole seconds since the Unix epoch and the
/// nanoseconds past that second.
#[derive(Clone, Copy, Debug, PartialEq, Eq, Structural)]
pub struct UtcInstant {
    pub secs: i64,
    pub nanos: u32,
}

/// Whether `secs` lies inside the representable range.
pub open spec fn in_range(secs: int) -> bool {
    MIN_TIMESTAMP <= secs <= MAX_TIMESTAMP
}

impl UtcInstant {
    /// A well-formed instant lies in the representable range and has a
    /// sub-second part below one second.
    pub open spec fn wf(self) -> bool {
        in_range(self.secs as int) && self.nanos < 1_000_000_000
    }

    /// Builds an instant from its parts, when they describe one.
    pub fn from_parts(secs: i64, nanos: u32) -> (r: Option<UtcInstant>)
        ensures
            r == (if in_range(secs as int) && nanos < 1_000_000_000 {
                Some(UtcInstant { secs, nanos })
            } else {
                None
            }),
    {
        if MIN_TIMESTAMP <= secs && secs <= MAX_TIMESTAMP && nanos < 1_000_000_000 {
            Some(UtcInstant { secs, nanos })
        } else {
            None
        }
    }
}

/// The timestamp, in seconds, of the calendar date `months` months after the
/// instant at `secs`, keeping the time of day and moving to the last day of the
/// month where the day does not exist there; unbounded by the representable
/// range.
pub uninterp spec fn months_later_secs(secs: int, months: nat) -> int;

/// What adding `secs` seconds to `t` gives: the shifted instant if it stays in
/// range.
pub open spec fn shifted(t: UtcInstant, secs: int) -> Option<UtcInstant> {
    if in_range(t.secs + secs) {
        Some(UtcInstant { secs: (t.secs + secs) as i64, nanos: t.nanos })
    } else {
        None
    }
}

/// What adding `months` calendar months to `t` gives.
pub open spec fn shifted_months(t: UtcInstant, months: nat) -> Option<UtcInstant> {
    if months == 0 {
        Some(t)
    } else if months <= i32::MAX && in_range(months_later_secs(t.secs as int, months)) {
        Some(UtcInstant { secs: months_later_secs(t.secs as int, months) as i64, nanos: t.nanos })
    } else {
        None
    }
}

/// Relies on chrono's `DateTime::checked_add_signed` (with `TimeDelta::seconds`):
/// adds a whole number of seconds, and gives `None` when the result leaves the
/// representable range.
#[verifier::external_body]
fn checked_add_secs(t: UtcInstant, secs: i64) -> (r: Option<UtcInstant>)
    requires
        t.wf(),
        -MAX_DELTA_SECS <= secs <= MAX_DELTA_SECS,
    ensures
        r == shifted(t, secs as int),
{
    match DateTime::from_timestamp(t.secs, t.nanos) {
        Some(d) => match d.checked_add_signed(TimeDelta::seconds(secs)) {
            Some(n) => Some(UtcInstant { secs: n.timestamp(), nanos: n.timestamp_subsec_nanos() }),
            None => None,
        },
        None => None,
    }
}

/// Relies on chrono's `DateTime::checked_add_months` (with `Months::new`): moves
/// by calendar months, clamping the day to the month's end, and gives `None`
/// when the result leaves the representable range.
#[verifier::external_body]
fn checked_add_months(t: UtcInstant, months: u32) -> (r: Option<UtcInstant>)
    requires
        t.wf(),
    ensures
        months == 0 ==> r == Some(t),
        months != 0 ==> r == (if months <= i32::MAX && in_range(
            months_later_secs(t.secs as int, months as nat),
        ) {
            Some(UtcInstant { secs: months_later_secs(t.secs as int, months as nat) as i64, nanos: t.nanos })
        } else {
            None
        }),
        // every month is at least 28 days long
        28 * SECS_PER_DAY * months > MAX_TIMESTAMP - t.secs ==> r is None,
{
    match DateTime::from_timestamp(t.secs, t.nanos) {
        Some(d) => match d.checked_add_months(Months::new(months)) {
            Some(n) => Some(UtcInstant { secs: n.timestamp(), nanos: n.timestamp_subsec_nanos() }),
            None => None,
        },
        None => None,
    }
}

/// The duration exceeds what can be represented.
#[derive(Clone, Copy, Debug, PartialEq, Eq, Structural)]
pub struct RangeError;

impl RangeError {
    /// The text reported to whoever asked for the duration.
    pub fn message(&self) -> (r: &'static str)
        ensures
            r@ == "Dunce time out of maximum range"@,
    {
        "Dunce time out of maximum range"
    }
}

/// The units a suspension length may be given in.
#[derive(Clone, Copy, Debug, PartialEq, Eq, Structural)]
pub enum TimeUnits {
    Minutes,
    Hours,
    Days,
    Weeks,
    Months,
}

impl TimeUnits {
    /// Seconds in one unit; months have no fixed length.
    pub open spec fn unit_secs(self) -> int {
        match self {
            TimeUnits::Minutes => SECS_PER_MINUTE as int,
            TimeUnits::Hours => SECS_PER_HOUR as int,
            TimeUnits::Days => SECS_PER_DAY as int,
            TimeUnits::Weeks => SECS_PER_WEEK as int,
            TimeUnits::Months => 0,
        }
    }

    /// The instant `amount` units after `time`, if it is representable.
    pub open spec fn delta_spec(self, time: UtcInstant, amount: nat) -> Option<UtcInstant> {
        match self {
            TimeUnits::Months => shifted_months(time, amount),
            _ => shifted(time, amount * self.unit_secs()),
        }
    }

    /// Moves `time` forward by `amount` units, failing when the result would
    /// fall outside the representable range.
    pub fn apply_delta(&self, time: UtcInstant, amount: u32) -> (r: Result<UtcInstant, RangeError>)
        requires
            time.wf(),
        ensures
            r matches Ok(t) ==> self.delta_spec(time, amount as nat) == Some(t) && t.wf(),
            r is Err <==> self.delta_spec(time, amount as nat) is None,
            *self == TimeUnits::Months && amount >= 7_000_000 ==> r is Err,
    {
        let res = match self {
            TimeUnits::Minutes => checked_add_secs(time, amount as i64 * SECS_PER_MINUTE),
            TimeUnits::Hours => checked_add_secs(time, amount as i64 * SECS_PER_HOUR),
            TimeUnits::Days => checked_add_secs(time, amount as i64 * SECS_PER_DAY),
            TimeUnits::Weeks => checked_add_secs(time, amount as i64 * SECS_PER_WEEK),
            TimeUnits::Months => checked_add_months(time, amount),
        };
        proof {
            if *self == TimeUnits::Months && amount >= 7_000_000 {
                assert(28 * SECS_PER_DAY * (amount as nat) >= 28 * SECS_PER_DAY * 7_000_000)
                    by (nonlinear_arith)
                    requires amount >= 7_000_000;
            }
        }
        match res {
            Some(t) => Ok(t),
            None => Err(RangeError),
        }
    }
}

} // verus!
