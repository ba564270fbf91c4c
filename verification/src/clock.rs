//! Moments in coordinated universal time, as the interface shows and compares
//! them.

use chrono::DateTime;
use vstd::prelude::*;
use crate::text::padded_text;

verus! {

/// A moment: whole seconds since the start of 1970, and nanoseconds since then.
#[derive(Clone, Copy, Debug, PartialEq, Eq, Structural)]
pub struct TraceTime {
    /// Whole seconds.
    pub seconds: i64,
    /// Nanoseconds of the second.
    pub nanos: u32,
}

impl TraceTime {
    /// Whether the calendar holds the moment: its years are -262143 to 262142.
    pub open spec fn is_valid(self) -> bool {
        -8_334_601_228_800 <= self.seconds <= 8_210_266_876_799 && self.nanos < 1_000_000_000
    }

    /// The nanoseconds since the start of 1970.
    pub open spec fn total_nanos(self) -> int {
        self.seconds * 1_000_000_000 + self.nanos
    }

    /// Whether the moment is no later than another.
    pub open spec fn no_later_than(self, other: TraceTime) -> bool {
        self.seconds < other.seconds || (self.seconds == other.seconds && self.nanos <= other.nanos)
    }

    /// Whether the moment is no later than another.
    pub fn is_no_later_than(&self, other: &TraceTime) -> (result: bool)
        ensures
            result == self.no_later_than(*other),
    {
        self.seconds < other.seconds || (self.seconds == other.seconds && self.nanos <= other.nanos)
    }
}

/// `DateTime::timestamp_nanos_opt` counts the nanoseconds of a moment; it gives
/// nothing where they do not fit into 64 bits.
#[verifier::external_body]
pub(crate) fn timestamp_nanos(time: TraceTime) -> (result: Option<i64>)
    requires
        time.is_valid(),
    ensures
        result == (if i64::MIN <= time.total_nanos() <= i64::MAX {
            Some(time.total_nanos() as i64)
        } else {
            None
        }),
{
    DateTime::from_timestamp(time.seconds, time.nanos).unwrap().timestamp_nanos_opt()
}

/// `DateTime::timestamp_micros` counts the whole microseconds of a moment.
#[verifier::external_body]
pub(crate) fn timestamp_micros(time: TraceTime) -> (result: i64)
    requires
        time.is_valid(),
    ensures
        result == time.seconds * 1_000_000 + time.nanos as int / 1_000,
{
    DateTime::from_timestamp(time.seconds, time.nanos).unwrap().timestamp_micros()
}

/// The time of day of a moment, as hours, minutes and seconds.
pub open spec fn time_of_day(time: TraceTime) -> Seq<char> {
    let second = time.seconds as int % 86_400;
    padded_text((second / 3_600) as nat, 2) + seq![':'] + padded_text(
        (second / 60 % 60) as nat,
        2,
    ) + seq![':'] + padded_text((second % 60) as nat, 2)
}

/// `DateTime::format` with `%H:%M:%S` writes the time of day of a moment, each
/// part with two digits.
#[verifier::external_body]
pub(crate) fn clock_text(time: TraceTime) -> (result: String)
    requires
        time.is_valid(),
    ensures
        result@ == time_of_day(time),
{
    DateTime::from_timestamp(time.seconds, time.nanos).unwrap().format("%H:%M:%S").to_string()
}

/// The number by which a moment is known: its nanoseconds, or its microseconds
/// where the nanoseconds do not fit into 64 bits.
pub open spec fn moment_id(time: TraceTime) -> i64 {
    if i64::MIN <= time.total_nanos() <= i64::MAX {
        time.total_nanos() as i64
    } else {
        (time.seconds * 1_000_000 + time.nanos as int / 1_000) as i64
    }
}

/// The number by which a moment is known.
pub fn moment_number(time: TraceTime) -> (result: i64)
    requires
        time.is_valid(),
    ensures
        result == moment_id(time),
{
    match timestamp_nanos(time) {
        Some(nanos) => nanos,
        None => timestamp_micros(time),
    }
}

/// Two moments whose nanoseconds fit into 64 bits are known by the same number
/// only where they are the same.
pub proof fn law_moment_numbers_are_distinct(first: TraceTime, second: TraceTime)
    requires
        first.is_valid(),
        second.is_valid(),
        i64::MIN <= first.total_nanos() <= i64::MAX,
        i64::MIN <= second.total_nanos() <= i64::MAX,
        moment_id(first) == moment_id(second),
    ensures
        first == second,
{
}

} // verus!
