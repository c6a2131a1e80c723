//! Timestamps and the two textual patterns in which the database reads them.

use vstd::prelude::*;

verus! {

/// Unix time of the first second the calendar holds: midnight, 1 January -262143, UTC.
pub const MIN_SECONDS: i64 = -8_334_601_228_800;

/// Unix time of the last second the calendar holds: 23:59:59, 31 December 262142, UTC.
pub const MAX_SECONDS: i64 = 8_210_266_876_799;

/// An offset from UTC lies strictly within one day, in seconds, on either side.
pub const OFFSET_LIMIT: i32 = 86_400;

/// Nanoseconds in a second. A nanosecond field at or above it denotes a leap second.
pub const NANOS_PER_SECOND: u32 = 1_000_000_000;

/// The mathematical value of a [`Timestamp`]: an instant on the UTC time line
/// together with the offset of the zone in which it is written down.
pub struct Instant {
    /// Whole seconds since 1970-01-01T00:00:00 UTC, leap seconds not counted.
    pub seconds: int,
    /// Nanoseconds since the last whole second.
    pub nanos: int,
    /// Local time minus UTC, in seconds.
    pub offset: int,
}

/// Pattern of a timestamp attached to an action: date, time and zone.
pub open spec fn action_pattern() -> Seq<char> {
    "%Y-%m-%dT%H:%M:%S%Z"@
}

/// Pattern of a timestamp that bounds a history range: date and time, no zone.
pub open spec fn range_pattern() -> Seq<char> {
    "%Y-%m-%dT%H:%M:%S"@
}

/// The text that the calendar library writes for the instant `seconds`, `nanos`
/// seen at `offset`, under the strftime pattern `pattern`.
pub uninterp spec fn formatted_time(seconds: int, nanos: int, offset: int, pattern: Seq<char>) -> Seq<char>;

/// The instants and offsets that a timestamp can hold.
///
/// The nanosecond field may reach into a second second only to mark a leap
/// second, which can follow the 59th second of a minute and no other.
pub open spec fn representable(seconds: int, nanos: int, offset: int) -> bool {
    &&& MIN_SECONDS <= seconds <= MAX_SECONDS
    &&& 0 <= nanos < 2 * NANOS_PER_SECOND
    &&& (nanos >= NANOS_PER_SECOND ==> seconds % 60 == 59)
    &&& -OFFSET_LIMIT < offset < OFFSET_LIMIT
}

/// Text of `t` where it qualifies an action.
pub open spec fn action_time_text(t: Instant) -> Seq<char> {
    formatted_time(t.seconds, t.nanos, t.offset, action_pattern())
}

/// Text of `t` where it bounds a history range.
pub open spec fn range_time_text(t: Instant) -> Seq<char> {
    formatted_time(t.seconds, t.nanos, t.offset, range_pattern())
}

/// A point in time with a fixed offset from UTC.
#[derive(Clone, Copy, Debug, PartialEq, Eq)]
pub struct Timestamp {
    seconds: i64,
    nanos: u32,
    offset: i32,
}

impl View for Timestamp {
    type V = Instant;

    closed spec fn view(&self) -> Instant {
        Instant { seconds: self.seconds as int, nanos: self.nanos as int, offset: self.offset as int }
    }
}

/// Calls chrono's `DateTime::format` with `pattern` on the UTC instant
/// (`seconds`, `nanos`) moved to the zone `offset` seconds east of UTC, and
/// collects what it displays.
///
/// Trusted: the text depends on the four arguments alone. The preconditions
/// keep to what chrono accepts: `DateTime::from_timestamp` and
/// `FixedOffset::east_opt` return a value on exactly the representable inputs,
/// and both patterns parse, so displaying the result cannot fail.
#[verifier::external_body]
fn format_instant(seconds: i64, nanos: u32, offset: i32, pattern: &str) -> (text: String)
    requires
        representable(seconds as int, nanos as int, offset as int),
        pattern@ == action_pattern() || pattern@ == range_pattern(),
    ensures
        text@ == formatted_time(seconds as int, nanos as int, offset as int, pattern@),
{
    let utc = chrono::DateTime::from_timestamp(seconds, nanos).unwrap();
    let zone = chrono::FixedOffset::east_opt(offset).unwrap();
    utc.with_timezone(&zone).format(pattern).to_string()
}

impl Timestamp {
    #[verifier::type_invariant]
    spec fn valid(self) -> bool {
        representable(self.seconds as int, self.nanos as int, self.offset as int)
    }

    /// The timestamp `seconds` and `nanos` after the Unix epoch, written in the
    /// zone `offset` seconds east of UTC; `None` where no such timestamp exists.
    pub fn new(seconds: i64, nanos: u32, offset: i32) -> (made: Option<Timestamp>)
        ensures
            made is Some <==> representable(seconds as int, nanos as int, offset as int),
            made is Some ==> made->0@ == (Instant {
                seconds: seconds as int,
                nanos: nanos as int,
                offset: offset as int,
            }),
    {
        if seconds < MIN_SECONDS || seconds > MAX_SECONDS {
            return None;
        }
        if offset <= -OFFSET_LIMIT || offset >= OFFSET_LIMIT {
            return None;
        }
        if nanos >= 2 * NANOS_PER_SECOND {
            return None;
        }
        // The first second of the calendar opens a minute, so counting from it
        // leaves the second of the minute unchanged.
        let second_of_minute: i64 = (seconds - MIN_SECONDS) % 60;
        assert(second_of_minute == seconds % 60) by {
            assert(MIN_SECONDS == 60 * (-138_910_020_480int));
        }
        if nanos >= NANOS_PER_SECOND && second_of_minute != 59 {
            return None;
        }
        Some(Timestamp { seconds, nanos, offset })
    }

    /// Whole seconds since the Unix epoch.
    pub fn seconds(&self) -> (s: i64)
        ensures
            s == self@.seconds,
    {
        self.seconds
    }

    /// Nanoseconds since the last whole second.
    pub fn nanos(&self) -> (n: u32)
        ensures
            n == self@.nanos,
    {
        self.nanos
    }

    /// Local time minus UTC, in seconds.
    pub fn offset(&self) -> (o: i32)
        ensures
            o == self@.offset,
    {
        self.offset
    }

    /// The timestamp as it qualifies an action: date, time and zone.
    pub fn format_action(&self) -> (text: String)
        ensures
            text@ == action_time_text(self@),
    {
        proof {
            use_type_invariant(self);
        }
        format_instant(self.seconds, self.nanos, self.offset, "%Y-%m-%dT%H:%M:%S%Z")
    }

    /// The timestamp as it bounds a history range: date and time, no zone.
    pub fn format_range(&self) -> (text: String)
        ensures
            text@ == range_time_text(self@),
    {
        proof {
            use_type_invariant(self);
        }
        format_instant(self.seconds, self.nanos, self.offset, "%Y-%m-%dT%H:%M:%S")
    }
}

} // verus!
