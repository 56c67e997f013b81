//! Points in time, as the todo list records them.
//!
//! A [`Timestamp`] holds what a `chrono::DateTime<chrono::Local>` holds: an
//! instant, counted from the Unix epoch, and the offset of the local time
//! from UTC at that instant. The calendar itself is left to `chrono`.

use chrono::{DateTime, FixedOffset, Local};
use vstd::prelude::*;

verus! {

/// The first second that a timestamp can hold: the start of the year -262143.
pub const MIN_SECS: i64 = -8_334_601_228_800;

/// The last second that a timestamp can hold: the end of the year 262142.
pub const MAX_SECS: i64 = 8_210_266_876_799;

/// Whether `secs` seconds and `nanos` nanoseconds since the Unix epoch name
/// an instant that a timestamp can hold. A billion nanoseconds or more stand
/// for a leap second, and only the last second of a minute can be one.
pub open spec fn valid_instant(secs: i64, nanos: u32) -> bool {
    &&& MIN_SECS <= secs <= MAX_SECS
    &&& nanos < 2_000_000_000
    &&& nanos >= 1_000_000_000 ==> secs as int % 60 == 59
}

/// Whether local time can be `offset` seconds ahead of UTC: by less than a
/// day either way.
pub open spec fn valid_offset(offset: i32) -> bool {
    -86_400 < offset < 86_400
}

/// The pattern by which the todo list shows a time: year, month, day, hour
/// and minute.
pub open spec fn minute_pattern() -> Seq<char> {
    "%Y-%m-%d %H:%M"@
}

/// The text that `chrono` writes for the instant `secs`, `nanos` in the zone
/// `offset` seconds east of UTC, by the `strftime` pattern `pattern`.
pub uninterp spec fn local_time_text(secs: i64, nanos: u32, offset: i32, pattern: Seq<char>) -> Seq<
    char,
>;

/// The current time: `chrono::Local::now`, taken apart by
/// `DateTime::timestamp`, `DateTime::timestamp_subsec_nanos` and
/// `FixedOffset::local_minus_utc`. Which time comes is not stated: only that
/// it is one that a `DateTime` can hold.
#[verifier::external_body]
fn local_now() -> (now: (i64, u32, i32))
    ensures
        valid_instant(now.0, now.1),
        valid_offset(now.2),
{
    let now = Local::now();
    (now.timestamp(), now.timestamp_subsec_nanos(), now.offset().local_minus_utc())
}

/// `chrono::DateTime::format` with `pattern`, written out, on the instant
/// that `DateTime::from_timestamp` makes of `secs` and `nanos`, moved by
/// `DateTime::with_timezone` to the zone `FixedOffset::east_opt(offset)`.
/// The instant and the offset must be valid, so that both exist, and the
/// pattern must be the one of the todo list, which `chrono` can always
/// write. The text depends on the four arguments alone.
#[verifier::external_body]
fn format_local_time(secs: i64, nanos: u32, offset: i32, pattern: &str) -> (text: String)
    requires
        valid_instant(secs, nanos),
        valid_offset(offset),
        pattern@ == minute_pattern(),
    ensures
        text@ == local_time_text(secs, nanos, offset, pattern@),
{
    let zone = FixedOffset::east_opt(offset).unwrap();
    let time = DateTime::from_timestamp(secs, nanos).unwrap().with_timezone(&zone);
    time.format(pattern).to_string()
}

/// An instant together with the offset of local time at that instant.
#[derive(Clone, Copy, Debug, PartialEq, Eq)]
pub struct Timestamp {
    secs: i64,
    nanos: u32,
    offset: i32,
}

impl Timestamp {
    #[verifier::type_invariant]
    spec fn valid(self) -> bool {
        valid_instant(self.secs, self.nanos) && valid_offset(self.offset)
    }

    /// Whole seconds since the Unix epoch, in UTC.
    pub closed spec fn spec_secs(&self) -> i64 {
        self.secs
    }

    /// Nanoseconds since the last whole second.
    pub closed spec fn spec_nanos(&self) -> u32 {
        self.nanos
    }

    /// Seconds by which local time is ahead of UTC.
    pub closed spec fn spec_offset(&self) -> i32 {
        self.offset
    }

    /// The time as the todo list shows it, to the minute, in local time.
    pub open spec fn minute_text(&self) -> Seq<char> {
        local_time_text(self.spec_secs(), self.spec_nanos(), self.spec_offset(), minute_pattern())
    }

    /// The timestamp of the given instant and offset, if both are valid.
    pub fn new(secs: i64, nanos: u32, offset: i32) -> (made: Option<Timestamp>)
        ensures
            made is Some <==> valid_instant(secs, nanos) && valid_offset(offset),
            made matches Some(t) ==> t.spec_secs() == secs && t.spec_nanos() == nanos
                && t.spec_offset() == offset,
    {
        if secs < MIN_SECS || secs > MAX_SECS || nanos >= 2_000_000_000 {
            return None;
        }
        if offset <= -86_400 || offset >= 86_400 {
            return None;
        }
        if nanos >= 1_000_000_000 {
            let since_first: u64 = (secs - MIN_SECS) as u64;
            if since_first % 60 != 59 {
                return None;
            }
        }
        Some(Timestamp { secs, nanos, offset })
    }

    /// The current local time: an instant and an offset that are both
    /// valid, whatever the clock says.
    pub fn now() -> (now: Timestamp)
        ensures
            valid_instant(now.spec_secs(), now.spec_nanos()),
            valid_offset(now.spec_offset()),
    {
        let (secs, nanos, offset) = local_now();
        Timestamp { secs, nanos, offset }
    }

    /// Whole seconds since the Unix epoch, in UTC.
    #[verifier::when_used_as_spec(spec_secs)]
    pub fn secs(&self) -> (secs: i64)
        ensures
            secs == self.spec_secs(),
    {
        self.secs
    }

    /// Nanoseconds since the last whole second.
    #[verifier::when_used_as_spec(spec_nanos)]
    pub fn nanos(&self) -> (nanos: u32)
        ensures
            nanos == self.spec_nanos(),
    {
        self.nanos
    }

    /// Seconds by which local time is ahead of UTC.
    #[verifier::when_used_as_spec(spec_offset)]
    pub fn offset(&self) -> (offset: i32)
        ensures
            offset == self.spec_offset(),
    {
        self.offset
    }

    /// The time as the todo list shows it: written by the pattern
    /// `%Y-%m-%d %H:%M`, in local time.
    pub fn to_minute_text(&self) -> (text: String)
        ensures
            text@ == self.minute_text(),
    {
        proof {
            use_type_invariant(self);
        }
        format_local_time(self.secs, self.nanos, self.offset, "%Y-%m-%d %H:%M")
    }
}

} // verus!
