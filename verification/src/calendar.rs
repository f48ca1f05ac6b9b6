//! The model of an item imported from the operating system's calendar.
//!
//! The platform calendar APIs are outside collaborators: the caller
//! reads an event's fields there and hands them over as plain strings.
//! Every imported item carries the fixed priority and kind the import
//! assigns; only the sub-kind tells the platform sources apart.
use vstd::prelude::*;

verus! {

/// A tracked item as imported from a calendar event: identifier, title,
/// notes, and the event's time window as timestamp strings.
pub struct CalendarMatter {
    pub id: String,
    pub title: String,
    pub description: String,
    pub start_time: String,
    pub end_time: String,
    pub priority: i32,
    pub type_: i32,
    pub sub_type: i32,
}

impl CalendarMatter {
    /// The item a calendar event maps to: the event's fields carried
    /// over unchanged, priority 0 and kind 3 as every import gets, and
    /// the caller's sub-kind for its platform source.
    pub fn from_event_parts(
        id: String,
        title: String,
        description: String,
        start_time: String,
        end_time: String,
        sub_type: i32,
    ) -> (r: Self)
        ensures
            r.id == id,
            r.title == title,
            r.description == description,
            r.start_time == start_time,
            r.end_time == end_time,
            r.priority == 0,
            r.type_ == 3,
            r.sub_type == sub_type,
    {
        CalendarMatter { id, title, description, start_time, end_time, priority: 0, type_: 3, sub_type }
    }
}

/// The tick count the platform calendar gives an instant: hundreds of
/// nanoseconds since its own epoch, which lies 11644473600 seconds
/// before the unix epoch.
pub open spec fn windows_ticks_of(unix_seconds: int) -> int {
    unix_seconds * 10_000_000 + 116_444_736_000_000_000
}

/// The unix second an instant's tick count falls in.
pub open spec fn unix_of_windows_ticks(ticks: int) -> int {
    (ticks - 116_444_736_000_000_000) / 10_000_000
}

/// A unix timestamp as the platform calendar's tick count. The bound
/// admits every date the calendar can hold while keeping the ticks well
/// inside the 64-bit range.
pub fn unix_to_windows_ticks(unix_seconds: i64) -> (r: i64)
    requires
        0 <= unix_seconds <= 253_402_300_799,
    ensures
        r == windows_ticks_of(unix_seconds as int),
{
    unix_seconds * 10_000_000 + 116_444_736_000_000_000
}

/// A tick count of the platform calendar as a unix timestamp, rounded
/// down to the second.
pub fn windows_ticks_to_unix(ticks: i64) -> (r: i64)
    requires
        116_444_736_000_000_000 <= ticks,
    ensures
        r == unix_of_windows_ticks(ticks as int),
{
    (ticks - 116_444_736_000_000_000) / 10_000_000
}

/// LAW: the two conversions are inverse on whole seconds — a timestamp
/// sent into the calendar's tick scale and read back is unchanged.
pub proof fn lemma_ticks_round_trip(unix_seconds: int)
    requires
        0 <= unix_seconds,
    ensures
        unix_of_windows_ticks(windows_ticks_of(unix_seconds)) == unix_seconds,
{
    assert(unix_seconds * 10_000_000 / 10_000_000 == unix_seconds) by (nonlinear_arith);
}

} // verus!
