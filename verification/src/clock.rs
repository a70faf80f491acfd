//! The date under which an upload is recorded.

use crate::text::{ends_with, optional_text};
use vstd::prelude::*;

verus! {

/// The RFC 3339 text that `chrono` writes for a moment in UTC, given in seconds
/// since 1970 and nanoseconds, where it can represent that moment.
pub uninterp spec fn rfc3339(seconds: i64, nanoseconds: u32) -> Option<Seq<char>>;

/// Calls `chrono::DateTime::to_rfc3339` for the moment that
/// `chrono::DateTime::from_timestamp` makes of the two numbers. Each moment
/// from 1970 to the end of 9999 can be represented, and the text ends in the
/// offset of UTC.
#[verifier::external_body]
fn moment_text(seconds: i64, nanoseconds: u32) -> (text: Option<String>)
    ensures
        optional_text(text) == rfc3339(seconds, nanoseconds),
        0 <= seconds <= 253_402_300_799 && nanoseconds < 1_000_000_000 ==> text is Some,
        text is Some ==> ends_with(text->0@, "+00:00"@),
{
    match chrono::DateTime::from_timestamp(seconds, nanoseconds) {
        Some(moment) => Some(moment.to_rfc3339()),
        None => None,
    }
}

/// Calls `chrono::Utc::now`: the current time in seconds since 1970 and
/// nanoseconds, a moment that has an RFC 3339 text. Which moment it is rests on
/// the clock and is not claimed. The call panics where the clock stands before
/// 1970.
#[verifier::external_body]
fn current_moment() -> (moment: (i64, u32))
    ensures
        rfc3339(moment.0, moment.1) is Some,
{
    let now = chrono::Utc::now();
    (now.timestamp(), now.timestamp_subsec_nanos())
}

/// `date` is the text of some moment in UTC.
pub open spec fn upload_date(date: Seq<char>) -> bool {
    &&& ends_with(date, "+00:00"@)
    &&& exists|seconds: i64, nanoseconds: u32| #[trigger]
        rfc3339(seconds, nanoseconds) == Some(date)
}

/// The clock was read, and this is the moment that it showed.
pub closed spec fn clock_showed(seconds: i64, nanoseconds: u32) -> bool {
    call_ensures(current_moment, (), (seconds, nanoseconds))
}

/// `date` is the text of the moment that the clock showed when it was read.
pub open spec fn date_of_the_clock(date: Seq<char>) -> bool {
    exists|seconds: i64, nanoseconds: u32|
        clock_showed(seconds, nanoseconds) && #[trigger] rfc3339(seconds, nanoseconds) == Some(date)
}

/// Reads a clock once.
fn read_once<C: Fn() -> (i64, u32)>(clock: C) -> (moment: (i64, u32))
    requires
        call_requires(clock, ()),
    ensures
        call_ensures(clock, (), moment),
{
    clock()
}

/// The date of an upload at a given moment.
pub fn date_at(seconds: i64, nanoseconds: u32) -> (date: Option<String>)
    ensures
        optional_text(date) == rfc3339(seconds, nanoseconds),
        0 <= seconds <= 253_402_300_799 && nanoseconds < 1_000_000_000 ==> date is Some,
        date is Some ==> ends_with(date->0@, "+00:00"@),
{
    moment_text(seconds, nanoseconds)
}

/// The date of an upload at this moment.
pub fn current_date() -> (date: String)
    ensures
        upload_date(date@),
        date_of_the_clock(date@),
{
    let (seconds, nanoseconds): (i64, u32) = read_once(current_moment);
    date_at(seconds, nanoseconds).unwrap()
}

} // verus!
