//! The current time: the system clock, read as calendar fields in UTC with `chrono`.
use vstd::prelude::*;
use chrono::{Datelike, Timelike};

verus! {

/// A point in time: seconds since the Unix epoch and the nanoseconds past that second.
#[derive(Debug, Clone, Copy)]
pub struct Timestamp {
    pub secs: i64,
    pub nanos: u32,
}

/// The calendar fields of a point in time in UTC.
#[derive(Debug, Clone, Copy)]
pub struct DateTimeFields {
    pub year: i32,
    pub month: u32,
    pub day: u32,
    pub hour: u32,
    pub minute: u32,
    pub second: u32,
}

impl DateTimeFields {
    /// The ranges that `chrono` documents for each field.
    pub open spec fn in_range(&self) -> bool {
        &&& 1 <= self.month <= 12
        &&& 1 <= self.day <= 31
        &&& self.hour <= 23
        &&& self.minute <= 59
        &&& self.second <= 59
    }
}

/// The current time, both as a timestamp and as calendar fields in UTC.
pub struct Now {
    pub timestamp: Timestamp,
    pub fields: DateTimeFields,
}

/// The year, month and day in UTC of the moment `secs` seconds after the Unix epoch.
pub uninterp spec fn utc_date(secs: int) -> (int, int, int);

/// `fields` are the UTC calendar fields of the moment `secs` seconds after the
/// Unix epoch: the date as `utc_date` gives it, the time of day from the
/// seconds past midnight.
pub open spec fn fields_at(secs: int, fields: DateTimeFields) -> bool {
    let of_day = secs % 86400;
    &&& (fields.year as int, fields.month as int, fields.day as int) == utc_date(secs)
    &&& fields.hour == of_day / 3600
    &&& fields.minute == (of_day / 60) % 60
    &&& fields.second == of_day % 60
}

/// A `std::time::SystemTime`, carried through unread.
#[verifier::external_type_specification]
#[verifier::external_body]
pub struct ExSystemTime(std::time::SystemTime);

/// Reads the system clock.
///
/// Trusted: calls `std::time::SystemTime::now`; nothing is stated of the time.
#[verifier::external_body]
fn system_now() -> (t: std::time::SystemTime)
{
    std::time::SystemTime::now()
}

/// The whole seconds and the nanoseconds of `t` after the Unix epoch, or none
/// when `t` lies before it.
///
/// Trusted: calls `SystemTime::duration_since(UNIX_EPOCH)`, which fails for an
/// earlier time, and reads the `Duration` with `as_secs` and `subsec_nanos`;
/// std documents the nanoseconds as less than one billion. `t` is opaque, so the
/// values are not tied to it.
#[verifier::external_body]
fn since_unix_epoch(t: &std::time::SystemTime) -> (r: Option<(u64, u32)>)
    ensures
        r matches Some(p) ==> p.1 < 1_000_000_000,
{
    match t.duration_since(std::time::UNIX_EPOCH) {
        Ok(d) => Some((d.as_secs(), d.subsec_nanos())),
        Err(_) => None,
    }
}

/// The UTC calendar fields of the moment `secs` seconds and `nanos`
/// nanoseconds after the Unix epoch, or none when `chrono` cannot represent it.
///
/// Trusted: calls `chrono::DateTime::from_timestamp` and reads the result through
/// the `Datelike` and `Timelike` accessors. Stated: the documented field ranges;
/// the time of day taken from `secs.rem_euclid(86_400)` as `from_timestamp` does;
/// the date named by `utc_date`; none for nanoseconds of two billion or more; a
/// result for nanoseconds below one billion and any moment from 1970 to the end
/// of the year 9999, well inside `chrono`'s range.
#[verifier::external_body]
fn utc_fields(secs: i64, nanos: u32) -> (r: Option<DateTimeFields>)
    ensures
        r matches Some(f) ==> f.in_range() && fields_at(secs as int, f),
        r matches Some(f) ==> (f.year as int, f.month as int, f.day as int) == utc_date(secs as int),
        nanos >= 2_000_000_000 ==> r is None,
        nanos < 1_000_000_000 && 0 <= secs <= 253_402_300_799 ==> r is Some,
{
    match chrono::DateTime::from_timestamp(secs, nanos) {
        Some(t) => Some(DateTimeFields {
            year: t.year(),
            month: t.month(),
            day: t.day(),
            hour: t.hour(),
            minute: t.minute(),
            second: t.second(),
        }),
        None => None,
    }
}

/// The time `secs` seconds and `nanos` nanoseconds after the Unix epoch, with
/// its UTC calendar fields: exactly those seconds and nanoseconds, none when the
/// seconds do not fit an `i64` or `chrono` cannot represent the moment.
fn utc_at(secs: u64, nanos: u32) -> (r: Option<Now>)
    ensures
        r matches Some(n) ==> n.timestamp.secs as int == secs as int && n.timestamp.nanos == nanos
            && n.fields.in_range() && fields_at(secs as int, n.fields),
        secs > 9_223_372_036_854_775_807u64 ==> r is None,
        nanos < 1_000_000_000 && secs <= 253_402_300_799 ==> r is Some,
{
    if secs > 9_223_372_036_854_775_807u64 {
        return None;
    }
    let s = secs as i64;
    match utc_fields(s, nanos) {
        Some(f) => Some(Now { timestamp: Timestamp { secs: s, nanos }, fields: f }),
        None => None,
    }
}

/// Reads the current time in UTC: none when the system clock is set before
/// 1970 or beyond what `chrono` can represent.
pub fn utc_now() -> (r: Option<Now>)
    ensures
        r matches Some(n) ==> n.fields.in_range() && fields_at(n.timestamp.secs as int, n.fields)
            && 0 <= n.timestamp.secs && n.timestamp.nanos < 1_000_000_000,
{
    let t = system_now();
    match since_unix_epoch(&t) {
        None => None,
        Some((s, n)) => utc_at(s, n),
    }
}

/// Law: the calendar fields of a moment give its UTC time of day: hours,
/// minutes and seconds past midnight add up to the seconds since the epoch
/// modulo one day.
pub proof fn lemma_fields_give_time_of_day(secs: int, f: DateTimeFields)
    requires
        fields_at(secs, f),
    ensures
        f.hour * 3600 + f.minute * 60 + f.second == secs % 86400,
        f.hour < 24 && f.minute < 60 && f.second < 60,
{
    let d = secs % 86400;
    assert(0 <= d < 86400);
    assert(d == (d / 3600) * 3600 + ((d / 60) % 60) * 60 + d % 60) by (nonlinear_arith)
        requires 0 <= d < 86400;
}

} // verus!
