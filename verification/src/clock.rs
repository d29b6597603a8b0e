//! Reading the wall clock. The instant comes from chrono and is opaque;
//! each field is taken through a trusted accessor that states only the
//! range chrono documents, and the assembled reading is verified to be
//! well-formed.

use vstd::prelude::*;

verus! {

/// One reading of the local wall clock, as plain values.
pub struct ClockFields {
    /// Seconds since the Unix epoch, clamped to zero for instants
    /// before it.
    pub unix: u64,
    pub hour: u32,
    pub minute: u32,
    pub month: u32,
    pub day: u32,
    pub year: u32,
}

impl ClockFields {
    /// The ranges every reading of a real clock satisfies.
    pub open spec fn valid(&self) -> bool {
        &&& self.hour < 24
        &&& self.minute < 60
        &&& 1 <= self.month <= 12
        &&& 1 <= self.day <= 31
    }
}

/// One instant of the local wall clock, held opaquely. chrono's
/// `DateTime<Tz>` cannot be declared to the verifier (its `TimeZone`
/// bound is refused), so the value sits in a hidden field and every
/// read goes through a trusted accessor below.
#[verifier::external_body]
pub struct LocalInstant {
    dt: chrono::DateTime<chrono::Local>,
}

/// Relies on `std::time::SystemTime::now` and on chrono's
/// `From<SystemTime>` conversion into `DateTime<Local>`: reads the
/// system clock in the local time zone. Unlike `chrono::Local::now`,
/// which aborts on a host clock set before the Unix epoch, the
/// conversion represents a pre-epoch instant as a negative timestamp;
/// only an instant outside chrono's representable range (about
/// 262,000 years either way) cannot be converted. Nothing is promised
/// of the instant returned.
#[verifier::external_body]
fn now_local() -> LocalInstant {
    LocalInstant { dt: std::time::SystemTime::now().into() }
}

/// Relies on `chrono::Timelike::hour`: the hour number, 0 to 23.
#[verifier::external_body]
fn dt_hour(t: &LocalInstant) -> (r: u32)
    ensures
        r < 24,
{
    chrono::Timelike::hour(&t.dt)
}

/// Relies on `chrono::Timelike::minute`: the minute number, 0 to 59.
#[verifier::external_body]
fn dt_minute(t: &LocalInstant) -> (r: u32)
    ensures
        r < 60,
{
    chrono::Timelike::minute(&t.dt)
}

/// Relies on `chrono::Datelike::month`: the month number, 1 to 12.
#[verifier::external_body]
fn dt_month(t: &LocalInstant) -> (r: u32)
    ensures
        1 <= r <= 12,
{
    chrono::Datelike::month(&t.dt)
}

/// Relies on `chrono::Datelike::day`: the day of month, 1 to 31.
#[verifier::external_body]
fn dt_day(t: &LocalInstant) -> (r: u32)
    ensures
        1 <= r <= 31,
{
    chrono::Datelike::day(&t.dt)
}

/// Relies on `chrono::Datelike::year`: the calendar year, which chrono
/// leaves unbounded in either direction.
#[verifier::external_body]
fn dt_year(t: &LocalInstant) -> (r: i32) {
    chrono::Datelike::year(&t.dt)
}

/// Relies on `chrono::DateTime::timestamp`: seconds since the Unix
/// epoch, negative for instants before it.
#[verifier::external_body]
fn dt_timestamp(t: &LocalInstant) -> (r: i64) {
    t.dt.timestamp()
}

/// Reads the local clock into plain fields; instants before the Unix
/// epoch clamp the timestamp and the year to zero.
pub fn read_clock() -> (r: ClockFields)
    ensures
        r.valid(),
{
    let dt = now_local();
    let ts = dt_timestamp(&dt);
    let y = dt_year(&dt);
    ClockFields {
        unix: if ts < 0 {
            0
        } else {
            ts as u64
        },
        hour: dt_hour(&dt),
        minute: dt_minute(&dt),
        month: dt_month(&dt),
        day: dt_day(&dt),
        year: if y < 0 {
            0
        } else {
            y as u32
        },
    }
}

} // verus!
