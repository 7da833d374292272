use crate::errors::Error;
use vstd::prelude::*;

verus! {

/// The first second that chrono can hold, -262143-01-01T00:00:00 UTC, in seconds since the epoch.
pub const MIN_SECS: i64 = -8334601315200;

/// The last second that chrono can hold, +262142-12-31T23:59:59 UTC, in seconds since the epoch.
pub const MAX_SECS: i64 = 8210266876799;

pub const NANOS_PER_SEC: u32 = 1000000000;

/// Offsets from UTC lie strictly between minus and plus one day.
pub const SECS_PER_DAY: i32 = 86400;

/// The first second of year 0, the first year that RFC 2822 can write.
pub const YEAR_0_SECS: i64 = -62167219200;

/// The first second of year 10000, the first year that RFC 2822 cannot write.
pub const YEAR_10000_SECS: i64 = 253402300800;

/// The offset of Beijing time, UTC+8, in seconds.
pub const BEIJING_OFFSET_SECS: i32 = 28800;

/// Whether a second and a nanosecond fraction name an instant that chrono can hold.
/// A fraction of one second or more marks a leap second, which only the last second
/// of a minute can carry.
pub open spec fn valid_instant(secs: int, nanos: int) -> bool {
    &&& MIN_SECS <= secs <= MAX_SECS
    &&& 0 <= nanos < 2 * NANOS_PER_SEC
    &&& nanos >= NANOS_PER_SEC ==> secs % 60 == 59
}

/// Whether `a` comes strictly before `b`, instants given as (second, fraction).
pub open spec fn instant_before(a_secs: int, a_nanos: int, b_secs: int, b_nanos: int) -> bool {
    a_secs < b_secs || (a_secs == b_secs && a_nanos < b_nanos)
}

/// A date and time in UTC without an offset (chrono's `NaiveDateTime` read as UTC).
#[derive(Clone, Copy, Debug)]
pub struct NaiveUtc {
    /// Whole seconds since 1970-01-01T00:00:00.
    pub secs: i64,
    /// Nanoseconds into the second; from one second on, a leap second.
    pub nanos: u32,
}

impl NaiveUtc {
    pub open spec fn wf(&self) -> bool {
        valid_instant(self.secs as int, self.nanos as int)
    }

    pub open spec fn is_leap(&self) -> bool {
        self.nanos >= NANOS_PER_SEC
    }

    pub open spec fn before(&self, other: NaiveUtc) -> bool {
        instant_before(self.secs as int, self.nanos as int, other.secs as int, other.nanos as int)
    }
}

/// A date and time with the offset from UTC that it is shown in
/// (chrono's `DateTime<FixedOffset>`; `DateTime<Utc>` has offset 0).
#[derive(Clone, Copy, Debug)]
pub struct DateTimeOffset {
    /// Whole seconds since 1970-01-01T00:00:00 UTC.
    pub secs: i64,
    /// Nanoseconds into the second; from one second on, a leap second.
    pub nanos: u32,
    /// Local time minus UTC, in seconds.
    pub offset: i32,
}

impl DateTimeOffset {
    pub open spec fn wf(&self) -> bool {
        &&& valid_instant(self.secs as int, self.nanos as int)
        &&& -SECS_PER_DAY < self.offset < SECS_PER_DAY
    }

    /// The instant, apart from the offset.
    pub open spec fn naive(&self) -> NaiveUtc {
        NaiveUtc { secs: self.secs, nanos: self.nanos }
    }

    /// Seconds since the epoch of the local wall-clock time.
    pub open spec fn local_secs(&self) -> int {
        self.secs + self.offset
    }

    /// RFC 2822 writes years 0 to 9999 of the local time only.
    pub open spec fn rfc2822_representable(&self) -> bool {
        YEAR_0_SECS <= self.local_secs() < YEAR_10000_SECS
    }

    /// Two date-times are equal when they name the same instant, whatever their offsets.
    pub open spec fn same_instant(&self, other: &DateTimeOffset) -> bool {
        self.secs == other.secs && self.nanos == other.nanos
    }
}

impl PartialEq for DateTimeOffset {
    fn eq(&self, other: &DateTimeOffset) -> (r: bool)
        ensures
            r == self.same_instant(other),
    {
        self.secs == other.secs && self.nanos == other.nanos
    }
}

impl vstd::std_specs::cmp::PartialEqSpecImpl for DateTimeOffset {
    open spec fn obeys_eq_spec() -> bool {
        true
    }

    open spec fn eq_spec(&self, other: &DateTimeOffset) -> bool {
        self.same_instant(other)
    }
}

/// What chrono writes for an instant and offset in RFC 3339.
pub uninterp spec fn rfc3339_text(secs: int, nanos: int, offset: int) -> Seq<char>;

/// What chrono writes for an instant and offset in RFC 2822.
pub uninterp spec fn rfc2822_text(secs: int, nanos: int, offset: int) -> Seq<char>;

/// What chrono reads from an RFC 3339 text: (seconds, fraction, offset), or nothing.
pub uninterp spec fn rfc3339_parsed(s: Seq<char>) -> Option<(int, int, int)>;

/// Relies on chrono's `From<SystemTime>` for `DateTime<Utc>`, applied to std's
/// `SystemTime::now`: the clock's instant, counted back from the epoch when the clock reads
/// before it, never a leap second.
#[verifier::external_body]
fn utc_now() -> (r: DateTimeOffset)
    ensures
        r.wf(),
        r.offset == 0,
        r.nanos < NANOS_PER_SEC,
{
    let now = chrono::DateTime::<chrono::Utc>::from(std::time::SystemTime::now());
    DateTimeOffset { secs: now.timestamp(), nanos: now.timestamp_subsec_nanos(), offset: 0 }
}

/// Relies on chrono's `DateTime::parse_from_rfc3339`: what it parses is a date-time that
/// chrono can hold, with an offset of less than a day.
#[verifier::external_body]
fn parse_rfc3339(s: &str) -> (r: Result<DateTimeOffset, chrono::ParseError>)
    ensures
        match r {
            Ok(t) => t.wf() && rfc3339_parsed(s@) == Some(
                (t.secs as int, t.nanos as int, t.offset as int),
            ),
            Err(_) => rfc3339_parsed(s@) is None,
        },
{
    match chrono::DateTime::parse_from_rfc3339(s) {
        Ok(dt) => Ok(
            DateTimeOffset {
                secs: dt.timestamp(),
                nanos: dt.timestamp_subsec_nanos(),
                offset: dt.offset().local_minus_utc(),
            },
        ),
        Err(e) => Err(e),
    }
}

/// Relies on chrono's `DateTime::to_rfc3339`, on a date-time rebuilt from its parts.
#[verifier::external_body]
pub(crate) fn format_rfc3339(t: &DateTimeOffset) -> (r: String)
    requires
        t.wf(),
    ensures
        r@ == rfc3339_text(t.secs as int, t.nanos as int, t.offset as int),
{
    let offset = chrono::FixedOffset::east_opt(t.offset).unwrap();
    let dt = chrono::DateTime::from_timestamp(t.secs, t.nanos).unwrap().with_timezone(&offset);
    chrono::DateTime::<chrono::FixedOffset>::to_rfc3339(&dt)
}

/// Relies on chrono's `DateTime::to_rfc2822`, which panics outside local years 0 to 9999.
#[verifier::external_body]
fn format_rfc2822(t: &DateTimeOffset) -> (r: String)
    requires
        t.wf(),
        t.rfc2822_representable(),
    ensures
        r@ == rfc2822_text(t.secs as int, t.nanos as int, t.offset as int),
{
    let offset = chrono::FixedOffset::east_opt(t.offset).unwrap();
    let dt = chrono::DateTime::from_timestamp(t.secs, t.nanos).unwrap().with_timezone(&offset);
    chrono::DateTime::<chrono::FixedOffset>::to_rfc2822(&dt)
}

/// The second that chrono's `NaiveDateTime + TimeDelta::minutes(mins)` lands on: whole
/// minutes move the second; a leap second moved back lands one second later.
pub open spec fn plus_minutes_secs(n: NaiveUtc, mins: int) -> int {
    n.secs + 60 * mins + if n.is_leap() && mins < 0 {
        1int
    } else {
        0int
    }
}

/// The result of chrono's `NaiveDateTime + TimeDelta::minutes(mins)`: a leap second that
/// moves leaves its extra second.
pub open spec fn naive_plus_minutes(n: NaiveUtc, mins: int) -> NaiveUtc {
    NaiveUtc {
        secs: plus_minutes_secs(n, mins) as i64,
        nanos: if n.is_leap() && mins != 0 {
            (n.nanos - NANOS_PER_SEC) as u32
        } else {
            n.nanos
        },
    }
}

/// Whether chrono can add `mins` minutes to `n`: `TimeDelta::minutes` holds at most
/// `i64::MAX / 1000` seconds, and the sum must stay in chrono's range.
pub open spec fn can_add_minutes(n: NaiveUtc, mins: int) -> bool {
    &&& -(i64::MAX / 1000) <= 60 * mins <= i64::MAX / 1000
    &&& MIN_SECS <= plus_minutes_secs(n, mins) <= MAX_SECS
}

/// Whether `now` lies more than `mins` minutes after `timestamp`. Where the sum leaves
/// chrono's range, it lies before every instant or after every instant.
pub open spec fn more_than_mins_after(timestamp: NaiveUtc, now: NaiveUtc, mins: int) -> bool {
    if can_add_minutes(timestamp, mins) {
        naive_plus_minutes(timestamp, mins).before(now)
    } else {
        plus_minutes_secs(timestamp, mins) < MIN_SECS
    }
}

/// Relies on chrono's `NaiveDateTime + TimeDelta` (`NaiveTime::overflowing_add_signed` for the
/// leap second), which panics where `can_add_minutes` fails.
#[verifier::external_body]
pub(crate) fn naive_add_minutes(n: NaiveUtc, mins: i64) -> (r: NaiveUtc)
    requires
        n.wf(),
        can_add_minutes(n, mins as int),
    ensures
        r == naive_plus_minutes(n, mins as int),
{
    let utc = chrono::DateTime::from_timestamp(n.secs, n.nanos).unwrap();
    let naive = chrono::DateTime::<chrono::Utc>::naive_utc(&utc);
    let sum = (naive + chrono::Duration::minutes(mins)).and_utc();
    NaiveUtc { secs: sum.timestamp(), nanos: sum.timestamp_subsec_nanos() }
}

impl DateTimeOffset {
    /// The instant without its offset (chrono's `naive_utc`).
    pub fn naive_utc(&self) -> (r: NaiveUtc)
        ensures
            r == self.naive(),
    {
        NaiveUtc { secs: self.secs, nanos: self.nanos }
    }

    /// The same instant shown at another offset (chrono's `with_timezone`).
    pub fn with_offset(&self, offset: i32) -> (r: DateTimeOffset)
        requires
            -SECS_PER_DAY < offset < SECS_PER_DAY,
        ensures
            r.secs == self.secs,
            r.nanos == self.nanos,
            r.offset == offset,
    {
        DateTimeOffset { secs: self.secs, nanos: self.nanos, offset }
    }
}

/// The date-time that an RFC 3339 text names, where chrono reads one.
pub open spec fn parsed_date_time(s: Seq<char>) -> Option<DateTimeOffset> {
    match rfc3339_parsed(s) {
        Some((secs, nanos, offset)) => Some(
            DateTimeOffset { secs: secs as i64, nanos: nanos as u32, offset: offset as i32 },
        ),
        None => None,
    }
}

/// The current time in UTC.
pub fn get_utc_time() -> (r: DateTimeOffset)
    ensures
        r.wf(),
        r.offset == 0,
        r.nanos < NANOS_PER_SEC,
{
    utc_now()
}

/// Parses an RFC 3339 text such as `1996-12-19T16:39:57-08:00`.
pub fn from_rfc_rfc3339(timestamp: &str) -> (r: Result<DateTimeOffset, Error>)
    ensures
        match r {
            Ok(t) => t.wf() && parsed_date_time(timestamp@) == Some(t),
            Err(e) => parsed_date_time(timestamp@) is None && e is Chrono,
        },
{
    match parse_rfc3339(timestamp) {
        Ok(t) => Ok(t),
        Err(e) => Err(Error::Chrono(e)),
    }
}

/// Writes a date-time in RFC 3339 and reads it back.
pub fn parse_utc_time_to_rfc_rfc3339(utc: DateTimeOffset) -> (r: Result<DateTimeOffset, Error>)
    requires
        utc.wf(),
    ensures
        match r {
            Ok(t) => t.wf() && parsed_date_time(
                rfc3339_text(utc.secs as int, utc.nanos as int, utc.offset as int),
            ) == Some(t),
            Err(e) => parsed_date_time(
                rfc3339_text(utc.secs as int, utc.nanos as int, utc.offset as int),
            ) is None && e is Chrono,
        },
{
    let text = format_rfc3339(&utc);
    from_rfc_rfc3339(text.as_str())
}

/// The UTC date-time at a naive UTC date and time.
pub fn to_rfc_rfc3339(naive_dt: NaiveUtc) -> (r: Result<DateTimeOffset, Error>)
    requires
        naive_dt.wf(),
    ensures
        r == Ok::<DateTimeOffset, Error>(
            DateTimeOffset { secs: naive_dt.secs, nanos: naive_dt.nanos, offset: 0 },
        ),
        r matches Ok(t) && t.wf(),
{
    Ok(DateTimeOffset { secs: naive_dt.secs, nanos: naive_dt.nanos, offset: 0 })
}

/// Whether `now` lies more than `mins` minutes after `timestamp`.
pub fn occurred_more_than_mins_ago(
    timestamp: DateTimeOffset,
    now: DateTimeOffset,
    mins: i64,
) -> (r: bool)
    requires
        timestamp.wf(),
        now.wf(),
    ensures
        r == more_than_mins_after(timestamp.naive(), now.naive(), mins as int),
{
    let timestamp_naive = timestamp.naive_utc();
    let now_naive = now.naive_utc();
    let delta: i128 = mins as i128 * 60;
    let back: i128 = if timestamp_naive.nanos >= NANOS_PER_SEC && mins < 0 {
        1
    } else {
        0
    };
    let target: i128 = timestamp_naive.secs as i128 + delta + back;
    let limit: i128 = (i64::MAX / 1000) as i128;
    if -limit <= delta && delta <= limit && MIN_SECS as i128 <= target && target
        <= MAX_SECS as i128 {
        let past_max = naive_add_minutes(timestamp_naive, mins);
        now_naive.secs > past_max.secs || (now_naive.secs == past_max.secs && now_naive.nanos
            > past_max.nanos)
    } else {
        target < MIN_SECS as i128
    }
}

/// Whether `current` is a later instant than `previous`.
pub fn is_greater(current: DateTimeOffset, previous: DateTimeOffset) -> (r: bool)
    ensures
        r == previous.naive().before(current.naive()),
{
    let current_naive = current.naive_utc();
    let previous_naive = previous.naive_utc();
    current_naive.secs > previous_naive.secs || (current_naive.secs == previous_naive.secs
        && current_naive.nanos > previous_naive.nanos)
}

/// A date-time in RFC 2822, such as `Tue, 1 Jul 2003 10:52:37 +0200`; `DateOutOfRange`
/// where its local year is not one of 0 to 9999.
pub fn timestamp_as_rfc2822_from_utc(utc: DateTimeOffset) -> (r: Result<String, Error>)
    requires
        utc.wf(),
    ensures
        match r {
            Ok(s) => utc.rfc2822_representable() && s@ == rfc2822_text(
                utc.secs as int,
                utc.nanos as int,
                utc.offset as int,
            ),
            Err(e) => !utc.rfc2822_representable() && e is DateOutOfRange,
        },
{
    let local = utc.secs + utc.offset as i64;
    if YEAR_0_SECS <= local && local < YEAR_10000_SECS {
        Ok(format_rfc2822(&utc))
    } else {
        Err(Error::DateOutOfRange)
    }
}

/// Whether `s` is the RFC 2822 text of some instant of the clock at the given offset.
pub open spec fn is_clock_text(s: Seq<char>, offset: int) -> bool {
    exists|secs: int, nanos: int|
        valid_instant(secs, nanos) && 0 <= nanos < NANOS_PER_SEC && YEAR_0_SECS <= secs + offset < YEAR_10000_SECS
            && s == #[trigger] rfc2822_text(secs, nanos, offset)
}

/// The current time in UTC, in RFC 2822.
pub fn get_utc_timestamp_as_rfc2822() -> (r: Result<String, Error>)
    ensures
        match r {
            Ok(s) => is_clock_text(s@, 0),
            Err(e) => e is DateOutOfRange,
        },
{
    let now = get_utc_time();
    let r = timestamp_as_rfc2822_from_utc(now);
    proof {
        if r is Ok {
            assert(r->Ok_0@ == rfc2822_text(now.secs as int, now.nanos as int, 0));
        }
    }
    r
}

/// The current time in Beijing (UTC+8), in RFC 2822.
pub fn get_beijing_timestamp_as_rfc2822() -> (r: Result<String, Error>)
    ensures
        match r {
            Ok(s) => is_clock_text(s@, BEIJING_OFFSET_SECS as int),
            Err(e) => e is DateOutOfRange,
        },
{
    let now = get_utc_time().with_offset(BEIJING_OFFSET_SECS);
    let r = timestamp_as_rfc2822_from_utc(now);
    proof {
        if r is Ok {
            assert(r->Ok_0@ == rfc2822_text(now.secs as int, now.nanos as int, now.offset as int));
        }
    }
    r
}

/// Milliseconds since the epoch of an instant, counting its fraction down to whole
/// milliseconds; negative before the epoch.
pub fn millis_of(t: DateTimeOffset) -> (r: i128)
    requires
        t.wf(),
    ensures
        r == millis_spec(t),
{
    (t.secs as i128) * 1000 + (t.nanos / 1000000) as i128
}

/// Milliseconds since the epoch, by the system clock; `DateOutOfRange` when the clock
/// reads before the epoch.
pub fn time_since_epoch_in_millis() -> (r: Result<u128, Error>)
    ensures
        match r {
            Ok(ms) => exists|t: DateTimeOffset|
                t.wf() && t.offset == 0 && t.nanos < NANOS_PER_SEC && #[trigger] millis_spec(t)
                    == ms && ms >= 0,
            Err(e) => e is DateOutOfRange,
        },
{
    let now = get_utc_time();
    let ms = millis_of(now);
    if ms < 0 {
        Err(Error::DateOutOfRange)
    } else {
        assert(millis_spec(now) == ms);
        Ok(ms as u128)
    }
}

/// Milliseconds since the epoch of an instant.
pub open spec fn millis_spec(t: DateTimeOffset) -> int {
    t.secs * 1000 + t.nanos / 1000000
}

} // verus!
