use crate::errors::Error;
use crate::utils::time::{
    can_add_minutes, naive_plus_minutes, rfc2822_text, rfc3339_text, timestamp_as_rfc2822_from_utc,
    to_rfc_rfc3339, DateTimeOffset, NaiveUtc, NANOS_PER_SEC,
};
use vstd::prelude::*;

verus! {

/// A date-time in UTC.
#[derive(Clone, Copy, Debug)]
pub struct WrappedDateTime(pub DateTimeOffset);

impl WrappedDateTime {
    pub open spec fn wf(&self) -> bool {
        self.0.wf() && self.0.offset == 0
    }

    /// Wraps the instant of `dt`, shown in UTC.
    pub fn new(dt: DateTimeOffset) -> (r: WrappedDateTime)
        requires
            dt.wf(),
        ensures
            r.wf(),
            r.0.naive() == dt.naive(),
    {
        WrappedDateTime(dt.with_offset(0))
    }

    /// In RFC 2822; `DateOutOfRange` after year 9999.
    pub fn to_rfc2822(&self) -> (r: Result<String, Error>)
        requires
            self.wf(),
        ensures
            match r {
                Ok(s) => self.0.rfc2822_representable() && s@ == rfc2822_text(
                    self.0.secs as int,
                    self.0.nanos as int,
                    0,
                ),
                Err(e) => !self.0.rfc2822_representable() && e is DateOutOfRange,
            },
    {
        timestamp_as_rfc2822_from_utc(self.0)
    }

    /// In RFC 3339.
    pub fn to_rfc3339(&self) -> (r: String)
        requires
            self.wf(),
        ensures
            r@ == rfc3339_text(self.0.secs as int, self.0.nanos as int, 0),
    {
        crate::utils::time::format_rfc3339(&self.0)
    }

    /// The instant as a naive UTC date and time.
    pub fn naive_utc(&self) -> (r: NaiveUtc)
        ensures
            r == self.0.naive(),
    {
        self.0.naive_utc()
    }

    /// The date-time `mins` minutes later (earlier where `mins` is negative).
    pub fn add_minutes(&self, mins: i64) -> (r: WrappedDateTime)
        requires
            self.wf(),
            can_add_minutes(self.0.naive(), mins as int),
        ensures
            r.wf(),
            r.0.naive() == naive_plus_minutes(self.0.naive(), mins as int),
    {
        let naive_dt = crate::utils::time::naive_add_minutes(self.0.naive_utc(), mins);
        let dt = match to_rfc_rfc3339(naive_dt) {
            Ok(dt) => dt,
            Err(_) => DateTimeOffset { secs: naive_dt.secs, nanos: naive_dt.nanos, offset: 0 },
        };
        WrappedDateTime::new(dt)
    }
}

impl Default for WrappedDateTime {
    /// The current time.
    fn default() -> (r: WrappedDateTime)
        ensures
            r.wf(),
            r.0.nanos < NANOS_PER_SEC,
    {
        WrappedDateTime::new(crate::utils::time::get_utc_time())
    }
}

} // verus!
