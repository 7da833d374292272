use crate::errors::Error;
use crate::utils::time::{
    get_beijing_timestamp_as_rfc2822, get_utc_timestamp_as_rfc2822, is_clock_text,
    BEIJING_OFFSET_SECS,
};
use vstd::prelude::*;

pub mod time;

verus! {

/// The current time in UTC, in RFC 2822.
pub fn get_utc_timestamp() -> (r: Result<String, Error>)
    ensures
        match r {
            Ok(s) => is_clock_text(s@, 0),
            Err(e) => e is DateOutOfRange,
        },
{
    get_utc_timestamp_as_rfc2822()
}

/// The current time in Beijing (UTC+8), in RFC 2822.
pub fn get_beijing_timestamp() -> (r: Result<String, Error>)
    ensures
        match r {
            Ok(s) => is_clock_text(s@, BEIJING_OFFSET_SECS as int),
            Err(e) => e is DateOutOfRange,
        },
{
    get_beijing_timestamp_as_rfc2822()
}

} // verus!
