use vstd::prelude::*;

verus! {

/// Declares chrono's parse error, carried by `Error::Chrono`.
#[verifier::external_type_specification]
#[verifier::external_body]
pub struct ExParseError(chrono::ParseError);

/// Errors of the library.
#[derive(Debug)]
pub enum Error {
    /// A timestamp text that chrono could not parse.
    Chrono(chrono::ParseError),
    /// A date-time outside what an operation handles: years that a text format cannot
    /// write, or a clock before the epoch.
    DateOutOfRange,
    /// A message could not be handed to the channel.
    Internal(String),
    /// A notification service answered with this status, outside 200 to 299.
    SinkFailure(u16),
    /// `take_first` on an empty queue.
    EmptyQueue,
    UnexpectedJson,
    NoResult,
    NoMembers,
    UserNotFound,
    InvalidTokenError,
    InvalidArgError,
    HelpMenuRequested,
    CantConvertJsonToObj,
    NotImplementedError,
}

} // verus!
