use crate::errors::Error;
use vstd::prelude::*;

verus! {

/// The body of an email request: sender, reply address, recipient, subject and text.
/// The texts are put in as they are; the report already writes its line breaks as `\n`.
pub open spec fn postmark_body(
    subject: Seq<char>,
    template: Seq<char>,
    from_address: Seq<char>,
    replyto_address: Seq<char>,
    to_address: Seq<char>,
) -> Seq<char> {
    "\n  {\n    \"From\": \""@ + from_address + "\",\n    \"ReplyTo\": \""@ + replyto_address
        + "\",\n    \"To\": \""@ + to_address + "\",\n    \"Subject\": \""@ + subject
        + "\",\n    \"TextBody\": \""@ + template + "\"\n  }"@
}

/// The body of a chat webhook request: one section block of markdown text.
pub open spec fn slack_body(text: Seq<char>) -> Seq<char> {
    "{\"blocks\": [{\"type\": \"section\", \"text\": {\"type\": \"mrkdwn\", \"text\": \""@ + text
        + "\"}}]}"@
}

/// The JSON text of an email request.
pub fn postmark_template(
    subject: &str,
    template: &str,
    from_address: &str,
    replyto_address: &str,
    to_address: &str,
) -> (r: String)
    ensures
        r@ == postmark_body(subject@, template@, from_address@, replyto_address@, to_address@),
{
    let mut t = String::new();
    t.append("\n  {\n    \"From\": \"");
    t.append(from_address);
    t.append("\",\n    \"ReplyTo\": \"");
    t.append(replyto_address);
    t.append("\",\n    \"To\": \"");
    t.append(to_address);
    t.append("\",\n    \"Subject\": \"");
    t.append(subject);
    t.append("\",\n    \"TextBody\": \"");
    t.append(template);
    t.append("\"\n  }");
    assert(t@ =~= postmark_body(subject@, template@, from_address@, replyto_address@, to_address@));
    t
}

/// The JSON text of a chat webhook request.
pub fn slack_template(text: &str) -> (r: String)
    ensures
        r@ == slack_body(text@),
{
    let mut t = String::new();
    t.append("{\"blocks\": [{\"type\": \"section\", \"text\": {\"type\": \"mrkdwn\", \"text\": \"");
    t.append(text);
    t.append("\"}}]}");
    assert(t@ =~= slack_body(text@));
    t
}

/// Whether a status reports success (200 to 299).
pub open spec fn is_success(status: u16) -> bool {
    200 <= status <= 299
}

/// What a chat webhook answer means: status 200 with body `ok` is delivered; 403
/// `invalid_token` and 404 `no_team` reject the token; any other status outside 200 to 299
/// is a `SinkFailure`; a success whose body is no JSON is `UnexpectedJson`; any other
/// success is delivered.
pub open spec fn slack_outcome_spec(status: u16, body: Seq<char>, body_is_json: bool) -> Result<
    (),
    Error,
> {
    if status == 200 && body == "ok"@ {
        Ok(())
    } else if (status == 403 && body == "invalid_token"@) || (status == 404 && body
        == "no_team"@) {
        Err(Error::InvalidTokenError)
    } else if !is_success(status) {
        Err(Error::SinkFailure(status))
    } else if !body_is_json {
        Err(Error::UnexpectedJson)
    } else {
        Ok(())
    }
}

/// Reads a chat webhook answer; `body_is_json` tells whether its body parses as JSON.
pub fn slack_outcome(status: u16, body: &str, body_is_json: bool) -> (r: Result<(), Error>)
    ensures
        r == slack_outcome_spec(status, body@, body_is_json),
{
    let ok = String::from_str("ok");
    let invalid_token = String::from_str("invalid_token");
    let no_team = String::from_str("no_team");
    let text = String::from_str(body);
    if status == 200 && text == ok {
        Ok(())
    } else if (status == 403 && text == invalid_token) || (status == 404 && text == no_team) {
        Err(Error::InvalidTokenError)
    } else if !(200 <= status && status <= 299) {
        Err(Error::SinkFailure(status))
    } else if !body_is_json {
        Err(Error::UnexpectedJson)
    } else {
        Ok(())
    }
}

/// The error code of an email API answer that says no server token was sent.
pub const POSTMARK_MISSING_TOKEN: i64 = 10;

/// The error code of an email API answer that refuses the request's fields.
pub const POSTMARK_INVALID_REQUEST: i64 = 300;

/// What an email API answer means: status 422 with error code 10 rejects the token, with
/// error code 300 rejects the request; any other status outside 200 to 299 is a
/// `SinkFailure`; a success whose body is no JSON is `UnexpectedJson`; any other success is
/// delivered.
pub open spec fn postmark_outcome_spec(status: u16, body_is_json: bool, error_code: Option<i64>) -> Result<
    (),
    Error,
> {
    if status == 422 && error_code == Some(POSTMARK_MISSING_TOKEN) {
        Err(Error::InvalidTokenError)
    } else if status == 422 && error_code == Some(POSTMARK_INVALID_REQUEST) {
        Err(Error::InvalidArgError)
    } else if !is_success(status) {
        Err(Error::SinkFailure(status))
    } else if !body_is_json {
        Err(Error::UnexpectedJson)
    } else {
        Ok(())
    }
}

/// Reads an email API answer from its status, whether its body parses as JSON, and the
/// `ErrorCode` of that body, if any.
pub fn postmark_outcome(status: u16, body_is_json: bool, error_code: Option<i64>) -> (r: Result<
    (),
    Error,
>)
    ensures
        r == postmark_outcome_spec(status, body_is_json, error_code),
{
    if status == 422 && error_code == Some(POSTMARK_MISSING_TOKEN) {
        Err(Error::InvalidTokenError)
    } else if status == 422 && error_code == Some(POSTMARK_INVALID_REQUEST) {
        Err(Error::InvalidArgError)
    } else if !(200 <= status && status <= 299) {
        Err(Error::SinkFailure(status))
    } else if !body_is_json {
        Err(Error::UnexpectedJson)
    } else {
        Ok(())
    }
}

/// How many times a notification is tried before it is given up.
pub const DELIVERY_ATTEMPTS: u32 = 3;

/// The pause before the first retry, in milliseconds.
pub const FIRST_BACKOFF_MS: u64 = 500;

/// What to do after a delivery attempt.
#[derive(Debug, Clone, Copy, PartialEq, Eq, Structural)]
pub enum RetryAction {
    /// The notification went through.
    Delivered,
    /// Wait this many milliseconds, then try again.
    RetryAfter(u64),
    /// Stop trying: the notification is dead-lettered.
    GiveUp,
}

/// The decision after attempt number `attempt` (from 1), made after waiting `pause_ms`
/// before it: a success is delivered; a failure is retried after `pause_ms` until
/// `DELIVERY_ATTEMPTS` attempts have failed, then given up.
pub open spec fn retry_action(attempt: u32, pause_ms: u64, ok: bool) -> RetryAction {
    if ok {
        RetryAction::Delivered
    } else if attempt < DELIVERY_ATTEMPTS {
        RetryAction::RetryAfter(pause_ms)
    } else {
        RetryAction::GiveUp
    }
}

/// The pause before the retry after next: twice `pause_ms`, at most `u64::MAX`.
pub open spec fn doubled_pause(pause_ms: u64) -> u64 {
    if pause_ms <= u64::MAX / 2 {
        (2 * pause_ms) as u64
    } else {
        u64::MAX
    }
}

/// Decides what follows a delivery attempt, and the pause to use after the next one.
pub fn retry_step(attempt: u32, pause_ms: u64, ok: bool) -> (r: (RetryAction, u64))
    ensures
        r.0 == retry_action(attempt, pause_ms, ok),
        r.1 == doubled_pause(pause_ms),
{
    let action = if ok {
        RetryAction::Delivered
    } else if attempt < DELIVERY_ATTEMPTS {
        RetryAction::RetryAfter(pause_ms)
    } else {
        RetryAction::GiveUp
    };
    let next = if pause_ms <= u64::MAX / 2 {
        2 * pause_ms
    } else {
        u64::MAX
    };
    (action, next)
}

/// A failing notification is tried at most `DELIVERY_ATTEMPTS` times: from that attempt on,
/// a failure is given up, never retried.
pub proof fn lemma_retries_are_bounded(attempt: u32, pause_ms: u64)
    requires
        attempt >= DELIVERY_ATTEMPTS,
    ensures
        retry_action(attempt, pause_ms, false) == RetryAction::GiveUp,
        forall|ok: bool| !(#[trigger] retry_action(attempt, pause_ms, ok) is RetryAfter),
{
}

} // verus!
