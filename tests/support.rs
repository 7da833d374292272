use sentinel::configure::{fetch, ConfigInfo, Settings};
use sentinel::errors::Error;
use sentinel::monitor::notify::{
    postmark_outcome, postmark_template, retry_step, slack_outcome, slack_template, RetryAction,
};
use sentinel::monitors::{
    AlertContext, Monitor, Monitorable, PollHTTPBodyContent, PollHTTPStatusOk, Pollable, State,
};
use sentinel::opts::Config;
use sentinel::text::{parse_unsigned, push_decimal};

fn settings() -> Settings {
    let mut s = Settings::new();
    s.insert("cli_options".to_string(), "false".to_string());
    s.insert("enable_mock_data".to_string(), "true".to_string());
    s.insert("slack_url".to_string(), "https://hooks.example/x".to_string());
    s.insert("cli_options".to_string(), "true".to_string());
    s
}

#[test]
fn flags_read_true_only_from_true() {
    let s = settings();
    assert!(fetch::<bool>(&s, "cli_options".to_string()).unwrap());
    assert!(fetch::<bool>(&s, "enable_mock_data".to_string()).unwrap());
    assert!(!fetch::<bool>(&s, "slack_url".to_string()).unwrap());
    assert!(!fetch::<bool>(&s, "missing".to_string()).unwrap());
}

#[test]
fn text_settings_default_to_empty() {
    let s = settings();
    assert_eq!(fetch::<String>(&s, "slack_url".to_string()).unwrap(), "https://hooks.example/x");
    assert_eq!(fetch::<String>(&s, "missing".to_string()).unwrap(), "");
    let info = ConfigInfo { flag: "cli_options".to_string() };
    assert_eq!(info.fetch_string(&s), "true");
    assert!(info.fetch_bool(&s));
    assert_eq!(s.get("enable_mock_data").unwrap(), "true");
    assert!(s.get("nothing").is_none());
}

#[test]
fn decimal_texts() {
    let mut out = String::from("n=");
    push_decimal(&mut out, 0);
    assert_eq!(out, "n=0");
    let mut out = String::new();
    push_decimal(&mut out, u64::MAX);
    assert_eq!(out, "18446744073709551615");
    assert_eq!(parse_unsigned("320"), Some(320));
    assert_eq!(parse_unsigned("18446744073709551615"), Some(u64::MAX));
    assert_eq!(parse_unsigned("18446744073709551616"), None);
    assert_eq!(parse_unsigned("-1"), None);
    assert_eq!(parse_unsigned(""), None);
}

#[test]
fn postmark_payload_is_json() {
    let t = postmark_template("Replica down", "lag", "a@x.io", "b@x.io", "c@x.io");
    let v: serde_json::Value = serde_json::from_str(&t).unwrap();
    assert_eq!(v["From"], "a@x.io");
    assert_eq!(v["ReplyTo"], "b@x.io");
    assert_eq!(v["To"], "c@x.io");
    assert_eq!(v["Subject"], "Replica down");
    assert_eq!(v["TextBody"], "lag");
}

#[test]
fn slack_payload_is_json() {
    let t = slack_template("*down*\\nnow");
    let v: serde_json::Value = serde_json::from_str(&t).unwrap();
    assert_eq!(v["blocks"][0]["type"], "section");
    assert_eq!(v["blocks"][0]["text"]["text"], "*down*\nnow");
}

#[test]
fn config_describes_itself() {
    let c = Config { slack_token: "SECRET-REDACTED".to_string() };
    assert_eq!(c.describe(), "(slack_token: SECRET-REDACTED)");
}

#[test]
fn polling_moves_the_state() {
    let mut m = Monitor::<PollHTTPBodyContent>::new().unwrap();
    assert_eq!(m.current_state, State::Unknown);
    let alert = m.poll();
    assert_eq!(alert.alert_context, AlertContext::StateChange(State::Up));
    assert_eq!(alert.cx.current_state, State::Unknown);
    assert_eq!(m.current_state, State::Up);
    assert_eq!(m.previous_state, State::Unknown);

    let mut d = Monitor::<PollHTTPStatusOk>::new().unwrap();
    let started = d.current_state_timestamp.naive_utc();
    d.poll();
    let polled = d.previous_state_timestamp.naive_utc();
    assert_eq!((polled.secs, polled.nanos), (started.secs, started.nanos));
    d.update_state(State::Up);
    assert_eq!(d.previous_state, State::Down);
    assert_eq!(d.current_state, State::Up);
}

#[test]
fn slack_answers() {
    assert!(slack_outcome(200, "ok", false).is_ok());
    assert!(slack_outcome(200, "{\"ok\": true}", true).is_ok());
    assert!(matches!(slack_outcome(403, "invalid_token", false), Err(Error::InvalidTokenError)));
    assert!(matches!(slack_outcome(404, "no_team", false), Err(Error::InvalidTokenError)));
    assert!(matches!(slack_outcome(400, "{\"error\": \"x\"}", true), Err(Error::SinkFailure(400))));
    assert!(matches!(slack_outcome(500, "{}", true), Err(Error::SinkFailure(500))));
    assert!(matches!(slack_outcome(200, "oops", false), Err(Error::UnexpectedJson)));
}

#[test]
fn postmark_answers() {
    assert!(postmark_outcome(200, true, Some(0)).is_ok());
    assert!(matches!(postmark_outcome(422, true, Some(10)), Err(Error::InvalidTokenError)));
    assert!(matches!(postmark_outcome(422, true, Some(300)), Err(Error::InvalidArgError)));
    assert!(matches!(postmark_outcome(422, true, Some(406)), Err(Error::SinkFailure(422))));
    assert!(matches!(postmark_outcome(500, false, None), Err(Error::SinkFailure(500))));
    assert!(matches!(postmark_outcome(200, false, None), Err(Error::UnexpectedJson)));
}

#[test]
fn retries_double_the_pause_then_give_up() {
    assert_eq!(retry_step(1, 500, true), (RetryAction::Delivered, 1000));
    assert_eq!(retry_step(1, 500, false), (RetryAction::RetryAfter(500), 1000));
    assert_eq!(retry_step(2, 1000, false), (RetryAction::RetryAfter(1000), 2000));
    assert_eq!(retry_step(3, 2000, false), (RetryAction::GiveUp, 4000));
    assert_eq!(retry_step(3, 2000, true), (RetryAction::Delivered, 4000));
    assert_eq!(retry_step(1, u64::MAX, false).1, u64::MAX);
}

#[test]
fn monitors_describe_themselves() {
    assert_eq!(AlertContext::StateChange(State::Down).describe(), "StateChange(Down)");
    assert_eq!(AlertContext::PollFailure.describe(), "PollFailure");
    let mut m = Monitor::<PollHTTPBodyContent>::new().unwrap();
    assert_eq!(m.info(), "Monitor<PollHTTPBodyContent>");
    assert_eq!(m.poll().debug(), "PollAlert<PollHTTPBodyContent> { alert_context: StateChange(Up) }");
    let mut d = Monitor::<PollHTTPStatusOk>::new().unwrap();
    assert_eq!(d.info(), "Monitor<PollHTTPStatusOk>");
    assert_eq!(d.poll().debug(), "PollAlert<PollHTTPStatusOk> { alert_context: StateChange(Down) }");
}
