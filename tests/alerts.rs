use sentinel::alerts::queue::{self, AlertQueue};
use sentinel::dbslave::alertable::{condition, evaluate, report, run, Condition};
use sentinel::dbslave::{fetch_mocked, ConnectorMysql, ConnectorPostgres, DBSlaveStatus, FetchMock};
use sentinel::errors::Error;
use sentinel::monitor::{Alert, SentAlerts};
use sentinel::mpsc::{Handler, Message, RtmClient};
use sentinel::runner::{dispatch_pending, process_status, start, step, LoopState, Phase};
use sentinel::utils::time::{from_rfc_rfc3339, DateTimeOffset};

fn status(io: &str, sql: &str, lag: &str) -> DBSlaveStatus {
    let mut s = DBSlaveStatus::default();
    s.slave_io_running = io.to_string();
    s.slave_sql_running = sql.to_string();
    s.seconds_behind_master = lag.to_string();
    s
}

fn at(text: &str) -> DateTimeOffset {
    from_rfc_rfc3339(text).unwrap()
}

fn alert(name: &str, created_at: DateTimeOffset) -> Alert<String> {
    Alert { data: name.to_string(), message: format!("alert {}", name), created_at }
}

#[test]
fn healthy_lag_is_not_alertable() {
    let (alertable, _) = run(&status("Yes", "Yes", "150"), "ts");
    assert!(!alertable);
    assert_eq!(condition(&status("Yes", "Yes", "150"), 300), Condition::Healthy);
}

#[test]
fn stopped_sql_thread_is_alertable() {
    let (alertable, _) = run(&status("Yes", "No", "0"), "ts");
    assert!(alertable);
    assert_eq!(condition(&status("Yes", "No", "0"), 300), Condition::SqlStopped);
}

#[test]
fn each_unhealthy_condition_is_alertable() {
    assert!(run(&status("No", "Yes", "0"), "ts").0);
    assert!(run(&status("Connecting", "Yes", "0"), "ts").0);
    assert!(run(&status("Yes", "Yes", "301"), "ts").0);
    assert!(!run(&status("Yes", "Yes", "300"), "ts").0);
    assert_eq!(condition(&status("No", "No", "0"), 300), Condition::IoStopped);
    assert_eq!(condition(&status("Yes", "Yes", "301"), 300), Condition::LagExceeded);
}

#[test]
fn unreadable_lag_is_tagged_on_its_own() {
    assert!(run(&status("Yes", "Yes", "NULL"), "ts").0);
    assert!(run(&status("Yes", "Yes", ""), "ts").0);
    assert_eq!(condition(&status("Yes", "Yes", "NULL"), 300), Condition::LagUnreadable);
    assert_eq!(
        condition(&status("Yes", "Yes", "99999999999999999999"), 300),
        Condition::LagUnreadable
    );
    assert_eq!(condition(&status("Yes", "Yes", "18446744073709551615"), 300), Condition::LagExceeded);
}

#[test]
fn threshold_is_configurable() {
    assert!(!evaluate(&status("Yes", "Yes", "500"), 600, "ts").0);
    assert!(evaluate(&status("Yes", "Yes", "500"), 400, "ts").0);
}

#[test]
fn report_lists_every_field() {
    let mut s = status("Yes", "No", "12");
    s.master_host = "db1".to_string();
    s.master_user = "repl".to_string();
    s.master_log_file = "bin.000042".to_string();
    s.read_master_log_pos = 1207;
    s.relay_log_file = "relay.000007".to_string();
    s.relay_log_pos = 0;
    s.relay_master_log_file = "bin.000041".to_string();
    let expected = "\\n\\n*Timestamp (Beijing)*: Tue, 1 Jul 2003 10:52:37 +0800\\n\\n\
Master host: db1\\n\
Master user: repl\\n\
Slave IO running: Yes\\n\
Slave SQL running: No\\n\
Master log file: bin.000042\\n\
Master log pos: 1207\\n\
Relay log file: relay.000007\\n\
Relay log pos: 0\\n\
Relay master log file: bin.000041\\n\
Slave seconds behind master: 12\\n\\n";
    assert_eq!(report(&s, "Tue, 1 Jul 2003 10:52:37 +0800"), expected);
    assert_eq!(run(&s, "Tue, 1 Jul 2003 10:52:37 +0800").1, expected);
}

#[test]
fn evaluation_twice_gives_the_same_pair() {
    let s = status("Yes", "Yes", "320");
    let first = run(&s, "Tue, 1 Jul 2003 10:52:37 +0800");
    let second = run(&s.clone(), "Tue, 1 Jul 2003 10:52:37 +0800");
    assert_eq!(first, second);
}

#[test]
fn mock_status_is_lagging() {
    let s = ConnectorMysql.fetch_mock_status().unwrap();
    assert_eq!(s.slave_io_running, "Yes");
    assert_eq!(s.slave_sql_running, "Yes");
    assert_eq!(s.seconds_behind_master, "320");
    assert!(run(&s, "ts").0);
}

#[test]
fn queue_is_last_in_first_out() {
    let t = at("2020-01-01T00:00:00Z");
    let mut q: AlertQueue<String> = queue::add().unwrap();
    q.add(alert("a", t)).unwrap();
    q.add(alert("b", t)).unwrap();
    assert_eq!(q.len().unwrap(), 2);
    assert_eq!(q.take_first().unwrap().data, "b");
    assert_eq!(q.take_first().unwrap().data, "a");
    assert_eq!(q.len().unwrap(), 0);
}

#[test]
fn take_from_empty_queue_fails() {
    let mut q: AlertQueue<String> = queue::add().unwrap();
    assert!(matches!(q.take_first(), Err(Error::EmptyQueue)));
}

#[test]
fn window_throttles_a_continuing_failure() {
    let mut window: SentAlerts<String> = SentAlerts::initialise().unwrap();
    let mut q: AlertQueue<String> = queue::add().unwrap();
    let t0 = at("2020-01-01T00:00:00Z");
    let t10 = at("2020-01-01T00:10:00Z");
    let t31 = at("2020-01-01T00:31:00Z");

    assert!(window.screen(&mut q, alert("t0", t0), 30));
    assert_eq!(window.sent().unwrap().len(), 1);
    assert_eq!(window.sent().unwrap()[0].created_at, t0);

    assert!(!window.screen(&mut q, alert("t10", t10), 30));
    assert_eq!(window.sent().unwrap().len(), 1);
    assert_eq!(window.sent().unwrap()[0].created_at, t0);

    assert!(window.screen(&mut q, alert("t31", t31), 30));
    assert_eq!(window.sent().unwrap().len(), 1);
    assert_eq!(window.sent().unwrap()[0].created_at, t31);

    assert_eq!(q.len().unwrap(), 2);
    assert_eq!(q.take_first().unwrap().data, "t31");
    assert_eq!(q.take_first().unwrap().data, "t0");
}

#[test]
fn window_holds_one_record_after_each_cycle() {
    let mut window: SentAlerts<String> = SentAlerts::initialise().unwrap();
    let mut q: AlertQueue<String> = queue::add().unwrap();
    assert_eq!(window.sent().unwrap().len(), 0);
    for minute in [0, 5, 20, 45, 46, 90] {
        let t = at(&format!("2020-01-01T{:02}:{:02}:00Z", minute / 60, minute % 60));
        window.screen(&mut q, alert("x", t), 30);
        assert_eq!(window.sent().unwrap().len(), 1);
    }
    assert_eq!(q.len().unwrap(), 3);
    window.add(alert("y", at("2020-01-02T00:00:00Z"))).unwrap();
    assert_eq!(window.sent().unwrap().len(), 1);
}

#[test]
fn cycle_queues_an_alertable_status_once_per_window() {
    let mut window: SentAlerts<DBSlaveStatus> = SentAlerts::initialise().unwrap();
    let mut q: AlertQueue<DBSlaveStatus> = queue::add().unwrap();
    let t0 = at("2020-01-01T00:00:00Z");
    let t10 = at("2020-01-01T00:10:00Z");
    assert!(!process_status(&mut window, &mut q, status("Yes", "Yes", "5"), 300, "ts", t0, 30));
    assert_eq!(window.sent().unwrap().len(), 0);
    assert!(process_status(&mut window, &mut q, status("No", "Yes", "5"), 300, "ts", t0, 30));
    assert!(!process_status(&mut window, &mut q, status("No", "Yes", "5"), 300, "ts", t10, 30));
    assert_eq!(q.len().unwrap(), 1);
    let a = q.take_first().unwrap();
    assert_eq!(a.created_at, t0);
    assert_eq!(a.message, report(&status("No", "Yes", "5"), "ts"));
}

#[test]
fn every_dispatched_alert_is_collected() {
    let t = at("2020-01-01T00:00:00Z");
    let mut q: AlertQueue<String> = queue::add().unwrap();
    for name in ["a", "b", "c"] {
        q.add(alert(name, t)).unwrap();
    }
    let messages = dispatch_pending(&mut q);
    assert_eq!(q.len().unwrap(), 0);
    assert_eq!(messages.len(), 3);

    let client = RtmClient::get_client(&mut Handler).unwrap();
    let mut ids = Vec::new();
    for m in messages {
        ids.push(client.sender().clone().send_message(m).unwrap());
    }
    assert_eq!(ids, vec![0, 1, 2]);
    let mut texts: Vec<String> = client.receive_all().into_iter().map(|m| m.text).collect();
    texts.sort();
    assert_eq!(texts, vec!["alert a", "alert b", "alert c"]);
    assert!(client.try_receive().is_none());
}

#[test]
fn send_without_receiver_fails() {
    let client = RtmClient::get_client(&mut Handler).unwrap();
    let sender = client.sender().clone();
    drop(client);
    let r = sender.send(Message { text: "lost".to_string() });
    match r {
        Err(Error::Internal(t)) => assert_eq!(t, "sending on a closed channel"),
        _ => panic!("expected a failed send"),
    }
    assert!(matches!(sender.send_message(Message { text: "lost".to_string() }), Err(Error::Internal(_))));
}

#[test]
fn loop_runs_the_phases_in_order() {
    let mut s = start();
    assert_eq!((s.phase, s.cycle), (Phase::Probe, 1));
    let order = [
        Phase::Evaluate,
        Phase::AdmitOrSuppress,
        Phase::Dispatch,
        Phase::CollectAndNotify,
        Phase::Sleep,
        Phase::Probe,
    ];
    for expected in order {
        s = step(s, false);
        assert_eq!(s.phase, expected);
    }
    assert_eq!(s.cycle, 2);
}

#[test]
fn cancellation_collects_then_stops() {
    let s = step(step(start(), false), true);
    assert_eq!(s.phase, Phase::CollectAndNotify);
    let s = step(s, true);
    assert_eq!(s.phase, Phase::Stopped);
    assert_eq!(step(s, false).phase, Phase::Stopped);
    let asleep = LoopState { phase: Phase::Sleep, cycle: u64::MAX };
    assert_eq!(step(asleep, true).phase, Phase::Stopped);
    assert_eq!(step(asleep, false).cycle, u64::MAX);
}

#[test]
fn postgres_has_no_mock_status() {
    let r: Result<String, Error> = fetch_mocked(ConnectorPostgres);
    assert!(matches!(r, Err(Error::NotImplementedError)));
    let s: Result<DBSlaveStatus, Error> = fetch_mocked(ConnectorMysql);
    assert_eq!(s.unwrap().seconds_behind_master, "320");
}
