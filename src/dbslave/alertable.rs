use crate::dbslave::DBSlaveStatus;
use crate::text::{decimal, parse_unsigned, parsed_u64, push_decimal};
use vstd::prelude::*;

verus! {

/// Seconds behind the primary above which a replica is alertable, unless configured otherwise.
pub const BEHIND_MASTER_MAX: u64 = 300;

/// Why a status is alertable, or that it is not.
#[derive(Debug, Clone, Copy, PartialEq, Eq, Structural)]
pub enum Condition {
    Healthy,
    /// The IO thread does not report `Yes`.
    IoStopped,
    /// The SQL thread does not report `Yes`.
    SqlStopped,
    /// The lag is no number: replication was stopped.
    LagUnreadable,
    /// The lag is a number above the threshold.
    LagExceeded,
}

/// Whether a status calls for a notification.
pub open spec fn alertable(s: DBSlaveStatus, threshold: nat) -> bool {
    ||| s.slave_io_running@ != "Yes"@
    ||| s.slave_sql_running@ != "Yes"@
    ||| match parsed_u64(s.seconds_behind_master@) {
        Some(lag) => lag > threshold,
        None => true,
    }
}

/// The first reason, in the order of the variants, for which a status is alertable.
pub open spec fn condition_of(s: DBSlaveStatus, threshold: nat) -> Condition {
    if s.slave_io_running@ != "Yes"@ {
        Condition::IoStopped
    } else if s.slave_sql_running@ != "Yes"@ {
        Condition::SqlStopped
    } else {
        match parsed_u64(s.seconds_behind_master@) {
            Some(lag) => if lag > threshold {
                Condition::LagExceeded
            } else {
                Condition::Healthy
            },
            None => Condition::LagUnreadable,
        }
    }
}

/// The report sent for a status: the timestamp, then each field on a line of its own.
/// Line breaks are written as the two characters `\n`, as a JSON string holds them.
pub open spec fn status_report(s: DBSlaveStatus, timestamp: Seq<char>) -> Seq<char> {
    "\\n\\n*Timestamp (Beijing)*: "@ + timestamp + "\\n\\n"@ + "Master host: "@ + s.master_host@
        + "\\n"@ + "Master user: "@ + s.master_user@ + "\\n"@ + "Slave IO running: "@
        + s.slave_io_running@ + "\\n"@ + "Slave SQL running: "@ + s.slave_sql_running@ + "\\n"@
        + "Master log file: "@ + s.master_log_file@ + "\\n"@ + "Master log pos: "@ + decimal(
        s.read_master_log_pos as nat,
    ) + "\\n"@ + "Relay log file: "@ + s.relay_log_file@ + "\\n"@ + "Relay log pos: "@
        + decimal(s.relay_log_pos as nat) + "\\n"@ + "Relay master log file: "@
        + s.relay_master_log_file@ + "\\n"@ + "Slave seconds behind master: "@
        + s.seconds_behind_master@ + "\\n\\n"@
}

/// Whether two statuses hold the same values.
pub open spec fn same_status(a: DBSlaveStatus, b: DBSlaveStatus) -> bool {
    &&& a.master_host@ == b.master_host@
    &&& a.master_user@ == b.master_user@
    &&& a.slave_io_running@ == b.slave_io_running@
    &&& a.slave_sql_running@ == b.slave_sql_running@
    &&& a.master_log_file@ == b.master_log_file@
    &&& a.read_master_log_pos == b.read_master_log_pos
    &&& a.relay_log_file@ == b.relay_log_file@
    &&& a.relay_log_pos == b.relay_log_pos
    &&& a.relay_master_log_file@ == b.relay_master_log_file@
    &&& a.seconds_behind_master@ == b.seconds_behind_master@
}

fn is_yes(s: &String) -> (r: bool)
    ensures
        r == (s@ == "Yes"@),
{
    let yes = String::from_str("Yes");
    *s == yes
}

/// Why `slave_data` is alertable at the given lag threshold, or `Healthy`.
pub fn condition(slave_data: &DBSlaveStatus, threshold: u64) -> (r: Condition)
    ensures
        r == condition_of(*slave_data, threshold as nat),
{
    if !is_yes(&slave_data.slave_io_running) {
        Condition::IoStopped
    } else if !is_yes(&slave_data.slave_sql_running) {
        Condition::SqlStopped
    } else {
        match parse_unsigned(slave_data.seconds_behind_master.as_str()) {
            Some(lag) => if lag > threshold {
                Condition::LagExceeded
            } else {
                Condition::Healthy
            },
            None => Condition::LagUnreadable,
        }
    }
}

/// The report of `slave_data` at the given timestamp text.
pub fn report(slave_data: &DBSlaveStatus, beijing_timestamp: &str) -> (r: String)
    ensures
        r@ == status_report(*slave_data, beijing_timestamp@),
{
    let mut m = String::new();
    m.append("\\n\\n*Timestamp (Beijing)*: ");
    m.append(beijing_timestamp);
    m.append("\\n\\n");
    m.append("Master host: ");
    m.append(slave_data.master_host.as_str());
    m.append("\\n");
    m.append("Master user: ");
    m.append(slave_data.master_user.as_str());
    m.append("\\n");
    m.append("Slave IO running: ");
    m.append(slave_data.slave_io_running.as_str());
    m.append("\\n");
    m.append("Slave SQL running: ");
    m.append(slave_data.slave_sql_running.as_str());
    m.append("\\n");
    m.append("Master log file: ");
    m.append(slave_data.master_log_file.as_str());
    m.append("\\n");
    m.append("Master log pos: ");
    push_decimal(&mut m, slave_data.read_master_log_pos);
    m.append("\\n");
    m.append("Relay log file: ");
    m.append(slave_data.relay_log_file.as_str());
    m.append("\\n");
    m.append("Relay log pos: ");
    push_decimal(&mut m, slave_data.relay_log_pos);
    m.append("\\n");
    m.append("Relay master log file: ");
    m.append(slave_data.relay_master_log_file.as_str());
    m.append("\\n");
    m.append("Slave seconds behind master: ");
    m.append(slave_data.seconds_behind_master.as_str());
    m.append("\\n\\n");
    assert(m@ =~= status_report(*slave_data, beijing_timestamp@));
    m
}

/// Evaluates a status at a lag threshold: whether it is alertable, and its report.
pub fn evaluate(slave_data: &DBSlaveStatus, threshold: u64, beijing_timestamp: &str) -> (r: (
    bool,
    String,
))
    ensures
        r.0 == alertable(*slave_data, threshold as nat),
        r.1@ == status_report(*slave_data, beijing_timestamp@),
{
    let c = condition(slave_data, threshold);
    proof {
        lemma_condition_matches_alertable(*slave_data, threshold as nat);
    }
    (c != Condition::Healthy, report(slave_data, beijing_timestamp))
}

/// Evaluates a status at the default threshold of `BEHIND_MASTER_MAX` seconds.
pub fn run(slave_data: &DBSlaveStatus, beijing_timestamp: &str) -> (r: (bool, String))
    ensures
        r.0 == alertable(*slave_data, BEHIND_MASTER_MAX as nat),
        r.1@ == status_report(*slave_data, beijing_timestamp@),
{
    evaluate(slave_data, BEHIND_MASTER_MAX, beijing_timestamp)
}

/// A status is alertable exactly when it has a reason to be.
pub proof fn lemma_condition_matches_alertable(s: DBSlaveStatus, threshold: nat)
    ensures
        alertable(s, threshold) <==> condition_of(s, threshold) != Condition::Healthy,
{
}

/// A stopped IO thread, a stopped SQL thread, or a lag above the threshold makes a status
/// alertable.
pub proof fn lemma_unhealthy_is_alertable(s: DBSlaveStatus, threshold: nat)
    requires
        s.slave_io_running@ != "Yes"@ || s.slave_sql_running@ != "Yes"@ || match parsed_u64(
            s.seconds_behind_master@,
        ) {
            Some(lag) => lag > threshold,
            None => false,
        },
    ensures
        alertable(s, threshold),
{
}

/// Evaluation has no hidden state: statuses that hold the same values, evaluated at the same
/// threshold and timestamp, give the same verdict and the same report.
pub proof fn lemma_evaluation_is_pure(
    a: DBSlaveStatus,
    b: DBSlaveStatus,
    threshold: nat,
    timestamp: Seq<char>,
)
    requires
        same_status(a, b),
    ensures
        alertable(a, threshold) == alertable(b, threshold),
        status_report(a, timestamp) == status_report(b, timestamp),
        condition_of(a, threshold) == condition_of(b, threshold),
{
}

} // verus!
