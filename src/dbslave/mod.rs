use crate::errors::Error;
use vstd::prelude::*;

pub mod alertable;

verus! {

/// The MySQL replica whose status is probed.
#[derive(Debug)]
pub struct ConnectorMysql;

/// A PostgreSQL replica; no probe exists for it.
#[derive(Debug)]
pub struct ConnectorPostgres;

/// One capture of a replica's replication status (`SHOW SLAVE STATUS`).
#[derive(Debug, Clone)]
pub struct DBSlaveStatus {
    pub master_host: String,
    pub master_user: String,
    pub slave_io_running: String,
    pub slave_sql_running: String,
    pub master_log_file: String,
    pub read_master_log_pos: u64,
    pub relay_log_file: String,
    pub relay_log_pos: u64,
    pub relay_master_log_file: String,
    /// As the server wrote it; `NULL`, or any text that is not a number, when replication
    /// is stopped.
    pub seconds_behind_master: String,
}

impl DBSlaveStatus {
    /// A status with empty texts, zero positions and a lag of `0`.
    pub open spec fn is_blank(&self) -> bool {
        &&& self.master_host@ == Seq::<char>::empty()
        &&& self.master_user@ == Seq::<char>::empty()
        &&& self.master_log_file@ == Seq::<char>::empty()
        &&& self.read_master_log_pos == 0
        &&& self.relay_log_file@ == Seq::<char>::empty()
        &&& self.relay_log_pos == 0
        &&& self.relay_master_log_file@ == Seq::<char>::empty()
    }
}

impl Default for DBSlaveStatus {
    fn default() -> (r: DBSlaveStatus)
        ensures
            r.is_blank(),
            r.slave_io_running@ == Seq::<char>::empty(),
            r.slave_sql_running@ == Seq::<char>::empty(),
            r.seconds_behind_master@ == "0"@,
    {
        DBSlaveStatus {
            master_host: String::new(),
            master_user: String::new(),
            slave_io_running: String::new(),
            slave_sql_running: String::new(),
            master_log_file: String::new(),
            read_master_log_pos: 0,
            relay_log_file: String::new(),
            relay_log_pos: 0,
            relay_master_log_file: String::new(),
            seconds_behind_master: String::from_str("0"),
        }
    }
}

/// A source of a fixed status, for runs without a database.
pub trait FetchMock<T> {
    /// Whether `r` is what the source gives.
    spec fn mock_fetched(&self, r: T) -> bool;

    fn fetch_mock_status(&self) -> (r: T)
        ensures
            self.mock_fetched(r),
    ;
}

impl FetchMock<Result<DBSlaveStatus, Error>> for ConnectorMysql {
    /// Both threads running, 320 seconds behind.
    open spec fn mock_fetched(&self, r: Result<DBSlaveStatus, Error>) -> bool {
        r matches Ok(s) && s.is_blank() && s.slave_io_running@ == "Yes"@
            && s.slave_sql_running@ == "Yes"@ && s.seconds_behind_master@ == "320"@
    }

    fn fetch_mock_status(&self) -> (r: Result<DBSlaveStatus, Error>) {
        let mut status = DBSlaveStatus::default();
        status.slave_io_running = String::from_str("Yes");
        status.slave_sql_running = String::from_str("Yes");
        status.seconds_behind_master = String::from_str("320");
        Ok(status)
    }
}

impl FetchMock<Result<String, Error>> for ConnectorPostgres {
    /// No status exists for PostgreSQL.
    open spec fn mock_fetched(&self, r: Result<String, Error>) -> bool {
        r matches Err(e) && e is NotImplementedError
    }

    fn fetch_mock_status(&self) -> (r: Result<String, Error>) {
        Err(Error::NotImplementedError)
    }
}

/// The fixed status of `connector`.
pub fn fetch_mocked<T, U>(connector: T) -> (r: U) where T: FetchMock<U>
    ensures
        connector.mock_fetched(r),
{
    connector.fetch_mock_status()
}

} // verus!
