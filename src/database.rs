use vstd::prelude::*;

verus! {

/// A MySQL server to query.
#[derive(Debug)]
pub struct ConnectorMysql {

}

/// A PostgreSQL server; no query exists for it.
#[derive(Debug)]
pub struct ConnectorPostgres {

}

/// One row of `SHOW SLAVE STATUS`, with the lag as a number.
#[derive(Debug)]
pub struct Data {
    pub master_host: String,
    pub master_user: String,
    pub slave_io_running: String,
    pub slave_sql_running: String,
    pub master_log_file: String,
    pub read_master_log_pos: u64,
    pub relay_log_file: String,
    pub relay_log_pos: u64,
    pub relay_master_log_file: String,
    pub seconds_behind_master: u64,
}

} // verus!
