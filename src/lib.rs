//! Replication health monitoring: evaluating a replica's status, queueing alerts,
//! throttling a continuing failure with an antispam window, and dispatching alerts
//! through a channel, each stated as a contract and proved.

pub mod alerts;
pub mod configure;
pub mod database;
pub mod dbslave;
pub mod errors;
pub mod monitor;
pub mod monitors;
pub mod mpsc;
pub mod opts;
pub mod runner;
pub mod text;
pub mod utils;
pub mod wrappers;
