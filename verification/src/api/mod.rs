//! What the query interface keeps and decides: the latest reading of every
//! device, which requests are logged, and how requests are told apart.

use vstd::prelude::*;

pub mod request_id_middleware;
pub mod request_logger_middleware;
pub mod types;

verus! {

/// The interface listens on every address of the machine.
pub const BIND_HOST: &'static str = "0.0.0.0";

/// The path that answers whether the process is alive.
pub const HEALTH_PATH: &'static str = "/health";

/// What the health path answers.
pub const HEALTH_BODY: &'static str = "Running";

/// The path that answers with the latest readings.
pub const VALUES_PATH: &'static str = "/";

/// The paths whose requests are not logged: the health path alone.
pub fn ignored_paths() -> (paths: Vec<String>)
    ensures
        paths@.len() == 1,
        paths@[0]@ == HEALTH_PATH@,
{
    let mut paths: Vec<String> = Vec::new();
    paths.push(HEALTH_PATH.to_owned());
    paths
}

} // verus!
