use vstd::prelude::*;

verus! {

/// Server-wide figures shown in the dashboard's header.
#[derive(Debug)]
pub struct PGSystemInfo {
    pub version: String,
    pub uptime: String,
    pub nb_of_conn: i64,
}

/// One client backend as the activity view reports it.
#[derive(Debug)]
pub struct PGStatActivity {
    pub datname: String,
    pub pid: i32,
    pub usename: String,
    pub client_addr: String,
    pub client_port: i32,
    pub xact_start: Option<String>,
    pub backend_duration: String,
    pub query_duration: String,
    pub state: String,
    pub query: String,
}

} // verus!
