//! The auxiliary deployment servers: which exist, and what is reported of
//! one.

use vstd::prelude::*;
use vstd::string::*;
use crate::text::{append_digits, digits, text_is};

verus! {

/// What is reported of one deployment server.
#[derive(Debug, Clone)]
pub struct ServerStatus {
    pub server_id: String,
    pub running: bool,
    pub port: u16,
    pub pid: Option<u32>,
}

/// The script and the port of a deployment server, for the three servers
/// that exist.
pub open spec fn server_config(server_id: Seq<char>) -> Option<(Seq<char>, u16)> {
    if server_id == "fabric"@ {
        Some(("deploy_java_api.py"@, 8585u16))
    } else if server_id == "bukkit"@ {
        Some(("deploy_bukkit_api.py"@, 8586u16))
    } else if server_id == "bedrock"@ {
        Some(("deploy_bedrock_api.py"@, 8587u16))
    } else {
        None
    }
}

/// The text that reports an unknown server.
pub open spec fn unknown_server_text(server_id: Seq<char>) -> Seq<char> {
    "Unknown server: "@ + server_id
}

/// The script and the port of the server `server_id`; `None` for any other
/// name than `fabric`, `bukkit` and `bedrock`.
pub fn get_server_config(server_id: &str) -> (config: Option<(&'static str, u16)>)
    ensures
        match config {
            Some((script, port)) => server_config(server_id@) == Some((script@, port)),
            None => server_config(server_id@) is None,
        },
{
    if text_is(server_id, "fabric") {
        Some(("deploy_java_api.py", 8585))
    } else if text_is(server_id, "bukkit") {
        Some(("deploy_bukkit_api.py", 8586))
    } else if text_is(server_id, "bedrock") {
        Some(("deploy_bedrock_api.py", 8587))
    } else {
        None
    }
}

/// What is reported of the server `server_id` when `pid` is the process that
/// runs it, if any: it runs exactly if there is such a process. An unknown
/// server gives the error text that names it.
pub fn server_status(server_id: &str, pid: Option<u32>) -> (status: Result<ServerStatus, String>)
    ensures
        match status {
            Ok(s) => server_config(server_id@) is Some && s.server_id@ == server_id@ && s.running
                == pid.is_some() && s.port == server_config(server_id@).unwrap().1 && s.pid == pid,
            Err(e) => server_config(server_id@) is None && e@ == unknown_server_text(server_id@),
        },
{
    match get_server_config(server_id) {
        Some((_, port)) => Ok(
            ServerStatus { server_id: String::from_str(server_id), running: pid.is_some(), port, pid },
        ),
        None => {
            let mut e = String::from_str("Unknown server: ");
            e.append(server_id);
            Err(e)
        },
    }
}

/// The text that reports that a server runs already.
pub open spec fn already_running_text(server_id: Seq<char>) -> Seq<char> {
    "Server "@ + server_id + " is already running"@
}

/// The text that reports that a server was started.
pub open spec fn started_text(server_id: Seq<char>, port: u16) -> Seq<char> {
    server_id + " server started on port "@ + digits(port as nat)
}

/// Decides whether the server `server_id` may be started, given whether it
/// runs already: an unknown server is refused first, then one that runs;
/// otherwise the script to run and the port to free are returned.
pub fn start_plan(server_id: &str, running: bool) -> (plan: Result<(&'static str, u16), String>)
    ensures
        match plan {
            Ok((script, port)) => !running && server_config(server_id@) == Some((script@, port)),
            Err(e) => if server_config(server_id@) is None {
                e@ == unknown_server_text(server_id@)
            } else {
                running && e@ == already_running_text(server_id@)
            },
        },
{
    match get_server_config(server_id) {
        None => {
            let mut e = String::from_str("Unknown server: ");
            e.append(server_id);
            Err(e)
        },
        Some(config) => {
            if running {
                let mut e = String::from_str("Server ");
                e.append(server_id);
                e.append(" is already running");
                Err(e)
            } else {
                Ok(config)
            }
        },
    }
}

/// Writes the text that reports that a server was started.
pub fn started_message(server_id: &str, port: u16) -> (text: String)
    ensures
        text@ == started_text(server_id@, port),
{
    let mut text = String::from_str(server_id);
    text.append(" server started on port ");
    append_digits(&mut text, port as u64);
    text
}

} // verus!
