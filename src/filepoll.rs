//! The file-poll transport's layout and its waiting rule. A request is written
//! to the command file; the reply is polled for in the response file; the
//! status file tells that the peer is ready for the handshake.

use vstd::prelude::*;
use vstd::string::*;

use crate::error::GameRLError;

verus! {

/// Where and how the file-poll transport works.
#[derive(Debug, Clone, PartialEq, Eq)]
pub struct ZomboidConfig {
    /// Directory that holds the shared files.
    pub ipc_path: String,
    /// How long a normal request waits for its reply, in milliseconds.
    pub response_timeout_ms: u64,
    /// Pause between two polls, in milliseconds.
    pub poll_interval_ms: u64,
}

/// The path of a file in a directory.
pub open spec fn in_dir(dir: Seq<char>, file: Seq<char>) -> Seq<char> {
    dir + "/"@ + file
}

fn join(dir: &String, file: &str) -> (r: String)
    ensures
        r@ == in_dir(dir@, file@),
{
    dir.clone().concat("/").concat(file)
}

/// Text of the ready marker that the bridge writes to the status file.
pub open spec fn ready_marker_spec() -> Seq<char> {
    "{\"status\":\"ready\",\"version\":\"0.5.0\"}"@
}

impl ZomboidConfig {
    /// The layout under a home directory: files in `<home>/Zomboid/Lua`, a
    /// reply awaited for 30 s, polls 50 ms apart.
    pub fn with_home(home: &str) -> (r: ZomboidConfig)
        ensures
            r.ipc_path@ == home@ + "/Zomboid/Lua"@,
            r.response_timeout_ms == 30000,
            r.poll_interval_ms == 50,
    {
        ZomboidConfig {
            ipc_path: String::from_str(home).concat("/Zomboid/Lua"),
            response_timeout_ms: 30000,
            poll_interval_ms: 50,
        }
    }

    /// The file the bridge writes requests to.
    pub fn command_file(&self) -> (r: String)
        ensures
            r@ == in_dir(self.ipc_path@, "gamerl_command.json"@),
    {
        join(&self.ipc_path, "gamerl_command.json")
    }

    /// The file the peer writes replies to.
    pub fn response_file(&self) -> (r: String)
        ensures
            r@ == in_dir(self.ipc_path@, "gamerl_response.json"@),
    {
        join(&self.ipc_path, "gamerl_response.json")
    }

    /// The file whose existence tells that the peer is ready.
    pub fn status_file(&self) -> (r: String)
        ensures
            r@ == in_dir(self.ipc_path@, "gamerl_status.json"@),
    {
        join(&self.ipc_path, "gamerl_status.json")
    }

    /// Whether a wait that has lasted `elapsed_ms` gives up. The handshake
    /// waits without bound, since the peer may take long to start; every
    /// other request gives up after the response timeout.
    pub fn wait_expired(&self, handshake: bool, elapsed_ms: u64) -> (r: bool)
        ensures
            r == (!handshake && elapsed_ms > self.response_timeout_ms),
    {
        !handshake && elapsed_ms > self.response_timeout_ms
    }
}

/// The ready marker.
pub fn ready_marker() -> (r: String)
    ensures
        r@ == ready_marker_spec(),
{
    String::from_str("{\"status\":\"ready\",\"version\":\"0.5.0\"}")
}

/// The error of a request whose reply did not come in time.
pub fn response_timeout() -> (r: GameRLError)
    ensures
        r matches GameRLError::IpcError(s) && s@ == "Response timeout"@,
{
    GameRLError::IpcError(String::from_str("Response timeout"))
}

/// The error of a request sent before the handshake completed.
pub fn not_connected() -> (r: GameRLError)
    ensures
        r matches GameRLError::IpcError(s) && s@ == "Not connected"@,
{
    GameRLError::IpcError(String::from_str("Not connected"))
}

} // verus!
