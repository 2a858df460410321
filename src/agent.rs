//! The spawn protocol between the coordinator and its companion agent,
//! which runs the capture binary in another privilege or session context.
//! One JSON request per connection, one JSON response back, each at most
//! `MAX_MESSAGE` bytes; the transport and the JSON encoding live with the
//! caller.
use vstd::prelude::*;
use crate::text::decimal_of;

verus! {

/// The most bytes read for one message in either direction.
pub const MAX_MESSAGE: usize = 8192;

/// A request to the agent.
#[derive(Clone, Debug, PartialEq, Eq)]
pub struct AgentCommand {
    pub command: String,
    pub cli_path: String,
    pub args: Vec<String>,
}

/// The agent's answer: whether it succeeded, a message, and the process id
/// of what it spawned.
#[derive(Clone, Debug, PartialEq, Eq)]
pub struct AgentResponse {
    pub success: bool,
    pub message: String,
    pub pid: Option<u32>,
}

/// The listening side, bound to a loopback port.
#[derive(Clone, Debug, PartialEq, Eq)]
pub struct AgentServer {
    pub port: u16,
}

/// The requesting side, with the agent's address.
#[derive(Clone, Debug, PartialEq, Eq)]
pub struct AgentClient {
    pub agent_addr: String,
}

/// Why the agent did not start the capture.
#[derive(Clone, Debug, PartialEq, Eq)]
pub enum AgentError {
    /// The agent reported success without a process id.
    NoPid,
    /// The agent reported failure; the text is its message.
    Refused(String),
}

/// The reply to a command that is not `start`.
pub open spec fn refusal_message(command: Seq<char>) -> Seq<char> {
    "Unknown command: "@ + command
}

/// The reply to a `start` command, given what spawning gave: the child's
/// process id where the platform has one, or the OS's error text.
pub open spec fn spawn_reply(outcome: Result<Option<u32>, String>) -> (bool, Seq<char>, Option<u32>) {
    match outcome {
        Ok(pid) => (true, "Process started successfully"@, pid),
        Err(why) => (false, "Failed to start process: "@ + why@, None),
    }
}

/// The bytes of one received message: the first `n` of `buf`, or nothing
/// when the read gave no bytes.
pub fn received_message(buf: &Vec<u8>, n: usize) -> (r: Option<Vec<u8>>)
    requires
        n <= buf@.len(),
    ensures
        n == 0 ==> r is None,
        n > 0 ==> (r matches Some(m) && m@ == buf@.subrange(0, n as int)),
{
    if n == 0 {
        return None;
    }
    let mut out: Vec<u8> = Vec::new();
    let mut i: usize = 0;
    while i < n
        invariant
            n <= buf@.len(),
            i <= n,
            out@ == buf@.subrange(0, i as int),
        decreases n - i,
    {
        out.push(buf[i]);
        i = i + 1;
        proof {
            assert(out@ =~= buf@.subrange(0, i as int));
        }
    }
    Some(out)
}

impl AgentServer {
    /// A server for the loopback `port`.
    pub fn new(port: u16) -> (r: Self)
        ensures
            r.port == port,
    {
        Self { port }
    }

    /// The address to listen on: `127.0.0.1:<port>`.
    pub fn listen_address(&self) -> (r: String)
        ensures
            r@ == "127.0.0.1:"@ + decimal_of(self.port as int),
    {
        let mut addr = String::from_str("127.0.0.1:");
        let port = crate::text::decimal_text(self.port as i64);
        addr.append(port.as_str());
        addr
    }
}

/// Answers one command. `start` spawns `cli_path` with `args` through
/// `launch`, which gives the child's process id or the OS's error text; any
/// other command is refused without spawning anything.
pub fn handle_command<F: FnOnce(String, Vec<String>) -> Result<Option<u32>, String>>(
    cmd: AgentCommand,
    launch: F,
) -> (r: AgentResponse)
    requires
        cmd.command@ == "start"@ ==> launch.requires((cmd.cli_path, cmd.args)),
    ensures
        cmd.command@ == "start"@ ==> exists|outcome: Result<Option<u32>, String>|
            launch.ensures((cmd.cli_path, cmd.args), outcome) && (r.success, r.message@, r.pid)
                == spawn_reply(outcome),
        cmd.command@ != "start"@ ==> !r.success && r.pid is None && r.message@ == refusal_message(
            cmd.command@,
        ),
{
    if crate::text::same_text(cmd.command.as_str(), "start") {
        let outcome = launch(cmd.cli_path, cmd.args);
        return spawn_response(outcome);
    }
    let mut message = String::from_str("Unknown command: ");
    message.append(cmd.command.as_str());
    AgentResponse { success: false, message, pid: None }
}

/// The reply to a `start` command, given what spawning gave.
pub fn spawn_response(outcome: Result<Option<u32>, String>) -> (r: AgentResponse)
    ensures
        (r.success, r.message@, r.pid) == spawn_reply(outcome),
{
    match outcome {
        Ok(pid) => AgentResponse {
            success: true,
            message: String::from_str("Process started successfully"),
            pid,
        },
        Err(why) => {
            let mut message = String::from_str("Failed to start process: ");
            message.append(why.as_str());
            AgentResponse { success: false, message, pid: None }
        },
    }
}

impl AgentClient {
    /// A client for the agent at `agent_addr`.
    pub fn new(agent_addr: String) -> (r: Self)
        ensures
            r.agent_addr == agent_addr,
    {
        Self { agent_addr }
    }

    /// The request that asks the agent to spawn `cli_path` with `args`.
    pub fn start_command(cli_path: String, args: Vec<String>) -> (r: AgentCommand)
        ensures
            r.command@ == "start"@,
            r.cli_path == cli_path,
            r.args == args,
    {
        AgentCommand { command: String::from_str("start"), cli_path, args }
    }

    /// The process id that the agent's answer to a `start` gives: refused
    /// when it reports failure, and an error when it reports success
    /// without a process id.
    pub fn read_start_response(response: AgentResponse) -> (r: Result<u32, AgentError>)
        ensures
            response.success && response.pid is Some ==> r == Ok::<u32, AgentError>(
                response.pid->Some_0,
            ),
            response.success && response.pid is None ==> r == Err::<u32, AgentError>(
                AgentError::NoPid,
            ),
            !response.success ==> r == Err::<u32, AgentError>(
                AgentError::Refused(response.message),
            ),
    {
        if response.success {
            match response.pid {
                Some(pid) => Ok(pid),
                None => Err(AgentError::NoPid),
            }
        } else {
            Err(AgentError::Refused(response.message))
        }
    }
}

} // verus!
