//! Typed messages between GUI processes and their parent.
//!
//! Two channels use this vocabulary. The GUI multiplexer socket carries
//! [`GuiCommand`] so a second `devserial monitor` invocation opens a window in
//! the running instance, and the monitor subprocess reports user actions to its
//! parent as [`MonitorEvent`]. Both are newline-delimited JSON.
use vstd::prelude::*;
use vstd::string::*;

use crate::modem::FileTransferProtocol;
use crate::protocol::PortSettings;
use crate::text::concat2;

verus! {

/// Request payload to open a port in the GUI.
#[derive(Debug, Clone, PartialEq, Eq)]
pub struct OpenPortRequest {
    pub port_name: String,
    pub db_path: String,
    pub port_info: String,
    /// Line settings for the receiving instance to open the port with.
    ///
    /// `None` means the sender owns the port and the receiving window should
    /// only display the capture database. That is the case for the monitor
    /// subprocess started by the MCP server.
    pub settings: Option<PortSettings>,
}

/// Commands accepted by the running GUI instance over its local socket.
#[derive(Debug, Clone, PartialEq, Eq)]
pub enum GuiCommand {
    /// Liveness check, answered with the list of open ports.
    Ping,
    /// Open a window for a port.
    OpenPort(OpenPortRequest),
    /// Bring an existing window to the front.
    FocusPort { port_name: String },
    /// Close a window.
    ClosePort { port_name: String },
}

/// Responses sent by the GUI instance.
#[derive(Debug, Clone, PartialEq, Eq)]
pub enum GuiResponse {
    /// Alive, with the ports currently open in the instance.
    Pong { open_ports: Vec<String> },
    /// Command accepted.
    Accepted,
    /// Command refused.
    Error(String),
}

/// A user action in a monitor window that its parent process must carry out.
///
/// The monitor subprocess has no serial handle of its own; the parent owns the
/// port and executes these through the command engine.
#[derive(Debug, Clone, PartialEq, Eq)]
pub enum MonitorEvent {
    /// Run a macro by name.
    Macro { name: String },
    /// Set control lines.
    Signal { dtr: Option<bool>, rts: Option<bool> },
    /// Write raw bytes, hex encoded.
    Write { hex: String },
    /// Change the line settings of the port.
    Reconfigure { settings: PortSettings },
    /// Send an RS-232 BREAK pulse.
    Break { duration_ms: Option<u64> },
    /// Send a file with a modem protocol.
    SendFile { path: String, protocol: FileTransferProtocol },
    /// Receive a file with a modem protocol.
    ReceiveFile { dir: String, protocol: FileTransferProtocol },
}

/// What an answer of the window means.
pub open spec fn is_acknowledged(
    reply: Option<Result<GuiResponse, String>>,
    r: Result<bool, String>,
) -> bool {
    match reply {
        None => r == Ok::<bool, String>(false),
        Some(Ok(GuiResponse::Error(e))) => r == Err::<bool, String>(e),
        Some(Ok(_)) => r == Ok::<bool, String>(true),
        Some(Err(e)) => r matches Err(m) && m@ == "malformed GUI response: "@ + e@,
    }
}

/// Whether a running GUI instance took a request, given the line with which it
/// answered, if it did.
pub fn acknowledged(reply: Option<Result<GuiResponse, String>>) -> (r: Result<bool, String>)
    ensures
        is_acknowledged(reply, r),
{
    match reply {
        None => Ok(false),
        Some(Ok(GuiResponse::Accepted)) => Ok(true),
        Some(Ok(GuiResponse::Pong { .. })) => Ok(true),
        Some(Ok(GuiResponse::Error(e))) => Err(e),
        Some(Err(e)) => Err(concat2("malformed GUI response: ", e.as_str())),
    }
}

/// What a GUI instance does with a line from its socket.
#[derive(Debug, PartialEq, Eq)]
pub enum GuiStep {
    /// Answer with this.
    Answer(GuiResponse),
    /// Hand the command to the windows, then answer with `delivered`.
    Deliver(GuiCommand),
}

/// What is done with a command to the window.
pub open spec fn is_received(
    parsed: Result<GuiCommand, String>,
    open_ports: Vec<String>,
    r: GuiStep,
) -> bool {
    match parsed {
        Ok(GuiCommand::Ping) => r == GuiStep::Answer(GuiResponse::Pong { open_ports }),
        Ok(command) => r == GuiStep::Deliver(command),
        Err(e) => r matches GuiStep::Answer(GuiResponse::Error(m)) && m@
            == "malformed command: "@ + e@,
    }
}

/// What a GUI instance does with a line from its socket, given what the line was
/// found to be and which ports it shows.
pub fn receive(parsed: Result<GuiCommand, String>, open_ports: Vec<String>) -> (r: GuiStep)
    ensures
        is_received(parsed, open_ports, r),
{
    match parsed {
        Ok(GuiCommand::Ping) => GuiStep::Answer(GuiResponse::Pong { open_ports }),
        Ok(command) => GuiStep::Deliver(command),
        Err(e) => GuiStep::Answer(
            GuiResponse::Error(concat2("malformed command: ", e.as_str())),
        ),
    }
}

/// What a command to the window is answered.
pub open spec fn is_delivered(ok: bool, r: GuiResponse) -> bool {
    if ok {
        r is Accepted
    } else {
        r matches GuiResponse::Error(m) && m@ == "GUI is shutting down"@
    }
}

/// The answer to a command that was handed to the windows, or could not be.
pub fn delivered(ok: bool) -> (r: GuiResponse)
    ensures
        is_delivered(ok, r),
{
    if ok {
        GuiResponse::Accepted
    } else {
        GuiResponse::Error("GUI is shutting down".to_owned())
    }
}

} // verus!
