//! Attached mode: a window or a terminal on a port the daemon holds.
//!
//! A serial port can be opened once, so both monitors ask the daemon to open the
//! line, then read the capture it writes and send every action back to it. What
//! that buys, beyond one kind of port: the capture survives the window.
use vstd::prelude::*;
use vstd::string::*;

use crate::config::PortConfig;
use crate::hex;
use crate::hex::encode;
use crate::ipc::IpcError;
use crate::modem::FileTransferProtocol;
use crate::monitor;
use crate::paths::{default_data_dir, Environment};
use crate::protocol::{PortSettings, RequestPayload, ResponsePayload, RestState};
use crate::reader::ConnectionState;
use crate::text;
use crate::text::{concat2, concat3, decimal, utf8_text};

verus! {

/// How often the link state is read back from the daemon, in milliseconds.
///
/// Half a second is below what a person notices on an indicator and far above
/// what the request costs on a local socket.
pub const LINK_POLL_INTERVAL_MS: u64 = 500;

/// Why an answer of another shape is refused.
pub const UNEXPECTED: &'static str = "unexpected answer from the daemon";

/// Where the lines lie.
pub open spec fn is_data_dir(configured: Option<String>, env: &Environment, r: String) -> bool {
    r@ == (match configured {
        Some(d) => d@,
        None => env.spec_data_dir(),
    })
}

/// Resolve the data directory for an attached session: that of the
/// configuration, where it could be read, so that it agrees with the daemon on
/// where the capture database for a port lives.
pub fn resolve_data_dir(configured: Option<String>, env: &Environment) -> (r: String)
    ensures
        is_data_dir(configured, env, r),
{
    match configured {
        Some(d) => d,
        None => default_data_dir(env),
    }
}

/// Protocol settings for a port configuration.
pub fn config_settings(config: &PortConfig) -> (r: PortSettings)
    ensures
        r == monitor::all_settings(*config),
{
    PortSettings {
        baudrate: Some(config.baudrate),
        data_bits: Some(config.data_bits),
        parity: Some(config.parity),
        stop_bits: Some(config.stop_bits),
        flow_control: Some(config.flow_control),
    }
}

/// The settings of a port, sent to the daemon, come to the same settings there,
/// whatever the port had before, as far as the line goes.
pub proof fn settings_round_trip(config: PortConfig, base: PortConfig)
    ensures
        ({
            let merged = crate::engine::ports::merged(base, monitor::all_settings(config));
            &&& merged.baudrate == config.baudrate
            &&& merged.data_bits == config.data_bits
            &&& merged.parity == config.parity
            &&& merged.stop_bits == config.stop_bits
            &&& merged.flow_control == config.flow_control
        }),
{
}

// ---------------------------------------------------------------------------
// Requests of a surface
// ---------------------------------------------------------------------------

/// Something a surface asks the hardware to do.
#[derive(Debug, Clone, PartialEq, Eq)]
pub enum PortAction {
    /// Hold the line low for a while.
    Break { duration_ms: Option<u64> },
    /// Set one or both control lines.
    Signal { dtr: Option<bool>, rts: Option<bool> },
    /// Run a configured macro by name.
    Macro { name: String },
}

impl PortAction {
    /// What an action asks of the daemon.
    pub open spec fn asks(self, port: &str, r: RequestPayload) -> bool {
        &&& r.target() == Some(port@)
        &&& match self {
            PortAction::Break { duration_ms } => r matches RequestPayload::SendBreak {
                duration_ms: d,
                ..
            } && d == duration_ms,
            PortAction::Signal { dtr, rts } => r matches RequestPayload::SetSignal {
                dtr: a,
                rts: b,
                ..
            } && a == dtr && b == rts,
            PortAction::Macro { name } => r matches RequestPayload::ExecuteMacro {
                macro_name,
                ..
            } && macro_name@ == name@,
        }
    }

    /// The request that carries out this action.
    pub fn payload(&self, port: &str) -> (r: RequestPayload)
        ensures
            self.asks(port, r),
    {
        match self {
            PortAction::Break { duration_ms } => RequestPayload::SendBreak {
                port: port.to_owned(),
                duration_ms: *duration_ms,
            },
            PortAction::Signal { dtr, rts } => RequestPayload::SetSignal {
                port: port.to_owned(),
                dtr: *dtr,
                rts: *rts,
            },
            PortAction::Macro { name } => RequestPayload::ExecuteMacro {
                port: port.to_owned(),
                macro_name: name.clone(),
            },
        }
    }
}

/// What a surface asks of the HTTP interface.
#[derive(Debug, Clone, PartialEq, Eq)]
pub enum RestRequest {
    /// Report the state without changing it.
    Status,
    /// Start listening, optionally somewhere other than configured.
    Enable { bind: Option<String>, port: Option<u16> },
    /// Stop listening.
    Disable,
}

impl RestRequest {
    /// What a request asks of the daemon.
    pub open spec fn asks(self, r: RequestPayload) -> bool {
        r == (match self {
            RestRequest::Status => RequestPayload::RestStatus,
            RestRequest::Enable { bind, port } => RequestPayload::RestEnable {
                bind,
                port,
                token: None,
            },
            RestRequest::Disable => RequestPayload::RestDisable,
        })
    }

    /// The request that carries this out.
    pub fn payload(self) -> (r: RequestPayload)
        ensures
            self.asks(r),
    {
        match self {
            RestRequest::Status => RequestPayload::RestStatus,
            RestRequest::Enable { bind, port } => RequestPayload::RestEnable {
                bind,
                port,
                token: None,
            },
            RestRequest::Disable => RequestPayload::RestDisable,
        }
    }
}

/// What the daemon says of its web service.
pub open spec fn tells_rest(response: ResponsePayload, r: Result<RestState, String>) -> bool {
    match response {
        ResponsePayload::RestState(state) => r == Ok::<RestState, String>(state),
        _ => r matches Err(m) && m@ == UNEXPECTED@,
    }
}

/// The state of the HTTP interface in an answer.
pub fn rest_answer(response: ResponsePayload) -> (r: Result<RestState, String>)
    ensures
        tells_rest(response, r),
{
    match response {
        ResponsePayload::RestState(state) => Ok(state),
        _ => Err(UNEXPECTED.to_owned()),
    }
}

/// What opens or closes a port.
pub open spec fn asks_toggle(
    port: &str,
    connect: bool,
    config: &PortConfig,
    r: RequestPayload,
) -> bool {
    if connect {
        r matches RequestPayload::OpenPort { name, settings } && name@ == port@ && settings
            == monitor::all_settings(*config)
    } else {
        r matches RequestPayload::ClosePort { name } && name@ == port@
    }
}

/// Release the port or take it back, with the settings to reopen it under.
pub fn toggle_payload(port: &str, connect: bool, config: &PortConfig) -> (r: RequestPayload)
    ensures
        asks_toggle(port, connect, config, r),
{
    if connect {
        RequestPayload::OpenPort { name: port.to_owned(), settings: config_settings(config) }
    } else {
        RequestPayload::ClosePort { name: port.to_owned() }
    }
}

/// What sets up a port.
pub open spec fn asks_settings(port: &str, config: &PortConfig, r: RequestPayload) -> bool {
    r matches RequestPayload::ReconfigurePort { name, settings } && name@ == port@ && settings
        == monitor::all_settings(*config)
}

/// Change the line settings of the port the daemon holds.
pub fn reconfigure_payload(port: &str, config: &PortConfig) -> (r: RequestPayload)
    ensures
        asks_settings(port, config, r),
{
    RequestPayload::ReconfigurePort { name: port.to_owned(), settings: config_settings(config) }
}

/// What sends or receives a file.
pub open spec fn asks_transfer(
    port: &str,
    send: bool,
    path: &str,
    protocol: FileTransferProtocol,
    r: RequestPayload,
) -> bool {
    if send {
        r matches RequestPayload::SendFile { port: p, file_path, protocol: t } && p@ == port@
            && file_path@ == path@ && t == protocol
    } else {
        r matches RequestPayload::ReceiveFile { port: p, output_dir, protocol: t } && p@
            == port@ && output_dir@ == path@ && t == protocol
    }
}

/// Send or receive a file through the daemon, which reads and writes the file
/// itself.
pub fn transfer_payload(port: &str, send: bool, path: &str, protocol: FileTransferProtocol) -> (r:
    RequestPayload)
    ensures
        asks_transfer(port, send, path, protocol, r),
{
    if send {
        RequestPayload::SendFile { port: port.to_owned(), file_path: path.to_owned(), protocol }
    } else {
        RequestPayload::ReceiveFile {
            port: port.to_owned(),
            output_dir: path.to_owned(),
            protocol,
        }
    }
}

/// What is said of a file.
pub open spec fn tells_transfer(response: ResponsePayload, r: Result<String, String>) -> bool {
    match response {
        ResponsePayload::TransferSuccess { bytes_transferred, file_name, path, .. } => r
            matches Ok(m) && m@ == text::dec_nat(bytes_transferred as nat) + " bytes, "@ + (
        match path {
            Some(p) => p@,
            None => file_name@,
        }),
        _ => r matches Err(m) && m@ == UNEXPECTED@,
    }
}

/// What a transfer came to, in words: how many bytes, and where they are.
pub fn transfer_answer(response: ResponsePayload) -> (r: Result<String, String>)
    ensures
        tells_transfer(response, r),
{
    match response {
        ResponsePayload::TransferSuccess { bytes_transferred, file_name, path, .. } => {
            let mut m = concat2(decimal(bytes_transferred).as_str(), " bytes, ");
            match path {
                Some(p) => m.append(p.as_str()),
                None => m.append(file_name.as_str()),
            }
            Ok(m)
        },
        _ => Err(UNEXPECTED.to_owned()),
    }
}

/// What writes bytes.
pub open spec fn asks_write(port: &str, buf: &[u8], r: RequestPayload) -> bool {
    r matches RequestPayload::WriteData { port: p, data, is_hex } && p@ == port@ && is_hex
        == !vstd::utf8::valid_utf8(buf@) && data@ == (if is_hex {
        hex::encoded(buf@)
    } else {
        vstd::utf8::decode_utf8(buf@)
    })
}

/// Forward input to the port the daemon holds.
///
/// The wire carries a string and a flag. Text goes as text so the daemon's log
/// of it stays readable; anything that is not UTF-8 goes as hex rather than
/// being replaced or refused.
pub fn write_payload(port: &str, buf: &[u8]) -> (r: RequestPayload)
    ensures
        asks_write(port, buf, r),
{
    match utf8_text(buf) {
        Some(t) => RequestPayload::WriteData { port: port.to_owned(), data: t, is_hex: false },
        None => RequestPayload::WriteData {
            port: port.to_owned(),
            data: encode(buf),
            is_hex: true,
        },
    }
}

/// What is said of bytes that were written.
pub open spec fn tells_written(
    response: Result<ResponsePayload, IpcError>,
    len: usize,
    r: Result<usize, String>,
) -> bool {
    match response {
        Ok(ResponsePayload::WriteSuccess { .. }) => r == Ok::<usize, String>(len),
        Ok(_) => r matches Err(m) && m@ == UNEXPECTED@,
        Err(e) => r matches Err(m) && m@ == e.message(),
    }
}

/// How many bytes a write took, given what the daemon answered: all of them, or
/// none.
pub fn written(response: Result<ResponsePayload, IpcError>, len: usize) -> (r: Result<
    usize,
    String,
>)
    ensures
        tells_written(response, len, r),
{
    match response {
        Ok(ResponsePayload::WriteSuccess { .. }) => Ok(len),
        Ok(_) => Err(UNEXPECTED.to_owned()),
        Err(e) => Err(e.to_string()),
    }
}

/// The bytes that are forwarded are the bytes that the daemon writes: what the
/// request carries stands for exactly the input.
///
/// Text that itself looks like a hex string is left out: the daemon reads a
/// prefix of `0x` as one.
pub proof fn forwarded_bytes_arrive(port: String, data: String, is_hex: bool, buf: Seq<u8>)
    requires
        is_hex == !vstd::utf8::valid_utf8(buf),
        data@ == (if is_hex {
            hex::encoded(buf)
        } else {
            vstd::utf8::decode_utf8(buf)
        }),
        !is_hex ==> !hex::prefixed(data@),
    ensures
        if is_hex {
            hex::decodes_to(data@, buf)
        } else {
            vstd::utf8::encode_utf8(data@) == buf
        },
{
    if is_hex {
        hex::encoded_bytes_decode_to_themselves(buf);
    } else {
        vstd::utf8::decode_utf8_encode_utf8(buf);
    }
}

// ---------------------------------------------------------------------------
// Attaching
// ---------------------------------------------------------------------------

/// Where attaching to a port stands.
#[derive(Debug, PartialEq, Eq)]
pub enum Attaching {
    /// The state of the port is asked for, to see whether it is held.
    Status { port: String, settings: PortSettings },
    /// The port is being opened.
    Open { port: String },
    /// The state of the port that was opened is asked for.
    Opened { port: String },
}

/// How attaching to a port goes on.
#[derive(Debug, PartialEq, Eq)]
pub enum AttachStep {
    /// Send this request.
    Ask(RequestPayload, Attaching),
    /// The port is held, in this state.
    Attached(ConnectionState),
    /// It cannot be attached to, for this reason.
    Failed(String),
}

/// What follows once the daemon is reached or not.
pub open spec fn reaches(
    port: String,
    settings: PortSettings,
    outcome: Result<(), IpcError>,
    r: AttachStep,
) -> bool {
    match outcome {
        Ok(_) => r matches AttachStep::Ask(
            RequestPayload::GetStatus { port: p },
            Attaching::Status { port: q, settings: s },
        ) && p@ == port@ && q@ == port@ && s == settings,
        Err(e) => r matches AttachStep::Failed(m) && m@ == "could not reach the daemon: "@
            + e.message(),
    }
}

/// A daemon was reached, or was not.
pub fn daemon_reached(port: String, settings: PortSettings, outcome: Result<(), IpcError>) -> (r:
    AttachStep)
    ensures
        reaches(port, settings, outcome, r),
{
    match outcome {
        Ok(_) => AttachStep::Ask(
            RequestPayload::GetStatus { port: port.clone() },
            Attaching::Status { port, settings },
        ),
        Err(e) => AttachStep::Failed(
            concat2("could not reach the daemon: ", e.to_string().as_str()),
        ),
    }
}

/// How attaching goes on after an answer.
pub open spec fn attach_next(
    at: Attaching,
    answer: Result<ResponsePayload, IpcError>,
    r: AttachStep,
) -> bool {
    match (at, answer) {
        // A port the daemon already holds is left as it is.
        (Attaching::Status { .. }, Ok(ResponsePayload::Status { state, .. })) => r
            == AttachStep::Attached(state),
        (Attaching::Status { port, settings }, _) => r matches AttachStep::Ask(
            RequestPayload::OpenPort { name, settings: s },
            Attaching::Open { port: q },
        ) && name@ == port@ && s == settings && q@ == port@,
        (Attaching::Open { port }, Ok(_)) => r matches AttachStep::Ask(
            RequestPayload::GetStatus { port: p },
            Attaching::Opened { port: q },
        ) && p@ == port@ && q@ == port@,
        (Attaching::Open { port }, Err(e)) => r matches AttachStep::Failed(m) && m@
            == "failed to open port '"@ + port@ + "': "@ + e.message(),
        (Attaching::Opened { .. }, Ok(ResponsePayload::Status { state, .. })) => r
            == AttachStep::Attached(state),
        (Attaching::Opened { .. }, Ok(_)) => r matches AttachStep::Failed(m) && m@ == UNEXPECTED@,
        (Attaching::Opened { port }, Err(e)) => r matches AttachStep::Failed(m) && m@
            == "could not read the state of '"@ + port@ + "': "@ + e.message(),
    }
}

/// Go on with attaching to a port, given what the daemon answered.
///
/// A port the daemon already holds is left as it is rather than reconfigured.
/// Opening a monitor is not a request to change the line settings of a session
/// somebody else is using.
pub fn attach_session(at: Attaching, answer: Result<ResponsePayload, IpcError>) -> (r: AttachStep)
    ensures
        attach_next(at, answer, r),
{
    match (at, answer) {
        (Attaching::Status { .. }, Ok(ResponsePayload::Status { state, .. })) =>
        AttachStep::Attached(state),
        (Attaching::Status { port, settings }, _) => AttachStep::Ask(
            RequestPayload::OpenPort { name: port.clone(), settings },
            Attaching::Open { port },
        ),
        (Attaching::Open { port }, Ok(_)) => AttachStep::Ask(
            RequestPayload::GetStatus { port: port.clone() },
            Attaching::Opened { port },
        ),
        (Attaching::Open { port }, Err(e)) => {
            let mut m = concat3("failed to open port '", port.as_str(), "': ");
            m.append(e.to_string().as_str());
            AttachStep::Failed(m)
        },
        (Attaching::Opened { .. }, Ok(ResponsePayload::Status { state, .. })) =>
        AttachStep::Attached(state),
        (Attaching::Opened { .. }, Ok(_)) => AttachStep::Failed(UNEXPECTED.to_owned()),
        (Attaching::Opened { port }, Err(e)) => {
            let mut m = concat3("could not read the state of '", port.as_str(), "': ");
            m.append(e.to_string().as_str());
            AttachStep::Failed(m)
        },
    }
}

/// A port that the daemon holds is attached to without a request that changes
/// it.
pub proof fn attaching_leaves_a_held_port_alone(
    port: String,
    settings: PortSettings,
    answer: Result<ResponsePayload, IpcError>,
    r: AttachStep,
)
    requires
        answer matches Ok(ResponsePayload::Status { .. }),
        attach_next(Attaching::Status { port, settings }, answer, r),
    ensures
        r is Attached,
{
}

/// The state of a port, and whether it changed.
pub open spec fn follows_link(
    current: ConnectionState,
    answer: &Result<ResponsePayload, IpcError>,
    r: ( ConnectionState, bool, ),
) -> bool {
    &&& r.0 == (match *answer {
        Ok(ResponsePayload::Status { state, .. }) => state,
        _ => current,
    })
    &&& r.1 == (r.0 != current)
}

/// The link state after the daemon was asked for it, and whether that is news.
///
/// A failed request is not a disconnected device: the daemon may be busy or
/// gone, and reporting the last known state is closer to the truth than claiming
/// the cable was pulled.
pub fn link_state(current: ConnectionState, answer: &Result<ResponsePayload, IpcError>) -> (r: (
    ConnectionState,
    bool,
))
    ensures
        follows_link(current, answer, r),
{
    match answer {
        Ok(ResponsePayload::Status { state, .. }) => (*state, *state != current),
        _ => (current, false),
    }
}

/// What is said where a window takes a port over.
pub open spec fn tells_handed_over(port: &str, r: String) -> bool {
    r@ == "Opened "@ + port@ + " in the running devserial window.\n"@
}

/// What is said when a port was handed to a running window.
pub fn handed_over(port: &str) -> (r: String)
    ensures
        tells_handed_over(port, r),
{
    concat3("Opened ", port, " in the running devserial window.\n")
}

/// What is said where the data directory cannot be made.
pub open spec fn tells_no_data_dir(error: &str, r: String) -> bool {
    r@ == "failed to create data directory: "@ + error@
}

/// Why the data directory could not be created.
pub fn data_dir_failure(error: &str) -> (r: String)
    ensures
        tells_no_data_dir(error, r),
{
    concat2("failed to create data directory: ", error)
}

/// What is said where the lines cannot be read.
pub open spec fn tells_no_capture(error: &str, r: String) -> bool {
    r@ == "failed to open capture database: "@ + error@
}

/// Why the capture database could not be opened.
pub fn capture_failure(error: &str) -> (r: String)
    ensures
        tells_no_capture(error, r),
{
    concat2("failed to open capture database: ", error)
}

} // verus!
