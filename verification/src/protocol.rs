//! The devserial operation vocabulary.
//!
//! Every capability of the product appears here exactly once. The CLI, the IPC
//! daemon and the MCP server are transports over this vocabulary; none of them
//! may implement an operation of its own.
use vstd::prelude::*;
use vstd::string::*;

use crate::export::ExportFormat;
use crate::modem::FileTransferProtocol;
use crate::reader::ConnectionState;
use crate::serial_params;
use crate::serial_params::{DataBits, FlowControl, Parity, StopBits};
use crate::storage::{BufferStats, StoredLine};
use crate::text::{concat3, same, to_lower, trim};

verus! {

/// Unique identifier for an RPC request/response pair.
pub type RequestId = u64;

/// Default number of lines returned by a read.
pub const DEFAULT_READ_LIMIT: u32 = 100;

/// Hard upper bound on lines returned by a single read.
pub const MAX_READ_LIMIT: u32 = 10_000;

/// Default number of search results.
pub const DEFAULT_SEARCH_LIMIT: u32 = 100;

/// Hard upper bound on search results.
pub const MAX_SEARCH_LIMIT: u32 = 1000;

/// Upper bound on lines inspected by a filtering search.
pub const MAX_SEARCH_SCAN: u64 = 5_000_000;

/// An RPC request envelope sent from client to daemon.
#[derive(Debug, Clone, PartialEq, Eq)]
pub struct RpcRequest {
    pub id: RequestId,
    pub payload: RequestPayload,
}

/// An RPC response envelope returned from daemon to client.
#[derive(Debug, PartialEq, Eq)]
pub struct RpcResponse {
    pub id: RequestId,
    pub result: Result<ResponsePayload, String>,
}

/// Information about a managed serial port.
#[derive(Debug, Clone, PartialEq, Eq)]
pub struct PortInfoResponse {
    pub name: String,
    pub state: ConnectionState,
    pub total_lines: u64,
}

/// Serial line settings, all optional so a caller can change one of them.
#[derive(Debug, Clone, Copy, PartialEq, Eq, Structural)]
pub struct PortSettings {
    pub baudrate: Option<u32>,
    pub data_bits: Option<DataBits>,
    pub parity: Option<Parity>,
    pub stop_bits: Option<StopBits>,
    pub flow_control: Option<FlowControl>,
}

/// Where a read starts.
#[derive(Debug, Clone, Copy, PartialEq, Eq, Structural)]
pub struct ReadWindow {
    /// First line id to return, 1-based. Negative counts back from the end.
    pub start_id: Option<i64>,
    /// Return lines after this id, exclusive. Ideal for incremental polling.
    pub after_id: Option<i64>,
    /// Return the last `tail` lines.
    pub tail: Option<u32>,
    /// Return only lines newer than this timestamp.
    pub since_ns: Option<i64>,
    /// Maximum number of lines to return.
    pub limit: Option<u32>,
    /// Wait up to this long for data when the window is empty.
    pub wait_ms: Option<u64>,
}

/// A page of captured lines together with the metadata a caller needs to
/// continue reading.
#[derive(Debug, Clone, PartialEq, Eq)]
pub struct LinesPage {
    pub lines: Vec<StoredLine>,
    /// Total number of lines currently buffered.
    pub total_lines: u64,
    /// Id to pass as `after_id` for the next read.
    pub next_after_id: i64,
}

/// What the HTTP listener is doing.
#[derive(Debug, Clone, PartialEq, Eq)]
pub struct RestState {
    /// Whether it accepts connections.
    pub listening: bool,
    /// The address it is bound to, or would be.
    pub bind: String,
    /// The port it is bound to, or would be.
    pub port: u16,
    /// Why it is not listening, where that is known.
    pub reason: Option<String>,
    /// Whether a caller has to present a token.
    pub token_required: bool,
}

/// How a search query is interpreted.
#[derive(Debug, Clone, Copy, PartialEq, Eq, Structural)]
pub enum SearchMode {
    /// Payload contains the query.
    Substring,
    /// Payload equals the query.
    Exact,
    /// Payload matches the query as a Rust regular expression.
    Regex,
}

impl SearchMode {
    /// The textual form.
    pub open spec fn name(self) -> Seq<char> {
        match self {
            SearchMode::Substring => "substring"@,
            SearchMode::Exact => "exact"@,
            SearchMode::Regex => "regex"@,
        }
    }

    /// The textual form.
    pub fn to_string(&self) -> (r: String)
        ensures
            r@ == self.name(),
    {
        match self {
            SearchMode::Substring => "substring".to_owned(),
            SearchMode::Exact => "exact".to_owned(),
            SearchMode::Regex => "regex".to_owned(),
        }
    }

    /// Which mode a text stands for, and what is said of another.
    pub open spec fn reads(s: &str, r: Result<SearchMode, String>) -> bool {
        match r {
            Ok(m) => search_mode_of(s@) == Some(m),
            Err(e) => search_mode_of(s@) is None && e@ == "unknown query type '"@
                + serial_params::normal(s@)
                + "', expected one of: substring, exact, regex"@,
        }
    }

    /// Read a search mode; anything but a known name is refused.
    pub fn parse(s: &str) -> (r: Result<SearchMode, String>)
        ensures
            Self::reads(s, r),
    {
        let n = to_lower(trim(s).as_str());
        let t = n.as_str();
        if same(t, "substring") || same(t, "contains") {
            Ok(SearchMode::Substring)
        } else if same(t, "exact") {
            Ok(SearchMode::Exact)
        } else if same(t, "regex") || same(t, "re") {
            Ok(SearchMode::Regex)
        } else {
            Err(
                concat3(
                    "unknown query type '",
                    t,
                    "', expected one of: substring, exact, regex",
                ),
            )
        }
    }
}

/// What a text means as a search mode.
pub open spec fn search_mode_of(s: Seq<char>) -> Option<SearchMode> {
    let n = serial_params::normal(s);
    if n == "substring"@ || n == "contains"@ {
        Some(SearchMode::Substring)
    } else if n == "exact"@ {
        Some(SearchMode::Exact)
    } else if n == "regex"@ || n == "re"@ {
        Some(SearchMode::Regex)
    } else {
        None
    }
}

/// The textual form of every search mode reads back as that mode.
pub proof fn search_mode_reads_back(m: SearchMode)
    ensures
        search_mode_of(m.name()) == Some(m),
{
    reveal_strlit("substring");
    reveal_strlit("contains");
    reveal_strlit("exact");
    reveal_strlit("regex");
    reveal_strlit("re");
    serial_params::lemma_plain_word(m.name());
    assert("substring"@[0] == 's');
    assert("contains"@[0] == 'c');
    assert("exact"@[0] == 'e');
    assert("regex"@[0] == 'r');
}

impl Default for SearchMode {
    fn default() -> (r: SearchMode)
        ensures
            r == SearchMode::Substring,
    {
        SearchMode::Substring
    }
}

impl std::str::FromStr for SearchMode {
    type Err = String;

    fn from_str(s: &str) -> Result<SearchMode, String> {
        SearchMode::parse(s)
    }
}

impl Default for PortSettings {
    fn default() -> (r: PortSettings)
        ensures
            r == no_settings(),
    {
        PortSettings {
            baudrate: None,
            data_bits: None,
            parity: None,
            stop_bits: None,
            flow_control: None,
        }
    }
}

/// Settings that change nothing.
pub open spec fn no_settings() -> PortSettings {
    PortSettings {
        baudrate: None,
        data_bits: None,
        parity: None,
        stop_bits: None,
        flow_control: None,
    }
}

impl Default for ReadWindow {
    fn default() -> (r: ReadWindow)
        ensures
            r == whole_window(),
    {
        ReadWindow {
            start_id: None,
            after_id: None,
            tail: None,
            since_ns: None,
            limit: None,
            wait_ms: None,
        }
    }
}

/// A window without any bound.
pub open spec fn whole_window() -> ReadWindow {
    ReadWindow {
        start_id: None,
        after_id: None,
        tail: None,
        since_ns: None,
        limit: None,
        wait_ms: None,
    }
}

/// Search results plus whether the scan was cut short.
#[derive(Debug, Clone, PartialEq, Eq)]
pub struct SearchOutcome {
    pub results: Vec<StoredLine>,
    /// True when scanning hit its budget before reaching the end of the buffer.
    pub truncated: bool,
}

/// Request payloads supported by the devserial engine.
#[derive(Debug, Clone, PartialEq, Eq)]
pub enum RequestPayload {
    /// Liveness check.
    Ping,
    /// List all currently managed ports.
    ListPorts,
    /// List serial ports the operating system reports.
    ListHardware,
    /// Open a serial port with optional configuration.
    OpenPort {
        name: String,
        settings: PortSettings,
    },
    /// Change settings of an already open port.
    ReconfigurePort {
        name: String,
        settings: PortSettings,
    },
    /// Close a managed serial port.
    ClosePort { name: String },
    /// Read lines from a port buffer.
    ReadLines { port: String, window: ReadWindow },
    /// Connection state and buffer statistics of a port.
    GetStatus { port: String },
    /// Write data to a serial port (UTF-8 text or hex).
    WriteData {
        port: String,
        data: String,
        is_hex: bool,
    },
    /// Send RS-232 serial break signal.
    SendBreak {
        port: String,
        duration_ms: Option<u64>,
    },
    /// Send a file via modem protocol (XMODEM, YMODEM, ZMODEM).
    SendFile {
        port: String,
        file_path: String,
        protocol: FileTransferProtocol,
    },
    /// Receive a file via modem protocol (XMODEM, YMODEM, ZMODEM).
    ReceiveFile {
        port: String,
        output_dir: String,
        protocol: FileTransferProtocol,
    },
    /// Set control signals (DTR, RTS) on a serial port.
    SetSignal {
        port: String,
        dtr: Option<bool>,
        rts: Option<bool>,
    },
    /// Execute a named macro sequence on a port.
    ExecuteMacro { port: String, macro_name: String },
    /// Search the buffer.
    Search {
        port: String,
        query: String,
        mode: SearchMode,
        start_ns: Option<i64>,
        end_ns: Option<i64>,
        limit: Option<u32>,
    },
    /// Export buffered lines to a file.
    Export {
        port: String,
        output_path: String,
        file_format: Option<ExportFormat>,
        start_line: Option<i64>,
        end_line: Option<i64>,
    },
    /// Clear buffered lines, optionally creating an archive first.
    Clear {
        port: String,
        archive_current: Option<bool>,
    },
    /// Get buffer statistics for a port.
    GetStats { port: String },
    /// Flash firmware via espflash.
    EspFlash {
        port: String,
        firmware_path: String,
        baud: Option<u32>,
    },
    /// Query ESP board info via espflash.
    EspInfo { port: String },
    /// Erase ESP flash via espflash.
    EspErase { port: String },
    /// Write a raw binary to a flash address via espflash.
    EspWriteBin {
        port: String,
        file_path: String,
        address: String,
    },
    /// State of the HTTP listener.
    RestStatus,
    /// Start the HTTP listener, overriding its configuration where given.
    RestEnable {
        bind: Option<String>,
        port: Option<u16>,
        token: Option<String>,
    },
    /// Stop the HTTP listener.
    RestDisable,
    /// Request graceful daemon shutdown.
    Shutdown,
}

impl RequestPayload {
    /// The port an operation targets, if it targets one.
    pub open spec fn target(self) -> Option<Seq<char>> {
        match self {
            RequestPayload::OpenPort { name, .. } => Some(name@),
            RequestPayload::ReconfigurePort { name, .. } => Some(name@),
            RequestPayload::ClosePort { name } => Some(name@),
            RequestPayload::ReadLines { port, .. } => Some(port@),
            RequestPayload::GetStatus { port } => Some(port@),
            RequestPayload::WriteData { port, .. } => Some(port@),
            RequestPayload::SendBreak { port, .. } => Some(port@),
            RequestPayload::SendFile { port, .. } => Some(port@),
            RequestPayload::ReceiveFile { port, .. } => Some(port@),
            RequestPayload::SetSignal { port, .. } => Some(port@),
            RequestPayload::ExecuteMacro { port, .. } => Some(port@),
            RequestPayload::Search { port, .. } => Some(port@),
            RequestPayload::Export { port, .. } => Some(port@),
            RequestPayload::Clear { port, .. } => Some(port@),
            RequestPayload::GetStats { port } => Some(port@),
            RequestPayload::EspFlash { port, .. } => Some(port@),
            RequestPayload::EspInfo { port } => Some(port@),
            RequestPayload::EspErase { port } => Some(port@),
            RequestPayload::EspWriteBin { port, .. } => Some(port@),
            _ => None,
        }
    }

    /// Name of the port an operation targets, if it targets one.
    pub fn port(&self) -> (r: Option<&str>)
        ensures
            match r {
                Some(s) => self.target() == Some(s@),
                None => self.target() is None,
            },
            r is None <==> (self is Ping || self is ListPorts || self is ListHardware
                || self is RestStatus || self is RestEnable || self is RestDisable
                || self is Shutdown),
    {
        match self {
            RequestPayload::OpenPort { name, .. } => Some(name.as_str()),
            RequestPayload::ReconfigurePort { name, .. } => Some(name.as_str()),
            RequestPayload::ClosePort { name } => Some(name.as_str()),
            RequestPayload::ReadLines { port, .. } => Some(port.as_str()),
            RequestPayload::GetStatus { port } => Some(port.as_str()),
            RequestPayload::WriteData { port, .. } => Some(port.as_str()),
            RequestPayload::SendBreak { port, .. } => Some(port.as_str()),
            RequestPayload::SendFile { port, .. } => Some(port.as_str()),
            RequestPayload::ReceiveFile { port, .. } => Some(port.as_str()),
            RequestPayload::SetSignal { port, .. } => Some(port.as_str()),
            RequestPayload::ExecuteMacro { port, .. } => Some(port.as_str()),
            RequestPayload::Search { port, .. } => Some(port.as_str()),
            RequestPayload::Export { port, .. } => Some(port.as_str()),
            RequestPayload::Clear { port, .. } => Some(port.as_str()),
            RequestPayload::GetStats { port } => Some(port.as_str()),
            RequestPayload::EspFlash { port, .. } => Some(port.as_str()),
            RequestPayload::EspInfo { port } => Some(port.as_str()),
            RequestPayload::EspErase { port } => Some(port.as_str()),
            RequestPayload::EspWriteBin { port, .. } => Some(port.as_str()),
            RequestPayload::Ping => None,
            RequestPayload::ListPorts => None,
            RequestPayload::ListHardware => None,
            RequestPayload::RestStatus => None,
            RequestPayload::RestEnable { .. } => None,
            RequestPayload::RestDisable => None,
            RequestPayload::Shutdown => None,
        }
    }
}

/// Successful response payloads returned by the engine.
#[derive(Debug, Clone, PartialEq, Eq)]
pub enum ResponsePayload {
    /// Ping acknowledgment.
    Pong,
    /// List of managed ports.
    PortList(Vec<PortInfoResponse>),
    /// Serial ports reported by the operating system.
    HardwarePorts(Vec<String>),
    /// Port opened successfully.
    PortOpened {
        name: String,
        config_summary: String,
    },
    /// Port reconfigured successfully.
    PortReconfigured {
        name: String,
        config_summary: String,
    },
    /// Port closed successfully.
    PortClosed { name: String },
    /// Lines retrieved from port buffer.
    Lines(LinesPage),
    /// Connection state and buffer statistics.
    Status {
        name: String,
        state: ConnectionState,
        stats: BufferStats,
    },
    /// Data written successfully.
    WriteSuccess { bytes_written: usize },
    /// Serial break signal sent successfully.
    BreakSuccess { duration_ms: u64 },
    /// File transfer completed successfully.
    TransferSuccess {
        bytes_transferred: u64,
        file_name: String,
        protocol: FileTransferProtocol,
        path: Option<String>,
    },
    /// Control signal updated successfully.
    SignalSuccess { applied: Vec<String> },
    /// Macro executed successfully.
    MacroSuccess { executed_steps: Vec<String> },
    /// Search results matching query.
    SearchResults(SearchOutcome),
    /// Export completed.
    ExportSuccess {
        lines_exported: u64,
        path: String,
        file_format: ExportFormat,
    },
    /// Buffer cleared.
    ClearSuccess {
        lines_cleared: u64,
        archive_path: Option<String>,
    },
    /// Buffer statistics.
    Stats(BufferStats),
    /// ESP tool command output.
    EspSuccess(String),
    /// State of the HTTP listener.
    RestState(RestState),
    /// Daemon shutdown initiated.
    ShutdownAck,
}

} // verus!
