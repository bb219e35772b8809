//! MCP transport.
//!
//! Every tool translates its parameters into a [`RequestPayload`], hands it to
//! the command engine and renders the response for a language model. There is
//! deliberately no operation logic here; that lives in the engine and is shared
//! with the CLI and the daemon.
use vstd::prelude::*;
use vstd::string::*;

use crate::clock;
use crate::engine::transfer;
use crate::engine::transfer::label;
use crate::engine::{CommandEngine, EngineError};
use crate::export;
use crate::export::{format_time_of_day, format_timestamp, ExportFormat};
use crate::gui_ipc::MonitorEvent;
use crate::json;
use crate::json::json_string;
use crate::modem::FileTransferProtocol;
use crate::paths;
use crate::paths::port_db_path;
use crate::protocol::{
    LinesPage, PortInfoResponse, PortSettings, ReadWindow, RequestPayload, ResponsePayload,
    SearchMode, SearchOutcome,
};
use crate::reader::ConnectionState;
use crate::serial_params::{DataBits, FlowControl, Parity, StopBits};
use crate::storage::{BufferStats, StoredLine};
use crate::text;
use crate::text::{
    chars_of, concat2, concat3, decimal, decimal_i64, decimal_usize, ends_with, join, same,
    slice_of, starts_with,
};

verus! {

// ---------------------------------------------------------------------------
// Errors
// ---------------------------------------------------------------------------

/// Why a tool call failed, as the protocol tells errors apart.
#[derive(Debug, PartialEq, Eq)]
pub enum ToolError {
    /// The caller asked for something that cannot be.
    InvalidParams(String),
    /// The operation itself failed.
    Internal(String),
}

/// The message for an answer of another shape than the operation gives.
pub const UNEXPECTED: &'static str = "unexpected response for this operation";

/// Whether a call fails because of what it was asked, with this message.
pub open spec fn misused<T>(r: Result<T, ToolError>, message: Seq<char>) -> bool {
    r matches Err(ToolError::InvalidParams(m)) && m@ == message
}

/// Whether a call fails because of what went wrong, with this message.
pub open spec fn broken<T>(r: Result<T, ToolError>, message: Seq<char>) -> bool {
    r matches Err(ToolError::Internal(m)) && m@ == message
}

/// Whether a call answers with this text.
pub open spec fn says(r: Result<String, ToolError>, message: Seq<char>) -> bool {
    r matches Ok(m) && m@ == message
}

/// Whether an engine error is the caller's.
pub open spec fn callers_fault(e: EngineError) -> bool {
    e is Invalid || e is Param || e is Hex || e is Regex || e is UnknownMacro
}

/// How a fault is reported.
pub open spec fn faults(error: &EngineError, r: ToolError) -> bool {
    match r {
        ToolError::InvalidParams(m) => callers_fault(*error) && m@ == error.message(),
        ToolError::Internal(m) => !callers_fault(*error) && m@ == error.message(),
    }
}

/// Map an engine error onto the closest kind of tool error.
pub fn to_error_data(error: &EngineError) -> (r: ToolError)
    ensures
        faults(error, r),
{
    let message = error.to_string();
    match error {
        EngineError::Invalid(_) => ToolError::InvalidParams(message),
        EngineError::Param(_) => ToolError::InvalidParams(message),
        EngineError::Hex(_) => ToolError::InvalidParams(message),
        EngineError::Regex(_) => ToolError::InvalidParams(message),
        EngineError::UnknownMacro { .. } => ToolError::InvalidParams(message),
        _ => ToolError::Internal(message),
    }
}

fn unexpected() -> (r: ToolError)
    ensures
        r matches ToolError::Internal(m) && m@ == UNEXPECTED@,
{
    ToolError::Internal(UNEXPECTED.to_owned())
}

/// Whether a number of data bits is taken or refused.
pub open spec fn asks_data_bits(value: Option<u8>, r: Result<Option<DataBits>, ToolError>) -> bool {
    match value {
        None => r == Ok::<Option<DataBits>, ToolError>(None),
        Some(n) => match DataBits::of(n as int) {
            Some(d) => r == Ok::<Option<DataBits>, ToolError>(Some(d)),
            None => misused(
                r,
                "invalid data bits "@ + text::dec_nat(n as nat) + ", expected 5, 6, 7 or 8"@,
            ),
        },
    }
}

/// Convert an optional raw data-bit count into the validated type.
pub fn data_bits(value: Option<u8>) -> (r: Result<Option<DataBits>, ToolError>)
    ensures
        asks_data_bits(value, r),
{
    match value {
        None => Ok(None),
        Some(n) => match DataBits::new(n) {
            Ok(d) => Ok(Some(d)),
            Err(e) => Err(ToolError::InvalidParams(e.to_string())),
        },
    }
}

/// Whether a number of stop bits is taken or refused.
pub open spec fn asks_stop_bits(value: Option<u8>, r: Result<Option<StopBits>, ToolError>) -> bool {
    match value {
        None => r == Ok::<Option<StopBits>, ToolError>(None),
        Some(n) => match StopBits::of(n as int) {
            Some(d) => r == Ok::<Option<StopBits>, ToolError>(Some(d)),
            None => misused(
                r,
                "invalid stop bits "@ + text::dec_nat(n as nat) + ", expected 1 or 2"@,
            ),
        },
    }
}

/// Convert an optional raw stop-bit count into the validated type.
pub fn stop_bits(value: Option<u8>) -> (r: Result<Option<StopBits>, ToolError>)
    ensures
        asks_stop_bits(value, r),
{
    match value {
        None => Ok(None),
        Some(n) => match StopBits::new(n) {
            Ok(d) => Ok(Some(d)),
            Err(e) => Err(ToolError::InvalidParams(e.to_string())),
        },
    }
}

/// Whether an optional text is given that is no RFC 3339 instant.
pub open spec fn no_time(value: Option<String>) -> bool {
    value matches Some(s) && clock::rfc3339_of(s@) is Err
}

/// The instant that an optional text stands for.
pub open spec fn time_of(value: Option<String>) -> Option<i64> {
    match value {
        None => None,
        Some(s) => Some(clock::instant_or_zero(clock::rfc3339_of(s@)->Ok_0)),
    }
}

/// Why a text is no instant.
pub open spec fn time_refusal(value: Option<String>) -> Seq<char> {
    "invalid time"@ + " '"@ + value->0@ + "': "@ + clock::rfc3339_of(value->0@)->Err_0
}

/// Parse an optional RFC 3339 timestamp into nanoseconds.
pub fn parse_time(value: &Option<String>) -> (r: Result<Option<i64>, ToolError>)
    ensures
        if no_time(*value) {
            misused(r, time_refusal(*value))
        } else {
            r == Ok::<Option<i64>, ToolError>(time_of(*value))
        },
{
    match value {
        None => Ok(None),
        Some(s) => match clock::parse_time("invalid time", Some(s.as_str())) {
            Ok(v) => Ok(v),
            Err(m) => Err(ToolError::InvalidParams(m)),
        },
    }
}

// ---------------------------------------------------------------------------
// Parameters
// ---------------------------------------------------------------------------

/// Parameters for `serial_read`.
#[derive(Debug)]
pub struct ReadBufferParams {
    /// Serial port name (e.g. `/dev/ttyUSB0`).
    pub port_name: String,
    /// Starting line number (1-based). Negative counts from the end.
    pub start_line: Option<i64>,
    /// Read lines after this ID (exclusive).
    pub after_line: Option<i64>,
    /// Maximum number of lines to return.
    pub max_lines: Option<u32>,
    /// Whether to put timestamps into the output.
    pub include_timestamps: Option<bool>,
    /// Wait up to this many milliseconds for new data.
    pub wait_ms: Option<u64>,
    /// Only return lines newer than this RFC 3339 timestamp.
    pub since_time: Option<String>,
}

/// Parameters for a tool that only needs a port name.
#[derive(Debug)]
pub struct PortParams {
    /// Serial port name.
    pub port_name: String,
}

/// Parameters for `serial_search`.
#[derive(Debug)]
pub struct SearchBufferParams {
    /// Serial port name.
    pub port_name: String,
    /// Search query string.
    pub query: String,
    /// How the query is interpreted.
    pub query_type: Option<SearchMode>,
    /// Start time bound (RFC 3339).
    pub start_time: Option<String>,
    /// End time bound (RFC 3339).
    pub end_time: Option<String>,
    /// Maximum results to return.
    pub max_results: Option<u32>,
}

/// Parameters for `serial_export`.
#[derive(Debug)]
pub struct ExportBufferParams {
    /// Serial port name.
    pub port_name: String,
    /// Output format.
    pub file_format: Option<ExportFormat>,
    /// Start line (inclusive).
    pub start_line: Option<i64>,
    /// End line (inclusive).
    pub end_line: Option<i64>,
    /// Output file path.
    pub output_path: String,
}

/// Parameters for `serial_clear`.
#[derive(Debug)]
pub struct ClearBufferParams {
    /// Serial port name.
    pub port_name: String,
    /// Whether to archive the current data before clearing.
    pub archive_current: Option<bool>,
}

/// Parameters for `serial_open`.
#[derive(Debug)]
pub struct ConfigurePortParams {
    /// Serial port path.
    pub port_name: String,
    /// Baud rate.
    pub baudrate: Option<u32>,
    /// Data bits (5-8).
    pub data_bits: Option<u8>,
    /// Parity.
    pub parity: Option<Parity>,
    /// Stop bits (1, 2).
    pub stop_bits: Option<u8>,
    /// Flow control.
    pub flow_control: Option<FlowControl>,
}

/// Parameters for `serial_signal`.
#[derive(Debug)]
pub struct SetControlLinesParams {
    /// Serial port name.
    pub port_name: String,
    /// DTR line state.
    pub dtr: Option<bool>,
    /// RTS line state.
    pub rts: Option<bool>,
}

/// Parameters for `serial_break`.
#[derive(Debug)]
pub struct SerialBreakParams {
    /// Serial port name.
    pub port_name: String,
    /// Duration in milliseconds.
    pub duration_ms: Option<u64>,
}

/// Parameters for `serial_send_file`.
#[derive(Debug)]
pub struct SerialSendFileParams {
    /// Serial port name.
    pub port_name: String,
    /// Path to the file to send.
    pub file_path: String,
    /// Transfer protocol, defaults to ZMODEM.
    pub protocol: Option<FileTransferProtocol>,
}

/// Parameters for `serial_receive_file`.
#[derive(Debug)]
pub struct SerialReceiveFileParams {
    /// Serial port name.
    pub port_name: String,
    /// Output directory for the received file.
    pub output_dir: Option<String>,
    /// Transfer protocol, defaults to ZMODEM.
    pub protocol: Option<FileTransferProtocol>,
}

/// Parameters for `serial_macro`.
#[derive(Debug)]
pub struct TriggerMacroParams {
    /// Serial port name.
    pub port_name: String,
    /// Macro name.
    pub macro_name: String,
}

/// Parameters for `serial_write`.
#[derive(Debug)]
pub struct WritePortParams {
    /// Serial port name.
    pub port_name: String,
    /// Data to write.
    pub data: String,
}

/// Parameters for `serial_esp_flash`.
#[derive(Debug)]
pub struct EspFlashParams {
    /// Serial port name.
    pub port_name: String,
    /// Path to the firmware file.
    pub firmware_path: String,
    /// Optional baud rate for flashing.
    pub baud: Option<u32>,
}

/// Parameters for `serial_esp_write_bin`.
#[derive(Debug)]
pub struct EspWriteBinParams {
    /// Serial port name.
    pub port_name: String,
    /// Path to the binary file.
    pub file_path: String,
    /// Flash address.
    pub address: String,
}

// ---------------------------------------------------------------------------
// Requests
// ---------------------------------------------------------------------------

impl ReadBufferParams {
    /// Whether a request is the one that the parameters ask for.
    pub open spec fn asks(self, r: Result<RequestPayload, ToolError>) -> bool {
        if no_time(self.since_time) {
            misused(r, time_refusal(self.since_time))
        } else {
            r matches Ok(RequestPayload::ReadLines { port, window }) && port@ == self.port_name@
                && window == (ReadWindow {
                start_id: self.start_line,
                after_id: self.after_line,
                tail: None,
                since_ns: time_of(self.since_time),
                limit: self.max_lines,
                wait_ms: self.wait_ms,
            })
        }
    }

    /// The request of `serial_read`.
    pub fn request(&self) -> (r: Result<RequestPayload, ToolError>)
        ensures
            self.asks(r),
    {
        match parse_time(&self.since_time) {
            Err(e) => Err(e),
            Ok(since_ns) => Ok(
                RequestPayload::ReadLines {
                    port: self.port_name.clone(),
                    window: ReadWindow {
                        start_id: self.start_line,
                        after_id: self.after_line,
                        tail: None,
                        since_ns,
                        limit: self.max_lines,
                        wait_ms: self.wait_ms,
                    },
                },
            ),
        }
    }
}

impl PortParams {
    /// The request of `serial_status`.
    pub fn status_request(self) -> (r: RequestPayload)
        ensures
            r == (RequestPayload::GetStatus { port: self.port_name }),
    {
        RequestPayload::GetStatus { port: self.port_name }
    }

    /// The request of `serial_close`.
    pub fn close_request(self) -> (r: RequestPayload)
        ensures
            r == (RequestPayload::ClosePort { name: self.port_name }),
    {
        RequestPayload::ClosePort { name: self.port_name }
    }

    /// The request of `serial_esp_info`.
    pub fn esp_info_request(self) -> (r: RequestPayload)
        ensures
            r == (RequestPayload::EspInfo { port: self.port_name }),
    {
        RequestPayload::EspInfo { port: self.port_name }
    }

    /// The request of `serial_esp_erase`.
    pub fn esp_erase_request(self) -> (r: RequestPayload)
        ensures
            r == (RequestPayload::EspErase { port: self.port_name }),
    {
        RequestPayload::EspErase { port: self.port_name }
    }
}

impl SearchBufferParams {
    /// Whether a request is the one that the parameters ask for.
    pub open spec fn asks(self, r: Result<RequestPayload, ToolError>) -> bool {
        if no_time(self.start_time) {
            misused(r, time_refusal(self.start_time))
        } else if no_time(self.end_time) {
            misused(r, time_refusal(self.end_time))
        } else {
            r matches Ok(
                RequestPayload::Search { port, query, mode, start_ns, end_ns, limit },
            ) && port@ == self.port_name@ && query@ == self.query@ && mode == (
            match self.query_type {
                Some(m) => m,
                None => SearchMode::Substring,
            }) && start_ns == time_of(self.start_time) && end_ns == time_of(self.end_time)
                && limit == self.max_results
        }
    }

    /// The request of `serial_search`. A query is a substring where nothing
    /// else is said.
    pub fn request(&self) -> (r: Result<RequestPayload, ToolError>)
        ensures
            self.asks(r),
    {
        let start_ns = match parse_time(&self.start_time) {
            Err(e) => {
                return Err(e);
            },
            Ok(v) => v,
        };
        let end_ns = match parse_time(&self.end_time) {
            Err(e) => {
                return Err(e);
            },
            Ok(v) => v,
        };
        Ok(
            RequestPayload::Search {
                port: self.port_name.clone(),
                query: self.query.clone(),
                mode: match self.query_type {
                    Some(m) => m,
                    None => SearchMode::Substring,
                },
                start_ns,
                end_ns,
                limit: self.max_results,
            },
        )
    }
}

impl ExportBufferParams {
    /// Whether a request is the one that the parameters ask for.
    pub open spec fn asks(self, r: RequestPayload) -> bool {
        r == (RequestPayload::Export {
            port: self.port_name,
            output_path: self.output_path,
            file_format: self.file_format,
            start_line: self.start_line,
            end_line: self.end_line,
        })
    }

    /// The request of `serial_export`.
    pub fn request(self) -> (r: RequestPayload)
        ensures
            self.asks(r),
    {
        RequestPayload::Export {
            port: self.port_name,
            output_path: self.output_path,
            file_format: self.file_format,
            start_line: self.start_line,
            end_line: self.end_line,
        }
    }
}

impl ClearBufferParams {
    /// Whether a request is the one that the parameters ask for.
    pub open spec fn asks(self, r: RequestPayload) -> bool {
        r == (RequestPayload::Clear {
            port: self.port_name,
            archive_current: self.archive_current,
        })
    }

    /// The request of `serial_clear`.
    pub fn request(self) -> (r: RequestPayload)
        ensures
            self.asks(r),
    {
        RequestPayload::Clear { port: self.port_name, archive_current: self.archive_current }
    }
}

impl ConfigurePortParams {
    /// Whether a request is the one that the parameters ask for.
    pub open spec fn asks(self, r: Result<RequestPayload, ToolError>) -> bool {
        match (self.data_bits, self.stop_bits) {
            (Some(n), _) if DataBits::of(n as int) is None => misused(
                r,
                "invalid data bits "@ + text::dec_nat(n as nat) + ", expected 5, 6, 7 or 8"@,
            ),
            (_, Some(n)) if StopBits::of(n as int) is None => misused(
                r,
                "invalid stop bits "@ + text::dec_nat(n as nat) + ", expected 1 or 2"@,
            ),
            (d, s) => r matches Ok(RequestPayload::OpenPort { name, settings }) && name@
                == self.port_name@ && settings == (PortSettings {
                baudrate: self.baudrate,
                data_bits: match d {
                    Some(n) => DataBits::of(n as int),
                    None => None,
                },
                parity: self.parity,
                stop_bits: match s {
                    Some(n) => StopBits::of(n as int),
                    None => None,
                },
                flow_control: self.flow_control,
            }),
        }
    }

    /// The request of `serial_open`. A number of bits that no line has is
    /// refused here, before it reaches the hardware.
    pub fn request(&self) -> (r: Result<RequestPayload, ToolError>)
        ensures
            self.asks(r),
    {
        let data = match data_bits(self.data_bits) {
            Err(e) => {
                return Err(e);
            },
            Ok(v) => v,
        };
        let stop = match stop_bits(self.stop_bits) {
            Err(e) => {
                return Err(e);
            },
            Ok(v) => v,
        };
        Ok(
            RequestPayload::OpenPort {
                name: self.port_name.clone(),
                settings: PortSettings {
                    baudrate: self.baudrate,
                    data_bits: data,
                    parity: self.parity,
                    stop_bits: stop,
                    flow_control: self.flow_control,
                },
            },
        )
    }
}

impl SetControlLinesParams {
    /// Whether a request is the one that the parameters ask for.
    pub open spec fn asks(self, r: RequestPayload) -> bool {
        r == (RequestPayload::SetSignal { port: self.port_name, dtr: self.dtr, rts: self.rts })
    }

    /// The request of `serial_signal`.
    pub fn request(self) -> (r: RequestPayload)
        ensures
            self.asks(r),
    {
        RequestPayload::SetSignal { port: self.port_name, dtr: self.dtr, rts: self.rts }
    }
}

impl SerialBreakParams {
    /// Whether a request is the one that the parameters ask for.
    pub open spec fn asks(self, r: RequestPayload) -> bool {
        r == (RequestPayload::SendBreak {
            port: self.port_name,
            duration_ms: self.duration_ms,
        })
    }

    /// The request of `serial_break`.
    pub fn request(self) -> (r: RequestPayload)
        ensures
            self.asks(r),
    {
        RequestPayload::SendBreak { port: self.port_name, duration_ms: self.duration_ms }
    }
}

/// The transfer protocol, where none is asked for.
pub open spec fn protocol_or_default(p: Option<FileTransferProtocol>) -> FileTransferProtocol {
    match p {
        Some(p) => p,
        None => FileTransferProtocol::Zmodem,
    }
}

fn chosen_protocol(p: Option<FileTransferProtocol>) -> (r: FileTransferProtocol)
    ensures
        r == protocol_or_default(p),
{
    match p {
        Some(p) => p,
        None => FileTransferProtocol::Zmodem,
    }
}

impl SerialSendFileParams {
    /// Whether a request is the one that the parameters ask for.
    pub open spec fn asks(self, r: RequestPayload) -> bool {
        r == (RequestPayload::SendFile {
            port: self.port_name,
            file_path: self.file_path,
            protocol: protocol_or_default(self.protocol),
        })
    }

    /// The request of `serial_send_file`.
    pub fn request(self) -> (r: RequestPayload)
        ensures
            self.asks(r),
    {
        RequestPayload::SendFile {
            port: self.port_name,
            file_path: self.file_path,
            protocol: chosen_protocol(self.protocol),
        }
    }
}

impl SerialReceiveFileParams {
    /// Whether a request is the one that the parameters ask for.
    pub open spec fn asks(self, r: RequestPayload) -> bool {
        r matches RequestPayload::ReceiveFile { port, output_dir, protocol } && port
            == self.port_name && output_dir@ == (match self.output_dir {
            Some(d) => d@,
            None => "."@,
        }) && protocol == protocol_or_default(self.protocol)
    }

    /// The request of `serial_receive_file`; into the working directory where no
    /// other is named.
    pub fn request(self) -> (r: RequestPayload)
        ensures
            self.asks(r),
    {
        RequestPayload::ReceiveFile {
            port: self.port_name,
            output_dir: match self.output_dir {
                Some(d) => d,
                None => ".".to_owned(),
            },
            protocol: chosen_protocol(self.protocol),
        }
    }
}

impl TriggerMacroParams {
    /// Whether a request is the one that the parameters ask for.
    pub open spec fn asks(self, r: RequestPayload) -> bool {
        r == (RequestPayload::ExecuteMacro {
            port: self.port_name,
            macro_name: self.macro_name,
        })
    }

    /// The request of `serial_macro`.
    pub fn request(self) -> (r: RequestPayload)
        ensures
            self.asks(r),
    {
        RequestPayload::ExecuteMacro { port: self.port_name, macro_name: self.macro_name }
    }
}

impl WritePortParams {
    /// Whether a request is the one that the parameters ask for.
    pub open spec fn asks(self, r: RequestPayload) -> bool {
        r == (RequestPayload::WriteData {
            port: self.port_name,
            data: self.data,
            is_hex: false,
        })
    }

    /// The request of `serial_write`.
    pub fn request(self) -> (r: RequestPayload)
        ensures
            self.asks(r),
    {
        RequestPayload::WriteData { port: self.port_name, data: self.data, is_hex: false }
    }
}

impl EspFlashParams {
    /// Whether a request is the one that the parameters ask for.
    pub open spec fn asks(self, r: RequestPayload) -> bool {
        r == (RequestPayload::EspFlash {
            port: self.port_name,
            firmware_path: self.firmware_path,
            baud: self.baud,
        })
    }

    /// The request of `serial_esp_flash`.
    pub fn request(self) -> (r: RequestPayload)
        ensures
            self.asks(r),
    {
        RequestPayload::EspFlash {
            port: self.port_name,
            firmware_path: self.firmware_path,
            baud: self.baud,
        }
    }
}

impl EspWriteBinParams {
    /// Whether a request is the one that the parameters ask for.
    pub open spec fn asks(self, r: RequestPayload) -> bool {
        r == (RequestPayload::EspWriteBin {
            port: self.port_name,
            file_path: self.file_path,
            address: self.address,
        })
    }

    /// The request of `serial_esp_write_bin`.
    pub fn request(self) -> (r: RequestPayload)
        ensures
            self.asks(r),
    {
        RequestPayload::EspWriteBin {
            port: self.port_name,
            file_path: self.file_path,
            address: self.address,
        }
    }
}

// ---------------------------------------------------------------------------
// Answers
// ---------------------------------------------------------------------------

/// A connection state as the tools spell it.
pub open spec fn state_word(state: ConnectionState) -> Seq<char> {
    match state {
        ConnectionState::Connected => "Connected"@,
        ConnectionState::Reconnecting => "Reconnecting"@,
        ConnectionState::Disconnected { since_ms, attempts } => "Disconnected { since_ms: "@
            + text::dec_nat(since_ms as nat) + ", attempts: "@ + text::dec_nat(attempts as nat)
            + " }"@,
    }
}

/// A connection state as the tools spell it.
pub fn state_name(state: &ConnectionState) -> (r: String)
    ensures
        r@ == state_word(*state),
{
    match state {
        ConnectionState::Connected => "Connected".to_owned(),
        ConnectionState::Reconnecting => "Reconnecting".to_owned(),
        ConnectionState::Disconnected { since_ms, attempts } => {
            let mut m = concat3(
                "Disconnected { since_ms: ",
                decimal(*since_ms).as_str(),
                ", attempts: ",
            );
            m.append(decimal(*attempts as u64).as_str());
            m.append(" }");
            m
        },
    }
}

/// Whether a text is a captured line as `serial_read` shows it.
pub open spec fn reads_line(line: StoredLine, timestamps: bool, out: Seq<char>) -> bool {
    if timestamps {
        exists|at: Seq<char>| #[trigger]
            clocked(line.payload@, at) == out && clock::is_screen_time(line.timestamp_ns, at)
    } else {
        out == line.payload@ + "\n"@
    }
}

/// A line behind its time of day.
pub open spec fn clocked(payload: Seq<char>, at: Seq<char>) -> Seq<char> {
    at + " "@ + payload + "\n"@
}

/// Whether a text is captured lines, one after the other.
pub open spec fn reads_lines(lines: Seq<StoredLine>, timestamps: bool, out: Seq<char>) -> bool
    decreases lines.len(),
{
    if lines.len() == 0 {
        out.len() == 0
    } else {
        exists|k: int| 0 <= k <= out.len() && reads_lines(
            lines.drop_last(),
            timestamps,
            #[trigger] out.take(k),
        ) && reads_line(lines.last(), timestamps, out.skip(k))
    }
}

/// The header with which a page begins.
pub open spec fn page_header(lines: Seq<StoredLine>, total: u64, next_after: i64) -> Seq<char> {
    if lines.len() == 0 {
        "[no new lines after "@ + text::dec_int(next_after as int) + ", "@ + text::dec_nat(
            total as nat,
        ) + " total]"@
    } else {
        "[lines "@ + text::dec_int(lines[0].id as int) + "-"@ + text::dec_int(
            lines.last().id as int,
        ) + " of "@ + text::dec_nat(total as nat) + " total]\n"@
    }
}

/// Whether a text is a page of lines behind its header.
pub open spec fn reads_page(page: LinesPage, timestamps: bool, out: Seq<char>) -> bool {
    exists|body: Seq<char>| #[trigger]
        reads_lines(page.lines@, timestamps, body) && out == page_header(
            page.lines@,
            page.total_lines,
            page.next_after_id,
        ) + body
}

fn render_line(line: &StoredLine, timestamps: bool) -> (r: String)
    ensures
        reads_line(*line, timestamps, r@),
{
    if timestamps {
        let at = format_time_of_day(line.timestamp_ns);
        let ghost a = at@;
        let mut m = concat3(at.as_str(), " ", line.payload.as_str());
        m.append("\n");
        assert(m@ == clocked(line.payload@, a));
        m
    } else {
        concat2(line.payload.as_str(), "\n")
    }
}

/// Render a page of lines with the header a model can use to continue reading.
///
/// The times of day are local, so which digits come out rests on the zone of
/// the machine.
pub fn render_lines(page: &LinesPage, timestamps: bool) -> (r: String)
    ensures
        reads_page(*page, timestamps, r@),
{
    let n = page.lines.len();
    if n == 0 {
        let mut m = concat3(
            "[no new lines after ",
            decimal_i64(page.next_after_id).as_str(),
            ", ",
        );
        m.append(decimal(page.total_lines).as_str());
        m.append(" total]");
        proof {
            let none = Seq::<char>::empty();
            assert(reads_lines(page.lines@, timestamps, none));
            assert(m@ =~= m@ + none);
        }
        return m;
    }
    let mut out = concat3("[lines ", decimal_i64(page.lines[0].id).as_str(), "-");
    out.append(decimal_i64(page.lines[n - 1].id).as_str());
    out.append(" of ");
    out.append(decimal(page.total_lines).as_str());
    out.append(" total]\n");
    let ghost header = out@;
    let ghost mut body = Seq::<char>::empty();
    let mut i: usize = 0;
    assert(page.lines@.take(0).len() == 0);
    assert(out@ =~= header + body);
    while i < n
        invariant
            i <= n == page.lines@.len(),
            reads_lines(page.lines@.take(i as int), timestamps, body),
            out@ == header + body,
        decreases n - i,
    {
        let next = render_line(&page.lines[i], timestamps);
        out.append(next.as_str());
        proof {
            let longer = body + next@;
            let taken = page.lines@.take(i + 1);
            assert(taken.drop_last() =~= page.lines@.take(i as int));
            assert(taken.last() == page.lines@[i as int]);
            let k = body.len() as int;
            assert(longer.take(k) =~= body);
            assert(longer.skip(k) =~= next@);
            assert(out@ =~= header + longer);
            body = longer;
        }
        i = i + 1;
    }
    assert(page.lines@.take(n as int) =~= page.lines@);
    out
}

/// Whether a text shows captured lines.
pub open spec fn tells_lines(
    include_timestamps: Option<bool>,
    response: ResponsePayload,
    r: Result<String, ToolError>,
) -> bool {
    match response {
        ResponsePayload::Lines(page) => r matches Ok(out) && reads_page(
            page,
            include_timestamps == Some(true),
            out@,
        ),
        _ => broken(r, UNEXPECTED@),
    }
}

/// The answer of `serial_read`.
pub fn read_answer(include_timestamps: Option<bool>, response: ResponsePayload) -> (r: Result<
    String,
    ToolError,
>)
    ensures
        tells_lines(include_timestamps, response, r),
{
    match response {
        ResponsePayload::Lines(page) => {
            let timestamps = match include_timestamps {
                Some(t) => t,
                None => false,
            };
            Ok(render_lines(&page, timestamps))
        },
        _ => Err(unexpected()),
    }
}

/// When a buffer last changed, in words.
pub open spec fn last_activity(stats: BufferStats) -> Seq<char> {
    match stats.last_timestamp_ns {
        Some(ts) => export::record_time(ts),
        None => "never"@,
    }
}

/// The status of a port as the JSON object that `serial_status` returns.
pub open spec fn status_json(name: Seq<char>, state: ConnectionState, stats: BufferStats) -> Seq<
    char,
> {
    "{\n  \"db_size_bytes\": "@ + text::dec_nat(stats.db_size_bytes as nat)
        + ",\n  \"last_activity\": "@ + json::json_text(last_activity(stats))
        + ",\n  \"port\": "@ + json::json_text(name) + ",\n  \"state\": "@ + json::json_text(
        state_word(state),
    ) + ",\n  \"total_bytes\": "@ + text::dec_nat(stats.total_bytes as nat)
        + ",\n  \"total_lines\": "@ + text::dec_nat(stats.total_lines as nat) + "\n}"@
}

/// Whether a text tells the status of a port.
pub open spec fn tells_status(response: ResponsePayload, r: Result<String, ToolError>) -> bool {
    match response {
        ResponsePayload::Status { name, state, stats } => says(
            r,
            status_json(name@, state, stats),
        ),
        _ => broken(r, UNEXPECTED@),
    }
}

/// The answer of `serial_status`.
pub fn status_answer(response: ResponsePayload) -> (r: Result<String, ToolError>)
    ensures
        tells_status(response, r),
{
    match response {
        ResponsePayload::Status { name, state, stats } => {
            let activity = match stats.last_timestamp_ns {
                Some(ts) => format_timestamp(ts),
                None => "never".to_owned(),
            };
            let mut out = concat2(
                "{\n  \"db_size_bytes\": ",
                decimal(stats.db_size_bytes).as_str(),
            );
            out.append(",\n  \"last_activity\": ");
            out.append(json_string(activity.as_str()).as_str());
            out.append(",\n  \"port\": ");
            out.append(json_string(name.as_str()).as_str());
            out.append(",\n  \"state\": ");
            out.append(json_string(state_name(&state).as_str()).as_str());
            out.append(",\n  \"total_bytes\": ");
            out.append(decimal(stats.total_bytes).as_str());
            out.append(",\n  \"total_lines\": ");
            out.append(decimal(stats.total_lines).as_str());
            out.append("\n}");
            Ok(out)
        },
        _ => Err(unexpected()),
    }
}

/// A search result as `serial_search` shows it.
pub open spec fn hit_text(line: StoredLine) -> Seq<char> {
    text::dec_int(line.id as int) + ":["@ + export::record_time(line.timestamp_ns) + "] "@
        + line.payload@ + "\n"@
}

/// Search results, one after the other.
pub open spec fn hits_text(lines: Seq<StoredLine>) -> Seq<char>
    decreases lines.len(),
{
    if lines.len() == 0 {
        Seq::empty()
    } else {
        hits_text(lines.drop_last()) + hit_text(lines.last())
    }
}

/// What `serial_search` returns.
pub open spec fn found_text(results: Seq<StoredLine>, truncated: bool) -> Seq<char> {
    hits_text(results) + (if results.len() == 0 {
        "(no matches)\n"@
    } else {
        Seq::empty()
    }) + (if truncated {
        "(scan limit reached, later lines were not examined; narrow the time range)\n"@
    } else {
        Seq::empty()
    })
}

fn render_hits(outcome: &SearchOutcome) -> (r: String)
    ensures
        r@ == found_text(outcome.results@, outcome.truncated),
{
    let mut out = String::new();
    let n = outcome.results.len();
    let mut i: usize = 0;
    assert(out@ =~= hits_text(outcome.results@.take(0)));
    while i < n
        invariant
            i <= n == outcome.results@.len(),
            out@ == hits_text(outcome.results@.take(i as int)),
        decreases n - i,
    {
        let line = &outcome.results[i];
        proof {
            let taken = outcome.results@.take(i + 1);
            assert(taken.drop_last() =~= outcome.results@.take(i as int));
            assert(taken.last() == outcome.results@[i as int]);
        }
        out.append(decimal_i64(line.id).as_str());
        out.append(":[");
        out.append(format_timestamp(line.timestamp_ns).as_str());
        out.append("] ");
        out.append(line.payload.as_str());
        out.append("\n");
        assert(out@ =~= hits_text(outcome.results@.take(i + 1)));
        i = i + 1;
    }
    assert(outcome.results@.take(n as int) =~= outcome.results@);
    if n == 0 {
        out.append("(no matches)\n");
    }
    if outcome.truncated {
        out.append(
            "(scan limit reached, later lines were not examined; narrow the time range)\n",
        );
    }
    assert(out@ =~= found_text(outcome.results@, outcome.truncated));
    out
}

/// Whether a text tells of found lines.
pub open spec fn tells_search(response: ResponsePayload, r: Result<String, ToolError>) -> bool {
    match response {
        ResponsePayload::SearchResults(outcome) => says(
            r,
            found_text(outcome.results@, outcome.truncated),
        ),
        _ => broken(r, UNEXPECTED@),
    }
}

/// The answer of `serial_search`.
pub fn search_answer(response: ResponsePayload) -> (r: Result<String, ToolError>)
    ensures
        tells_search(response, r),
{
    match response {
        ResponsePayload::SearchResults(outcome) => Ok(render_hits(&outcome)),
        _ => Err(unexpected()),
    }
}

/// Whether a text tells of an export.
pub open spec fn tells_export(response: ResponsePayload, r: Result<String, ToolError>) -> bool {
    match response {
        ResponsePayload::ExportSuccess { lines_exported, path, file_format } => says(
            r,
            "Exported "@ + text::dec_nat(lines_exported as nat) + " lines to "@ + path@
                + " (format: "@ + file_format.name() + ")"@,
        ),
        _ => broken(r, UNEXPECTED@),
    }
}

/// The answer of `serial_export`.
pub fn export_answer(response: ResponsePayload) -> (r: Result<String, ToolError>)
    ensures
        tells_export(response, r),
{
    match response {
        ResponsePayload::ExportSuccess { lines_exported, path, file_format } => {
            let mut m = concat3("Exported ", decimal(lines_exported).as_str(), " lines to ");
            m.append(path.as_str());
            m.append(" (format: ");
            m.append(file_format.to_string().as_str());
            m.append(")");
            Ok(m)
        },
        _ => Err(unexpected()),
    }
}

/// Whether a text tells of a cleared buffer.
pub open spec fn tells_clear(response: ResponsePayload, r: Result<String, ToolError>) -> bool {
    match response {
        ResponsePayload::ClearSuccess { lines_cleared, archive_path } => says(
            r,
            "Cleared buffer ("@ + text::dec_nat(lines_cleared as nat) + (match archive_path {
                None => " lines removed)"@,
                Some(path) => " lines archived to "@ + path@ + ")"@,
            }),
        ),
        _ => broken(r, UNEXPECTED@),
    }
}

/// The answer of `serial_clear`.
pub fn clear_answer(response: ResponsePayload) -> (r: Result<String, ToolError>)
    ensures
        tells_clear(response, r),
{
    match response {
        ResponsePayload::ClearSuccess { lines_cleared, archive_path } => {
            let mut m = concat2("Cleared buffer (", decimal(lines_cleared).as_str());
            match archive_path {
                None => m.append(" lines removed)"),
                Some(path) => m.append(
                    concat3(" lines archived to ", path.as_str(), ")").as_str(),
                ),
            }
            Ok(m)
        },
        _ => Err(unexpected()),
    }
}

/// A managed port as `serial_list` shows it.
pub open spec fn connection_text(p: PortInfoResponse) -> Seq<char> {
    "  "@ + p.name@ + " \u{2014} "@ + state_word(p.state) + " ("@ + text::dec_nat(
        p.total_lines as nat,
    ) + " lines)\n"@
}

/// Managed ports, one after the other.
pub open spec fn connections_text(ports: Seq<PortInfoResponse>) -> Seq<char>
    decreases ports.len(),
{
    if ports.len() == 0 {
        Seq::empty()
    } else {
        connections_text(ports.drop_last()) + connection_text(ports.last())
    }
}

/// Devices of the machine, one after the other.
pub open spec fn devices_text(ports: Seq<String>) -> Seq<char>
    decreases ports.len(),
{
    if ports.len() == 0 {
        Seq::empty()
    } else {
        devices_text(ports.drop_last()) + "  "@ + ports.last()@ + "\n"@
    }
}

/// What `serial_list` returns.
pub open spec fn list_text(hardware: Seq<String>, managed: Seq<PortInfoResponse>) -> Seq<char> {
    "System ports:\n"@ + (if hardware.len() == 0 {
        "  (none detected)\n"@
    } else {
        devices_text(hardware)
    }) + "\nManaged connections:\n"@ + (if managed.len() == 0 {
        "  (none)\n"@
    } else {
        connections_text(managed)
    })
}

fn push_devices(out: &mut String, ports: &Vec<String>)
    ensures
        final(out)@ == old(out)@ + devices_text(ports@),
{
    let ghost before = out@;
    let mut i: usize = 0;
    assert(out@ =~= before + devices_text(ports@.take(0)));
    while i < ports.len()
        invariant
            i <= ports.len(),
            out@ == before + devices_text(ports@.take(i as int)),
        decreases ports.len() - i,
    {
        proof {
            assert(ports@.take(i + 1).drop_last() =~= ports@.take(i as int));
            assert(ports@.take(i + 1).last() == ports@[i as int]);
        }
        out.append("  ");
        out.append(ports[i].as_str());
        out.append("\n");
        assert(out@ =~= before + devices_text(ports@.take(i + 1)));
        i = i + 1;
    }
    assert(ports@.take(ports@.len() as int) =~= ports@);
}

fn push_connections(out: &mut String, ports: &Vec<PortInfoResponse>)
    ensures
        final(out)@ == old(out)@ + connections_text(ports@),
{
    let ghost before = out@;
    let mut i: usize = 0;
    assert(out@ =~= before + connections_text(ports@.take(0)));
    while i < ports.len()
        invariant
            i <= ports.len(),
            out@ == before + connections_text(ports@.take(i as int)),
        decreases ports.len() - i,
    {
        let p = &ports[i];
        proof {
            assert(ports@.take(i + 1).drop_last() =~= ports@.take(i as int));
            assert(ports@.take(i + 1).last() == ports@[i as int]);
        }
        out.append("  ");
        out.append(p.name.as_str());
        out.append(" \u{2014} ");
        out.append(state_name(&p.state).as_str());
        out.append(" (");
        out.append(decimal(p.total_lines).as_str());
        out.append(" lines)\n");
        assert(out@ =~= before + connections_text(ports@.take(i + 1)));
        i = i + 1;
    }
    assert(ports@.take(ports@.len() as int) =~= ports@);
}

/// Whether a text lists the ports.
pub open spec fn tells_list(
    hardware: ResponsePayload,
    managed: ResponsePayload,
    r: Result<String, ToolError>,
) -> bool {
    match (hardware, managed) {
        (ResponsePayload::HardwarePorts(h), ResponsePayload::PortList(m)) => says(
            r,
            list_text(h@, m@),
        ),
        _ => broken(r, UNEXPECTED@),
    }
}

/// The answer of `serial_list`, from those to the two requests that it makes.
pub fn list_answer(hardware: ResponsePayload, managed: ResponsePayload) -> (r: Result<
    String,
    ToolError,
>)
    ensures
        tells_list(hardware, managed, r),
{
    match (hardware, managed) {
        (ResponsePayload::HardwarePorts(h), ResponsePayload::PortList(m)) => {
            let mut out = "System ports:\n".to_owned();
            if h.len() == 0 {
                out.append("  (none detected)\n");
            } else {
                push_devices(&mut out, &h);
            }
            out.append("\nManaged connections:\n");
            if m.len() == 0 {
                out.append("  (none)\n");
            } else {
                push_connections(&mut out, &m);
            }
            Ok(out)
        },
        _ => Err(unexpected()),
    }
}

fn with_summary(verb: &str, name: &str, summary: &str) -> (r: String)
    ensures
        r@ == verb@ + name@ + " ("@ + summary@ + ")"@,
{
    let mut m = concat3(verb, name, " (");
    m.append(summary);
    m.append(")");
    m
}

/// Whether a text tells of an opened port.
pub open spec fn tells_open(response: ResponsePayload, r: Result<String, ToolError>) -> bool {
    match response {
        ResponsePayload::PortOpened { name, config_summary } => says(
            r,
            "Opened "@ + name@ + " ("@ + config_summary@ + ")"@,
        ),
        ResponsePayload::PortReconfigured { name, config_summary } => says(
            r,
            "Reconfigured "@ + name@ + " ("@ + config_summary@ + ")"@,
        ),
        _ => broken(r, UNEXPECTED@),
    }
}

/// The answer of `serial_open`.
pub fn open_answer(response: ResponsePayload) -> (r: Result<String, ToolError>)
    ensures
        tells_open(response, r),
{
    match response {
        ResponsePayload::PortOpened { name, config_summary } => Ok(
            with_summary("Opened ", name.as_str(), config_summary.as_str()),
        ),
        ResponsePayload::PortReconfigured { name, config_summary } => Ok(
            with_summary("Reconfigured ", name.as_str(), config_summary.as_str()),
        ),
        _ => Err(unexpected()),
    }
}

/// Whether a text tells of a closed port.
pub open spec fn tells_close(response: ResponsePayload, r: Result<String, ToolError>) -> bool {
    match response {
        ResponsePayload::PortClosed { name } => says(r, "Closed "@ + name@),
        _ => broken(r, UNEXPECTED@),
    }
}

/// The answer of `serial_close`.
pub fn close_answer(response: ResponsePayload) -> (r: Result<String, ToolError>)
    ensures
        tells_close(response, r),
{
    match response {
        ResponsePayload::PortClosed { name } => Ok(concat2("Closed ", name.as_str())),
        _ => Err(unexpected()),
    }
}

/// Whether a text tells of written bytes.
pub open spec fn tells_write(
    port: &str,
    response: ResponsePayload,
    r: Result<String, ToolError>,
) -> bool {
    match response {
        ResponsePayload::WriteSuccess { bytes_written } => says(
            r,
            "Wrote "@ + text::dec_nat(bytes_written as nat) + " bytes to "@ + port@,
        ),
        _ => broken(r, UNEXPECTED@),
    }
}

/// The answer of `serial_write`.
pub fn write_answer(port: &str, response: ResponsePayload) -> (r: Result<String, ToolError>)
    ensures
        tells_write(port, response, r),
{
    match response {
        ResponsePayload::WriteSuccess { bytes_written } => {
            let mut m = concat3("Wrote ", decimal_usize(bytes_written).as_str(), " bytes to ");
            m.append(port);
            Ok(m)
        },
        _ => Err(unexpected()),
    }
}

/// Whether a text tells of control lines that were set.
pub open spec fn tells_signal(
    port: &str,
    response: ResponsePayload,
    r: Result<String, ToolError>,
) -> bool {
    match response {
        ResponsePayload::SignalSuccess { applied } => says(
            r,
            "Set "@ + text::joined(text::texts(applied@), ", "@) + " on "@ + port@,
        ),
        _ => broken(r, UNEXPECTED@),
    }
}

/// The answer of `serial_signal`.
pub fn signal_answer(port: &str, response: ResponsePayload) -> (r: Result<String, ToolError>)
    ensures
        tells_signal(port, response, r),
{
    match response {
        ResponsePayload::SignalSuccess { applied } => {
            let mut m = concat3("Set ", join(&applied, ", ").as_str(), " on ");
            m.append(port);
            Ok(m)
        },
        _ => Err(unexpected()),
    }
}

/// Whether a text tells of a break.
pub open spec fn tells_break(
    port: &str,
    response: ResponsePayload,
    r: Result<String, ToolError>,
) -> bool {
    match response {
        ResponsePayload::BreakSuccess { duration_ms } => says(
            r,
            "Sent serial BREAK pulse ("@ + text::dec_nat(duration_ms as nat) + "ms) on "@
                + port@,
        ),
        _ => broken(r, UNEXPECTED@),
    }
}

/// The answer of `serial_break`.
pub fn break_answer(port: &str, response: ResponsePayload) -> (r: Result<String, ToolError>)
    ensures
        tells_break(port, response, r),
{
    match response {
        ResponsePayload::BreakSuccess { duration_ms } => {
            let mut m = concat3(
                "Sent serial BREAK pulse (",
                decimal(duration_ms).as_str(),
                "ms) on ",
            );
            m.append(port);
            Ok(m)
        },
        _ => Err(unexpected()),
    }
}

/// Whether a text tells of a sent file.
pub open spec fn tells_sent(
    port: &str,
    response: ResponsePayload,
    r: Result<String, ToolError>,
) -> bool {
    match response {
        ResponsePayload::TransferSuccess { bytes_transferred, file_name, protocol, .. } => says(
            r,
            "Sent "@ + text::dec_nat(bytes_transferred as nat) + " bytes ('"@ + file_name@
                + "') to "@ + port@ + " via "@ + transfer::protocol_label(protocol),
        ),
        _ => broken(r, UNEXPECTED@),
    }
}

/// The answer of `serial_send_file`.
pub fn send_file_answer(port: &str, response: ResponsePayload) -> (r: Result<String, ToolError>)
    ensures
        tells_sent(port, response, r),
{
    match response {
        ResponsePayload::TransferSuccess { bytes_transferred, file_name, protocol, .. } => {
            let mut m = concat3("Sent ", decimal(bytes_transferred).as_str(), " bytes ('");
            m.append(file_name.as_str());
            m.append("') to ");
            m.append(port);
            m.append(" via ");
            m.append(label(protocol));
            Ok(m)
        },
        _ => Err(unexpected()),
    }
}

/// Whether a text tells of a received file.
pub open spec fn tells_received(
    port: &str,
    response: ResponsePayload,
    r: Result<String, ToolError>,
) -> bool {
    match response {
        ResponsePayload::TransferSuccess { bytes_transferred, file_name, path, .. } => says(
            r,
            "Received "@ + text::dec_nat(bytes_transferred as nat) + " bytes from "@ + port@
                + ", saved to '"@ + (match path {
                Some(p) => p@,
                None => file_name@,
            }) + "'"@,
        ),
        _ => broken(r, UNEXPECTED@),
    }
}

/// The answer of `serial_receive_file`.
pub fn receive_file_answer(port: &str, response: ResponsePayload) -> (r: Result<String, ToolError>)
    ensures
        tells_received(port, response, r),
{
    match response {
        ResponsePayload::TransferSuccess { bytes_transferred, file_name, path, .. } => {
            let location = match path {
                Some(p) => p,
                None => file_name,
            };
            let mut m = concat3("Received ", decimal(bytes_transferred).as_str(), " bytes from ");
            m.append(port);
            m.append(", saved to '");
            m.append(location.as_str());
            m.append("'");
            Ok(m)
        },
        _ => Err(unexpected()),
    }
}

/// Whether a text tells of an executed macro.
pub open spec fn tells_macro(
    port: &str,
    name: &str,
    response: ResponsePayload,
    r: Result<String, ToolError>,
) -> bool {
    match response {
        ResponsePayload::MacroSuccess { executed_steps } => says(
            r,
            "Executed '"@ + name@ + "' on "@ + port@ + " ("@ + text::dec_nat(
                executed_steps@.len(),
            ) + " steps: "@ + text::joined(text::texts(executed_steps@), " \u{2192} "@)
                + ")"@,
        ),
        _ => broken(r, UNEXPECTED@),
    }
}

/// The answer of `serial_macro`.
pub fn macro_answer(port: &str, name: &str, response: ResponsePayload) -> (r: Result<
    String,
    ToolError,
>)
    ensures
        tells_macro(port, name, response, r),
{
    match response {
        ResponsePayload::MacroSuccess { executed_steps } => {
            let mut m = concat3("Executed '", name, "' on ");
            m.append(port);
            m.append(" (");
            m.append(decimal_usize(executed_steps.len()).as_str());
            m.append(" steps: ");
            m.append(join(&executed_steps, " \u{2192} ").as_str());
            m.append(")");
            Ok(m)
        },
        _ => Err(unexpected()),
    }
}

/// Whether a text is what the tool said.
pub open spec fn tells_tool(response: ResponsePayload, r: Result<String, ToolError>) -> bool {
    match response {
        ResponsePayload::EspSuccess(output) => r == Ok::<String, ToolError>(output),
        _ => broken(r, UNEXPECTED@),
    }
}

/// The answer of the ESP tools: what the flashing tool printed.
pub fn esp_output(response: ResponsePayload) -> (r: Result<String, ToolError>)
    ensures
        tells_tool(response, r),
{
    match response {
        ResponsePayload::EspSuccess(output) => Ok(output),
        _ => Err(unexpected()),
    }
}

// ---------------------------------------------------------------------------
// Resources
// ---------------------------------------------------------------------------

/// The resource that stands for the status of a port.
#[derive(Debug)]
pub struct StatusResource {
    pub uri: String,
    pub name: String,
    pub description: String,
}

/// The URI of the status of a port.
pub open spec fn resource_uri(port: Seq<char>) -> Seq<char> {
    "serial://"@ + port + "/status"@
}

/// Whether a resource is that of a managed port.
pub open spec fn is_resource_of(resource: StatusResource, port: PortInfoResponse) -> bool {
    &&& resource.uri@ == resource_uri(port.name@)
    &&& resource.name@ == port.name@ + " status"@
    &&& resource.description@ == "Connection state for "@ + port.name@
}

/// Whether resources are offered for the ports.
pub open spec fn offers_resources(
    response: ResponsePayload,
    r: Result<Vec<StatusResource>, ToolError>,
) -> bool {
    match response {
        ResponsePayload::PortList(ports) => r matches Ok(v) && v@.len() == ports@.len() && (
        forall|i: int| 0 <= i < ports@.len() ==> #[trigger] is_resource_of(v@[i], ports@[i])),
        _ => broken(r, UNEXPECTED@),
    }
}

/// The resources on offer: the status of each managed port.
pub fn list_resources(response: ResponsePayload) -> (r: Result<Vec<StatusResource>, ToolError>)
    ensures
        offers_resources(response, r),
{
    match response {
        ResponsePayload::PortList(ports) => {
            let mut v: Vec<StatusResource> = Vec::new();
            let mut i: usize = 0;
            while i < ports.len()
                invariant
                    i <= ports.len(),
                    v@.len() == i,
                    forall|j: int| 0 <= j < i ==> #[trigger] is_resource_of(v@[j], ports@[j]),
                decreases ports.len() - i,
            {
                let name = ports[i].name.as_str();
                v.push(
                    StatusResource {
                        uri: concat3("serial://", name, "/status"),
                        name: concat2(name, " status"),
                        description: concat2("Connection state for ", name),
                    },
                );
                i = i + 1;
            }
            Ok(v)
        },
        _ => Err(unexpected()),
    }
}

/// Whether a URI names a port or is refused.
pub open spec fn names_port(uri: &str, r: Result<String, ToolError>) -> bool {
    match r {
        Ok(port) => uri@ == resource_uri(port@),
        Err(_) => misused(r, "invalid resource URI: "@ + uri@) && forall|port: Seq<char>|
            uri@ != #[trigger] resource_uri(port),
    }
}

/// The port whose status a resource URI names.
pub fn resource_port(uri: &str) -> (r: Result<String, ToolError>)
    ensures
        names_port(uri, r),
{
    proof {
        reveal_strlit("serial://");
        reveal_strlit("/status");
        assert forall|port: Seq<char>| uri@ == #[trigger] resource_uri(port) implies uri@.len()
            >= 16 && text::begins_with(uri@, "serial://"@) && text::finishes_with(
            uri@,
            "/status"@,
        ) by {
            assert(uri@.take(9) =~= "serial://"@);
            assert(uri@.skip(uri@.len() - 7) =~= "/status"@);
        }
    }
    let chars = chars_of(uri);
    if chars.len() >= 16 && starts_with(uri, "serial://") && ends_with(uri, "/status") {
        let port = slice_of(chars.as_slice(), 9, chars.len() - 7);
        proof {
            assert(uri@.take(9) =~= "serial://"@);
            assert(uri@.skip(uri@.len() - 7) =~= "/status"@);
            assert(uri@ =~= uri@.take(9) + uri@.subrange(9, uri@.len() - 7) + uri@.skip(
                uri@.len() - 7,
            ));
        }
        Ok(port)
    } else {
        Err(ToolError::InvalidParams(concat2("invalid resource URI: ", uri)))
    }
}

/// A resource URI names one port: no two ports share one.
pub proof fn resource_names_its_port(a: Seq<char>, b: Seq<char>)
    requires
        resource_uri(a) == resource_uri(b),
    ensures
        a == b,
{
    let u = resource_uri(a);
    let n = "serial://"@.len() as int;
    let m = "/status"@.len() as int;
    assert(a =~= u.subrange(n, u.len() - m));
    assert(b =~= resource_uri(b).subrange(n, u.len() - m));
}

/// The status of a port as the JSON text of its resource.
pub open spec fn resource_json(name: Seq<char>, state: ConnectionState, stats: BufferStats) -> Seq<
    char,
> {
    "{\n  \"db_size_bytes\": "@ + text::dec_nat(stats.db_size_bytes as nat)
        + ",\n  \"port\": "@ + json::json_text(name) + ",\n  \"state\": "@ + json::json_text(
        state_word(state),
    ) + ",\n  \"total_bytes\": "@ + text::dec_nat(stats.total_bytes as nat)
        + ",\n  \"total_lines\": "@ + text::dec_nat(stats.total_lines as nat) + "\n}"@
}

/// Whether a text is the resource of a port.
pub open spec fn tells_resource(response: ResponsePayload, r: Result<String, ToolError>) -> bool {
    match response {
        ResponsePayload::Status { name, state, stats } => says(
            r,
            resource_json(name@, state, stats),
        ),
        _ => broken(r, UNEXPECTED@),
    }
}

/// The text of a resource, from the answer to a status request.
pub fn read_resource(response: ResponsePayload) -> (r: Result<String, ToolError>)
    ensures
        tells_resource(response, r),
{
    match response {
        ResponsePayload::Status { name, state, stats } => {
            let mut out = concat2(
                "{\n  \"db_size_bytes\": ",
                decimal(stats.db_size_bytes).as_str(),
            );
            out.append(",\n  \"port\": ");
            out.append(json_string(name.as_str()).as_str());
            out.append(",\n  \"state\": ");
            out.append(json_string(state_name(&state).as_str()).as_str());
            out.append(",\n  \"total_bytes\": ");
            out.append(decimal(stats.total_bytes).as_str());
            out.append(",\n  \"total_lines\": ");
            out.append(decimal(stats.total_lines).as_str());
            out.append("\n}");
            Ok(out)
        },
        _ => Err(unexpected()),
    }
}

// ---------------------------------------------------------------------------
// Monitor windows
// ---------------------------------------------------------------------------

/// How often a window is told of new lines, in milliseconds.
pub const NOTIFY_INTERVAL_MS: u64 = 50;

/// MCP server for serial hardware bridging.
pub struct DevSerialServer {
    pub engine: CommandEngine,
    /// The ports with a monitor window, each once.
    pub monitors: Vec<String>,
}

/// What a monitor window is started with.
#[derive(Debug, PartialEq, Eq)]
pub struct MonitorStart {
    pub port: String,
    pub db_path: String,
    pub info: String,
}

impl DevSerialServer {
    /// The ports with a monitor window.
    pub open spec fn windows(self) -> Seq<Seq<char>> {
        text::texts(self.monitors@)
    }

    /// No port has two windows.
    pub open spec fn wf(self) -> bool {
        self.windows().no_duplicates()
    }

    /// Create a server over an existing engine.
    pub fn new(engine: CommandEngine) -> (r: DevSerialServer)
        ensures
            r.engine == engine,
            r.windows() == Seq::<Seq<char>>::empty(),
            r.wf(),
    {
        let r = DevSerialServer { engine, monitors: Vec::new() };
        assert(r.windows() =~= Seq::<Seq<char>>::empty());
        r
    }

    /// The engine backing this server.
    pub fn engine(&self) -> (r: &CommandEngine)
        ensures
            *r == self.engine,
    {
        &self.engine
    }

    /// How the outcome of a request is reported.
    pub open spec fn reports(
        outcome: Result<ResponsePayload, EngineError>,
        r: Result<ResponsePayload, ToolError>,
    ) -> bool {
        match outcome {
            Ok(response) => r == Ok::<ResponsePayload, ToolError>(response),
            Err(e) => if callers_fault(e) {
                misused(r, e.message())
            } else {
                broken(r, e.message())
            },
        }
    }

    /// What the engine answered, with failures mapped onto tool errors.
    pub fn run(outcome: Result<ResponsePayload, EngineError>) -> (r: Result<
        ResponsePayload,
        ToolError,
    >)
        ensures
            Self::reports(outcome, r),
    {
        match outcome {
            Ok(response) => Ok(response),
            Err(e) => Err(to_error_data(&e)),
        }
    }

    fn find_monitor(&self, port: &str) -> (r: Option<usize>)
        ensures
            match r {
                Some(i) => i < self.monitors@.len() && self.windows()[i as int] == port@,
                None => !self.windows().contains(port@),
            },
    {
        let mut i: usize = 0;
        while i < self.monitors.len()
            invariant
                i <= self.monitors.len(),
                forall|j: int| 0 <= j < i ==> self.windows()[j] != port@,
            decreases self.monitors.len() - i,
        {
            if same(self.monitors[i].as_str(), port) {
                return Some(i);
            }
            i = i + 1;
        }
        None
    }

    /// Whether a port has a monitor window.
    pub fn monitor_is_open(&self, port_name: &str) -> (r: bool)
        ensures
            r == self.windows().contains(port_name@),
    {
        match self.find_monitor(port_name) {
            Some(i) => {
                assert(self.windows()[i as int] == port_name@);
                true
            },
            None => false,
        }
    }

    /// Whether a monitor may be opened, and how it is started.
    pub open spec fn opens_monitor(
        self,
        port_name: &str,
        response: ResponsePayload,
        r: Result<MonitorStart, ToolError>,
    ) -> bool {
        match response {
            ResponsePayload::Status { state, .. } => if self.windows().contains(port_name@) {
                misused(
                    r,
                    "a monitor window is already open for '"@ + port_name@ + "'"@,
                )
            } else {
                r matches Ok(start) && start.port@ == port_name@ && start.db_path@
                    == paths::db_path(self.engine.config.global.data_dir@, port_name@)
                    && start.info@ == state_word(state)
            },
            _ => broken(r, UNEXPECTED@),
        }
    }

    /// What to start a monitor window with, given the status of its port. A port
    /// that is not managed is refused by the status request already.
    pub fn monitor_open(&self, port_name: &str, response: ResponsePayload) -> (r: Result<
        MonitorStart,
        ToolError,
    >)
        ensures
            self.opens_monitor(port_name, response, r),
    {
        match response {
            ResponsePayload::Status { state, .. } => {
                if self.monitor_is_open(port_name) {
                    return Err(
                        ToolError::InvalidParams(
                            concat3("a monitor window is already open for '", port_name, "'"),
                        ),
                    );
                }
                Ok(
                    MonitorStart {
                        port: port_name.to_owned(),
                        db_path: port_db_path(self.engine.data_dir(), port_name),
                        info: state_name(&state),
                    },
                )
            },
            _ => Err(unexpected()),
        }
    }

    /// What is noted of a monitor that was opened.
    pub open spec fn notes_opened(
        self,
        port_name: &str,
        started: Result<(), String>,
        after: Self,
        r: Result<String, ToolError>,
    ) -> bool {
        &&& after.wf()
        &&& after.engine == self.engine
        &&& match started {
            Ok(_) => says(r, "Monitor opened for "@ + port_name@) && after.windows() == (
            if self.windows().contains(port_name@) {
                self.windows()
            } else {
                self.windows().push(port_name@)
            }),
            Err(e) => broken(r, "failed to spawn monitor: "@ + e@) && after == self,
        }
    }

    /// The answer of `serial_monitor_open`, once the window was started or could
    /// not be. A window that is already there is kept, with its new process.
    pub fn monitor_opened(&mut self, port_name: &str, started: Result<(), String>) -> (r: Result<
        String,
        ToolError,
    >)
        requires
            old(self).wf(),
        ensures
            old(self).notes_opened(port_name, started, *final(self), r),
    {
        match started {
            Ok(_) => {
                if !self.monitor_is_open(port_name) {
                    self.monitors.push(port_name.to_owned());
                    assert(self.windows() =~= old(self).windows().push(port_name@));
                }
                Ok(concat2("Monitor opened for ", port_name))
            },
            Err(e) => Err(
                ToolError::Internal(concat2("failed to spawn monitor: ", e.as_str())),
            ),
        }
    }

    /// What is noted of a monitor that was closed.
    pub open spec fn notes_closed(
        self,
        port_name: &str,
        after: Self,
        r: Result<String, ToolError>,
    ) -> bool {
        &&& after.wf()
        &&& after.engine == self.engine
        &&& !after.windows().contains(port_name@)
        &&& forall|p: Seq<char>|
            p != port_name@ ==> #[trigger] after.windows().contains(p) == self.windows().contains(p)
        &&& if self.windows().contains(port_name@) {
            says(r, "Monitor closed for "@ + port_name@)
        } else {
            misused(r, "no monitor window is open for '"@ + port_name@ + "'"@) && after
                == self
        }
    }

    /// The answer of `serial_monitor_close`. Where it succeeds, the window is to
    /// be closed.
    pub fn monitor_close(&mut self, port_name: &str) -> (r: Result<String, ToolError>)
        requires
            old(self).wf(),
        ensures
            old(self).notes_closed(port_name, *final(self), r),
    {
        match self.find_monitor(port_name) {
            Some(i) => {
                let _gone = self.monitors.remove(i);
                proof {
                    let before = old(self).windows();
                    let now = self.windows();
                    assert(now =~= before.remove(i as int));
                    assert(before[i as int] == port_name@);
                    assert forall|p: Seq<char>| p != port_name@ implies #[trigger] now.contains(p)
                        == before.contains(p) by {
                        if before.contains(p) {
                            let k = before.index_of(p);
                            assert(before[k] == p);
                            if k < i {
                                assert(now[k] == p);
                            } else {
                                assert(now[k - 1] == p);
                            }
                        }
                        if now.contains(p) {
                            let k = now.index_of(p);
                            assert(now[k] == p);
                            if k < i {
                                assert(before[k] == p);
                            } else {
                                assert(before[k + 1] == p);
                            }
                        }
                    }
                }
                Ok(concat2("Monitor closed for ", port_name))
            },
            None => Err(
                ToolError::InvalidParams(
                    concat3("no monitor window is open for '", port_name, "'"),
                ),
            ),
        }
    }
}

/// Whether a reader is notified, and where it stands then.
pub open spec fn notifies(last_id: i64, current: Option<i64>, r: (bool, i64)) -> bool {
    &&& r.0 == (current is Some && current->0 != last_id)
    &&& r.1 == (match current {
        Some(id) => id,
        None => last_id,
    })
}

/// Whether a window is to be told of new lines, and the last line it was told
/// of: only where the last line of the capture is another one. A capture that
/// cannot be read has not changed.
pub fn notify(last_id: i64, current: Option<i64>) -> (r: (bool, i64))
    ensures
        notifies(last_id, current, r),
{
    match current {
        Some(id) => (id != last_id, id),
        None => (false, last_id),
    }
}

/// Whether a request carries out what a window asks for.
pub open spec fn carries_out(port: &str, event: MonitorEvent, r: RequestPayload) -> bool {
    &&& r.target() == Some(port@)
    &&& match event {
        MonitorEvent::Macro { name } => r matches RequestPayload::ExecuteMacro {
            macro_name,
            ..
        } && macro_name == name,
        MonitorEvent::Signal { dtr, rts } => r matches RequestPayload::SetSignal {
            dtr: d,
            rts: s,
            ..
        } && d == dtr && s == rts,
        MonitorEvent::Write { hex } => r matches RequestPayload::WriteData {
            data,
            is_hex,
            ..
        } && data == hex && is_hex,
        MonitorEvent::Reconfigure { settings } => r matches RequestPayload::ReconfigurePort {
            settings: s,
            ..
        } && s == settings,
        MonitorEvent::Break { duration_ms } => r matches RequestPayload::SendBreak {
            duration_ms: d,
            ..
        } && d == duration_ms,
        MonitorEvent::SendFile { path, protocol } => r matches RequestPayload::SendFile {
            file_path,
            protocol: p,
            ..
        } && file_path == path && p == protocol,
        MonitorEvent::ReceiveFile { dir, protocol } => r matches RequestPayload::ReceiveFile {
            output_dir,
            protocol: p,
            ..
        } && output_dir == dir && p == protocol,
    }
}

/// Translate a monitor window action into an engine operation.
pub fn monitor_event_payload(port: &str, event: MonitorEvent) -> (r: RequestPayload)
    ensures
        carries_out(port, event, r),
{
    match event {
        MonitorEvent::Macro { name } => RequestPayload::ExecuteMacro {
            port: port.to_owned(),
            macro_name: name,
        },
        MonitorEvent::Signal { dtr, rts } => RequestPayload::SetSignal {
            port: port.to_owned(),
            dtr,
            rts,
        },
        MonitorEvent::Write { hex } => RequestPayload::WriteData {
            port: port.to_owned(),
            data: hex,
            is_hex: true,
        },
        MonitorEvent::Reconfigure { settings } => RequestPayload::ReconfigurePort {
            name: port.to_owned(),
            settings,
        },
        MonitorEvent::Break { duration_ms } => RequestPayload::SendBreak {
            port: port.to_owned(),
            duration_ms,
        },
        MonitorEvent::SendFile { path, protocol } => RequestPayload::SendFile {
            port: port.to_owned(),
            file_path: path,
            protocol,
        },
        MonitorEvent::ReceiveFile { dir, protocol } => RequestPayload::ReceiveFile {
            port: port.to_owned(),
            output_dir: dir,
            protocol,
        },
    }
}

} // verus!
