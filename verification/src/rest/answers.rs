//! What each route hands to the engine, and what it answers.
//!
//! Every route does the same three things: turn the request into a
//! [`RequestPayload`], hand it to the engine, and turn the answer into JSON. None
//! of them carries operation logic, which is what keeps the four transports
//! behaving identically.
use vstd::prelude::*;
use vstd::string::*;

use crate::clock;
use crate::clock::parse_time;
use crate::engine::EngineError;
use crate::export;
use crate::export::{line_object, ExportFormat};
use crate::json;
use crate::json::{array_of, json_string, string_array};
use crate::modem::FileTransferProtocol;
use crate::protocol::{
    PortInfoResponse, ReadWindow, RequestPayload, ResponsePayload, SearchMode,
};
use crate::reader::ConnectionState;
use crate::rest::routes::Event;
use crate::rest::{problem, Problem, Status};
use crate::storage::{BufferStats, StoredLine};
use crate::text;
use crate::text::{concat2, concat3, decimal, decimal_i64, decimal_usize, parse_i64};

verus! {

/// How long a stream parks on the engine when nothing is arriving.
///
/// The engine answers as soon as a line lands, so this is the cost of an idle
/// port rather than a delay on a busy one.
pub const STREAM_WAIT_MS: u64 = 5_000;

// ---------------------------------------------------------------------------
// Parameters
// ---------------------------------------------------------------------------

/// Whether an optional text is given that is no RFC 3339 instant.
pub open spec fn no_time(value: Option<String>) -> bool {
    value matches Some(s) && clock::rfc3339_of(s@) is Err
}

/// The instant that an optional text stands for.
pub open spec fn time_of(value: Option<String>) -> Option<i64> {
    match value {
        None => None,
        Some(s) => Some(clock::instant_or_zero(clock::rfc3339_of(s@)->Ok_0)),
    }
}

/// Whether a problem refuses a text that is no instant.
pub open spec fn refuses_time(p: Problem, value: Option<String>) -> bool {
    p.is(
        Status::BadRequest,
        "invalid-parameter"@,
        "invalid time"@ + " '"@ + value->0@ + "': "@ + clock::rfc3339_of(value->0@)->Err_0,
    )
}

fn read_time(value: &Option<String>) -> (r: Result<Option<i64>, Problem>)
    ensures
        if no_time(*value) {
            r matches Err(p) && refuses_time(p, *value)
        } else {
            r == Ok::<Option<i64>, Problem>(time_of(*value))
        },
{
    match value {
        None => Ok(None),
        Some(s) => match parse_time("invalid time", Some(s.as_str())) {
            Ok(v) => Ok(v),
            Err(m) => Err(problem(Status::BadRequest, "invalid-parameter", m.as_str())),
        },
    }
}

/// `GET /v1/ports/{port}/lines`
///
/// Every field of the read window is reachable, so the HTTP caller can ask the
/// same questions the CLI and the MCP server can. `since` is RFC 3339 rather
/// than a nanosecond count.
#[derive(Debug)]
pub struct LinesQuery {
    pub start: Option<i64>,
    pub after: Option<i64>,
    pub tail: Option<u32>,
    pub since: Option<String>,
    pub limit: Option<u32>,
    pub wait_ms: Option<u64>,
}

impl LinesQuery {
    /// The window that is asked for.
    pub open spec fn asked(self) -> ReadWindow {
        ReadWindow {
            start_id: self.start,
            after_id: self.after,
            tail: self.tail,
            since_ns: time_of(self.since),
            limit: self.limit,
            wait_ms: self.wait_ms,
        }
    }

    /// Which lines a query asks for.
    pub open spec fn gives_window(self, r: Result<ReadWindow, Problem>) -> bool {
        if no_time(self.since) {
            r matches Err(p) && refuses_time(p, self.since)
        } else {
            r == Ok::<ReadWindow, Problem>(self.asked())
        }
    }

    /// The window that is asked for.
    pub fn window(&self) -> (r: Result<ReadWindow, Problem>)
        ensures
            self.gives_window(r),
    {
        match read_time(&self.since) {
            Err(p) => Err(p),
            Ok(since_ns) => Ok(
                ReadWindow {
                    start_id: self.start,
                    after_id: self.after,
                    tail: self.tail,
                    since_ns,
                    limit: self.limit,
                    wait_ms: self.wait_ms,
                },
            ),
        }
    }
}

/// `GET /v1/ports/{port}/search`
#[derive(Debug)]
pub struct SearchQuery {
    pub q: String,
    pub mode: Option<SearchMode>,
    pub from: Option<String>,
    pub to: Option<String>,
    pub limit: Option<u32>,
}

impl SearchQuery {
    /// What a query asks of the engine.
    pub open spec fn asks(self, port: String, r: Result<RequestPayload, Problem>) -> bool {
        if no_time(self.from) {
            r matches Err(p) && refuses_time(p, self.from)
        } else if no_time(self.to) {
            r matches Err(p) && refuses_time(p, self.to)
        } else {
            r matches Ok(
                RequestPayload::Search { port: p, query, mode, start_ns, end_ns, limit },
            ) && p == port && query@ == self.q@ && mode == (match self.mode {
                Some(m) => m,
                None => SearchMode::Substring,
            }) && start_ns == time_of(self.from) && end_ns == time_of(self.to) && limit
                == self.limit
        }
    }

    /// The request that carries out the search.
    pub fn payload(&self, port: String) -> (r: Result<RequestPayload, Problem>)
        ensures
            self.asks(port, r),
    {
        let start_ns = match read_time(&self.from) {
            Err(p) => {
                return Err(p);
            },
            Ok(v) => v,
        };
        let end_ns = match read_time(&self.to) {
            Err(p) => {
                return Err(p);
            },
            Ok(v) => v,
        };
        Ok(
            RequestPayload::Search {
                port,
                query: self.q.clone(),
                mode: match self.mode {
                    Some(m) => m,
                    None => SearchMode::Substring,
                },
                start_ns,
                end_ns,
                limit: self.limit,
            },
        )
    }
}

/// `POST /v1/ports/{port}/export`
#[derive(Debug)]
pub struct ExportBody {
    pub path: String,
    pub format: Option<ExportFormat>,
    pub start_line: Option<i64>,
    pub end_line: Option<i64>,
}

impl ExportBody {
    /// What a body asks of the engine.
    pub open spec fn asks(self, port: String, r: RequestPayload) -> bool {
        r == (RequestPayload::Export {
            port,
            output_path: self.path,
            file_format: self.format,
            start_line: self.start_line,
            end_line: self.end_line,
        })
    }

    /// The request that carries out the export.
    pub fn payload(self, port: String) -> (r: RequestPayload)
        ensures
            self.asks(port, r),
    {
        RequestPayload::Export {
            port,
            output_path: self.path,
            file_format: self.format,
            start_line: self.start_line,
            end_line: self.end_line,
        }
    }
}

/// `POST /v1/ports/{port}/write`
#[derive(Debug)]
pub struct WriteBody {
    /// What to write. A `0x` prefix is read as hex without `hex` being set.
    pub data: String,
    /// Read `data` as hex even when it carries no prefix.
    pub hex: bool,
}

impl WriteBody {
    /// What a body asks of the engine.
    pub open spec fn asks(self, port: String, r: RequestPayload) -> bool {
        r == (RequestPayload::WriteData { port, data: self.data, is_hex: self.hex })
    }

    /// The request that carries out the write.
    pub fn payload(self, port: String) -> (r: RequestPayload)
        ensures
            self.asks(port, r),
    {
        RequestPayload::WriteData { port, data: self.data, is_hex: self.hex }
    }
}

/// `POST /v1/ports/{port}/transfers`
///
/// One route for both directions, because a transfer is the same operation with
/// the file going the other way.
#[derive(Debug)]
pub enum TransferBody {
    /// Send a file the daemon can read.
    Send { path: String, protocol: FileTransferProtocol },
    /// Receive a file into a directory the daemon can write to.
    Receive { directory: String, protocol: FileTransferProtocol },
}

impl TransferBody {
    /// What a body asks of the engine.
    pub open spec fn asks(self, port: String, r: RequestPayload) -> bool {
        r == (match self {
            TransferBody::Send { path, protocol } => RequestPayload::SendFile {
                port,
                file_path: path,
                protocol,
            },
            TransferBody::Receive { directory, protocol } => RequestPayload::ReceiveFile {
                port,
                output_dir: directory,
                protocol,
            },
        })
    }

    /// The request that carries out the transfer.
    pub fn payload(self, port: String) -> (r: RequestPayload)
        ensures
            self.asks(port, r),
    {
        match self {
            TransferBody::Send { path, protocol } => RequestPayload::SendFile {
                port,
                file_path: path,
                protocol,
            },
            TransferBody::Receive { directory, protocol } => RequestPayload::ReceiveFile {
                port,
                output_dir: directory,
                protocol,
            },
        }
    }
}

// ---------------------------------------------------------------------------
// Answers
// ---------------------------------------------------------------------------

/// What is said of a failure of the engine.
pub open spec fn tells_failure(error: &EngineError, r: Problem) -> bool {
    r.is(Status::BadRequest, "operation-failed"@, error.message())
}

/// The answer to a request that the engine refused, in its own words: a caller
/// here reads the same sentence that the CLI prints.
pub fn operation_failed(error: &EngineError) -> (r: Problem)
    ensures
        tells_failure(error, r),
{
    problem(Status::BadRequest, "operation-failed", error.to_string().as_str())
}

/// Whether a problem says that the engine answered in another shape.
pub open spec fn off_shape(p: Problem) -> bool {
    p.is(
        Status::InternalServerError,
        "unexpected-answer"@,
        "the engine answered with something this route does not serve"@,
    )
}

/// The answer shape a route did not expect.
pub fn unexpected() -> (r: Problem)
    ensures
        off_shape(r),
{
    problem(
        Status::InternalServerError,
        "unexpected-answer",
        "the engine answered with something this route does not serve",
    )
}

/// The ports of an answer.
pub open spec fn tells_ports(
    managed: ResponsePayload,
    hardware: Option<ResponsePayload>,
    r: Result<(Vec<PortInfoResponse>, Option<Vec<String>>), Problem>,
) -> bool {
    match (managed, hardware) {
        (ResponsePayload::PortList(m), None) => r == Ok::<
            (Vec<PortInfoResponse>, Option<Vec<String>>),
            Problem,
        >((m, None)),
        (ResponsePayload::PortList(m), Some(ResponsePayload::HardwarePorts(h))) => r == Ok::<
            (Vec<PortInfoResponse>, Option<Vec<String>>),
            Problem,
        >((m, Some(h))),
        _ => r matches Err(p) && off_shape(p),
    }
}

/// The ports the daemon holds and, where it was asked for, those that the
/// operating system reports.
pub fn ports_answer(managed: ResponsePayload, hardware: Option<ResponsePayload>) -> (r: Result<
    (Vec<PortInfoResponse>, Option<Vec<String>>),
    Problem,
>)
    ensures
        tells_ports(managed, hardware, r),
{
    match (managed, hardware) {
        (ResponsePayload::PortList(m), None) => Ok((m, None)),
        (ResponsePayload::PortList(m), Some(ResponsePayload::HardwarePorts(h))) => Ok((m, Some(h))),
        _ => Err(unexpected()),
    }
}

/// The status of an answer.
pub open spec fn tells_status(
    response: ResponsePayload,
    r: Result<(String, ConnectionState, BufferStats), Problem>,
) -> bool {
    match response {
        ResponsePayload::Status { name, state, stats } => r == Ok::<
            (String, ConnectionState, BufferStats),
            Problem,
        >((name, state, stats)),
        _ => r matches Err(p) && off_shape(p),
    }
}

/// Link state and buffer statistics of one port.
pub fn status_answer(response: ResponsePayload) -> (r: Result<
    (String, ConnectionState, BufferStats),
    Problem,
>)
    ensures
        tells_status(response, r),
{
    match response {
        ResponsePayload::Status { name, state, stats } => Ok((name, state, stats)),
        _ => Err(unexpected()),
    }
}

/// The figures of an answer.
pub open spec fn tells_stats(response: ResponsePayload, r: Result<BufferStats, Problem>) -> bool {
    match response {
        ResponsePayload::Stats(stats) => r == Ok::<BufferStats, Problem>(stats),
        _ => r matches Err(p) && off_shape(p),
    }
}

/// Buffer statistics of one port.
pub fn stats_answer(response: ResponsePayload) -> (r: Result<BufferStats, Problem>)
    ensures
        tells_stats(response, r),
{
    match response {
        ResponsePayload::Stats(stats) => Ok(stats),
        _ => Err(unexpected()),
    }
}

/// Whether a route answers with this text.
pub open spec fn answers(r: Result<String, Problem>, body: Seq<char>) -> bool {
    r matches Ok(b) && b@ == body
}

/// Whether a route finds the answer of another shape.
pub open spec fn refuses_shape(r: Result<String, Problem>) -> bool {
    r matches Err(p) && off_shape(p)
}

/// Captured lines as a JSON array: the objects that the `jsonl` export writes.
pub open spec fn lines_json(lines: Seq<StoredLine>) -> Seq<char> {
    json::json_array(lines.map_values(|line: StoredLine| export::line_json(line)))
}

fn lines_array(lines: &Vec<StoredLine>) -> (r: String)
    ensures
        r@ == lines_json(lines@),
{
    let mut objects: Vec<String> = Vec::new();
    let mut i: usize = 0;
    while i < lines.len()
        invariant
            i <= lines@.len(),
            objects@.len() == i,
            forall|j: int| 0 <= j < i ==> (#[trigger] objects@[j])@ == export::line_json(lines@[j]),
        decreases lines@.len() - i,
    {
        objects.push(line_object(&lines[i]));
        i = i + 1;
    }
    assert(text::texts(objects@) =~= lines@.map_values(
        |line: StoredLine| export::line_json(line),
    ));
    array_of(&objects)
}

/// Truth in JSON.
pub open spec fn json_bool(b: bool) -> Seq<char> {
    if b {
        "true"@
    } else {
        "false"@
    }
}

/// An optional text in JSON.
pub open spec fn json_option(t: Option<String>) -> Seq<char> {
    match t {
        Some(s) => json::json_text(s@),
        None => "null"@,
    }
}

fn optional_json(t: &Option<String>) -> (r: String)
    ensures
        r@ == json_option(*t),
{
    match t {
        Some(s) => json_string(s.as_str()),
        None => "null".to_owned(),
    }
}

/// What is said of a port that was opened.
pub open spec fn tells_open(response: ResponsePayload, r: Result<String, Problem>) -> bool {
    match response {
        ResponsePayload::PortOpened { name, config_summary }
        | ResponsePayload::PortReconfigured { name, config_summary } => answers(
            r,
            "{\"port\":"@ + json::json_text(name@) + ",\"settings\":"@ + json::json_text(
                config_summary@,
            ) + "}"@,
        ),
        _ => refuses_shape(r),
    }
}

/// The answer of `PUT /v1/ports/{port}`, for a port that was opened and for one
/// that was open and has new settings.
pub fn open_answer(response: ResponsePayload) -> (r: Result<String, Problem>)
    ensures
        tells_open(response, r),
{
    match response {
        ResponsePayload::PortOpened { name, config_summary } => Ok(
            opened(name.as_str(), config_summary.as_str()),
        ),
        ResponsePayload::PortReconfigured { name, config_summary } => Ok(
            opened(name.as_str(), config_summary.as_str()),
        ),
        _ => Err(unexpected()),
    }
}

fn opened(name: &str, summary: &str) -> (r: String)
    ensures
        r@ == "{\"port\":"@ + json::json_text(name@) + ",\"settings\":"@ + json::json_text(summary@)
            + "}"@,
{
    let mut out = concat3("{\"port\":", json_string(name).as_str(), ",\"settings\":");
    out.append(json_string(summary).as_str());
    out.append("}");
    out
}

/// What is said of a port that was closed.
pub open spec fn tells_close(response: ResponsePayload, r: Result<String, Problem>) -> bool {
    match response {
        ResponsePayload::PortClosed { name } => answers(
            r,
            "{\"port\":"@ + json::json_text(name@) + "}"@,
        ),
        _ => refuses_shape(r),
    }
}

/// The answer of `DELETE /v1/ports/{port}`.
pub fn close_answer(response: ResponsePayload) -> (r: Result<String, Problem>)
    ensures
        tells_close(response, r),
{
    match response {
        ResponsePayload::PortClosed { name } => Ok(
            concat3("{\"port\":", json_string(name.as_str()).as_str(), "}"),
        ),
        _ => Err(unexpected()),
    }
}

/// What is said of lines.
pub open spec fn tells_lines(response: ResponsePayload, r: Result<String, Problem>) -> bool {
    match response {
        ResponsePayload::Lines(page) => answers(
            r,
            "{\"lines\":"@ + lines_json(page.lines@) + ",\"next_after_id\":"@ + text::dec_int(
                page.next_after_id as int,
            ) + ",\"total_lines\":"@ + text::dec_nat(page.total_lines as nat) + "}"@,
        ),
        _ => refuses_shape(r),
    }
}

/// The answer of `GET /v1/ports/{port}/lines`.
pub fn lines_answer(response: ResponsePayload) -> (r: Result<String, Problem>)
    ensures
        tells_lines(response, r),
{
    match response {
        ResponsePayload::Lines(page) => {
            let mut out = concat2("{\"lines\":", lines_array(&page.lines).as_str());
            out.append(",\"next_after_id\":");
            out.append(decimal_i64(page.next_after_id).as_str());
            out.append(",\"total_lines\":");
            out.append(decimal(page.total_lines).as_str());
            out.append("}");
            Ok(out)
        },
        _ => Err(unexpected()),
    }
}

/// What is said of a buffer that was cleared.
pub open spec fn tells_clear(response: ResponsePayload, r: Result<String, Problem>) -> bool {
    match response {
        ResponsePayload::ClearSuccess { lines_cleared, archive_path } => answers(
            r,
            "{\"archive\":"@ + json_option(archive_path) + ",\"lines_cleared\":"@
                + text::dec_nat(lines_cleared as nat) + "}"@,
        ),
        _ => refuses_shape(r),
    }
}

/// The answer of `DELETE /v1/ports/{port}/lines`.
pub fn clear_answer(response: ResponsePayload) -> (r: Result<String, Problem>)
    ensures
        tells_clear(response, r),
{
    match response {
        ResponsePayload::ClearSuccess { lines_cleared, archive_path } => {
            let mut out = concat2("{\"archive\":", optional_json(&archive_path).as_str());
            out.append(",\"lines_cleared\":");
            out.append(decimal(lines_cleared).as_str());
            out.append("}");
            Ok(out)
        },
        _ => Err(unexpected()),
    }
}

/// What is said of lines that were found.
pub open spec fn tells_search(response: ResponsePayload, r: Result<String, Problem>) -> bool {
    match response {
        ResponsePayload::SearchResults(outcome) => answers(
            r,
            "{\"results\":"@ + lines_json(outcome.results@) + ",\"truncated\":"@ + json_bool(
                outcome.truncated,
            ) + "}"@,
        ),
        _ => refuses_shape(r),
    }
}

/// The answer of `GET /v1/ports/{port}/search`.
pub fn search_answer(response: ResponsePayload) -> (r: Result<String, Problem>)
    ensures
        tells_search(response, r),
{
    match response {
        ResponsePayload::SearchResults(outcome) => {
            let mut out = concat2("{\"results\":", lines_array(&outcome.results).as_str());
            out.append(",\"truncated\":");
            if outcome.truncated {
                out.append("true");
            } else {
                out.append("false");
            }
            out.append("}");
            Ok(out)
        },
        _ => Err(unexpected()),
    }
}

/// What is said of lines that were exported.
pub open spec fn tells_export(response: ResponsePayload, r: Result<String, Problem>) -> bool {
    match response {
        ResponsePayload::ExportSuccess { lines_exported, path, file_format } => answers(
            r,
            "{\"format\":\""@ + file_format.name() + "\",\"lines_exported\":"@ + text::dec_nat(
                lines_exported as nat,
            ) + ",\"path\":"@ + json::json_text(path@) + "}"@,
        ),
        _ => refuses_shape(r),
    }
}

/// The answer of `POST /v1/ports/{port}/export`.
pub fn export_answer(response: ResponsePayload) -> (r: Result<String, Problem>)
    ensures
        tells_export(response, r),
{
    match response {
        ResponsePayload::ExportSuccess { lines_exported, path, file_format } => {
            let mut out = concat2("{\"format\":\"", file_format.to_string().as_str());
            out.append("\",\"lines_exported\":");
            out.append(decimal(lines_exported).as_str());
            out.append(",\"path\":");
            out.append(json_string(path.as_str()).as_str());
            out.append("}");
            Ok(out)
        },
        _ => Err(unexpected()),
    }
}

/// What is said of bytes that were written.
pub open spec fn tells_write(response: ResponsePayload, r: Result<String, Problem>) -> bool {
    match response {
        ResponsePayload::WriteSuccess { bytes_written } => answers(
            r,
            "{\"bytes_written\":"@ + text::dec_nat(bytes_written as nat) + "}"@,
        ),
        _ => refuses_shape(r),
    }
}

/// The answer of `POST /v1/ports/{port}/write`.
pub fn write_answer(response: ResponsePayload) -> (r: Result<String, Problem>)
    ensures
        tells_write(response, r),
{
    match response {
        ResponsePayload::WriteSuccess { bytes_written } => Ok(
            concat3("{\"bytes_written\":", decimal_usize(bytes_written).as_str(), "}"),
        ),
        _ => Err(unexpected()),
    }
}

/// What is said of a break.
pub open spec fn tells_break(response: ResponsePayload, r: Result<String, Problem>) -> bool {
    match response {
        ResponsePayload::BreakSuccess { duration_ms } => answers(
            r,
            "{\"duration_ms\":"@ + text::dec_nat(duration_ms as nat) + "}"@,
        ),
        _ => refuses_shape(r),
    }
}

/// The answer of `POST /v1/ports/{port}/break`.
pub fn break_answer(response: ResponsePayload) -> (r: Result<String, Problem>)
    ensures
        tells_break(response, r),
{
    match response {
        ResponsePayload::BreakSuccess { duration_ms } => Ok(
            concat3("{\"duration_ms\":", decimal(duration_ms).as_str(), "}"),
        ),
        _ => Err(unexpected()),
    }
}

/// What is said of control lines.
pub open spec fn tells_signals(response: ResponsePayload, r: Result<String, Problem>) -> bool {
    match response {
        ResponsePayload::SignalSuccess { applied } => answers(
            r,
            "{\"applied\":"@ + json::json_array(json::json_texts(text::texts(applied@)))
                + "}"@,
        ),
        _ => refuses_shape(r),
    }
}

/// The answer of `POST /v1/ports/{port}/signals`.
pub fn signals_answer(response: ResponsePayload) -> (r: Result<String, Problem>)
    ensures
        tells_signals(response, r),
{
    match response {
        ResponsePayload::SignalSuccess { applied } => Ok(
            concat3("{\"applied\":", string_array(&applied).as_str(), "}"),
        ),
        _ => Err(unexpected()),
    }
}

/// What is said of a macro.
pub open spec fn tells_macro(response: ResponsePayload, r: Result<String, Problem>) -> bool {
    match response {
        ResponsePayload::MacroSuccess { executed_steps } => answers(
            r,
            "{\"executed\":"@ + json::json_array(
                json::json_texts(text::texts(executed_steps@)),
            ) + "}"@,
        ),
        _ => refuses_shape(r),
    }
}

/// The answer of `POST /v1/ports/{port}/macros/{name}`.
pub fn macro_answer(response: ResponsePayload) -> (r: Result<String, Problem>)
    ensures
        tells_macro(response, r),
{
    match response {
        ResponsePayload::MacroSuccess { executed_steps } => Ok(
            concat3("{\"executed\":", string_array(&executed_steps).as_str(), "}"),
        ),
        _ => Err(unexpected()),
    }
}

/// A transfer protocol as it is written on the wire.
pub open spec fn wire_name(p: FileTransferProtocol) -> Seq<char> {
    match p {
        FileTransferProtocol::Xmodem => "xmodem"@,
        FileTransferProtocol::XmodemCrc => "xmodem-crc"@,
        FileTransferProtocol::Xmodem1k => "xmodem1k"@,
        FileTransferProtocol::Ymodem => "ymodem"@,
        FileTransferProtocol::Zmodem => "zmodem"@,
    }
}

fn protocol_name(p: FileTransferProtocol) -> (r: &'static str)
    ensures
        r@ == wire_name(p),
{
    match p {
        FileTransferProtocol::Xmodem => "xmodem",
        FileTransferProtocol::XmodemCrc => "xmodem-crc",
        FileTransferProtocol::Xmodem1k => "xmodem1k",
        FileTransferProtocol::Ymodem => "ymodem",
        FileTransferProtocol::Zmodem => "zmodem",
    }
}

/// What is said of a file.
pub open spec fn tells_transfer(response: ResponsePayload, r: Result<String, Problem>) -> bool {
    match response {
        ResponsePayload::TransferSuccess { bytes_transferred, file_name, protocol, path } =>
        answers(
            r,
            "{\"bytes_transferred\":"@ + text::dec_nat(bytes_transferred as nat)
                + ",\"file_name\":"@ + json::json_text(file_name@) + ",\"path\":"@
                + json_option(path) + ",\"protocol\":\""@ + wire_name(protocol) + "\"}"@,
        ),
        _ => refuses_shape(r),
    }
}

/// The answer of `POST /v1/ports/{port}/transfers`.
pub fn transfer_answer(response: ResponsePayload) -> (r: Result<String, Problem>)
    ensures
        tells_transfer(response, r),
{
    match response {
        ResponsePayload::TransferSuccess { bytes_transferred, file_name, protocol, path } => {
            let mut out = concat2(
                "{\"bytes_transferred\":",
                decimal(bytes_transferred).as_str(),
            );
            out.append(",\"file_name\":");
            out.append(json_string(file_name.as_str()).as_str());
            out.append(",\"path\":");
            out.append(optional_json(&path).as_str());
            out.append(",\"protocol\":\"");
            out.append(protocol_name(protocol));
            out.append("\"}");
            Ok(out)
        },
        _ => Err(unexpected()),
    }
}

/// What the tool said.
pub open spec fn tells_tool(response: ResponsePayload, r: Result<String, Problem>) -> bool {
    match response {
        ResponsePayload::EspSuccess(output) => answers(
            r,
            "{\"output\":"@ + json::json_text(output@) + "}"@,
        ),
        _ => refuses_shape(r),
    }
}

/// The answer of the ESP routes that wait for the tool: what it printed.
pub fn esp_answer(response: ResponsePayload) -> (r: Result<String, Problem>)
    ensures
        tells_tool(response, r),
{
    match response {
        ResponsePayload::EspSuccess(output) => Ok(
            concat3("{\"output\":", json_string(output.as_str()).as_str(), "}"),
        ),
        _ => Err(unexpected()),
    }
}

// ---------------------------------------------------------------------------
// The capture as it grows
// ---------------------------------------------------------------------------

/// Where a stream is: behind this line, parking this long.
#[derive(Debug, Clone, Copy, PartialEq, Eq, Structural)]
pub struct LineStream {
    pub after: i64,
    pub wait_ms: u64,
}

/// What a stream does with an answer of the engine.
#[derive(Debug)]
pub enum StreamStep {
    /// Send these events and ask again, behind the last of them.
    Send(Vec<Event>, LineStream),
    /// A port that went away ends the stream rather than looping on an error the
    /// client cannot act on.
    End,
}

/// The line that a `Last-Event-ID` header names.
pub open spec fn resumed(last_event_id: Option<&str>) -> Option<int> {
    match last_event_id {
        Some(s) => text::parse_int(s@),
        None => None,
    }
}

impl LineStream {
    /// Where a stream begins, and how long it waits.
    pub open spec fn opens(window: ReadWindow, last_event_id: Option<&str>, r: LineStream) -> bool {
        &&& r.after == (match (window.after_id, resumed(last_event_id)) {
            (Some(id), _) => id as int,
            (None, Some(id)) => id,
            (None, None) => 0,
        })
        &&& r.wait_ms == (match window.wait_ms {
            Some(w) => w,
            None => STREAM_WAIT_MS,
        })
    }

    /// Where a stream begins: behind the line the caller says, or else behind
    /// the one it saw last, or else at the beginning. An explicit `after` wins,
    /// so a caller that is not a browser can say where to start.
    pub fn new(window: ReadWindow, last_event_id: Option<&str>) -> (r: LineStream)
        ensures
            Self::opens(window, last_event_id, r),
    {
        let seen = match last_event_id {
            Some(s) => parse_i64(s),
            None => None,
        };
        let after = match window.after_id {
            Some(id) => id,
            None => match seen {
                Some(id) => id,
                None => 0,
            },
        };
        LineStream {
            after,
            wait_ms: match window.wait_ms {
                Some(w) => w,
                None => STREAM_WAIT_MS,
            },
        }
    }

    /// What a stream asks for next.
    pub open spec fn asks(self, port: &str, r: RequestPayload) -> bool {
        r matches RequestPayload::ReadLines { port: p, window } && p@ == port@ && window == (
        ReadWindow {
            after_id: Some(self.after),
            wait_ms: Some(self.wait_ms),
            ..crate::protocol::whole_window()
        })
    }

    /// The next request: the lines behind the last one that was sent.
    pub fn request(&self, port: &str) -> (r: RequestPayload)
        ensures
            self.asks(port, r),
    {
        RequestPayload::ReadLines {
            port: port.to_owned(),
            window: ReadWindow {
                start_id: None,
                after_id: Some(self.after),
                tail: None,
                since_ns: None,
                limit: None,
                wait_ms: Some(self.wait_ms),
            },
        }
    }

    /// Whether a step sends exactly these lines, each with its id, and goes on
    /// behind the last of them.
    pub open spec fn sends(self, lines: Seq<StoredLine>, step: StreamStep) -> bool {
        step matches StreamStep::Send(events, next) && {
            &&& events@.len() == lines.len()
            &&& forall|i: int|
                0 <= i < lines.len() ==> carries_line(#[trigger] events@[i], lines[i])
            &&& next.wait_ms == self.wait_ms
            &&& next.after == (if lines.len() == 0 {
                self.after
            } else {
                lines.last().id
            })
        }
    }

    /// How a stream goes on.
    pub open spec fn goes_on(
        self,
        outcome: Result<ResponsePayload, EngineError>,
        r: StreamStep,
    ) -> bool {
        match outcome {
            Ok(ResponsePayload::Lines(page)) => self.sends(page.lines@, r),
            _ => r is End,
        }
    }

    /// What a stream does with an answer of the engine.
    pub fn answered(&self, outcome: Result<ResponsePayload, EngineError>) -> (r: StreamStep)
        ensures
            self.goes_on(outcome, r),
    {
        match outcome {
            Ok(ResponsePayload::Lines(page)) => {
                let mut events: Vec<Event> = Vec::new();
                let mut after = self.after;
                let mut i: usize = 0;
                while i < page.lines.len()
                    invariant
                        i <= page.lines@.len(),
                        events@.len() == i,
                        forall|j: int|
                            0 <= j < i ==> carries_line(#[trigger] events@[j], page.lines@[j]),
                        after == (if i == 0 {
                            self.after
                        } else {
                            page.lines@[i - 1].id
                        }),
                    decreases page.lines@.len() - i,
                {
                    let line = &page.lines[i];
                    after = line.id;
                    events.push(
                        Event {
                            id: Some(decimal_i64(line.id)),
                            event: "line".to_owned(),
                            data: line_object(line),
                        },
                    );
                    i = i + 1;
                }
                StreamStep::Send(events, LineStream { after, wait_ms: self.wait_ms })
            },
            _ => StreamStep::End,
        }
    }
}

/// Whether an event carries a captured line: with its id, and as the object that
/// the `jsonl` export writes.
pub open spec fn carries_line(event: Event, line: StoredLine) -> bool {
    &&& event.id matches Some(id) && id@ == text::dec_int(line.id as int)
    &&& event.event@ == "line"@
    &&& event.data@ == export::line_json(line)
}

/// A client that comes back with the id of the last event goes on behind that
/// line, whichever it was.
pub proof fn a_stream_resumes_behind_its_last_event(id: i64)
    ensures
        text::parse_int(text::dec_int(id as int)) == Some(id as int),
{
    if id < 0 {
        let n = (-(id as int)) as nat;
        text::lemma_dec_nat(n);
        text::decimal_reads_back(n, u64::MAX as nat);
        let s = text::dec_int(id as int);
        assert(s.skip(1) =~= text::dec_nat(n));
    } else {
        text::decimal_reads_back(id as nat, 0x7fff_ffff_ffff_ffff);
    }
}

/// A line on the wire is the line in the export: the events of a stream, joined
/// with line ends, are the `jsonl` export of the same lines.
pub proof fn a_line_on_the_wire_is_a_line_in_the_export(event: Event, line: StoredLine)
    requires
        carries_line(event, line),
    ensures
        event.data@ + "\n"@ == export::line_text(line, ExportFormat::Jsonl),
{
}

} // verus!
