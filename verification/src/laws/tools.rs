//! What the tools of the language model ask for and say.
use vstd::prelude::*;
use vstd::string::*;

use crate::clock;
use crate::engine::EngineError;
use crate::export;
use crate::export::ExportFormat;
use crate::gui_ipc::MonitorEvent;
use crate::json;
use crate::modem::FileTransferProtocol;
use crate::protocol::{
    LinesPage, PortInfoResponse, RequestPayload, ResponsePayload, SearchMode, SearchOutcome,
};
use crate::reader::ConnectionState;
use crate::server;
use crate::server::{
    ClearBufferParams, ConfigurePortParams, EspFlashParams, EspWriteBinParams, ExportBufferParams,
    MonitorStart, ReadBufferParams, SearchBufferParams, SerialBreakParams, SerialReceiveFileParams,
    SerialSendFileParams, SetControlLinesParams, StatusResource, ToolError, TriggerMacroParams,
    WritePortParams,
};
use crate::serial_params::{DataBits, StopBits};
use crate::storage::{BufferStats, StoredLine};
use crate::text;

verus! {

// ---------------------------------------------------------------------------
// Lines
// ---------------------------------------------------------------------------

/// What is shown of a line ends with its payload and a line end. With times, what
/// stands in front is the time of day, twelve characters and a space, or only the
/// space where the line has no time; without, nothing does.
pub proof fn a_shown_line_holds_its_payload(line: StoredLine, timestamps: bool, out: Seq<char>)
    requires
        server::reads_line(line, timestamps, out),
    ensures
        ({
            let front = if !timestamps {
                0int
            } else if line.timestamp_ns <= 0 {
                1
            } else {
                13
            };
            &&& out.len() == front + line.payload@.len() + 1
            &&& out.subrange(front, front + line.payload@.len()) == line.payload@
            &&& out.last() == '\n'
            &&& timestamps ==> out[front - 1] == ' '
            &&& timestamps && line.timestamp_ns > 0 ==> clock::shows(
                line.timestamp_ns,
                out.take(12),
            )
        }),
{
    reveal_strlit(" ");
    reveal_strlit("\n");
    if timestamps {
        let at = choose|at: Seq<char>| #[trigger]
            server::clocked(line.payload@, at) == out && clock::is_screen_time(
                line.timestamp_ns,
                at,
            );
        let n = at.len() as int;
        assert(out.subrange(n + 1, n + 1 + line.payload@.len()) =~= line.payload@);
        assert(out.take(n) =~= at);
    } else {
        assert(out.subrange(0, line.payload@.len() as int) =~= line.payload@);
    }
}

/// Lines of one time that hold different payloads are shown differently.
pub proof fn different_lines_look_different(
    a: StoredLine,
    b: StoredLine,
    timestamps: bool,
    shown: Seq<char>,
)
    requires
        a.timestamp_ns == b.timestamp_ns,
        server::reads_line(a, timestamps, shown),
        server::reads_line(b, timestamps, shown),
    ensures
        a.payload@ == b.payload@,
{
    a_shown_line_holds_its_payload(a, timestamps, shown);
    a_shown_line_holds_its_payload(b, timestamps, shown);
}

/// Lines are shown one after the other, each once and in order.
pub proof fn lines_are_shown_in_order(
    lines: Seq<StoredLine>,
    line: StoredLine,
    timestamps: bool,
    out: Seq<char>,
)
    requires
        server::reads_lines(lines.push(line), timestamps, out),
    ensures
        exists|k: int|
            0 <= k <= out.len() && server::reads_lines(lines, timestamps, #[trigger] out.take(k))
                && server::reads_line(line, timestamps, out.skip(k)),
        server::reads_lines(Seq::empty(), timestamps, Seq::empty()),
        forall|s: Seq<char>|
            #[trigger] server::reads_lines(Seq::empty(), timestamps, s) ==> s.len() == 0,
{
    assert(lines.push(line).drop_last() =~= lines);
}

/// A page opens with the ids of its first and last line and the number of all
/// lines; one without lines says where it stands.
pub proof fn a_page_is_headed(page: LinesPage, timestamps: bool, out: Seq<char>)
    requires
        server::reads_page(page, timestamps, out),
    ensures
        exists|body: Seq<char>| #[trigger]
            server::reads_lines(page.lines@, timestamps, body) && out == (if page.lines@.len() == 0 {
                "[no new lines after "@ + text::dec_int(page.next_after_id as int) + ", "@
                    + text::dec_nat(page.total_lines as nat) + " total]"@
            } else {
                "[lines "@ + text::dec_int(page.lines@[0].id as int) + "-"@ + text::dec_int(
                    page.lines@[page.lines@.len() - 1].id as int,
                ) + " of "@ + text::dec_nat(page.total_lines as nat) + " total]\n"@
            }) + body,
{
}

/// A read is shown with times exactly where that was asked for, a search line by
/// line with its id, its time and its payload.
pub proof fn reading_and_searching_are_told(
    asked: Option<bool>,
    page: LinesPage,
    outcome: SearchOutcome,
    read: Result<String, ToolError>,
    found: Result<String, ToolError>,
    lines: Seq<StoredLine>,
    line: StoredLine,
)
    requires
        server::tells_lines(asked, ResponsePayload::Lines(page), read),
        server::tells_search(ResponsePayload::SearchResults(outcome), found),
    ensures
        read matches Ok(out) && server::reads_page(page, asked == Some(true), out@),
        found matches Ok(out) && out@ == server::hits_text(outcome.results@) + (
        if outcome.results@.len() == 0 {
            "(no matches)\n"@
        } else {
            Seq::empty()
        }) + (if outcome.truncated {
            "(scan limit reached, later lines were not examined; narrow the time range)\n"@
        } else {
            Seq::empty()
        }),
        server::hits_text(Seq::empty()).len() == 0,
        server::hits_text(lines.push(line)) == server::hits_text(lines) + (text::dec_int(
            line.id as int,
        ) + ":["@ + export::record_time(line.timestamp_ns) + "] "@ + line.payload@ + "\n"@),
{
    assert(lines.push(line).drop_last() =~= lines);
}

// ---------------------------------------------------------------------------
// Requests
// ---------------------------------------------------------------------------

/// Every tool asks for its own operation, on the port it was given, with the
/// values it was given.
pub proof fn tools_ask_for_what_they_are_told(
    export: ExportBufferParams,
    clear: ClearBufferParams,
    signal: SetControlLinesParams,
    pulse: SerialBreakParams,
    run: TriggerMacroParams,
    write: WritePortParams,
    flash: EspFlashParams,
    bin: EspWriteBinParams,
    r: RequestPayload,
)
    ensures
        export.asks(r) ==> (r matches RequestPayload::Export {
            port,
            output_path,
            file_format,
            start_line,
            end_line,
        } && port == export.port_name && output_path == export.output_path && file_format
            == export.file_format && start_line == export.start_line && end_line
            == export.end_line),
        clear.asks(r) ==> (r matches RequestPayload::Clear { port, archive_current } && port
            == clear.port_name && archive_current == clear.archive_current),
        signal.asks(r) ==> (r matches RequestPayload::SetSignal { port, dtr, rts } && port
            == signal.port_name && dtr == signal.dtr && rts == signal.rts),
        pulse.asks(r) ==> (r matches RequestPayload::SendBreak { port, duration_ms } && port
            == pulse.port_name && duration_ms == pulse.duration_ms),
        run.asks(r) ==> (r matches RequestPayload::ExecuteMacro { port, macro_name } && port
            == run.port_name && macro_name == run.macro_name),
        write.asks(r) ==> (r matches RequestPayload::WriteData { port, data, is_hex } && port
            == write.port_name && data == write.data && !is_hex),
        flash.asks(r) ==> (r matches RequestPayload::EspFlash { port, firmware_path, baud } && port
            == flash.port_name && firmware_path == flash.firmware_path && baud == flash.baud),
        bin.asks(r) ==> (r matches RequestPayload::EspWriteBin { port, file_path, address } && port
            == bin.port_name && file_path == bin.file_path && address == bin.address),
{
}

/// A file goes by ZMODEM unless told otherwise, and a received one into the
/// current directory.
pub proof fn transfers_are_asked_for(
    send: SerialSendFileParams,
    receive: SerialReceiveFileParams,
    r: RequestPayload,
)
    ensures
        send.asks(r) ==> (r matches RequestPayload::SendFile { port, file_path, protocol } && port
            == send.port_name && file_path == send.file_path && protocol == (match send.protocol {
            Some(p) => p,
            None => FileTransferProtocol::Zmodem,
        })),
        receive.asks(r) ==> (r matches RequestPayload::ReceiveFile { port, output_dir, protocol }
            && port == receive.port_name && output_dir@ == (match receive.output_dir {
            Some(d) => d@,
            None => "."@,
        }) && protocol == (match receive.protocol {
            Some(p) => p,
            None => FileTransferProtocol::Zmodem,
        })),
{
}

/// A read and a search carry their bounds over as they are; a time that cannot be
/// read is refused, in the order in which the times stand.
pub proof fn reads_and_searches_are_asked_for(
    read: ReadBufferParams,
    search: SearchBufferParams,
    r: Result<RequestPayload, ToolError>,
    s: Result<RequestPayload, ToolError>,
)
    requires
        read.asks(r),
        search.asks(s),
    ensures
        match read.since_time {
            Some(t) if clock::rfc3339_of(t@) is Err => r matches Err(ToolError::InvalidParams(m))
                && m@ == "invalid time"@ + " '"@ + t@ + "': "@ + clock::rfc3339_of(t@)->Err_0,
            _ => r matches Ok(RequestPayload::ReadLines { port, window }) && port@
                == read.port_name@ && window.start_id == read.start_line && window.after_id
                == read.after_line && window.tail is None && window.limit == read.max_lines
                && window.wait_ms == read.wait_ms && window.since_ns == stands_for(read.since_time),
        },
        match (search.start_time, search.end_time) {
            (Some(t), _) if clock::rfc3339_of(t@) is Err => s matches Err(
                ToolError::InvalidParams(_),
            ),
            (_, Some(t)) if clock::rfc3339_of(t@) is Err => s matches Err(
                ToolError::InvalidParams(_),
            ),
            _ => s matches Ok(RequestPayload::Search { port, query, mode, start_ns, end_ns, limit })
                && port@ == search.port_name@ && query@ == search.query@ && mode == (
            match search.query_type {
                Some(m) => m,
                None => SearchMode::Substring,
            }) && limit == search.max_results && start_ns == stands_for(search.start_time) && end_ns
                == stands_for(search.end_time),
        },
{
}

/// The instant that a time stands for, where one is given; zero where it lies
/// outside what can be counted.
pub open spec fn stands_for(time: Option<String>) -> Option<i64> {
    match time {
        None => None,
        Some(t) => match clock::rfc3339_of(t@) {
            Ok(Some(ns)) => Some(ns),
            _ => Some(0i64),
        },
    }
}

/// A port is opened with the settings that were given, each in its place; five
/// to eight data bits and one or two stop bits are taken, nothing else.
pub proof fn a_port_is_asked_for(p: ConfigurePortParams, r: Result<RequestPayload, ToolError>)
    requires
        p.asks(r),
    ensures
        ({
            let bad_data = p.data_bits matches Some(n) && !(5 <= n <= 8);
            let bad_stop = p.stop_bits matches Some(n) && !(1 <= n <= 2);
            if bad_data || bad_stop {
                r matches Err(ToolError::InvalidParams(_))
            } else {
                r matches Ok(RequestPayload::OpenPort { name, settings }) && name@ == p.port_name@
                    && settings.baudrate == p.baudrate && settings.parity == p.parity
                    && settings.flow_control == p.flow_control && (match settings.data_bits {
                    Some(d) => p.data_bits == Some(d.value()),
                    None => p.data_bits is None,
                }) && (match settings.stop_bits {
                    Some(d) => p.stop_bits == Some(d.value()),
                    None => p.stop_bits is None,
                })
            }
        }),
{
}

/// What a window asks for is carried out on its port, as it was asked for; what it
/// writes it writes in hex.
pub proof fn windows_are_obeyed(port: &str, event: MonitorEvent, r: RequestPayload)
    requires
        server::carries_out(port, event, r),
    ensures
        match (event, r) {
            (MonitorEvent::Macro { name }, RequestPayload::ExecuteMacro { port: p, macro_name }) =>
            p@ == port@ && macro_name == name,
            (MonitorEvent::Signal { dtr, rts }, RequestPayload::SetSignal { port: p, dtr: d, rts: t }) =>
            p@ == port@ && d == dtr && t == rts,
            (MonitorEvent::Write { hex }, RequestPayload::WriteData { port: p, data, is_hex }) =>
            p@ == port@ && data == hex && is_hex,
            (
                MonitorEvent::Reconfigure { settings },
                RequestPayload::ReconfigurePort { name, settings: s },
            ) => name@ == port@ && s == settings,
            (
                MonitorEvent::Break { duration_ms },
                RequestPayload::SendBreak { port: p, duration_ms: d },
            ) => p@ == port@ && d == duration_ms,
            (
                MonitorEvent::SendFile { path, protocol },
                RequestPayload::SendFile { port: p, file_path, protocol: t },
            ) => p@ == port@ && file_path == path && t == protocol,
            (
                MonitorEvent::ReceiveFile { dir, protocol },
                RequestPayload::ReceiveFile { port: p, output_dir, protocol: t },
            ) => p@ == port@ && output_dir == dir && t == protocol,
            _ => false,
        },
{
}

// ---------------------------------------------------------------------------
// Answers
// ---------------------------------------------------------------------------

/// An answer of the wrong shape is an internal fault; a fault of the caller is
/// told apart from one of the daemon, in its own words.
pub proof fn faults_are_told_apart(
    e: EngineError,
    r: Result<ResponsePayload, ToolError>,
    t: ToolError,
    s: Result<String, ToolError>,
)
    requires
        server::DevSerialServer::reports(Err(e), r),
        server::faults(&e, t),
        server::tells_close(ResponsePayload::Pong, s),
    ensures
        ({
            let callers = e is Invalid || e is Param || e is Hex || e is Regex || e is UnknownMacro;
            &&& r is Err
            &&& callers ==> (t matches ToolError::InvalidParams(m) && m@ == e.message()) && (r
                matches Err(ToolError::InvalidParams(m)) && m@ == e.message())
            &&& !callers ==> (t matches ToolError::Internal(m) && m@ == e.message()) && (r
                matches Err(ToolError::Internal(m)) && m@ == e.message())
        }),
        s matches Err(ToolError::Internal(m)) && m@ == "unexpected response for this operation"@,
{
}

/// What is said of a port names it, and says what it is open with.
pub proof fn ports_are_told(
    name: String,
    summary: String,
    opened: Result<String, ToolError>,
    again: Result<String, ToolError>,
    closed: Result<String, ToolError>,
)
    requires
        server::tells_open(
            ResponsePayload::PortOpened { name, config_summary: summary },
            opened,
        ),
        server::tells_open(
            ResponsePayload::PortReconfigured { name, config_summary: summary },
            again,
        ),
        server::tells_close(ResponsePayload::PortClosed { name }, closed),
    ensures
        opened matches Ok(m) && m@ == "Opened "@ + name@ + " ("@ + summary@ + ")"@,
        again matches Ok(m) && m@ == "Reconfigured "@ + name@ + " ("@ + summary@ + ")"@,
        closed matches Ok(m) && m@ == "Closed "@ + name@,
{
}

/// What is said of the device names the port and counts what was done.
pub proof fn device_work_is_told(
    port: &str,
    bytes: usize,
    ms: u64,
    steps: Vec<String>,
    name: &str,
    written: Result<String, ToolError>,
    set: Result<String, ToolError>,
    held: Result<String, ToolError>,
    ran: Result<String, ToolError>,
)
    requires
        server::tells_write(port, ResponsePayload::WriteSuccess { bytes_written: bytes }, written),
        server::tells_signal(port, ResponsePayload::SignalSuccess { applied: steps }, set),
        server::tells_break(port, ResponsePayload::BreakSuccess { duration_ms: ms }, held),
        server::tells_macro(
            port,
            name,
            ResponsePayload::MacroSuccess { executed_steps: steps },
            ran,
        ),
    ensures
        written matches Ok(m) && m@ == "Wrote "@ + text::dec_nat(bytes as nat) + " bytes to "@
            + port@,
        set matches Ok(m) && m@ == "Set "@ + text::joined(text::texts(steps@), ", "@) + " on "@
            + port@,
        held matches Ok(m) && m@ == "Sent serial BREAK pulse ("@ + text::dec_nat(ms as nat)
            + "ms) on "@ + port@,
        ran matches Ok(m) && m@ == "Executed '"@ + name@ + "' on "@ + port@ + " ("@ + text::dec_nat(
            steps@.len(),
        ) + " steps: "@ + text::joined(text::texts(steps@), " → "@) + ")"@,
{
}

/// What is said of files names them and counts their bytes or lines.
pub proof fn files_are_told(
    port: &str,
    n: u64,
    file_name: String,
    protocol: FileTransferProtocol,
    path: String,
    format: ExportFormat,
    output: String,
    sent: Result<String, ToolError>,
    received: Result<String, ToolError>,
    exported: Result<String, ToolError>,
    cleared: Result<String, ToolError>,
    archived: Result<String, ToolError>,
    tool: Result<String, ToolError>,
)
    requires
        server::tells_sent(
            port,
            ResponsePayload::TransferSuccess {
                bytes_transferred: n,
                file_name,
                protocol,
                path: Some(path),
            },
            sent,
        ),
        server::tells_received(
            port,
            ResponsePayload::TransferSuccess {
                bytes_transferred: n,
                file_name,
                protocol,
                path: Some(path),
            },
            received,
        ),
        server::tells_export(
            ResponsePayload::ExportSuccess { lines_exported: n, path, file_format: format },
            exported,
        ),
        server::tells_clear(
            ResponsePayload::ClearSuccess { lines_cleared: n, archive_path: None },
            cleared,
        ),
        server::tells_clear(
            ResponsePayload::ClearSuccess { lines_cleared: n, archive_path: Some(path) },
            archived,
        ),
        server::tells_tool(ResponsePayload::EspSuccess(output), tool),
    ensures
        sent matches Ok(m) && m@ == "Sent "@ + text::dec_nat(n as nat) + " bytes ('"@ + file_name@
            + "') to "@ + port@ + " via "@ + (match protocol {
            FileTransferProtocol::Xmodem => "Xmodem"@,
            FileTransferProtocol::XmodemCrc => "XmodemCrc"@,
            FileTransferProtocol::Xmodem1k => "Xmodem1k"@,
            FileTransferProtocol::Ymodem => "Ymodem"@,
            FileTransferProtocol::Zmodem => "Zmodem"@,
        }),
        received matches Ok(m) && m@ == "Received "@ + text::dec_nat(n as nat) + " bytes from "@
            + port@ + ", saved to '"@ + path@ + "'"@,
        exported matches Ok(m) && m@ == "Exported "@ + text::dec_nat(n as nat) + " lines to "@
            + path@ + " (format: "@ + (match format {
            ExportFormat::Txt => "txt"@,
            ExportFormat::Csv => "csv"@,
            ExportFormat::Jsonl => "jsonl"@,
        }) + ")"@,
        cleared matches Ok(m) && m@ == "Cleared buffer ("@ + text::dec_nat(n as nat)
            + " lines removed)"@,
        archived matches Ok(m) && m@ == "Cleared buffer ("@ + text::dec_nat(n as nat) + (
        " lines archived to "@ + path@ + ")"@),
        tool == Ok::<String, ToolError>(output),
{
}

/// The state of a port in a word, with how long it has been gone where it is.
pub proof fn states_have_words(since_ms: u64, attempts: u32)
    ensures
        server::state_word(ConnectionState::Connected) == "Connected"@,
        server::state_word(ConnectionState::Reconnecting) == "Reconnecting"@,
        server::state_word((ConnectionState::Disconnected { since_ms, attempts }))
            == "Disconnected { since_ms: "@ + text::dec_nat(since_ms as nat) + ", attempts: "@
            + text::dec_nat(attempts as nat) + " }"@,
{
}

/// A status holds the name, the state and the figures of its port, each under its
/// own key.
pub proof fn a_status_is_told(
    name: String,
    state: ConnectionState,
    stats: BufferStats,
    r: Result<String, ToolError>,
    q: Result<String, ToolError>,
)
    requires
        server::tells_status(ResponsePayload::Status { name, state, stats }, r),
        server::tells_resource(ResponsePayload::Status { name, state, stats }, q),
    ensures
        r matches Ok(m) && m@ == "{\n  \"db_size_bytes\": "@ + text::dec_nat(
            stats.db_size_bytes as nat,
        ) + ",\n  \"last_activity\": "@ + json::json_text(
            match stats.last_timestamp_ns {
                Some(ts) => export::record_time(ts),
                None => "never"@,
            },
        ) + ",\n  \"port\": "@ + json::json_text(name@) + ",\n  \"state\": "@ + json::json_text(
            server::state_word(state),
        ) + ",\n  \"total_bytes\": "@ + text::dec_nat(stats.total_bytes as nat)
            + ",\n  \"total_lines\": "@ + text::dec_nat(stats.total_lines as nat) + "\n}"@,
        q matches Ok(m) && m@ == "{\n  \"db_size_bytes\": "@ + text::dec_nat(
            stats.db_size_bytes as nat,
        ) + ",\n  \"port\": "@ + json::json_text(name@) + ",\n  \"state\": "@ + json::json_text(
            server::state_word(state),
        ) + ",\n  \"total_bytes\": "@ + text::dec_nat(stats.total_bytes as nat)
            + ",\n  \"total_lines\": "@ + text::dec_nat(stats.total_lines as nat) + "\n}"@,
{
}

/// The list holds every device and every managed port, each in a line of its own
/// under its heading.
pub proof fn the_list_is_told(
    hardware: Vec<String>,
    managed: Vec<PortInfoResponse>,
    r: Result<String, ToolError>,
    devices: Seq<String>,
    device: String,
    ports: Seq<PortInfoResponse>,
    port: PortInfoResponse,
)
    requires
        server::tells_list(
            ResponsePayload::HardwarePorts(hardware),
            ResponsePayload::PortList(managed),
            r,
        ),
    ensures
        r matches Ok(m) && m@ == "System ports:\n"@ + (if hardware@.len() == 0 {
            "  (none detected)\n"@
        } else {
            server::devices_text(hardware@)
        }) + "\nManaged connections:\n"@ + (if managed@.len() == 0 {
            "  (none)\n"@
        } else {
            server::connections_text(managed@)
        }),
        server::devices_text(Seq::empty()).len() == 0,
        server::devices_text(devices.push(device)) == server::devices_text(devices) + "  "@ + device@
            + "\n"@,
        server::connections_text(Seq::empty()).len() == 0,
        server::connections_text(ports.push(port)) == server::connections_text(ports) + ("  "@
            + port.name@ + " — "@ + server::state_word(port.state) + " ("@ + text::dec_nat(
            port.total_lines as nat,
        ) + " lines)\n"@),
{
    assert(devices.push(device).drop_last() =~= devices);
    assert(ports.push(port).drop_last() =~= ports);
}

/// Every managed port has a resource that is found by its name.
pub proof fn resources_are_found(
    ports: Vec<PortInfoResponse>,
    r: Result<Vec<StatusResource>, ToolError>,
    i: int,
    uri: &str,
    p: Result<String, ToolError>,
)
    requires
        server::offers_resources(ResponsePayload::PortList(ports), r),
        0 <= i < ports@.len(),
        server::names_port(uri, p),
    ensures
        r matches Ok(v) && v@.len() == ports@.len() && v@[i].uri@ == "serial://"@ + ports@[i].name@
            + "/status"@ && v@[i].name@ == ports@[i].name@ + " status"@ && v@[i].description@
            == "Connection state for "@ + ports@[i].name@,
        match p {
            Ok(port) => uri@ == "serial://"@ + port@ + "/status"@,
            Err(ToolError::InvalidParams(m)) => m@ == "invalid resource URI: "@ + uri@,
            Err(_) => false,
        },
{
    if r is Ok {
        assert(server::is_resource_of(r->Ok_0@[i], ports@[i]));
    }
}

/// A reader is notified where something newer is there, once.
pub proof fn news_are_notified(last: i64, current: Option<i64>, r: (bool, i64), s: (bool, i64))
    requires
        server::notifies(last, current, r),
        server::notifies(r.1, current, s),
    ensures
        r.0 <==> (current matches Some(id) && id != last),
        current matches Some(id) ==> r.1 == id,
        current is None ==> r.1 == last,
        !s.0,
{
}

/// A monitor is opened once for a port, on the capture of that port.
pub proof fn a_monitor_is_opened(
    server: server::DevSerialServer,
    port: &str,
    name: String,
    state: ConnectionState,
    stats: BufferStats,
    r: Result<MonitorStart, ToolError>,
)
    requires
        server.opens_monitor(port, ResponsePayload::Status { name, state, stats }, r),
    ensures
        match r {
            Ok(start) => !server.windows().contains(port@) && start.port@ == port@ && start.db_path@
                == crate::paths::db_path(server.engine.config.global.data_dir@, port@)
                && start.info@ == crate::server::state_word(state),
            Err(_) => server.windows().contains(port@),
        },
{
}

/// Data bits of a tool are five to eight and stop bits one or two; what was not
/// given stays open, and any other number is refused with it.
pub proof fn bits_are_taken(
    n: u8,
    d: Result<Option<DataBits>, ToolError>,
    s: Result<Option<StopBits>, ToolError>,
    no_data: Result<Option<DataBits>, ToolError>,
    no_stop: Result<Option<StopBits>, ToolError>,
)
    requires
        server::asks_data_bits(Some(n), d),
        server::asks_stop_bits(Some(n), s),
        server::asks_data_bits(None, no_data),
        server::asks_stop_bits(None, no_stop),
    ensures
        no_data == Ok::<Option<DataBits>, ToolError>(None),
        no_stop == Ok::<Option<StopBits>, ToolError>(None),
        5 <= n <= 8 ==> (d matches Ok(Some(b)) && b.value() == n),
        !(5 <= n <= 8) ==> (d matches Err(ToolError::InvalidParams(m)) && m@ == "invalid data bits "@
            + text::dec_nat(n as nat) + ", expected 5, 6, 7 or 8"@),
        1 <= n <= 2 ==> (s matches Ok(Some(b)) && b.value() == n),
        !(1 <= n <= 2) ==> (s matches Err(ToolError::InvalidParams(m)) && m@ == "invalid stop bits "@
            + text::dec_nat(n as nat) + ", expected 1 or 2"@),
{
}

} // verus!
