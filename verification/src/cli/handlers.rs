//! Command line handlers.
//!
//! Every handler builds a [`RequestPayload`], which is sent through one shared
//! session, and renders the response.
use vstd::prelude::*;
use vstd::string::*;

use crate::cli::output;
use crate::cli::output::{lines_text, port_list_text, search_text, status_text};
use crate::cli::{CliError, Command, LineOptions};
use crate::clock;
use crate::clock::parse_time;
use crate::engine::transfer;
use crate::engine::transfer::label;
use crate::ipc::IpcError;
use crate::modem::FileTransferProtocol;
use crate::protocol::{
    LinesPage, PortInfoResponse, PortSettings, ReadWindow, RequestPayload, ResponsePayload,
    SearchOutcome,
};
use crate::storage::{BufferStats, StoredLine};
use crate::text;
use crate::text::{concat2, concat3, decimal, decimal_usize, join, same};

verus! {

/// Polling interval while following a port, in milliseconds.
pub const FOLLOW_INTERVAL_MS: u64 = 50;

/// Lines requested per poll while following.
pub const FOLLOW_BATCH: u32 = 500;

/// Lines shown first while following, where nothing else is asked for.
pub const FOLLOW_TAIL: u32 = 20;

/// What a command waits for from the daemon.
#[derive(Debug, PartialEq, Eq)]
pub enum Pending {
    List { json: bool },
    Open,
    Close,
    Read { timestamps: bool, json: bool },
    Follow { port: String, timestamps: bool, json: bool },
    Write { port: String },
    Break { port: String },
    Send,
    Recv,
    Signal { port: String },
    Macro { port: String, name: String },
    Search { json: bool },
    Export,
    Clear { port: String },
    Stats { json: bool },
    Flash { port: String, monitor: bool },
}

/// How a command is begun.
#[derive(Debug, PartialEq, Eq)]
pub enum RemoteStep {
    /// Print the announcement, where there is one, and send the request. A
    /// daemon that is not running is started first, unless it is only asked.
    Request { announce: Option<String>, request: RequestPayload, pending: Pending },
    /// Read what is to be written from standard input, then go on with
    /// `write_request`.
    ReadStdin { port: String, hex: bool, newline: bool },
}

/// What a command prints.
#[derive(Debug)]
pub enum Rendered {
    Text(String),
    /// One JSON object per line.
    JsonLines(Vec<StoredLine>),
    JsonSearch(SearchOutcome),
    JsonStatus { port: String, state: String, stats: BufferStats },
    JsonPorts { managed: Option<Vec<PortInfoResponse>>, hardware: Vec<String> },
    /// Print the lines, then follow the port behind this one.
    Follow { port: String, lines: Vec<StoredLine>, last_id: i64, timestamps: bool, json: bool },
    /// Print the text, then follow the port.
    ThenFollow { text: String, port: String },
}

/// The answer to an RFC 3339 argument.
pub open spec fn instant(value: Option<String>, r: Result<Option<i64>, CliError>) -> bool {
    match value {
        None => r == Ok::<Option<i64>, CliError>(None),
        Some(s) => match (clock::rfc3339_of(s@), r) {
            (Ok(v), Ok(Some(ns))) => ns == clock::instant_or_zero(v),
            (Err(e), Err(CliError::Message(m))) => m@ == "invalid timestamp"@ + " '"@ + s@
                + "': "@ + e,
            _ => false,
        },
    }
}

/// Whether an argument is given that is no instant.
pub open spec fn no_instant(value: Option<String>) -> bool {
    value matches Some(s) && clock::rfc3339_of(s@) is Err
}

/// Read an optional RFC 3339 argument.
pub fn parse_instant(value: &Option<String>) -> (r: Result<Option<i64>, CliError>)
    ensures
        instant(*value, r),
{
    match value {
        Some(s) => match parse_time("invalid timestamp", Some(s.as_str())) {
            Ok(v) => Ok(v),
            Err(e) => Err(CliError::Message(e)),
        },
        None => Ok(None),
    }
}

/// The window in which following a port begins.
pub open spec fn first_window(window: ReadWindow) -> ReadWindow {
    ReadWindow {
        tail: match window.tail {
            Some(t) => Some(t),
            None => Some(FOLLOW_TAIL),
        },
        limit: window.limit,
        ..crate::protocol::whole_window()
    }
}

/// How a port is first read to follow it.
pub open spec fn starts_following(port: &str, window: ReadWindow, r: RequestPayload) -> bool {
    r matches RequestPayload::ReadLines { port: p, window: w } && p@ == port@ && w
        == first_window(window)
}

/// The first request while following a port: the last lines there are.
pub fn follow_start(port: &str, window: ReadWindow) -> (r: RequestPayload)
    ensures
        starts_following(port, window, r),
{
    RequestPayload::ReadLines {
        port: port.to_owned(),
        window: ReadWindow {
            tail: match window.tail {
                Some(t) => Some(t),
                None => Some(FOLLOW_TAIL),
            },
            limit: window.limit,
            ..ReadWindow::default()
        },
    }
}

/// How a port is read again to follow it.
pub open spec fn goes_on_following(port: &str, last_id: i64, r: RequestPayload) -> bool {
    r matches RequestPayload::ReadLines { port: p, window: w } && p@ == port@ && w
        == (ReadWindow {
        after_id: Some(last_id),
        limit: Some(FOLLOW_BATCH),
        ..crate::protocol::whole_window()
    })
}

/// The next request while following a port: the lines behind the last one.
pub fn follow_next(port: &str, last_id: i64) -> (r: RequestPayload)
    ensures
        goes_on_following(port, last_id, r),
{
    RequestPayload::ReadLines {
        port: port.to_owned(),
        window: ReadWindow {
            after_id: Some(last_id),
            limit: Some(FOLLOW_BATCH),
            ..ReadWindow::default()
        },
    }
}

/// How far a port has been followed.
pub open spec fn followed_to(last_id: i64, page: &LinesPage, r: i64) -> bool {
    r == (if page.lines@.len() > 0 {
        page.next_after_id
    } else {
        last_id
    })
}

/// The last line after a page came in while following.
pub fn follow_id(last_id: i64, page: &LinesPage) -> (r: i64)
    ensures
        followed_to(last_id, page, r),
{
    if page.lines.len() > 0 {
        page.next_after_id
    } else {
        last_id
    }
}

/// Where the data of a write comes from.
#[derive(Debug, PartialEq, Eq)]
pub enum WriteSource {
    Stdin,
    Text(String),
}

/// Where the bytes to write come from.
pub open spec fn writes_from(
    data: Option<String>,
    stdin_is_terminal: bool,
    r: Result<WriteSource, CliError>,
) -> bool {
    match data {
        Some(s) => if s@ == "-"@ {
            r == Ok::<WriteSource, CliError>(WriteSource::Stdin)
        } else {
            r == Ok::<WriteSource, CliError>(WriteSource::Text(s))
        },
        None => if stdin_is_terminal {
            r matches Err(CliError::Message(m)) && m@
                == "no data to write: pass it as an argument or pipe it via stdin"@
        } else {
            r == Ok::<WriteSource, CliError>(WriteSource::Stdin)
        },
    }
}

/// Where the data of a write comes from: the argument, or standard input where
/// the argument is missing or `-`. A terminal is not read from unless it is
/// asked for.
pub fn write_source(data: Option<String>, stdin_is_terminal: bool) -> (r: Result<
    WriteSource,
    CliError,
>)
    ensures
        writes_from(data, stdin_is_terminal, r),
{
    match data {
        Some(s) => if same(s.as_str(), "-") {
            Ok(WriteSource::Stdin)
        } else {
            Ok(WriteSource::Text(s))
        },
        None => if stdin_is_terminal {
            Err(
                CliError::msg("no data to write: pass it as an argument or pipe it via stdin"),
            )
        } else {
            Ok(WriteSource::Stdin)
        },
    }
}

/// Whether a write is begun, or why it is not.
pub open spec fn write_begins(
    port: Seq<char>,
    data: Seq<char>,
    hex: bool,
    newline: bool,
    r: Result<RemoteStep, CliError>,
) -> bool {
    if newline && hex {
        r matches Err(CliError::Message(m)) && m@
            == "--newline cannot be combined with --hex; include 0D0A in the hex data instead"@
    } else {
        &&& r matches Ok(
            RemoteStep::Request {
                announce: None,
                request: RequestPayload::WriteData { port: p, data: d, is_hex },
                pending: Pending::Write { port: q },
            },
        )
        &&& p@ == port
        &&& q@ == port
        &&& is_hex == hex
        &&& d@ == (if newline {
            data + "\r\n"@
        } else {
            data
        })
    }
}

/// The request for a write, with a newline behind the data where one is wanted.
pub fn write_request(port: String, data: String, hex: bool, newline: bool) -> (r: Result<
    RemoteStep,
    CliError,
>)
    ensures
        write_begins(port@, data@, hex, newline, r),
{
    let mut payload = data;
    if newline {
        if hex {
            return Err(
                CliError::msg(
                    "--newline cannot be combined with --hex; include 0D0A in the hex data instead",
                ),
            );
        }
        payload.append("\r\n");
    }
    Ok(
        RemoteStep::Request {
            announce: None,
            request: RequestPayload::WriteData { port: port.clone(), data: payload, is_hex: hex },
            pending: Pending::Write { port },
        },
    )
}

/// What is said before a file is sent.
pub open spec fn sending(file: Seq<char>, port: Seq<char>, protocol: FileTransferProtocol) -> Seq<
    char,
> {
    "Sending '"@ + file + "' to "@ + port + " using "@ + transfer::protocol_label(protocol)
        + "...\n"@
}

fn say_sending(file: &str, port: &str, protocol: FileTransferProtocol) -> (r: String)
    ensures
        r@ == sending(file@, port@, protocol),
{
    let mut m = concat3("Sending '", file, "' to ");
    m.append(port);
    m.append(" using ");
    m.append(label(protocol));
    m.append("...\n");
    m
}

/// What is said before a file is received.
pub open spec fn receiving(port: Seq<char>, dir: Seq<char>, protocol: FileTransferProtocol) -> Seq<
    char,
> {
    "Waiting to receive a file from "@ + port + " into '"@ + dir + "' using "@
        + transfer::protocol_label(protocol) + "...\n"@
}

fn say_receiving(port: &str, dir: &str, protocol: FileTransferProtocol) -> (r: String)
    ensures
        r@ == receiving(port@, dir@, protocol),
{
    let mut m = concat3("Waiting to receive a file from ", port, " into '");
    m.append(dir);
    m.append("' using ");
    m.append(label(protocol));
    m.append("...\n");
    m
}

/// What is said before firmware is flashed.
pub open spec fn flashing(firmware: Seq<char>, port: Seq<char>) -> Seq<char> {
    "Flashing firmware "@ + firmware + " to "@ + port + "...\n"@
}

/// Whether settings are those of line options.
pub open spec fn settings_of(line: LineOptions, s: PortSettings) -> bool {
    &&& s.baudrate == Some(line.baud)
    &&& s.data_bits matches Some(d) && d.value() == line.data_bits
    &&& s.parity == Some(line.parity)
    &&& s.stop_bits matches Some(t) && t.value() == line.stop_bits
    &&& s.flow_control == Some(line.flow_control)
}

/// The window of a read.
pub open spec fn read_window(
    tail: Option<u32>,
    from: Option<i64>,
    after: Option<i64>,
    since_ns: Option<i64>,
    limit: u32,
    wait_ms: u64,
) -> ReadWindow {
    ReadWindow {
        start_id: from,
        after_id: after,
        tail,
        since_ns,
        limit: Some(limit),
        wait_ms: Some(wait_ms),
    }
}

/// How a command that opens, closes, lists or reads is begun.
pub open spec fn begins_reading(command: Command, r: Result<RemoteStep, CliError>) -> bool {
    match command {
        Command::List { json } => r == Ok::<RemoteStep, CliError>(
            RemoteStep::Request {
                announce: None,
                request: RequestPayload::ListPorts,
                pending: Pending::List { json },
            },
        ),
        Command::Open { port, line } => match r {
            Ok(
                RemoteStep::Request {
                    announce: None,
                    request: RequestPayload::OpenPort { name, settings },
                    pending: Pending::Open,
                },
            ) => line.in_range() && name@ == port@ && settings_of(line, settings),
            Err(CliError::Params(e)) => !line.in_range() && e == line.fault(),
            _ => false,
        },
        Command::Close { port } => r == Ok::<RemoteStep, CliError>(
            RemoteStep::Request {
                announce: None,
                request: RequestPayload::ClosePort { name: port },
                pending: Pending::Close,
            },
        ),
        Command::Read {
            port,
            tail,
            from,
            after,
            since,
            limit,
            wait_ms,
            follow,
            timestamps,
            json,
        } => match r {
            Ok(
                RemoteStep::Request {
                    announce: None,
                    request: RequestPayload::ReadLines { port: p, window },
                    pending,
                },
            ) => p@ == port@ && exists|since_ns: Option<i64>| #[trigger]
                instant(since, Ok(since_ns)) && ({
                    let w = read_window(tail, from, after, since_ns, limit, wait_ms);
                    if follow {
                        &&& window == first_window(w)
                        &&& pending matches Pending::Follow { port: q, timestamps: t, json: j }
                        &&& q@ == port@ && t == timestamps && j == json
                    } else {
                        window == w && pending == (Pending::Read { timestamps, json })
                    }
                }),
            Err(e) => instant(since, Err(e)),
            _ => false,
        },
        Command::Search { port, query, mode, start, end, limit, json } => match r {
            Ok(
                RemoteStep::Request {
                    announce: None,
                    request: RequestPayload::Search {
                        port: p,
                        query: q,
                        mode: m,
                        start_ns,
                        end_ns,
                        limit: l,
                    },
                    pending: Pending::Search { json: j },
                },
            ) => p == port && q == query && m == mode && instant(start, Ok(start_ns)) && instant(
                end,
                Ok(end_ns),
            ) && l == Some(limit) && j == json,
            Err(e) => if no_instant(start) {
                instant(start, Err(e))
            } else {
                instant(end, Err(e))
            },
            _ => false,
        },
        Command::Stats { port, json } => r == Ok::<RemoteStep, CliError>(
            RemoteStep::Request {
                announce: None,
                request: RequestPayload::GetStatus { port },
                pending: Pending::Stats { json },
            },
        ),
        _ => true,
    }
}

/// How a command that acts on a port is begun.
pub open spec fn begins_acting(
    command: Command,
    stdin_is_terminal: bool,
    r: Result<RemoteStep, CliError>,
) -> bool {
    match command {
        Command::Write { port, data, hex, newline } => match data {
            Some(s) if s@ != "-"@ => write_begins(port@, s@, hex, newline, r),
            None if stdin_is_terminal => r matches Err(CliError::Message(m)) && m@
                == "no data to write: pass it as an argument or pipe it via stdin"@,
            _ => r == Ok::<RemoteStep, CliError>(RemoteStep::ReadStdin { port, hex, newline }),
        },
        Command::Break { port, duration_ms } => {
            &&& r matches Ok(
                RemoteStep::Request {
                    announce: None,
                    request: RequestPayload::SendBreak { port: p, duration_ms: d },
                    pending: Pending::Break { port: q },
                },
            )
            &&& p@ == port@ && d == Some(duration_ms) && q@ == port@
        },
        Command::Send { port, file, protocol } => {
            &&& r matches Ok(
                RemoteStep::Request {
                    announce: Some(m),
                    request: RequestPayload::SendFile { port: p, file_path, protocol: t },
                    pending: Pending::Send,
                },
            )
            &&& m@ == sending(file@, port@, protocol)
            &&& p@ == port@ && file_path@ == file@ && t == protocol
        },
        Command::Recv { port, output, protocol } => {
            &&& r matches Ok(
                RemoteStep::Request {
                    announce: Some(m),
                    request: RequestPayload::ReceiveFile { port: p, output_dir, protocol: t },
                    pending: Pending::Recv,
                },
            )
            &&& m@ == receiving(port@, output@, protocol)
            &&& p@ == port@ && output_dir@ == output@ && t == protocol
        },
        Command::Signal { port, dtr, rts } => {
            &&& r matches Ok(
                RemoteStep::Request {
                    announce: None,
                    request: RequestPayload::SetSignal { port: p, dtr: a, rts: b },
                    pending: Pending::Signal { port: q },
                },
            )
            &&& p@ == port@ && a == dtr && b == rts && q@ == port@
        },
        Command::Macro { port, name } => {
            &&& r matches Ok(
                RemoteStep::Request {
                    announce: None,
                    request: RequestPayload::ExecuteMacro { port: p, macro_name },
                    pending: Pending::Macro { port: q, name: n },
                },
            )
            &&& p@ == port@ && macro_name@ == name@ && q@ == port@ && n@ == name@
        },
        Command::Export { port, output, format, start, end } => r == Ok::<RemoteStep, CliError>(
            RemoteStep::Request {
                announce: None,
                request: RequestPayload::Export {
                    port,
                    output_path: output,
                    file_format: Some(format),
                    start_line: start,
                    end_line: end,
                },
                pending: Pending::Export,
            },
        ),
        Command::Clear { port, archive } => {
            &&& r matches Ok(
                RemoteStep::Request {
                    announce: None,
                    request: RequestPayload::Clear { port: p, archive_current },
                    pending: Pending::Clear { port: q },
                },
            )
            &&& p@ == port@ && archive_current == Some(archive) && q@ == port@
        },
        Command::Flash { port, firmware, baud, monitor } => {
            &&& r matches Ok(
                RemoteStep::Request {
                    announce: Some(m),
                    request: RequestPayload::EspFlash { port: p, firmware_path, baud: b },
                    pending: Pending::Flash { port: q, monitor: f },
                },
            )
            &&& m@ == flashing(firmware@, port@)
            &&& p@ == port@ && firmware_path@ == firmware@ && b == baud && q@ == port@ && f
                == monitor
        },
        _ => true,
    }
}

fn begin_reading(command: Command) -> (r: Result<RemoteStep, CliError>)
    requires
        command is List || command is Open || command is Close || command is Read
            || command is Search || command is Stats,
    ensures
        begins_reading(command, r),
{
    match command {
        Command::List { json } => Ok(
            RemoteStep::Request {
                announce: None,
                request: RequestPayload::ListPorts,
                pending: Pending::List { json },
            },
        ),
        Command::Open { port, line } => match line.to_settings() {
            Ok(settings) => Ok(
                RemoteStep::Request {
                    announce: None,
                    request: RequestPayload::OpenPort { name: port, settings },
                    pending: Pending::Open,
                },
            ),
            Err(e) => Err(CliError::Params(e)),
        },
        Command::Close { port } => Ok(
            RemoteStep::Request {
                announce: None,
                request: RequestPayload::ClosePort { name: port },
                pending: Pending::Close,
            },
        ),
        Command::Read {
            port,
            tail,
            from,
            after,
            since,
            limit,
            wait_ms,
            follow,
            timestamps,
            json,
        } => match parse_instant(&since) {
            Ok(since_ns) => {
                assert(instant(since, Ok(since_ns)));
                let window = ReadWindow {
                    start_id: from,
                    after_id: after,
                    tail,
                    since_ns,
                    limit: Some(limit),
                    wait_ms: Some(wait_ms),
                };
                if follow {
                    let request = follow_start(port.as_str(), window);
                    Ok(
                        RemoteStep::Request {
                            announce: None,
                            request,
                            pending: Pending::Follow { port, timestamps, json },
                        },
                    )
                } else {
                    Ok(
                        RemoteStep::Request {
                            announce: None,
                            request: RequestPayload::ReadLines { port, window },
                            pending: Pending::Read { timestamps, json },
                        },
                    )
                }
            },
            Err(e) => Err(e),
        },
        Command::Search { port, query, mode, start, end, limit, json } => match (
            parse_instant(&start),
            parse_instant(&end),
        ) {
            (Ok(start_ns), Ok(end_ns)) => Ok(
                RemoteStep::Request {
                    announce: None,
                    request: RequestPayload::Search {
                        port,
                        query,
                        mode,
                        start_ns,
                        end_ns,
                        limit: Some(limit),
                    },
                    pending: Pending::Search { json },
                },
            ),
            (Err(e), _) => Err(e),
            (_, Err(e)) => Err(e),
        },
        Command::Stats { port, json } => Ok(
            RemoteStep::Request {
                announce: None,
                request: RequestPayload::GetStatus { port },
                pending: Pending::Stats { json },
            },
        ),
        _ => {
            assert(false);
            Err(CliError::msg("command is not a remote operation"))
        },
    }
}

fn begin_acting(command: Command, stdin_is_terminal: bool) -> (r: Result<RemoteStep, CliError>)
    requires
        command is Write || command is Break || command is Send || command is Recv
            || command is Signal || command is Macro || command is Export || command is Clear
            || command is Flash,
    ensures
        begins_acting(command, stdin_is_terminal, r),
{
    match command {
        Command::Write { port, data, hex, newline } => match write_source(data, stdin_is_terminal) {
            Ok(WriteSource::Stdin) => Ok(RemoteStep::ReadStdin { port, hex, newline }),
            Ok(WriteSource::Text(s)) => write_request(port, s, hex, newline),
            Err(e) => Err(e),
        },
        Command::Break { port, duration_ms } => Ok(
            RemoteStep::Request {
                announce: None,
                request: RequestPayload::SendBreak {
                    port: port.clone(),
                    duration_ms: Some(duration_ms),
                },
                pending: Pending::Break { port },
            },
        ),
        Command::Send { port, file, protocol } => {
            let m = say_sending(file.as_str(), port.as_str(), protocol);
            Ok(
                RemoteStep::Request {
                    announce: Some(m),
                    request: RequestPayload::SendFile { port, file_path: file, protocol },
                    pending: Pending::Send,
                },
            )
        },
        Command::Recv { port, output, protocol } => {
            let m = say_receiving(port.as_str(), output.as_str(), protocol);
            Ok(
                RemoteStep::Request {
                    announce: Some(m),
                    request: RequestPayload::ReceiveFile { port, output_dir: output, protocol },
                    pending: Pending::Recv,
                },
            )
        },
        Command::Signal { port, dtr, rts } => Ok(
            RemoteStep::Request {
                announce: None,
                request: RequestPayload::SetSignal { port: port.clone(), dtr, rts },
                pending: Pending::Signal { port },
            },
        ),
        Command::Macro { port, name } => Ok(
            RemoteStep::Request {
                announce: None,
                request: RequestPayload::ExecuteMacro {
                    port: port.clone(),
                    macro_name: name.clone(),
                },
                pending: Pending::Macro { port, name },
            },
        ),
        Command::Export { port, output, format, start, end } => Ok(
            RemoteStep::Request {
                announce: None,
                request: RequestPayload::Export {
                    port,
                    output_path: output,
                    file_format: Some(format),
                    start_line: start,
                    end_line: end,
                },
                pending: Pending::Export,
            },
        ),
        Command::Clear { port, archive } => Ok(
            RemoteStep::Request {
                announce: None,
                request: RequestPayload::Clear {
                    port: port.clone(),
                    archive_current: Some(archive),
                },
                pending: Pending::Clear { port },
            },
        ),
        Command::Flash { port, firmware, baud, monitor } => {
            let mut m = concat3("Flashing firmware ", firmware.as_str(), " to ");
            m.append(port.as_str());
            m.append("...\n");
            Ok(
                RemoteStep::Request {
                    announce: Some(m),
                    request: RequestPayload::EspFlash {
                        port: port.clone(),
                        firmware_path: firmware,
                        baud,
                    },
                    pending: Pending::Flash { port, monitor },
                },
            )
        },
        _ => {
            assert(false);
            Err(CliError::msg("command is not a remote operation"))
        },
    }
}

/// What a command of the daemon begins with.
pub open spec fn begins(
    command: Command,
    stdin_is_terminal: bool,
    r: Result<RemoteStep, CliError>,
) -> bool {
    if command.is_remote() {
        begins_reading(command, r) && begins_acting(command, stdin_is_terminal, r)
    } else {
        r matches Err(CliError::Message(m)) && m@ == "command is not a remote operation"@
    }
}

/// Begin a command that the daemon carries out.
pub fn run_remote(command: Command, stdin_is_terminal: bool) -> (r: Result<RemoteStep, CliError>)
    ensures
        begins(command, stdin_is_terminal, r),
{
    match command {
        Command::List { .. } => begin_reading(command),
        Command::Open { .. } => begin_reading(command),
        Command::Close { .. } => begin_reading(command),
        Command::Read { .. } => begin_reading(command),
        Command::Search { .. } => begin_reading(command),
        Command::Stats { .. } => begin_reading(command),
        Command::Mcp => Err(CliError::msg("command is not a remote operation")),
        Command::Daemon { .. } => Err(CliError::msg("command is not a remote operation")),
        Command::About => Err(CliError::msg("command is not a remote operation")),
        Command::Gui => Err(CliError::msg("command is not a remote operation")),
        Command::Monitor { .. } => Err(CliError::msg("command is not a remote operation")),
        Command::Tui { .. } => Err(CliError::msg("command is not a remote operation")),
        Command::MonitorSubprocess { .. } => Err(
            CliError::msg("command is not a remote operation"),
        ),
        _ => begin_acting(command, stdin_is_terminal),
    }
}

// ---------------------------------------------------------------------------
// Responses
// ---------------------------------------------------------------------------

/// Whether a text was printed.
pub open spec fn prints(r: Result<Rendered, ResponsePayload>, text: Seq<char>) -> bool {
    r matches Ok(Rendered::Text(t)) && t@ == text
}

/// What is printed for the response to a command that opens, closes or reads.
pub open spec fn reading_done(
    pending: Pending,
    response: ResponsePayload,
    r: Result<Rendered, ResponsePayload>,
) -> bool {
    match (pending, response) {
        (Pending::Open, ResponsePayload::PortOpened { name, config_summary }) => prints(
            r,
            "Opened "@ + name@ + " ("@ + config_summary@ + ")\n"@,
        ),
        (Pending::Open, ResponsePayload::PortReconfigured { name, config_summary }) => prints(
            r,
            "Reconfigured "@ + name@ + " ("@ + config_summary@ + ")\n"@,
        ),
        (Pending::Close, ResponsePayload::PortClosed { name }) => prints(
            r,
            "Closed "@ + name@ + "\n"@,
        ),
        (Pending::Read { timestamps, json }, ResponsePayload::Lines(page)) => if json {
            r == Ok::<Rendered, ResponsePayload>(Rendered::JsonLines(page.lines))
        } else {
            r matches Ok(Rendered::Text(t)) && output::shows_lines(page.lines@, timestamps, t@)
        },
        (Pending::Follow { port, timestamps, json }, ResponsePayload::Lines(page)) => r == Ok::<
            Rendered,
            ResponsePayload,
        >(
            Rendered::Follow {
                port,
                lines: page.lines,
                last_id: page.next_after_id,
                timestamps,
                json,
            },
        ),
        (Pending::Search { json }, ResponsePayload::SearchResults(outcome)) => if json {
            r == Ok::<Rendered, ResponsePayload>(Rendered::JsonSearch(outcome))
        } else {
            prints(r, output::search_block(outcome.results@, outcome.truncated))
        },
        (Pending::Stats { json }, ResponsePayload::Status { name, state, stats }) => if json {
            r matches Ok(Rendered::JsonStatus { port, state: s, stats: b }) && port@ == name@ && s@
                == output::state_text(state) && b == stats
        } else {
            prints(r, output::status_block(name@, state, stats))
        },
        (_, other) => r == Err::<Rendered, ResponsePayload>(other),
    }
}

fn finish_reading(pending: Pending, response: ResponsePayload) -> (r: Result<
    Rendered,
    ResponsePayload,
>)
    ensures
        reading_done(pending, response, r),
{
    match (pending, response) {
        (Pending::Open, ResponsePayload::PortOpened { name, config_summary }) => {
            let mut m = concat3("Opened ", name.as_str(), " (");
            m.append(config_summary.as_str());
            m.append(")\n");
            Ok(Rendered::Text(m))
        },
        (Pending::Open, ResponsePayload::PortReconfigured { name, config_summary }) => {
            let mut m = concat3("Reconfigured ", name.as_str(), " (");
            m.append(config_summary.as_str());
            m.append(")\n");
            Ok(Rendered::Text(m))
        },
        (Pending::Close, ResponsePayload::PortClosed { name }) => Ok(
            Rendered::Text(concat3("Closed ", name.as_str(), "\n")),
        ),
        (Pending::Read { timestamps, json }, ResponsePayload::Lines(page)) => if json {
            Ok(Rendered::JsonLines(page.lines))
        } else {
            Ok(Rendered::Text(lines_text(page.lines.as_slice(), timestamps)))
        },
        (Pending::Follow { port, timestamps, json }, ResponsePayload::Lines(page)) => Ok(
            Rendered::Follow {
                port,
                lines: page.lines,
                last_id: page.next_after_id,
                timestamps,
                json,
            },
        ),
        (Pending::Search { json }, ResponsePayload::SearchResults(outcome)) => if json {
            Ok(Rendered::JsonSearch(outcome))
        } else {
            Ok(Rendered::Text(search_text(&outcome)))
        },
        (Pending::Stats { json }, ResponsePayload::Status { name, state, stats }) => if json {
            Ok(
                Rendered::JsonStatus { port: name, state: output::describe_state(&state), stats },
            )
        } else {
            Ok(Rendered::Text(status_text(name.as_str(), &state, &stats)))
        },
        (_, other) => Err(other),
    }
}

/// What is printed for the response to a command that acts on a port.
pub open spec fn acting_done(
    pending: Pending,
    response: ResponsePayload,
    r: Result<Rendered, ResponsePayload>,
) -> bool {
    match (pending, response) {
        (Pending::Write { port }, ResponsePayload::WriteSuccess { bytes_written }) => prints(
            r,
            "Wrote "@ + text::dec_nat(bytes_written as nat) + " bytes to "@ + port@ + "\n"@,
        ),
        (Pending::Break { port }, ResponsePayload::BreakSuccess { duration_ms }) => prints(
            r,
            "Sent serial BREAK pulse ("@ + text::dec_nat(duration_ms as nat) + "ms) on "@ + port@
                + "\n"@,
        ),
        (
            Pending::Send,
            ResponsePayload::TransferSuccess { bytes_transferred, file_name, protocol, .. },
        ) => prints(
            r,
            "Sent "@ + text::dec_nat(bytes_transferred as nat) + " bytes ("@ + file_name@
                + ") via "@ + transfer::protocol_label(protocol) + "\n"@,
        ),
        (
            Pending::Recv,
            ResponsePayload::TransferSuccess { bytes_transferred, file_name, path, .. },
        ) => prints(
            r,
            "Received "@ + text::dec_nat(bytes_transferred as nat) + " bytes into '"@ + (
            match path {
                Some(p) => p@,
                None => file_name@,
            }) + "'\n"@,
        ),
        (Pending::Signal { port }, ResponsePayload::SignalSuccess { applied }) => prints(
            r,
            "Set "@ + text::joined(text::texts(applied@), ", "@) + " on "@ + port@ + "\n"@,
        ),
        (Pending::Macro { port, name }, ResponsePayload::MacroSuccess { executed_steps }) => prints(
            r,
            "Executed macro '"@ + name@ + "' on "@ + port@ + " ("@ + text::dec_nat(
                executed_steps@.len(),
            ) + " steps: "@ + text::joined(text::texts(executed_steps@), " → "@) + ")\n"@,
        ),
        (
            Pending::Export,
            ResponsePayload::ExportSuccess { lines_exported, path, file_format },
        ) => prints(
            r,
            "Exported "@ + text::dec_nat(lines_exported as nat) + " lines to "@ + path@
                + " (format: "@ + file_format.name() + ")\n"@,
        ),
        (Pending::Clear { port }, ResponsePayload::ClearSuccess { lines_cleared, archive_path }) =>
        prints(
            r,
            "Cleared buffer on "@ + port@ + " ("@ + text::dec_nat(lines_cleared as nat) + (
            match archive_path {
                Some(p) => " lines archived to "@ + p@ + ")\n"@,
                None => " lines removed)\n"@,
            }),
        ),
        (Pending::Flash { port, monitor }, ResponsePayload::EspSuccess(output)) => if monitor {
            r matches Ok(Rendered::ThenFollow { text: t, port: p }) && p@ == port@ && t@ == output@
                + "\n━━━ Following serial output (Ctrl+C to exit) ━━━\n\n"@
        } else {
            prints(r, output@)
        },
        (_, other) => r == Err::<Rendered, ResponsePayload>(other),
    }
}

fn finish_acting(pending: Pending, response: ResponsePayload) -> (r: Result<
    Rendered,
    ResponsePayload,
>)
    ensures
        acting_done(pending, response, r),
{
    match (pending, response) {
        (Pending::Write { port }, ResponsePayload::WriteSuccess { bytes_written }) => {
            let mut m = concat3("Wrote ", decimal_usize(bytes_written).as_str(), " bytes to ");
            m.append(port.as_str());
            m.append("\n");
            Ok(Rendered::Text(m))
        },
        (Pending::Break { port }, ResponsePayload::BreakSuccess { duration_ms }) => {
            let mut m = concat3(
                "Sent serial BREAK pulse (",
                decimal(duration_ms).as_str(),
                "ms) on ",
            );
            m.append(port.as_str());
            m.append("\n");
            Ok(Rendered::Text(m))
        },
        (
            Pending::Send,
            ResponsePayload::TransferSuccess { bytes_transferred, file_name, protocol, .. },
        ) => {
            let mut m = concat3("Sent ", decimal(bytes_transferred).as_str(), " bytes (");
            m.append(file_name.as_str());
            m.append(") via ");
            m.append(label(protocol));
            m.append("\n");
            Ok(Rendered::Text(m))
        },
        (
            Pending::Recv,
            ResponsePayload::TransferSuccess { bytes_transferred, file_name, path, .. },
        ) => {
            let mut m = concat3("Received ", decimal(bytes_transferred).as_str(), " bytes into '");
            match path {
                Some(p) => m.append(p.as_str()),
                None => m.append(file_name.as_str()),
            }
            m.append("'\n");
            Ok(Rendered::Text(m))
        },
        (Pending::Signal { port }, ResponsePayload::SignalSuccess { applied }) => {
            let mut m = concat3("Set ", join(&applied, ", ").as_str(), " on ");
            m.append(port.as_str());
            m.append("\n");
            Ok(Rendered::Text(m))
        },
        (Pending::Macro { port, name }, ResponsePayload::MacroSuccess { executed_steps }) => {
            let mut m = concat3("Executed macro '", name.as_str(), "' on ");
            m.append(port.as_str());
            m.append(" (");
            m.append(decimal_usize(executed_steps.len()).as_str());
            m.append(" steps: ");
            m.append(join(&executed_steps, " → ").as_str());
            m.append(")\n");
            Ok(Rendered::Text(m))
        },
        (
            Pending::Export,
            ResponsePayload::ExportSuccess { lines_exported, path, file_format },
        ) => {
            let mut m = concat3("Exported ", decimal(lines_exported).as_str(), " lines to ");
            m.append(path.as_str());
            m.append(" (format: ");
            m.append(file_format.extension());
            m.append(")\n");
            Ok(Rendered::Text(m))
        },
        (Pending::Clear { port }, ResponsePayload::ClearSuccess { lines_cleared, archive_path }) => {
            let mut m = concat3("Cleared buffer on ", port.as_str(), " (");
            m.append(decimal(lines_cleared).as_str());
            let tail = match archive_path {
                Some(p) => concat3(" lines archived to ", p.as_str(), ")\n"),
                None => " lines removed)\n".to_owned(),
            };
            m.append(tail.as_str());
            Ok(Rendered::Text(m))
        },
        (Pending::Flash { port, monitor }, ResponsePayload::EspSuccess(output)) => if monitor {
            Ok(
                Rendered::ThenFollow {
                    text: concat2(
                        output.as_str(),
                        "\n━━━ Following serial output (Ctrl+C to exit) ━━━\n\n",
                    ),
                    port,
                },
            )
        } else {
            Ok(Rendered::Text(output))
        },
        (_, other) => Err(other),
    }
}

/// Whether a command reads, rather than acts on a port.
pub open spec fn reads(pending: Pending) -> bool {
    pending is Open || pending is Close || pending is Read || pending is Follow
        || pending is Search || pending is Stats
}

/// What a command of the daemon ends with.
pub open spec fn ends(
    pending: Pending,
    response: ResponsePayload,
    r: Result<Rendered, ResponsePayload>,
) -> bool {
    if reads(pending) {
        reading_done(pending, response, r)
    } else {
        acting_done(pending, response, r)
    }
}

/// What is printed for the response to a command. A response of an unexpected
/// shape comes back.
pub fn finish(pending: Pending, response: ResponsePayload) -> (r: Result<Rendered, ResponsePayload>)
    requires
        !(pending is List),
    ensures
        ends(pending, response, r),
{
    let reading = match &pending {
        Pending::Open => true,
        Pending::Close => true,
        Pending::Read { .. } => true,
        Pending::Follow { .. } => true,
        Pending::Search { .. } => true,
        Pending::Stats { .. } => true,
        _ => false,
    };
    if reading {
        finish_reading(pending, response)
    } else {
        finish_acting(pending, response)
    }
}

/// What is said of an answer that fits no command.
pub open spec fn tells_unexpected(written: &str, r: CliError) -> bool {
    r matches CliError::Message(m) && m@ == "unexpected response from daemon: "@ + written@
}

/// The error for a response of an unexpected shape, given how it is written
/// out.
pub fn unexpected(written: &str) -> (r: CliError)
    ensures
        tells_unexpected(written, r),
{
    CliError::Message(concat2("unexpected response from daemon: ", written))
}

/// What the list of ports ends with.
pub open spec fn ends_list(
    response: Result<ResponsePayload, IpcError>,
    hardware: Vec<String>,
    json: bool,
    r: Result<Rendered, ResponsePayload>,
) -> bool {
    match response {
        Ok(ResponsePayload::PortList(ports)) => if json {
            r == Ok::<Rendered, ResponsePayload>(
                Rendered::JsonPorts { managed: Some(ports), hardware },
            )
        } else {
            prints(r, output::port_list(Some(ports@), hardware@))
        },
        Ok(other) => r == Err::<Rendered, ResponsePayload>(other),
        Err(_) => if json {
            r == Ok::<Rendered, ResponsePayload>(
                Rendered::JsonPorts { managed: None, hardware },
            )
        } else {
            prints(r, output::port_list(None, hardware@))
        },
    }
}

/// What is printed for a list of ports. Without a daemon there are no managed
/// ports, and that is no error.
pub fn finish_list(
    response: Result<ResponsePayload, IpcError>,
    hardware: Vec<String>,
    json: bool,
) -> (r: Result<Rendered, ResponsePayload>)
    ensures
        ends_list(response, hardware, json, r),
{
    let managed = match response {
        Ok(ResponsePayload::PortList(ports)) => Some(ports),
        Ok(other) => {
            return Err(other);
        },
        Err(_) => None,
    };
    if json {
        Ok(Rendered::JsonPorts { managed, hardware })
    } else {
        Ok(Rendered::Text(port_list_text(&managed, &hardware)))
    }
}

/// What is said of the daemon.
pub open spec fn tells_daemon(alive: bool, endpoint: &str, r: String) -> bool {
    r@ == "Daemon is "@ + (if alive {
        "RUNNING"@
    } else {
        "STOPPED"@
    }) + " (endpoint: "@ + endpoint@ + ")\n"@
}

/// What `daemon --status` prints.
pub fn daemon_status(alive: bool, endpoint: &str) -> (r: String)
    ensures
        tells_daemon(alive, endpoint, r),
{
    let mut m = concat2(
        "Daemon is ",
        if alive {
            "RUNNING"
        } else {
            "STOPPED"
        },
    );
    m.append(" (endpoint: ");
    m.append(endpoint);
    m.append(")\n");
    m
}

/// What is said of a daemon that was told to stop.
pub open spec fn tells_stopped(
    reply: Result<ResponsePayload, IpcError>,
    r: Result<String, CliError>,
) -> bool {
    match reply {
        Ok(_) => r matches Ok(t) && t@ == "Daemon shutdown requested.\n"@,
        Err(IpcError::Connect { .. }) => r matches Ok(t) && t@ == "Daemon is not running.\n"@,
        Err(e) => r == Err::<String, CliError>(CliError::Ipc(e)),
    }
}

/// What `daemon --stop` prints, given what came of the request to shut down: a
/// daemon that cannot be reached is not running.
pub fn daemon_stopped(reply: Result<ResponsePayload, IpcError>) -> (r: Result<String, CliError>)
    ensures
        tells_stopped(reply, r),
{
    match reply {
        Ok(_) => Ok("Daemon shutdown requested.\n".to_owned()),
        Err(IpcError::Connect { .. }) => Ok("Daemon is not running.\n".to_owned()),
        Err(e) => Err(CliError::Ipc(e)),
    }
}

/// Following a port shows every line once: the next request begins right behind
/// the last line of a page.
pub proof fn following_leaves_no_gap(window: ReadWindow, page: LinesPage, total: u64, later: u64)
    requires
        page.lines@.len() > 0,
        page.next_after_id == crate::engine::reading::next_id(window, total, page.lines@),
        0 <= page.lines@.last().id < i64::MAX,
    ensures
        crate::engine::reading::first_id(
            (ReadWindow {
                after_id: Some(page.next_after_id),
                limit: Some(FOLLOW_BATCH),
                ..crate::protocol::whole_window()
            }),
            later,
        ) == page.lines@.last().id + 1,
{
}

} // verus!
