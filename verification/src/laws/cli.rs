//! What the command line asks for and prints.
use vstd::prelude::*;
use vstd::string::*;

use crate::cli;
use crate::cli::handlers;
use crate::cli::handlers::{Pending, RemoteStep, Rendered, WriteSource};
use crate::cli::output;
use crate::cli::output::PackageInfo;
use crate::cli::{CliError, Command, LineOptions, Role};
use crate::clock;
use crate::config::PortConfig;
use crate::export;
use crate::export::ExportFormat;
use crate::ipc::IpcError;
use crate::modem::FileTransferProtocol;
use crate::protocol::{
    LinesPage, PortInfoResponse, PortSettings, ReadWindow, RequestPayload, ResponsePayload,
    SearchMode, SearchOutcome,
};
use crate::reader::ConnectionState;
use crate::serial_params::ParamError;
use crate::storage::{BufferStats, StoredLine};
use crate::text;

verus! {

// ---------------------------------------------------------------------------
// Lines
// ---------------------------------------------------------------------------

/// What is printed of a line ends with its payload and a line end. With times, the
/// time of day stands before it in brackets, twelve characters or none.
pub proof fn a_printed_line_holds_its_payload(line: StoredLine, timestamps: bool, out: Seq<char>)
    requires
        output::shows_line(line, timestamps, out),
    ensures
        ({
            let front = if !timestamps {
                0int
            } else if line.timestamp_ns <= 0 {
                3
            } else {
                15
            };
            &&& out.len() == front + line.payload@.len() + 1
            &&& out.subrange(front, front + line.payload@.len()) == line.payload@
            &&& out.last() == '\n'
            &&& timestamps ==> out[0] == '[' && out[front - 2] == ']' && out[front - 1] == ' '
            &&& timestamps && line.timestamp_ns > 0 ==> clock::shows(
                line.timestamp_ns,
                out.subrange(1, 13),
            )
        }),
{
    reveal_strlit("[");
    reveal_strlit("] ");
    reveal_strlit("\n");
    if timestamps {
        let at = choose|at: Seq<char>| #[trigger]
            output::stamped(line.payload@, at) == out && clock::is_screen_time(
                line.timestamp_ns,
                at,
            );
        let n = at.len() as int;
        assert(out.subrange(n + 3, n + 3 + line.payload@.len()) =~= line.payload@);
        assert(out.subrange(1, n + 1) =~= at);
    } else {
        assert(out.subrange(0, line.payload@.len() as int) =~= line.payload@);
    }
}

/// Lines are printed one after the other, each once and in order.
pub proof fn lines_are_printed_in_order(
    lines: Seq<StoredLine>,
    line: StoredLine,
    timestamps: bool,
    out: Seq<char>,
)
    requires
        output::shows_lines(lines.push(line), timestamps, out),
    ensures
        exists|k: int|
            0 <= k <= out.len() && output::shows_lines(lines, timestamps, #[trigger] out.take(k))
                && output::shows_line(line, timestamps, out.skip(k)),
        forall|s: Seq<char>|
            #[trigger] output::shows_lines(Seq::empty(), timestamps, s) <==> s.len() == 0,
{
    assert(lines.push(line).drop_last() =~= lines);
}

// ---------------------------------------------------------------------------
// What is printed
// ---------------------------------------------------------------------------

/// The state of a port in words.
pub proof fn states_are_printed(since_ms: u64, attempts: u32)
    ensures
        output::state_text(ConnectionState::Connected) == "connected"@,
        output::state_text(ConnectionState::Reconnecting) == "reconnecting"@,
        output::state_text((ConnectionState::Disconnected { since_ms, attempts }))
            == "disconnected for "@ + text::dec_nat(since_ms as nat) + "ms after "@
            + text::dec_nat(attempts as nat) + " attempts"@,
{
}

/// The list holds every managed port and every device, each in a line of its own.
pub proof fn the_list_is_printed(
    managed: Seq<PortInfoResponse>,
    port: PortInfoResponse,
    hardware: Seq<String>,
    device: String,
)
    ensures
        output::port_list(None, Seq::empty()) == "Managed Ports:\n"@ + "  (daemon not running)\n"@
            + "\nAvailable Serial Hardware:\n"@ + "  (no hardware ports detected)\n"@,
        output::port_list(Some(Seq::empty()), hardware.push(device)) == "Managed Ports:\n"@
            + "  (none)\n"@ + "\nAvailable Serial Hardware:\n"@ + output::all_hardware_text(
            hardware.push(device),
        ),
        output::port_list(Some(managed.push(port)), Seq::empty()) == "Managed Ports:\n"@
            + output::all_managed_text(managed.push(port)) + "\nAvailable Serial Hardware:\n"@
            + "  (no hardware ports detected)\n"@,
        output::all_managed_text(Seq::empty()).len() == 0,
        output::all_managed_text(managed.push(port)) == output::all_managed_text(managed) + ("  • "@
            + port.name@ + " ("@ + output::state_text(port.state) + ", "@ + text::dec_nat(
            port.total_lines as nat,
        ) + " lines)\n"@),
        output::all_hardware_text(Seq::empty()).len() == 0,
        output::all_hardware_text(hardware.push(device)) == output::all_hardware_text(hardware)
            + "  • "@ + device@ + "\n"@,
{
    assert(managed.push(port).drop_last() =~= managed);
    assert(hardware.push(device).drop_last() =~= hardware);
}

/// The figures of a port are printed each under its name.
pub proof fn figures_are_printed(port: Seq<char>, state: ConnectionState, stats: BufferStats)
    ensures
        output::status_block(port, state, stats) == "Statistics for "@ + port
            + ":\n  State:          "@ + output::state_text(state) + "\n  Total Lines:    "@
            + text::dec_nat(stats.total_lines as nat) + "\n  Total Bytes:    "@ + text::dec_nat(
            stats.total_bytes as nat,
        ) + "\n  Database Size:  "@ + text::dec_nat(stats.db_size_bytes as nat) + " bytes\n"@ + (
        match stats.last_timestamp_ns {
            Some(ts) => "  Last Activity:  "@ + export::record_time(ts) + "\n"@,
            None => Seq::empty(),
        }),
{
}

/// Found lines are counted and printed in order with their numbers.
pub proof fn found_lines_are_printed(lines: Seq<StoredLine>, line: StoredLine, truncated: bool)
    ensures
        output::search_block(lines, truncated) == "Found "@ + text::dec_nat(lines.len())
            + " matching lines:\n"@ + output::hit_lines(lines) + (if truncated {
            "(scan limit reached; later lines were not examined)\n"@
        } else {
            Seq::empty()
        }),
        output::hit_lines(Seq::empty()).len() == 0,
        output::hit_lines(lines.push(line)) == output::hit_lines(lines) + "  ["@ + text::dec_int(
            line.id as int,
        ) + "] "@ + line.payload@ + "\n"@,
{
    assert(lines.push(line).drop_last() =~= lines);
}

/// The program names itself, its version, authors, license and home.
pub proof fn the_program_is_told(info: &PackageInfo, r: String)
    requires
        output::tells_about(info, r),
    ensures
        r@ == info.name@ + " v"@ + info.version@ + "\n"@ + info.description@ + "\n\nAuthor:     "@
            + text::joined(text::split_at_char(info.authors@, ':'), ", "@) + "\nLicense:    "@
            + info.license@ + "\nRepository: "@ + info.repository@ + "\n"@,
{
}

// ---------------------------------------------------------------------------
// Options
// ---------------------------------------------------------------------------

/// Options describe a port: the speed is not zero, the data bits five to eight and
/// the stop bits one or two, and nothing that was not asked for is changed.
pub proof fn options_describe_a_port(
    line: LineOptions,
    c: Result<PortConfig, ParamError>,
    s: Result<PortSettings, ParamError>,
)
    requires
        line.gives_config(c),
        line.gives_settings(s),
    ensures
        ({
            let good = line.baud > 0 && 5 <= line.data_bits <= 8 && 1 <= line.stop_bits <= 2;
            &&& c is Ok <==> good
            &&& s is Ok <==> good
            &&& c matches Ok(p) ==> {
                &&& p.baudrate == line.baud && p.data_bits.value() == line.data_bits
                &&& p.parity == line.parity && p.stop_bits.value() == line.stop_bits
                &&& p.flow_control == line.flow_control
                &&& p.delimiter == 10 && p.auto_reconnect && p.max_buffer_lines == 0
                &&& p.reconnect_interval_ms == 1000 && p.reconnect_max_backoff_ms == 30_000
            }
            &&& s matches Ok(p) ==> {
                &&& p.baudrate == Some(line.baud) && p.parity == Some(line.parity)
                &&& p.flow_control == Some(line.flow_control)
                &&& p.data_bits matches Some(d) && d.value() == line.data_bits
                &&& p.stop_bits matches Some(d) && d.value() == line.stop_bits
            }
            &&& line.baud == 0 ==> c == Err::<PortConfig, ParamError>(ParamError::Baud(0)) && s
                == Err::<PortSettings, ParamError>(ParamError::Baud(0))
            &&& line.baud > 0 && !(5 <= line.data_bits <= 8) ==> c == Err::<PortConfig, ParamError>(
                ParamError::DataBits(line.data_bits),
            )
            &&& line.baud > 0 && 5 <= line.data_bits <= 8 && !(1 <= line.stop_bits <= 2) ==> c
                == Err::<PortConfig, ParamError>(ParamError::StopBits(line.stop_bits))
        }),
{
}

/// Without a command a terminal opens the window and a pipe the service for
/// language models; every command starts what it names.
pub proof fn commands_start_what_they_name(
    interactive: bool,
    none: Result<Role, CliError>,
    mcp: Result<Role, CliError>,
    gui: Result<Role, CliError>,
    about: Result<Role, CliError>,
    status: bool,
    stop: bool,
    daemon: Result<Role, CliError>,
)
    requires
        cli::starts(None, interactive, none),
        cli::starts(Some(Command::Mcp), interactive, mcp),
        cli::starts(Some(Command::Gui), interactive, gui),
        cli::starts(Some(Command::About), interactive, about),
        cli::starts(Some(Command::Daemon { status, stop }), interactive, daemon),
    ensures
        interactive ==> none == Ok::<Role, CliError>(Role::Gui),
        !interactive ==> none == Ok::<Role, CliError>(Role::Mcp),
        mcp == Ok::<Role, CliError>(Role::Mcp),
        gui == Ok::<Role, CliError>(Role::Gui),
        about == Ok::<Role, CliError>(Role::About),
        !status && !stop ==> daemon == Ok::<Role, CliError>(Role::Daemon),
        status || stop ==> daemon == Ok::<Role, CliError>(Role::DaemonControl { status, stop }),
{
}

/// A window or a terminal monitor is opened for its port with the settings of its
/// options.
pub proof fn monitors_are_started(
    port: String,
    line: LineOptions,
    interactive: bool,
    window: Result<Role, CliError>,
    terminal: Result<Role, CliError>,
    c: Result<PortConfig, ParamError>,
    db: String,
    info: String,
    child: Result<Role, CliError>,
)
    requires
        cli::starts(Some(Command::Monitor { port, line }), interactive, window),
        cli::starts(Some(Command::Tui { port, line }), interactive, terminal),
        cli::starts(Some(Command::MonitorSubprocess { port, db, info }), interactive, child),
        line.gives_config(c),
    ensures
        c matches Ok(config) ==> (window matches Ok(Role::Monitor { port: p, config: d }) && p
            == port && d.baudrate == config.baudrate && d.parity == config.parity
            && d.flow_control == config.flow_control && d.data_bits.value()
            == config.data_bits.value() && d.stop_bits.value() == config.stop_bits.value()) && (
        terminal matches Ok(Role::Tui { port: p, config: d }) && p == port && d.baudrate
            == config.baudrate && d.parity == config.parity && d.flow_control == config.flow_control
            && d.data_bits.value() == config.data_bits.value() && d.stop_bits.value()
            == config.stop_bits.value()),
        c matches Err(e) ==> window == Err::<Role, CliError>(CliError::Params(e)) && terminal
            == Err::<Role, CliError>(CliError::Params(e)),
        child matches Ok(Role::MonitorSubprocess { port: p, db: d, info: i }) && p == port && d == db
            && i == info,
{
}

/// What the daemon does is asked of it; everything else is refused there.
pub proof fn the_daemon_is_asked(
    command: Command,
    interactive: bool,
    terminal: bool,
    role: Result<Role, CliError>,
    step: Result<RemoteStep, CliError>,
)
    requires
        cli::starts(Some(command), interactive, role),
        handlers::begins(command, terminal, step),
    ensures
        ({
            let remote = command is List || command is Open || command is Close || command is Read
                || command is Write || command is Break || command is Send || command is Recv
                || command is Signal || command is Macro || command is Search || command is Export
                || command is Clear || command is Stats || command is Flash;
            &&& remote ==> role == Ok::<Role, CliError>(Role::Remote(command))
            &&& !remote ==> !(role matches Ok(Role::Remote(_))) && (step matches Err(e)
                && e.message() == "command is not a remote operation"@)
        }),
{
}

// ---------------------------------------------------------------------------
// Requests
// ---------------------------------------------------------------------------

/// The request that a step sends.
pub open spec fn sends(step: Result<RemoteStep, CliError>) -> RequestPayload {
    step->Ok_0->request
}

/// Ports are listed, opened, closed and counted as asked.
pub proof fn ports_are_asked_for(
    port: String,
    line: LineOptions,
    json: bool,
    terminal: bool,
    list: Result<RemoteStep, CliError>,
    open: Result<RemoteStep, CliError>,
    close: Result<RemoteStep, CliError>,
    stats: Result<RemoteStep, CliError>,
)
    requires
        handlers::begins(Command::List { json }, terminal, list),
        handlers::begins(Command::Open { port, line }, terminal, open),
        handlers::begins(Command::Close { port }, terminal, close),
        handlers::begins(Command::Stats { port, json }, terminal, stats),
    ensures
        list matches Ok(RemoteStep::Request { .. }) && sends(list) is ListPorts,
        close matches Ok(RemoteStep::Request { .. }) && sends(close) == (
        RequestPayload::ClosePort { name: port }),
        stats matches Ok(RemoteStep::Request { .. }) && sends(stats) == (
        RequestPayload::GetStatus { port }),
        match open {
            Ok(RemoteStep::Request { request, .. }) => request matches RequestPayload::OpenPort {
                name,
                settings,
            } && name@ == port@ && settings.baudrate == Some(line.baud) && settings.parity == Some(
                line.parity,
            ) && settings.flow_control == Some(line.flow_control) && (
            settings.data_bits matches Some(d) && d.value() == line.data_bits) && (
            settings.stop_bits matches Some(d) && d.value() == line.stop_bits),
            Ok(_) => false,
            Err(_) => line.baud == 0 || !(5 <= line.data_bits <= 8) || !(1 <= line.stop_bits <= 2),
        },
{
}

/// A read asks for the lines between its bounds; a read that follows asks for the
/// last lines first, twenty where nothing was said.
pub proof fn reads_are_asked_for(
    port: String,
    tail: Option<u32>,
    from: Option<i64>,
    after: Option<i64>,
    limit: u32,
    wait_ms: u64,
    follow: bool,
    timestamps: bool,
    json: bool,
    terminal: bool,
    step: Result<RemoteStep, CliError>,
)
    requires
        handlers::begins(
            Command::Read {
                port,
                tail,
                from,
                after,
                since: None,
                limit,
                wait_ms,
                follow,
                timestamps,
                json,
            },
            terminal,
            step,
        ),
    ensures
        step matches Ok(RemoteStep::Request { request, pending, .. }) && (
        request matches RequestPayload::ReadLines { port: p, window } && p@ == port@ && window.limit
            == Some(limit) && window.since_ns is None && if follow {
            &&& window.tail == Some(
                match tail {
                    Some(t) => t,
                    None => 20,
                },
            )
            &&& window.start_id is None && window.after_id is None && window.wait_ms is None
            &&& pending matches Pending::Follow { port: q, timestamps: t, json: j } && q@ == port@
                && t == timestamps && j == json
        } else {
            &&& window.tail == tail && window.start_id == from && window.after_id == after
            &&& window.wait_ms == Some(wait_ms)
            &&& pending == (Pending::Read { timestamps, json })
        }),
{
}

/// A time that was given is the first instant that is read; one that cannot be
/// read is refused with the text.
pub proof fn times_are_taken(
    port: String,
    since: String,
    limit: u32,
    timestamps: bool,
    json: bool,
    terminal: bool,
    step: Result<RemoteStep, CliError>,
)
    requires
        handlers::begins(
            Command::Read {
                port,
                tail: None,
                from: None,
                after: None,
                since: Some(since),
                limit,
                wait_ms: 0,
                follow: false,
                timestamps,
                json,
            },
            terminal,
            step,
        ),
    ensures
        match clock::rfc3339_of(since@) {
            Ok(Some(ns)) => step matches Ok(RemoteStep::Request { request, .. }) && (
            request matches RequestPayload::ReadLines { window, .. } && window.since_ns == Some(
                ns,
            )),
            Ok(None) => step is Ok,
            Err(e) => step matches Err(m) && m.message() == "invalid timestamp"@ + " '"@ + since@
                + "': "@ + e,
        },
{
}

/// A search asks for its query in its mode between its times.
pub proof fn searches_are_asked_for(
    port: String,
    query: String,
    mode: SearchMode,
    start: String,
    end: String,
    limit: u32,
    json: bool,
    terminal: bool,
    whole: Result<RemoteStep, CliError>,
    step: Result<RemoteStep, CliError>,
)
    requires
        handlers::begins(
            Command::Search { port, query, mode, start: None, end: None, limit, json },
            terminal,
            whole,
        ),
        handlers::begins(
            Command::Search { port, query, mode, start: Some(start), end: Some(end), limit, json },
            terminal,
            step,
        ),
    ensures
        whole matches Ok(RemoteStep::Request { .. }) && sends(whole) == (RequestPayload::Search {
            port,
            query,
            mode,
            start_ns: None,
            end_ns: None,
            limit: Some(limit),
        }),
        match (clock::rfc3339_of(start@), clock::rfc3339_of(end@)) {
            (Ok(Some(a)), Ok(Some(b))) => step matches Ok(RemoteStep::Request { .. }) && sends(step)
                == (RequestPayload::Search {
                port,
                query,
                mode,
                start_ns: Some(a),
                end_ns: Some(b),
                limit: Some(limit),
            }),
            (Err(e), _) => step matches Err(m) && m.message() == "invalid timestamp"@ + " '"@
                + start@ + "': "@ + e,
            (_, Err(e)) => step matches Err(m) && m.message() == "invalid timestamp"@ + " '"@ + end@
                + "': "@ + e,
            _ => step is Ok,
        },
{
}

/// What is to be written is the argument, or what comes in where it is a dash or
/// missing; a line end is put behind where it was asked for, and not to hex.
pub proof fn writes_are_asked_for(
    port: String,
    data: String,
    hex: bool,
    newline: bool,
    terminal: bool,
    given: Result<RemoteStep, CliError>,
    missing: Result<RemoteStep, CliError>,
)
    requires
        handlers::begins(
            Command::Write { port, data: Some(data), hex, newline },
            terminal,
            given,
        ),
        handlers::begins(Command::Write { port, data: None, hex, newline }, terminal, missing),
    ensures
        data@ == "-"@ ==> given == Ok::<RemoteStep, CliError>(
            RemoteStep::ReadStdin { port, hex, newline },
        ),
        data@ != "-"@ && hex && newline ==> given is Err,
        data@ != "-"@ && !(hex && newline) ==> (given matches Ok(RemoteStep::Request { .. }) && (
        sends(given) matches RequestPayload::WriteData { port: p, data: d, is_hex } && p@ == port@
            && is_hex == hex && d@ == (if newline {
            data@ + seq!['\r', '\n']
        } else {
            data@
        }))),
        !terminal ==> missing == Ok::<RemoteStep, CliError>(
            RemoteStep::ReadStdin { port, hex, newline },
        ),
        terminal ==> (missing matches Err(m) && m.message()
            == "no data to write: pass it as an argument or pipe it via stdin"@),
{
    reveal_strlit("\r\n");
    assert("\r\n"@ =~= seq!['\r', '\n']);
}

/// What comes in is written as an argument would be.
pub proof fn input_is_written(
    port: Seq<char>,
    data: Seq<char>,
    hex: bool,
    newline: bool,
    step: Result<RemoteStep, CliError>,
    argument: Option<String>,
    terminal: bool,
    source: Result<WriteSource, CliError>,
)
    requires
        handlers::write_begins(port, data, hex, newline, step),
        handlers::writes_from(argument, terminal, source),
    ensures
        hex && newline ==> (step matches Err(m) && m.message()
            == "--newline cannot be combined with --hex; include 0D0A in the hex data instead"@),
        !(hex && newline) ==> (step matches Ok(RemoteStep::Request { .. }) && (
        sends(step) matches RequestPayload::WriteData { port: p, data: d, is_hex } && p@ == port
            && is_hex == hex && d@.len() == data.len() + (if newline {
            2int
        } else {
            0
        }) && d@.take(data.len() as int) == data)),
        source matches Ok(WriteSource::Text(t)) ==> argument == Some(t) && t@ != "-"@,
        source matches Ok(WriteSource::Stdin) ==> argument is None || argument->0@ == "-"@,
        source is Err <==> argument is None && terminal,
{
    reveal_strlit("\r\n");
    assert((data + "\r\n"@).take(data.len() as int) =~= data);
    assert(data.take(data.len() as int) =~= data);
}

/// Breaks, signals, macros and the buffer are asked for as given.
pub proof fn device_work_is_asked_for(
    port: String,
    duration_ms: u64,
    dtr: Option<bool>,
    rts: Option<bool>,
    name: String,
    archive: bool,
    terminal: bool,
    pulse: Result<RemoteStep, CliError>,
    signal: Result<RemoteStep, CliError>,
    run: Result<RemoteStep, CliError>,
    clear: Result<RemoteStep, CliError>,
)
    requires
        handlers::begins(Command::Break { port, duration_ms }, terminal, pulse),
        handlers::begins(Command::Signal { port, dtr, rts }, terminal, signal),
        handlers::begins(Command::Macro { port, name }, terminal, run),
        handlers::begins(Command::Clear { port, archive }, terminal, clear),
    ensures
        pulse matches Ok(RemoteStep::Request { .. }) && (
        sends(pulse) matches RequestPayload::SendBreak { port: p, duration_ms: d } && p@ == port@
            && d == Some(duration_ms)),
        signal matches Ok(RemoteStep::Request { .. }) && (
        sends(signal) matches RequestPayload::SetSignal { port: p, dtr: d, rts: r } && p@ == port@
            && d == dtr && r == rts),
        run matches Ok(RemoteStep::Request { .. }) && (
        sends(run) matches RequestPayload::ExecuteMacro { port: p, macro_name } && p@ == port@
            && macro_name@ == name@),
        clear matches Ok(RemoteStep::Request { .. }) && (
        sends(clear) matches RequestPayload::Clear { port: p, archive_current } && p@ == port@
            && archive_current == Some(archive)),
{
}

/// Files are sent, received, exported and flashed as given, and the long ones are
/// announced.
pub proof fn file_work_is_asked_for(
    port: String,
    file: String,
    protocol: FileTransferProtocol,
    format: ExportFormat,
    start: Option<i64>,
    end: Option<i64>,
    baud: Option<u32>,
    monitor: bool,
    terminal: bool,
    send: Result<RemoteStep, CliError>,
    recv: Result<RemoteStep, CliError>,
    export: Result<RemoteStep, CliError>,
    flash: Result<RemoteStep, CliError>,
)
    requires
        handlers::begins(Command::Send { port, file, protocol }, terminal, send),
        handlers::begins(Command::Recv { port, output: file, protocol }, terminal, recv),
        handlers::begins(
            Command::Export { port, output: file, format, start, end },
            terminal,
            export,
        ),
        handlers::begins(
            Command::Flash { port, firmware: file, baud, monitor },
            terminal,
            flash,
        ),
    ensures
        send matches Ok(RemoteStep::Request { announce: Some(m), .. }) && m@ == "Sending '"@ + file@
            + "' to "@ + port@ + " using "@ + crate::engine::transfer::protocol_label(protocol)
            + "...\n"@ && (sends(send) matches RequestPayload::SendFile {
            port: p,
            file_path,
            protocol: t,
        } && p@ == port@ && file_path@ == file@ && t == protocol),
        recv matches Ok(RemoteStep::Request { announce: Some(m), .. }) && m@
            == "Waiting to receive a file from "@ + port@ + " into '"@ + file@ + "' using "@
            + crate::engine::transfer::protocol_label(protocol) + "...\n"@ && (
        sends(recv) matches RequestPayload::ReceiveFile { port: p, output_dir, protocol: t } && p@
            == port@ && output_dir@ == file@ && t == protocol),
        export matches Ok(RemoteStep::Request { .. }) && sends(export) == (RequestPayload::Export {
            port,
            output_path: file,
            file_format: Some(format),
            start_line: start,
            end_line: end,
        }),
        flash matches Ok(RemoteStep::Request { announce: Some(m), pending, .. }) && m@
            == "Flashing firmware "@ + file@ + " to "@ + port@ + "...\n"@ && (
        sends(flash) matches RequestPayload::EspFlash { port: p, firmware_path, baud: b } && p@
            == port@ && firmware_path@ == file@ && b == baud) && (
        pending matches Pending::Flash { port: q, monitor: f } && q@ == port@ && f == monitor),
{
}

/// A port is followed from the line behind the last that was printed, five hundred
/// lines at a time.
pub proof fn following_goes_on_behind(
    port: &str,
    last_id: i64,
    window: ReadWindow,
    page: &LinesPage,
    first: RequestPayload,
    next: RequestPayload,
    id: i64,
)
    requires
        handlers::starts_following(port, window, first),
        handlers::goes_on_following(port, last_id, next),
        handlers::followed_to(last_id, page, id),
    ensures
        first matches RequestPayload::ReadLines { port: p, window: w } && p@ == port@ && w.tail
            == Some(
            match window.tail {
                Some(t) => t,
                None => 20,
            },
        ) && w.limit == window.limit && w.start_id is None && w.after_id is None && w.since_ns
            is None && w.wait_ms is None,
        next matches RequestPayload::ReadLines { port: p, window: w } && p@ == port@ && w.after_id
            == Some(last_id) && w.limit == Some(500u32) && w.start_id is None && w.tail is None
            && w.since_ns is None && w.wait_ms is None,
        page.lines@.len() > 0 ==> id == page.next_after_id,
        page.lines@.len() == 0 ==> id == last_id,
{
}

// ---------------------------------------------------------------------------
// Answers
// ---------------------------------------------------------------------------

/// What was done with a port is printed with its name; lines and figures are
/// printed as text or handed on, as asked.
pub proof fn answers_on_ports_are_printed(
    name: String,
    summary: String,
    page: LinesPage,
    outcome: SearchOutcome,
    state: ConnectionState,
    stats: BufferStats,
    timestamps: bool,
    json: bool,
    open: Result<Rendered, ResponsePayload>,
    again: Result<Rendered, ResponsePayload>,
    close: Result<Rendered, ResponsePayload>,
    read: Result<Rendered, ResponsePayload>,
    follow: Result<Rendered, ResponsePayload>,
    found: Result<Rendered, ResponsePayload>,
    figures: Result<Rendered, ResponsePayload>,
)
    requires
        handlers::ends(
            Pending::Open,
            ResponsePayload::PortOpened { name, config_summary: summary },
            open,
        ),
        handlers::ends(
            Pending::Open,
            ResponsePayload::PortReconfigured { name, config_summary: summary },
            again,
        ),
        handlers::ends(Pending::Close, ResponsePayload::PortClosed { name }, close),
        handlers::ends(Pending::Read { timestamps, json }, ResponsePayload::Lines(page), read),
        handlers::ends(
            Pending::Follow { port: name, timestamps, json },
            ResponsePayload::Lines(page),
            follow,
        ),
        handlers::ends(Pending::Search { json }, ResponsePayload::SearchResults(outcome), found),
        handlers::ends(
            Pending::Stats { json },
            ResponsePayload::Status { name, state, stats },
            figures,
        ),
    ensures
        open matches Ok(Rendered::Text(t)) && t@ == "Opened "@ + name@ + " ("@ + summary@ + ")\n"@,
        again matches Ok(Rendered::Text(t)) && t@ == "Reconfigured "@ + name@ + " ("@ + summary@
            + ")\n"@,
        close matches Ok(Rendered::Text(t)) && t@ == "Closed "@ + name@ + "\n"@,
        json ==> read == Ok::<Rendered, ResponsePayload>(Rendered::JsonLines(page.lines)),
        !json ==> (read matches Ok(Rendered::Text(t)) && output::shows_lines(
            page.lines@,
            timestamps,
            t@,
        )),
        follow matches Ok(
            Rendered::Follow { port: p, lines, last_id, timestamps: s, json: j },
        ) && p == name && lines == page.lines && last_id == page.next_after_id && s == timestamps
            && j == json,
        json ==> found == Ok::<Rendered, ResponsePayload>(Rendered::JsonSearch(outcome)),
        !json ==> (found matches Ok(Rendered::Text(t)) && t@ == output::search_block(
            outcome.results@,
            outcome.truncated,
        )),
        json ==> (figures matches Ok(Rendered::JsonStatus { port: p, state: s, stats: b }) && p@
            == name@ && s@ == output::state_text(state) && b == stats),
        !json ==> (figures matches Ok(Rendered::Text(t)) && t@ == output::status_block(
            name@,
            state,
            stats,
        )),
{
}

/// What was done with the device is printed, counted and named.
pub proof fn answers_on_devices_are_printed(
    port: String,
    name: String,
    bytes: usize,
    ms: u64,
    steps: Vec<String>,
    n: u64,
    path: String,
    write: Result<Rendered, ResponsePayload>,
    pulse: Result<Rendered, ResponsePayload>,
    signal: Result<Rendered, ResponsePayload>,
    run: Result<Rendered, ResponsePayload>,
    clear: Result<Rendered, ResponsePayload>,
    archived: Result<Rendered, ResponsePayload>,
)
    requires
        handlers::ends(
            Pending::Write { port },
            ResponsePayload::WriteSuccess { bytes_written: bytes },
            write,
        ),
        handlers::ends(
            Pending::Break { port },
            ResponsePayload::BreakSuccess { duration_ms: ms },
            pulse,
        ),
        handlers::ends(
            Pending::Signal { port },
            ResponsePayload::SignalSuccess { applied: steps },
            signal,
        ),
        handlers::ends(
            Pending::Macro { port, name },
            ResponsePayload::MacroSuccess { executed_steps: steps },
            run,
        ),
        handlers::ends(
            Pending::Clear { port },
            ResponsePayload::ClearSuccess { lines_cleared: n, archive_path: None },
            clear,
        ),
        handlers::ends(
            Pending::Clear { port },
            ResponsePayload::ClearSuccess { lines_cleared: n, archive_path: Some(path) },
            archived,
        ),
    ensures
        write matches Ok(Rendered::Text(t)) && t@ == "Wrote "@ + text::dec_nat(bytes as nat)
            + " bytes to "@ + port@ + "\n"@,
        pulse matches Ok(Rendered::Text(t)) && t@ == "Sent serial BREAK pulse ("@ + text::dec_nat(
            ms as nat,
        ) + "ms) on "@ + port@ + "\n"@,
        signal matches Ok(Rendered::Text(t)) && t@ == "Set "@ + text::joined(
            text::texts(steps@),
            ", "@,
        ) + " on "@ + port@ + "\n"@,
        run matches Ok(Rendered::Text(t)) && t@ == "Executed macro '"@ + name@ + "' on "@ + port@
            + " ("@ + text::dec_nat(steps@.len()) + " steps: "@ + text::joined(
            text::texts(steps@),
            " → "@,
        ) + ")\n"@,
        clear matches Ok(Rendered::Text(t)) && t@ == "Cleared buffer on "@ + port@ + " ("@
            + text::dec_nat(n as nat) + " lines removed)\n"@,
        archived matches Ok(Rendered::Text(t)) && t@ == "Cleared buffer on "@ + port@ + " ("@
            + text::dec_nat(n as nat) + (" lines archived to "@ + path@ + ")\n"@),
{
}

/// What was done with files is printed, counted and named; after flashing the
/// port is followed where that was asked for.
pub proof fn answers_on_files_are_printed(
    port: String,
    n: u64,
    file_name: String,
    protocol: FileTransferProtocol,
    path: String,
    format: ExportFormat,
    said: String,
    send: Result<Rendered, ResponsePayload>,
    recv: Result<Rendered, ResponsePayload>,
    exported: Result<Rendered, ResponsePayload>,
    flash: Result<Rendered, ResponsePayload>,
    follow: Result<Rendered, ResponsePayload>,
)
    requires
        handlers::ends(
            Pending::Send,
            ResponsePayload::TransferSuccess {
                bytes_transferred: n,
                file_name,
                protocol,
                path: Some(path),
            },
            send,
        ),
        handlers::ends(
            Pending::Recv,
            ResponsePayload::TransferSuccess {
                bytes_transferred: n,
                file_name,
                protocol,
                path: Some(path),
            },
            recv,
        ),
        handlers::ends(
            Pending::Export,
            ResponsePayload::ExportSuccess { lines_exported: n, path, file_format: format },
            exported,
        ),
        handlers::ends(
            Pending::Flash { port, monitor: false },
            ResponsePayload::EspSuccess(said),
            flash,
        ),
        handlers::ends(
            Pending::Flash { port, monitor: true },
            ResponsePayload::EspSuccess(said),
            follow,
        ),
    ensures
        send matches Ok(Rendered::Text(t)) && t@ == "Sent "@ + text::dec_nat(n as nat)
            + " bytes ("@ + file_name@ + ") via "@ + crate::engine::transfer::protocol_label(
            protocol,
        ) + "\n"@,
        recv matches Ok(Rendered::Text(t)) && t@ == "Received "@ + text::dec_nat(n as nat)
            + " bytes into '"@ + path@ + "'\n"@,
        exported matches Ok(Rendered::Text(t)) && t@ == "Exported "@ + text::dec_nat(n as nat)
            + " lines to "@ + path@ + " (format: "@ + format.name() + ")\n"@,
        flash matches Ok(Rendered::Text(t)) && t@ == said@,
        follow matches Ok(Rendered::ThenFollow { text: t, port: p }) && p@ == port@ && t@ == said@
            + "\n━━━ Following serial output (Ctrl+C to exit) ━━━\n\n"@,
{
}

/// An answer that fits no command is handed back, and told.
pub proof fn odd_answers_are_told(
    pending: Pending,
    r: Result<Rendered, ResponsePayload>,
    written: &str,
    e: CliError,
)
    requires
        !(pending is List),
        handlers::ends(pending, ResponsePayload::Pong, r),
        handlers::tells_unexpected(written, e),
    ensures
        r matches Err(ResponsePayload::Pong),
        e.message() == "unexpected response from daemon: "@ + written@,
{
}

/// The list is printed with the daemon or without it.
pub proof fn the_list_is_finished(
    ports: Vec<PortInfoResponse>,
    hardware: Vec<String>,
    e: IpcError,
    listed: Result<Rendered, ResponsePayload>,
    alone: Result<Rendered, ResponsePayload>,
    written: Result<Rendered, ResponsePayload>,
    bare: Result<Rendered, ResponsePayload>,
)
    requires
        handlers::ends_list(Ok(ResponsePayload::PortList(ports)), hardware, false, listed),
        handlers::ends_list(Err(e), hardware, false, alone),
        handlers::ends_list(Ok(ResponsePayload::PortList(ports)), hardware, true, written),
        handlers::ends_list(Err(e), hardware, true, bare),
    ensures
        listed matches Ok(Rendered::Text(t)) && t@ == output::port_list(Some(ports@), hardware@),
        alone matches Ok(Rendered::Text(t)) && t@ == output::port_list(None, hardware@),
        written matches Ok(Rendered::JsonPorts { managed: Some(m), hardware: h }) && m == ports && h
            == hardware,
        bare matches Ok(Rendered::JsonPorts { managed: None, hardware: h }) && h == hardware,
{
}

/// Whether the daemon runs, and whether it was stopped, is told.
pub proof fn the_daemon_is_told(
    endpoint: &str,
    up: String,
    down: String,
    source: String,
    address: String,
    stopped: Result<String, CliError>,
    absent: Result<String, CliError>,
    timeout: Result<String, CliError>,
    ms: u64,
)
    requires
        handlers::tells_daemon(true, endpoint, up),
        handlers::tells_daemon(false, endpoint, down),
        handlers::tells_stopped(Ok(ResponsePayload::ShutdownAck), stopped),
        handlers::tells_stopped(Err(IpcError::Connect { endpoint: address, source }), absent),
        handlers::tells_stopped(Err(IpcError::Timeout(ms)), timeout),
    ensures
        up@ == "Daemon is "@ + "RUNNING"@ + " (endpoint: "@ + endpoint@ + ")\n"@,
        down@ == "Daemon is "@ + "STOPPED"@ + " (endpoint: "@ + endpoint@ + ")\n"@,
        stopped matches Ok(t) && t@ == "Daemon shutdown requested.\n"@,
        absent matches Ok(t) && t@ == "Daemon is not running.\n"@,
        timeout == Err::<String, CliError>(CliError::Ipc(IpcError::Timeout(ms))),
{
}

/// What is wrong is told in the words of what was wrong.
pub proof fn faults_are_printed(m: String, e: IpcError, p: ParamError, c: crate::config::ConfigError)
    ensures
        (CliError::Message(m)).message() == m@,
        (CliError::Io(m)).message() == m@,
        (CliError::Json(m)).message() == m@,
        (CliError::Ipc(e)).message() == e.message(),
        (CliError::Params(p)).message() == p.message(),
        (CliError::Config(c)).message() == c.message(),
{
}

} // verus!
