//! What happens to ports, and which devices are offered.
use vstd::prelude::*;
use vstd::string::*;

use crate::config::PortConfig;
use crate::esp;
use crate::export;
use crate::export::ExportFormat;
use crate::json;
use crate::platform;
use crate::platform::{EditState, MenuRequest, NativeApp, Platform, TextFocus};
use crate::port_manager;
use crate::port_manager::{DeviceNodes, ManagedPort, PortCommand, PortManagerError, PortStep};
use crate::storage::StoredLine;
use crate::text;

verus! {

// ---------------------------------------------------------------------------
// The table of ports
// ---------------------------------------------------------------------------

/// A port is opened where it is not open, and stands in the table with its
/// settings once that has worked.
pub proof fn opening_adds_a_port(
    ports: Map<Seq<char>, ManagedPort>,
    listed: Seq<Seq<char>>,
    name: String,
    config: PortConfig,
    data_dir: String,
    r: PortStep,
    m: PortStep,
)
    requires
        port_manager::is_next(ports, listed, PortCommand::OpenReal { name, config, data_dir }, r),
        port_manager::is_next(ports, listed, PortCommand::OpenMock { name, config }, m),
    ensures
        ({
            let device = PortCommand::OpenReal { name, config, data_dir };
            let mock = PortCommand::OpenMock { name, config };
            let after = port_manager::table_settled(ports, device, true);
            let fed = port_manager::table_settled(ports, mock, true);
            if ports.contains_key(name@) {
                &&& r matches PortStep::Refuse(PortManagerError::AlreadyManaged(p)) && p@ == name@
                &&& m matches PortStep::Refuse(PortManagerError::AlreadyManaged(p)) && p@ == name@
                &&& after == ports && fed == ports
            } else {
                &&& r is OpenSerial && m is StartReader
                &&& after.contains_key(name@) && after[name@].config == config
                    && after[name@].hardware
                &&& fed.contains_key(name@) && fed[name@].config == config && !fed[name@].hardware
                &&& port_manager::table_settled(ports, device, false) == ports
            }
        }),
{
}

/// A port is closed where it is open, leaves the table and gives back its
/// settings.
pub proof fn closing_removes_a_port(
    ports: Map<Seq<char>, ManagedPort>,
    listed: Seq<Seq<char>>,
    name: String,
    r: PortStep,
    s: PortStep,
)
    requires
        port_manager::is_next(ports, listed, PortCommand::Close { name }, r),
        port_manager::is_next(ports, listed, PortCommand::CloseWithConfig { name }, s),
    ensures
        ports.contains_key(name@) ==> {
            &&& r == PortStep::StopReader(ports[name@].config) && s == r
            &&& !port_manager::table_settled(
                ports,
                PortCommand::Close { name },
                true,
            ).contains_key(name@)
            &&& !port_manager::table_settled(
                ports,
                PortCommand::CloseWithConfig { name },
                true,
            ).contains_key(name@)
        },
        !ports.contains_key(name@) ==> (r matches PortStep::Refuse(PortManagerError::NotFound(p))
            && p@ == name@) && (s matches PortStep::Refuse(PortManagerError::NotFound(p)) && p@
            == name@),
{
}

/// What is asked of a port is answered from that port; its device is handed out,
/// written and set up only where it has one.
pub proof fn ports_answer_for_themselves(
    ports: Map<Seq<char>, ManagedPort>,
    listed: Seq<Seq<char>>,
    cmd: PortCommand,
    name: String,
    r: PortStep,
)
    requires
        port_manager::is_next(ports, listed, cmd, r),
        cmd.subject() == name@,
        !(cmd is List),
        !(cmd is OpenReal),
        !(cmd is OpenMock),
    ensures
        !ports.contains_key(name@) ==> (r matches PortStep::Refuse(PortManagerError::NotFound(p))
            && p@ == name@),
        ports.contains_key(name@) ==> match cmd {
            PortCommand::GetState { .. } => r is ReadState,
            PortCommand::GetConfig { .. } => r == PortStep::Config(ports[name@].config),
            PortCommand::GetStorage { .. } => r is HandStorage,
            PortCommand::GetSerialPort { .. } => if ports[name@].hardware {
                r is HandSerialPort
            } else {
                r matches PortStep::Refuse(PortManagerError::NoHardware(p)) && p@ == name@
            },
            PortCommand::Write { .. } => if ports[name@].hardware {
                r is WriteBytes
            } else {
                r matches PortStep::Refuse(PortManagerError::NoHardware(p)) && p@ == name@
            },
            PortCommand::Reconfigure { .. } => if ports[name@].hardware {
                r is ApplySettings
            } else {
                r matches PortStep::Refuse(PortManagerError::NoHardware(p)) && p@ == name@
            },
            _ => r == PortStep::StopReader(ports[name@].config),
        },
{
    reveal_strlit("' not found");
    reveal_strlit("' has no hardware handle (mock port)");
    assert("' not found"@.len() != "' has no hardware handle (mock port)"@.len());
    let near = "port '"@ + name@ + "' not found"@;
    let far = "port '"@ + name@ + "' has no hardware handle (mock port)"@;
    assert(near.len() != far.len());
}

/// Settings that were applied are the settings of the port from then on; those
/// that were not leave it as it was.
pub proof fn settings_are_kept(
    ports: Map<Seq<char>, ManagedPort>,
    name: String,
    config: PortConfig,
)
    requires
        ports.contains_key(name@),
        ports[name@].hardware,
    ensures
        ({
            let cmd = PortCommand::Reconfigure { name, config };
            let after = port_manager::table_settled(ports, cmd, true);
            &&& after[name@].config == config && after[name@].hardware
            &&& port_manager::table_settled(ports, cmd, false) == ports
        }),
{
}

/// Every command is about the port it names, and changes no table beyond opening,
/// closing and setting up.
pub proof fn commands_are_about_their_port(
    ports: Map<Seq<char>, ManagedPort>,
    cmd: PortCommand,
    done: bool,
)
    ensures
        match cmd {
            PortCommand::OpenReal { name, .. } => cmd.subject() == name@,
            PortCommand::OpenMock { name, .. } => cmd.subject() == name@,
            PortCommand::Close { name } => cmd.subject() == name@,
            PortCommand::CloseWithConfig { name } => cmd.subject() == name@,
            PortCommand::List => true,
            PortCommand::GetState { name } => cmd.subject() == name@,
            PortCommand::GetConfig { name } => cmd.subject() == name@,
            PortCommand::GetStorage { name } => cmd.subject() == name@,
            PortCommand::GetSerialPort { name } => cmd.subject() == name@,
            PortCommand::Write { name, .. } => cmd.subject() == name@,
            PortCommand::Reconfigure { name, .. } => cmd.subject() == name@,
        },
        !(cmd is OpenReal || cmd is OpenMock || cmd is Close || cmd is CloseWithConfig
            || cmd is Reconfigure) ==> port_manager::table_settled(ports, cmd, done) == ports,
        port_manager::refusal(ports, PortCommand::List) is None,
{
}

/// The lines of a device that was opened go to the file named after it; what the
/// device says of a failure is passed on.
pub proof fn devices_are_opened(
    name: &str,
    dir: &str,
    e: String,
    done: Result<String, PortManagerError>,
    failed: Result<String, PortManagerError>,
    sent: Result<(), PortManagerError>,
    unsent: Result<(), PortManagerError>,
)
    requires
        port_manager::answers_open(name, dir, Ok(()), done),
        port_manager::answers_open(name, dir, Err(e), failed),
        port_manager::answers_write(Ok(()), sent),
        port_manager::answers_write(Err(e), unsent),
    ensures
        done matches Ok(p) && p@ == crate::paths::db_path(dir@, name@),
        failed matches Err(f) && f.message() == "serial port error: "@ + e@,
        sent is Ok,
        unsent matches Err(f) && f.message() == "serial port error: "@ + e@,
{
}

/// What is wrong with a port is told with its name.
pub proof fn faults_of_ports_are_told(p: String)
    ensures
        (PortManagerError::NotFound(p)).message() == "port '"@ + p@ + "' not found"@,
        (PortManagerError::AlreadyManaged(p)).message() == "port '"@ + p@ + "' already managed"@,
        (PortManagerError::Serial(p)).message() == "serial port error: "@ + p@,
        (PortManagerError::NoHardware(p)).message() == "port '"@ + p@
            + "' has no hardware handle (mock port)"@,
        (PortManagerError::Unavailable).message() == "port manager is not running"@,
        (PortManagerError::Storage(p)).message() == "storage error: "@ + p@,
{
}

// ---------------------------------------------------------------------------
// Devices
// ---------------------------------------------------------------------------

/// Where a device has two nodes, the dial-in node stands for the callout node of
/// the same name; every other node stands for itself.
pub proof fn nodes_of_one_device(name: Seq<char>, port: Seq<char>)
    ensures
        port_manager::canonical("/dev/tty."@ + name, DeviceNodes::Twin) == "/dev/cu."@ + name,
        port_manager::canonical("/dev/cu."@ + name, DeviceNodes::Twin) == "/dev/cu."@ + name,
        port_manager::canonical(port, DeviceNodes::Single) == port,
        !text::begins_with(port, "/dev/tty."@) ==> port_manager::canonical(port, DeviceNodes::Twin)
            == port,
{
    reveal_strlit("/dev/tty.");
    reveal_strlit("/dev/cu.");
    let tty = "/dev/tty."@;
    let cu = "/dev/cu."@;
    assert((tty + name).take(tty.len() as int) =~= tty);
    assert((tty + name).skip(tty.len() as int) =~= name);
    if text::begins_with(cu + name, tty) {
        assert((cu + name).take(tty.len() as int)[5] == 'c');
        assert(tty[5] == 't');
    }
}

/// A device is offered once: its dial-in node is left out where its callout node
/// is there too, and nothing else is.
pub proof fn twins_are_offered_once(ports: Seq<Seq<char>>, port: Seq<char>, all: Seq<Seq<char>>)
    ensures
        port_manager::deduped(Seq::empty(), all, DeviceNodes::Twin).len() == 0,
        ({
            let twin = text::begins_with(port, "/dev/tty."@) && all.contains(
                "/dev/cu."@ + port.skip(9),
            );
            port_manager::deduped(ports.push(port), all, DeviceNodes::Twin) == (if twin {
                port_manager::deduped(ports, all, DeviceNodes::Twin)
            } else {
                port_manager::deduped(ports, all, DeviceNodes::Twin).push(port)
            })
        }),
        port_manager::deduped(ports.push(port), all, DeviceNodes::Single) == port_manager::deduped(
            ports,
            all,
            DeviceNodes::Single,
        ).push(port),
{
    reveal_strlit("/dev/tty.");
    reveal_strlit("/dev/cu.");
    assert("/dev/tty."@.len() == 9);
    assert(ports.push(port).drop_last() =~= ports);
    if text::begins_with(port, "/dev/tty."@) {
        let name = port.skip(9);
        assert(port =~= "/dev/tty."@ + name);
        assert(("/dev/cu."@ + name)[5] == 'c');
        assert(port[5] == "/dev/tty."@[5]);
    }
}

/// A device is one of USB where its name says so, in whatever case; such come
/// first, and beyond that names stand in their order.
pub proof fn usb_comes_first(a: Seq<char>, b: Seq<char>)
    ensures
        port_manager::is_usb(a) <==> text::occurs_in(text::lower(a), "usb"@) || text::occurs_in(
            text::lower(a),
            "acm"@,
        ),
        port_manager::is_usb(a) && !port_manager::is_usb(b) ==> port_manager::port_before(a, b)
            && !port_manager::port_before(b, a),
        port_manager::is_usb(a) == port_manager::is_usb(b) ==> port_manager::port_before(a, b)
            == text::at_or_before(a, b),
{
}

// ---------------------------------------------------------------------------
// The flash tool
// ---------------------------------------------------------------------------

/// The tool is asked by name for the port and the file, and the file is never
/// taken for an option.
pub proof fn the_tool_is_asked(
    port: &str,
    file: &str,
    address: &str,
    baud: u32,
    board: Vec<String>,
    erase: Vec<String>,
    write: Vec<String>,
)
    requires
        esp::asks_board(port, board),
        esp::asks_erase(port, erase),
        esp::asks_write(port, file, address, write),
    ensures
        esp::ESPFLASH@ == "espflash"@,
        esp::flash_args(port@, file@, None) == seq!["flash"@, "--port"@, port@, "--"@, file@],
        esp::flash_args(port@, file@, Some(baud)) == seq![
            "flash"@,
            "--port"@,
            port@,
            "--baud"@,
            text::dec_nat(baud as nat),
            "--"@,
            file@,
        ],
        text::texts(board@) == seq!["board-info"@, "--port"@, port@],
        text::texts(erase@) == seq!["erase-flash"@, "--port"@, port@],
        text::texts(write@) == seq!["write-bin"@, "--port"@, port@, "--"@, address@, file@],
{
    assert(esp::flash_args(port@, file@, None) =~= seq![
        "flash"@,
        "--port"@,
        port@,
        "--"@,
        file@,
    ]);
    assert(esp::flash_args(port@, file@, Some(baud)) =~= seq![
        "flash"@,
        "--port"@,
        port@,
        "--baud"@,
        text::dec_nat(baud as nat),
        "--"@,
        file@,
    ]);
}

/// What the tool writes is passed on line by line: a line ends at a line feed or
/// a carriage return, loses its trailing blanks and is left out where nothing
/// remains.
pub proof fn lines_of_the_tool_are_passed_on(pending: Seq<u8>, chunk: Seq<u8>, b: u8)
    ensures
        esp::lines_in(pending, Seq::empty()).len() == 0,
        esp::left_after(pending, Seq::empty()) == pending,
        b != 10 && b != 13 ==> {
            &&& esp::lines_in(pending, chunk.push(b)) == esp::lines_in(pending, chunk)
            &&& esp::left_after(pending, chunk.push(b)) == esp::left_after(pending, chunk).push(b)
        },
        b == 10 || b == 13 ==> {
            let t = text::trim_end(text::utf8_lossy(esp::left_after(pending, chunk)));
            &&& esp::left_after(pending, chunk.push(b)).len() == 0
            &&& t.len() > 0 ==> esp::lines_in(pending, chunk.push(b)) == esp::lines_in(
                pending,
                chunk,
            ).push(t)
            &&& t.len() == 0 ==> esp::lines_in(pending, chunk.push(b)) == esp::lines_in(
                pending,
                chunk,
            )
        },
{
    assert(chunk.push(b).drop_last() =~= chunk);
}

/// A run that worked is told by what the tool wrote, its own output first; one
/// that failed by its complaints first, or by its status where it said nothing.
pub proof fn runs_of_the_tool_are_told(
    out: &[u8],
    err: &[u8],
    status: &str,
    good: Result<String, String>,
    bad: Result<String, String>,
)
    requires
        esp::tells_run(true, out, err, status, good),
        esp::tells_run(false, out, err, status, bad),
    ensures
        ({
            let o = text::utf8_lossy(out@);
            let e = text::utf8_lossy(err@);
            let no_o = text::trimmed(o).len() == 0;
            let no_e = text::trimmed(e).len() == 0;
            &&& good matches Ok(m) && m@ == (if no_o {
                e
            } else if no_e {
                o
            } else {
                o + "\n"@ + e
            })
            &&& no_o && no_e ==> (bad matches Err(m) && m@ == "espflash exited with status "@
                + status@)
            &&& no_e && !no_o ==> (bad matches Err(m) && m@ == o)
            &&& no_o && !no_e ==> (bad matches Err(m) && m@ == e)
            &&& bad is Err
        }),
{
}

/// What is said where the tool does not start or cannot be waited for.
pub proof fn a_missing_tool_is_told(e: &str, a: String, b: String)
    requires
        esp::tells_no_start(e, a),
        esp::tells_no_end(e, b),
    ensures
        a@ == "failed to run espflash: "@ + e@,
        b@ == "failed to wait for espflash: "@ + e@,
{
}

// ---------------------------------------------------------------------------
// Exported lines
// ---------------------------------------------------------------------------

/// Lines are exported in order, each in a line of its own, below a heading where
/// the format has one.
pub proof fn lines_are_exported_in_order(
    lines: Seq<StoredLine>,
    line: StoredLine,
    format: ExportFormat,
)
    ensures
        export::lines_text(Seq::empty(), format).len() == 0,
        export::lines_text(lines.push(line), format) == export::lines_text(lines, format)
            + export::line_text(line, format),
        export::header_text(ExportFormat::Csv) == "id,timestamp,timestamp_ns,payload\n"@,
        export::header_text(ExportFormat::Txt).len() == 0,
        export::header_text(ExportFormat::Jsonl).len() == 0,
{
    assert(lines.push(line).drop_last() =~= lines);
}

/// As text a line is its payload alone; in a table it has its number, its time
/// twice and its payload in quotes; as a record it has the same under names.
pub proof fn a_line_is_exported_whole(line: StoredLine)
    ensures
        export::line_text(line, ExportFormat::Txt) == line.payload@.push('\n'),
        export::line_text(line, ExportFormat::Csv) == text::dec_int(line.id as int) + seq![',']
            + export::record_time(line.timestamp_ns) + seq![','] + text::dec_int(
            line.timestamp_ns as int,
        ) + seq![',', '"'] + export::doubled_quotes(line.payload@) + seq!['"', '\n'],
        export::line_text(line, ExportFormat::Jsonl) == "{\"id\":"@ + text::dec_int(line.id as int)
            + ",\"payload\":"@ + json::json_text(line.payload@) + ",\"timestamp\":"@
            + json::json_text(export::record_time(line.timestamp_ns)) + ",\"timestamp_ns\":\""@
            + text::dec_int(line.timestamp_ns as int) + "\"}\n"@,
{
    reveal_strlit("\n");
    reveal_strlit(",");
    reveal_strlit(",\"");
    reveal_strlit("\"\n");
    assert(export::line_text(line, ExportFormat::Txt) =~= line.payload@.push('\n'));
    assert(","@ =~= seq![',']);
    assert(",\""@ =~= seq![',', '"']);
    assert("\"\n"@ =~= seq!['"', '\n']);
    reveal_strlit("}");
    reveal_strlit("\"}\n");
    reveal_strlit(",\"timestamp_ns\":");
    reveal_strlit(",\"timestamp_ns\":\"");
    let n = text::dec_int(line.timestamp_ns as int);
    numbers_need_no_escape(line.timestamp_ns as int);
    assert(json::json_chars(n) == n);
    let front = "{\"id\":"@ + text::dec_int(line.id as int) + ",\"payload\":"@ + json::json_text(
        line.payload@,
    ) + ",\"timestamp\":"@ + json::json_text(export::record_time(line.timestamp_ns));
    assert(",\"timestamp_ns\":\""@ =~= ",\"timestamp_ns\":"@ + seq!['"']);
    assert("\"}\n"@ =~= seq!['"'] + "}"@ + "\n"@);
    assert(export::line_text(line, ExportFormat::Jsonl) =~= front + ",\"timestamp_ns\":\""@ + n
        + "\"}\n"@);
}

/// The digits of a number stand for themselves in JSON.
proof fn numbers_need_no_escape(n: int)
    ensures
        json::json_chars(text::dec_int(n)) == text::dec_int(n),
{
    let m = if n < 0 {
        (-n) as nat
    } else {
        n as nat
    };
    text::lemma_dec_nat(m);
    let s = text::dec_int(n);
    assert forall|i: int| 0 <= i < s.len() implies s[i] == '-' || '0' <= #[trigger] s[i] <= '9' by {
        if n < 0 && i > 0 {
            assert(text::is_digit(text::dec_nat(m)[i - 1]));
        } else if n >= 0 {
            assert(text::is_digit(text::dec_nat(m)[i]));
        }
    }
    plain_needs_no_escape(s);
}

/// Digits and minus signs stand for themselves in JSON.
proof fn plain_needs_no_escape(s: Seq<char>)
    requires
        forall|i: int| 0 <= i < s.len() ==> s[i] == '-' || '0' <= #[trigger] s[i] <= '9',
    ensures
        json::json_chars(s) == s,
    decreases s.len(),
{
    if s.len() > 0 {
        plain_needs_no_escape(s.drop_last());
        assert(json::json_chars(s) =~= s);
    }
}

/// In a table every quote is written twice, and nothing else changes.
pub proof fn quotes_are_doubled(s: Seq<char>, c: char)
    ensures
        export::doubled_quotes(Seq::empty()).len() == 0,
        c == '"' ==> export::doubled_quotes(s.push(c)) == export::doubled_quotes(s) + seq!['"', '"'],
        c != '"' ==> export::doubled_quotes(s.push(c)) == export::doubled_quotes(s).push(c),
{
    assert(s.push(c).drop_last() =~= s);
    if c == '"' {
        assert(export::doubled_quotes(s.push(c)) =~= export::doubled_quotes(s) + seq!['"', '"']);
    }
}

// ---------------------------------------------------------------------------
// The platform
// ---------------------------------------------------------------------------

/// Menus of the system are there on macOS alone, and so are their clipboard and
/// their requests.
pub proof fn menus_are_of_macos(
    app: NativeApp,
    request: MenuRequest,
    read: Option<String>,
    r: Option<String>,
)
    requires
        platform::pastes(app.platform, read, r),
    ensures
        platform::native(Platform::MacOs),
        !platform::native(Platform::Linux) && !platform::native(Platform::Windows),
        !platform::native(Platform::OtherUnix) && !platform::native(Platform::Other),
        r == (if app.platform is MacOs {
            read
        } else {
            None
        }),
        app.chosen(request) == (if app.platform is MacOs {
            app.with(request, true)
        } else {
            app
        }),
        app.with(MenuRequest::Export, true).export,
        app.with(MenuRequest::OpenPort, true).open_port,
        app.with(MenuRequest::PortSettings, true).port_settings,
        app.with(MenuRequest::ToggleConnect, true).toggle_connect,
        app.waits(MenuRequest::Export) == app.export,
        app.waits(MenuRequest::OpenPort) == app.open_port,
        app.waits(MenuRequest::PortSettings) == app.port_settings,
        app.waits(MenuRequest::ToggleConnect) == app.toggle_connect,
{
}

/// What can be edited is said of the text that is being written, and of the lines
/// beside it.
pub proof fn editing_follows_the_focus(
    focus: Option<TextFocus>,
    not_empty: bool,
    selection: bool,
    r: EditState,
)
    requires
        platform::edits(focus, not_empty, selection, r),
    ensures
        r.text_focused <==> focus is Some,
        focus matches Some(f) ==> r.text_selection == f.selection && r.text_not_empty == f.not_empty
            && r.can_undo == f.not_empty,
        focus is None ==> !r.text_selection && !r.text_not_empty && !r.can_undo,
        r.buffer_not_empty == not_empty,
        r.buffer_selection == selection,
        !r.can_redo,
{
}

} // verus!
