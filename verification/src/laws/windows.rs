//! What windows show and do.
use vstd::prelude::*;
use vstd::string::*;

use crate::clock;
use crate::config::PortConfig;
use crate::export;
use crate::export::ExportFormat;
use crate::gui_ipc::{GuiCommand, MonitorEvent, OpenPortRequest};
use crate::hex;
use crate::hex::HexError;
use crate::monitor;
use crate::monitor::buffer;
use crate::monitor::buffer::{BufferView, DisplayLine};
use crate::monitor::dialog;
use crate::monitor::dialog::{
    ButtonInput, DialogAction, MacosDialogButtons, PortConfigDialogState, PortForm,
};
use crate::monitor::export_form;
use crate::monitor::export_form::{ExportForm, ExportQuery};
use crate::monitor::history::HistoryView;
use crate::monitor::text_menu;
use crate::monitor::text_menu::TextChoice;
use crate::monitor::transfer_form::TransferForm;
use crate::monitor::windows;
use crate::monitor::windows::{ConnectStep, Window, WindowStep};
use crate::monitor::{LineColor, LineEnding, PortMonitorState, Reconfiguration, SendStep};
use crate::paths;
use crate::pattern;
use crate::port_manager;
use crate::port_manager::DeviceNodes;
use crate::server::{DevSerialServer, ToolError};
use crate::storage::StoredLine;
use crate::text;

verus! {

// ---------------------------------------------------------------------------
// Lines
// ---------------------------------------------------------------------------

/// A window shows the last hundred thousand lines in the order in which they
/// came; a new one stands last, and the oldest goes where there are more.
pub proof fn the_last_lines_are_shown(b: BufferView, line: DisplayLine, i: int)
    requires
        b.lines.len() <= 100_000,
    ensures
        ({
            let after = b.pushed(line);
            let n = b.lines.len() as int;
            &&& n < 100_000 ==> after.lines.len() == n + 1 && (0 <= i < n ==> after.lines[i]
                == b.lines[i])
            &&& n == 100_000 ==> after.lines.len() == n && (1 <= i < n ==> after.lines[i - 1]
                == b.lines[i])
            &&& after.lines[after.lines.len() - 1] == line
            &&& after.filter == b.filter && after.filter_active == b.filter_active
            &&& b.cleared().lines.len() == 0 && b.cleared().filtered.len() == 0
            &&& b.cleared().filter == b.filter && b.cleared().filter_active == b.filter_active
        }),
{
}

/// A filter between slashes is a pattern; any other is looked for in whatever
/// case, and so is one that is no pattern.
pub proof fn filters_are_patterns_or_words(filter: Seq<char>, inner: Seq<char>, payload: Seq<char>)
    requires
        inner.len() > 0,
        filter.len() <= 2 || filter[0] != '/' || filter[filter.len() - 1] != '/',
    ensures
        ({
            let slashed = seq!['/'] + inner + seq!['/'];
            &&& pattern::pattern_fault(inner) is None ==> buffer::passes(slashed, payload)
                == pattern::pattern_hits(inner, payload)
            &&& pattern::pattern_fault(inner) is Some ==> buffer::passes(slashed, payload)
                == text::occurs_in(text::lowercase_of(payload), text::lowercase_of(slashed))
            &&& buffer::passes(filter, payload) == text::occurs_in(
                text::lowercase_of(payload),
                text::lowercase_of(filter),
            )
        }),
{
    let slashed = seq!['/'] + inner + seq!['/'];
    assert(slashed.subrange(1, slashed.len() - 1) =~= inner);
}

/// With a filter a window shows the lines that pass it, in order; without one it
/// shows all.
pub proof fn filtered_lines_are_shown(b: BufferView, filter: Seq<char>, i: int, line: DisplayLine)
    requires
        0 <= i < b.lines.len() <= 100_000,
    ensures
        filter.len() > 0 ==> b.filtered_by(filter).filter_active && b.filtered_by(filter).shown()
            == buffer::hits(b.lines, filter),
        filter.len() == 0 ==> !b.filtered_by(filter).filter_active && b.filtered_by(
            filter,
        ).shown().len() == b.lines.len() && b.filtered_by(filter).shown()[i] == i,
        b.filtered_by(filter).filter == filter && b.filtered_by(filter).lines == b.lines,
        buffer::hits(b.lines, filter).contains(i as usize) <==> buffer::passes(
            filter,
            b.lines[i].payload@,
        ),
        buffer::hits(Seq::empty(), filter).len() == 0,
        b.filter_active ==> b.refreshed() == b.rebuilt(),
        !b.filter_active ==> b.refreshed() == b,
        ({
            let before = buffer::hits(b.lines, filter);
            let after = buffer::hits(b.lines.push(line), filter);
            &&& buffer::passes(filter, line.payload@) ==> after == before.push(
                b.lines.len() as usize,
            )
            &&& !buffer::passes(filter, line.payload@) ==> after == before
        }),
{
    buffer::filter_shows_what_passes(b.lines, filter, i);
    assert(b.lines.push(line).drop_last() =~= b.lines);
}

/// Lines of the display are exported with their times and payloads, numbered from
/// one.
pub proof fn displayed_lines_are_numbered(
    lines: Seq<DisplayLine>,
    out: Seq<StoredLine>,
    i: int,
)
    requires
        buffer::numbered(lines, out),
        0 <= i < lines.len(),
    ensures
        out.len() == lines.len(),
        out[i].id == i + 1,
        out[i].payload@ == lines[i].payload@,
        out[i].timestamp_ns == lines[i].timestamp_ns,
        buffer::payloads_of(lines)[i] == lines[i].payload@,
{
}

/// A stored line is shown with its payload and its time, as one that came in.
pub proof fn stored_lines_are_shown(line: StoredLine, shown: DisplayLine)
    requires
        monitor::is_shown_as(line, shown),
    ensures
        shown.payload@ == line.payload@,
        shown.timestamp_ns == line.timestamp_ns,
        !shown.is_sent,
        clock::is_screen_time(line.timestamp_ns, shown.timestamp@),
{
    reveal(monitor::is_shown_as);
}

/// What was sent is marked; what came in is shown as it is, or as a dump of its
/// bytes.
pub proof fn lines_are_written_out(w: PortMonitorState, line: &DisplayLine, r: String)
    requires
        w.shows(line, r),
    ensures
        line.is_sent ==> r@ == ">> "@ + line.payload@,
        !line.is_sent && !w.view.hex_view ==> r@ == line.payload@,
        !line.is_sent && w.view.hex_view ==> r@ == hex::dumped(
            vstd::utf8::encode_utf8(line.payload@),
        ),
{
}

/// Lines are coloured by the worst that they say.
pub proof fn lines_are_coloured(payload: &str, r: LineColor)
    requires
        monitor::is_coloured(payload, r),
    ensures
        ({
            let error = text::occurs_in(payload@, "[ERROR]"@) || text::occurs_in(
                payload@,
                "[PANIC]"@,
            ) || text::occurs_in(payload@, "error"@);
            let warning = text::occurs_in(payload@, "[WARN]"@) || text::occurs_in(
                payload@,
                "warning"@,
            );
            &&& error <==> r is Error
            &&& !error ==> (warning <==> r is Warning)
            &&& r is Debug ==> text::occurs_in(payload@, "[DEBUG]"@)
            &&& r is Info ==> text::occurs_in(payload@, "[INFO]"@)
            &&& r is Settings ==> text::occurs_in(payload@, "RECONFIGURED"@)
            &&& r is Plain ==> !text::occurs_in(payload@, "[DEBUG]"@) && !text::occurs_in(
                payload@,
                "[INFO]"@,
            ) && !text::occurs_in(payload@, "RECONFIGURED"@)
        }),
{
}

// ---------------------------------------------------------------------------
// Reading
// ---------------------------------------------------------------------------

/// A window begins behind the lines that are there, reads five hundred at a time,
/// and goes on behind the last that it read; a paused one reads nothing.
pub proof fn windows_read_on(
    w: PortMonitorState,
    total: u64,
    begun: PortMonitorState,
    next: Option<(i64, u32)>,
    wants: bool,
    lines: &[StoredLine],
    after: PortMonitorState,
)
    requires
        w.takes_total(total, begun),
        w.reads_next(next),
        w.wants_total(wants),
        w.takes_lines(lines, after),
    ensures
        total <= i64::MAX ==> begun.link.last_id == total,
        begun.buffer == w.buffer,
        w.view.paused ==> next is None && !wants,
        !w.view.paused && w.link.last_id == i64::MAX ==> next is None && wants,
        !w.view.paused && w.link.last_id != i64::MAX ==> !wants && next == Some(
            ((w.link.last_id + 1) as i64, 500u32),
        ),
        lines@.len() > 0 ==> after.link.last_id == lines@[lines@.len() - 1].id,
        lines@.len() == 0 ==> after.buffer == w.buffer && after.link.last_id == w.link.last_id,
{
}

/// Lines that came in stand behind those that were there, each once and in
/// order.
pub proof fn lines_that_came_in_stand_behind(
    b: BufferView,
    after: BufferView,
    lines: Seq<StoredLine>,
    i: int,
)
    requires
        monitor::has_lines_more(b, after, lines),
        b.lines.len() + lines.len() <= 100_000,
        0 <= i < lines.len(),
    ensures
        after.lines.len() == b.lines.len() + lines.len(),
        after.lines[b.lines.len() + i].payload@ == lines[i].payload@,
        after.lines.take(b.lines.len() as int) == b.lines,
{
    reveal(monitor::is_shown_as);
    let shown = choose|shown: Seq<DisplayLine>|
        {
            &&& #[trigger] monitor::all_pushed(b, shown).rebuilt() == after
            &&& shown.len() == lines.len()
            &&& forall|i: int|
                0 <= i < shown.len() ==> monitor::is_shown_as(lines[i], #[trigger] shown[i])
        };
    lines_are_put_behind(b, shown);
    assert(monitor::is_shown_as(lines[i], shown[i]));
    assert((b.lines + shown).take(b.lines.len() as int) =~= b.lines);
}

/// Lines are put behind one after the other.
proof fn lines_are_put_behind(b: BufferView, shown: Seq<DisplayLine>)
    requires
        b.lines.len() + shown.len() <= 100_000,
    ensures
        monitor::all_pushed(b, shown).lines == b.lines + shown,
    decreases shown.len(),
{
    if shown.len() == 0 {
        assert(b.lines + shown =~= b.lines);
    } else {
        lines_are_put_behind(b, shown.drop_last());
        assert((b.lines + shown.drop_last()).push(shown.last()) =~= b.lines + shown);
    }
}

/// A window follows its lines at their end, and not while something is selected;
/// scrolling away from the end stops it.
pub proof fn windows_follow_their_lines(
    w: PortMonitorState,
    selecting: bool,
    at_bottom: bool,
    scrolled: bool,
    after: PortMonitorState,
)
    requires
        w.scrolls(selecting, at_bottom, scrolled, after),
    ensures
        after.view.selecting == selecting,
        selecting ==> !after.view.auto_follow,
        !selecting && at_bottom ==> after.view.auto_follow,
        !selecting && !at_bottom && scrolled ==> !after.view.auto_follow,
        !selecting && !at_bottom && !scrolled ==> after.view.auto_follow == w.view.auto_follow,
        after.buffer == w.buffer && after.link == w.link && after.view.paused == w.view.paused,
{
}

// ---------------------------------------------------------------------------
// Sending
// ---------------------------------------------------------------------------

/// A line ending is no byte, a line feed, a carriage return, or both in the order
/// of a terminal.
pub proof fn line_endings_are_bytes(r: &'static str, ending: LineEnding)
    requires
        ending.is_labelled(r),
    ensures
        (LineEnding::Bare).bytes() == Seq::<u8>::empty(),
        (LineEnding::Lf).bytes() == seq![10u8],
        (LineEnding::Cr).bytes() == seq![13u8],
        (LineEnding::CrLf).bytes() == seq![13u8, 10u8],
        ending is Bare ==> r@ == "None"@,
        ending is Lf ==> r@ == "LF"@,
        ending is CrLf ==> r@ == "CRLF"@,
        ending is Cr ==> r@ == "CR"@,
{
}

/// What is entered is sent with the line ending behind it; in hex it is sent as
/// those bytes alone.
pub proof fn what_is_entered_is_sent(input: Seq<char>, ending: LineEnding, data: Seq<u8>)
    requires
        monitor::sends(input, ending, data),
    ensures
        !hex::prefixed(input) ==> data == vstd::utf8::encode_utf8(input) + ending.bytes(),
        hex::prefixed(input) ==> hex::decodes_to(input, data),
{
    reveal(monitor::sends);
}

/// A window that owns its port writes; any other hands the bytes over in hex; what
/// is no hex is told.
pub proof fn windows_write_or_report(
    input: Seq<char>,
    ending: LineEnding,
    owns: bool,
    r: Result<SendStep, String>,
)
    requires
        monitor::prepared(input, ending, owns, r),
    ensures
        match r {
            Ok(SendStep::Write { data }) => owns && monitor::sends(input, ending, data@),
            Ok(SendStep::Report { event }) => !owns && (event matches MonitorEvent::Write { hex: h }
                && exists|data: Seq<u8>| #[trigger]
                monitor::sends(input, ending, data) && h@ == hex::encoded(data)),
            Ok(SendStep::Nothing) => false,
            Err(reason) => hex::prefixed(input) && exists|e: HexError| #[trigger]
                hex::decoding(input, Err(e)) && reason@ == e.message(),
        },
{
    reveal(monitor::prepared);
    reveal(monitor::faulty);
}

/// Nothing is sent where only blanks were entered; anything else is sent without
/// the blanks around it, and remembered.
pub proof fn input_is_sent_and_remembered(
    w: PortMonitorState,
    after: PortMonitorState,
    r: (SendStep, bool),
)
    requires
        w.sends_input(after, r),
    ensures
        ({
            let command = text::trimmed(w.input@);
            &&& command.len() == 0 ==> r.0 is Nothing && !r.1 && after.history == w.history
                && after.settings.status == w.settings.status
            &&& command.len() > 0 ==> {
                let n = w.history@.entries.len() as int;
                let new = n == 0 || w.history@.entries[n - 1] != command;
                &&& r.1 == new
                &&& after.history@.entries == (if new {
                    w.history@.entries.push(command)
                } else {
                    w.history@.entries
                })
                &&& r.0 matches SendStep::Write { data } ==> w.link.owns_port && monitor::sends(
                    command,
                    w.line_ending,
                    data@,
                )
                &&& r.0 is Report ==> !w.link.owns_port
                &&& r.0 is Nothing ==> hex::prefixed(command)
            }
            &&& after.buffer == w.buffer && after.input == w.input && after.link == w.link
        }),
{
    reveal(monitor::prepared);
    reveal(monitor::faulty);
}

/// What was sent is shown as such, without the blanks around it, and the field is
/// empty again; where the owner refused it the window says why and keeps it.
pub proof fn sent_input_is_shown(
    w: PortMonitorState,
    e: String,
    done: PortMonitorState,
    refused: PortMonitorState,
)
    requires
        w.is_sent(Ok(()), done),
        w.is_sent(Err(e), refused),
        w.buffer@.lines.len() < 100_000,
    ensures
        done.input@.len() == 0,
        done.buffer@.lines.len() == w.buffer@.lines.len() + 1,
        ({
            let last = done.buffer@.lines[done.buffer@.lines.len() - 1];
            last.payload@ == text::trimmed(w.input@) && last.is_sent
        }),
        !w.link.owns_port ==> refused.input == w.input && refused.buffer == w.buffer
            && refused.settings.status == Some((e, true)),
{
}

/// The commands that were sent come back one by one, the latest first, and then
/// the way forward to what was being written.
pub proof fn commands_come_back(h: HistoryView, input: Seq<char>)
    requires
        h.wf(),
    ensures
        h.entries.len() == 0 ==> h.back(input) == (h, input),
        h.entries.len() > 0 && h.index is None ==> h.back(input).1 == h.entries[h.entries.len() - 1]
            && h.back(input).0.draft == input && h.back(input).0.index == Some(h.entries.len() - 1),
        h.index matches Some(i) ==> (i > 0 ==> h.back(input).1 == h.entries[i - 1] && h.back(
            input,
        ).0.index == Some(i - 1)) && (i == 0 ==> h.back(input).1 == input && h.back(input).0 == h),
        h.index is None ==> h.forward(input) == (h, input),
        h.index matches Some(i) ==> (i + 1 < h.entries.len() ==> h.forward(input).1 == h.entries[i
            + 1] && h.forward(input).0.index == Some(i + 1)) && (i + 1 == h.entries.len()
            ==> h.forward(input).1 == h.draft && h.forward(input).0.index is None),
        h.back(input).0.entries == h.entries && h.forward(input).0.entries == h.entries,
{
}

// ---------------------------------------------------------------------------
// The port of a window
// ---------------------------------------------------------------------------

/// A window opens and closes its port where it may: a closed one is opened, an
/// open one closed, with the settings of the window.
pub proof fn windows_toggle_their_port(
    w: PortMonitorState,
    after: PortMonitorState,
    r: Option<(bool, PortConfig)>,
)
    requires
        w.toggles(after, r),
    ensures
        w.link.can_toggle ==> r == Some((!w.link.connected, w.settings.config)),
        !w.link.can_toggle ==> r is None && (after.settings.status matches Some((m, fault)) && fault
            && m@
            == "This window does not own the port; connect and disconnect are unavailable here."@),
        after.link == w.link && after.buffer == w.buffer,
{
}

/// A window shows that its port was opened or closed, with a line that says so, or
/// why that failed.
pub proof fn toggled_ports_are_shown(
    w: PortMonitorState,
    connect: bool,
    e: String,
    done: PortMonitorState,
    line: Option<(i64, String)>,
    failed: PortMonitorState,
    none: Option<(i64, String)>,
)
    requires
        w.is_toggled(connect, Ok(()), done, line),
        w.is_toggled(connect, Err(e), failed, none),
        w.buffer@.lines.len() < 100_000,
    ensures
        done.link.connected == connect,
        line matches Some((_, m)) && m@ == (if connect {
            "━━━ PORT CONNECTED: "@ + w.port_name@ + " ("@ + w.port_info@ + ") ━━━"@
        } else {
            "━━━ PORT DISCONNECTED: "@ + w.port_name@ + " ━━━"@
        }) && done.buffer@.lines.len() == w.buffer@.lines.len() + 1
            && done.buffer@.lines[done.buffer@.lines.len() - 1].payload@ == m@,
        none is None && failed.link.connected == w.link.connected && failed.buffer == w.buffer,
        failed.settings.status matches Some((m, fault)) && fault && m@ == (if connect {
            "Reconnect"@
        } else {
            "Disconnect"@
        }) + " failed: "@ + e@,
{
}

/// Settings that were entered are applied by the window, or by the owner of the
/// port, all of them; where neither may, that is told.
pub proof fn windows_apply_settings(
    w: PortMonitorState,
    after: PortMonitorState,
    r: Reconfiguration,
)
    requires
        w.applies(after, r),
    ensures
        ({
            let c = after.settings.config;
            &&& c.baudrate == (match dialog::entered_baud(w.settings.custom_baud@) {
                Some(v) => v,
                None => w.settings.config.baudrate,
            })
            &&& c.data_bits == w.settings.config.data_bits && c.parity == w.settings.config.parity
            &&& c.stop_bits == w.settings.config.stop_bits && c.flow_control
                == w.settings.config.flow_control
            &&& w.link.can_reconfigure <==> r is Direct
            &&& r matches Reconfiguration::Direct(d) ==> d == c
            &&& r is Refused <==> !w.link.can_reconfigure && w.link.owns_port
            &&& r is Refused ==> after.settings.is_open && (
            after.settings.status matches Some((m, fault)) && fault && m@
                == "Reconfiguration failed: "@
                + "this window owns the port and handles actions directly"@)
            &&& r matches Reconfiguration::Event(e) ==> (
            e matches MonitorEvent::Reconfigure { settings } && settings.baudrate == Some(
                c.baudrate,
            ) && settings.data_bits == Some(c.data_bits) && settings.parity == Some(c.parity)
                && settings.stop_bits == Some(c.stop_bits) && settings.flow_control == Some(
                c.flow_control,
            ))
        }),
{
}

/// A window shows the settings that its port has taken, with a line that says so,
/// or why that failed.
pub proof fn applied_settings_are_shown(
    w: PortMonitorState,
    e: String,
    done: PortMonitorState,
    line: Option<(i64, String)>,
    failed: PortMonitorState,
    none: Option<(i64, String)>,
)
    requires
        w.is_reconfigured(Ok(()), done, line),
        w.is_reconfigured(Err(e), failed, none),
        w.buffer@.lines.len() < 100_000,
    ensures
        done.port_info@ == w.settings.config.summary() && !done.settings.is_open,
        line matches Some((_, m)) && m@ == "━━━ PORT RECONFIGURED: "@
            + w.settings.config.summary() + " ━━━"@ && done.buffer@.lines.len()
            == w.buffer@.lines.len() + 1 && done.buffer@.lines[done.buffer@.lines.len()
            - 1].payload@ == m@,
        done.settings.status matches Some((m, fault)) && !fault && m@ == "Port reconfigured to "@
            + w.settings.config.summary(),
        none is None && failed.port_info == w.port_info && failed.settings.is_open,
        failed.settings.status matches Some((m, fault)) && fault && m@
            == "Reconfiguration failed: "@ + e@,
{
}

/// What a window cannot do itself it asks of the owner of its port, as it is.
pub proof fn windows_ask_the_owner(
    w: PortMonitorState,
    event: MonitorEvent,
    after: PortMonitorState,
    r: Option<MonitorEvent>,
    name: &str,
    run: PortMonitorState,
    m: Option<MonitorEvent>,
    e: String,
    refused: PortMonitorState,
)
    requires
        w.requests(event, after, r),
        w.asks_macro(name, run, m),
        w.is_refused(e, refused),
    ensures
        !w.link.owns_port ==> r == Some(event) && (m matches Some(MonitorEvent::Macro { name: n })
            && n@ == name@),
        w.link.owns_port ==> r is None && m is None && (
        after.settings.status matches Some((t, fault)) && fault && t@
            == "this window owns the port and handles actions directly"@),
        refused.settings.status == Some((e, true)),
        after.buffer == w.buffer && run.buffer == w.buffer && refused.buffer == w.buffer,
{
}

/// A window says whether its port is connected, and what its buttons do.
pub proof fn windows_say_how_they_stand(
    w: PortMonitorState,
    status: &'static str,
    pause: &'static str,
)
    requires
        w.shows_status(status),
        w.shows_pause(pause),
    ensures
        w.link.connected ==> status@ == "Connected"@,
        !w.link.connected ==> status@ == "Disconnected"@,
        w.view.paused ==> pause@ == "Resume"@,
        !w.view.paused ==> pause@ == "Pause"@,
{
}

// ---------------------------------------------------------------------------
// Exports and transfers
// ---------------------------------------------------------------------------

/// An export takes all lines, those of the display, or those from one number to
/// another, half a million at most; a range that is none is told.
pub proof fn exports_ask_for_their_lines(
    form: ExportForm,
    r: Result<ExportQuery, String>,
    total: u64,
    n: u32,
)
    requires
        form.asks(r),
        export_form::counts_all(total, n),
    ensures
        form.scope is AllDb ==> r matches Ok(ExportQuery::All),
        form.scope is VisibleBuffer ==> r matches Ok(ExportQuery::Display),
        form.scope is CustomRange ==> {
            let a = text::parse_int(text::trimmed(form.start_line@));
            let open = text::trimmed(form.end_line@).len() == 0;
            let b = text::parse_int(text::trimmed(form.end_line@));
            &&& a is None ==> (r matches Err(e) && e@ == "invalid start ID"@)
            &&& a is Some && !open && b is None ==> (r matches Err(e) && e@ == "invalid end ID"@)
            &&& a is Some && !open && b is Some && b->0 < a->0 ==> (r matches Err(e) && e@
                == "end ID is before start ID"@)
            &&& a is Some && !open && b is Some && a->0 <= b->0 && b->0 - a->0 < 500_000 ==> (
            r matches Ok(ExportQuery::From { start, count }) && start == a->0 && start + count - 1
                == b->0)
            &&& a is Some && !open && b is Some && b->0 - a->0 >= 500_000 ==> (
            r matches Ok(ExportQuery::From { start, count }) && start == a->0 && count == 500_000)
            &&& a is Some && open && a->0 <= 0x7000_0000_0000_0000 ==> (
            r matches Ok(ExportQuery::From { start, count }) && start == a->0 && count == 500_000)
        },
        n == (if total == 0 {
            1
        } else if total > 500_000 {
            500_000
        } else {
            total as int
        }),
{
    if text::parse_int(text::trimmed(form.start_line@)) is Some {
        numbers_fit(text::trimmed(form.start_line@));
    }
    if text::parse_int(text::trimmed(form.end_line@)) is Some {
        numbers_fit(text::trimmed(form.end_line@));
    }
}

/// A number that was read fits.
proof fn numbers_fit(s: Seq<char>)
    requires
        text::parse_int(s) is Some,
    ensures
        i64::MIN <= text::parse_int(s)->0 <= i64::MAX,
{
}

/// A file is proposed once, named after its port and the time; choosing a format
/// changes its extension.
pub proof fn export_files_are_proposed(
    form: ExportForm,
    port: &str,
    format: ExportFormat,
    proposed: ExportForm,
    chosen: ExportForm,
    opened: ExportForm,
    stamp: Seq<char>,
)
    requires
        form.proposes(port, proposed),
        form.takes_format(format, chosen),
        form.opens(port, opened),
    ensures
        form.path@.len() > 0 ==> proposed.path == form.path && opened.path == form.path,
        form.path@.len() == 0 ==> exists|s: Seq<char>| #[trigger]
            clock::is_file_stamp(s) && proposed.path@ == "devserial_export_"@ + paths::sanitized(
                port@,
            ) + "_"@ + s + ".txt"@,
        opened.is_open && opened.format == form.format && opened.scope == form.scope,
        chosen.format == format && chosen.path@ == paths::sibling_with_extension(
            form.path@,
            format.name(),
        ),
        export_form::proposed_name(port@, stamp, format) == "devserial_export_"@ + paths::sanitized(
            port@,
        ) + "_"@ + stamp + "."@ + format.name(),
{
    reveal_strlit(".");
    reveal_strlit("txt");
    reveal_strlit(".txt");
    if form.path@.len() == 0 {
        let s = choose|s: Seq<char>|
            clock::is_file_stamp(s) && proposed.path@ == #[trigger] export_form::proposed_name(
                port@,
                s,
                ExportFormat::Txt,
            );
        let front = "devserial_export_"@ + paths::sanitized(port@) + "_"@ + s;
        assert(front + "."@ + "txt"@ =~= front + ".txt"@);
        assert(clock::is_file_stamp(s));
    }
}

/// What was exported is told, counted and named, or why it was not.
pub proof fn exports_are_told(
    form: ExportForm,
    lines: usize,
    bytes: usize,
    e: String,
    why: &str,
    done: ExportForm,
    failed: ExportForm,
    copied: ExportForm,
    unread: ExportForm,
    checked: ExportForm,
    fine: bool,
    stored: &[StoredLine],
    written: String,
)
    requires
        form.tells_exported(lines, bytes, Ok(()), done),
        form.tells_exported(lines, bytes, Err(e), failed),
        form.tells_copied(lines, copied),
        form.tells_failed(why, unread),
        form.checks(checked, fine),
        form.formats(stored, written),
    ensures
        done.status matches Some((m, f)) && !f && m@ == "✓ Exported "@ + text::dec_nat(lines as nat)
            + " lines ("@ + text::dec_nat((bytes / 1024) as nat) + " KB) to "@ + form.path@,
        failed.status matches Some((m, f)) && f && m@ == "Export failed: "@ + e@,
        copied.status matches Some((m, f)) && !f && m@ == "✓ Copied "@ + text::dec_nat(lines as nat)
            + " lines to clipboard"@,
        unread.status matches Some((m, f)) && f && m@ == "Failed to query lines: "@ + why@,
        fine <==> text::trimmed(form.path@).len() > 0,
        !fine ==> (checked.status matches Some((m, f)) && f && m@
            == "Please specify a destination file path"@),
        written@ == export::header_text(form.format) + export::lines_text(stored@, form.format),
{
}

/// A new form exports all lines as text from the first on, and a new transfer goes
/// by ZMODEM.
pub proof fn forms_start_out_plain(e: ExportForm, t: TransferForm)
    requires
        ExportForm::is_new(e),
        TransferForm::is_new(t),
    ensures
        !e.is_open && e.path@.len() == 0 && e.format is Txt && e.scope is AllDb,
        e.start_line@ == "1"@ && e.end_line@.len() == 0 && e.status is None,
        !t.is_open && t.path@.len() == 0 && t.protocol is Zmodem && t.status is None,
{
}

/// A file is sent by the name that was entered and received into the directory
/// that was, the present one where none was, by the protocol that was chosen.
pub proof fn files_are_transferred_as_entered(
    form: TransferForm,
    receiving: TransferForm,
    asked: MonitorEvent,
    sending: TransferForm,
    sent: Option<MonitorEvent>,
    e: &str,
    failed: TransferForm,
)
    requires
        form.receives(receiving, asked),
        form.sends(sending, sent),
        form.fails(e, failed),
    ensures
        ({
            let path = text::trimmed(form.path@);
            &&& asked matches MonitorEvent::ReceiveFile { dir, protocol } && protocol
                == form.protocol && dir@ == (if path.len() == 0 {
                "."@
            } else {
                path
            })
            &&& path.len() > 0 ==> (sent matches Some(MonitorEvent::SendFile { path: p, protocol })
                && p@ == path && protocol == form.protocol)
            &&& path.len() == 0 ==> sent is None && (sending.status matches Some(m) && m@
                == "Error: please specify file path"@)
            &&& failed.status matches Some(m) && m@ == "Transfer failed: "@ + e@
        }),
{
}

// ---------------------------------------------------------------------------
// Choosing a port
// ---------------------------------------------------------------------------

/// A speed is entered as a number above zero; anything else leaves the speed.
pub proof fn speeds_are_entered(baud: u32, custom: &str, r: u32)
    requires
        dialog::takes_baud(baud, custom, r),
    ensures
        match text::parse_nat(text::trimmed(custom@), 0xffff_ffff) {
            Some(v) => if v > 0 {
                r == v
            } else {
                r == baud
            },
            None => r == baud,
        },
{
}

/// The first port of the list is chosen where the chosen one is not in it.
pub proof fn ports_are_chosen(
    ports: Vec<String>,
    d: PortConfigDialogState,
    before: PortConfigDialogState,
    after: PortConfigDialogState,
    shown: PortConfigDialogState,
)
    requires
        PortConfigDialogState::is_new(ports, d),
        before.rescans(ports, after),
        before.is_shown(ports, shown),
    ensures
        d.available_ports == ports && after.available_ports == ports && shown.available_ports
            == ports,
        ports@.len() > 0 ==> d.selected_port@ == ports@[0]@,
        ports@.len() == 0 ==> d.selected_port@.len() == 0 && after.selected_port@
            == before.selected_port@,
        before.selected_port@.len() > 0 && text::texts(ports@).contains(before.selected_port@)
            ==> after.selected_port@ == before.selected_port@ && shown.selected_port@
            == before.selected_port@,
        ports@.len() > 0 && !text::texts(ports@).contains(before.selected_port@)
            ==> after.selected_port@ == ports@[0]@ && shown.selected_port@ == ports@[0]@,
        shown.is_open && after.is_open == before.is_open && !d.is_open,
        d.config.baudrate == 115_200 && d.custom_baud@ == text::dec_nat(115_200)
            && !d.use_custom_port && d.error_message is None,
{
}

/// The port is the chosen one, or the one that was entered; the settings are those
/// of the dialog at the speed that was entered.
pub proof fn the_dialog_says_what_to_open(d: PortConfigDialogState, c: PortConfig)
    requires
        d.gives_config(c),
    ensures
        d.use_custom_port || d.selected_port@.len() == 0 ==> d.port() == text::trimmed(
            d.custom_port@,
        ),
        !d.use_custom_port && d.selected_port@.len() > 0 ==> d.port() == d.selected_port@,
        c.baudrate == (match dialog::entered_baud(d.custom_baud@) {
            Some(v) => v,
            None => d.config.baudrate,
        }),
        c.data_bits == d.config.data_bits && c.parity == d.config.parity && c.stop_bits
            == d.config.stop_bits && c.flow_control == d.config.flow_control,
{
}

/// A device that has a window cannot be opened again, under whichever of its
/// names; the dialog says so.
pub proof fn open_devices_are_not_offered(
    d: PortConfigDialogState,
    open: &[String],
    nodes: DeviceNodes,
    f: PortForm,
    i: int,
)
    requires
        d.gives_form(open, nodes, f),
        0 <= i < d.available_ports@.len(),
    ensures
        ({
            let port = d.available_ports@[i]@;
            let taken = exists|j: int|
                0 <= j < open@.len() && port_manager::canonical(#[trigger] open@[j]@, nodes)
                    == port_manager::canonical(port, nodes);
            let mine = exists|j: int|
                0 <= j < open@.len() && port_manager::canonical(#[trigger] open@[j]@, nodes)
                    == port_manager::canonical(d.port(), nodes);
            &&& f.choices@.len() == d.available_ports@.len()
            &&& f.choices@[i].port@ == port && f.choices@[i].enabled == !taken
            &&& f.choices@[i].label@ == (if taken {
                port + " (Already Open)"@
            } else {
                port
            })
            &&& f.can_connect <==> d.port().len() > 0 && !mine
            &&& f.notice is Some <==> mine
            &&& f.free_text == d.use_custom_port
        }),
{
    assert(f.choices@[i].offers(
        d.available_ports@[i]@,
        dialog::active(open@, d.available_ports@[i]@, nodes),
    ));
}

/// Escape and the button for it leave a dialog, return and its own button go on;
/// return does nothing where the button is off.
pub proof fn dialogs_are_left(
    label: &'static str,
    buttons: MacosDialogButtons<'static>,
    input: ButtonInput,
    r: DialogAction,
    off: DialogAction,
    end: Option<bool>,
    bare: MacosDialogButtons<'static>,
    alone: DialogAction,
)
    requires
        bare.cancel_label@.len() == 0 && bare.primary_enabled,
        bare.acts(input, alone),
        MacosDialogButtons::is_new(label, buttons),
        buttons.acts(input, r),
        (MacosDialogButtons { primary_enabled: false, ..buttons }).acts(input, off),
        dialog::ends(r, end),
    ensures
        input.cancel_clicked || input.escape ==> r is Cancel && end == Some(false),
        !(input.cancel_clicked || input.escape) && (input.primary_clicked || input.enter)
            ==> r is Primary && end == Some(true),
        !(input.cancel_clicked || input.escape || input.primary_clicked || input.enter)
            ==> r is Nothing && end is None,
        !(input.cancel_clicked || input.escape || input.primary_clicked) ==> off is Nothing,
        alone is Primary <==> input.primary_clicked || input.enter,
        !(alone is Cancel),
        buttons.cancel_label@ == "Cancel"@ && buttons.primary_label@ == label@,
{
    reveal_strlit("Cancel");
}

// ---------------------------------------------------------------------------
// All windows
// ---------------------------------------------------------------------------

/// A window that is asked for is raised where the device has one, the first, and
/// opened where it has none: with its settings where the sender gave some, and as
/// a capture where it did not.
pub proof fn windows_are_opened_once(
    all: &[Window],
    request: OpenPortRequest,
    nodes: DeviceNodes,
    r: WindowStep,
    c: WindowStep,
)
    requires
        windows::opens_requested(all, request, nodes, r),
        windows::obeys(all, GuiCommand::OpenPort(request), nodes, c),
    ensures
        request.port_name@.len() == 0 ==> r is ShowDialog && c is ShowDialog,
        request.port_name@.len() > 0 && windows::none_for(all@, request.port_name@, nodes)
            && request.settings is Some ==> {
            &&& r matches WindowStep::OpenSession { port_name, config } && port_name@
                == request.port_name@ && config.baudrate == (match request.settings->0.baudrate {
                Some(b) => b,
                None => 115_200,
            })
            &&& c matches WindowStep::OpenSession { port_name, .. } && port_name@
                == request.port_name@
        },
        request.port_name@.len() > 0 && windows::none_for(all@, request.port_name@, nodes)
            && request.settings is None ==> {
            &&& r matches WindowStep::OpenCapture { port_name, db_path, port_info } && port_name@
                == request.port_name@ && db_path@ == request.db_path@ && port_info@
                == request.port_info@
            &&& c matches WindowStep::OpenCapture { port_name, db_path, .. } && port_name@
                == request.port_name@ && db_path@ == request.db_path@
        },
        request.port_name@.len() > 0 && !windows::none_for(all@, request.port_name@, nodes) ==> {
            &&& r matches WindowStep::Raise(i) && windows::first_for(
                all@,
                request.port_name@,
                nodes,
                i as int,
            )
            &&& c matches WindowStep::Raise(i) && windows::first_for(
                all@,
                request.port_name@,
                nodes,
                i as int,
            )
        },
{
}

/// A window is for a port where both name one device; the first for it is the
/// one that no other for it stands before.
pub proof fn windows_are_for_devices(
    w: Window,
    port: Seq<char>,
    nodes: DeviceNodes,
    all: &[Window],
    name: &str,
    r: Option<usize>,
)
    requires
        windows::finds(all, name, nodes, r),
    ensures
        windows::is_for(w, port, nodes) <==> port_manager::canonical(w.port_name@, nodes)
            == port_manager::canonical(port, nodes),
        r matches Some(i) ==> i < all@.len() && windows::is_for(all@[i as int], name@, nodes) && (
        forall|j: int| 0 <= j < i ==> !windows::is_for(#[trigger] all@[j], name@, nodes)),
        r is None ==> forall|j: int|
            0 <= j < all@.len() ==> !windows::is_for(#[trigger] all@[j], name@, nodes),
{
}

/// A window is raised or closed by the port it is for; closing keeps every other.
pub proof fn windows_are_raised_and_closed(
    all: &[Window],
    port: String,
    nodes: DeviceNodes,
    ping: WindowStep,
    focus: WindowStep,
    close: WindowStep,
    i: int,
)
    requires
        windows::obeys(all, GuiCommand::Ping, nodes, ping),
        windows::obeys(all, GuiCommand::FocusPort { port_name: port }, nodes, focus),
        windows::obeys(all, GuiCommand::ClosePort { port_name: port }, nodes, close),
        0 <= i < all@.len(),
    ensures
        ping is Nothing,
        windows::is_for(all@[i], port@, nodes) ==> (focus matches WindowStep::Raise(k)
            && windows::is_for(all@[k as int], port@, nodes) && k <= i),
        windows::none_for(all@, port@, nodes) ==> focus is Nothing,
        close matches WindowStep::Keep(marks) && marks@.len() == all@.len() && (marks@[i]
            <==> !windows::is_for(all@[i], port@, nodes)),
{
}

/// A port that was chosen raises its window, connects it again where it was
/// disconnected, and gets one where it has none.
pub proof fn chosen_ports_are_opened(
    all: &[Window],
    d: &PortConfigDialogState,
    nodes: DeviceNodes,
    r: ConnectStep,
    e: String,
    before: PortConfigDialogState,
    done: PortConfigDialogState,
    failed: PortConfigDialogState,
    refused: PortConfigDialogState,
)
    requires
        windows::connects(all, d, nodes, r),
        windows::shows_outcome(Ok(()), before, done),
        windows::shows_outcome(Err(e), before, failed),
        windows::shows_refusal(e, before, refused),
    ensures
        match r {
            ConnectStep::Raise(i) => windows::first_for(all@, d.port(), nodes, i as int)
                && all@[i as int].connected,
            ConnectStep::Reconnect(i) => windows::first_for(all@, d.port(), nodes, i as int)
                && !all@[i as int].connected,
            ConnectStep::OpenSession { port_name, config } => windows::none_for(
                all@,
                d.port(),
                nodes,
            ) && port_name@ == d.port() && config.baudrate == d.baud() && config.parity
                == d.config.parity && config.data_bits == d.config.data_bits && config.stop_bits
                == d.config.stop_bits && config.flow_control == d.config.flow_control,
        },
        !done.is_open && done.error_message is None,
        failed.error_message == Some(e) && failed.is_open == before.is_open,
        refused.error_message == Some(e) && refused.is_open,
{
}

/// The program ends once every window is closed and no dialog is open; the ports
/// of the open windows are active.
pub proof fn the_program_ends_with_its_windows(
    all: &[Window],
    dialog_open: bool,
    ends: bool,
    first: Option<usize>,
    stays: bool,
    some: Seq<Window>,
    w: Window,
)
    requires
        windows::exits(all, dialog_open, ends),
        windows::is_primary(all, first),
        windows::stays(all, stays),
    ensures
        ends <==> all@.len() > 0 && !dialog_open && (forall|j: int|
            0 <= j < all@.len() ==> !(#[trigger] all@[j]).is_open),
        first matches Some(i) ==> i < all@.len() && all@[i as int].is_open,
        first is None <==> (forall|j: int| 0 <= j < all@.len() ==> !(#[trigger] all@[j]).is_open),
        stays <==> windows::open_windows(all@) > 1,
        windows::open_windows(Seq::empty()) == 0 && windows::open_ports(Seq::empty()).len() == 0,
        w.is_open ==> windows::open_windows(some.push(w)) == windows::open_windows(some) + 1
            && windows::open_ports(some.push(w)) == windows::open_ports(some).push(w.port_name@),
        !w.is_open ==> windows::open_windows(some.push(w)) == windows::open_windows(some)
            && windows::open_ports(some.push(w)) == windows::open_ports(some),
{
    assert(some.push(w).drop_last() =~= some);
    if first is Some {
        assert(all@[first->0 as int].is_open);
    }
}

/// Windows are titled with their port, and the dialog with what it is for.
pub proof fn windows_are_titled(
    port: &str,
    info: &str,
    version: &str,
    title: String,
    connect: String,
)
    requires
        windows::is_title(port, info, version, title),
        windows::is_connect_title(version, connect),
    ensures
        title@ == port@ + " ("@ + info@ + ") — devserial v"@ + version@,
        connect@ == "devserial v"@ + version@ + " — Connect Serial Device"@,
{
}

/// A text is cut, copied, pasted behind, left or cleared as chosen.
pub proof fn texts_are_edited(
    choice: TextChoice,
    clipboard: Option<&str>,
    before: String,
    after: String,
    r: Option<String>,
)
    requires
        text_menu::edits(choice, clipboard, before, after, r),
    ensures
        choice is Cut || choice is Clear ==> after@.len() == 0,
        choice is Copy || choice is SelectAll ==> after@ == before@,
        choice is Paste ==> after@ == before@ + (match clipboard {
            Some(c) => c@,
            None => Seq::empty(),
        }),
        choice is Cut || choice is Copy ==> (r matches Some(c) && c@ == before@),
        !(choice is Cut || choice is Copy) ==> r is None,
        text_menu::open_to(TextChoice::Paste, before@, after@) <==> after@.len() > 0,
        !(choice is Paste) ==> (text_menu::open_to(choice, before@, after@) <==> before@.len() > 0),
{
}

// ---------------------------------------------------------------------------
// Monitors of the language model
// ---------------------------------------------------------------------------

/// A monitor that was started is known from then on, until it is closed; one that
/// was not leaves nothing behind.
pub proof fn monitors_are_known_while_open(
    server: DevSerialServer,
    port: &str,
    e: String,
    open: DevSerialServer,
    told: Result<String, ToolError>,
    failed: DevSerialServer,
    why: Result<String, ToolError>,
    closed: DevSerialServer,
    said: Result<String, ToolError>,
)
    requires
        server.notes_opened(port, Ok(()), open, told),
        server.notes_opened(port, Err(e), failed, why),
        open.notes_closed(port, closed, said),
    ensures
        open.windows().contains(port@),
        told matches Ok(m) && m@ == "Monitor opened for "@ + port@,
        failed == server && (why matches Err(ToolError::Internal(m)) && m@
            == "failed to spawn monitor: "@ + e@),
        !closed.windows().contains(port@),
        said matches Ok(m) && m@ == "Monitor closed for "@ + port@,
{
    if !server.windows().contains(port@) {
        assert(open.windows()[server.windows().len() as int] == port@);
    }
}

/// The choices of a text have their labels and keys.
pub proof fn choices_of_a_text_are_labelled()
    ensures
        (TextChoice::Cut).spec_label() == "✂ Cut"@ && (TextChoice::Cut).spec_shortcut() == "Cmd+X"@,
        (TextChoice::Copy).spec_label() == "📋 Copy"@ && (TextChoice::Copy).spec_shortcut()
            == "Cmd+C"@,
        (TextChoice::Paste).spec_label() == "📥 Paste"@ && (TextChoice::Paste).spec_shortcut()
            == "Cmd+V"@,
        (TextChoice::SelectAll).spec_label() == "Select All"@ && (
        TextChoice::SelectAll).spec_shortcut() == "Cmd+A"@,
        (TextChoice::Clear).spec_label() == "⌫ Clear"@ && (TextChoice::Clear).spec_shortcut()
            == ""@,
{
}

/// The form is opened and closed by turns, and its file proposed anew where that
/// was asked for.
pub proof fn export_forms_are_toggled(
    form: ExportForm,
    port: &str,
    toggled: ExportForm,
    pressed: ExportForm,
    reset: ExportForm,
    e: &str,
    count: String,
    read: String,
)
    requires
        form.toggles(port, toggled),
        form.is_pressed(port, pressed),
        form.resets(port, reset),
        export_form::tells_uncounted(e, count),
        export_form::tells_unread(e, read),
    ensures
        toggled.is_open == !form.is_open && pressed.is_open == !form.is_open && reset.is_open
            == form.is_open,
        form.path@.len() > 0 ==> toggled.path == form.path && pressed.path == form.path,
        exists|s: Seq<char>|
            clock::is_file_stamp(s) && reset.path@ == #[trigger] export_form::proposed_name(
                port@,
                s,
                form.format,
            ),
        toggled.format == form.format && pressed.format == form.format && reset.format
            == form.format,
        count@ == "database error: "@ + e@,
        read@ == "database read error: "@ + e@,
{
}

/// A new window follows its lines with their times, sends what is entered with the
/// ending of a terminal, and has yet to learn how many lines there are.
pub proof fn windows_start_out_plain(w: PortMonitorState)
    requires
        w.starts(),
    ensures
        w.buffer@.lines.len() == 0 && !w.buffer@.filter_active && w.input@.len() == 0,
        w.line_ending is CrLf,
        w.view.auto_follow && w.view.show_timestamps && !w.view.paused && !w.view.hex_view
            && !w.view.selecting,
        w.link.connected && !w.link.dtr_state && !w.link.rts_state && w.link.last_id == i64::MAX,
        w.history@.index is None && !w.export.is_open && !w.transfer.is_open && !w.settings.is_open,
        w.settings.custom_baud@ == text::dec_nat(w.settings.config.baudrate as nat)
            && w.settings.status is None,
        w.flags.is_open && !w.flags.show_about_dialog && !w.flags.open_port_dialog_requested,
{
}

} // verus!
