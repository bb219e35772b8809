//! What the operations of the daemon do, from the request to the answer.
use vstd::prelude::*;
use vstd::string::*;

use crate::config;
use crate::config::{PortConfig, StepView};
use crate::engine::device::{DeviceOp, Goal, Run};
use crate::engine::reading::ReadOp;
use crate::engine::tool::{Job, ToolOp};
use crate::engine::transfer::TransferOp;
use crate::engine::{device, ports, reading, scan, tool, transfer};
use crate::engine::{CommandEngine, DeviceAction, EngineError, Event, Operation, Progress, Work};
use crate::export;
use crate::export::ExportFormat;
use crate::modem::FileTransferProtocol;
use crate::paths;
use crate::pattern;
use crate::port_manager::{PortCommand, PortInfo};
use crate::protocol::{
    LinesPage, PortSettings, ReadWindow, RequestPayload, ResponsePayload, SearchMode,
};
use crate::reader::ConnectionState;
use crate::serial_params::ParamError;
use crate::storage::{BufferStats, StoredLine, TimeRange};
use crate::text;

verus! {

// ---------------------------------------------------------------------------
// Reading
// ---------------------------------------------------------------------------

/// Which ids a window takes in, of the ids of some captured lines: the last ones
/// where a tail is asked for, else those behind an id, else those from a number
/// on, which counts back from the end where it is negative, else all.
pub proof fn a_window_takes_in_its_lines(window: ReadWindow, total: u64, id: int)
    requires
        1 <= id <= total <= i64::MAX,
        total < i64::MAX,
    ensures
        reading::first_id(window, total) >= 1,
        window.tail matches Some(n) ==> (id >= reading::first_id(window, total) <==> id > total - n),
        window.tail is None ==> (window.after_id matches Some(a) ==> (id >= reading::first_id(
            window,
            total,
        ) <==> id > a)),
        window.tail is None && window.after_id is None ==> (window.start_id matches Some(s) ==> (id
            >= reading::first_id(window, total) <==> if s < 0 {
            id > total + s
        } else {
            id >= s
        })),
        window.tail is None && window.after_id is None && window.start_id is None ==> id
            >= reading::first_id(window, total),
{
}

/// A page goes on behind its last line; an empty one stays where it was asked
/// for, or at the end.
pub proof fn a_page_says_where_it_ends(window: ReadWindow, total: u64, lines: Seq<StoredLine>)
    requires
        total <= i64::MAX,
    ensures
        lines.len() > 0 ==> reading::next_id(window, total, lines) == lines[lines.len() - 1].id,
        lines.len() == 0 ==> reading::next_id(window, total, lines) == (match window.after_id {
            Some(id) => id as int,
            None => total as int,
        }),
{
}

/// A read asks for 100 lines unless told otherwise, and for at least one and at
/// most 10000 whatever it was told; the window is handed on as it is.
pub proof fn a_read_is_limited(e: CommandEngine, port: String, window: ReadWindow, r: Progress)
    requires
        exists|stamp: Seq<char>| #[trigger]
            e.begins(RequestPayload::ReadLines { port, window }, stamp, r),
    ensures
        r matches Progress::Do(
            Work::ReadPage { port: p, window: w, limit },
            Operation::Read(ReadOp::Page { port: q, window: v, limit: l }),
        ) && p@ == port@ && q@ == port@ && w == window && v == window && l == limit && limit == (
        match window.limit {
            None => 100int,
            Some(n) if n == 0 => 1,
            Some(n) if n > 10_000 => 10_000,
            Some(n) => n as int,
        }),
{
}

/// A read that found something is answered with it at once; one that found
/// nothing looks again every 50 ms until its time is over.
pub proof fn a_read_waits_for_lines(
    e: CommandEngine,
    port: String,
    window: ReadWindow,
    limit: u32,
    page: LinesPage,
    elapsed_ms: u64,
    r: Progress,
    s: Progress,
)
    requires
        e.next(
            Operation::Read(ReadOp::Page { port, window, limit }),
            Event::Page(page, elapsed_ms),
            r,
        ),
        r matches Progress::Do(_, op) ==> e.next(op, Event::Done, s),
    ensures
        page.lines@.len() > 0 ==> r == Progress::Done(Ok(ResponsePayload::Lines(page))),
        window.wait_ms is None ==> r == Progress::Done(Ok(ResponsePayload::Lines(page))),
        window.wait_ms matches Some(w) ==> elapsed_ms >= w ==> r == Progress::Done(
            Ok(ResponsePayload::Lines(page)),
        ),
        window.wait_ms matches Some(w) ==> page.lines@.len() == 0 && elapsed_ms < w ==> {
            &&& r matches Progress::Do(Work::Sleep(ms), _) && ms == 50
            &&& s matches Progress::Do(Work::ReadPage { port: p, window: v, limit: l }, _) && p@
                == port@ && v == window && l == limit
        },
{
}

/// The status of a port is its state and its statistics, each asked for under its
/// name.
pub proof fn a_status_is_of_its_port(
    e: CommandEngine,
    port: String,
    state: ConnectionState,
    stats: BufferStats,
    stamp: Seq<char>,
    a: Progress,
    b: Progress,
    c: Progress,
    d: Progress,
    x: Progress,
)
    requires
        e.begins(RequestPayload::GetStatus { port }, stamp, a),
        a matches Progress::Do(_, op) ==> e.next(op, Event::State(state), b),
        b matches Progress::Do(_, op) ==> e.next(op, Event::Stats(stats), c),
        e.begins(RequestPayload::GetStats { port }, stamp, d),
        d matches Progress::Do(_, op) ==> e.next(op, Event::Stats(stats), x),
    ensures
        a matches Progress::Do(Work::Port(PortCommand::GetState { name }), _) && name@ == port@,
        b matches Progress::Do(Work::Stats { port: p }, _) && p@ == port@,
        c matches Progress::Done(Ok(ResponsePayload::Status { name, state: s, stats: t })) && name@
            == port@ && s == state && t == stats,
        d matches Progress::Do(Work::Stats { port: p }, _) && p@ == port@,
        x == Progress::Done(Ok(ResponsePayload::Stats(stats))),
{
}

// ---------------------------------------------------------------------------
// Searching
// ---------------------------------------------------------------------------

/// Whether an instant lies in a time range; where there is none, every one does.
pub open spec fn lies_in(t: int, range: Option<TimeRange>) -> bool {
    match range {
        None => true,
        Some(r) => r.start_ns <= t <= r.end_ns,
    }
}

/// An instant lies in the range of a search exactly where it is not before the
/// start, if one is given, and not behind the end, if one is given.
pub proof fn a_search_keeps_to_its_times(start: Option<i64>, end: Option<i64>, t: int)
    requires
        0 <= t <= i64::MAX,
    ensures
        lies_in(t, reading::range_of(start, end)) <==> {
            &&& start matches Some(s) ==> s <= t
            &&& end matches Some(e) ==> t <= e
        },
        start is None && end is None <==> reading::range_of(start, end) is None,
        start matches Some(s) ==> reading::range_of(start, end)->0.start_ns == s,
        end matches Some(e) ==> reading::range_of(start, end)->0.end_ns == e,
{
}

/// A search looks for what was asked for, on the port it was asked of, in the
/// times it was asked for, with 100 results unless told otherwise and between one
/// and 1000 whatever it was told.
pub proof fn a_search_is_as_asked(
    e: CommandEngine,
    port: String,
    query: String,
    mode: SearchMode,
    start_ns: Option<i64>,
    end_ns: Option<i64>,
    limit: Option<u32>,
    stamp: Seq<char>,
    r: Progress,
    t: int,
)
    requires
        e.begins(
            RequestPayload::Search { port, query, mode, start_ns, end_ns, limit },
            stamp,
            r,
        ),
        0 <= t <= i64::MAX,
        mode is Regex ==> pattern::pattern_fault(query@) is None,
    ensures
        r matches Progress::Do(Work::Search { port: p, plan }, Operation::Read(ReadOp::Search))
            && p@ == port@ && plan.query@ == query@ && plan.mode == mode && plan.wf() && (lies_in(
            t,
            plan.range,
        ) <==> {
            &&& start_ns matches Some(s) ==> s <= t
            &&& end_ns matches Some(x) ==> t <= x
        }) && plan.limit == (match limit {
            None => 100int,
            Some(n) if n == 0 => 1,
            Some(n) if n > 1000 => 1000,
            Some(n) => n as int,
        }),
{
}

/// A line answers a search for a part of it where the query stands somewhere in
/// it, and a search for all of it where it is the query.
pub proof fn a_line_is_found_by_what_it_holds(
    query: Seq<char>,
    payload: Seq<char>,
    before: Seq<char>,
    behind: Seq<char>,
)
    ensures
        payload == before + query + behind ==> reading::hits(SearchMode::Substring, query, payload),
        reading::hits(SearchMode::Substring, query, payload) ==> exists|i: int|
            0 <= i <= payload.len() - query.len() && #[trigger] payload.subrange(
                i,
                i + query.len(),
            ) == query,
        reading::hits(SearchMode::Exact, query, payload) <==> payload == query,
        reading::hits(SearchMode::Regex, query, payload) <==> pattern::pattern_hits(query, payload),
{
    if payload == before + query + behind {
        let i = before.len() as int;
        assert(payload.subrange(i, i + query.len()) =~= query);
        assert(text::occurs_at(payload, query, i));
    }
    if reading::hits(SearchMode::Substring, query, payload) {
        let i = choose|i: int| text::occurs_at(payload, query, i);
        assert(payload.subrange(i, i + query.len()) == query);
    }
}

/// A pattern that is none is refused with the reason, and nothing is searched.
pub proof fn a_bad_pattern_is_refused(
    e: CommandEngine,
    port: String,
    query: String,
    start_ns: Option<i64>,
    end_ns: Option<i64>,
    limit: Option<u32>,
    stamp: Seq<char>,
    r: Progress,
)
    requires
        e.begins(
            RequestPayload::Search {
                port,
                query,
                mode: SearchMode::Regex,
                start_ns,
                end_ns,
                limit,
            },
            stamp,
            r,
        ),
        pattern::pattern_fault(query@) is Some,
    ensures
        r matches Progress::Done(Err(EngineError::Regex(m))) && Some(m@) == pattern::pattern_fault(
            query@,
        ),
{
}

/// Lines that are found come in the order of the capture, each once, and only
/// they; a limit cuts off the end.
pub proof fn found_lines_keep_their_order(
    mode: SearchMode,
    query: Seq<char>,
    lines: Seq<StoredLine>,
    line: StoredLine,
    limit: u32,
)
    ensures
        scan::hits_of(mode, query, Seq::empty()).len() == 0,
        reading::hits(mode, query, line.payload@) ==> scan::hits_of(mode, query, lines.push(line))
            == scan::hits_of(mode, query, lines).push(line),
        !reading::hits(mode, query, line.payload@) ==> scan::hits_of(mode, query, lines.push(line))
            == scan::hits_of(mode, query, lines),
        scan::at_most(lines, limit).is_prefix_of(lines),
        scan::at_most(lines, limit).len() == (if lines.len() < limit {
            lines.len() as int
        } else {
            limit as int
        }),
{
    assert(lines.push(line).drop_last() =~= lines);
}

/// A search that filters looks at five million lines at most, one for a part of
/// the text at all.
pub proof fn a_scan_is_bounded(mode: SearchMode, scanned: u64, page: nat)
    requires
        scanned <= 5_000_000,
    ensures
        mode is Substring ==> scan::examined(mode, scanned, page) == page,
        !(mode is Substring) ==> scanned + scan::examined(mode, scanned, page) <= 5_000_000,
        !(mode is Substring) && scanned + page <= 5_000_000 ==> scan::examined(mode, scanned, page)
            == page,
        scan::examined(mode, scanned, page) < page ==> scanned + scan::examined(
            mode,
            scanned,
            page,
        ) == 5_000_000,
{
}

// ---------------------------------------------------------------------------
// Exporting and clearing
// ---------------------------------------------------------------------------

/// An export that is not refused asks the store of its port for the lines whose
/// ids lie between its start and its end, both of them included; without a start
/// from the first line on, without an end to the last.
pub proof fn an_export_takes_its_range(
    e: CommandEngine,
    port: String,
    output_path: String,
    file_format: Option<ExportFormat>,
    start_line: Option<i64>,
    end_line: Option<i64>,
    stamp: Seq<char>,
    first: Progress,
    second: Progress,
    id: i64,
)
    requires
        e.begins(
            RequestPayload::Export { port, output_path, file_format, start_line, end_line },
            stamp,
            first,
        ),
        first matches Progress::Do(Work::Exists { .. }, op) ==> e.next(
            op,
            Event::Exists(true),
            second,
        ),
        !(first matches Progress::Do(Work::Exists { .. }, _)) ==> second == first,
        !paths::leads_up(output_path@),
        id >= 1,
    ensures
        first matches Progress::Do(Work::Exists { path }, _) ==> path@ == paths::directory_of(
            output_path@,
        ) && path@.len() > 0,
        ({
            let s = match start_line {
                Some(v) => v as int,
                None => 1,
            };
            let t = match end_line {
                Some(v) => v as int,
                None => 0x7FFF_FFFF_FFFF_FFFF,
            };
            if t < s {
                second matches Progress::Done(Err(EngineError::Invalid(_)))
            } else {
                second matches Progress::Do(
                    Work::ReadRange { port: p, start, end },
                    Operation::Read(ReadOp::ExportLines { path, format }),
                ) && p@ == port@ && path@ == output_path@ && format == (match file_format {
                    Some(f) => f,
                    None => ExportFormat::Txt,
                }) && (start <= id <= end <==> s <= id <= t) && start == s && end == t
            }
        }),
{
}

/// An export is refused where its path leads upwards or its directory is missing.
pub proof fn an_export_stays_where_it_may(
    e: CommandEngine,
    port: String,
    output_path: String,
    file_format: Option<ExportFormat>,
    start_line: Option<i64>,
    end_line: Option<i64>,
    stamp: Seq<char>,
    first: Progress,
    second: Progress,
)
    requires
        e.begins(
            RequestPayload::Export { port, output_path, file_format, start_line, end_line },
            stamp,
            first,
        ),
        first matches Progress::Do(Work::Exists { .. }, op) ==> e.next(
            op,
            Event::Exists(false),
            second,
        ),
    ensures
        paths::leads_up(output_path@) ==> (first matches Progress::Done(
            Err(EngineError::Invalid(m)),
        ) && m@ == "output path must not contain '..' components"@),
        !paths::leads_up(output_path@) && paths::directory_of(output_path@).len() > 0 ==> (second
            matches Progress::Done(Err(EngineError::Invalid(m))) && m@
            == "parent directory does not exist: "@ + paths::directory_of(output_path@)),
{
}

/// What is read is written to the file, and as many lines as were read are
/// reported, with the path and the format.
pub proof fn an_export_writes_what_it_read(
    e: CommandEngine,
    output_path: String,
    file_format: ExportFormat,
    lines: Vec<StoredLine>,
    absolute: String,
    a: Progress,
    b: Progress,
    c: Progress,
)
    requires
        lines@.len() <= u64::MAX,
        e.next(
            Operation::Read(ReadOp::ExportLines { path: output_path, format: file_format }),
            Event::Lines(lines),
            a,
        ),
        a matches Progress::Do(_, op) ==> e.next(op, Event::Done, b),
        b matches Progress::Do(_, op) ==> e.next(op, Event::Path(absolute), c),
    ensures
        a matches Progress::Do(Work::WriteText { path, text: t }, _) && path@ == output_path@ && t@
            == export::header_text(file_format) + export::lines_text(lines@, file_format),
        b matches Progress::Do(Work::Absolute { path }, _) && path@ == output_path@,
        c matches Progress::Done(
            Ok(ResponsePayload::ExportSuccess { lines_exported, path, file_format: f }),
        ) && lines_exported == lines@.len() && path@ == absolute@ && f == file_format,
{
}

/// Clearing archives exactly where that was asked for, under the name of the port
/// and the stamp, and reports how many lines are gone.
pub proof fn a_clear_archives_where_asked(
    e: CommandEngine,
    port: String,
    archive_current: Option<bool>,
    stamp: Seq<char>,
    n: u64,
    a: Progress,
    b: Progress,
)
    requires
        e.begins(RequestPayload::Clear { port, archive_current }, stamp, a),
        a matches Progress::Do(_, op) ==> e.next(op, Event::Count(n), b),
    ensures
        a matches Progress::Do(Work::Clear { port: p, archive }, _) && p@ == port@ && (match archive {
            Some(path) => archive_current == Some(true) && path@ == paths::joined(
                e.config.global.archive_dir@,
                paths::sanitized(port@) + "_"@ + stamp + ".db"@,
            ),
            None => archive_current != Some(true),
        }),
        b matches Progress::Done(
            Ok(ResponsePayload::ClearSuccess { lines_cleared, archive_path }),
        ) && lines_cleared == n && (archive_path is Some <==> archive_current == Some(true)),
{
    reveal_strlit("_");
    assert("_"@ =~= seq!['_']);
    assert(paths::sanitized(port@).push('_') + stamp + ".db"@ =~= paths::sanitized(port@) + "_"@
        + stamp + ".db"@);
}

// ---------------------------------------------------------------------------
// The device
// ---------------------------------------------------------------------------

/// A write sends the bytes of its text, or those its digits stand for where it is
/// hex; then it is recorded as it was given, and answered with how many bytes
/// went out.
pub proof fn a_write_sends_its_bytes(
    e: CommandEngine,
    port: String,
    data: String,
    is_hex: bool,
    stamp: Seq<char>,
    a: Progress,
    b: Progress,
    c: Progress,
)
    requires
        e.begins(RequestPayload::WriteData { port, data, is_hex }, stamp, a),
        a matches Progress::Do(_, op) ==> e.next(op, Event::Done, b),
        b matches Progress::Do(_, op) ==> e.next(op, Event::Done, c),
    ensures
        match a {
            Progress::Do(Work::Port(PortCommand::Write { name, data: bytes }), _) => {
                &&& name@ == port@
                &&& device::payload(data@, is_hex, Ok(bytes))
                &&& b matches Progress::Do(Work::AppendHistory { port: p, command }, _) && p@
                    == port@ && command@ == data@
                &&& c matches Progress::Done(Ok(ResponsePayload::WriteSuccess { bytes_written }))
                    && bytes_written == bytes@.len()
            },
            Progress::Done(Err(f)) => device::payload(data@, is_hex, Err(f)),
            _ => false,
        },
{
}

/// What bytes a text stands for: those of its UTF-8 form, or of its digits where
/// it is marked as hex or begins with `0x`.
pub proof fn hex_is_hex(data: Seq<char>, is_hex: bool, bytes: Vec<u8>)
    requires
        device::payload(data, is_hex, Ok(bytes)),
    ensures
        ({
            let marked = is_hex || (data.len() >= 2 && data[0] == '0' && (data[1] == 'x' || data[1]
                == 'X'));
            if marked {
                crate::hex::decoding(data, Ok(bytes))
            } else {
                bytes@ == vstd::utf8::encode_utf8(data)
            }
        }),
{
    super::values::hex_prefix_is_two_characters(data);
}

/// A break is asked for, set, held for its time and cleared again, on its port,
/// for 250 ms unless told otherwise; nobody gets in between.
pub proof fn a_break_is_held_for_its_time(
    e: CommandEngine,
    port: String,
    duration_ms: Option<u64>,
    stamp: Seq<char>,
    a: Progress,
    b: Progress,
    c: Progress,
    d: Progress,
    f: Progress,
)
    requires
        e.begins(RequestPayload::SendBreak { port, duration_ms }, stamp, a),
        a matches Progress::Do(_, op) ==> e.next(op, Event::Done, b),
        b matches Progress::Do(_, op) ==> e.next(op, Event::Done, c),
        c matches Progress::Do(_, op) ==> e.next(op, Event::Done, d),
        d matches Progress::Do(_, op) ==> e.next(op, Event::Done, f),
    ensures
        ({
            let ms = match duration_ms {
                Some(v) => v,
                None => 250,
            };
            &&& a matches Progress::Do(Work::Port(PortCommand::GetSerialPort { name }), _) && name@
                == port@
            &&& b matches Progress::Do(Work::Device { port: p, action, keep }, _) && p@ == port@
                && action == DeviceAction::SetBreak(true) && keep
            &&& c matches Progress::Do(Work::Device { port: p, action, keep }, _) && p@ == port@
                && action == DeviceAction::Sleep(ms) && keep
            &&& d matches Progress::Do(Work::Device { port: p, action, keep }, _) && p@ == port@
                && action == DeviceAction::SetBreak(false) && !keep
            &&& f matches Progress::Do(
                Work::Log { port: p, message },
                Operation::Finish(ResponsePayload::BreakSuccess { duration_ms: t }),
            ) && p@ == port@ && t == ms && message@ == "━━━ SERIAL BREAK ("@ + text::dec_nat(
                ms as nat,
            ) + "ms) SENT ━━━"@
        }),
{
}

/// Setting signals sets those that were named, DTR before RTS, to the levels that
/// were asked for; with neither named the request is refused.
pub proof fn signals_are_set_as_asked(
    e: CommandEngine,
    port: String,
    dtr: Option<bool>,
    rts: Option<bool>,
    stamp: Seq<char>,
    a: Progress,
)
    requires
        e.begins(RequestPayload::SetSignal { port, dtr, rts }, stamp, a),
    ensures
        match (dtr, rts) {
            (None, None) => a matches Progress::Done(Err(EngineError::Invalid(_))),
            (Some(d), None) => runs(port@, seq![StepView::Dtr { value: d }], a),
            (None, Some(t)) => runs(port@, seq![StepView::Rts { value: t }], a),
            (Some(d), Some(t)) => runs(
                port@,
                seq![StepView::Dtr { value: d }, StepView::Rts { value: t }],
                a,
            ),
        },
{
    assert(device::signal_steps(dtr, rts) =~= (match (dtr, rts) {
        (None, None) => seq![],
        (Some(d), None) => seq![StepView::Dtr { value: d }],
        (None, Some(t)) => seq![StepView::Rts { value: t }],
        (Some(d), Some(t)) => seq![StepView::Dtr { value: d }, StepView::Rts { value: t }],
    }));
}

/// Whether steps are about to be carried out on a port, none of them done yet.
pub open spec fn runs(port: Seq<char>, steps: Seq<StepView>, r: Progress) -> bool {
    &&& r matches Progress::Do(
        Work::Port(PortCommand::GetSerialPort { name }),
        Operation::Device(DeviceOp::Ready(run)),
    )
    &&& name@ == port
    &&& run.port@ == port
    &&& run.steps@.len() == steps.len()
    &&& forall|i: int| 0 <= i < steps.len() ==> (#[trigger] run.steps@[i])@ == steps[i]
    &&& run.next == 0
    &&& run.done@.len() == 0
}

/// Where the user has no macro of the name, `reset` pulls DTR low for 100 ms and
/// lets it go, and touches nothing else.
pub proof fn reset_pulses_dtr(
    e: CommandEngine,
    port: String,
    name: String,
    stamp: Seq<char>,
    a: Progress,
)
    requires
        name@ == "reset"@,
        !e.config.macros@.contains_key(name@),
        e.begins(RequestPayload::ExecuteMacro { port, macro_name: name }, stamp, a),
    ensures
        runs(
            port@,
            seq![
                StepView::Dtr { value: false },
                StepView::Delay { ms: 100 },
                StepView::Dtr { value: true },
            ],
            a,
        ),
{
    lemma_runs(port@, e.config.spec_steps(name@)->0, a);
}

proof fn lemma_runs(port: Seq<char>, steps: Seq<StepView>, a: Progress)
    requires
        exists|goal: Goal| #[trigger] device::run_begins(port, steps, goal, a),
    ensures
        runs(port, steps, a),
{
    match a {
        Progress::Do(_, Operation::Device(DeviceOp::Ready(run))) => {
            assert forall|i: int| 0 <= i < steps.len() implies (#[trigger] run.steps@[i])@
                == steps[i] by {
                assert(config::step_views(run.steps@)[i] == run.steps@[i]@);
            }
        },
        _ => {},
    }
}

/// Where the user has no macro of the name, `enter_bootloader` raises RTS, pulses
/// DTR low for 50 ms, and lets RTS go 50 ms later; DTR stays high.
pub proof fn bootloader_is_entered(
    e: CommandEngine,
    port: String,
    name: String,
    stamp: Seq<char>,
    a: Progress,
)
    requires
        name@ == "enter_bootloader"@,
        !e.config.macros@.contains_key(name@),
        e.begins(RequestPayload::ExecuteMacro { port, macro_name: name }, stamp, a),
    ensures
        runs(
            port@,
            seq![
                StepView::Rts { value: true },
                StepView::Dtr { value: false },
                StepView::Delay { ms: 50 },
                StepView::Dtr { value: true },
                StepView::Delay { ms: 50 },
                StepView::Rts { value: false },
            ],
            a,
        ),
{
    reveal_strlit("reset");
    reveal_strlit("enter_bootloader");
    assert("reset"@.len() == 5 && "enter_bootloader"@.len() == 16);
    lemma_runs(port@, e.config.spec_steps(name@)->0, a);
}

/// Where the user has no macro of the name, `break` writes the single byte zero.
pub proof fn break_writes_a_zero(
    e: CommandEngine,
    port: String,
    name: String,
    stamp: Seq<char>,
    a: Progress,
    b: Progress,
)
    requires
        name@ == "break"@,
        !e.config.macros@.contains_key(name@),
        e.begins(RequestPayload::ExecuteMacro { port, macro_name: name }, stamp, a),
        a matches Progress::Do(_, op) ==> e.next(op, Event::Done, b),
    ensures
        runs(port@, seq![StepView::Write { value: "0x00"@ }], a),
        b matches Progress::Do(Work::Device { port: p, action: DeviceAction::WriteAll(data), .. }, _)
            && p@ == port@ && data@ == seq![0u8],
{
    reveal_strlit("reset");
    reveal_strlit("enter_bootloader");
    reveal_strlit("break");
    assert("reset"@.len() == 5 && "enter_bootloader"@.len() == 16 && "break"@.len() == 5);
    assert("reset"@[0] == 'r' && "break"@[0] == 'b');
    lemma_runs(port@, e.config.spec_steps(name@)->0, a);
    super::values::zero_in_hex();
}

/// A macro of the user's own is run as it stands in the configuration, even where
/// a built-in one has its name; an unknown one is refused.
pub proof fn a_macro_of_the_user_is_run(
    e: CommandEngine,
    port: String,
    name: String,
    stamp: Seq<char>,
    a: Progress,
)
    requires
        e.begins(RequestPayload::ExecuteMacro { port, macro_name: name }, stamp, a),
    ensures
        e.config.macros@.contains_key(name@) ==> runs(
            port@,
            config::step_views(e.config.macros@[name@].steps@),
            a,
        ),
        !e.config.macros@.contains_key(name@) && name@ != "reset"@ && name@ != "enter_bootloader"@
            && name@ != "break"@ ==> (a matches Progress::Done(
            Err(EngineError::UnknownMacro { name: n, .. }),
        ) && n@ == name@),
{
    if e.config.macros@.contains_key(name@) {
        lemma_runs(port@, e.config.spec_steps(name@)->0, a);
    }
}

/// One step after the other is carried out as it says: a line is set to its
/// level, a delay is waited out, bytes are written.
pub proof fn a_step_does_what_it_says(e: CommandEngine, run: Run, r: Progress)
    requires
        run.next < run.steps@.len(),
        run.wf(),
        e.next(Operation::Device(DeviceOp::Ready(run)), Event::Done, r),
    ensures
        match run.steps@[run.next as int]@ {
            StepView::Dtr { value } => r matches Progress::Do(Work::Device { port, action, .. }, _)
                && port@ == run.port@ && action == DeviceAction::SetDtr(value),
            StepView::Rts { value } => r matches Progress::Do(Work::Device { port, action, .. }, _)
                && port@ == run.port@ && action == DeviceAction::SetRts(value),
            StepView::Delay { ms } => r matches Progress::Do(Work::Sleep(t), _) && t == ms,
            StepView::Write { value } => match r {
                Progress::Do(
                    Work::Device { port, action: DeviceAction::WriteAll(data), .. },
                    _,
                ) => port@ == run.port@ && device::payload(value, false, Ok(data)),
                Progress::Done(Err(f)) => device::payload(value, false, Err(f)),
                _ => false,
            },
        },
        r matches Progress::Do(_, op) ==> (op matches Operation::Device(
            DeviceOp::Step { run: next, .. },
        ) && next == run),
{
}

/// A step that is done is told, and the next one comes; behind the last one the
/// request is answered with everything that was told.
pub proof fn steps_come_one_after_the_other(
    e: CommandEngine,
    run: Run,
    bytes: usize,
    r: Progress,
)
    requires
        run.under_way(bytes),
        e.next(Operation::Device(DeviceOp::Step { run, bytes }), Event::Done, r),
    ensures
        exists|next: Run| #[trigger]
            e.next(Operation::Device(DeviceOp::Ready(next)), Event::Done, r) && next.next == run.next
                + 1 && next.steps == run.steps && next.port == run.port && text::texts(next.done@)
                == text::texts(run.done@).push(
                match run.steps@[run.next as int]@ {
                    StepView::Dtr { value } => if value {
                        "DTR="@ + "HIGH"@
                    } else {
                        "DTR="@ + "LOW"@
                    },
                    StepView::Rts { value } => if value {
                        "RTS="@ + "HIGH"@
                    } else {
                        "RTS="@ + "LOW"@
                    },
                    StepView::Delay { ms } => "delay "@ + text::dec_nat(ms as nat) + "ms"@,
                    StepView::Write { value } => "write "@ + text::dec_nat(bytes as nat)
                        + " bytes"@,
                },
            ),
{
    let next = choose|next: Run|
        device::one_further(run, next) && next.wf() && #[trigger] device::run_goes_on(next, r);
    assert(e.next(Operation::Device(DeviceOp::Ready(next)), Event::Done, r));
}

/// A run is answered with what was told of its steps: signals as they were
/// applied, a macro with a marker that names it.
pub proof fn a_run_is_answered(e: CommandEngine, run: Run, r: Progress)
    requires
        run.next == run.steps@.len(),
        e.next(Operation::Device(DeviceOp::Ready(run)), Event::Done, r),
    ensures
        match run.goal {
            Goal::Signal => r matches Progress::Done(
                Ok(ResponsePayload::SignalSuccess { applied }),
            ) && applied@ == run.done@,
            Goal::Macro(name) => r matches Progress::Do(
                Work::Log { port, message },
                Operation::Finish(ResponsePayload::MacroSuccess { executed_steps }),
            ) && port@ == run.port@ && executed_steps@ == run.done@ && message@
                == "━━━ MACRO '"@ + name@ + "' executed ("@ + text::joined(
                text::texts(run.done@),
                " → "@,
            ) + ") ━━━"@,
        },
{
}

// ---------------------------------------------------------------------------
// Ports
// ---------------------------------------------------------------------------

/// Settings that are given replace those of the port, the others stay, and
/// nothing else of it changes.
pub proof fn given_settings_replace(base: PortConfig, s: PortSettings)
    ensures
        ({
            let c = ports::merged(base, s);
            &&& c.baudrate == (if s.baudrate is Some {
                s.baudrate->0
            } else {
                base.baudrate
            })
            &&& c.data_bits == (if s.data_bits is Some {
                s.data_bits->0
            } else {
                base.data_bits
            })
            &&& c.parity == (if s.parity is Some {
                s.parity->0
            } else {
                base.parity
            })
            &&& c.stop_bits == (if s.stop_bits is Some {
                s.stop_bits->0
            } else {
                base.stop_bits
            })
            &&& c.flow_control == (if s.flow_control is Some {
                s.flow_control->0
            } else {
                base.flow_control
            })
            &&& c.delimiter == base.delimiter && c.auto_reconnect == base.auto_reconnect
            &&& c.reconnect_interval_ms == base.reconnect_interval_ms
            &&& c.reconnect_max_backoff_ms == base.reconnect_max_backoff_ms
            &&& c.max_buffer_lines == base.max_buffer_lines
        }),
{
}

/// A port that is not open is opened under its name, below the data directory,
/// with the settings that are configured for it and those that were given;
/// then it is remembered with them and answered with their summary. A rate of
/// zero is refused.
pub proof fn a_port_is_opened_as_asked(
    e: CommandEngine,
    name: String,
    settings: PortSettings,
    stamp: Seq<char>,
    fault: EngineError,
    a: Progress,
    b: Progress,
    c: Progress,
)
    requires
        e.begins(RequestPayload::OpenPort { name, settings }, stamp, a),
        a matches Progress::Do(_, op) ==> e.next(op, Event::Failed(fault), b),
        b matches Progress::Do(_, op) ==> e.next(op, Event::Done, c),
    ensures
        a matches Progress::Do(Work::Port(PortCommand::GetState { name: n }), _) && n@ == name@,
        ({
            let base = if e.config.ports@.contains_key(name@) {
                e.config.ports@[name@]
            } else {
                config::default_port()
            };
            if settings.baudrate == Some(0u32) {
                b == Progress::Done(Err(EngineError::Param(ParamError::Baud(0))))
            } else {
                &&& b matches Progress::Do(
                    Work::Port(PortCommand::OpenReal { name: n, config: k, data_dir }),
                    _,
                ) && n@ == name@ && k == ports::merged(base, settings) && data_dir@
                    == e.config.global.data_dir@
                &&& c matches Progress::Do(
                    Work::Remember { name: n, config: k },
                    Operation::Finish(ResponsePayload::PortOpened { name: m, config_summary }),
                ) && n@ == name@ && m@ == name@ && k == ports::merged(base, settings)
                    && config_summary@ == k.summary()
            }
        }),
{
}

/// An open port keeps the settings that were not given, and is answered with the
/// summary of what it has then.
pub proof fn an_open_port_is_reconfigured(
    e: CommandEngine,
    name: String,
    settings: PortSettings,
    stamp: Seq<char>,
    current: PortConfig,
    a: Progress,
    b: Progress,
    c: Progress,
    d: Progress,
)
    requires
        e.begins(RequestPayload::ReconfigurePort { name, settings }, stamp, a),
        a matches Progress::Do(_, op) ==> e.next(op, Event::Config(current), b),
        b matches Progress::Do(_, op) ==> e.next(op, Event::Done, c),
        c matches Progress::Do(_, op) ==> e.next(op, Event::Done, d),
        settings.baudrate != Some(0u32),
    ensures
        a matches Progress::Do(Work::Port(PortCommand::GetConfig { name: n }), _) && n@ == name@,
        b matches Progress::Do(Work::Port(PortCommand::Reconfigure { name: n, config: k }), _) && n@
            == name@ && k == ports::merged(current, settings),
        c matches Progress::Do(Work::Remember { name: n, config: k }, _) && n@ == name@ && k
            == ports::merged(current, settings),
        d matches Progress::Do(
            Work::Log { port, message },
            Operation::Finish(ResponsePayload::PortReconfigured { name: n, config_summary }),
        ) && port@ == name@ && n@ == name@ && config_summary@ == ports::merged(
            current,
            settings,
        ).summary() && message@ == "━━━ RECONFIGURED: "@ + config_summary@ + " ━━━"@,
{
}

/// Closing a port closes it, forgets it and says so.
pub proof fn a_closed_port_is_forgotten(
    e: CommandEngine,
    name: String,
    stamp: Seq<char>,
    a: Progress,
    b: Progress,
)
    requires
        e.begins(RequestPayload::ClosePort { name }, stamp, a),
        a matches Progress::Do(_, op) ==> e.next(op, Event::Done, b),
    ensures
        a matches Progress::Do(Work::Port(PortCommand::Close { name: n }), _) && n@ == name@,
        b matches Progress::Do(
            Work::Forget { name: n },
            Operation::Finish(ResponsePayload::PortClosed { name: m }),
        ) && n@ == name@ && m@ == name@,
{
}

/// The list of ports is the list of the manager, port by port.
pub proof fn ports_are_listed(
    e: CommandEngine,
    infos: Vec<PortInfo>,
    stamp: Seq<char>,
    a: Progress,
    b: Progress,
    i: int,
)
    requires
        e.begins(RequestPayload::ListPorts, stamp, a),
        a matches Progress::Do(_, op) ==> e.next(op, Event::Ports(infos), b),
        0 <= i < infos@.len(),
    ensures
        a matches Progress::Do(Work::Port(PortCommand::List), _),
        b matches Progress::Done(Ok(ResponsePayload::PortList(out))) && out@.len() == infos@.len()
            && out@[i].name@ == infos@[i].name@ && out@[i].state == infos@[i].state
            && out@[i].total_lines == infos@[i].total_lines,
{
}

/// What needs no work is answered at once; what concerns the HTTP listener is
/// asked of its owner and answered with its state.
pub proof fn short_requests_are_answered(e: CommandEngine, stamp: Seq<char>, a: Progress, b: Progress)
    requires
        e.begins(RequestPayload::Ping, stamp, a),
        e.begins(RequestPayload::Shutdown, stamp, b),
    ensures
        a == Progress::Done(Ok(ResponsePayload::Pong)),
        b == Progress::Done(Ok(ResponsePayload::ShutdownAck)),
{
}

// ---------------------------------------------------------------------------
// The tool
// ---------------------------------------------------------------------------

/// The arguments of the tool are those of the request, in the order it takes
/// them, and the note in the buffer names what is done.
pub proof fn the_tool_is_called_as_asked(
    e: CommandEngine,
    port: String,
    path: String,
    address: String,
    baud: Option<u32>,
    stamp: Seq<char>,
    flash: Progress,
    info: Progress,
    erase: Progress,
    write: Progress,
)
    requires
        e.begins(RequestPayload::EspFlash { port, firmware_path: path, baud }, stamp, flash),
        e.begins(RequestPayload::EspInfo { port }, stamp, info),
        e.begins(RequestPayload::EspErase { port }, stamp, erase),
        e.begins(RequestPayload::EspWriteBin { port, file_path: path, address }, stamp, write),
    ensures
        finds(
            flash,
            port@,
            match baud {
                Some(b) => seq![
                    "flash"@,
                    "--port"@,
                    port@,
                    "--baud"@,
                    text::dec_nat(b as nat),
                    "--"@,
                    path@,
                ],
                None => seq!["flash"@, "--port"@, port@, "--"@, path@],
            },
            Some("FLASH "@ + path@),
        ),
        finds(info, port@, seq!["board-info"@, "--port"@, port@], None),
        finds(erase, port@, seq!["erase-flash"@, "--port"@, port@], Some("ERASE FLASH"@)),
        finds(
            write,
            port@,
            seq!["write-bin"@, "--port"@, port@, "--"@, address@, path@],
            Some("WRITE-BIN "@ + path@ + " @ "@ + address@),
        ),
{
    match baud {
        Some(b) => {
            assert(crate::esp::flash_args(port@, path@, baud) =~= seq![
                "flash"@,
                "--port"@,
                port@,
                "--baud"@,
                text::dec_nat(b as nat),
                "--"@,
                path@,
            ]);
        },
        None => {
            assert(crate::esp::flash_args(port@, path@, baud) =~= seq![
                "flash"@,
                "--port"@,
                port@,
                "--"@,
                path@,
            ]);
        },
    }
}

/// Whether the tool is looked for, to be run with these arguments.
pub open spec fn finds(
    r: Progress,
    port: Seq<char>,
    args: Seq<Seq<char>>,
    note: Option<Seq<char>>,
) -> bool {
    &&& r matches Progress::Do(Work::FindTool, Operation::Tool(ToolOp::Find(job)))
    &&& job.port@ == port
    &&& text::texts(job.args@) == args
    &&& match note {
        Some(n) => job.log matches Some(l) && l@ == n,
        None => job.log is None,
    }
}

/// The tool runs while the port is released: an open port is closed first, and
/// 500 ms after the tool it is opened again with the settings it had.
pub proof fn the_tool_runs_on_a_free_port(
    e: CommandEngine,
    job: Job,
    state: ConnectionState,
    config: PortConfig,
    output: Result<String, String>,
    a: Progress,
    b: Progress,
    c: Progress,
    d: Progress,
    f: Progress,
)
    requires
        e.next(Operation::Tool(ToolOp::Find(job)), Event::Tool(true), a),
        a matches Progress::Do(_, op) ==> e.next(op, Event::State(state), b),
        b matches Progress::Do(_, op) ==> e.next(op, Event::Config(config), c),
        c matches Progress::Do(_, op) ==> e.next(op, Event::Output(output), d),
        d matches Progress::Do(_, op) ==> e.next(op, Event::Done, f),
    ensures
        a matches Progress::Do(Work::Port(PortCommand::GetState { name }), _) && name@ == job.port@,
        b matches Progress::Do(Work::Port(PortCommand::CloseWithConfig { name }), _) && name@
            == job.port@,
        c matches Progress::Do(Work::RunTool { args }, _) && text::texts(args@) == text::texts(
            job.args@,
        ),
        d matches Progress::Do(Work::Sleep(ms), _) && ms == 500,
        f matches Progress::Do(
            Work::Port(PortCommand::OpenReal { name, config: k, data_dir }),
            _,
        ) && name@ == job.port@ && k == config && data_dir@ == e.config.global.data_dir@,
{
}

/// A missing tool is said to be missing. What the tool said is the answer, an
/// error where it failed; a note in the buffer says which it was.
pub proof fn what_the_tool_said_is_answered(
    e: CommandEngine,
    job: Job,
    output: Result<String, String>,
    ev: Event,
    missing: Progress,
    a: Progress,
    b: Progress,
)
    requires
        e.next(Operation::Tool(ToolOp::Find(job)), Event::Tool(false), missing),
        e.next(Operation::Tool(ToolOp::Run { job, reopen: None }), Event::Output(output), a),
        a matches Progress::Do(_, op) ==> e.next(op, ev, b),
        a matches Progress::Done(_) ==> b == a,
    ensures
        missing matches Progress::Done(Err(EngineError::Tool(m))) && m@
            == "espflash not found in PATH. Install with: cargo install espflash"@,
        b == (match output {
            Ok(m) => Progress::Done(Ok(ResponsePayload::EspSuccess(m))),
            Err(m) => Progress::Done(Err(EngineError::Tool(m))),
        }),
        job.log matches Some(note) ==> (a matches Progress::Do(Work::Log { port, message }, _)
            && port@ == job.port@ && message@ == "━━━ "@ + note@ + " → "@ + (if output is Ok {
            "OK"@
        } else {
            "FAILED"@
        }) + " ━━━"@),
{
}

// ---------------------------------------------------------------------------
// File transfers
// ---------------------------------------------------------------------------

/// A file is read, sent over its port in its protocol under its name, and
/// answered with how many bytes went out.
pub proof fn a_file_is_sent_as_it_is(
    e: CommandEngine,
    port: String,
    file_path: String,
    protocol: FileTransferProtocol,
    stamp: Seq<char>,
    data: Vec<u8>,
    n: usize,
    a: Progress,
    b: Progress,
    c: Progress,
    d: Progress,
)
    requires
        e.begins(RequestPayload::SendFile { port, file_path, protocol }, stamp, a),
        a matches Progress::Do(_, op) ==> e.next(op, Event::Bytes(data), b),
        b matches Progress::Do(_, op) ==> e.next(op, Event::Done, c),
        c matches Progress::Do(_, op) ==> e.next(op, Event::Sent(n), d),
    ensures
        a matches Progress::Do(Work::ReadFile { path }, _) && path@ == file_path@,
        b matches Progress::Do(Work::Port(PortCommand::GetSerialPort { name }), _) && name@ == port@,
        c matches Progress::Do(Work::Send { port: p, protocol: t, file_name, data: bytes }, _) && p@
            == port@ && t == protocol && bytes@ == data@ && file_name@ == (
        match paths::file_name_of(file_path@) {
            Some(f) => f,
            None => "file.bin"@,
        }),
        d matches Progress::Do(
            Work::Log { port: p, .. },
            Operation::Finish(
                ResponsePayload::TransferSuccess {
                    bytes_transferred,
                    protocol: t,
                    path: Some(q),
                    ..
                },
            ),
        ) && p@ == port@ && bytes_transferred == n as u64 && t == protocol && q@ == file_path@,
{
}

/// A file is received over its port in its protocol, written into the directory
/// under the name it came with, byte for byte, and answered with its size.
pub proof fn a_file_is_received_as_it_came(
    e: CommandEngine,
    port: String,
    output_dir: String,
    protocol: FileTransferProtocol,
    stamp: Seq<char>,
    name: String,
    data: Vec<u8>,
    a: Progress,
    b: Progress,
    c: Progress,
    d: Progress,
    f: Progress,
)
    requires
        e.begins(RequestPayload::ReceiveFile { port, output_dir, protocol }, stamp, a),
        a matches Progress::Do(_, op) ==> e.next(op, Event::Done, b),
        b matches Progress::Do(_, op) ==> e.next(op, Event::Received(name, data), c),
        c matches Progress::Do(_, op) ==> e.next(op, Event::Done, d),
        d matches Progress::Do(_, op) ==> e.next(op, Event::Done, f),
        data@.len() <= u64::MAX,
    ensures
        a matches Progress::Do(Work::Port(PortCommand::GetSerialPort { name: n }), _) && n@ == port@,
        b matches Progress::Do(Work::Receive { port: p, protocol: t }, _) && p@ == port@ && t
            == protocol,
        c matches Progress::Do(Work::CreateDir { path }, _) && path@ == output_dir@,
        d matches Progress::Do(Work::WriteFile { path, data: bytes }, _) && bytes@ == data@ && path@
            == paths::joined(output_dir@, name@),
        f matches Progress::Do(
            Work::Log { port: p, message },
            Operation::Finish(
                ResponsePayload::TransferSuccess {
                    bytes_transferred,
                    file_name,
                    protocol: t,
                    path: Some(q),
                },
            ),
        ) && p@ == port@ && bytes_transferred == data@.len() && file_name@ == name@ && t == protocol
            && q@ == paths::joined(output_dir@, name@) && message@ == "━━━ TRANSFER "@ + "RECV"@
            + " "@ + transfer::protocol_label(protocol) + " '"@ + name@ + "' ("@ + text::dec_nat(
            data@.len(),
        ) + " bytes) → OK ━━━"@,
{
}

/// What goes wrong on the way is the answer: a refusal of the manager or the
/// store as it is, anything else named after what it happened to.
pub proof fn a_fault_is_answered(
    e: CommandEngine,
    run: Run,
    bytes: usize,
    port: String,
    path: String,
    name: String,
    protocol: FileTransferProtocol,
    fault: String,
    r: Progress,
    s: Progress,
    t: Progress,
)
    requires
        run.under_way(bytes),
        e.next(Operation::Device(DeviceOp::Step { run, bytes }), Event::Error(fault), r),
        e.next(
            Operation::Transfer(TransferOp::Send { port, path, name, protocol }),
            Event::Error(fault),
            s,
        ),
        e.next(
            Operation::Transfer(TransferOp::SendFile { port, path, name, protocol }),
            Event::Error(fault),
            t,
        ),
    ensures
        r matches Progress::Done(Err(EngineError::Tool(_))),
        s matches Progress::Done(Err(EngineError::Transfer(m))) && m@ == fault@,
        t matches Progress::Done(Err(EngineError::Io { path: p, source })) && p@ == path@ && source@
            == fault@,
{
}

/// The words with which an error is told begin with what went wrong and end with
/// why.
pub proof fn errors_are_told(m: String, n: String)
    ensures
        EngineError::Storage(m).message() == m@,
        EngineError::Regex(m).message() == "invalid regex: "@ + m@,
        (EngineError::Io { path: n, source: m }).message() == "io error on '"@ + n@ + "': "@ + m@,
        EngineError::Invalid(m).message() == "invalid argument: "@ + m@,
        (EngineError::UnknownMacro { name: n, available: m }).message() == "unknown macro '"@ + n@
            + "'. Available: "@ + m@,
        EngineError::Transfer(m).message() == "file transfer failed: "@ + m@,
        EngineError::Tool(m).message() == m@,
        EngineError::Task(m).message() == "internal task failed: "@ + m@,
{
}

/// A file that went through is noted in the buffer of its port, with the
/// direction, the protocol, the name and the size.
pub proof fn transfers_are_noted(
    e: CommandEngine,
    port: String,
    path: String,
    name: String,
    protocol: FileTransferProtocol,
    n: usize,
    bytes: u64,
    sent: Progress,
    received: Progress,
    label: Seq<char>,
)
    requires
        e.next(
            Operation::Transfer(TransferOp::Send { port, path, name, protocol }),
            Event::Sent(n),
            sent,
        ),
        e.next(
            Operation::Transfer(TransferOp::ReceiveWrite { port, path, protocol, name, bytes }),
            Event::Done,
            received,
        ),
        label == (match protocol {
            FileTransferProtocol::Xmodem => "Xmodem"@,
            FileTransferProtocol::XmodemCrc => "XmodemCrc"@,
            FileTransferProtocol::Xmodem1k => "Xmodem1k"@,
            FileTransferProtocol::Ymodem => "Ymodem"@,
            FileTransferProtocol::Zmodem => "Zmodem"@,
        }),
    ensures
        sent matches Progress::Do(Work::Log { port: p, message }, _) && p@ == port@ && message@
            == "━━━ TRANSFER "@ + "SEND"@ + " "@ + label + " '"@ + name@ + "' ("@ + text::dec_nat(
            (n as u64) as nat,
        ) + " bytes) → OK ━━━"@,
        received matches Progress::Do(Work::Log { port: p, message }, _) && p@ == port@ && message@
            == "━━━ TRANSFER "@ + "RECV"@ + " "@ + label + " '"@ + name@ + "' ("@ + text::dec_nat(
            bytes as nat,
        ) + " bytes) → OK ━━━"@,
{
}

/// A macro that is not known is refused with those that are.
pub proof fn unknown_macros_are_refused_with_the_known(
    e: CommandEngine,
    port: String,
    name: String,
    stamp: Seq<char>,
    a: Progress,
)
    requires
        e.begins(RequestPayload::ExecuteMacro { port, macro_name: name }, stamp, a),
        e.config.spec_steps(name@) is None,
    ensures
        a matches Progress::Done(Err(EngineError::UnknownMacro { name: n, available })) && n@ == name@
            && exists|names: Seq<String>| #[trigger]
            e.config.lists_macros(names) && available@ == text::joined(text::texts(names), ", "@),
{
}

} // verus!
