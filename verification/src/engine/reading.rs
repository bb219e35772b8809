//! Reading, searching, exporting and clearing the captured lines.
use vstd::prelude::*;
use vstd::string::*;

use crate::engine::{EngineError, Event, Operation, Progress, Work};
use crate::export;
use crate::export::ExportFormat;
use crate::paths;
use crate::paths::{archive_path, climbs, directory};
use crate::pattern;
use crate::pattern::{compile, is_match};
use crate::protocol::{
    LinesPage, ReadWindow, ResponsePayload, SearchMode, DEFAULT_READ_LIMIT,
    DEFAULT_SEARCH_LIMIT, MAX_READ_LIMIT, MAX_SEARCH_LIMIT,
};
use crate::reader::ConnectionState;
use crate::storage::{StoredLine, TimeRange};
use crate::text;
use crate::text::{concat2, contains, decimal_i64, same};

verus! {

// ---------------------------------------------------------------------------
// Windows
// ---------------------------------------------------------------------------

/// A number of lines as a line id.
pub open spec fn total_as_id(total_lines: u64) -> i64 {
    if total_lines > i64::MAX {
        i64::MAX
    } else {
        total_lines as i64
    }
}

/// The first line id that a window asks for.
pub open spec fn first_id(window: ReadWindow, total_lines: u64) -> int {
    let total = total_as_id(total_lines) as int;
    let id = match (window.tail, window.after_id, window.start_id) {
        (Some(tail), _, _) => total - tail + 1,
        (None, Some(after), _) => if after == i64::MAX {
            after as int
        } else {
            after + 1
        },
        (None, None, Some(start)) => if start < 0 {
            total + start + 1
        } else {
            start as int
        },
        (None, None, None) => 1,
    };
    if id < 1 {
        1
    } else {
        id
    }
}

/// Translate a read window into a first line id.
///
/// The last zero lines of a buffer that is full to the last id begin behind
/// that id, where there is no id any more.
pub fn resolve_start(window: &ReadWindow, total_lines: u64) -> (r: i64)
    requires
        window.tail == Some(0u32) ==> total_lines < i64::MAX,
    ensures
        r == first_id(*window, total_lines),
        r >= 1,
{
    let total: i64 = if total_lines > i64::MAX as u64 {
        i64::MAX
    } else {
        total_lines as i64
    };
    let id: i64 = if let Some(tail) = window.tail {
        total - tail as i64 + 1
    } else if let Some(after) = window.after_id {
        if after == i64::MAX {
            after
        } else {
            after + 1
        }
    } else {
        match window.start_id {
            Some(start) => if start < 0 {
                total + start + 1
            } else {
                start
            },
            None => 1,
        }
    };
    if id < 1 {
        1
    } else {
        id
    }
}

/// Asking for the last lines and asking for those behind the line in front of
/// them gives the same lines.
pub proof fn tail_agrees_with_after(tail: u32, total_lines: u64)
    requires
        tail <= total_lines <= i64::MAX,
        total_lines - tail < i64::MAX,
    ensures
        first_id(
            (ReadWindow { tail: Some(tail), ..crate::protocol::whole_window() }),
            total_lines,
        ) == first_id(
            (ReadWindow {
                after_id: Some((total_lines - tail) as i64),
                ..crate::protocol::whole_window()
            }),
            total_lines,
        ),
{
}

/// A negative start counts back from the end: the last `n` lines are those from
/// `-n` on.
pub proof fn negative_start_counts_from_the_end(n: u32, total_lines: u64)
    requires
        0 < n,
    ensures
        first_id(
            (ReadWindow { start_id: Some((-n) as i64), ..crate::protocol::whole_window() }),
            total_lines,
        ) == first_id(
            (ReadWindow { tail: Some(n), ..crate::protocol::whole_window() }),
            total_lines,
        ),
{
}

/// Which lines of the store a read takes.
#[derive(Debug, Clone, Copy, PartialEq, Eq, Structural)]
pub enum LineQuery {
    /// Lines newer than an instant.
    Since { since_ns: i64, limit: u32 },
    /// Lines from an id on.
    From { start: i64, limit: u32 },
}

/// The lines that a window asks for, given how many there are.
pub fn line_query(window: &ReadWindow, total_lines: u64, limit: u32) -> (r: LineQuery)
    requires
        window.since_ns is None && window.tail == Some(0u32) ==> total_lines < i64::MAX,
    ensures
        match window.since_ns {
            Some(since) => r == (LineQuery::Since { since_ns: since, limit }),
            None => r matches LineQuery::From { start, limit: l } && start == first_id(
                *window,
                total_lines,
            ) && l == limit,
        },
{
    match window.since_ns {
        Some(since_ns) => LineQuery::Since { since_ns, limit },
        None => LineQuery::From { start: resolve_start(window, total_lines), limit },
    }
}

/// The id behind which the next read goes on.
pub open spec fn next_id(window: ReadWindow, total_lines: u64, lines: Seq<StoredLine>) -> i64 {
    if lines.len() > 0 {
        lines.last().id
    } else {
        match window.after_id {
            Some(id) => id,
            None => total_as_id(total_lines),
        }
    }
}

/// The page that a read gives.
pub fn page_of(window: &ReadWindow, total_lines: u64, lines: Vec<StoredLine>) -> (r: LinesPage)
    ensures
        r.lines == lines,
        r.total_lines == total_lines,
        r.next_after_id == next_id(*window, total_lines, lines@),
{
    let next_after_id: i64 = if lines.len() > 0 {
        lines[lines.len() - 1].id
    } else {
        match window.after_id {
            Some(id) => id,
            None => if total_lines > i64::MAX as u64 {
                i64::MAX
            } else {
                total_lines as i64
            },
        }
    };
    LinesPage { lines, total_lines, next_after_id }
}

/// A read that goes on where a page ended begins right behind its last line,
/// however many lines came in meanwhile.
pub proof fn reading_goes_on_behind_the_page(
    window: ReadWindow,
    total_lines: u64,
    lines: Seq<StoredLine>,
    later_total: u64,
)
    requires
        lines.len() > 0,
        0 <= lines.last().id < i64::MAX,
    ensures
        first_id(
            (ReadWindow {
                after_id: Some(next_id(window, total_lines, lines)),
                ..crate::protocol::whole_window()
            }),
            later_total,
        ) == lines.last().id + 1,
{
}

/// How many lines a read gives at most.
pub open spec fn effective_limit(limit: Option<u32>, default: u32, max: u32) -> u32 {
    let v = match limit {
        Some(v) => v,
        None => default,
    };
    if v < 1 {
        1
    } else if v > max {
        max
    } else {
        v
    }
}

fn clamp_limit(limit: Option<u32>, default: u32, max: u32) -> (r: u32)
    ensures
        r == effective_limit(limit, default, max),
{
    let v = match limit {
        Some(v) => v,
        None => default,
    };
    if v < 1 {
        1
    } else if v > max {
        max
    } else {
        v
    }
}

/// How many lines a read of this window gives at most.
pub fn read_limit(window: &ReadWindow) -> (r: u32)
    ensures
        r == effective_limit(window.limit, DEFAULT_READ_LIMIT, MAX_READ_LIMIT),
        1 <= r <= MAX_READ_LIMIT,
{
    clamp_limit(window.limit, DEFAULT_READ_LIMIT, MAX_READ_LIMIT)
}

/// How many results a search gives at most.
pub fn search_limit(limit: Option<u32>) -> (r: u32)
    ensures
        r == effective_limit(limit, DEFAULT_SEARCH_LIMIT, MAX_SEARCH_LIMIT),
        1 <= r <= MAX_SEARCH_LIMIT,
{
    clamp_limit(limit, DEFAULT_SEARCH_LIMIT, MAX_SEARCH_LIMIT)
}

// ---------------------------------------------------------------------------
// Search
// ---------------------------------------------------------------------------

/// A span of time of which one end or both may be open.
pub open spec fn range_of(start_ns: Option<i64>, end_ns: Option<i64>) -> Option<TimeRange> {
    if start_ns is None && end_ns is None {
        None
    } else {
        Some(
            TimeRange {
                start_ns: match start_ns {
                    Some(v) => v,
                    None => 0,
                },
                end_ns: match end_ns {
                    Some(v) => v,
                    None => i64::MAX,
                },
            },
        )
    }
}

/// The span of time between two ends, with open ends filled.
pub fn time_range(start_ns: Option<i64>, end_ns: Option<i64>) -> (r: Option<TimeRange>)
    ensures
        r == range_of(start_ns, end_ns),
{
    match (start_ns, end_ns) {
        (None, None) => None,
        (start, end) => Some(
            TimeRange {
                start_ns: match start {
                    Some(v) => v,
                    None => 0,
                },
                end_ns: match end {
                    Some(v) => v,
                    None => i64::MAX,
                },
            },
        ),
    }
}

/// A search that can be carried out.
pub struct SearchPlan {
    pub query: String,
    pub mode: SearchMode,
    pub range: Option<TimeRange>,
    pub limit: u32,
    /// The query as a regular expression, where it is one.
    pub regex: Option<regex::Regex>,
}

/// Whether a line answers a query.
pub open spec fn hits(mode: SearchMode, query: Seq<char>, payload: Seq<char>) -> bool {
    match mode {
        SearchMode::Substring => text::occurs_in(payload, query),
        SearchMode::Exact => payload == query,
        SearchMode::Regex => pattern::pattern_hits(query, payload),
    }
}

impl SearchPlan {
    /// Whether the compiled expression belongs to the query.
    pub open spec fn wf(self) -> bool {
        match self.regex {
            Some(re) => self.mode is Regex && pattern::source_of(re) == self.query@,
            None => !(self.mode is Regex),
        }
    }

    /// Whether a line answers the query.
    pub fn matches(&self, payload: &str) -> (r: bool)
        requires
            self.wf(),
        ensures
            r == hits(self.mode, self.query@, payload@),
    {
        match (&self.regex, self.mode) {
            (Some(re), _) => is_match(re, payload),
            (None, SearchMode::Exact) => same(payload, self.query.as_str()),
            (None, _) => contains(payload, self.query.as_str()),
        }
    }
}

/// Prepare a search. A pattern that is no regular expression is refused before
/// the store is touched.
pub fn plan_search(
    query: &str,
    mode: SearchMode,
    start_ns: Option<i64>,
    end_ns: Option<i64>,
    limit: Option<u32>,
) -> (r: Result<SearchPlan, EngineError>)
    ensures
        match r {
            Ok(p) => {
                &&& mode is Regex ==> pattern::pattern_fault(query@) is None
                &&& p.wf()
                &&& p.query@ == query@
                &&& p.mode == mode
                &&& p.range == range_of(start_ns, end_ns)
                &&& p.limit == effective_limit(limit, DEFAULT_SEARCH_LIMIT, MAX_SEARCH_LIMIT)
            },
            Err(EngineError::Regex(e)) => mode is Regex && pattern::pattern_fault(query@) == Some(
                e@,
            ),
            Err(_) => false,
        },
{
    let regex = match mode {
        SearchMode::Regex => match compile(query) {
            Ok(re) => Some(re),
            Err(e) => {
                return Err(EngineError::Regex(e));
            },
        },
        _ => None,
    };
    Ok(
        SearchPlan {
            query: query.to_owned(),
            mode,
            range: time_range(start_ns, end_ns),
            limit: search_limit(limit),
            regex,
        },
    )
}

// ---------------------------------------------------------------------------
// Operations
// ---------------------------------------------------------------------------

/// Where an operation on captured lines stands.
pub enum ReadOp {
    /// A page is being read.
    Page { port: String, window: ReadWindow, limit: u32 },
    /// Nothing was there yet; after a pause the page is read again.
    Pause { port: String, window: ReadWindow, limit: u32 },
    /// The state of the port is asked for.
    State { port: String },
    /// The size of the buffer is asked for, to complete a status.
    Status { port: String, state: ConnectionState },
    /// The size of the buffer is asked for.
    Stats,
    /// The store is being searched.
    Search,
    /// It is being looked whether the directory of an export exists.
    ExportDir { port: String, path: String, format: ExportFormat, start: i64, end: i64 },
    /// The lines to export are being read.
    ExportLines { path: String, format: ExportFormat },
    /// The export is being written.
    ExportWrite { path: String, format: ExportFormat, lines: u64 },
    /// The absolute form of the path is asked for.
    ExportPath { path: String, format: ExportFormat, lines: u64 },
    /// The lines are being cleared.
    Clear { archive: Option<String> },
}

/// How long a read that waits pauses before it looks again, in milliseconds.
pub const POLL_MS: u64 = 50;

/// Whether a read that found nothing looks again.
pub open spec fn looks_again(window: ReadWindow, found: nat, elapsed_ms: u64) -> bool {
    found == 0 && window.wait_ms is Some && elapsed_ms < window.wait_ms->0
}

/// What a step of an operation on captured lines waits for.
pub open spec fn read_expects(op: ReadOp, ev: Event) -> bool {
    match op {
        ReadOp::Page { .. } => ev is Page || ev is Failed,
        ReadOp::Pause { .. } => ev is Done,
        ReadOp::State { .. } => ev is State || ev is Failed,
        ReadOp::Status { .. } => ev is Stats || ev is Failed,
        ReadOp::Stats => ev is Stats || ev is Failed,
        ReadOp::Search => ev is Found || ev is Failed,
        ReadOp::ExportDir { .. } => ev is Exists,
        ReadOp::ExportLines { .. } => ev is Lines || ev is Failed,
        ReadOp::ExportWrite { .. } => ev is Done || ev is Failed,
        ReadOp::ExportPath { .. } => ev is Path || ev is Error,
        ReadOp::Clear { .. } => ev is Count || ev is Failed,
    }
}

/// Whether the next step is to read a page.
pub open spec fn asks_page(port: Seq<char>, window: ReadWindow, limit: u32, r: Progress) -> bool {
    &&& r matches Progress::Do(
        Work::ReadPage { port: p, window: w, limit: l },
        Operation::Read(ReadOp::Page { port: q, window: v, limit: m }),
    )
    &&& p@ == port
    &&& q@ == port
    &&& w == window
    &&& v == window
    &&& l == limit
    &&& m == limit
}

/// Whether an export is refused for its range, or reads the lines of the range.
pub open spec fn asks_range(
    port: Seq<char>,
    path: Seq<char>,
    format: ExportFormat,
    start: i64,
    end: i64,
    r: Progress,
) -> bool {
    if end < start {
        r matches Progress::Done(Err(EngineError::Invalid(m))) && m@ == "end line "@
            + text::dec_int(end as int) + " is before start line "@ + text::dec_int(start as int)
    } else {
        &&& r matches Progress::Do(
            Work::ReadRange { port: p, start: a, end: b },
            Operation::Read(ReadOp::ExportLines { path: q, format: f }),
        )
        &&& p@ == port
        &&& a == start
        &&& b == end
        &&& q@ == path
        &&& f == format
    }
}

/// How an operation on captured lines goes on.
pub open spec fn read_next(op: ReadOp, ev: Event, r: Progress) -> bool {
    match (op, ev) {
        (ReadOp::Page { port, window, limit }, Event::Page(page, elapsed_ms)) => if looks_again(
            window,
            page.lines@.len(),
            elapsed_ms,
        ) {
            &&& r matches Progress::Do(
                Work::Sleep(ms),
                Operation::Read(ReadOp::Pause { port: p, window: w, limit: l }),
            )
            &&& ms == POLL_MS
            &&& p@ == port@
            &&& w == window
            &&& l == limit
        } else {
            r == Progress::Done(Ok(ResponsePayload::Lines(page)))
        },
        (ReadOp::Pause { port, window, limit }, Event::Done) => asks_page(port@, window, limit, r),
        (ReadOp::State { port }, Event::State(state)) => {
            &&& r matches Progress::Do(
                Work::Stats { port: p },
                Operation::Read(ReadOp::Status { port: q, state: s }),
            )
            &&& p@ == port@
            &&& q@ == port@
            &&& s == state
        },
        (ReadOp::Status { port, state }, Event::Stats(stats)) => r matches Progress::Done(
            Ok(ResponsePayload::Status { name, state: s, stats: b }),
        ) && name@ == port@ && s == state && b == stats,
        (ReadOp::Stats, Event::Stats(stats)) => r == Progress::Done(
            Ok(ResponsePayload::Stats(stats)),
        ),
        (ReadOp::Search, Event::Found(outcome)) => r == Progress::Done(
            Ok(ResponsePayload::SearchResults(outcome)),
        ),
        (ReadOp::ExportDir { port, path, format, start, end }, Event::Exists(yes)) => if yes {
            asks_range(port@, path@, format, start, end, r)
        } else {
            r matches Progress::Done(Err(EngineError::Invalid(m))) && m@
                == "parent directory does not exist: "@ + paths::directory_of(path@)
        },
        (ReadOp::ExportLines { path, format }, Event::Lines(lines)) => {
            &&& r matches Progress::Do(
                Work::WriteText { path: p, text: t },
                Operation::Read(ReadOp::ExportWrite { path: q, format: f, lines: n }),
            )
            &&& p@ == path@
            &&& t@ == export::header_text(format) + export::lines_text(lines@, format)
            &&& q@ == path@
            &&& f == format
            &&& n == lines@.len()
        },
        (ReadOp::ExportWrite { path, format, lines }, Event::Done) => {
            &&& r matches Progress::Do(
                Work::Absolute { path: p },
                Operation::Read(ReadOp::ExportPath { path: q, format: f, lines: n }),
            )
            &&& p@ == path@
            &&& q@ == path@
            &&& f == format
            &&& n == lines
        },
        (ReadOp::ExportPath { path, format, lines }, Event::Path(absolute)) => r
            matches Progress::Done(
            Ok(ResponsePayload::ExportSuccess { lines_exported, path: p, file_format }),
        ) && lines_exported == lines && p@ == absolute@ && file_format == format,
        // Where there is no absolute form, the path is reported as it was given.
        (ReadOp::ExportPath { path, format, lines }, Event::Error(_)) => r
            matches Progress::Done(
            Ok(ResponsePayload::ExportSuccess { lines_exported, path: p, file_format }),
        ) && lines_exported == lines && p@ == path@ && file_format == format,
        (ReadOp::Clear { archive }, Event::Count(n)) => r matches Progress::Done(
            Ok(ResponsePayload::ClearSuccess { lines_cleared, archive_path }),
        ) && lines_cleared == n && archive_path == archive,
        (_, Event::Failed(f)) => r == Progress::Done(Err(f)),
        _ => false,
    }
}

/// The first step of a read.
pub fn read_lines(port: String, window: ReadWindow) -> (r: Progress)
    ensures
        asks_page(
            port@,
            window,
            effective_limit(window.limit, DEFAULT_READ_LIMIT, MAX_READ_LIMIT),
            r,
        ),
{
    let limit = read_limit(&window);
    Progress::Do(
        Work::ReadPage { port: port.clone(), window, limit },
        Operation::Read(ReadOp::Page { port, window, limit }),
    )
}

/// How a search begins.
pub open spec fn search_begins(
    port: Seq<char>,
    query: Seq<char>,
    mode: SearchMode,
    start_ns: Option<i64>,
    end_ns: Option<i64>,
    limit: Option<u32>,
    r: Progress,
) -> bool {
    if mode is Regex && pattern::pattern_fault(query) is Some {
        r matches Progress::Done(Err(EngineError::Regex(e))) && pattern::pattern_fault(query)
            == Some(e@)
    } else {
        &&& r matches Progress::Do(
            Work::Search { port: p, plan },
            Operation::Read(ReadOp::Search),
        )
        &&& p@ == port
        &&& plan.wf()
        &&& plan.query@ == query
        &&& plan.mode == mode
        &&& plan.range == range_of(start_ns, end_ns)
        &&& plan.limit == effective_limit(limit, DEFAULT_SEARCH_LIMIT, MAX_SEARCH_LIMIT)
    }
}

/// The first step of a search.
pub fn search(
    port: String,
    query: &str,
    mode: SearchMode,
    start_ns: Option<i64>,
    end_ns: Option<i64>,
    limit: Option<u32>,
) -> (r: Progress)
    ensures
        search_begins(port@, query@, mode, start_ns, end_ns, limit, r),
{
    match plan_search(query, mode, start_ns, end_ns, limit) {
        Ok(plan) => Progress::Do(Work::Search { port, plan }, Operation::Read(ReadOp::Search)),
        Err(e) => Progress::Done(Err(e)),
    }
}

/// Check the range of an export, and read its lines.
fn export_range(port: String, path: String, format: ExportFormat, start: i64, end: i64) -> (r:
    Progress)
    ensures
        asks_range(port@, path@, format, start, end, r),
{
    if end < start {
        let mut m = concat2("end line ", decimal_i64(end).as_str());
        m.append(" is before start line ");
        m.append(decimal_i64(start).as_str());
        Progress::Done(Err(EngineError::Invalid(m)))
    } else {
        Progress::Do(
            Work::ReadRange { port, start, end },
            Operation::Read(ReadOp::ExportLines { path, format }),
        )
    }
}

/// How an export begins: a path that leads upwards is refused; the directory of
/// any other has to exist; the range must not be empty.
pub open spec fn export_begins(
    port: Seq<char>,
    path: Seq<char>,
    format: ExportFormat,
    start: i64,
    end: i64,
    r: Progress,
) -> bool {
    if paths::leads_up(path) {
        r matches Progress::Done(Err(EngineError::Invalid(m))) && m@
            == "output path must not contain '..' components"@
    } else if paths::directory_of(path).len() == 0 {
        asks_range(port, path, format, start, end, r)
    } else {
        &&& r matches Progress::Do(
            Work::Exists { path: d },
            Operation::Read(
                ReadOp::ExportDir { port: p, path: q, format: f, start: a, end: b },
            ),
        )
        &&& d@ == paths::directory_of(path)
        &&& p@ == port
        &&& q@ == path
        &&& f == format
        &&& a == start
        &&& b == end
    }
}

/// The first step of an export.
pub fn export_lines(
    port: String,
    output_path: String,
    file_format: Option<ExportFormat>,
    start_line: Option<i64>,
    end_line: Option<i64>,
) -> (r: Progress)
    ensures
        export_begins(
            port@,
            output_path@,
            match file_format {
                Some(f) => f,
                None => ExportFormat::Txt,
            },
            match start_line {
                Some(v) => v,
                None => 1,
            },
            match end_line {
                Some(v) => v,
                None => i64::MAX,
            },
            r,
        ),
{
    if climbs(output_path.as_str()) {
        return Progress::Done(
            Err(
                EngineError::Invalid("output path must not contain '..' components".to_owned()),
            ),
        );
    }
    let format = match file_format {
        Some(f) => f,
        None => ExportFormat::default(),
    };
    let start: i64 = match start_line {
        Some(v) => v,
        None => 1,
    };
    let end: i64 = match end_line {
        Some(v) => v,
        None => i64::MAX,
    };
    let dir = directory(output_path.as_str());
    if dir.as_str().is_empty() {
        export_range(port, output_path, format, start, end)
    } else {
        Progress::Do(
            Work::Exists { path: dir },
            Operation::Read(ReadOp::ExportDir { port, path: output_path, format, start, end }),
        )
    }
}

/// How the clearing of a buffer begins: where a copy is wanted, it goes into the
/// archive directory, named after the port and the moment.
pub open spec fn clear_begins(
    archive_dir: Seq<char>,
    port: Seq<char>,
    stamp: Option<Seq<char>>,
    r: Progress,
) -> bool {
    &&& r matches Progress::Do(
        Work::Clear { port: p, archive: a },
        Operation::Read(ReadOp::Clear { archive: b }),
    )
    &&& p@ == port
    &&& a == b
    &&& match (stamp, a) {
        (Some(t), Some(path)) => path@ == paths::archive_name(archive_dir, port, t),
        (None, None) => true,
        _ => false,
    }
}

/// The first step of clearing a buffer, where `stamp` names the moment if a copy
/// is wanted.
pub fn clear_at(archive_dir: &str, port: String, stamp: Option<String>) -> (r: Progress)
    ensures
        clear_begins(
            archive_dir@,
            port@,
            match stamp {
                Some(t) => Some(t@),
                None => None,
            },
            r,
        ),
{
    let archive = match stamp {
        Some(t) => Some(archive_path(archive_dir, port.as_str(), t.as_str())),
        None => None,
    };
    let copy = match &archive {
        Some(p) => Some(p.clone()),
        None => None,
    };
    Progress::Do(
        Work::Clear { port, archive },
        Operation::Read(ReadOp::Clear { archive: copy }),
    )
}

/// Go on with an operation on captured lines.
pub fn read_step(op: ReadOp, ev: Event) -> (r: Progress)
    requires
        read_expects(op, ev),
    ensures
        read_next(op, ev, r),
{
    match (op, ev) {
        (ReadOp::Page { port, window, limit }, Event::Page(page, elapsed_ms)) => {
            let again = page.lines.len() == 0 && match window.wait_ms {
                Some(ms) => elapsed_ms < ms,
                None => false,
            };
            if again {
                Progress::Do(
                    Work::Sleep(POLL_MS),
                    Operation::Read(ReadOp::Pause { port, window, limit }),
                )
            } else {
                Progress::Done(Ok(ResponsePayload::Lines(page)))
            }
        },
        (ReadOp::Pause { port, window, limit }, Event::Done) => Progress::Do(
            Work::ReadPage { port: port.clone(), window, limit },
            Operation::Read(ReadOp::Page { port, window, limit }),
        ),
        (ReadOp::State { port }, Event::State(state)) => Progress::Do(
            Work::Stats { port: port.clone() },
            Operation::Read(ReadOp::Status { port, state }),
        ),
        (ReadOp::Status { port, state }, Event::Stats(stats)) => Progress::Done(
            Ok(ResponsePayload::Status { name: port, state, stats }),
        ),
        (ReadOp::Stats, Event::Stats(stats)) => Progress::Done(Ok(ResponsePayload::Stats(stats))),
        (ReadOp::Search, Event::Found(outcome)) => Progress::Done(
            Ok(ResponsePayload::SearchResults(outcome)),
        ),
        (ReadOp::ExportDir { port, path, format, start, end }, Event::Exists(yes)) => if yes {
            export_range(port, path, format, start, end)
        } else {
            let dir = directory(path.as_str());
            Progress::Done(
                Err(
                    EngineError::Invalid(
                        concat2("parent directory does not exist: ", dir.as_str()),
                    ),
                ),
            )
        },
        (ReadOp::ExportLines { path, format }, Event::Lines(lines)) => {
            let mut out = String::new();
            let _ = export::write_all(&mut out, lines.as_slice(), format);
            assert(out@ =~= export::header_text(format) + export::lines_text(lines@, format));
            Progress::Do(
                Work::WriteText { path: path.clone(), text: out },
                Operation::Read(
                    ReadOp::ExportWrite { path, format, lines: lines.len() as u64 },
                ),
            )
        },
        (ReadOp::ExportWrite { path, format, lines }, Event::Done) => Progress::Do(
            Work::Absolute { path: path.clone() },
            Operation::Read(ReadOp::ExportPath { path, format, lines }),
        ),
        (ReadOp::ExportPath { path: _, format, lines }, Event::Path(absolute)) => Progress::Done(
            Ok(
                ResponsePayload::ExportSuccess {
                    lines_exported: lines,
                    path: absolute,
                    file_format: format,
                },
            ),
        ),
        (ReadOp::ExportPath { path, format, lines }, Event::Error(_)) => Progress::Done(
            Ok(
                ResponsePayload::ExportSuccess {
                    lines_exported: lines,
                    path,
                    file_format: format,
                },
            ),
        ),
        (ReadOp::Clear { archive }, Event::Count(n)) => Progress::Done(
            Ok(ResponsePayload::ClearSuccess { lines_cleared: n, archive_path: archive }),
        ),
        (_, Event::Failed(f)) => Progress::Done(Err(f)),
        // Nothing else is reported to these steps.
        (_, _) => {
            assert(false);
            Progress::Done(Ok(ResponsePayload::Pong))
        },
    }
}

} // verus!
