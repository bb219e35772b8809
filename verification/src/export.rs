//! Export serialization, shared by the CLI, the MCP server and the GUI.
//!
//! One format definition for all callers, so the same command produces the same
//! file however it was invoked.
use vstd::prelude::*;
use vstd::string::*;

use crate::clock;
use crate::clock::{
    format_local, format_now, format_utc, FILE_NAME_PATTERN, RECORD_PATTERN, TIME_OF_DAY_PATTERN,
};
use crate::json;
use crate::json::json_string;
use crate::paths;
use crate::serial_params;
use crate::storage::StoredLine;
use crate::text;
use crate::text::{chars_of, concat2, concat3, decimal_i64, same, to_lower, trim};

verus! {

/// Upper bound on lines pulled into memory for one export.
///
/// Shared by both surfaces, so a terminal export cannot quietly take more than
/// the window would.
pub const MAX_EXPORT_LINES: u32 = 500_000;

/// What the surfaces put next to their timestamps, once.
///
/// Displayed times are local and carry no zone of their own; a record carries
/// UTC and says so with a `Z`.
pub const DISPLAY_ZONE_NOTE: &'static str = "times local";

/// Output format for exported capture data.
#[derive(Debug, Clone, Copy, PartialEq, Eq, Structural)]
pub enum ExportFormat {
    /// Raw payloads, one per line.
    Txt,
    /// RFC 4180 comma separated values with a header row.
    Csv,
    /// One JSON object per line.
    Jsonl,
}

/// What a text means as an export format.
pub open spec fn format_of(s: Seq<char>) -> Option<ExportFormat> {
    let n = serial_params::normal(s);
    if n == "txt"@ || n == "text"@ || n == "log"@ {
        Some(ExportFormat::Txt)
    } else if n == "csv"@ {
        Some(ExportFormat::Csv)
    } else if n == "jsonl"@ || n == "ndjson"@ {
        Some(ExportFormat::Jsonl)
    } else {
        None
    }
}

impl ExportFormat {
    /// The textual form, which is also the file extension.
    pub open spec fn name(self) -> Seq<char> {
        match self {
            ExportFormat::Txt => "txt"@,
            ExportFormat::Csv => "csv"@,
            ExportFormat::Jsonl => "jsonl"@,
        }
    }

    /// Conventional file extension.
    pub fn extension(self) -> (r: &'static str)
        ensures
            r@ == self.name(),
    {
        match self {
            ExportFormat::Txt => "txt",
            ExportFormat::Csv => "csv",
            ExportFormat::Jsonl => "jsonl",
        }
    }

    /// All variants, in presentation order.
    pub fn all() -> (r: [ExportFormat; 3])
        ensures
            r@ == seq![ExportFormat::Txt, ExportFormat::Csv, ExportFormat::Jsonl],
    {
        let r = [ExportFormat::Txt, ExportFormat::Csv, ExportFormat::Jsonl];
        assert(r@ =~= seq![ExportFormat::Txt, ExportFormat::Csv, ExportFormat::Jsonl]);
        r
    }

    /// The textual form.
    pub fn to_string(&self) -> (r: String)
        ensures
            r@ == self.name(),
    {
        self.extension().to_owned()
    }

    /// Which format a text stands for, and what is said of another.
    pub open spec fn reads(s: &str, r: Result<ExportFormat, ExportError>) -> bool {
        match r {
            Ok(f) => format_of(s@) == Some(f),
            Err(ExportError::UnknownFormat(t)) => format_of(s@) is None && t@
                == serial_params::normal(s@),
            Err(_) => false,
        }
    }

    /// Read an export format; anything but a known name is refused.
    pub fn parse(s: &str) -> (r: Result<ExportFormat, ExportError>)
        ensures
            Self::reads(s, r),
    {
        let n = to_lower(trim(s).as_str());
        let t = n.as_str();
        if same(t, "txt") || same(t, "text") || same(t, "log") {
            Ok(ExportFormat::Txt)
        } else if same(t, "csv") {
            Ok(ExportFormat::Csv)
        } else if same(t, "jsonl") || same(t, "ndjson") {
            Ok(ExportFormat::Jsonl)
        } else {
            Err(ExportError::UnknownFormat(n))
        }
    }
}

impl Default for ExportFormat {
    fn default() -> (r: ExportFormat)
        ensures
            r == ExportFormat::Txt,
    {
        ExportFormat::Txt
    }
}

impl std::str::FromStr for ExportFormat {
    type Err = ExportError;

    fn from_str(s: &str) -> Result<ExportFormat, ExportError> {
        ExportFormat::parse(s)
    }
}

/// The textual form of every export format reads back as that format.
pub proof fn export_format_reads_back(f: ExportFormat)
    ensures
        format_of(f.name()) == Some(f),
{
    reveal_strlit("txt");
    reveal_strlit("text");
    reveal_strlit("log");
    reveal_strlit("csv");
    reveal_strlit("jsonl");
    reveal_strlit("ndjson");
    serial_params::lemma_plain_word(f.name());
    assert("txt"@[0] == 't');
    assert("text"@[0] == 't');
    assert("log"@[0] == 'l');
    assert("csv"@[0] == 'c');
    assert("jsonl"@[0] == 'j');
    assert("ndjson"@[0] == 'n');
}

/// Export failures.
#[derive(Debug, Clone, PartialEq, Eq)]
pub enum ExportError {
    UnknownFormat(String),
    Io(String),
}

impl ExportError {
    /// The message of the error.
    pub open spec fn message(self) -> Seq<char> {
        match self {
            ExportError::UnknownFormat(t) => "unknown export format '"@ + t@
                + "', expected one of: txt, csv, jsonl"@,
            ExportError::Io(e) => "io error: "@ + e@,
        }
    }

    /// The message of the error.
    pub fn to_string(&self) -> (r: String)
        ensures
            r@ == self.message(),
    {
        match self {
            ExportError::UnknownFormat(t) => concat3(
                "unknown export format '",
                t.as_str(),
                "', expected one of: txt, csv, jsonl",
            ),
            ExportError::Io(e) => concat2("io error: ", e.as_str()),
        }
    }
}

// ---------------------------------------------------------------------------
// Times
// ---------------------------------------------------------------------------

/// A timestamp as it stands in a record; empty where there is no time.
pub open spec fn record_time(timestamp_ns: i64) -> Seq<char> {
    if timestamp_ns <= 0 {
        Seq::empty()
    } else {
        clock::utc_text(timestamp_ns, RECORD_PATTERN@)
    }
}

/// Render a timestamp for a record, exact and unambiguous.
///
/// RFC 3339 in UTC with all nine fractional digits, so the value survives a
/// round trip and sorts correctly as a string. At 115200 baud a byte takes about
/// 87 µs, so the digits below a millisecond are the ones anyone measuring a
/// device's response latency needs.
pub fn format_timestamp(timestamp_ns: i64) -> (r: String)
    ensures
        r@ == record_time(timestamp_ns),
        forall|m: i64| m <= timestamp_ns ==> text::at_or_before(#[trigger] record_time(m), r@),
        forall|m: i64|
            m < timestamp_ns && timestamp_ns > 0 ==> #[trigger] record_time(m) != r@,
        timestamp_ns > 0 ==> clock::is_record_of(timestamp_ns, r@),
{
    if timestamp_ns <= 0 {
        String::new()
    } else {
        format_utc(timestamp_ns, RECORD_PATTERN)
    }
}

/// Render a timestamp for a person to read on a screen.
///
/// Local time, milliseconds, no date: a monitor shows one line per row, and the
/// reader is sitting next to the device. Which zone is local rests on the
/// machine.
pub fn format_time_of_day(timestamp_ns: i64) -> (r: String)
    ensures
        clock::is_screen_time(timestamp_ns, r@),
{
    if timestamp_ns <= 0 {
        String::new()
    } else {
        let r = format_local(timestamp_ns, TIME_OF_DAY_PATTERN);
        proof {
            let secs = choose|secs: int| #[trigger]
                clock::is_offset(secs) && r@ == clock::day_time(
                    timestamp_ns + secs * 1_000_000_000,
                );
            clock::day_time_has_its_shape(timestamp_ns + secs * 1_000_000_000);
        }
        r
    }
}

/// The record and the screen form of a timestamp name one instant: the record
/// reads back as that instant, the screen shows that instant in some zone, and
/// the two agree in the milliseconds, which no zone changes.
pub proof fn both_forms_name_one_instant(
    timestamp_ns: i64,
    record: Seq<char>,
    screen: Seq<char>,
    parsed: Option<i64>,
)
    requires
        timestamp_ns > 0,
        record == record_time(timestamp_ns),
        clock::is_record_of(timestamp_ns, record),
        clock::is_screen_time(timestamp_ns, screen),
        clock::reads_back(record, parsed),
    ensures
        parsed == Some(timestamp_ns),
        clock::shows(parsed->0, screen),
        record.subrange(20, 23) == screen.subrange(9, 12),
{
    let secs = choose|secs: int| #[trigger]
        clock::is_offset(secs) && screen == clock::day_time(timestamp_ns + secs * 1_000_000_000);
    clock::zones_share_the_milliseconds(timestamp_ns as int, secs);
    assert(record.subrange(20, 23) =~= record.subrange(11, 23).subrange(9, 12));
}

/// Render the current instant for a person to read on a screen.
///
/// The surfaces stamp a line they sent themselves, which has no id in the
/// store yet and therefore no stored timestamp to render.
pub fn now_time_of_day() -> (r: String)
    ensures
        clock::is_time_of_day(r@),
{
    format_now(TIME_OF_DAY_PATTERN)
}

/// Render the current instant for a filename.
///
/// Local time, because a filename is something a person looks for. Which digits
/// come out rests on the clock; their shape does not.
pub fn now_for_filename() -> (r: String)
    ensures
        clock::is_file_stamp(r@),
{
    format_now(FILE_NAME_PATTERN)
}

// ---------------------------------------------------------------------------
// Records
// ---------------------------------------------------------------------------

/// One captured line as a JSON object.
pub open spec fn line_json(line: StoredLine) -> Seq<char> {
    "{\"id\":"@ + text::dec_int(line.id as int) + ",\"payload\":"@ + json::json_text(line.payload@)
        + ",\"timestamp\":"@ + json::json_text(record_time(line.timestamp_ns))
        + ",\"timestamp_ns\":"@ + json::json_text(text::dec_int(line.timestamp_ns as int)) + "}"@
}

/// One captured line as JSON.
///
/// The `jsonl` export and the HTTP interface hand out the same object, from
/// here, so a file on disk and a response on the wire carry the same records.
///
/// `timestamp_ns` is a string on purpose: a nanosecond epoch lies above
/// JavaScript's `MAX_SAFE_INTEGER`, and a reader that rounds it could not hand
/// it back as a filter.
pub fn line_object(line: &StoredLine) -> (r: String)
    ensures
        r@ == line_json(*line),
{
    let mut out = "{\"id\":".to_owned();
    out.append(decimal_i64(line.id).as_str());
    out.append(",\"payload\":");
    out.append(json_string(line.payload.as_str()).as_str());
    out.append(",\"timestamp\":");
    out.append(json_string(format_timestamp(line.timestamp_ns).as_str()).as_str());
    out.append(",\"timestamp_ns\":");
    out.append(json_string(decimal_i64(line.timestamp_ns).as_str()).as_str());
    out.append("}");
    out
}

/// A text with every quote doubled.
pub open spec fn doubled_quotes(s: Seq<char>) -> Seq<char>
    decreases s.len(),
{
    if s.len() == 0 {
        Seq::empty()
    } else if s.last() == '"' {
        doubled_quotes(s.drop_last()).push('"').push('"')
    } else {
        doubled_quotes(s.drop_last()).push(s.last())
    }
}

fn double_quotes(s: &str) -> (r: String)
    ensures
        r@ == doubled_quotes(s@),
{
    let c = chars_of(s);
    let mut out = String::new();
    let mut i: usize = 0;
    while i < c.len()
        invariant
            i <= c.len(),
            c@ == s@,
            out@ == doubled_quotes(s@.take(i as int)),
        decreases c.len() - i,
    {
        assert(s@.take(i + 1).drop_last() =~= s@.take(i as int));
        assert(s@.take(i + 1).last() == s@[i as int]);
        if c[i] == '"' {
            out.push('"');
        }
        out.push(c[i]);
        i = i + 1;
    }
    assert(s@.take(s@.len() as int) =~= s@);
    out
}

/// The header row of a format; empty where it has none.
pub open spec fn header_text(format: ExportFormat) -> Seq<char> {
    match format {
        ExportFormat::Csv => "id,timestamp,timestamp_ns,payload\n"@,
        _ => Seq::empty(),
    }
}

/// A line in a format, with its line end.
pub open spec fn line_text(line: StoredLine, format: ExportFormat) -> Seq<char> {
    match format {
        ExportFormat::Txt => line.payload@ + "\n"@,
        ExportFormat::Csv => text::dec_int(line.id as int) + ","@ + record_time(line.timestamp_ns)
            + ","@ + text::dec_int(line.timestamp_ns as int) + ",\""@ + doubled_quotes(
            line.payload@,
        ) + "\"\n"@,
        ExportFormat::Jsonl => line_json(line) + "\n"@,
    }
}

/// Lines in a format, one after the other.
pub open spec fn lines_text(lines: Seq<StoredLine>, format: ExportFormat) -> Seq<char>
    decreases lines.len(),
{
    if lines.len() == 0 {
        Seq::empty()
    } else {
        lines_text(lines.drop_last(), format) + line_text(lines.last(), format)
    }
}

/// Write the header row a format requires, if any.
pub fn write_header(writer: &mut String, format: ExportFormat) -> (r: Result<(), ExportError>)
    ensures
        r is Ok,
        final(writer)@ == old(writer)@ + header_text(format),
{
    if let ExportFormat::Csv = format {
        writer.append("id,timestamp,timestamp_ns,payload\n");
    } else {
        assert(writer@ =~= old(writer)@ + header_text(format));
    }
    Ok(())
}

/// Write a single line in the given format.
pub fn write_line(writer: &mut String, line: &StoredLine, format: ExportFormat) -> (r: Result<
    (),
    ExportError,
>)
    ensures
        r is Ok,
        final(writer)@ == old(writer)@ + line_text(*line, format),
{
    let ghost before = writer@;
    match format {
        ExportFormat::Txt => {
            writer.append(line.payload.as_str());
            writer.append("\n");
        },
        ExportFormat::Csv => {
            writer.append(decimal_i64(line.id).as_str());
            writer.append(",");
            writer.append(format_timestamp(line.timestamp_ns).as_str());
            writer.append(",");
            writer.append(decimal_i64(line.timestamp_ns).as_str());
            writer.append(",\"");
            writer.append(double_quotes(line.payload.as_str()).as_str());
            writer.append("\"\n");
        },
        ExportFormat::Jsonl => {
            writer.append(line_object(line).as_str());
            writer.append("\n");
        },
    }
    assert(writer@ =~= before + line_text(*line, format));
    Ok(())
}

/// Write a complete export, returning the number of lines written.
pub fn write_all(writer: &mut String, lines: &[StoredLine], format: ExportFormat) -> (r: Result<
    u64,
    ExportError,
>)
    ensures
        r matches Ok(n) && n == lines@.len(),
        final(writer)@ == old(writer)@ + header_text(format) + lines_text(lines@, format),
{
    let ghost before = writer@;
    let _ = write_header(writer, format);
    let mut i: usize = 0;
    assert(writer@ =~= before + header_text(format) + lines_text(lines@.take(0), format));
    while i < lines.len()
        invariant
            i <= lines.len(),
            writer@ == before + header_text(format) + lines_text(lines@.take(i as int), format),
        decreases lines.len() - i,
    {
        assert(lines@.take(i + 1).drop_last() =~= lines@.take(i as int));
        assert(lines@.take(i + 1).last() == lines@[i as int]);
        let _ = write_line(writer, &lines[i], format);
        assert(writer@ =~= before + header_text(format) + lines_text(lines@.take(i + 1), format));
        i = i + 1;
    }
    assert(lines@.take(lines@.len() as int) =~= lines@);
    Ok(lines.len() as u64)
}

/// Render a complete export into a string. It cannot fail.
pub fn to_string(lines: &[StoredLine], format: ExportFormat) -> (r: Result<String, ExportError>)
    ensures
        r matches Ok(s) && s@ == header_text(format) + lines_text(lines@, format),
{
    let mut out = String::new();
    let _ = write_all(&mut out, lines, format);
    assert(out@ =~= header_text(format) + lines_text(lines@, format));
    Ok(out)
}

/// Replace the extension of a path with the one matching a format.
pub fn with_format_extension(path: &str, format: ExportFormat) -> (r: String)
    ensures
        r@ == paths::sibling_with_extension(path@, format.name()),
{
    paths::sibling(path, format.extension())
}

// ---------------------------------------------------------------------------
// What a record keeps
// ---------------------------------------------------------------------------

/// A quoted text with every doubled quote made single again.
pub open spec fn single_quotes(s: Seq<char>) -> Seq<char>
    decreases s.len(),
{
    if s.len() == 0 {
        Seq::empty()
    } else if s.len() >= 2 && s.last() == '"' && s[s.len() - 2] == '"' {
        single_quotes(s.drop_last().drop_last()).push('"')
    } else {
        single_quotes(s.drop_last()).push(s.last())
    }
}

/// A CSV reader gets back exactly the payload that was captured, whatever
/// quotes it holds.
pub proof fn csv_payload_reads_back(payload: Seq<char>)
    ensures
        single_quotes(doubled_quotes(payload)) == payload,
    decreases payload.len(),
{
    if payload.len() > 0 {
        let head = payload.drop_last();
        csv_payload_reads_back(head);
        let d = doubled_quotes(payload);
        if payload.last() == '"' {
            assert(d.drop_last().drop_last() =~= doubled_quotes(head));
        } else {
            assert(d.drop_last() =~= doubled_quotes(head));
        }
        assert(head.push(payload.last()) =~= payload);
    }
}

/// A JSONL record is one line: its only control character is the line end.
pub proof fn jsonl_record_is_one_line(line: StoredLine)
    ensures
        ({
            let t = line_text(line, ExportFormat::Jsonl);
            &&& t.len() > 0
            &&& t.last() == '\n'
            &&& forall|i: int| 0 <= i < t.len() - 1 ==> #[trigger] t[i] >= '\u{20}'
        }),
{
    reveal_strlit("{\"id\":");
    reveal_strlit(",\"payload\":");
    reveal_strlit(",\"timestamp\":");
    reveal_strlit(",\"timestamp_ns\":");
    reveal_strlit("}");
    reveal_strlit("\n");
    json::json_text_is_one_line(line.payload@);
    json::json_text_is_one_line(record_time(line.timestamp_ns));
    json::json_text_is_one_line(text::dec_int(line.timestamp_ns as int));
    lemma_dec_int_printable(line.id as int);
    lemma_printable_add("{\"id\":"@, text::dec_int(line.id as int));
    let a = "{\"id\":"@ + text::dec_int(line.id as int);
    lemma_printable_add(a, ",\"payload\":"@);
    let b = a + ",\"payload\":"@;
    lemma_printable_add(b, json::json_text(line.payload@));
    let c = b + json::json_text(line.payload@);
    lemma_printable_add(c, ",\"timestamp\":"@);
    let d = c + ",\"timestamp\":"@;
    lemma_printable_add(d, json::json_text(record_time(line.timestamp_ns)));
    let e = d + json::json_text(record_time(line.timestamp_ns));
    lemma_printable_add(e, ",\"timestamp_ns\":"@);
    let f = e + ",\"timestamp_ns\":"@;
    lemma_printable_add(f, json::json_text(text::dec_int(line.timestamp_ns as int)));
    let g = f + json::json_text(text::dec_int(line.timestamp_ns as int));
    lemma_printable_add(g, "}"@);
    let t = line_text(line, ExportFormat::Jsonl);
    assert forall|i: int| 0 <= i < t.len() - 1 implies #[trigger] t[i] >= '\u{20}' by {
        assert(t[i] == line_json(line)[i]);
    }
}

/// Whether a text holds no control character.
spec fn printable(s: Seq<char>) -> bool {
    forall|i: int| 0 <= i < s.len() ==> #[trigger] s[i] >= '\u{20}'
}

proof fn lemma_printable_add(a: Seq<char>, b: Seq<char>)
    requires
        printable(a),
        printable(b),
    ensures
        printable(a + b),
{
    assert forall|i: int| 0 <= i < (a + b).len() implies #[trigger] (a + b)[i] >= '\u{20}' by {
        if i < a.len() {
            assert((a + b)[i] == a[i]);
        } else {
            assert((a + b)[i] == b[i - a.len()]);
        }
    }
}

proof fn lemma_dec_int_printable(n: int)
    ensures
        printable(text::dec_int(n)),
{
    let m = if n < 0 {
        (-n) as nat
    } else {
        n as nat
    };
    text::lemma_dec_nat(m);
    let s = text::dec_int(n);
    assert forall|i: int| 0 <= i < s.len() implies #[trigger] s[i] >= '\u{20}' by {
        if n < 0 && i > 0 {
            assert(s[i] == text::dec_nat(m)[i - 1]);
            assert(text::is_digit(text::dec_nat(m)[i - 1]));
        } else if n >= 0 {
            assert(text::is_digit(text::dec_nat(m)[i]));
        }
    }
}

} // verus!
