//! The dialog in which captured lines are exported.
use vstd::prelude::*;
use vstd::string::*;

use crate::clock;
use crate::export;
use crate::export::{now_for_filename, with_format_extension, ExportFormat, MAX_EXPORT_LINES};
use crate::paths;
use crate::paths::sanitize_port_name;
use crate::storage::StoredLine;
use crate::text;
use crate::text::{concat2, concat3, decimal_usize, is_blank, parse_i64, trim};

verus! {

/// Which lines an export covers.
#[derive(Debug, Clone, Copy, PartialEq, Eq, Structural)]
pub enum ExportScope {
    /// All lines of the store.
    AllDb,
    /// The lines of the display.
    VisibleBuffer,
    /// The lines from one number to another.
    CustomRange,
}

/// The dialog in which captured lines are exported.
#[derive(Debug)]
pub struct ExportForm {
    pub is_open: bool,
    pub path: String,
    pub format: ExportFormat,
    pub scope: ExportScope,
    pub start_line: String,
    pub end_line: String,
    /// What the last export said, and whether it failed.
    pub status: Option<(String, bool)>,
}

/// The name that is proposed for an export file.
pub open spec fn proposed_name(port: Seq<char>, stamp: Seq<char>, format: ExportFormat) -> Seq<
    char,
> {
    "devserial_export_"@ + paths::sanitized(port) + "_"@ + stamp + "."@ + format.name()
}

/// The name that is proposed for an export file at a given moment.
pub fn default_name_at(port: &str, stamp: &str, format: ExportFormat) -> (r: String)
    ensures
        r@ == proposed_name(port@, stamp@, format),
{
    let mut name = "devserial_export_".to_owned();
    name.append(sanitize_port_name(port).as_str());
    name.append("_");
    name.append(stamp);
    name.append(".");
    name.append(format.extension());
    name
}

/// The name that is proposed for an export file now.
pub fn default_name(port: &str, format: ExportFormat) -> (r: String)
    ensures
        exists|stamp: Seq<char>|
            clock::is_file_stamp(stamp) && r@ == #[trigger] proposed_name(port@, stamp, format),
{
    let stamp = now_for_filename();
    let ghost moment = stamp@;
    let r = default_name_at(port, stamp.as_str(), format);
    assert(r@ == proposed_name(port@, moment, format));
    r
}

/// What is to be read from the store for an export.
#[derive(Debug, PartialEq, Eq)]
pub enum ExportQuery {
    /// Count the lines, then read as many as `all_count` says, from the first
    /// on.
    All,
    /// Nothing: the lines of the display are exported.
    Display,
    /// Read so many lines from this one on.
    From { start: i64, count: u32 },
}

/// How many lines are exported where all are.
pub open spec fn counts_all(total: u64, r: u32) -> bool {
    r == (if total == 0 {
        1
    } else if total > MAX_EXPORT_LINES {
        MAX_EXPORT_LINES as u64
    } else {
        total
    })
}

/// How many lines an export of the whole store reads.
pub fn all_count(total: u64) -> (r: u32)
    ensures
        counts_all(total, r),
{
    if total == 0 {
        1
    } else if total > MAX_EXPORT_LINES as u64 {
        MAX_EXPORT_LINES
    } else {
        total as u32
    }
}

/// How many lines a range holds, as far as one export goes.
pub open spec fn range_count(start: i64, end: i64) -> u32 {
    if end - start + 1 > MAX_EXPORT_LINES {
        MAX_EXPORT_LINES
    } else {
        (end - start + 1) as u32
    }
}

/// The last line of a range; an empty field stands for the last one there is.
pub open spec fn range_end(field: Seq<char>) -> Option<int> {
    if text::trimmed(field).len() == 0 {
        Some(i64::MAX as int)
    } else {
        text::parse_int(text::trimmed(field))
    }
}

/// Whether a range is read, or why it is not.
pub open spec fn range_query(
    start_line: Seq<char>,
    end_line: Seq<char>,
    r: Result<ExportQuery, String>,
) -> bool {
    match (text::parse_int(text::trimmed(start_line)), range_end(end_line), r) {
        (None, _, Err(e)) => e@ == "invalid start ID"@,
        (Some(_), None, Err(e)) => e@ == "invalid end ID"@,
        (Some(a), Some(b), Err(e)) => b < a && e@ == "end ID is before start ID"@,
        (Some(a), Some(b), Ok(q)) => a <= b && q == (ExportQuery::From {
            start: a as i64,
            count: range_count(a as i64, b as i64),
        }),
        _ => false,
    }
}

fn range(start_line: &str, end_line: &str) -> (r: Result<ExportQuery, String>)
    ensures
        range_query(start_line@, end_line@, r),
{
    let start: i64 = match parse_i64(trim(start_line).as_str()) {
        Some(v) => v,
        None => {
            return Err("invalid start ID".to_owned());
        },
    };
    let end: i64 = if is_blank(end_line) {
        i64::MAX
    } else {
        match parse_i64(trim(end_line).as_str()) {
            Some(v) => v,
            None => {
                return Err("invalid end ID".to_owned());
            },
        }
    };
    if end < start {
        return Err("end ID is before start ID".to_owned());
    }
    let span: i128 = end as i128 - start as i128 + 1;
    let count: u32 = if span > MAX_EXPORT_LINES as i128 {
        MAX_EXPORT_LINES
    } else {
        span as u32
    };
    Ok(ExportQuery::From { start, count })
}

impl ExportForm {
    /// A form that nothing was entered in.
    pub open spec fn is_new(r: ExportForm) -> bool {
        &&& !r.is_open
        &&& r.path@.len() == 0
        &&& r.format == ExportFormat::Txt
        &&& r.scope == ExportScope::AllDb
        &&& r.start_line@ == "1"@
        &&& r.end_line@.len() == 0
        &&& r.status is None
    }

    /// A closed dialog for the whole store as plain text.
    pub fn new() -> (r: ExportForm)
        ensures
            Self::is_new(r),
    {
        ExportForm {
            is_open: false,
            path: String::new(),
            format: ExportFormat::Txt,
            scope: ExportScope::AllDb,
            start_line: "1".to_owned(),
            end_line: String::new(),
            status: None,
        }
    }

    /// How a file is proposed.
    pub open spec fn proposes(self, port: &str, after: Self) -> bool {
        &&& after == (ExportForm { path: after.path, ..self })
        &&& if self.path@.len() == 0 {
            exists|stamp: Seq<char>|
                clock::is_file_stamp(stamp) && after.path@ == #[trigger] proposed_name(
                    port@,
                    stamp,
                    ExportFormat::Txt,
                )
        } else {
            after.path == self.path
        }
    }

    /// Propose a file, where none is entered.
    pub fn propose(&mut self, port: &str)
        ensures
            old(self).proposes(port, *final(self)),
    {
        if self.path.as_str().is_empty() {
            self.path = default_name(port, ExportFormat::Txt);
        }
    }

    /// How the form is opened.
    pub open spec fn opens(self, port: &str, after: Self) -> bool {
        &&& after == (ExportForm {
            is_open: true,
            path: after.path,
            ..self
        })
        &&& if self.path@.len() == 0 {
            exists|stamp: Seq<char>|
                clock::is_file_stamp(stamp) && after.path@ == #[trigger] proposed_name(
                    port@,
                    stamp,
                    ExportFormat::Txt,
                )
        } else {
            after.path == self.path
        }
    }

    /// Show the dialog, as the menu asks for it.
    pub fn open(&mut self, port: &str)
        ensures
            old(self).opens(port, *final(self)),
    {
        self.is_open = true;
        self.propose(port);
    }

    /// How the form is opened or closed.
    pub open spec fn toggles(self, port: &str, after: Self) -> bool {
        &&& after == (ExportForm {
            is_open: !self.is_open,
            path: after.path,
            ..self
        })
        &&& if !self.is_open && self.path@.len() == 0 {
            exists|stamp: Seq<char>|
                clock::is_file_stamp(stamp) && after.path@ == #[trigger] proposed_name(
                    port@,
                    stamp,
                    ExportFormat::Txt,
                )
        } else {
            after.path == self.path
        }
    }

    /// Show the dialog or hide it, as the shortcut asks for it.
    pub fn toggle(&mut self, port: &str)
        ensures
            old(self).toggles(port, *final(self)),
    {
        self.is_open = !self.is_open;
        if self.is_open {
            self.propose(port);
        }
    }

    /// What the button of the form does.
    pub open spec fn is_pressed(self, port: &str, after: Self) -> bool {
        &&& after == (ExportForm {
            is_open: !self.is_open,
            path: after.path,
            ..self
        })
        &&& if self.path@.len() == 0 {
            exists|stamp: Seq<char>|
                clock::is_file_stamp(stamp) && after.path@ == #[trigger] proposed_name(
                    port@,
                    stamp,
                    ExportFormat::Txt,
                )
        } else {
            after.path == self.path
        }
    }

    /// Show the dialog or hide it, as its button asks for it; a file is proposed
    /// either way.
    pub fn press(&mut self, port: &str)
        ensures
            old(self).is_pressed(port, *final(self)),
    {
        self.is_open = !self.is_open;
        self.propose(port);
    }

    /// How a format is chosen.
    pub open spec fn takes_format(self, format: ExportFormat, after: Self) -> bool {
        &&& after == (ExportForm { format, path: after.path, ..self })
        &&& after.path@ == paths::sibling_with_extension(self.path@, format.name())
    }

    /// Choose a format; the extension of the file follows it.
    pub fn set_format(&mut self, format: ExportFormat)
        ensures
            old(self).takes_format(format, *final(self)),
    {
        self.format = format;
        self.path = with_format_extension(self.path.as_str(), format);
    }

    /// How the file is proposed again.
    pub open spec fn resets(self, port: &str, after: Self) -> bool {
        &&& after == (ExportForm { path: after.path, ..self })
        &&& exists|stamp: Seq<char>|
            clock::is_file_stamp(stamp) && after.path@ == #[trigger] proposed_name(
                port@,
                stamp,
                self.format,
            )
    }

    /// Propose a file for the chosen format.
    pub fn reset_path(&mut self, port: &str)
        ensures
            old(self).resets(port, *final(self)),
    {
        self.path = default_name(port, self.format);
    }

    /// Which lines the form asks for.
    pub open spec fn asks(self, r: Result<ExportQuery, String>) -> bool {
        match self.scope {
            ExportScope::AllDb => r matches Ok(ExportQuery::All),
            ExportScope::VisibleBuffer => r matches Ok(ExportQuery::Display),
            ExportScope::CustomRange => range_query(self.start_line@, self.end_line@, r),
        }
    }

    /// What is to be read for the chosen lines.
    pub fn query(&self) -> (r: Result<ExportQuery, String>)
        ensures
            self.asks(r),
    {
        match self.scope {
            ExportScope::AllDb => Ok(ExportQuery::All),
            ExportScope::VisibleBuffer => Ok(ExportQuery::Display),
            ExportScope::CustomRange => range(self.start_line.as_str(), self.end_line.as_str()),
        }
    }

    /// The lines in the format of the form.
    pub open spec fn formats(self, lines: &[StoredLine], r: String) -> bool {
        r@ == export::header_text(self.format) + export::lines_text(lines@, self.format)
    }

    /// Render the selected lines in the shared export format.
    pub fn format_export_data(&self, lines: &[StoredLine]) -> (r: String)
        ensures
            self.formats(lines, r),
    {
        match export::to_string(lines, self.format) {
            Ok(s) => s,
            Err(_) => String::new(),
        }
    }

    /// Whether a file was entered.
    pub open spec fn checks(self, after: Self, r: bool) -> bool {
        &&& r == (text::trimmed(self.path@).len() > 0)
        &&& after == (ExportForm { status: after.status, ..self })
        &&& if r {
            after.status == self.status
        } else {
            after.status matches Some((m, failed)) && failed && m@
                == "Please specify a destination file path"@
        }
    }

    /// Whether there is a file to export to; where there is none, the dialog
    /// says so.
    pub fn check_path(&mut self) -> (r: bool)
        ensures
            old(self).checks(*final(self), r),
    {
        if is_blank(self.path.as_str()) {
            self.status = Some(("Please specify a destination file path".to_owned(), true));
            false
        } else {
            true
        }
    }

    /// What is said of an export.
    pub open spec fn tells_exported(
        self,
        lines: usize,
        bytes: usize,
        outcome: Result<(), String>,
        after: Self,
    ) -> bool {
        &&& after == (ExportForm { status: after.status, ..self })
        &&& after.status matches Some((m, failed)) && failed == (outcome is Err) && m@ == (
        match outcome {
            Ok(_) => "✓ Exported "@ + text::dec_nat(lines as nat) + " lines ("@
                + text::dec_nat((bytes / 1024) as nat) + " KB) to "@ + self.path@,
            Err(e) => "Export failed: "@ + e@,
        })
    }

    /// Say how the export to the file went, given how many lines and bytes it
    /// was.
    pub fn exported(&mut self, lines: usize, bytes: usize, outcome: Result<(), String>)
        ensures
            old(self).tells_exported(lines, bytes, outcome, *final(self)),
    {
        self.status = Some(
            match outcome {
                Ok(_) => {
                    let mut m = concat3("✓ Exported ", decimal_usize(lines).as_str(), " lines (");
                    m.append(decimal_usize(bytes / 1024).as_str());
                    m.append(" KB) to ");
                    m.append(self.path.as_str());
                    (m, false)
                },
                Err(e) => (concat2("Export failed: ", e.as_str()), true),
            },
        );
    }

    /// What is said of lines that were copied.
    pub open spec fn tells_copied(self, lines: usize, after: Self) -> bool {
        &&& after == (ExportForm { status: after.status, ..self })
        &&& after.status matches Some((m, failed)) && !failed && m@ == "✓ Copied "@
            + text::dec_nat(lines as nat) + " lines to clipboard"@
    }

    /// Say that the lines are in the clipboard.
    pub fn copied(&mut self, lines: usize)
        ensures
            old(self).tells_copied(lines, *final(self)),
    {
        self.status = Some(
            (concat3("✓ Copied ", decimal_usize(lines).as_str(), " lines to clipboard"), false),
        );
    }

    /// What is said where lines cannot be read.
    pub open spec fn tells_failed(self, error: &str, after: Self) -> bool {
        &&& after == (ExportForm { status: after.status, ..self })
        &&& after.status matches Some((m, failed)) && failed && m@
            == "Failed to query lines: "@ + error@
    }

    /// Say why the lines could not be read.
    pub fn query_failed(&mut self, error: &str)
        ensures
            old(self).tells_failed(error, *final(self)),
    {
        self.status = Some((concat2("Failed to query lines: ", error), true));
    }
}

/// What is said where lines cannot be counted.
pub open spec fn tells_uncounted(error: &str, r: String) -> bool {
    r@ == "database error: "@ + error@
}

/// Why the lines of the store could not be counted.
pub fn count_failure(error: &str) -> (r: String)
    ensures
        tells_uncounted(error, r),
{
    concat2("database error: ", error)
}

/// What is said where lines cannot be read.
pub open spec fn tells_unread(error: &str, r: String) -> bool {
    r@ == "database read error: "@ + error@
}

/// Why the lines of the store could not be read.
pub fn read_failure(error: &str) -> (r: String)
    ensures
        tells_unread(error, r),
{
    concat2("database read error: ", error)
}

/// No export reads more lines than fit into one.
pub proof fn export_is_bounded(start: i64, end: i64)
    requires
        start <= end,
    ensures
        1 <= range_count(start, end) <= MAX_EXPORT_LINES,
        end - start < MAX_EXPORT_LINES ==> range_count(start, end) == end - start + 1,
{
}

} // verus!
