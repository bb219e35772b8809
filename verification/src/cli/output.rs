//! Terminal rendering for CLI results.
use vstd::prelude::*;
use vstd::string::*;

use crate::clock;
use crate::export;
use crate::export::{format_time_of_day, format_timestamp};
use crate::protocol::{PortInfoResponse, SearchOutcome};
use crate::reader::ConnectionState;
use crate::storage::{BufferStats, StoredLine};
use crate::text;
use crate::text::{concat2, concat3, decimal, decimal_i64, decimal_usize, join, split};

verus! {

/// A connection state in words.
pub open spec fn state_text(state: ConnectionState) -> Seq<char> {
    match state {
        ConnectionState::Connected => "connected"@,
        ConnectionState::Reconnecting => "reconnecting"@,
        ConnectionState::Disconnected { since_ms, attempts } => "disconnected for "@
            + text::dec_nat(since_ms as nat) + "ms after "@ + text::dec_nat(attempts as nat)
            + " attempts"@,
    }
}

/// Human-readable connection state.
pub fn describe_state(state: &ConnectionState) -> (r: String)
    ensures
        r@ == state_text(*state),
{
    match state {
        ConnectionState::Connected => "connected".to_owned(),
        ConnectionState::Reconnecting => "reconnecting".to_owned(),
        ConnectionState::Disconnected { since_ms, attempts } => {
            let mut m = concat3("disconnected for ", decimal(*since_ms).as_str(), "ms after ");
            m.append(decimal(*attempts as u64).as_str());
            m.append(" attempts");
            m
        },
    }
}

/// Whether a text is a line of the capture as the terminal shows it: with its
/// time of day in front where that is wanted.
pub open spec fn shows_line(line: StoredLine, timestamps: bool, out: Seq<char>) -> bool {
    if timestamps {
        exists|at: Seq<char>| #[trigger]
            stamped(line.payload@, at) == out && clock::is_screen_time(line.timestamp_ns, at)
    } else {
        out == line.payload@ + "\n"@
    }
}

/// A line behind its time of day.
pub open spec fn stamped(payload: Seq<char>, at: Seq<char>) -> Seq<char> {
    "["@ + at + "] "@ + payload + "\n"@
}

/// A line of the capture as the terminal shows it.
pub fn line_text(line: &StoredLine, timestamps: bool) -> (r: String)
    ensures
        shows_line(*line, timestamps, r@),
{
    if timestamps {
        let at = format_time_of_day(line.timestamp_ns);
        let ghost a = at@;
        let mut m = concat3("[", at.as_str(), "] ");
        m.append(line.payload.as_str());
        m.append("\n");
        assert(m@ == stamped(line.payload@, a));
        m
    } else {
        concat2(line.payload.as_str(), "\n")
    }
}

/// Whether a text is lines of the capture, one after the other.
pub open spec fn shows_lines(lines: Seq<StoredLine>, timestamps: bool, out: Seq<char>) -> bool
    decreases lines.len(),
{
    if lines.len() == 0 {
        out.len() == 0
    } else {
        exists|k: int| 0 <= k <= out.len() && shows_lines(
            lines.drop_last(),
            timestamps,
            #[trigger] out.take(k),
        ) && shows_line(lines.last(), timestamps, out.skip(k))
    }
}

/// Lines of the capture as the terminal shows them.
pub fn lines_text(lines: &[StoredLine], timestamps: bool) -> (r: String)
    ensures
        shows_lines(lines@, timestamps, r@),
{
    let mut out = String::new();
    let mut i: usize = 0;
    assert(lines@.take(0).len() == 0);
    while i < lines.len()
        invariant
            i <= lines.len(),
            shows_lines(lines@.take(i as int), timestamps, out@),
        decreases lines.len() - i,
    {
        let next = line_text(&lines[i], timestamps);
        let ghost before = out@;
        out.append(next.as_str());
        proof {
            let taken = lines@.take(i + 1);
            assert(taken.drop_last() =~= lines@.take(i as int));
            assert(taken.last() == lines@[i as int]);
            let k = before.len() as int;
            assert(out@.take(k) =~= before);
            assert(out@.skip(k) =~= next@);
        }
        i = i + 1;
    }
    assert(lines@.take(lines@.len() as int) =~= lines@);
    out
}

/// A managed port in the port list.
pub open spec fn managed_text(p: PortInfoResponse) -> Seq<char> {
    "  • "@ + p.name@ + " ("@ + state_text(p.state) + ", "@ + text::dec_nat(p.total_lines as nat)
        + " lines)\n"@
}

/// Managed ports, one after the other.
pub open spec fn all_managed_text(ports: Seq<PortInfoResponse>) -> Seq<char>
    decreases ports.len(),
{
    if ports.len() == 0 {
        Seq::empty()
    } else {
        all_managed_text(ports.drop_last()) + managed_text(ports.last())
    }
}

/// Devices of the machine, one after the other.
pub open spec fn all_hardware_text(ports: Seq<String>) -> Seq<char>
    decreases ports.len(),
{
    if ports.len() == 0 {
        Seq::empty()
    } else {
        all_hardware_text(ports.drop_last()) + "  • "@ + ports.last()@ + "\n"@
    }
}

/// The port list as the terminal shows it.
pub open spec fn port_list(
    managed: Option<Seq<PortInfoResponse>>,
    hardware: Seq<String>,
) -> Seq<char> {
    "Managed Ports:\n"@ + (match managed {
        None => "  (daemon not running)\n"@,
        Some(ports) => if ports.len() == 0 {
            "  (none)\n"@
        } else {
            all_managed_text(ports)
        },
    }) + "\nAvailable Serial Hardware:\n"@ + (if hardware.len() == 0 {
        "  (no hardware ports detected)\n"@
    } else {
        all_hardware_text(hardware)
    })
}

fn push_managed(out: &mut String, ports: &Vec<PortInfoResponse>)
    ensures
        final(out)@ == old(out)@ + all_managed_text(ports@),
{
    let ghost before = out@;
    let mut i: usize = 0;
    assert(out@ =~= before + all_managed_text(ports@.take(0)));
    while i < ports.len()
        invariant
            i <= ports.len(),
            out@ == before + all_managed_text(ports@.take(i as int)),
        decreases ports.len() - i,
    {
        let p = &ports[i];
        proof {
            assert(ports@.take(i + 1).drop_last() =~= ports@.take(i as int));
            assert(ports@.take(i + 1).last() == ports@[i as int]);
        }
        out.append("  • ");
        out.append(p.name.as_str());
        out.append(" (");
        out.append(describe_state(&p.state).as_str());
        out.append(", ");
        out.append(decimal(p.total_lines).as_str());
        out.append(" lines)\n");
        assert(out@ =~= before + all_managed_text(ports@.take(i + 1)));
        i = i + 1;
    }
    assert(ports@.take(ports@.len() as int) =~= ports@);
}

fn push_hardware(out: &mut String, ports: &Vec<String>)
    ensures
        final(out)@ == old(out)@ + all_hardware_text(ports@),
{
    let ghost before = out@;
    let mut i: usize = 0;
    assert(out@ =~= before + all_hardware_text(ports@.take(0)));
    while i < ports.len()
        invariant
            i <= ports.len(),
            out@ == before + all_hardware_text(ports@.take(i as int)),
        decreases ports.len() - i,
    {
        proof {
            assert(ports@.take(i + 1).drop_last() =~= ports@.take(i as int));
            assert(ports@.take(i + 1).last() == ports@[i as int]);
        }
        out.append("  • ");
        out.append(ports[i].as_str());
        out.append("\n");
        assert(out@ =~= before + all_hardware_text(ports@.take(i + 1)));
        i = i + 1;
    }
    assert(ports@.take(ports@.len() as int) =~= ports@);
}

/// Managed ports and detected hardware as the terminal shows them; without a
/// daemon there are no managed ports.
pub fn port_list_text(managed: &Option<Vec<PortInfoResponse>>, hardware: &Vec<String>) -> (r: String)
    ensures
        r@ == port_list(
            match managed {
                Some(p) => Some(p@),
                None => None,
            },
            hardware@,
        ),
{
    let mut out = "Managed Ports:\n".to_owned();
    match managed {
        None => out.append("  (daemon not running)\n"),
        Some(ports) => if ports.len() == 0 {
            out.append("  (none)\n");
        } else {
            push_managed(&mut out, ports);
        },
    }
    out.append("\nAvailable Serial Hardware:\n");
    if hardware.len() == 0 {
        out.append("  (no hardware ports detected)\n");
    } else {
        push_hardware(&mut out, hardware);
    }
    out
}

/// Connection state and buffer statistics as the terminal shows them.
pub open spec fn status_block(port: Seq<char>, state: ConnectionState, stats: BufferStats) -> Seq<
    char,
> {
    "Statistics for "@ + port + ":\n  State:          "@ + state_text(state)
        + "\n  Total Lines:    "@ + text::dec_nat(stats.total_lines as nat)
        + "\n  Total Bytes:    "@ + text::dec_nat(stats.total_bytes as nat)
        + "\n  Database Size:  "@ + text::dec_nat(stats.db_size_bytes as nat) + " bytes\n"@ + (
    match stats.last_timestamp_ns {
        Some(ts) => "  Last Activity:  "@ + export::record_time(ts) + "\n"@,
        None => Seq::empty(),
    })
}

/// Connection state and buffer statistics as the terminal shows them.
pub fn status_text(port: &str, connection: &ConnectionState, stats: &BufferStats) -> (r: String)
    ensures
        r@ == status_block(port@, *connection, *stats),
{
    let mut out = concat3("Statistics for ", port, ":\n  State:          ");
    out.append(describe_state(connection).as_str());
    out.append("\n  Total Lines:    ");
    out.append(decimal(stats.total_lines).as_str());
    out.append("\n  Total Bytes:    ");
    out.append(decimal(stats.total_bytes).as_str());
    out.append("\n  Database Size:  ");
    out.append(decimal(stats.db_size_bytes).as_str());
    out.append(" bytes\n");
    let ghost so_far = out@;
    match stats.last_timestamp_ns {
        Some(ts) => {
            out.append("  Last Activity:  ");
            out.append(format_timestamp(ts).as_str());
            out.append("\n");
            assert(out@ =~= status_block(port@, *connection, *stats));
        },
        None => {
            assert(out@ =~= status_block(port@, *connection, *stats));
        },
    }
    out
}

/// Search results, one after the other.
pub open spec fn hit_lines(lines: Seq<StoredLine>) -> Seq<char>
    decreases lines.len(),
{
    if lines.len() == 0 {
        Seq::empty()
    } else {
        hit_lines(lines.drop_last()) + "  ["@ + text::dec_int(lines.last().id as int) + "] "@
            + lines.last().payload@ + "\n"@
    }
}

/// Search results as the terminal shows them.
pub open spec fn search_block(results: Seq<StoredLine>, truncated: bool) -> Seq<char> {
    "Found "@ + text::dec_nat(results.len()) + " matching lines:\n"@ + hit_lines(results) + (
    if truncated {
        "(scan limit reached; later lines were not examined)\n"@
    } else {
        Seq::empty()
    })
}

/// Search results as the terminal shows them.
pub fn search_text(outcome: &SearchOutcome) -> (r: String)
    ensures
        r@ == search_block(outcome.results@, outcome.truncated),
{
    let lines = &outcome.results;
    let mut out = concat3("Found ", decimal_usize(lines.len()).as_str(), " matching lines:\n");
    let ghost head = out@;
    let mut i: usize = 0;
    assert(out@ =~= head + hit_lines(lines@.take(0)));
    while i < lines.len()
        invariant
            i <= lines.len(),
            out@ == head + hit_lines(lines@.take(i as int)),
        decreases lines.len() - i,
    {
        proof {
            assert(lines@.take(i + 1).drop_last() =~= lines@.take(i as int));
            assert(lines@.take(i + 1).last() == lines@[i as int]);
        }
        out.append("  [");
        out.append(decimal_i64(lines[i].id).as_str());
        out.append("] ");
        out.append(lines[i].payload.as_str());
        out.append("\n");
        assert(out@ =~= head + hit_lines(lines@.take(i + 1)));
        i = i + 1;
    }
    assert(lines@.take(lines@.len() as int) =~= lines@);
    if outcome.truncated {
        out.append("(scan limit reached; later lines were not examined)\n");
    }
    assert(out@ =~= search_block(outcome.results@, outcome.truncated));
    out
}

/// What the package manifest says of the program.
#[derive(Debug, Clone, PartialEq, Eq)]
pub struct PackageInfo {
    pub name: String,
    pub version: String,
    pub description: String,
    /// The authors, separated by colons.
    pub authors: String,
    pub license: String,
    pub repository: String,
}

/// Package authors, with the manifest separator replaced by a readable one.
pub fn authors(manifest: &str) -> (r: String)
    ensures
        r@ == text::joined(text::split_at_char(manifest@, ':'), ", "@),
{
    let parts = split(manifest, ':');
    join(&parts, ", ")
}

/// What is said of the program.
pub open spec fn tells_about(info: &PackageInfo, r: String) -> bool {
    r@ == info.name@ + " v"@ + info.version@ + "\n"@ + info.description@ + "\n\nAuthor:     "@
        + text::joined(text::split_at_char(info.authors@, ':'), ", "@) + "\nLicense:    "@
        + info.license@ + "\nRepository: "@ + info.repository@ + "\n"@
}

/// Program, author, license and repository information.
///
/// All values come from the package manifest, so they cannot drift from it.
pub fn about_text(info: &PackageInfo) -> (r: String)
    ensures
        tells_about(info, r),
{
    let mut out = concat3(info.name.as_str(), " v", info.version.as_str());
    out.append("\n");
    out.append(info.description.as_str());
    out.append("\n\nAuthor:     ");
    out.append(authors(info.authors.as_str()).as_str());
    out.append("\nLicense:    ");
    out.append(info.license.as_str());
    out.append("\nRepository: ");
    out.append(info.repository.as_str());
    out.append("\n");
    out
}

} // verus!
