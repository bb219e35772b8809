//! ESP tooling via the `espflash` subprocess: its arguments and its output.
use vstd::prelude::*;
use vstd::string::*;

use crate::text;
use crate::text::{concat2, concat3, decimal, from_utf8_lossy, is_blank, without_trailing_white};

verus! {

/// Name of the tool we shell out to.
pub const ESPFLASH: &'static str = "espflash";

/// Which of the tool's two streams a line came from.
#[derive(Debug, Clone, Copy, PartialEq, Eq, Structural)]
pub enum Stream {
    Stdout,
    Stderr,
}

/// One line of tool output, delivered while the tool is still running.
#[derive(Debug, Clone, PartialEq, Eq)]
pub struct OutputLine {
    pub stream: Stream,
    pub text: String,
}

// ---------------------------------------------------------------------------
// Arguments
// ---------------------------------------------------------------------------

/// The arguments that a flash is started with.
pub open spec fn flash_args(port: Seq<char>, firmware: Seq<char>, baud: Option<u32>) -> Seq<
    Seq<char>,
> {
    let speed = match baud {
        Some(b) => seq!["--baud"@, text::dec_nat(b as nat)],
        None => Seq::empty(),
    };
    seq!["flash"@, "--port"@, port] + speed + seq!["--"@, firmware]
}

/// Arguments to flash firmware to an ESP device.
///
/// `--` keeps a path that begins with a dash from being read as an option.
pub fn flash(port: &str, firmware_path: &str, baud: Option<u32>) -> (r: Vec<String>)
    ensures
        text::texts(r@) == flash_args(port@, firmware_path@, baud),
{
    let mut args: Vec<String> = Vec::new();
    args.push("flash".to_owned());
    args.push("--port".to_owned());
    args.push(port.to_owned());
    if let Some(baud) = baud {
        args.push("--baud".to_owned());
        args.push(decimal(baud as u64));
    }
    args.push("--".to_owned());
    args.push(firmware_path.to_owned());
    assert(text::texts(args@) =~= flash_args(port@, firmware_path@, baud));
    args
}

/// What asks for the board.
pub open spec fn asks_board(port: &str, r: Vec<String>) -> bool {
    text::texts(r@) == seq!["board-info"@, "--port"@, port@]
}

/// Arguments to get board and chip information.
pub fn board_info(port: &str) -> (r: Vec<String>)
    ensures
        asks_board(port, r),
{
    let mut args: Vec<String> = Vec::new();
    args.push("board-info".to_owned());
    args.push("--port".to_owned());
    args.push(port.to_owned());
    assert(text::texts(args@) =~= seq!["board-info"@, "--port"@, port@]);
    args
}

/// What erases the flash.
pub open spec fn asks_erase(port: &str, r: Vec<String>) -> bool {
    text::texts(r@) == seq!["erase-flash"@, "--port"@, port@]
}

/// Arguments to erase the entire flash.
pub fn erase_flash(port: &str) -> (r: Vec<String>)
    ensures
        asks_erase(port, r),
{
    let mut args: Vec<String> = Vec::new();
    args.push("erase-flash".to_owned());
    args.push("--port".to_owned());
    args.push(port.to_owned());
    assert(text::texts(args@) =~= seq!["erase-flash"@, "--port"@, port@]);
    args
}

/// What writes a file to an address.
pub open spec fn asks_write(port: &str, file_path: &str, address: &str, r: Vec<String>) -> bool {
    text::texts(r@) == seq!["write-bin"@, "--port"@, port@, "--"@, address@, file_path@]
}

/// Arguments to write a binary file to a specific flash address.
pub fn write_bin(port: &str, file_path: &str, address: &str) -> (r: Vec<String>)
    ensures
        asks_write(port, file_path, address, r),
{
    let mut args: Vec<String> = Vec::new();
    args.push("write-bin".to_owned());
    args.push("--port".to_owned());
    args.push(port.to_owned());
    args.push("--".to_owned());
    args.push(address.to_owned());
    args.push(file_path.to_owned());
    assert(text::texts(args@) =~= seq![
        "write-bin"@,
        "--port"@,
        port@,
        "--"@,
        address@,
        file_path@,
    ]);
    args
}

// ---------------------------------------------------------------------------
// Output
// ---------------------------------------------------------------------------

/// Whether a byte ends a line of output.
pub open spec fn ends_line(b: u8) -> bool {
    b == 10 || b == 13
}

/// Whether some bytes hold no line end.
pub open spec fn unbroken(bytes: Seq<u8>) -> bool {
    forall|i: int| 0 <= i < bytes.len() ==> !ends_line(#[trigger] bytes[i])
}

/// Whether a text holds no line end.
pub open spec fn one_line(s: Seq<char>) -> bool {
    forall|i: int| 0 <= i < s.len() ==> (#[trigger] s[i]) != '\n' && s[i] != '\r'
}

/// The line that some bytes stand for, if there is anything to report.
pub open spec fn line_of(bytes: Seq<u8>) -> Option<Seq<char>> {
    let t = text::trim_end(text::utf8_lossy(bytes));
    if t.len() == 0 {
        None
    } else {
        Some(t)
    }
}

/// What is left without a line end after a chunk.
pub open spec fn left_after(pending: Seq<u8>, chunk: Seq<u8>) -> Seq<u8>
    decreases chunk.len(),
{
    if chunk.len() == 0 {
        pending
    } else if ends_line(chunk.last()) {
        Seq::empty()
    } else {
        left_after(pending, chunk.drop_last()).push(chunk.last())
    }
}

/// The lines that a chunk completes.
pub open spec fn lines_in(pending: Seq<u8>, chunk: Seq<u8>) -> Seq<Seq<char>>
    decreases chunk.len(),
{
    if chunk.len() == 0 {
        Seq::empty()
    } else {
        let before = lines_in(pending, chunk.drop_last());
        if ends_line(chunk.last()) {
            match line_of(left_after(pending, chunk.drop_last())) {
                Some(t) => before.push(t),
                None => before,
            }
        } else {
            before
        }
    }
}

/// The pending bytes as one line, or `None` when there is nothing to report.
///
/// `\r\n` would otherwise report an empty line after the carriage return, and
/// a blank line in a progress bar is noise rather than information.
pub fn take_line(pending: &mut Vec<u8>) -> (r: Option<String>)
    ensures
        final(pending)@ == Seq::<u8>::empty(),
        match r {
            Some(t) => line_of(old(pending)@) == Some(t@),
            None => line_of(old(pending)@) is None,
        },
        unbroken(old(pending)@) ==> (r matches Some(t) ==> one_line(t@)),
{
    let ghost bytes = pending@;
    let whole = from_utf8_lossy(pending.as_slice());
    let t = without_trailing_white(whole.as_str());
    pending.clear();
    proof {
        if unbroken(bytes) {
            text::lemma_trim_end_prefix(whole@);
            assert forall|i: int| 0 <= i < t@.len() implies (#[trigger] t@[i]) != '\n' && t@[i]
                != '\r' by {
                assert(t@[i] == whole@[i]);
                if whole@[i] == '\n' || whole@[i] == '\r' {
                    let k = bytes.index_of(whole@[i] as u8);
                    assert(ends_line(bytes[k]));
                }
            }
        }
    }
    let c = text::chars_of(t.as_str());
    if c.len() == 0 {
        None
    } else {
        Some(t)
    }
}

/// Every complete line in `chunk`, keeping the tail in `pending`.
///
/// A line ends at a newline **or** a carriage return, because espflash draws
/// its progress bar by returning to the start of the line. Ending only at the
/// newline would show nothing at all until the bar was finished.
pub fn split_lines(chunk: &[u8], pending: &mut Vec<u8>) -> (r: Vec<String>)
    ensures
        text::texts(r@) == lines_in(old(pending)@, chunk@),
        final(pending)@ == left_after(old(pending)@, chunk@),
        unbroken(old(pending)@) ==> unbroken(final(pending)@) && forall|i: int|
            0 <= i < r@.len() ==> one_line((#[trigger] r@[i])@),
{
    let ghost start = pending@;
    let mut lines: Vec<String> = Vec::new();
    let mut i: usize = 0;
    assert(text::texts(lines@) =~= lines_in(start, chunk@.take(0)));
    while i < chunk.len()
        invariant
            i <= chunk.len(),
            text::texts(lines@) == lines_in(start, chunk@.take(i as int)),
            pending@ == left_after(start, chunk@.take(i as int)),
            unbroken(start) ==> unbroken(pending@) && forall|k: int|
                0 <= k < lines@.len() ==> one_line((#[trigger] lines@[k])@),
        decreases chunk.len() - i,
    {
        let b = chunk[i];
        assert(chunk@.take(i + 1).drop_last() =~= chunk@.take(i as int));
        assert(chunk@.take(i + 1).last() == b);
        if b == 10 || b == 13 {
            if let Some(t) = take_line(pending) {
                let ghost before = lines@;
                lines.push(t);
                assert(text::texts(lines@) =~= text::texts(before).push(t@));
            }
        } else {
            pending.push(b);
        }
        i = i + 1;
    }
    assert(chunk@.take(chunk@.len() as int) =~= chunk@);
    lines
}

/// How the output is cut into chunks changes nothing: a line that is split
/// across two chunks arrives whole.
pub proof fn chunks_make_no_difference(pending: Seq<u8>, a: Seq<u8>, b: Seq<u8>)
    ensures
        left_after(pending, a + b) == left_after(left_after(pending, a), b),
        lines_in(pending, a + b) == lines_in(pending, a) + lines_in(left_after(pending, a), b),
    decreases b.len(),
{
    if b.len() == 0 {
        assert(a + b =~= a);
        assert(lines_in(pending, a) + lines_in(left_after(pending, a), b) =~= lines_in(pending, a));
    } else {
        assert((a + b).drop_last() =~= a + b.drop_last());
        assert((a + b).last() == b.last());
        chunks_make_no_difference(pending, a, b.drop_last());
        assert(lines_in(pending, a + b) =~= lines_in(pending, a) + lines_in(
            left_after(pending, a),
            b,
        ));
    }
}

/// No reported line is blank.
pub proof fn no_blank_line_is_reported(pending: Seq<u8>, chunk: Seq<u8>, i: int)
    requires
        0 <= i < lines_in(pending, chunk).len(),
    ensures
        lines_in(pending, chunk)[i].len() > 0,
    decreases chunk.len(),
{
    if chunk.len() > 0 && i < lines_in(pending, chunk.drop_last()).len() {
        no_blank_line_is_reported(pending, chunk.drop_last(), i);
    }
}

/// Two outputs as one text.
pub open spec fn joined_streams(primary: Seq<char>, secondary: Seq<char>) -> Seq<char> {
    if text::trimmed(primary).len() == 0 {
        secondary
    } else if text::trimmed(secondary).len() == 0 {
        primary
    } else {
        primary + "\n"@ + secondary
    }
}

/// Both outputs as one text, the primary one first; a blank one is left out.
pub fn join_streams(primary: &str, secondary: &str) -> (r: String)
    ensures
        r@ == joined_streams(primary@, secondary@),
{
    if is_blank(primary) {
        secondary.to_owned()
    } else if is_blank(secondary) {
        primary.to_owned()
    } else {
        concat3(primary, "\n", secondary)
    }
}

/// What is said of a run of the tool.
pub open spec fn tells_run(
    success: bool,
    stdout: &[u8],
    stderr: &[u8],
    status: &str,
    r: Result<String, String>,
) -> bool {
    ({
        let out = text::utf8_lossy(stdout@);
        let err = text::utf8_lossy(stderr@);
        match r {
            Ok(m) => success && m@ == joined_streams(out, err),
            Err(m) => !success && m@ == (if text::trimmed(joined_streams(err, out)).len() == 0 {
                "espflash exited with status "@ + status@
            } else {
                joined_streams(err, out)
            }),
        }
    })
}

/// The answer to a run of the tool that came to its end.
///
/// On failure stderr leads, because that is what explains the failure; a silent
/// failure is answered with the status.
pub fn run_result(success: bool, stdout: &[u8], stderr: &[u8], status: &str) -> (r: Result<
    String,
    String,
>)
    ensures
        tells_run(success, stdout, stderr, status, r),
{
    let out = from_utf8_lossy(stdout);
    let err = from_utf8_lossy(stderr);
    if success {
        Ok(join_streams(out.as_str(), err.as_str()))
    } else {
        let message = join_streams(err.as_str(), out.as_str());
        if is_blank(message.as_str()) {
            Err(concat2("espflash exited with status ", status))
        } else {
            Err(message)
        }
    }
}

/// What is said of a tool that did not start.
pub open spec fn tells_no_start(error: &str, r: String) -> bool {
    r@ == "failed to run espflash: "@ + error@
}

/// Why the tool could not be started.
pub fn start_failure(error: &str) -> (r: String)
    ensures
        tells_no_start(error, r),
{
    concat2("failed to run espflash: ", error)
}

/// What is said of a tool that could not be waited for.
pub open spec fn tells_no_end(error: &str, r: String) -> bool {
    r@ == "failed to wait for espflash: "@ + error@
}

/// Why the end of the tool could not be awaited.
pub fn wait_failure(error: &str) -> (r: String)
    ensures
        tells_no_end(error, r),
{
    concat2("failed to wait for espflash: ", error)
}

} // verus!
