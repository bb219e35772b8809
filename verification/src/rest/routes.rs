//! The routes of the HTTP interface, and its description.
//!
//! The list is the interface's own account of itself: `/v1/version` hands it
//! out, and the description is built from it. Nothing about a route is described
//! in two places; the only sentence written by hand is the summary.
use vstd::prelude::*;
use vstd::string::*;

use crate::json;
use crate::json::{json_string, string_array};
use crate::modem::FileTransferProtocol;
use crate::protocol::{RequestPayload, SearchMode};
use crate::text;
use crate::text::{chars_of, concat2, ends_with, same, slice_of, split, to_lowercase};

verus! {

/// Every route the interface serves, as method and path.
pub const ROUTES: [&'static str; 23] = [
    "GET /v1/health",
    "GET /v1/version",
    "GET /v1/ports",
    "PUT /v1/ports/{port}",
    "DELETE /v1/ports/{port}",
    "GET /v1/ports/{port}",
    "GET /v1/ports/{port}/stats",
    "GET /v1/ports/{port}/lines",
    "GET /v1/ports/{port}/lines/stream",
    "DELETE /v1/ports/{port}/lines",
    "GET /v1/ports/{port}/search",
    "POST /v1/ports/{port}/export",
    "POST /v1/ports/{port}/write",
    "POST /v1/ports/{port}/break",
    "POST /v1/ports/{port}/signals",
    "POST /v1/ports/{port}/macros/{name}",
    "POST /v1/ports/{port}/transfers",
    "GET /v1/ports/{port}/esp",
    "POST /v1/ports/{port}/esp/flash",
    "POST /v1/ports/{port}/esp/erase",
    "POST /v1/ports/{port}/esp/write-bin",
    "GET /v1/jobs/{job}/stream",
    "GET /v1/openapi.json",
];

/// An event of a stream.
#[derive(Debug)]
pub struct Event {
    /// What a client that comes back says it saw last.
    pub id: Option<String>,
    pub event: String,
    pub data: String,
}

/// The routes a request is served by, or why it has none.
pub open spec fn routes_of(payload: RequestPayload) -> Result<Seq<Seq<char>>, Seq<char>> {
    match payload {
        RequestPayload::Ping => Ok(seq!["GET /v1/health"@]),
        RequestPayload::ListPorts | RequestPayload::ListHardware => Ok(seq!["GET /v1/ports"@]),
        RequestPayload::OpenPort { .. } | RequestPayload::ReconfigurePort { .. } => Ok(
            seq!["PUT /v1/ports/{port}"@],
        ),
        RequestPayload::ClosePort { .. } => Ok(seq!["DELETE /v1/ports/{port}"@]),
        RequestPayload::GetStatus { .. } => Ok(seq!["GET /v1/ports/{port}"@]),
        RequestPayload::GetStats { .. } => Ok(seq!["GET /v1/ports/{port}/stats"@]),
        RequestPayload::ReadLines { .. } => Ok(
            seq!["GET /v1/ports/{port}/lines"@, "GET /v1/ports/{port}/lines/stream"@],
        ),
        RequestPayload::Clear { .. } => Ok(seq!["DELETE /v1/ports/{port}/lines"@]),
        RequestPayload::Search { .. } => Ok(seq!["GET /v1/ports/{port}/search"@]),
        RequestPayload::Export { .. } => Ok(seq!["POST /v1/ports/{port}/export"@]),
        RequestPayload::Shutdown => Err(
            "stopping the daemon over HTTP would let a caller remove the thing answering it"@,
        ),
        RequestPayload::WriteData { .. } => Ok(seq!["POST /v1/ports/{port}/write"@]),
        RequestPayload::SendBreak { .. } => Ok(seq!["POST /v1/ports/{port}/break"@]),
        RequestPayload::SetSignal { .. } => Ok(seq!["POST /v1/ports/{port}/signals"@]),
        RequestPayload::ExecuteMacro { .. } => Ok(seq!["POST /v1/ports/{port}/macros/{name}"@]),
        RequestPayload::SendFile { .. } | RequestPayload::ReceiveFile { .. } => Ok(
            seq!["POST /v1/ports/{port}/transfers"@],
        ),
        RequestPayload::EspInfo { .. } => Ok(seq!["GET /v1/ports/{port}/esp"@]),
        RequestPayload::EspFlash { .. } => Ok(
            seq!["POST /v1/ports/{port}/esp/flash"@, "GET /v1/jobs/{job}/stream"@],
        ),
        RequestPayload::EspErase { .. } => Ok(seq!["POST /v1/ports/{port}/esp/erase"@]),
        RequestPayload::EspWriteBin { .. } => Ok(seq!["POST /v1/ports/{port}/esp/write-bin"@]),
        RequestPayload::RestStatus
        | RequestPayload::RestEnable { .. }
        | RequestPayload::RestDisable => Err(
            "the switch is reached through the daemon, not through the thing it switches"@,
        ),
    }
}

/// Whether routes are those of a list.
pub open spec fn lists(routes: Seq<&'static str>, expected: Seq<Seq<char>>) -> bool {
    routes.len() == expected.len() && forall|i: int|
        0 <= i < routes.len() ==> (#[trigger] routes[i])@ == expected[i]
}

/// Which routes serve a request, and why none does.
pub open spec fn is_served(
    payload: &RequestPayload,
    r: Result<Vec<&'static str>, &'static str>,
) -> bool {
    match r {
        Ok(routes) => routes_of(*payload) is Ok && lists(
            routes@,
            routes_of(*payload)->Ok_0,
        ),
        Err(reason) => routes_of(*payload) is Err && reason@ == routes_of(*payload)->Err_0,
    }
}

/// The route each request is served by, or why it has none.
///
/// There is no catch-all, so a new request has to be named here.
pub fn served_by(payload: &RequestPayload) -> (r: Result<Vec<&'static str>, &'static str>)
    ensures
        is_served(payload, r),
{
    match payload {
        RequestPayload::Ping => Ok(vec!["GET /v1/health"]),
        RequestPayload::ListPorts => Ok(vec!["GET /v1/ports"]),
        RequestPayload::ListHardware => Ok(vec!["GET /v1/ports"]),
        RequestPayload::OpenPort { .. } => Ok(vec!["PUT /v1/ports/{port}"]),
        RequestPayload::ReconfigurePort { .. } => Ok(vec!["PUT /v1/ports/{port}"]),
        RequestPayload::ClosePort { .. } => Ok(vec!["DELETE /v1/ports/{port}"]),
        RequestPayload::GetStatus { .. } => Ok(vec!["GET /v1/ports/{port}"]),
        RequestPayload::GetStats { .. } => Ok(vec!["GET /v1/ports/{port}/stats"]),
        // Two routes, one request: a page and the same page as it grows.
        RequestPayload::ReadLines { .. } => Ok(
            vec!["GET /v1/ports/{port}/lines", "GET /v1/ports/{port}/lines/stream"],
        ),
        RequestPayload::Clear { .. } => Ok(vec!["DELETE /v1/ports/{port}/lines"]),
        RequestPayload::Search { .. } => Ok(vec!["GET /v1/ports/{port}/search"]),
        RequestPayload::Export { .. } => Ok(vec!["POST /v1/ports/{port}/export"]),
        RequestPayload::Shutdown => Err(
            "stopping the daemon over HTTP would let a caller remove the thing answering it",
        ),
        RequestPayload::WriteData { .. } => Ok(vec!["POST /v1/ports/{port}/write"]),
        RequestPayload::SendBreak { .. } => Ok(vec!["POST /v1/ports/{port}/break"]),
        RequestPayload::SetSignal { .. } => Ok(vec!["POST /v1/ports/{port}/signals"]),
        RequestPayload::ExecuteMacro { .. } => Ok(vec!["POST /v1/ports/{port}/macros/{name}"]),
        // One route for both, told apart by the direction in the body.
        RequestPayload::SendFile { .. } => Ok(vec!["POST /v1/ports/{port}/transfers"]),
        RequestPayload::ReceiveFile { .. } => Ok(vec!["POST /v1/ports/{port}/transfers"]),
        RequestPayload::EspInfo { .. } => Ok(vec!["GET /v1/ports/{port}/esp"]),
        // Two routes, one request: starting the flash and watching it.
        RequestPayload::EspFlash { .. } => Ok(
            vec!["POST /v1/ports/{port}/esp/flash", "GET /v1/jobs/{job}/stream"],
        ),
        RequestPayload::EspErase { .. } => Ok(vec!["POST /v1/ports/{port}/esp/erase"]),
        RequestPayload::EspWriteBin { .. } => Ok(vec!["POST /v1/ports/{port}/esp/write-bin"]),
        RequestPayload::RestStatus => Err(
            "the switch is reached through the daemon, not through the thing it switches",
        ),
        RequestPayload::RestEnable { .. } => Err(
            "the switch is reached through the daemon, not through the thing it switches",
        ),
        RequestPayload::RestDisable => Err(
            "the switch is reached through the daemon, not through the thing it switches",
        ),
    }
}

/// Whether a route is advertised.
pub open spec fn advertised(route: Seq<char>) -> bool {
    exists|i: int| 0 <= i < 23 && (#[trigger] ROUTES@[i])@ == route
}

/// Every request has a route that is advertised, or a reason why it has none.
pub proof fn every_request_is_accounted_for(payload: RequestPayload)
    ensures
        match routes_of(payload) {
            Ok(routes) => routes.len() > 0 && forall|i: int|
                0 <= i < routes.len() ==> advertised(#[trigger] routes[i]),
            Err(reason) => reason.len() > 0,
        },
{
    reveal_strlit("stopping the daemon over HTTP would let a caller remove the thing answering it");
    reveal_strlit("the switch is reached through the daemon, not through the thing it switches");
    assert(ROUTES@[0]@ == "GET /v1/health"@);
    assert(ROUTES@[2]@ == "GET /v1/ports"@);
    assert(ROUTES@[3]@ == "PUT /v1/ports/{port}"@);
    assert(ROUTES@[4]@ == "DELETE /v1/ports/{port}"@);
    assert(ROUTES@[5]@ == "GET /v1/ports/{port}"@);
    assert(ROUTES@[6]@ == "GET /v1/ports/{port}/stats"@);
    assert(ROUTES@[7]@ == "GET /v1/ports/{port}/lines"@);
    assert(ROUTES@[8]@ == "GET /v1/ports/{port}/lines/stream"@);
    assert(ROUTES@[9]@ == "DELETE /v1/ports/{port}/lines"@);
    assert(ROUTES@[10]@ == "GET /v1/ports/{port}/search"@);
    assert(ROUTES@[11]@ == "POST /v1/ports/{port}/export"@);
    assert(ROUTES@[12]@ == "POST /v1/ports/{port}/write"@);
    assert(ROUTES@[13]@ == "POST /v1/ports/{port}/break"@);
    assert(ROUTES@[14]@ == "POST /v1/ports/{port}/signals"@);
    assert(ROUTES@[15]@ == "POST /v1/ports/{port}/macros/{name}"@);
    assert(ROUTES@[16]@ == "POST /v1/ports/{port}/transfers"@);
    assert(ROUTES@[17]@ == "GET /v1/ports/{port}/esp"@);
    assert(ROUTES@[18]@ == "POST /v1/ports/{port}/esp/flash"@);
    assert(ROUTES@[19]@ == "POST /v1/ports/{port}/esp/erase"@);
    assert(ROUTES@[20]@ == "POST /v1/ports/{port}/esp/write-bin"@);
    assert(ROUTES@[21]@ == "GET /v1/jobs/{job}/stream"@);
}

/// Whether a request is served by a route.
pub open spec fn serves(route: Seq<char>, payload: RequestPayload) -> bool {
    routes_of(payload) is Ok && routes_of(payload)->Ok_0.contains(route)
}

/// A request that the route at a place of the list serves.
spec fn sample(i: int, t: String) -> RequestPayload {
    if i == 0 {
        RequestPayload::Ping
    } else if i == 2 {
        RequestPayload::ListPorts
    } else if i == 3 {
        RequestPayload::OpenPort { name: t, settings: crate::protocol::no_settings() }
    } else if i == 4 {
        RequestPayload::ClosePort { name: t }
    } else if i == 5 {
        RequestPayload::GetStatus { port: t }
    } else if i == 6 {
        RequestPayload::GetStats { port: t }
    } else if i == 7 {
        RequestPayload::ReadLines { port: t, window: crate::protocol::whole_window() }
    } else if i == 8 {
        RequestPayload::ReadLines { port: t, window: crate::protocol::whole_window() }
    } else if i == 9 {
        RequestPayload::Clear { port: t, archive_current: None }
    } else if i == 10 {
        RequestPayload::Search { port: t, query: t, mode: SearchMode::Substring, start_ns: None, end_ns: None, limit: None }
    } else if i == 11 {
        RequestPayload::Export { port: t, output_path: t, file_format: None, start_line: None, end_line: None }
    } else if i == 12 {
        RequestPayload::WriteData { port: t, data: t, is_hex: false }
    } else if i == 13 {
        RequestPayload::SendBreak { port: t, duration_ms: None }
    } else if i == 14 {
        RequestPayload::SetSignal { port: t, dtr: None, rts: None }
    } else if i == 15 {
        RequestPayload::ExecuteMacro { port: t, macro_name: t }
    } else if i == 16 {
        RequestPayload::SendFile { port: t, file_path: t, protocol: FileTransferProtocol::Zmodem }
    } else if i == 17 {
        RequestPayload::EspInfo { port: t }
    } else if i == 18 {
        RequestPayload::EspFlash { port: t, firmware_path: t, baud: None }
    } else if i == 19 {
        RequestPayload::EspErase { port: t }
    } else if i == 20 {
        RequestPayload::EspWriteBin { port: t, file_path: t, address: t }
    } else if i == 21 {
        RequestPayload::EspFlash { port: t, firmware_path: t, baud: None }
    } else {
        RequestPayload::Ping
    }
}

/// Every route that is advertised serves some request, but for the two that
/// describe the build rather than carrying one out.
pub proof fn every_route_serves_something(i: int)
    requires
        0 <= i < 23,
    ensures
        ROUTES@[i]@ == "GET /v1/version"@ || ROUTES@[i]@ == "GET /v1/openapi.json"@ || exists|
            payload: RequestPayload,
        | #[trigger]
            serves(ROUTES@[i]@, payload),
{
    let t = choose|t: String| #[trigger] t@.len() == 0;
    let payload = sample(i, t);
    if i != 1 && i != 22 {
        assert(routes_of(payload) is Ok);
        let routes = routes_of(payload)->Ok_0;
        let at: int = if i == 8 || i == 21 {
            1
        } else {
            0
        };
        assert(routes[at] == ROUTES@[i]@);
        assert(serves(ROUTES@[i]@, payload));
    }
}

// ---------------------------------------------------------------------------
// The description
// ---------------------------------------------------------------------------

/// What one route is for, in one sentence; nothing where there is no such route.
pub open spec fn description(route: Seq<char>) -> Seq<char> {
    if route == "GET /v1/health"@ {
        "Whether the interface is answering."@
    } else if route == "GET /v1/version"@ {
        "What this build is, and every route it serves."@
    } else if route == "GET /v1/ports"@ {
        "The ports the daemon holds, and what the operating system reports."@
    } else if route == "PUT /v1/ports/{port}"@ {
        "Open a port, or change the settings of one already open."@
    } else if route == "DELETE /v1/ports/{port}"@ {
        "Close a port the daemon holds."@
    } else if route == "GET /v1/ports/{port}"@ {
        "Link state and buffer statistics of one port."@
    } else if route == "GET /v1/ports/{port}/stats"@ {
        "Buffer statistics of one port."@
    } else if route == "GET /v1/ports/{port}/lines"@ {
        "A page of captured lines."@
    } else if route == "GET /v1/ports/{port}/lines/stream"@ {
        "The capture as it grows, one event per line."@
    } else if route == "DELETE /v1/ports/{port}/lines"@ {
        "Discard the buffer, optionally archiving it first."@
    } else if route == "GET /v1/ports/{port}/search"@ {
        "Search the capture."@
    } else if route == "POST /v1/ports/{port}/export"@ {
        "Write the capture to a file the daemon can reach."@
    } else if route == "POST /v1/ports/{port}/write"@ {
        "Write bytes to the port, as text or as hex."@
    } else if route == "POST /v1/ports/{port}/break"@ {
        "Hold the line in the break condition."@
    } else if route == "POST /v1/ports/{port}/signals"@ {
        "Set DTR, RTS or both."@
    } else if route == "POST /v1/ports/{port}/macros/{name}"@ {
        "Run a macro from the configuration."@
    } else if route == "POST /v1/ports/{port}/transfers"@ {
        "Send or receive a file with a modem protocol."@
    } else if route == "GET /v1/openapi.json"@ {
        "This description."@
    } else if route == "GET /v1/ports/{port}/esp"@ {
        "What the attached board says about itself."@
    } else if route == "POST /v1/ports/{port}/esp/flash"@ {
        "Start flashing firmware, and name the job doing it."@
    } else if route == "POST /v1/ports/{port}/esp/erase"@ {
        "Erase the flash of the attached board."@
    } else if route == "POST /v1/ports/{port}/esp/write-bin"@ {
        "Write a raw binary to an address in flash."@
    } else if route == "GET /v1/jobs/{job}/stream"@ {
        "The output of a job, one event per line."@
    } else {
        ""@
    }
}

/// What one route is for, in one sentence.
pub fn describe(route: &str) -> (r: &'static str)
    ensures
        r@ == description(route@),
{
    if same(route, "GET /v1/health") {
        "Whether the interface is answering."
    } else if same(route, "GET /v1/version") {
        "What this build is, and every route it serves."
    } else if same(route, "GET /v1/ports") {
        "The ports the daemon holds, and what the operating system reports."
    } else if same(route, "PUT /v1/ports/{port}") {
        "Open a port, or change the settings of one already open."
    } else if same(route, "DELETE /v1/ports/{port}") {
        "Close a port the daemon holds."
    } else if same(route, "GET /v1/ports/{port}") {
        "Link state and buffer statistics of one port."
    } else if same(route, "GET /v1/ports/{port}/stats") {
        "Buffer statistics of one port."
    } else if same(route, "GET /v1/ports/{port}/lines") {
        "A page of captured lines."
    } else if same(route, "GET /v1/ports/{port}/lines/stream") {
        "The capture as it grows, one event per line."
    } else if same(route, "DELETE /v1/ports/{port}/lines") {
        "Discard the buffer, optionally archiving it first."
    } else if same(route, "GET /v1/ports/{port}/search") {
        "Search the capture."
    } else if same(route, "POST /v1/ports/{port}/export") {
        "Write the capture to a file the daemon can reach."
    } else if same(route, "POST /v1/ports/{port}/write") {
        "Write bytes to the port, as text or as hex."
    } else if same(route, "POST /v1/ports/{port}/break") {
        "Hold the line in the break condition."
    } else if same(route, "POST /v1/ports/{port}/signals") {
        "Set DTR, RTS or both."
    } else if same(route, "POST /v1/ports/{port}/macros/{name}") {
        "Run a macro from the configuration."
    } else if same(route, "POST /v1/ports/{port}/transfers") {
        "Send or receive a file with a modem protocol."
    } else if same(route, "GET /v1/openapi.json") {
        "This description."
    } else if same(route, "GET /v1/ports/{port}/esp") {
        "What the attached board says about itself."
    } else if same(route, "POST /v1/ports/{port}/esp/flash") {
        "Start flashing firmware, and name the job doing it."
    } else if same(route, "POST /v1/ports/{port}/esp/erase") {
        "Erase the flash of the attached board."
    } else if same(route, "POST /v1/ports/{port}/esp/write-bin") {
        "Write a raw binary to an address in flash."
    } else if same(route, "GET /v1/jobs/{job}/stream") {
        "The output of a job, one event per line."
    } else {
        ""
    }
}

/// Every route that is advertised says what it is for.
pub proof fn every_route_is_described(i: int)
    requires
        0 <= i < 23,
    ensures
        description(ROUTES@[i]@).len() > 0,
{
    reveal_strlit("Whether the interface is answering.");
    reveal_strlit("What this build is, and every route it serves.");
    reveal_strlit("The ports the daemon holds, and what the operating system reports.");
    reveal_strlit("Open a port, or change the settings of one already open.");
    reveal_strlit("Close a port the daemon holds.");
    reveal_strlit("Link state and buffer statistics of one port.");
    reveal_strlit("Buffer statistics of one port.");
    reveal_strlit("A page of captured lines.");
    reveal_strlit("The capture as it grows, one event per line.");
    reveal_strlit("Discard the buffer, optionally archiving it first.");
    reveal_strlit("Search the capture.");
    reveal_strlit("Write the capture to a file the daemon can reach.");
    reveal_strlit("Write bytes to the port, as text or as hex.");
    reveal_strlit("Hold the line in the break condition.");
    reveal_strlit("Set DTR, RTS or both.");
    reveal_strlit("Run a macro from the configuration.");
    reveal_strlit("Send or receive a file with a modem protocol.");
    reveal_strlit("This description.");
    reveal_strlit("What the attached board says about itself.");
    reveal_strlit("Start flashing firmware, and name the job doing it.");
    reveal_strlit("Erase the flash of the attached board.");
    reveal_strlit("Write a raw binary to an address in flash.");
    reveal_strlit("The output of a job, one event per line.");
}

/// Whether a character is an ASCII letter or digit.
pub open spec fn alphanumeric(c: char) -> bool {
    ('a' <= c && c <= 'z') || ('A' <= c && c <= 'Z') || ('0' <= c && c <= '9')
}

/// A segment of a path as words with underscores between them.
pub open spec fn cleaned(segment: Seq<char>) -> Seq<char> {
    segment.map_values(
        |c: char|
            if alphanumeric(c) {
                text::ascii_lower(c)
            } else {
                '_'
            },
    )
}

/// Words, each behind an underscore; an empty one is left out.
pub open spec fn worded(words: Seq<Seq<char>>) -> Seq<char>
    decreases words.len(),
{
    if words.len() == 0 {
        Seq::empty()
    } else if words.last().len() == 0 {
        worded(words.drop_last())
    } else {
        worded(words.drop_last()) + "_"@ + words.last()
    }
}

/// The words of segments, each behind an underscore.
pub open spec fn segments_worded(segments: Seq<Seq<char>>) -> Seq<char>
    decreases segments.len(),
{
    if segments.len() == 0 {
        Seq::empty()
    } else {
        segments_worded(segments.drop_last()) + worded(
            text::split_at_char(cleaned(segments.last()), '_'),
        )
    }
}

/// The name of a route: its method in lower case, and the words of its path
/// behind the version. The leading empty segment and the version carry nothing that tells
/// two routes apart.
pub open spec fn operation_name(lowered: Seq<char>, path: Seq<char>) -> Seq<char> {
    let segments = text::split_at_char(path, '/');
    lowered + segments_worded(
        if segments.len() <= 2 {
            Seq::empty()
        } else {
            segments.skip(2)
        },
    )
}

fn clean(segment: &str) -> (r: String)
    ensures
        r@ == cleaned(segment@),
{
    let chars = chars_of(segment);
    let mut out = String::new();
    let mut i: usize = 0;
    while i < chars.len()
        invariant
            i <= chars@.len(),
            chars@ == segment@,
            out@ == cleaned(segment@).take(i as int),
        decreases chars@.len() - i,
    {
        let c = chars[i];
        if ('a' <= c && c <= 'z') || ('0' <= c && c <= '9') {
            out.push(c);
        } else if 'A' <= c && c <= 'Z' {
            let b: u8 = c as u8;
            out.push((b + 32) as char);
        } else {
            out.push('_');
        }
        assert(cleaned(segment@).take(i + 1) =~= cleaned(segment@).take(i as int).push(
            cleaned(segment@)[i as int],
        ));
        i = i + 1;
    }
    assert(cleaned(segment@).take(segment@.len() as int) =~= cleaned(segment@));
    out
}

fn push_words(out: &mut String, words: &Vec<String>)
    ensures
        final(out)@ == old(out)@ + worded(text::texts(words@)),
{
    let ghost before = out@;
    let ghost all = text::texts(words@);
    let mut i: usize = 0;
    assert(out@ =~= before + worded(all.take(0)));
    while i < words.len()
        invariant
            i <= words@.len(),
            all == text::texts(words@),
            out@ == before + worded(all.take(i as int)),
        decreases words@.len() - i,
    {
        let word = words[i].as_str();
        proof {
            reveal_strlit("");
            assert(""@ =~= Seq::<char>::empty());
            assert(all.take(i + 1).drop_last() =~= all.take(i as int));
            assert(all.take(i + 1).last() == word@);
            assert(word@.len() == 0 ==> word@ =~= ""@);
        }
        if !same(word, "") {
            out.append("_");
            out.append(word);
        }
        assert(out@ =~= before + worded(all.take(i + 1)));
        i = i + 1;
    }
    assert(all.take(all.len() as int) =~= all);
}

/// A name for one route, built from its method and path.
pub fn operation_id(method: &str, path: &str) -> (r: String)
    ensures
        r@ == operation_name(text::lowercase_of(method@), path@),
        text::is_ascii(method@) ==> r@ == operation_name(text::lower(method@), path@),
{
    let mut id = to_lowercase(method);
    let segments = split(path, '/');
    let ghost all = text::texts(segments@);
    let ghost start = id@;
    let mut i: usize = 2;
    assert(segments.len() > 2 ==> all.skip(2).take(0) =~= Seq::<Seq<char>>::empty());
    assert(start + Seq::<char>::empty() =~= start);
    while i < segments.len()
        invariant
            all == text::texts(segments@),
            2 <= i,
            segments@.len() > 2 ==> i <= segments@.len() && id@ == start + segments_worded(
                all.skip(2).take(i - 2),
            ),
            segments@.len() <= 2 ==> id@ == start,
        decreases segments@.len() - i,
    {
        let words = split(clean(segments[i].as_str()).as_str(), '_');
        proof {
            let taken = all.skip(2).take(i - 1);
            assert(taken.drop_last() =~= all.skip(2).take(i - 2));
            assert(taken.last() == all[i as int]);
        }
        push_words(&mut id, &words);
        assert(id@ =~= start + segments_worded(all.skip(2).take(i - 1)));
        i = i + 1;
    }
    proof {
        if segments@.len() > 2 {
            assert(all.skip(2).take(i - 2) =~= all.skip(2));
        } else {
            assert(id@ =~= start + segments_worded(Seq::<Seq<char>>::empty()));
        }
    }
    id
}

/// Whether a segment of a path is a placeholder.
pub open spec fn braced(segment: Seq<char>) -> bool {
    segment.len() >= 2 && segment[0] == '{' && segment.last() == '}'
}

/// The names of the placeholders among segments of a path, in order.
pub open spec fn placeholder_names(segments: Seq<Seq<char>>) -> Seq<Seq<char>>
    decreases segments.len(),
{
    if segments.len() == 0 {
        Seq::empty()
    } else {
        let before = placeholder_names(segments.drop_last());
        let s = segments.last();
        if braced(s) {
            before.push(s.subrange(1, s.len() - 1))
        } else {
            before
        }
    }
}

/// The names of the placeholders in a path: the parameters it takes.
pub fn placeholders(path: &str) -> (r: Vec<String>)
    ensures
        text::texts(r@) == placeholder_names(text::split_at_char(path@, '/')),
{
    let segments = split(path, '/');
    let ghost all = text::texts(segments@);
    let mut names: Vec<String> = Vec::new();
    let mut i: usize = 0;
    assert(text::texts(names@) =~= placeholder_names(all.take(0)));
    while i < segments.len()
        invariant
            i <= segments@.len(),
            all == text::texts(segments@),
            text::texts(names@) == placeholder_names(all.take(i as int)),
        decreases segments@.len() - i,
    {
        let chars = chars_of(segments[i].as_str());
        let n: usize = chars.len();
        proof {
            assert(all.take(i + 1).drop_last() =~= all.take(i as int));
            assert(all.take(i + 1).last() == chars@);
        }
        if n >= 2 && chars[0] == '{' && chars[n - 1] == '}' {
            let name = slice_of(chars.as_slice(), 1, n - 1);
            let ghost had = text::texts(names@);
            let ghost new = name@;
            names.push(name);
            assert(text::texts(names@) =~= had.push(new));
        }
        i = i + 1;
    }
    assert(all.take(all.len() as int) =~= all);
    names
}

/// What a route answers where all went well.
pub open spec fn succeeds(route: &str, r: (u16, &'static str)) -> bool {
    if text::finishes_with(route@, "/esp/flash"@) {
        r.0 == 202 && r.1@ == "the job was started"@
    } else if text::finishes_with(route@, "/stream"@) {
        r.0 == 200 && r.1@ == "an event stream"@
    } else {
        r.0 == 200 && r.1@ == "the request was carried out"@
    }
}

/// What a route answers with when it succeeds: the code, and what it means.
///
/// Every failure this interface produces is a problem document.
pub fn success(route: &str) -> (r: (u16, &'static str))
    ensures
        succeeds(route, r),
{
    if ends_with(route, "/esp/flash") {
        (202, "the job was started")
    } else if ends_with(route, "/stream") {
        (200, "an event stream")
    } else {
        (200, "the request was carried out")
    }
}

// ---------------------------------------------------------------------------
// What the interface says of itself
// ---------------------------------------------------------------------------

/// The answer of `GET /v1/health`.
pub const HEALTH: &'static str = "{\"status\":\"ok\"}";

/// The features of a build, so a caller need not guess.
pub open spec fn feature_names(esp: bool, monitor: bool, tui: bool) -> Seq<Seq<char>> {
    seq!["rest"@] + (if esp {
        seq!["esp"@]
    } else {
        Seq::empty()
    }) + (if monitor {
        seq!["monitor"@]
    } else {
        Seq::empty()
    }) + (if tui {
        seq!["tui"@]
    } else {
        Seq::empty()
    })
}

/// The features of a build, so a caller need not guess.
pub fn features(esp: bool, monitor: bool, tui: bool) -> (r: Vec<String>)
    ensures
        text::texts(r@) == feature_names(esp, monitor, tui),
{
    let mut v: Vec<String> = Vec::new();
    v.push("rest".to_owned());
    if esp {
        v.push("esp".to_owned());
    }
    if monitor {
        v.push("monitor".to_owned());
    }
    if tui {
        v.push("tui".to_owned());
    }
    assert(text::texts(v@) =~= feature_names(esp, monitor, tui));
    v
}

/// The routes as texts.
pub open spec fn route_texts() -> Seq<Seq<char>> {
    Seq::new(23, |i: int| ROUTES@[i]@)
}

fn route_list() -> (r: Vec<String>)
    ensures
        text::texts(r@) == route_texts(),
{
    let mut v: Vec<String> = Vec::new();
    let routes = ROUTES;
    let mut i: usize = 0;
    while i < 23
        invariant
            i <= 23,
            routes == ROUTES,
            v@.len() == i,
            forall|j: int| 0 <= j < i ==> (#[trigger] v@[j])@ == ROUTES@[j]@,
        decreases 23 - i,
    {
        v.push(routes[i].to_owned());
        i = i + 1;
    }
    assert(text::texts(v@) =~= route_texts());
    v
}

/// What the interface says of itself.
pub open spec fn tells_version(number: &str, features: &Vec<String>, r: String) -> bool {
    r@ == "{\"api\":\"v1\",\"features\":"@ + json::json_array(
        json::json_texts(text::texts(features@)),
    ) + ",\"name\":\"devserial\",\"routes\":"@ + json::json_array(
        json::json_texts(route_texts()),
    ) + ",\"version\":"@ + json::json_text(number@) + "}"@
}

/// The answer of `GET /v1/version`: what this build is and what it can do.
pub fn version(number: &str, features: &Vec<String>) -> (r: String)
    ensures
        tells_version(number, features, r),
{
    let mut out = concat2("{\"api\":\"v1\",\"features\":", string_array(features).as_str());
    out.append(",\"name\":\"devserial\",\"routes\":");
    out.append(string_array(&route_list()).as_str());
    out.append(",\"version\":");
    out.append(json_string(number).as_str());
    out.append("}");
    out
}

} // verus!
