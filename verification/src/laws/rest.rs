//! What the web service lets in, serves and answers.
use vstd::prelude::*;
use vstd::string::*;

use crate::engine::EngineError;
use crate::export;
use crate::export::ExportFormat;
use crate::json;
use crate::laws::tools;
use crate::modem::FileTransferProtocol;
use crate::protocol::{
    LinesPage, PortInfoResponse, ReadWindow, RequestPayload, ResponsePayload, RestState,
    SearchMode, SearchOutcome,
};
use crate::reader::ConnectionState;
use crate::rest;
use crate::rest::answers;
use crate::rest::answers::{
    ExportBody, LineStream, LinesQuery, SearchQuery, StreamStep, TransferBody, WriteBody,
};
use crate::rest::jobs;
use crate::rest::jobs::JobLog;
use crate::rest::routes;
use crate::rest::routes::Event;
use crate::rest::{Attempt, BindError, BindScope, Head, Problem, RestConfig, RestServer, Status};
use crate::storage::{BufferStats, StoredLine};
use crate::text;

verus! {

// ---------------------------------------------------------------------------
// The door
// ---------------------------------------------------------------------------

/// A request that carries a body declares it as JSON, every request names this
/// machine and its port, and all but the sign of life present the token where
/// there is one. What fails first is told first.
pub proof fn requests_are_let_in(
    head: &Head<'_>,
    token: &Option<String>,
    port: u16,
    r: Result<(), Problem>,
)
    requires
        rest::lets_in(head, token, port, r),
    ensures
        ({
            let body = head.method@ == "POST"@ || head.method@ == "PUT"@ || head.method@
                == "PATCH"@;
            let json = head.content_type matches Some(t) && rest::json_type(t@);
            let host = match head.host {
                Some(h) => h@,
                None => Seq::empty(),
            };
            let known = token matches Some(t) ==> head.authorization matches Some(a) && a@
                == "Bearer "@ + t@;
            if body && !json {
                r matches Err(p) && p.status.number() == 415 && p.kind@ == "not-json"@ && p.detail@
                    == "a body has to declare Content-Type: application/json"@
            } else if !rest::local_host(host, port) {
                r matches Err(p) && p.status.number() == 421 && p.kind@ == "host-not-local"@
                    && p.detail@ == "this interface answers only to localhost and 127.0.0.1"@
            } else if !head.health && !known {
                r matches Err(p) && p.status.number() == 401 && p.kind@ == "unauthorized"@
                    && p.detail@ == "a bearer token is required for this interface"@
            } else {
                r is Ok
            }
        }),
{
    reveal_strlit("application/json");
    let none = Seq::<char>::empty();
    assert(rest::before_semicolon(none) =~= none);
    assert(text::trimmed(none) =~= none);
    assert(text::lower(none).len() == 0);
    assert("application/json"@.len() > 0);
    assert(!rest::json_type(none));
}

/// JSON is declared by its media type, whatever its case and whatever follows a
/// semicolon.
pub proof fn json_is_declared(kind: Seq<char>, rest: Seq<char>)
    requires
        forall|i: int| 0 <= i < kind.len() ==> #[trigger] kind[i] != ';',
    ensures
        rest::json_type(kind) <==> text::lower(text::trimmed(kind)) == "application/json"@,
        rest::json_type(kind + seq![';'] + rest) <==> text::lower(text::trimmed(kind))
            == "application/json"@,
{
    stands_before_semicolon(kind, rest);
}

/// What stands before the first semicolon.
proof fn stands_before_semicolon(kind: Seq<char>, rest: Seq<char>)
    requires
        forall|i: int| 0 <= i < kind.len() ==> #[trigger] kind[i] != ';',
    ensures
        rest::before_semicolon(kind) == kind,
        rest::before_semicolon(kind + seq![';'] + rest) == kind,
    decreases kind.len(),
{
    let whole = kind + seq![';'] + rest;
    if kind.len() > 0 {
        let shorter = kind.skip(1);
        assert forall|i: int| 0 <= i < shorter.len() implies #[trigger] shorter[i] != ';' by {
            assert(shorter[i] == kind[i + 1]);
        }
        stands_before_semicolon(shorter, rest);
        assert(whole[0] == kind[0]);
        assert(whole.skip(1) =~= shorter + seq![';'] + rest);
        assert(seq![kind[0]] + shorter =~= kind);
    } else {
        assert(whole[0] == ';');
        assert(rest::before_semicolon(whole) =~= kind);
        assert(rest::before_semicolon(kind) =~= kind);
    }
}

/// This machine is named by `localhost` or a loopback address, in brackets or not,
/// with the port of the interface behind a colon.
pub proof fn this_machine_is_named(host: Seq<char>, port: u16)
    ensures
        rest::local_host("localhost"@ + ":"@ + text::dec_nat(port as nat), port),
        rest::local_host("127.0.0.1"@ + ":"@ + text::dec_nat(port as nat), port),
        rest::local_host(host, port) ==> exists|name: Seq<char>, tail: Seq<char>|
            {
                &&& host == #[trigger] (name + ":"@ + tail)
                &&& text::parse_nat(tail, 65_535) == Some(port as nat)
                &&& {
                    let bare = rest::unbracketed_end(rest::unbracketed_start(name));
                    bare == "localhost"@ || bare == "127.0.0.1"@ || bare == "::1"@
                }
            },
{
    reveal_strlit("localhost");
    reveal_strlit("127.0.0.1");
    reveal_strlit(":");
    let digits = text::dec_nat(port as nat);
    text::lemma_dec_nat(port as nat);
    text::decimal_reads_back(port as nat, 65_535);
    assert forall|i: int| 0 <= i < digits.len() implies digits[i] != ':' by {
        assert(text::is_digit(digits[i]));
    }
    assert(!rest::has_char(digits, ':'));
    let a = "localhost"@;
    let b = "127.0.0.1"@;
    assert(!rest::has_char(a, ':'));
    assert(!rest::has_char(b, ':'));
    assert(rest::unbracketed_start(a) == a && rest::unbracketed_end(a) == a);
    assert(rest::unbracketed_start(b) == b && rest::unbracketed_end(b) == b);
    assert(rest::addresses(a, digits, port));
    assert(rest::addresses(b, digits, port));
    if rest::local_host(host, port) {
        let (name, tail) = choose|name: Seq<char>, tail: Seq<char>| #[trigger]
            rest::addresses(name, tail, port) && host == name + ":"@ + tail;
        assert(host == name + ":"@ + tail);
    }
}

/// Brackets around a name are passed over, and nothing else is.
pub proof fn brackets_are_passed_over(s: Seq<char>)
    ensures
        rest::unbracketed_start(seq!['['] + s) == rest::unbracketed_start(s),
        rest::unbracketed_end(s.push(']')) == rest::unbracketed_end(s),
        s.len() == 0 || s[0] != '[' ==> rest::unbracketed_start(s) == s,
        s.len() == 0 || s.last() != ']' ==> rest::unbracketed_end(s) == s,
{
    assert((seq!['['] + s).skip(1) =~= s);
    assert(s.push(']').drop_last() =~= s);
}

/// A token is presented behind the word `Bearer`, whole; where none is set none is
/// asked for.
pub proof fn tokens_are_presented(token: String, authorization: &str)
    ensures
        rest::token_passes(None, None),
        rest::token_passes(None, Some(authorization)),
        !rest::token_passes(Some(token), None),
        rest::token_passes(Some(token), Some(authorization)) <==> authorization@ == "Bearer "@
            + token@,
{
}

// ---------------------------------------------------------------------------
// The listener
// ---------------------------------------------------------------------------

/// The service listens on an address alone, and on one of the network only with a
/// token; on this machine it asks for a token where one is set.
pub proof fn listening_is_allowed(config: &RestConfig, scope: BindScope, r: Result<(), String>)
    requires
        RestServer::binds(config, scope, r),
    ensures
        scope is NotAnAddress ==> (r matches Err(m) && m@ == "'"@ + config.bind@
            + "' is not an IP address"@),
        scope is Network && config.token is None ==> (r matches Err(m) && m@ == "binding "@
            + config.bind@ + " exposes the device to the network, so it needs a token. "@
            + "Set one with --token-file, or bind 127.0.0.1."@),
        scope is Loopback || (scope is Network && config.token is Some) ==> r is Ok,
        rest::needs_token(*config, scope) <==> config.token is Some || scope is Network || scope
            is NotAnAddress,
{
}

/// A service that listens says where, on the port it was given, with the token of
/// its configuration; one that could not says why.
pub proof fn listening_is_told(
    before: RestServer,
    config: RestConfig,
    port: u16,
    reason: String,
    up: RestServer,
    listening: Result<RestState, String>,
    down: RestServer,
    failed: Result<RestState, String>,
)
    requires
        RestServer::enabled(
            before,
            config,
            BindScope::Loopback,
            Attempt::Listening(port),
            up,
            listening,
        ),
        RestServer::enabled(
            before,
            config,
            BindScope::Loopback,
            Attempt::Unbound(reason),
            down,
            failed,
        ),
    ensures
        listening == Ok::<RestState, String>(up.state) && up.running && up.state.listening
            && up.state.port == port && up.state.bind@ == config.bind@ && up.state.reason is None
            && (up.state.token_required <==> config.token is Some),
        match (up.token, config.token) {
            (Some(a), Some(b)) => a@ == b@,
            (None, None) => true,
            _ => false,
        },
        failed matches Err(m) && m@ == reason@,
        !down.state.listening && down.state.port == config.port && (
        down.state.reason matches Some(m) && m@ == reason@) && down.token == before.token,
{
}

/// A service that is stopped listens no longer, and keeps the rest.
pub proof fn listening_stops(before: RestServer, after: RestServer, r: RestState)
    requires
        RestServer::disabled(before, after, r),
    ensures
        !r.listening && !after.running && r == after.state,
        r.bind == before.state.bind && r.port == before.state.port && r.token_required
            == before.state.token_required,
        after.token == before.token,
        before.state.listening ==> r.reason is None,
        !before.state.listening ==> r.reason == before.state.reason,
{
}

/// Why the service does not listen is told with its address or port.
pub proof fn faults_of_listening_are_told(ip: Seq<char>, port: u16, addr: Seq<char>, e: String)
    ensures
        rest::failure_text(ip, port, addr, BindError::AddrInUse) == "port "@ + text::dec_nat(
            port as nat,
        ) + " is in use. Another program is listening there."@,
        rest::failure_text(ip, port, addr, BindError::PermissionDenied) == "port "@ + text::dec_nat(
            port as nat,
        ) + " needs privileges this process does not have. Use a port above 1024."@,
        rest::failure_text(ip, port, addr, BindError::AddrNotAvailable)
            == "no interface on this machine has the address "@ + ip + "."@,
        rest::failure_text(ip, port, addr, BindError::Other(e)) == "could not bind "@ + addr + ": "@
            + e@,
{
}

/// What is refused has a number, a title and a kind, and tells the detail.
pub proof fn refusals_are_told(p: Problem)
    ensures
        (Status::BadRequest).number() == 400 && (Status::BadRequest).title() == "Bad Request"@,
        (Status::Unauthorized).number() == 401 && (Status::Unauthorized).title()
            == "Unauthorized"@,
        (Status::NotFound).number() == 404 && (Status::NotFound).title() == "Not Found"@,
        (Status::UnsupportedMediaType).number() == 415 && (Status::UnsupportedMediaType).title()
            == "Unsupported Media Type"@,
        (Status::MisdirectedRequest).number() == 421 && (Status::MisdirectedRequest).title()
            == "Misdirected Request"@,
        (Status::InternalServerError).number() == 500 && (Status::InternalServerError).title()
            == "Internal Server Error"@,
        p.body() == "{\"detail\":"@ + json::json_text(p.detail@) + ",\"status\":"@ + text::dec_nat(
            p.status.number() as nat,
        ) + ",\"title\":"@ + json::json_text(p.status.title()) + ",\"type\":"@ + json::json_text(
            "https://devserial.dev/problem/"@ + p.kind@,
        ) + "}"@,
{
}

// ---------------------------------------------------------------------------
// Requests
// ---------------------------------------------------------------------------

/// A query for lines carries its bounds over as they are; a time that cannot be
/// read is refused.
pub proof fn queries_ask_for_lines(query: LinesQuery, r: Result<ReadWindow, Problem>)
    requires
        query.gives_window(r),
    ensures
        match query.since {
            Some(t) if crate::clock::rfc3339_of(t@) is Err => r matches Err(p) && p.status.number()
                == 400 && p.kind@ == "invalid-parameter"@ && p.detail@ == "invalid time"@ + " '"@ + t@
                + "': "@ + crate::clock::rfc3339_of(t@)->Err_0,
            _ => r matches Ok(w) && w.start_id == query.start && w.after_id == query.after && w.tail
                == query.tail && w.limit == query.limit && w.wait_ms == query.wait_ms && w.since_ns
                == tools::stands_for(query.since),
        },
{
}

/// A query asks for what it looks for, between its times.
pub proof fn queries_search(query: SearchQuery, port: String, r: Result<RequestPayload, Problem>)
    requires
        query.asks(port, r),
    ensures
        match (query.from, query.to) {
            (Some(t), _) if crate::clock::rfc3339_of(t@) is Err => r matches Err(p)
                && p.status.number() == 400,
            (_, Some(t)) if crate::clock::rfc3339_of(t@) is Err => r matches Err(p)
                && p.status.number() == 400,
            _ => r matches Ok(
                RequestPayload::Search { port: p, query: q, mode, start_ns, end_ns, limit },
            ) && p == port && q@ == query.q@ && mode == (match query.mode {
                Some(m) => m,
                None => SearchMode::Substring,
            }) && start_ns == tools::stands_for(query.from) && end_ns == tools::stands_for(query.to)
                && limit == query.limit,
        },
{
}

/// What a body asks for is asked of the port of its route, as it was asked for.
pub proof fn bodies_are_asked_for(
    port: String,
    export: ExportBody,
    write: WriteBody,
    path: String,
    protocol: FileTransferProtocol,
    a: RequestPayload,
    b: RequestPayload,
    send: RequestPayload,
    receive: RequestPayload,
)
    requires
        export.asks(port, a),
        write.asks(port, b),
        (TransferBody::Send { path, protocol }).asks(port, send),
        (TransferBody::Receive { directory: path, protocol }).asks(port, receive),
    ensures
        a matches RequestPayload::Export {
            port: p,
            output_path,
            file_format,
            start_line,
            end_line,
        } && p == port && output_path == export.path && file_format == export.format && start_line
            == export.start_line && end_line == export.end_line,
        b matches RequestPayload::WriteData { port: p, data, is_hex } && p == port && data
            == write.data && is_hex == write.hex,
        send matches RequestPayload::SendFile { port: p, file_path, protocol: t } && p == port
            && file_path == path && t == protocol,
        receive matches RequestPayload::ReceiveFile { port: p, output_dir, protocol: t } && p
            == port && output_dir == path && t == protocol,
{
}

/// Every request but those on the daemon itself has a route.
pub proof fn requests_have_routes(
    payload: RequestPayload,
    r: Result<Vec<&'static str>, &'static str>,
)
    requires
        routes::is_served(&payload, r),
    ensures
        r is Err <==> payload is Shutdown || payload is RestStatus || payload is RestEnable
            || payload is RestDisable,
        r matches Ok(v) ==> v@.len() == (if payload is ReadLines || payload is EspFlash {
            2int
        } else {
            1
        }) && v@[0]@ == (match payload {
            RequestPayload::Ping => "GET /v1/health"@,
            RequestPayload::ListPorts => "GET /v1/ports"@,
            RequestPayload::ListHardware => "GET /v1/ports"@,
            RequestPayload::OpenPort { .. } => "PUT /v1/ports/{port}"@,
            RequestPayload::ReconfigurePort { .. } => "PUT /v1/ports/{port}"@,
            RequestPayload::ClosePort { .. } => "DELETE /v1/ports/{port}"@,
            RequestPayload::GetStatus { .. } => "GET /v1/ports/{port}"@,
            RequestPayload::GetStats { .. } => "GET /v1/ports/{port}/stats"@,
            RequestPayload::ReadLines { .. } => "GET /v1/ports/{port}/lines"@,
            RequestPayload::Clear { .. } => "DELETE /v1/ports/{port}/lines"@,
            RequestPayload::Search { .. } => "GET /v1/ports/{port}/search"@,
            RequestPayload::Export { .. } => "POST /v1/ports/{port}/export"@,
            RequestPayload::WriteData { .. } => "POST /v1/ports/{port}/write"@,
            RequestPayload::SendBreak { .. } => "POST /v1/ports/{port}/break"@,
            RequestPayload::SetSignal { .. } => "POST /v1/ports/{port}/signals"@,
            RequestPayload::ExecuteMacro { .. } => "POST /v1/ports/{port}/macros/{name}"@,
            RequestPayload::SendFile { .. } => "POST /v1/ports/{port}/transfers"@,
            RequestPayload::ReceiveFile { .. } => "POST /v1/ports/{port}/transfers"@,
            RequestPayload::EspInfo { .. } => "GET /v1/ports/{port}/esp"@,
            RequestPayload::EspFlash { .. } => "POST /v1/ports/{port}/esp/flash"@,
            RequestPayload::EspErase { .. } => "POST /v1/ports/{port}/esp/erase"@,
            RequestPayload::EspWriteBin { .. } => "POST /v1/ports/{port}/esp/write-bin"@,
            _ => Seq::empty(),
        }),
        r matches Ok(v) ==> (payload is ReadLines ==> v@[1]@ == "GET /v1/ports/{port}/lines/stream"@)
            && (payload is EspFlash ==> v@[1]@ == "GET /v1/jobs/{job}/stream"@),
{
    if r is Ok {
        let v = r->Ok_0@;
        assert(v[0]@ == routes::routes_of(payload)->Ok_0[0]);
        if v.len() == 2 {
            assert(v[1]@ == routes::routes_of(payload)->Ok_0[1]);
        }
    }
}

/// Starting a job is answered as accepted, everything else as done; a stream is
/// said to be one.
pub proof fn success_is_told(route: &str, r: (u16, &'static str))
    requires
        routes::succeeds(route, r),
    ensures
        text::finishes_with(route@, "/esp/flash"@) ==> r.0 == 202 && r.1@ == "the job was started"@,
        !text::finishes_with(route@, "/esp/flash"@) ==> r.0 == 200 && r.1@ == (
        if text::finishes_with(route@, "/stream"@) {
            "an event stream"@
        } else {
            "the request was carried out"@
        }),
{
}

/// The names in braces of a path are its parameters, in order.
pub proof fn parameters_stand_in_braces(segments: Seq<Seq<char>>, segment: Seq<char>)
    ensures
        routes::placeholder_names(Seq::empty()).len() == 0,
        ({
            let named = segment.len() >= 2 && segment[0] == '{' && segment.last() == '}';
            &&& named ==> routes::placeholder_names(segments.push(segment))
                == routes::placeholder_names(segments).push(
                segment.subrange(1, segment.len() - 1),
            )
            &&& !named ==> routes::placeholder_names(segments.push(segment))
                == routes::placeholder_names(segments)
        }),
{
    assert(segments.push(segment).drop_last() =~= segments);
}

/// The service says what it is built with.
pub proof fn features_are_told(esp: bool, monitor: bool, tui: bool)
    ensures
        ({
            let f = routes::feature_names(esp, monitor, tui);
            &&& f[0] == "rest"@
            &&& f.contains("esp"@) <== esp
            &&& f.contains("monitor"@) <== monitor
            &&& f.contains("tui"@) <== tui
            &&& f.len() == 1 + (if esp {
                1int
            } else {
                0
            }) + (if monitor {
                1int
            } else {
                0
            }) + (if tui {
                1int
            } else {
                0
            })
            &&& routes::HEALTH@ == "{\"status\":\"ok\"}"@
        }),
{
    let f = routes::feature_names(esp, monitor, tui);
    if esp {
        assert(f[1] == "esp"@);
    }
    if monitor {
        assert(f[if esp {
            2int
        } else {
            1
        }] == "monitor"@);
    }
    if tui {
        assert(f.last() == "tui"@);
    }
}

/// The service tells its version, what it is built with and every route.
pub proof fn the_version_is_told(number: &str, features: &Vec<String>, r: String)
    requires
        routes::tells_version(number, features, r),
    ensures
        r@ == "{\"api\":\"v1\",\"features\":"@ + json::json_array(
            json::json_texts(text::texts(features@)),
        ) + ",\"name\":\"devserial\",\"routes\":"@ + json::json_array(
            json::json_texts(routes::route_texts()),
        ) + ",\"version\":"@ + json::json_text(number@) + "}"@,
        routes::route_texts().len() == 23,
{
}

// ---------------------------------------------------------------------------
// Answers
// ---------------------------------------------------------------------------

/// What the engine refused is a bad request, told in its words; an answer that a
/// route does not serve is a fault of the service.
pub proof fn failures_are_answered(e: EngineError, p: Problem, r: Result<String, Problem>)
    requires
        answers::tells_failure(&e, p),
        answers::tells_close(ResponsePayload::Pong, r),
    ensures
        p.status.number() == 400 && p.kind@ == "operation-failed"@ && p.detail@ == e.message(),
        r matches Err(q) && q.status.number() == 500 && q.kind@ == "unexpected-answer"@ && q.detail@
            == "the engine answered with something this route does not serve"@,
{
}

/// Ports, states and figures are answered as the engine gave them.
pub proof fn states_are_answered(
    managed: Vec<PortInfoResponse>,
    hardware: Vec<String>,
    name: String,
    state: ConnectionState,
    stats: BufferStats,
    alone: Result<(Vec<PortInfoResponse>, Option<Vec<String>>), Problem>,
    both: Result<(Vec<PortInfoResponse>, Option<Vec<String>>), Problem>,
    status: Result<(String, ConnectionState, BufferStats), Problem>,
    figures: Result<BufferStats, Problem>,
)
    requires
        answers::tells_ports(ResponsePayload::PortList(managed), None, alone),
        answers::tells_ports(
            ResponsePayload::PortList(managed),
            Some(ResponsePayload::HardwarePorts(hardware)),
            both,
        ),
        answers::tells_status(ResponsePayload::Status { name, state, stats }, status),
        answers::tells_stats(ResponsePayload::Stats(stats), figures),
    ensures
        alone matches Ok(v) && v.0 == managed && v.1 is None,
        both matches Ok(v) && v.0 == managed && v.1 == Some(hardware),
        status matches Ok(v) && v.0 == name && v.1 == state && v.2 == stats,
        figures == Ok::<BufferStats, Problem>(stats),
{
}

/// Ports and lines are answered as objects, each value under its name.
pub proof fn ports_and_lines_are_answered(
    name: String,
    summary: String,
    page: LinesPage,
    outcome: SearchOutcome,
    opened: Result<String, Problem>,
    again: Result<String, Problem>,
    closed: Result<String, Problem>,
    read: Result<String, Problem>,
    found: Result<String, Problem>,
)
    requires
        answers::tells_open(
            ResponsePayload::PortOpened { name, config_summary: summary },
            opened,
        ),
        answers::tells_open(
            ResponsePayload::PortReconfigured { name, config_summary: summary },
            again,
        ),
        answers::tells_close(ResponsePayload::PortClosed { name }, closed),
        answers::tells_lines(ResponsePayload::Lines(page), read),
        answers::tells_search(ResponsePayload::SearchResults(outcome), found),
    ensures
        opened matches Ok(b) && b@ == "{\"port\":"@ + json::json_text(name@) + ",\"settings\":"@
            + json::json_text(summary@) + "}"@,
        again matches Ok(b) && b@ == "{\"port\":"@ + json::json_text(name@) + ",\"settings\":"@
            + json::json_text(summary@) + "}"@,
        closed matches Ok(b) && b@ == "{\"port\":"@ + json::json_text(name@) + "}"@,
        read matches Ok(b) && b@ == "{\"lines\":"@ + answers::lines_json(page.lines@)
            + ",\"next_after_id\":"@ + text::dec_int(page.next_after_id as int)
            + ",\"total_lines\":"@ + text::dec_nat(page.total_lines as nat) + "}"@,
        found matches Ok(b) && b@ == "{\"results\":"@ + answers::lines_json(outcome.results@)
            + ",\"truncated\":"@ + (if outcome.truncated {
            "true"@
        } else {
            "false"@
        }) + "}"@,
{
}

/// Lines are answered in order, each as an object.
pub proof fn lines_are_answered_in_order(lines: Seq<StoredLine>, line: StoredLine)
    ensures
        answers::lines_json(Seq::empty()) == seq!['[', ']'],
        answers::lines_json(seq![line]) == seq!['['] + export::line_json(line) + seq![']'],
        lines.len() > 0 ==> answers::lines_json(lines.push(line)) == answers::lines_json(
            lines,
        ).drop_last() + seq![','] + export::line_json(line) + seq![']'],
{
    let each = |l: StoredLine| export::line_json(l);
    let items = lines.map_values(each);
    crate::laws::values::json_lists(items, export::line_json(line));
    assert(lines.push(line).map_values(each) =~= items.push(export::line_json(line)));
    assert(seq![line].map_values(each) =~= seq![export::line_json(line)]);
    assert(Seq::<StoredLine>::empty().map_values(each) =~= Seq::<Seq<char>>::empty());
}

/// What was done with the device and the buffer is answered, counted and listed.
pub proof fn device_work_is_answered(
    bytes: usize,
    ms: u64,
    steps: Vec<String>,
    n: u64,
    path: String,
    said: String,
    written: Result<String, Problem>,
    pulse: Result<String, Problem>,
    signals: Result<String, Problem>,
    run: Result<String, Problem>,
    clear: Result<String, Problem>,
    archived: Result<String, Problem>,
    tool: Result<String, Problem>,
)
    requires
        answers::tells_write(ResponsePayload::WriteSuccess { bytes_written: bytes }, written),
        answers::tells_break(ResponsePayload::BreakSuccess { duration_ms: ms }, pulse),
        answers::tells_signals(ResponsePayload::SignalSuccess { applied: steps }, signals),
        answers::tells_macro(ResponsePayload::MacroSuccess { executed_steps: steps }, run),
        answers::tells_clear(
            ResponsePayload::ClearSuccess { lines_cleared: n, archive_path: None },
            clear,
        ),
        answers::tells_clear(
            ResponsePayload::ClearSuccess { lines_cleared: n, archive_path: Some(path) },
            archived,
        ),
        answers::tells_tool(ResponsePayload::EspSuccess(said), tool),
    ensures
        written matches Ok(b) && b@ == "{\"bytes_written\":"@ + text::dec_nat(bytes as nat) + "}"@,
        pulse matches Ok(b) && b@ == "{\"duration_ms\":"@ + text::dec_nat(ms as nat) + "}"@,
        signals matches Ok(b) && b@ == "{\"applied\":"@ + json::json_array(
            json::json_texts(text::texts(steps@)),
        ) + "}"@,
        run matches Ok(b) && b@ == "{\"executed\":"@ + json::json_array(
            json::json_texts(text::texts(steps@)),
        ) + "}"@,
        clear matches Ok(b) && b@ == "{\"archive\":"@ + "null"@ + ",\"lines_cleared\":"@
            + text::dec_nat(n as nat) + "}"@,
        archived matches Ok(b) && b@ == "{\"archive\":"@ + json::json_text(path@)
            + ",\"lines_cleared\":"@ + text::dec_nat(n as nat) + "}"@,
        tool matches Ok(b) && b@ == "{\"output\":"@ + json::json_text(said@) + "}"@,
{
}

/// What was done with files is answered with their sizes, names and places.
pub proof fn file_work_is_answered(
    n: u64,
    file_name: String,
    path: String,
    format: ExportFormat,
    protocol: FileTransferProtocol,
    exported: Result<String, Problem>,
    moved: Result<String, Problem>,
)
    requires
        answers::tells_export(
            ResponsePayload::ExportSuccess { lines_exported: n, path, file_format: format },
            exported,
        ),
        answers::tells_transfer(
            ResponsePayload::TransferSuccess {
                bytes_transferred: n,
                file_name,
                protocol,
                path: Some(path),
            },
            moved,
        ),
    ensures
        exported matches Ok(b) && b@ == "{\"format\":\""@ + format.name()
            + "\",\"lines_exported\":"@ + text::dec_nat(n as nat) + ",\"path\":"@ + json::json_text(
            path@,
        ) + "}"@,
        moved matches Ok(b) && b@ == "{\"bytes_transferred\":"@ + text::dec_nat(n as nat)
            + ",\"file_name\":"@ + json::json_text(file_name@) + ",\"path\":"@ + json::json_text(
            path@,
        ) + ",\"protocol\":\""@ + (match protocol {
            FileTransferProtocol::Xmodem => "xmodem"@,
            FileTransferProtocol::XmodemCrc => "xmodem-crc"@,
            FileTransferProtocol::Xmodem1k => "xmodem1k"@,
            FileTransferProtocol::Ymodem => "ymodem"@,
            FileTransferProtocol::Zmodem => "zmodem"@,
        }) + "\"}"@,
{
}

// ---------------------------------------------------------------------------
// Streams
// ---------------------------------------------------------------------------

/// A stream begins behind the line that was asked for, or the last that its
/// client saw, and asks for what comes behind.
pub proof fn streams_begin_behind(
    window: ReadWindow,
    last: Option<&str>,
    stream: LineStream,
    port: &str,
    r: RequestPayload,
)
    requires
        LineStream::opens(window, last, stream),
        stream.asks(port, r),
    ensures
        window.after_id matches Some(id) ==> stream.after == id,
        window.after_id is None && last is None ==> stream.after == 0,
        window.after_id is None && last is Some ==> stream.after == (match text::parse_int(
            last->0@,
        ) {
            Some(id) => id,
            None => 0,
        }),
        window.wait_ms matches Some(w) ==> stream.wait_ms == w,
        window.wait_ms is None ==> stream.wait_ms == 5_000,
        r matches RequestPayload::ReadLines { port: p, window: w } && p@ == port@ && w.after_id
            == Some(stream.after) && w.wait_ms == Some(stream.wait_ms) && w.start_id is None
            && w.tail is None && w.since_ns is None && w.limit is None,
{
}

/// A stream sends every line as an event under its number, and goes on behind the
/// last of them; where the engine fails it ends.
pub proof fn streams_send_every_line(
    stream: LineStream,
    page: LinesPage,
    e: EngineError,
    step: StreamStep,
    end: StreamStep,
    i: int,
)
    requires
        stream.goes_on(Ok(ResponsePayload::Lines(page)), step),
        stream.goes_on(Err(e), end),
        0 <= i < page.lines@.len(),
    ensures
        end is End,
        step matches StreamStep::Send(events, next) && events@.len() == page.lines@.len()
            && next.after == page.lines@[page.lines@.len() - 1].id && next.wait_ms == stream.wait_ms
            && events@[i].event@ == "line"@ && (events@[i].id matches Some(id) && id@
            == text::dec_int(page.lines@[i].id as int)) && events@[i].data@ == export::line_json(
            page.lines@[i],
        ),
{
    if step is Send {
        assert(answers::carries_line(step->Send_0@[i], page.lines@[i]));
    }
}

// ---------------------------------------------------------------------------
// Jobs
// ---------------------------------------------------------------------------

/// A job hands out the lines behind those that were seen, and how it ended; a
/// client that comes back says how many it saw.
pub proof fn jobs_hand_out_the_rest(
    log: JobLog,
    seen: usize,
    r: (Vec<String>, Option<Result<String, String>>),
    after: Option<usize>,
    n: usize,
    i: int,
)
    requires
        log.gives_since(seen, r),
        jobs::is_sent(after, None, n),
    ensures
        r.1 == log.outcome,
        seen <= log.lines@.len() ==> r.0@.len() == log.lines@.len() - seen,
        seen > log.lines@.len() ==> r.0@.len() == 0,
        0 <= i < r.0@.len() ==> r.0@[i]@ == log.lines@[seen + i]@,
        after matches Some(k) ==> n == k,
        after is None ==> n == 0,
{
    assert(text::texts(r.0@).len() == r.0@.len());
    if seen <= log.lines@.len() {
        assert(text::texts(log.lines@.skip(seen as int)).len() == log.lines@.len() - seen);
        if 0 <= i < r.0@.len() {
            assert(text::texts(r.0@)[i] == r.0@[i]@);
            assert(text::texts(log.lines@.skip(seen as int))[i] == log.lines@[seen + i]@);
        }
    }
}

/// Every line of a job is an event under its place, and its end is one more.
pub proof fn jobs_are_streamed(
    sent: usize,
    lines: &Vec<String>,
    outcome: &Option<Result<String, String>>,
    r: Vec<Event>,
    i: int,
)
    requires
        jobs::are_events(sent, lines, outcome, r),
        0 <= i < lines@.len(),
    ensures
        r@.len() == lines@.len() + (if outcome is Some {
            1int
        } else {
            0
        }),
        r@[i].event@ == "line"@ && (r@[i].id matches Some(id) && id@ == text::dec_nat(
            (sent + i + 1) as nat,
        )) && r@[i].data@ == "{\"text\":"@ + json::json_text(lines@[i]@) + "}"@,
        outcome matches Some(o) ==> {
            let last = r@[r@.len() - 1];
            &&& last.event@ == "done"@ && last.id is None
            &&& o matches Ok(m) ==> last.data@ == "{\"ok\":true,\"output\":"@ + json::json_text(m@)
                + "}"@
            &&& o matches Err(m) ==> last.data@ == "{\"error\":"@ + json::json_text(m@)
                + ",\"ok\":false}"@
        },
{
    assert(jobs::carries_output(r@[i], (sent + i + 1) as nat, lines@[i]@));
}

/// A job ends as the tool did; it is known by its name and followed there.
pub proof fn jobs_end_as_the_tool(
    said: String,
    e: String,
    id: &str,
    good: Result<String, String>,
    bad: Result<String, String>,
    odd: Result<String, String>,
    started: String,
    unknown: Problem,
)
    requires
        jobs::ends(Ok(ResponsePayload::EspSuccess(said)), good),
        jobs::ends(Err(e), bad),
        jobs::ends(Ok(ResponsePayload::Pong), odd),
        jobs::tells_started(id, started),
        jobs::tells_unknown(id, unknown),
    ensures
        good == Ok::<String, String>(said),
        bad == Err::<String, String>(e),
        odd is Err,
        started@ == "{\"job\":"@ + json::json_text(id@) + ",\"stream\":"@ + json::json_text(
            "/v1/jobs/"@ + id@ + "/stream"@,
        ) + "}"@,
        unknown.status.number() == 404 && unknown.kind@ == "no-such-job"@ && unknown.detail@
            == "no job '"@ + id@ + "' is known"@,
{
}

/// The oldest finished jobs go once there are more than sixteen; one that runs
/// stops that.
pub proof fn old_jobs_go(finished: Seq<bool>)
    ensures
        finished.len() <= 16 ==> jobs::outdated(finished) == 0,
        finished.len() > 16 && !finished[0] ==> jobs::outdated(finished) == 0,
        finished.len() > 16 && finished[0] ==> jobs::outdated(finished) == 1 + jobs::outdated(
            finished.skip(1),
        ),
{
}

/// A job is named by the clock and its number, in hex.
pub proof fn jobs_are_named(clock: u64, count: u64, r: String, n: nat, d: int)
    requires
        jobs::is_job_id(clock, count, r),
        0 <= d < 16,
    ensures
        r@ == jobs::hex_nat(clock as nat) + jobs::hex_nat(count as nat),
        jobs::hex_nat(d as nat) == seq![text::hex_digit(d)],
        n > 0 ==> jobs::hex_nat((16 * n + d) as nat) == jobs::hex_nat(n).push(text::hex_digit(d)),
{
    let m = (16 * n + d) as nat;
    assert(m / 16 == n && m % 16 == d);
}

/// An operation is named by its method and the words of its path behind the
/// version, in lower case, with underscores between.
pub proof fn operations_are_named(
    method: Seq<char>,
    segments: Seq<Seq<char>>,
    segment: Seq<char>,
    words: Seq<Seq<char>>,
    word: Seq<char>,
    i: int,
)
    requires
        0 <= i < segment.len(),
    ensures
        ({
            let c = segment[i];
            let letter = 'a' <= c <= 'z' || 'A' <= c <= 'Z' || '0' <= c <= '9';
            &&& routes::cleaned(segment).len() == segment.len()
            &&& letter ==> routes::cleaned(segment)[i] == text::lower(segment)[i]
            &&& !letter ==> routes::cleaned(segment)[i] == '_'
        }),
        routes::worded(Seq::empty()).len() == 0,
        word.len() == 0 ==> routes::worded(words.push(word)) == routes::worded(words),
        word.len() > 0 ==> routes::worded(words.push(word)) == routes::worded(words) + "_"@ + word,
        routes::segments_worded(Seq::empty()).len() == 0,
        routes::segments_worded(segments.push(segment)) == routes::segments_worded(segments)
            + routes::worded(text::split_at_char(routes::cleaned(segment), '_')),
        ({
            let path = text::split_at_char(segment, '/');
            &&& path.len() <= 2 ==> routes::operation_name(method, segment) == method
            &&& path.len() > 2 ==> routes::operation_name(method, segment) == method
                + routes::segments_worded(path.skip(2))
        }),
{
    assert(words.push(word).drop_last() =~= words);
    assert(segments.push(segment).drop_last() =~= segments);
    assert(method + Seq::<char>::empty() =~= method);
}

/// A service that may not listen stays as it was, and so does one whose socket
/// could not be prepared; one that could not be served has stopped.
pub proof fn refused_listening_changes_nothing(
    before: RestServer,
    config: RestConfig,
    attempt: Attempt,
    reason: String,
    refused: RestServer,
    no: Result<RestState, String>,
    same: RestServer,
    unready: Result<RestState, String>,
    stopped: RestServer,
    unserved: Result<RestState, String>,
)
    requires
        RestServer::enabled(before, config, BindScope::NotAnAddress, attempt, refused, no),
        RestServer::enabled(
            before,
            config,
            BindScope::Loopback,
            Attempt::Unprepared(reason),
            same,
            unready,
        ),
        RestServer::enabled(
            before,
            config,
            BindScope::Loopback,
            Attempt::Unserved(reason),
            stopped,
            unserved,
        ),
    ensures
        refused == before && (no matches Err(m) && m@ == "'"@ + config.bind@
            + "' is not an IP address"@),
        same == before && unready == Err::<RestState, String>(reason),
        !stopped.running && stopped.state == before.state && stopped.token == before.token,
        unserved == Err::<RestState, String>(reason),
{
}

} // verus!
