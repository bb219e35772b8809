//! What the daemon, its clients and its windows say to each other.
use vstd::prelude::*;
use vstd::string::*;

use crate::config::PortConfig;
use crate::engine::EngineError;
use crate::gui_ipc;
use crate::gui_ipc::{GuiCommand, GuiResponse, GuiStep};
use crate::hex;
use crate::ipc;
use crate::ipc::{FrameStep, IpcClient, IpcError, ServeStep};
use crate::modem::FileTransferProtocol;
use crate::paths::Environment;
use crate::protocol::{PortSettings, RequestPayload, ResponsePayload, RestState, RpcRequest, RpcResponse};
use crate::reader::ConnectionState;
use crate::standalone;
use crate::standalone::{AttachStep, Attaching, PortAction, RestRequest};
use crate::storage::BufferStats;
use crate::text;

verus! {

// ---------------------------------------------------------------------------
// Frames
// ---------------------------------------------------------------------------

/// A frame ends at the first line feed; the limit counts what stands before it,
/// and what is longer is refused.
pub proof fn a_frame_ends_at_a_line_feed(
    pending: Seq<u8>,
    front: Seq<u8>,
    rest: Seq<u8>,
    max_bytes: usize,
    r: FrameStep,
    left: Seq<u8>,
)
    requires
        forall|i: int| 0 <= i < front.len() ==> #[trigger] front[i] != 10,
        ipc::chunk_step(pending, front.push(10) + rest, max_bytes, r, left),
    ensures
        left.len() == 0,
        pending.len() + front.len() <= max_bytes ==> (r matches FrameStep::Frame { frame, consumed }
            && frame@ == pending + front && consumed == front.len() + 1),
        pending.len() + front.len() > max_bytes ==> (r matches FrameStep::TooLong(m) && m@
            == "frame exceeds "@ + text::dec_nat(max_bytes as nat) + " bytes"@),
{
    first_line_feed(front, rest);
    let chunk = front.push(10) + rest;
    assert(chunk.take(front.len() as int) =~= front);
}

/// Without a line feed a frame goes on, as long as it is not too long.
pub proof fn a_frame_goes_on(
    pending: Seq<u8>,
    chunk: Seq<u8>,
    max_bytes: usize,
    r: FrameStep,
    left: Seq<u8>,
)
    requires
        forall|i: int| 0 <= i < chunk.len() ==> #[trigger] chunk[i] != 10,
        ipc::chunk_step(pending, chunk, max_bytes, r, left),
    ensures
        pending.len() + chunk.len() <= max_bytes ==> r is More && left == pending + chunk,
        pending.len() + chunk.len() > max_bytes ==> r is TooLong && left.len() == 0,
        ipc::MAX_FRAME_BYTES == 8 * 1024 * 1024,
{
    no_line_feed(chunk);
}

/// The first line feed is where it was put.
proof fn first_line_feed(front: Seq<u8>, rest: Seq<u8>)
    requires
        forall|i: int| 0 <= i < front.len() ==> #[trigger] front[i] != 10,
    ensures
        ipc::newline_at(front.push(10) + rest) == Some(front.len() as int),
    decreases front.len(),
{
    let chunk = front.push(10) + rest;
    if front.len() > 0 {
        let shorter = front.skip(1);
        assert(chunk[0] == front[0]);
        assert(chunk.skip(1) =~= shorter.push(10) + rest);
        assert forall|i: int| 0 <= i < shorter.len() implies #[trigger] shorter[i] != 10 by {
            assert(shorter[i] == front[i + 1]);
        }
        first_line_feed(shorter, rest);
    }
}

/// Where no line feed is, none is found.
proof fn no_line_feed(chunk: Seq<u8>)
    requires
        forall|i: int| 0 <= i < chunk.len() ==> #[trigger] chunk[i] != 10,
    ensures
        ipc::newline_at(chunk) is None,
    decreases chunk.len(),
{
    if chunk.len() > 0 {
        let shorter = chunk.skip(1);
        assert forall|i: int| 0 <= i < shorter.len() implies #[trigger] shorter[i] != 10 by {
            assert(shorter[i] == chunk[i + 1]);
        }
        no_line_feed(shorter);
    }
}

/// A frame says its text without the blanks around it, and nothing where no more
/// is there.
pub proof fn frames_are_read(frame: &[u8], r: Option<String>)
    requires
        ipc::holds(frame, r),
    ensures
        ({
            let t = text::trimmed(text::utf8_lossy(frame@));
            &&& t.len() > 0 ==> (r matches Some(s) && s@ == t)
            &&& t.len() == 0 ==> r is None
        }),
{
}

// ---------------------------------------------------------------------------
// Requests and answers
// ---------------------------------------------------------------------------

/// A request is carried out as it is, and answered under its own number; only a
/// request to stop stops the daemon.
pub proof fn requests_are_served(
    id: u64,
    payload: RequestPayload,
    step: ServeStep,
    response: ResponsePayload,
    e: EngineError,
    good: RpcResponse,
    bad: RpcResponse,
)
    requires
        ipc::serves(Ok(RpcRequest { id, payload }), step),
        ipc::replies(id, Ok(response), good),
        ipc::replies(id, Err(e), bad),
    ensures
        step matches ServeStep::Execute { id: i, payload: p, stop } && i == id && p == payload && (
        stop <==> payload is Shutdown),
        good.id == id && good.result == Ok::<ResponsePayload, String>(response),
        bad.id == id && (bad.result matches Err(m) && m@ == e.message()),
{
}

/// What is no request is answered with what was wrong, under number zero.
pub proof fn nonsense_is_answered(e: String, step: ServeStep)
    requires
        ipc::serves(Err(e), step),
    ensures
        step matches ServeStep::Reply(response) && response.id == 0 && (
        response.result matches Err(m) && m@ == "invalid JSON-RPC request: "@ + e@),
{
}

/// What the daemon answered is handed on; what it refused is told in its words;
/// and a reply that is none is told as such.
pub proof fn answers_are_understood(
    id: u64,
    response: ResponsePayload,
    e: String,
    quoted: &str,
    good: Result<ResponsePayload, IpcError>,
    refused: Result<ResponsePayload, IpcError>,
    broken: Result<ResponsePayload, IpcError>,
    closed: Result<ResponsePayload, IpcError>,
)
    requires
        ipc::answers(Some(Ok(RpcResponse { id, result: Ok(response) })), quoted, good),
        ipc::answers(Some(Ok(RpcResponse { id, result: Err(e) })), quoted, refused),
        ipc::answers(Some(Err(e)), quoted, broken),
        ipc::answers(None, quoted, closed),
    ensures
        good == Ok::<ResponsePayload, IpcError>(response),
        refused matches Err(f) && f.message() == e@,
        broken matches Err(f) && f.message() == "malformed response from daemon: "@ + (e@
            + " (raw: "@ + quoted@ + ")"@),
        closed matches Err(f) && f.message() == "malformed response from daemon: "@
            + "daemon closed the connection"@,
{
}

/// The daemon lives where it answers a ping; it is waited for five seconds, and
/// asked thirty.
pub proof fn the_daemon_is_waited_for(
    reply: &Result<ResponsePayload, IpcError>,
    alive: bool,
    elapsed_ms: u64,
    on: bool,
    endpoint: String,
    client: IpcClient,
    late: IpcError,
    args: Vec<String>,
)
    requires
        ipc::shows_life(reply, alive),
        ipc::waits_on(elapsed_ms, on),
        IpcClient::is_new(endpoint, client),
        ipc::tells_late(late),
        client.starts_daemon(args),
    ensures
        alive <==> reply matches Ok(ResponsePayload::Pong),
        on <==> elapsed_ms < 5_000,
        client@.timeout_ms == 30_000 && client@.next_id == 1 && client@.endpoint == endpoint@
            && client@.config_path is None,
        late.message() == "could not start the daemon: "@ + (
        "the daemon did not become reachable within "@ + ipc::span_text(5_000)),
        text::texts(args@) == seq!["daemon"@, "--socket"@, endpoint@],
{
}

/// What is wrong between client and daemon is told.
pub proof fn faults_of_the_line_are_told(
    endpoint: String,
    source: String,
    ms: u64,
    e: &str,
    missing: IpcError,
    unstarted: IpcError,
)
    requires
        ipc::tells_missing(e, missing),
        ipc::tells_unstarted(e, unstarted),
    ensures
        (IpcError::Connect { endpoint, source }).message()
            == "cannot reach the devserial daemon on "@ + endpoint@ + ": "@ + source@,
        (IpcError::Io(source)).message() == "io error: "@ + source@,
        (IpcError::Timeout(ms)).message() == "the daemon did not answer within "@ + ipc::span_text(
            ms,
        ),
        (IpcError::Protocol(source)).message() == "malformed response from daemon: "@ + source@,
        (IpcError::Remote(source)).message() == source@,
        (IpcError::Spawn(source)).message() == "could not start the daemon: "@ + source@,
        (IpcError::Unsupported(source)).message()
            == "the daemon is not available on this platform: "@ + source@,
        missing.message() == "could not start the daemon: "@ + (
        "cannot locate the devserial binary: "@ + e@),
        unstarted.message() == "could not start the daemon: "@ + ("could not spawn the daemon: "@
            + e@),
{
}

/// A span is told in milliseconds below a second, and otherwise in seconds, with
/// a fraction where there is one.
pub proof fn spans_are_told(ms: u64)
    ensures
        ms == 0 ==> ipc::span_text(ms) == "0ns"@,
        0 < ms < 1000 ==> ipc::span_text(ms) == text::dec_nat(ms as nat) + "ms"@,
        ms >= 1000 && ms % 1000 == 0 ==> ipc::span_text(ms) == text::dec_nat((ms / 1000) as nat)
            + "s"@,
        ms >= 1000 && ms % 1000 > 0 && ms % 100 == 0 ==> ipc::span_text(ms) == text::dec_nat(
            (ms / 1000) as nat,
        ) + seq!['.', ('0' as int + ms % 1000 / 100) as char] + "s"@,
        ms >= 1000 && ms % 10 > 0 ==> ipc::span_text(ms) == text::dec_nat((ms / 1000) as nat) + seq![
            '.',
            ('0' as int + ms % 1000 / 100) as char,
            ('0' as int + ms / 10 % 10) as char,
            ('0' as int + ms % 10) as char,
        ] + "s"@,
{
    reveal_strlit(".");
    let f = (ms % 1000) as nat;
    assert(f / 100 == ms % 1000 / 100);
    assert((f / 10) % 10 == ms / 10 % 10);
    assert(f % 10 == ms % 10);
    assert(f % 100 == ms % 100);
    let whole = text::dec_nat((ms / 1000) as nat);
    if ms >= 1000 && ms % 1000 == 0 {
        assert(whole + ipc::fraction(f) + "s"@ =~= whole + "s"@);
    }
    if ms >= 1000 && f > 0 && ms % 100 == 0 {
        assert(ipc::fraction(f) =~= seq!['.', ('0' as int + ms % 1000 / 100) as char]);
    }
    if ms >= 1000 && ms % 10 > 0 {
        assert(ipc::fraction(f) =~= seq![
            '.',
            ('0' as int + ms % 1000 / 100) as char,
            ('0' as int + ms / 10 % 10) as char,
            ('0' as int + ms % 10) as char,
        ]);
    }
}

// ---------------------------------------------------------------------------
// Windows
// ---------------------------------------------------------------------------

/// A ping is answered with the open ports; every other command goes to the
/// windows; and what is none is refused with what was wrong.
pub proof fn windows_are_commanded(
    command: GuiCommand,
    e: String,
    ports: Vec<String>,
    step: GuiStep,
    nonsense: GuiStep,
    done: GuiResponse,
    gone: GuiResponse,
)
    requires
        gui_ipc::is_received(Ok(command), ports, step),
        gui_ipc::is_received(Err(e), ports, nonsense),
        gui_ipc::is_delivered(true, done),
        gui_ipc::is_delivered(false, gone),
    ensures
        command is Ping ==> step == GuiStep::Answer(GuiResponse::Pong { open_ports: ports }),
        !(command is Ping) ==> step == GuiStep::Deliver(command),
        nonsense matches GuiStep::Answer(GuiResponse::Error(m)) && m@ == "malformed command: "@
            + e@,
        done is Accepted,
        gone matches GuiResponse::Error(m) && m@ == "GUI is shutting down"@,
{
}

/// A window has taken a command where it did not refuse it; where none answers,
/// none is there.
pub proof fn windows_acknowledge(
    e: String,
    ports: Vec<String>,
    none: Result<bool, String>,
    taken: Result<bool, String>,
    alive: Result<bool, String>,
    refused: Result<bool, String>,
    broken: Result<bool, String>,
)
    requires
        gui_ipc::is_acknowledged(None, none),
        gui_ipc::is_acknowledged(Some(Ok(GuiResponse::Accepted)), taken),
        gui_ipc::is_acknowledged(Some(Ok(GuiResponse::Pong { open_ports: ports })), alive),
        gui_ipc::is_acknowledged(Some(Ok(GuiResponse::Error(e))), refused),
        gui_ipc::is_acknowledged(Some(Err(e)), broken),
    ensures
        none == Ok::<bool, String>(false),
        taken == Ok::<bool, String>(true) && alive == Ok::<bool, String>(true),
        refused == Err::<bool, String>(e),
        broken matches Err(m) && m@ == "malformed GUI response: "@ + e@,
{
}

// ---------------------------------------------------------------------------
// A window of its own
// ---------------------------------------------------------------------------

/// What a window does to its port it asks of the daemon, for that port and as it
/// was done.
pub proof fn actions_are_asked_for(
    port: &str,
    duration_ms: Option<u64>,
    dtr: Option<bool>,
    rts: Option<bool>,
    name: String,
    pulse: RequestPayload,
    signal: RequestPayload,
    run: RequestPayload,
)
    requires
        (PortAction::Break { duration_ms }).asks(port, pulse),
        (PortAction::Signal { dtr, rts }).asks(port, signal),
        (PortAction::Macro { name }).asks(port, run),
    ensures
        pulse matches RequestPayload::SendBreak { port: p, duration_ms: d } && p@ == port@ && d
            == duration_ms,
        signal matches RequestPayload::SetSignal { port: p, dtr: d, rts: r } && p@ == port@ && d
            == dtr && r == rts,
        run matches RequestPayload::ExecuteMacro { port: p, macro_name } && p@ == port@
            && macro_name@ == name@,
{
}

/// A port is opened with all of its settings and closed by its name.
pub proof fn ports_are_toggled(
    port: &str,
    config: &PortConfig,
    open: RequestPayload,
    close: RequestPayload,
    again: RequestPayload,
)
    requires
        standalone::asks_toggle(port, true, config, open),
        standalone::asks_toggle(port, false, config, close),
        standalone::asks_settings(port, config, again),
    ensures
        open matches RequestPayload::OpenPort { name, settings } && name@ == port@
            && settings.baudrate == Some(config.baudrate) && settings.data_bits == Some(
            config.data_bits,
        ) && settings.parity == Some(config.parity) && settings.stop_bits == Some(config.stop_bits)
            && settings.flow_control == Some(config.flow_control),
        close matches RequestPayload::ClosePort { name } && name@ == port@,
        again matches RequestPayload::ReconfigurePort { name, settings } && name@ == port@
            && settings.baudrate == Some(config.baudrate) && settings.data_bits == Some(
            config.data_bits,
        ) && settings.parity == Some(config.parity) && settings.stop_bits == Some(config.stop_bits)
            && settings.flow_control == Some(config.flow_control),
{
}

/// A file is sent from its path or received into its directory, by the protocol
/// that was chosen, and told with its size and place.
pub proof fn files_are_transferred(
    port: &str,
    path: &str,
    protocol: FileTransferProtocol,
    send: RequestPayload,
    receive: RequestPayload,
    n: u64,
    file_name: String,
    place: String,
    told: Result<String, String>,
    bare: Result<String, String>,
    odd: Result<String, String>,
)
    requires
        standalone::asks_transfer(port, true, path, protocol, send),
        standalone::asks_transfer(port, false, path, protocol, receive),
        standalone::tells_transfer(
            ResponsePayload::TransferSuccess {
                bytes_transferred: n,
                file_name,
                protocol,
                path: Some(place),
            },
            told,
        ),
        standalone::tells_transfer(
            ResponsePayload::TransferSuccess {
                bytes_transferred: n,
                file_name,
                protocol,
                path: None,
            },
            bare,
        ),
        standalone::tells_transfer(ResponsePayload::Pong, odd),
    ensures
        send matches RequestPayload::SendFile { port: p, file_path, protocol: t } && p@ == port@
            && file_path@ == path@ && t == protocol,
        receive matches RequestPayload::ReceiveFile { port: p, output_dir, protocol: t } && p@
            == port@ && output_dir@ == path@ && t == protocol,
        told matches Ok(m) && m@ == text::dec_nat(n as nat) + " bytes, "@ + place@,
        bare matches Ok(m) && m@ == text::dec_nat(n as nat) + " bytes, "@ + file_name@,
        odd matches Err(m) && m@ == "unexpected answer from the daemon"@,
{
}

/// Bytes are written as text where they are text, and otherwise in hex.
pub proof fn bytes_are_forwarded(
    port: &str,
    buf: &[u8],
    r: RequestPayload,
    n: usize,
    len: usize,
    e: IpcError,
    good: Result<usize, String>,
    bad: Result<usize, String>,
    odd: Result<usize, String>,
)
    requires
        standalone::asks_write(port, buf, r),
        standalone::tells_written(Ok(ResponsePayload::Pong), len, odd),
        standalone::tells_written(Ok(ResponsePayload::WriteSuccess { bytes_written: n }), len, good),
        standalone::tells_written(Err(e), len, bad),
    ensures
        r matches RequestPayload::WriteData { port: p, data, is_hex } && p@ == port@ && (is_hex
            <==> !vstd::utf8::valid_utf8(buf@)) && (!is_hex ==> vstd::utf8::encode_utf8(data@)
            == buf@) && (is_hex ==> hex::decodes_to(data@, buf@)),
        good == Ok::<usize, String>(len),
        bad matches Err(m) && m@ == e.message(),
        odd matches Err(m) && m@ == "unexpected answer from the daemon"@,
{
    if vstd::utf8::valid_utf8(buf@) {
        vstd::utf8::decode_utf8_encode_utf8(buf@);
    } else {
        hex::encoded_bytes_decode_to_themselves(buf@);
    }
}

/// The web service is asked about, started where it was asked to be, and stopped.
pub proof fn the_web_service_is_asked(
    bind: Option<String>,
    port: Option<u16>,
    status: RequestPayload,
    enable: RequestPayload,
    disable: RequestPayload,
    state: RestState,
    told: Result<RestState, String>,
    odd: Result<RestState, String>,
)
    requires
        (RestRequest::Status).asks(status),
        (RestRequest::Enable { bind, port }).asks(enable),
        (RestRequest::Disable).asks(disable),
        standalone::tells_rest(ResponsePayload::RestState(state), told),
        standalone::tells_rest(ResponsePayload::Pong, odd),
    ensures
        status is RestStatus,
        enable matches RequestPayload::RestEnable { bind: b, port: p, token } && b == bind && p
            == port && token is None,
        disable is RestDisable,
        told == Ok::<RestState, String>(state),
        odd matches Err(m) && m@ == "unexpected answer from the daemon"@,
{
}

/// A window attaches to its port: one that the daemon holds is left as it is, any
/// other is opened with the settings of the window, and the state is read.
pub proof fn windows_attach(
    port: String,
    settings: PortSettings,
    e: IpcError,
    name: String,
    state: ConnectionState,
    stats: BufferStats,
    opened: ResponsePayload,
    reached: AttachStep,
    lost: AttachStep,
    held: AttachStep,
    free: AttachStep,
    open: AttachStep,
    shut: AttachStep,
    done: AttachStep,
)
    requires
        standalone::reaches(port, settings, Ok(()), reached),
        standalone::reaches(port, settings, Err(e), lost),
        standalone::attach_next(
            Attaching::Status { port, settings },
            Ok(ResponsePayload::Status { name, state, stats }),
            held,
        ),
        standalone::attach_next(Attaching::Status { port, settings }, Err(e), free),
        standalone::attach_next(Attaching::Open { port }, Ok(opened), open),
        standalone::attach_next(Attaching::Open { port }, Err(e), shut),
        standalone::attach_next(
            Attaching::Opened { port },
            Ok(ResponsePayload::Status { name, state, stats }),
            done,
        ),
    ensures
        reached matches AttachStep::Ask(RequestPayload::GetStatus { port: p }, at) && p@ == port@
            && (at matches Attaching::Status { port: q, settings: s } && q@ == port@ && s
            == settings),
        lost matches AttachStep::Failed(m) && m@ == "could not reach the daemon: "@ + e.message(),
        held == AttachStep::Attached(state),
        free matches AttachStep::Ask(RequestPayload::OpenPort { name: n, settings: s }, at) && n@
            == port@ && s == settings && (at matches Attaching::Open { port: q } && q@ == port@),
        open matches AttachStep::Ask(RequestPayload::GetStatus { port: p }, at) && p@ == port@ && (
        at matches Attaching::Opened { port: q } && q@ == port@),
        shut matches AttachStep::Failed(m) && m@ == "failed to open port '"@ + port@ + "': "@
            + e.message(),
        done == AttachStep::Attached(state),
{
}

/// A window shows the state that the daemon gave last, and says when it changed.
pub proof fn links_are_followed(
    current: ConnectionState,
    name: String,
    state: ConnectionState,
    stats: BufferStats,
    e: IpcError,
    r: (ConnectionState, bool),
    lost: (ConnectionState, bool),
)
    requires
        standalone::follows_link(
            current,
            &Ok(ResponsePayload::Status { name, state, stats }),
            r,
        ),
        standalone::follows_link(current, &Err(e), lost),
    ensures
        r.0 == state && (r.1 <==> state != current),
        lost.0 == current && !lost.1,
{
}

/// The lines lie where the configuration says, and otherwise in the data
/// directory; what goes wrong there is told.
pub proof fn windows_find_their_lines(
    configured: String,
    env: &Environment,
    said: String,
    found: String,
    port: &str,
    taken: String,
    e: &str,
    dir: String,
    capture: String,
)
    requires
        standalone::is_data_dir(Some(configured), env, said),
        standalone::is_data_dir(None, env, found),
        standalone::tells_handed_over(port, taken),
        standalone::tells_no_data_dir(e, dir),
        standalone::tells_no_capture(e, capture),
    ensures
        said@ == configured@,
        found@ == env.spec_data_dir(),
        taken@ == "Opened "@ + port@ + " in the running devserial window.\n"@,
        dir@ == "failed to create data directory: "@ + e@,
        capture@ == "failed to open capture database: "@ + e@,
{
}

} // verus!
