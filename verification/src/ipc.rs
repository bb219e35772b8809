//! Newline-delimited JSON-RPC over the local transport: framing, and what client
//! and daemon make of a frame.
use vstd::prelude::*;
use vstd::string::*;

use crate::engine::EngineError;
use crate::paths;
use crate::paths::{pid_path, Environment};
use crate::protocol::{RequestPayload, ResponsePayload, RpcRequest, RpcResponse};
use crate::text;
use crate::text::{concat2, concat3, decimal, from_utf8_lossy, trim};

verus! {

/// Largest request line the daemon accepts, to bound memory per connection.
pub const MAX_FRAME_BYTES: usize = 8_388_608;

/// Default time a client waits for a response, in milliseconds.
pub const DEFAULT_REQUEST_TIMEOUT_MS: u64 = 30_000;

/// How long an auto-spawned daemon may take to become reachable, in
/// milliseconds.
pub const DAEMON_START_TIMEOUT_MS: u64 = 5_000;

/// How long is waited between two attempts to reach a daemon that was started,
/// in milliseconds.
pub const DAEMON_POLL_MS: u64 = 25;

/// Default location for the devserial daemon IPC endpoint.
pub fn default_socket_path(env: &Environment) -> (r: String)
    ensures
        r@ == env.spec_socket(),
{
    paths::default_socket_path(env)
}

/// Default location for the devserial daemon PID file.
pub fn default_pid_path(env: &Environment) -> (r: String)
    ensures
        r@ == env.spec_pid_path(env.spec_socket()),
{
    pid_path(paths::default_socket_path(env).as_str(), env)
}

/// Default location for the devserial GUI multiplexer endpoint.
pub fn default_gui_socket_path(env: &Environment) -> (r: String)
    ensures
        r@ == paths::gui_endpoint(env.platform, env.spec_socket()),
{
    paths::default_gui_socket_path(env)
}

// ---------------------------------------------------------------------------
// Errors
// ---------------------------------------------------------------------------

/// The last digits of a fraction, without zeros at the end.
pub open spec fn fraction(ms: nat) -> Seq<char> {
    if ms == 0 {
        Seq::empty()
    } else {
        let d = seq![
            text::digit_char(ms / 100),
            text::digit_char((ms / 10) % 10),
            text::digit_char(ms % 10),
        ];
        "."@ + (if ms % 100 == 0 {
            d.take(1)
        } else if ms % 10 == 0 {
            d.take(2)
        } else {
            d
        })
    }
}

/// A span of time in words.
pub open spec fn span_text(ms: u64) -> Seq<char> {
    if ms == 0 {
        "0ns"@
    } else if ms < 1000 {
        text::dec_nat(ms as nat) + "ms"@
    } else {
        text::dec_nat((ms / 1000) as nat) + fraction((ms % 1000) as nat) + "s"@
    }
}

fn push_digit(out: &mut String, d: u64)
    requires
        d < 10,
    ensures
        final(out)@ == old(out)@.push(text::digit_char(d as nat)),
{
    out.push((48u8 + d as u8) as char);
}

/// A span of time, in seconds where it is one or more.
pub fn describe_span(ms: u64) -> (r: String)
    ensures
        r@ == span_text(ms),
{
    if ms == 0 {
        return "0ns".to_owned();
    }
    if ms < 1000 {
        return concat2(decimal(ms).as_str(), "ms");
    }
    let mut out = decimal(ms / 1000);
    let ghost whole = out@;
    let rest: u64 = ms % 1000;
    if rest != 0 {
        out.append(".");
        push_digit(&mut out, rest / 100);
        if rest % 100 != 0 {
            push_digit(&mut out, (rest / 10) % 10);
            if rest % 10 != 0 {
                push_digit(&mut out, rest % 10);
            }
        }
        assert(out@ =~= whole + fraction(rest as nat));
    } else {
        assert(out@ =~= whole + fraction(rest as nat));
    }
    out.append("s");
    out
}

/// Errors surfaced to clients of the daemon.
#[derive(Debug, PartialEq, Eq)]
pub enum IpcError {
    Connect { endpoint: String, source: String },
    Io(String),
    /// The time that was waited, in milliseconds.
    Timeout(u64),
    Protocol(String),
    Remote(String),
    Spawn(String),
    Unsupported(String),
}

impl IpcError {
    /// The message of the error.
    pub open spec fn message(self) -> Seq<char> {
        match self {
            IpcError::Connect { endpoint, source } => "cannot reach the devserial daemon on "@
                + endpoint@ + ": "@ + source@,
            IpcError::Io(e) => "io error: "@ + e@,
            IpcError::Timeout(ms) => "the daemon did not answer within "@ + span_text(ms),
            IpcError::Protocol(e) => "malformed response from daemon: "@ + e@,
            IpcError::Remote(e) => e@,
            IpcError::Spawn(e) => "could not start the daemon: "@ + e@,
            IpcError::Unsupported(e) => "the daemon is not available on this platform: "@ + e@,
        }
    }

    /// The message of the error.
    pub fn to_string(&self) -> (r: String)
        ensures
            r@ == self.message(),
    {
        match self {
            IpcError::Connect { endpoint, source } => {
                let mut m = concat3(
                    "cannot reach the devserial daemon on ",
                    endpoint.as_str(),
                    ": ",
                );
                m.append(source.as_str());
                m
            },
            IpcError::Io(e) => concat2("io error: ", e.as_str()),
            IpcError::Timeout(ms) => concat2(
                "the daemon did not answer within ",
                describe_span(*ms).as_str(),
            ),
            IpcError::Protocol(e) => concat2("malformed response from daemon: ", e.as_str()),
            IpcError::Remote(e) => e.clone(),
            IpcError::Spawn(e) => concat2("could not start the daemon: ", e.as_str()),
            IpcError::Unsupported(e) => concat2(
                "the daemon is not available on this platform: ",
                e.as_str(),
            ),
        }
    }
}

// ---------------------------------------------------------------------------
// Frames
// ---------------------------------------------------------------------------

/// The byte that ends a frame.
pub const NEWLINE: u8 = 10;

/// A frame that is being read.
#[derive(Debug)]
pub struct FrameReader {
    /// What was read of the frame so far.
    pub pending: Vec<u8>,
}

/// What came of a chunk.
#[derive(Debug, PartialEq, Eq)]
pub enum FrameStep {
    /// The chunk is used up and the frame goes on.
    More,
    /// A frame is complete; so many bytes of the chunk belong to it.
    Frame { frame: Vec<u8>, consumed: usize },
    /// The frame is longer than accepted, for this reason.
    TooLong(String),
}

/// The position of the first newline.
pub open spec fn newline_at(bytes: Seq<u8>) -> Option<int>
    decreases bytes.len(),
{
    if bytes.len() == 0 {
        None
    } else if bytes[0] == NEWLINE {
        Some(0)
    } else {
        match newline_at(bytes.skip(1)) {
            Some(i) => Some(i + 1),
            None => None,
        }
    }
}

fn find_newline(bytes: &[u8]) -> (r: Option<usize>)
    ensures
        match r {
            Some(i) => newline_at(bytes@) == Some(i as int) && i < bytes@.len(),
            None => newline_at(bytes@) is None,
        },
{
    let mut i: usize = 0;
    assert(bytes@.skip(0) =~= bytes@);
    while i < bytes.len()
        invariant
            i <= bytes.len(),
            newline_at(bytes@) == (match newline_at(bytes@.skip(i as int)) {
                Some(k) => Some(k + i),
                None => None,
            }),
        decreases bytes.len() - i,
    {
        assert(bytes@.skip(i as int).skip(1) =~= bytes@.skip(i + 1));
        if bytes[i] == NEWLINE {
            return Some(i);
        }
        i = i + 1;
    }
    None
}

/// Whether a frame is refused because it is longer than the limit.
pub open spec fn refuses_length(r: FrameStep, max_bytes: usize) -> bool {
    r matches FrameStep::TooLong(m) && m@ == "frame exceeds "@ + text::dec_nat(max_bytes as nat)
        + " bytes"@
}

/// What a chunk of input means for a frame of which some bytes are pending. What
/// belongs to an oversized frame is not kept.
pub open spec fn chunk_step(
    pending: Seq<u8>,
    chunk: Seq<u8>,
    max_bytes: usize,
    r: FrameStep,
    left: Seq<u8>,
) -> bool {
    match newline_at(chunk) {
        Some(i) => if pending.len() + i > max_bytes {
            refuses_length(r, max_bytes) && left.len() == 0
        } else {
            &&& r matches FrameStep::Frame { frame, consumed }
            &&& frame@ == pending + chunk.take(i)
            &&& consumed == i + 1
            &&& left.len() == 0
        },
        None => if pending.len() + chunk.len() > max_bytes {
            refuses_length(r, max_bytes) && left.len() == 0
        } else {
            r is More && left == pending + chunk
        },
    }
}

fn oversized(max_bytes: usize) -> (r: FrameStep)
    ensures
        refuses_length(r, max_bytes),
{
    FrameStep::TooLong(concat3("frame exceeds ", decimal(max_bytes as u64).as_str(), " bytes"))
}

impl FrameReader {
    /// Nothing read yet.
    pub fn new() -> (r: FrameReader)
        ensures
            r.pending@.len() == 0,
    {
        FrameReader { pending: Vec::new() }
    }

    /// Take a chunk of input, refusing an oversized frame.
    pub fn feed(&mut self, chunk: &[u8], max_bytes: usize) -> (r: FrameStep)
        requires
            old(self).pending@.len() + chunk@.len() <= usize::MAX,
        ensures
            chunk_step(old(self).pending@, chunk@, max_bytes, r, final(self).pending@),
    {
        let mut frame: Vec<u8> = Vec::new();
        std::mem::swap(&mut frame, &mut self.pending);
        let ghost before = frame@;
        match find_newline(chunk) {
            Some(i) => if frame.len() + i > max_bytes {
                oversized(max_bytes)
            } else {
                let part = vstd::slice::slice_subrange(chunk, 0, i);
                frame.extend_from_slice(part);
                assert(frame@ =~= before + chunk@.take(i as int));
                FrameStep::Frame { frame, consumed: i + 1 }
            },
            None => if frame.len() + chunk.len() > max_bytes {
                oversized(max_bytes)
            } else {
                frame.extend_from_slice(chunk);
                assert(frame@ =~= before + chunk@);
                self.pending = frame;
                FrameStep::More
            },
        }
    }

    /// The input is at its end: what is pending is a frame too, where there is
    /// anything.
    pub fn end(&mut self) -> (r: Option<Vec<u8>>)
        ensures
            final(self).pending@.len() == 0,
            match r {
                Some(f) => f@ == old(self).pending@ && f@.len() > 0,
                None => old(self).pending@.len() == 0,
            },
    {
        let mut frame: Vec<u8> = Vec::new();
        std::mem::swap(&mut frame, &mut self.pending);
        if frame.len() == 0 {
            None
        } else {
            Some(frame)
        }
    }
}

proof fn lemma_newline_add(a: Seq<u8>, b: Seq<u8>)
    requires
        newline_at(a) is None,
    ensures
        newline_at(a + b) == (match newline_at(b) {
            Some(i) => Some(i + a.len()),
            None => None,
        }),
    decreases a.len(),
{
    if a.len() == 0 {
        assert(a + b =~= b);
    } else {
        assert((a + b).skip(1) =~= a.skip(1) + b);
        lemma_newline_add(a.skip(1), b);
    }
}

proof fn lemma_newline_range(b: Seq<u8>)
    ensures
        newline_at(b) matches Some(i) ==> 0 <= i < b.len() && b[i] == NEWLINE,
        newline_at(b) is None ==> !b.contains(NEWLINE),
    decreases b.len(),
{
    if b.len() > 0 && b[0] != NEWLINE {
        lemma_newline_range(b.skip(1));
        if b.contains(NEWLINE) {
            let k = choose|k: int| 0 <= k < b.len() && b[k] == NEWLINE;
            assert(b.skip(1)[k - 1] == NEWLINE);
        }
    }
}

/// What came of a chunk, seen from a place so many bytes further ahead.
pub open spec fn from_earlier(r: FrameStep, bytes: nat) -> FrameStep {
    match r {
        FrameStep::Frame { frame, consumed } => FrameStep::Frame {
            frame,
            consumed: (bytes + consumed) as usize,
        },
        _ => r,
    }
}

/// How the input is cut into chunks changes nothing: a part without a newline
/// may come first. What comes of the rest, a frame within the limit or the
/// refusal of a longer one, is what comes of both at once; and where the first
/// part alone is too long, both are.
pub proof fn chunks_make_no_difference(
    pending: Seq<u8>,
    a: Seq<u8>,
    b: Seq<u8>,
    max_bytes: usize,
    first: FrameStep,
    held: Seq<u8>,
    r: FrameStep,
    left: Seq<u8>,
)
    requires
        newline_at(a) is None,
        a.len() + b.len() <= usize::MAX,
        chunk_step(pending, a, max_bytes, first, held),
        first is More ==> chunk_step(held, b, max_bytes, r, left),
    ensures
        if first is More {
            chunk_step(pending, a + b, max_bytes, from_earlier(r, a.len()), left)
        } else {
            chunk_step(pending, a + b, max_bytes, first, held)
        },
{
    lemma_newline_add(a, b);
    lemma_newline_range(b);
    assert(pending + (a + b) =~= (pending + a) + b);
    if let Some(i) = newline_at(b) {
        assert((a + b).take(i + a.len()) =~= a + b.take(i));
        assert(pending + (a + b).take(i + a.len()) =~= (pending + a) + b.take(i));
    }
}

/// No frame is longer than the limit: neither one that is handed out behind its
/// newline, nor what is pending when the input ends.
pub proof fn no_frame_exceeds_the_limit(
    pending: Seq<u8>,
    chunk: Seq<u8>,
    max_bytes: usize,
    r: FrameStep,
    left: Seq<u8>,
)
    requires
        pending.len() <= max_bytes,
        chunk_step(pending, chunk, max_bytes, r, left),
    ensures
        r matches FrameStep::Frame { frame, .. } ==> frame@.len() <= max_bytes,
        left.len() <= max_bytes,
{
    lemma_newline_range(chunk);
}

/// A frame that was written is read back, whatever follows it: the text of the
/// frame without a newline, then the newline. One that is longer than the limit
/// is refused.
pub proof fn written_frame_is_read_back(
    frame: Seq<u8>,
    rest: Seq<u8>,
    max_bytes: usize,
    r: FrameStep,
    left: Seq<u8>,
)
    requires
        !frame.contains(NEWLINE),
        chunk_step(Seq::empty(), frame.push(NEWLINE) + rest, max_bytes, r, left),
    ensures
        if frame.len() <= max_bytes {
            r matches FrameStep::Frame { frame: f, consumed } && f@ == frame && consumed
                == frame.len() + 1
        } else {
            refuses_length(r, max_bytes)
        },
        left.len() == 0,
{
    lemma_newline_range(frame);
    assert(newline_at(frame) is None) by {
        if let Some(i) = newline_at(frame) {
            assert(frame[i] == NEWLINE);
            assert(frame.contains(NEWLINE));
        }
    }
    let tail = seq![NEWLINE] + rest;
    assert(frame.push(NEWLINE) + rest =~= frame + tail);
    lemma_newline_add(frame, tail);
    assert(newline_at(tail) == Some(0int));
    assert((frame + tail).take(frame.len() as int) =~= frame);
    assert(Seq::<u8>::empty() + frame =~= frame);
}

// ---------------------------------------------------------------------------
// The daemon
// ---------------------------------------------------------------------------

/// What a frame says.
pub open spec fn holds(frame: &[u8], r: Option<String>) -> bool {
    ({
        let t = text::trimmed(text::utf8_lossy(frame@));
        match r {
            Some(s) => t.len() > 0 && s@ == t,
            None => t.len() == 0,
        }
    })
}

/// The text of a frame, where it holds any.
pub fn frame_text(frame: &[u8]) -> (r: Option<String>)
    ensures
        holds(frame, r),
{
    let t = trim(from_utf8_lossy(frame).as_str());
    if t.as_str().is_empty() {
        None
    } else {
        Some(t)
    }
}

/// What the daemon does with a request.
#[derive(Debug)]
pub enum ServeStep {
    /// Answer with this.
    Reply(RpcResponse),
    /// Have the engine execute it, answer with `reply`, and stop where it asks
    /// for that.
    Execute { id: u64, payload: RequestPayload, stop: bool },
}

/// What is done with a request.
pub open spec fn serves(parsed: Result<RpcRequest, String>, r: ServeStep) -> bool {
    match parsed {
        Ok(request) => r == (ServeStep::Execute {
            id: request.id,
            payload: request.payload,
            stop: request.payload is Shutdown,
        }),
        Err(e) => {
            &&& r matches ServeStep::Reply(response)
            &&& response.id == 0
            &&& response.result matches Err(m)
            &&& m@ == "invalid JSON-RPC request: "@ + e@
        },
    }
}

/// What the daemon does with the text of a frame, given what it was found to be.
pub fn serve(parsed: Result<RpcRequest, String>) -> (r: ServeStep)
    ensures
        serves(parsed, r),
{
    match parsed {
        Ok(request) => {
            let stop = match &request.payload {
                RequestPayload::Shutdown => true,
                _ => false,
            };
            ServeStep::Execute { id: request.id, payload: request.payload, stop }
        },
        Err(e) => ServeStep::Reply(
            RpcResponse {
                id: 0,
                result: Err(concat2("invalid JSON-RPC request: ", e.as_str())),
            },
        ),
    }
}

/// What a request is answered.
pub open spec fn replies(
    id: u64,
    result: Result<ResponsePayload, EngineError>,
    r: RpcResponse,
) -> bool {
    &&& r.id == id
    &&& match (result, r.result) {
        (Ok(p), Ok(q)) => p == q,
        (Err(e), Err(m)) => m@ == e.message(),
        _ => false,
    }
}

/// The answer to a request, under the id of the request.
pub fn reply(id: u64, result: Result<ResponsePayload, EngineError>) -> (r: RpcResponse)
    ensures
        replies(id, result, r),
{
    RpcResponse {
        id,
        result: match result {
            Ok(p) => Ok(p),
            Err(e) => Err(e.to_string()),
        },
    }
}

// ---------------------------------------------------------------------------
// The client
// ---------------------------------------------------------------------------

/// IPC client to communicate with a running devserial daemon.
#[derive(Debug)]
pub struct IpcClient {
    endpoint: String,
    next_id: u64,
    timeout_ms: u64,
    config_path: Option<String>,
}

/// An IPC client, as a value of the model.
pub struct ClientView {
    pub endpoint: Seq<char>,
    /// The id of the next request.
    pub next_id: u64,
    pub timeout_ms: u64,
    /// The configuration file that is passed on to a daemon.
    pub config_path: Option<String>,
}

impl View for IpcClient {
    type V = ClientView;

    closed spec fn view(&self) -> ClientView {
        ClientView {
            endpoint: self.endpoint@,
            next_id: self.next_id,
            timeout_ms: self.timeout_ms,
            config_path: self.config_path,
        }
    }
}

impl IpcClient {
    /// A client that has asked nothing.
    pub open spec fn is_new(endpoint: String, r: IpcClient) -> bool {
        r@ == (ClientView {
            endpoint: endpoint@,
            next_id: 1,
            timeout_ms: DEFAULT_REQUEST_TIMEOUT_MS,
            config_path: None,
        })
    }

    /// Create a new IPC client for the given endpoint.
    pub fn new(endpoint: String) -> (r: IpcClient)
        ensures
            Self::is_new(endpoint, r),
    {
        IpcClient { endpoint, next_id: 1, timeout_ms: DEFAULT_REQUEST_TIMEOUT_MS, config_path: None }
    }

    /// Set the response timeout, in milliseconds.
    pub fn with_timeout(self, timeout_ms: u64) -> (r: IpcClient)
        ensures
            r@ == (ClientView { timeout_ms, ..self@ }),
    {
        IpcClient {
            endpoint: self.endpoint,
            next_id: self.next_id,
            timeout_ms,
            config_path: self.config_path,
        }
    }

    /// Pass a configuration file on to an auto-spawned daemon.
    pub fn with_config_path(self, path: Option<String>) -> (r: IpcClient)
        ensures
            r@ == (ClientView { config_path: path, ..self@ }),
    {
        IpcClient {
            endpoint: self.endpoint,
            next_id: self.next_id,
            timeout_ms: self.timeout_ms,
            config_path: path,
        }
    }

    /// The endpoint this client talks to.
    pub fn endpoint(&self) -> (r: &str)
        ensures
            r@ == self@.endpoint,
    {
        self.endpoint.as_str()
    }

    /// The time this client waits for a response, in milliseconds.
    pub fn timeout_ms(&self) -> (r: u64)
        ensures
            r == self@.timeout_ms,
    {
        self.timeout_ms
    }

    /// The configuration file that is passed on to a daemon.
    pub fn config_path(&self) -> (r: &Option<String>)
        ensures
            *r == self@.config_path,
    {
        &self.config_path
    }

    /// The request for a payload, with an id of its own.
    pub fn request(&mut self, payload: RequestPayload) -> (r: RpcRequest)
        ensures
            r == (RpcRequest { id: old(self)@.next_id, payload }),
            final(self)@ == (ClientView {
                next_id: if old(self)@.next_id == u64::MAX {
                    0
                } else {
                    (old(self)@.next_id + 1) as u64
                },
                ..old(self)@
            }),
    {
        let id = self.next_id;
        self.next_id = if id == u64::MAX {
            0
        } else {
            id + 1
        };
        RpcRequest { id, payload }
    }

    /// What starts the daemon.
    pub open spec fn starts_daemon(self, r: Vec<String>) -> bool {
        text::texts(r@) == seq!["daemon"@, "--socket"@, self@.endpoint]
    }

    /// The arguments that a daemon is started with.
    pub fn daemon_args(&self) -> (r: Vec<String>)
        ensures
            self.starts_daemon(r),
    {
        let mut args: Vec<String> = Vec::new();
        args.push("daemon".to_owned());
        args.push("--socket".to_owned());
        args.push(self.endpoint.clone());
        assert(text::texts(args@) =~= seq!["daemon"@, "--socket"@, self@.endpoint]);
        args
    }
}

/// What an answer of the daemon means.
pub open spec fn answers(
    frame: Option<Result<RpcResponse, String>>,
    quoted: &str,
    r: Result<ResponsePayload, IpcError>,
) -> bool {
    match frame {
        None => r matches Err(IpcError::Protocol(m)) && m@ == "daemon closed the connection"@,
        Some(Err(e)) => r matches Err(IpcError::Protocol(m)) && m@ == e@ + " (raw: "@ + quoted@
            + ")"@,
        Some(Ok(response)) => match response.result {
            Ok(p) => r == Ok::<ResponsePayload, IpcError>(p),
            Err(e) => r == Err::<ResponsePayload, IpcError>(IpcError::Remote(e)),
        },
    }
}

/// The payload of a response, given what the text of the frame was found to be
/// and the text as it is quoted; without a frame, the daemon is gone.
pub fn answer(frame: Option<Result<RpcResponse, String>>, quoted: &str) -> (r: Result<
    ResponsePayload,
    IpcError,
>)
    ensures
        answers(frame, quoted, r),
{
    match frame {
        None => Err(IpcError::Protocol("daemon closed the connection".to_owned())),
        Some(Err(e)) => {
            let mut m = concat3(e.as_str(), " (raw: ", quoted);
            m.append(")");
            Err(IpcError::Protocol(m))
        },
        Some(Ok(response)) => match response.result {
            Ok(p) => Ok(p),
            Err(e) => Err(IpcError::Remote(e)),
        },
    }
}

/// Whether the daemon answered.
pub open spec fn shows_life(reply: &Result<ResponsePayload, IpcError>, r: bool) -> bool {
    r == (reply matches Ok(ResponsePayload::Pong))
}

/// Whether a daemon is alive, given what it answered to a ping.
pub fn is_alive(reply: &Result<ResponsePayload, IpcError>) -> (r: bool)
    ensures
        shows_life(reply, r),
{
    match reply {
        Ok(ResponsePayload::Pong) => true,
        _ => false,
    }
}

/// Whether to wait on for the daemon.
pub open spec fn waits_on(elapsed_ms: u64, r: bool) -> bool {
    r == (elapsed_ms < DAEMON_START_TIMEOUT_MS)
}

/// Whether a daemon that was started is awaited any longer.
pub fn keep_waiting(elapsed_ms: u64) -> (r: bool)
    ensures
        waits_on(elapsed_ms, r),
{
    elapsed_ms < DAEMON_START_TIMEOUT_MS
}

/// What is said of a daemon that does not come up.
pub open spec fn tells_late(r: IpcError) -> bool {
    r matches IpcError::Spawn(m) && m@ == "the daemon did not become reachable within "@
        + span_text(DAEMON_START_TIMEOUT_MS)
}

/// A daemon that was started did not become reachable.
pub fn start_timeout() -> (r: IpcError)
    ensures
        tells_late(r),
{
    IpcError::Spawn(
        concat2(
            "the daemon did not become reachable within ",
            describe_span(DAEMON_START_TIMEOUT_MS).as_str(),
        ),
    )
}

/// What is said where the program is not found.
pub open spec fn tells_missing(error: &str, r: IpcError) -> bool {
    r matches IpcError::Spawn(m) && m@ == "cannot locate the devserial binary: "@ + error@
}

/// The binary of the daemon could not be found.
pub fn binary_missing(error: &str) -> (r: IpcError)
    ensures
        tells_missing(error, r),
{
    IpcError::Spawn(concat2("cannot locate the devserial binary: ", error))
}

/// What is said where the daemon does not start.
pub open spec fn tells_unstarted(error: &str, r: IpcError) -> bool {
    r matches IpcError::Spawn(m) && m@ == "could not spawn the daemon: "@ + error@
}

/// The daemon could not be started.
pub fn spawn_failed(error: &str) -> (r: IpcError)
    ensures
        tells_unstarted(error, r),
{
    IpcError::Spawn(concat2("could not spawn the daemon: ", error))
}

} // verus!
