//! The HTTP interface, and the switch that turns it on.
//!
//! A fourth transport over [`crate::engine::CommandEngine`], beside the CLI,
//! the IPC daemon and the MCP server, and like them it carries no operation
//! logic of its own. Every request the daemon knows either has a route or a
//! recorded reason for not having one.
//!
//! Three things here are decisions rather than mechanics: the bind happens
//! inside the request that asked for it, so the answer says what happened; a
//! request to loopback needs no token while a bind to anything else refuses to
//! start without one; and flashing, the one operation too slow to answer inside
//! a request, is handed to a job whose output is a stream.
use vstd::prelude::*;
use vstd::string::*;

use crate::json;
use crate::json::json_string;
use crate::protocol::RestState;
use crate::text;
use crate::text::{
    chars_of, concat2, concat3, decimal, find_char, parse_u16, same, slice_of, to_lower, trim,
};

pub mod answers;
pub mod jobs;
pub mod routes;

verus! {

// ---------------------------------------------------------------------------
// The listener
// ---------------------------------------------------------------------------

/// How the HTTP listener is configured.
#[derive(Debug, Clone, PartialEq, Eq)]
pub struct RestConfig {
    /// Whether the daemon starts it by itself.
    pub enabled: bool,
    /// The address to listen on.
    pub bind: String,
    /// The port to listen on; zero lets the operating system pick one.
    pub port: u16,
    /// The token a caller has to present.
    pub token: Option<String>,
}

/// What the address of a configuration was found to be.
///
/// Only an address counts: a name is never loopback, however much it looks like
/// one.
#[derive(Debug, Clone, Copy, PartialEq, Eq, Structural)]
pub enum BindScope {
    /// No IP address.
    NotAnAddress,
    /// An address that only this machine reaches.
    Loopback,
    /// An address that the network reaches.
    Network,
}

/// Whether a caller has to present a bearer token.
///
/// A bind to the network always needs one, and a token configured for loopback
/// is honoured rather than ignored.
pub open spec fn needs_token(config: RestConfig, scope: BindScope) -> bool {
    config.token is Some || !(scope is Loopback)
}

/// Whether a caller has to present a bearer token.
pub fn token_required(config: &RestConfig, scope: BindScope) -> (r: bool)
    ensures
        r == needs_token(*config, scope),
{
    config.token.is_some() || !matches!(scope, BindScope::Loopback)
}

/// Why a socket could not be bound.
#[derive(Debug)]
pub enum BindError {
    AddrInUse,
    PermissionDenied,
    AddrNotAvailable,
    Other(String),
}

/// Why a listener could not be bound, in words a person can act on.
///
/// The three kinds are separated because the reader does something different
/// about each. Everything else is reported as it came. `ip` is the address and
/// `addr` the address with its port.
pub fn bind_failure(ip: &str, port: u16, addr: &str, error: &BindError) -> (r: String)
    ensures
        r@ == failure_text(ip@, port, addr@, *error),
{
    match error {
        BindError::AddrInUse => concat3(
            "port ",
            decimal(port as u64).as_str(),
            " is in use. Another program is listening there.",
        ),
        BindError::PermissionDenied => concat3(
            "port ",
            decimal(port as u64).as_str(),
            " needs privileges this process does not have. Use a port above 1024.",
        ),
        BindError::AddrNotAvailable => concat3(
            "no interface on this machine has the address ",
            ip,
            ".",
        ),
        BindError::Other(e) => {
            let mut m = concat3("could not bind ", addr, ": ");
            m.append(e.as_str());
            m
        },
    }
}

/// Why a listener could not be bound, in words.
pub open spec fn failure_text(ip: Seq<char>, port: u16, addr: Seq<char>, error: BindError) -> Seq<
    char,
> {
    match error {
        BindError::AddrInUse => "port "@ + text::dec_nat(port as nat)
            + " is in use. Another program is listening there."@,
        BindError::PermissionDenied => "port "@ + text::dec_nat(port as nat)
            + " needs privileges this process does not have. Use a port above 1024."@,
        BindError::AddrNotAvailable => "no interface on this machine has the address "@ + ip
            + "."@,
        BindError::Other(e) => "could not bind "@ + addr + ": "@ + e@,
    }
}

/// What came of an attempt to listen.
#[derive(Debug)]
pub enum Attempt {
    /// The socket could not be bound, for this reason.
    Unbound(String),
    /// The bound socket could not be prepared, for this reason; nothing else
    /// has changed.
    Unprepared(String),
    /// The listener before it is stopped and this one could not be served.
    Unserved(String),
    /// Connections are accepted on this port: the one the operating system gave
    /// out, not the one that was asked for.
    Listening(u16),
}

/// The HTTP interface of one daemon.
///
/// Holds at most one listener. Asking for a second while one runs replaces it,
/// because the alternative is two answers to the same question depending on
/// which port a caller reached.
#[derive(Debug)]
pub struct RestServer {
    pub state: RestState,
    pub token: Option<String>,
    /// Whether a listener runs.
    pub running: bool,
}

/// Whether a state is that of a listener with this configuration.
pub open spec fn describes(
    state: RestState,
    config: RestConfig,
    scope: BindScope,
    listening: bool,
    port: u16,
) -> bool {
    &&& state.listening == listening
    &&& state.bind@ == config.bind@
    &&& state.port == port
    &&& state.token_required == needs_token(config, scope)
}

/// Whether a token is the one of the configuration.
pub open spec fn same_token(a: Option<String>, b: Option<String>) -> bool {
    match (a, b) {
        (Some(x), Some(y)) => x@ == y@,
        (None, None) => true,
        _ => false,
    }
}

/// Why a listener with this configuration may not be bound, where it may not:
/// its address is none, or it leaves the machine without a token.
pub open spec fn bind_refusal(config: RestConfig, scope: BindScope) -> Option<Seq<char>> {
    match scope {
        BindScope::NotAnAddress => Some("'"@ + config.bind@ + "' is not an IP address"@),
        BindScope::Network if config.token is None => Some(
            "binding "@ + config.bind@
                + " exposes the device to the network, so it needs a token. "@
                + "Set one with --token-file, or bind 127.0.0.1."@,
        ),
        _ => None,
    }
}

fn copy_text(t: &Option<String>) -> (r: Option<String>)
    ensures
        r == *t,
{
    match t {
        Some(s) => Some(s.clone()),
        None => None,
    }
}

fn described(config: &RestConfig, scope: BindScope, listening: bool, port: u16) -> (r: RestState)
    ensures
        describes(r, *config, scope, listening, port),
        r.reason is None,
{
    RestState {
        listening,
        bind: config.bind.clone(),
        port,
        reason: None,
        token_required: token_required(config, scope),
    }
}

impl RestServer {
    /// A server that is not listening, described by the configuration.
    pub fn new(config: &RestConfig, scope: BindScope) -> (r: RestServer)
        ensures
            describes(r.state, *config, scope, false, config.port),
            r.state.reason is None,
            same_token(r.token, config.token),
            !r.running,
    {
        RestServer {
            state: described(config, scope, false, config.port),
            token: copy_text(&config.token),
            running: false,
        }
    }

    /// What the daemon reports about the interface.
    pub fn state(&self) -> (r: RestState)
        ensures
            r == self.state,
    {
        RestState {
            listening: self.state.listening,
            bind: self.state.bind.clone(),
            port: self.state.port,
            reason: copy_text(&self.state.reason),
            token_required: self.state.token_required,
        }
    }

    /// Whether the interface may listen where it was asked to.
    pub open spec fn binds(config: &RestConfig, scope: BindScope, r: Result<(), String>) -> bool {
        match bind_refusal(*config, scope) {
            Some(reason) => r matches Err(m) && m@ == reason,
            None => r is Ok,
        }
    }

    /// Whether a listener with this configuration may be bound at all: its
    /// address is one, and a bind that leaves the machine carries a token.
    ///
    /// The bind address is the whole boundary once loopback needs no token, so a
    /// bind that leaves the machine has to be deliberate.
    pub fn may_bind(config: &RestConfig, scope: BindScope) -> (r: Result<(), String>)
        ensures
            Self::binds(config, scope, r),
    {
        match scope {
            BindScope::NotAnAddress => Err(
                concat3("'", config.bind.as_str(), "' is not an IP address"),
            ),
            BindScope::Network => if config.token.is_none() {
                let mut m = concat3(
                    "binding ",
                    config.bind.as_str(),
                    " exposes the device to the network, so it needs a token. ",
                );
                m.append("Set one with --token-file, or bind 127.0.0.1.");
                Err(m)
            } else {
                Ok(())
            },
            BindScope::Loopback => Ok(()),
        }
    }

    /// What comes of an attempt to listen.
    pub open spec fn attempted(
        before: RestServer,
        config: RestConfig,
        scope: BindScope,
        attempt: Attempt,
        after: RestServer,
        r: Result<RestState, String>,
    ) -> bool {
        match attempt {
            Attempt::Unbound(reason) => {
                &&& r matches Err(m) && m@ == reason@
                &&& describes(after.state, config, scope, false, config.port)
                &&& after.state.reason matches Some(m) && m@ == reason@
                &&& after.running == before.running
                &&& after.token == before.token
            },
            Attempt::Unprepared(reason) => {
                &&& r == Err::<RestState, String>(reason)
                &&& after == before
            },
            Attempt::Unserved(reason) => {
                &&& r == Err::<RestState, String>(reason)
                &&& after.state == before.state
                &&& after.token == before.token
                &&& !after.running
            },
            Attempt::Listening(port) => {
                &&& r == Ok::<RestState, String>(after.state)
                &&& describes(after.state, config, scope, true, port)
                &&& after.state.reason is None
                &&& same_token(after.token, config.token)
                &&& after.running
            },
        }
    }

    /// What comes of asking for a listener: one that may not be bound is refused
    /// and changes nothing.
    pub open spec fn enabled(
        before: RestServer,
        config: RestConfig,
        scope: BindScope,
        attempt: Attempt,
        after: RestServer,
        r: Result<RestState, String>,
    ) -> bool {
        match bind_refusal(config, scope) {
            Some(reason) => {
                &&& r matches Err(m) && m@ == reason
                &&& after == before
            },
            None => RestServer::attempted(before, config, scope, attempt, after, r),
        }
    }

    /// Report the outcome of an attempt to listen. A listener that may not be
    /// bound is refused, whatever came of the attempt.
    ///
    /// A caller that asked for a port learns in the same answer whether it got
    /// it. A listener already running is replaced rather than left beside the
    /// new one.
    pub fn enable(&mut self, config: &RestConfig, scope: BindScope, attempt: Attempt) -> (r: Result<
        RestState,
        String,
    >)
        ensures
            RestServer::enabled(*old(self), *config, scope, attempt, *final(self), r),
    {
        if let Err(reason) = RestServer::may_bind(config, scope) {
            return Err(reason);
        }
        match attempt {
            Attempt::Unbound(reason) => {
                let mut state = described(config, scope, false, config.port);
                state.reason = Some(reason.clone());
                self.state = state;
                Err(reason)
            },
            Attempt::Unprepared(reason) => Err(reason),
            Attempt::Unserved(reason) => {
                self.running = false;
                Err(reason)
            },
            Attempt::Listening(port) => {
                self.token = copy_text(&config.token);
                self.running = true;
                self.state = described(config, scope, true, port);
                Ok(self.state())
            },
        }
    }

    /// How the interface stops listening.
    pub open spec fn disabled(before: RestServer, after: RestServer, r: RestState) -> bool {
        &&& r == after.state
        &&& after.state == (if before.state.listening {
            RestState { listening: false, reason: None, ..before.state }
        } else {
            before.state
        })
        &&& after.token == before.token
        &&& !after.running
    }

    /// Stop listening. A server that is not listening is left as it is.
    pub fn disable(&mut self) -> (r: RestState)
        ensures
            RestServer::disabled(*old(self), *final(self), r),
    {
        self.running = false;
        if self.state.listening {
            self.state.listening = false;
            self.state.reason = None;
        }
        self.state()
    }
}

/// A listener on the network always asks for a token: one that was enabled there
/// has it, says so and turns away a caller who presents none. A listener that
/// asks for no token is only reached from this machine.
pub proof fn the_network_needs_a_token(
    before: RestServer,
    config: RestConfig,
    scope: BindScope,
    attempt: Attempt,
    after: RestServer,
    r: Result<RestState, String>,
)
    requires
        RestServer::enabled(before, config, scope, attempt, after, r),
        r is Ok,
    ensures
        scope is Network ==> after.token is Some && after.state.token_required && !token_passes(
            after.token,
            None,
        ),
        !after.state.token_required ==> scope is Loopback && after.token is None,
{
}

// ---------------------------------------------------------------------------
// Problems
// ---------------------------------------------------------------------------

/// The status with which a request is refused.
#[derive(Debug, Clone, Copy, PartialEq, Eq, Structural)]
pub enum Status {
    BadRequest,
    Unauthorized,
    NotFound,
    UnsupportedMediaType,
    MisdirectedRequest,
    InternalServerError,
}

impl Status {
    /// The number of the status.
    pub open spec fn number(self) -> u16 {
        match self {
            Status::BadRequest => 400,
            Status::Unauthorized => 401,
            Status::NotFound => 404,
            Status::UnsupportedMediaType => 415,
            Status::MisdirectedRequest => 421,
            Status::InternalServerError => 500,
        }
    }

    /// The number of the status.
    pub fn code(self) -> (r: u16)
        ensures
            r == self.number(),
    {
        match self {
            Status::BadRequest => 400,
            Status::Unauthorized => 401,
            Status::NotFound => 404,
            Status::UnsupportedMediaType => 415,
            Status::MisdirectedRequest => 421,
            Status::InternalServerError => 500,
        }
    }

    /// What the status is called.
    pub open spec fn title(self) -> Seq<char> {
        match self {
            Status::BadRequest => "Bad Request"@,
            Status::Unauthorized => "Unauthorized"@,
            Status::NotFound => "Not Found"@,
            Status::UnsupportedMediaType => "Unsupported Media Type"@,
            Status::MisdirectedRequest => "Misdirected Request"@,
            Status::InternalServerError => "Internal Server Error"@,
        }
    }

    /// What the status is called.
    pub fn reason(self) -> (r: &'static str)
        ensures
            r@ == self.title(),
    {
        match self {
            Status::BadRequest => "Bad Request",
            Status::Unauthorized => "Unauthorized",
            Status::NotFound => "Not Found",
            Status::UnsupportedMediaType => "Unsupported Media Type",
            Status::MisdirectedRequest => "Misdirected Request",
            Status::InternalServerError => "Internal Server Error",
        }
    }
}

/// An error in the shape RFC 9457 describes.
///
/// A typed `type` a client can branch on and a `detail` a person can read,
/// rather than a bare string that has to be parsed.
#[derive(Debug)]
pub struct Problem {
    pub status: Status,
    pub kind: String,
    pub detail: String,
}

impl Problem {
    /// Whether a problem is this one.
    pub open spec fn is(self, status: Status, kind: Seq<char>, detail: Seq<char>) -> bool {
        self.status == status && self.kind@ == kind && self.detail@ == detail
    }

    /// The body of the problem document.
    pub open spec fn body(self) -> Seq<char> {
        "{\"detail\":"@ + json::json_text(self.detail@) + ",\"status\":"@ + text::dec_nat(
            self.status.number() as nat,
        ) + ",\"title\":"@ + json::json_text(self.status.title()) + ",\"type\":"@ + json::json_text(
            "https://devserial.dev/problem/"@ + self.kind@,
        ) + "}"@
    }

    /// The body of the problem document.
    pub fn to_json(&self) -> (r: String)
        ensures
            r@ == self.body(),
    {
        let mut out = concat2("{\"detail\":", json_string(self.detail.as_str()).as_str());
        out.append(",\"status\":");
        out.append(decimal(self.status.code() as u64).as_str());
        out.append(",\"title\":");
        out.append(json_string(self.status.reason()).as_str());
        out.append(",\"type\":");
        out.append(
            json_string(
                concat2("https://devserial.dev/problem/", self.kind.as_str()).as_str(),
            ).as_str(),
        );
        out.append("}");
        out
    }
}

/// An error in the shape RFC 9457 describes.
pub fn problem(status: Status, kind: &str, detail: &str) -> (r: Problem)
    ensures
        r.is(status, kind@, detail@),
{
    Problem { status, kind: kind.to_owned(), detail: detail.to_owned() }
}

// ---------------------------------------------------------------------------
// Guards
// ---------------------------------------------------------------------------

/// Whether a character stands anywhere in a text.
pub open spec fn has_char(s: Seq<char>, c: char) -> bool {
    exists|i: int| 0 <= i < s.len() && s[i] == c
}

/// A text without the opening brackets with which it begins.
pub open spec fn unbracketed_start(s: Seq<char>) -> Seq<char>
    decreases s.len(),
{
    if s.len() > 0 && s[0] == '[' {
        unbracketed_start(s.skip(1))
    } else {
        s
    }
}

/// A text without the closing brackets with which it ends.
pub open spec fn unbracketed_end(s: Seq<char>) -> Seq<char>
    decreases s.len(),
{
    if s.len() > 0 && s.last() == ']' {
        unbracketed_end(s.drop_last())
    } else {
        s
    }
}

/// Whether a text is a name of this machine's own loopback.
pub open spec fn loopback_name(name: Seq<char>) -> bool {
    let bare = unbracketed_end(unbracketed_start(name));
    bare == "localhost"@ || bare == "127.0.0.1"@ || bare == "::1"@
}

/// Whether a `Host` header of this name and port is one of the listener on
/// `port`. An IPv6 literal carries colons of its own, so its name is bracketed.
pub open spec fn addresses(name: Seq<char>, tail: Seq<char>, port: u16) -> bool {
    &&& !has_char(tail, ':')
    &&& text::parse_nat(tail, u16::MAX as nat) == Some(port as nat)
    &&& has_char(name, ':') ==> name.last() == ']'
    &&& loopback_name(name)
}

/// Whether a `Host` header names the listener on `port` by a loopback name.
pub open spec fn local_host(host: Seq<char>, port: u16) -> bool {
    exists|name: Seq<char>, tail: Seq<char>| #[trigger]
        addresses(name, tail, port) && host == name + ":"@ + tail
}

/// The last place of a character in a text.
fn last_char(s: &[char], c: char) -> (r: Option<usize>)
    ensures
        match r {
            Some(i) => i < s@.len() && s@[i as int] == c && forall|j: int|
                i < j < s@.len() ==> s@[j] != c,
            None => !has_char(s@, c),
        },
{
    let mut i: usize = s.len();
    while i > 0
        invariant
            i <= s@.len(),
            forall|j: int| i <= j < s@.len() ==> s@[j] != c,
        decreases i,
    {
        i = i - 1;
        if s[i] == c {
            return Some(i);
        }
    }
    None
}

proof fn lemma_unbracketed_start(s: Seq<char>, from: int)
    requires
        0 <= from <= s.len(),
        forall|i: int| 0 <= i < from ==> s[i] == '[',
        from < s.len() ==> s[from] != '[',
    ensures
        unbracketed_start(s) == s.skip(from),
    decreases from,
{
    if from == 0 {
        assert(s.skip(0) =~= s);
    } else {
        assert(s[0] == '[');
        lemma_unbracketed_start(s.skip(1), from - 1);
        assert(s.skip(1).skip(from - 1) =~= s.skip(from));
    }
}

proof fn lemma_unbracketed_end(s: Seq<char>, to: int)
    requires
        0 <= to <= s.len(),
        forall|i: int| to <= i < s.len() ==> s[i] == ']',
        to > 0 ==> s[to - 1] != ']',
    ensures
        unbracketed_end(s) == s.take(to),
    decreases s.len() - to,
{
    if to == s.len() {
        assert(s.take(to) =~= s);
    } else {
        assert(s.last() == ']');
        lemma_unbracketed_end(s.drop_last(), to);
        assert(s.drop_last().take(to) =~= s.take(to));
    }
}

/// Whether a text is a name of this machine's own loopback.
fn is_loopback_name(name: &[char]) -> (r: bool)
    ensures
        r == loopback_name(name@),
{
    let mut from: usize = 0;
    while from < name.len() && name[from] == '['
        invariant
            from <= name@.len(),
            forall|i: int| 0 <= i < from ==> name@[i] == '[',
        decreases name@.len() - from,
    {
        from = from + 1;
    }
    let ghost rest = name@.skip(from as int);
    let mut to: usize = name.len();
    while to > from && name[to - 1] == ']'
        invariant
            from <= to <= name@.len(),
            rest == name@.skip(from as int),
            forall|i: int| to - from <= i < rest.len() ==> rest[i] == ']',
        decreases to,
    {
        to = to - 1;
    }
    let bare = slice_of(name, from, to);
    proof {
        lemma_unbracketed_start(name@, from as int);
        if to > from {
            assert(rest[to - from - 1] == name@[to - 1]);
        }
        lemma_unbracketed_end(rest, to - from);
        assert(rest.take(to - from) =~= name@.subrange(from as int, to as int));
    }
    same(bare.as_str(), "localhost") || same(bare.as_str(), "127.0.0.1") || same(
        bare.as_str(),
        "::1",
    )
}

/// Whether a `Host` header names this listener on a loopback name.
///
/// A missing port means the default for the scheme, which is never ours, so a
/// header without one is refused rather than assumed.
pub fn host_is_local(host: &str, port: u16) -> (r: bool)
    ensures
        r == local_host(host@, port),
{
    let chars = chars_of(host);
    proof {
        reveal_strlit(":");
        assert forall|name: Seq<char>, tail: Seq<char>| #[trigger]
            addresses(name, tail, port) && host@ == name + ":"@ + tail implies host@[name.len() as int]
            == ':' && (forall|j: int| name.len() < j < host@.len() ==> host@[j] != ':') && name
            == host@.take(name.len() as int) && tail == host@.skip(name.len() + 1int) by {
            assert(host@.take(name.len() as int) =~= name);
            assert(host@.skip(name.len() + 1int) =~= tail);
            assert forall|j: int| name.len() < j < host@.len() implies host@[j] != ':' by {
                assert(host@[j] == tail[j - name.len() - 1]);
            }
        }
    }
    let at = match last_char(chars.as_slice(), ':') {
        None => {
            return false;
        },
        Some(at) => at,
    };
    let n: usize = chars.len();
    let name_text = slice_of(chars.as_slice(), 0, at);
    let name = chars_of(name_text.as_str());
    let tail = slice_of(chars.as_slice(), at + 1, n);
    proof {
        assert(name@ =~= host@.take(at as int));
        assert(tail@ =~= host@.skip(at + 1));
        assert(host@ =~= name@ + ":"@ + tail@);
        assert(!has_char(tail@, ':'));
    }
    let bracketed = at > 0 && name[at - 1] == ']';
    if !bracketed && last_char(name.as_slice(), ':').is_some() {
        assert(has_char(name@, ':'));
        return false;
    }
    match parse_u16(tail.as_str()) {
        Some(p) => {
            let r = p == port && is_loopback_name(name.as_slice());
            assert(r == addresses(name@, tail@, port));
            r
        },
        None => false,
    }
}

/// A header is that of at most one listener: no other port takes it.
pub proof fn a_host_names_one_port(host: Seq<char>, a: u16, b: u16)
    requires
        local_host(host, a),
        local_host(host, b),
    ensures
        a == b,
{
    reveal_strlit(":");
    let (n, t) = choose|name: Seq<char>, tail: Seq<char>| #[trigger]
        addresses(name, tail, a) && host == name + ":"@ + tail;
    let (m, u) = choose|name: Seq<char>, tail: Seq<char>| #[trigger]
        addresses(name, tail, b) && host == name + ":"@ + tail;
    assert(host == n + ":"@ + t && addresses(n, t, a));
    assert(host == m + ":"@ + u && addresses(m, u, b));
    assert(host.len() == n.len() + 1 + t.len());
    assert(host.len() == m.len() + 1 + u.len());
    assert(host[n.len() as int] == ':');
    assert(host[m.len() as int] == ':');
    if n.len() < m.len() {
        assert(host[m.len() as int] == t[m.len() - n.len() - 1]);
    }
    if m.len() < n.len() {
        assert(host[n.len() as int] == u[n.len() - m.len() - 1]);
    }
    assert(t =~= host.skip(n.len() + 1int));
    assert(u =~= host.skip(m.len() + 1int));
}

/// Whether a request with this `Authorization` header passes the token check.
/// Where no token is configured everything does.
pub open spec fn token_passes(token: Option<String>, authorization: Option<&str>) -> bool {
    match token {
        None => true,
        Some(t) => authorization matches Some(a) && a@ == "Bearer "@ + t@,
    }
}

/// Whether a request passes the token check.
pub fn presents_token(token: &Option<String>, authorization: Option<&str>) -> (r: bool)
    ensures
        r == token_passes(*token, authorization),
{
    match token {
        None => true,
        Some(t) => match authorization {
            Some(a) => same(a, concat2("Bearer ", t.as_str()).as_str()),
            None => false,
        },
    }
}

/// A text up to its first semicolon.
pub open spec fn before_semicolon(s: Seq<char>) -> Seq<char>
    decreases s.len(),
{
    if s.len() == 0 || s[0] == ';' {
        Seq::empty()
    } else {
        seq![s[0]] + before_semicolon(s.skip(1))
    }
}

proof fn lemma_before_semicolon(s: Seq<char>, n: int)
    requires
        0 <= n <= s.len(),
        forall|i: int| 0 <= i < n ==> s[i] != ';',
        n < s.len() ==> s[n] == ';',
    ensures
        before_semicolon(s) == s.take(n),
    decreases n,
{
    if n > 0 {
        assert(s[0] != ';');
        lemma_before_semicolon(s.skip(1), n - 1);
        assert(seq![s[0]] + s.skip(1).take(n - 1) =~= s.take(n));
    } else {
        assert(s.take(0) =~= Seq::<char>::empty());
    }
}

/// Whether a content type is JSON. A parameter such as `; charset=utf-8` is
/// allowed; the type is what counts.
pub open spec fn json_type(declared: Seq<char>) -> bool {
    text::lower(text::trimmed(before_semicolon(declared))) == "application/json"@
}

/// Whether a content type is JSON.
pub fn declares_json(declared: &str) -> (r: bool)
    ensures
        r == json_type(declared@),
{
    let chars = chars_of(declared);
    let end = match find_char(chars.as_slice(), 0, ';') {
        Some(i) => i,
        None => chars.len(),
    };
    let kind = slice_of(chars.as_slice(), 0, end);
    proof {
        lemma_before_semicolon(declared@, end as int);
        assert(kind@ =~= declared@.take(end as int));
    }
    same(to_lower(trim(kind.as_str()).as_str()).as_str(), "application/json")
}

/// What the guards look at in a request. A header that is missing, or that is no
/// text, is `None`.
#[derive(Debug)]
pub struct Head<'a> {
    pub method: &'a str,
    /// Whether the liveness route is asked for.
    pub health: bool,
    pub host: Option<&'a str>,
    pub content_type: Option<&'a str>,
    pub authorization: Option<&'a str>,
}

/// Whether a method carries a body that has to declare itself as JSON.
///
/// A cross-origin `PUT` or `DELETE` needs a preflight, which is never granted;
/// a `POST` does not, unless it declares a content type a form cannot set.
pub open spec fn carries_body(method: Seq<char>) -> bool {
    method == "POST"@ || method == "PUT"@ || method == "PATCH"@
}

/// The text of a header, empty where there is none.
pub open spec fn header_text(h: Option<&str>) -> Seq<char> {
    match h {
        Some(s) => s@,
        None => Seq::empty(),
    }
}

/// Whether a request is let in, and what is said of one that is not.
pub open spec fn lets_in(
    head: &Head<'_>,
    token: &Option<String>,
    port: u16,
    r: Result<(), Problem>,
) -> bool {
    if carries_body(head.method@) && !json_type(header_text(head.content_type)) {
        r matches Err(p) && p.is(
            Status::UnsupportedMediaType,
            "not-json"@,
            "a body has to declare Content-Type: application/json"@,
        )
    } else if !local_host(header_text(head.host), port) {
        r matches Err(p) && p.is(
            Status::MisdirectedRequest,
            "host-not-local"@,
            "this interface answers only to localhost and 127.0.0.1"@,
        )
    } else if !head.health && !token_passes(*token, head.authorization) {
        r matches Err(p) && p.is(
            Status::Unauthorized,
            "unauthorized"@,
            "a bearer token is required for this interface"@,
        )
    } else {
        r is Ok
    }
}

/// Let a request through, or refuse it: a body that does not declare itself as
/// JSON, then a host that is not this listener's, then a missing token. A caller
/// has to be able to ask whether anything is there before being told it is not
/// allowed in, so the liveness route needs no token.
pub fn let_in(head: &Head<'_>, token: &Option<String>, port: u16) -> (r: Result<(), Problem>)
    ensures
        lets_in(head, token, port, r),
{
    proof {
        reveal_strlit("");
        assert(""@ =~= Seq::<char>::empty());
    }
    let carries = same(head.method, "POST") || same(head.method, "PUT") || same(
        head.method,
        "PATCH",
    );
    let declared = match head.content_type {
        Some(t) => t,
        None => "",
    };
    if carries && !declares_json(declared) {
        return Err(
            problem(
                Status::UnsupportedMediaType,
                "not-json",
                "a body has to declare Content-Type: application/json",
            ),
        );
    }
    let host = match head.host {
        Some(h) => h,
        None => "",
    };
    if !host_is_local(host, port) {
        return Err(
            problem(
                Status::MisdirectedRequest,
                "host-not-local",
                "this interface answers only to localhost and 127.0.0.1",
            ),
        );
    }
    if !head.health && !presents_token(token, head.authorization) {
        return Err(
            problem(
                Status::Unauthorized,
                "unauthorized",
                "a bearer token is required for this interface",
            ),
        );
    }
    Ok(())
}

} // verus!
