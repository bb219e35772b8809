//! What settings mean, and how they are read and told.
use vstd::prelude::*;
use vstd::string::*;

use crate::config;
use crate::config::{Config, ConfigError, GlobalConfig, MacroStep, PortConfig};
use crate::export::{ExportError, ExportFormat};
use crate::paths;
use crate::paths::Environment;
use crate::protocol;
use crate::protocol::{RequestPayload, SearchMode};
use crate::serial_params;
use crate::serial_params::{DataBits, FlowControl, ParamError, Parity, StopBits};
use crate::state;
use crate::state::{PortEntry, StateError};
use crate::text;

verus! {

// ---------------------------------------------------------------------------
// Words
// ---------------------------------------------------------------------------

/// Words are read without the blanks around them and without regard to case.
pub proof fn words_are_read_loosely(s: Seq<char>)
    ensures
        serial_params::normal(s) == text::lower(text::trimmed(s)),
{
}

/// A parity is `none`, `odd` or `even`, or the first letter of it; any other word
/// is refused and told.
pub proof fn parities_are_read(s: &str, r: Result<Parity, ParamError>)
    requires
        Parity::reads(s, r),
    ensures
        ({
            let w = text::lower(text::trimmed(s@));
            &&& r == Ok::<Parity, ParamError>(Parity::Off) <==> w == "none"@ || w == "n"@
            &&& r == Ok::<Parity, ParamError>(Parity::Odd) <==> w == "odd"@ || w == "o"@
            &&& r == Ok::<Parity, ParamError>(Parity::Even) <==> w == "even"@ || w == "e"@
            &&& r matches Err(e) ==> (e matches ParamError::Parity(t) && t@ == w) && e.message()
                == "invalid parity '"@ + w + "', expected one of: none, odd, even"@
        }),
{
    reveal_strlit("none");
    reveal_strlit("n");
    reveal_strlit("odd");
    reveal_strlit("o");
    reveal_strlit("even");
    reveal_strlit("e");
    assert("none"@.len() != "odd"@.len());
    assert("none"@.len() == "even"@.len() && "none"@[0] == 'n' && "even"@[0] == 'e');
    assert("n"@[0] == 'n' && "o"@[0] == 'o' && "e"@[0] == 'e');
    assert("odd"@.len() == 3);
}

/// A flow control is none, by characters or by lines, each under its names; any
/// other word is refused and told.
pub proof fn flow_controls_are_read(s: &str, r: Result<FlowControl, ParamError>)
    requires
        FlowControl::reads(s, r),
    ensures
        ({
            let w = text::lower(text::trimmed(s@));
            &&& w == "none"@ || w == "off"@ ==> r == Ok::<FlowControl, ParamError>(FlowControl::Off)
            &&& w == "software"@ || w == "xonxoff"@ || w == "xon/xoff"@ ==> r == Ok::<
                FlowControl,
                ParamError,
            >(FlowControl::Software)
            &&& w == "hardware"@ || w == "rtscts"@ || w == "rts/cts"@ ==> r == Ok::<
                FlowControl,
                ParamError,
            >(FlowControl::Hardware)
            &&& r is Ok ==> w == "none"@ || w == "off"@ || w == "software"@ || w == "xonxoff"@ || w
                == "xon/xoff"@ || w == "hardware"@ || w == "rtscts"@ || w == "rts/cts"@
            &&& r matches Err(e) ==> (e matches ParamError::FlowControl(t) && t@ == w)
                && e.message() == "invalid flow control '"@ + w
                + "', expected one of: none, software, hardware"@
        }),
{
    reveal_strlit("none");
    reveal_strlit("off");
    reveal_strlit("software");
    reveal_strlit("xonxoff");
    reveal_strlit("xon/xoff");
    reveal_strlit("hardware");
    reveal_strlit("rtscts");
    reveal_strlit("rts/cts");
    assert("none"@.len() == 4 && "off"@.len() == 3 && "software"@.len() == 8 && "xonxoff"@.len()
        == 7 && "xon/xoff"@.len() == 8 && "hardware"@.len() == 8 && "rtscts"@.len() == 6
        && "rts/cts"@.len() == 7);
    assert("software"@[0] == 's' && "xon/xoff"@[0] == 'x' && "hardware"@[0] == 'h');
    assert("xonxoff"@[0] == 'x' && "rts/cts"@[0] == 'r');
}

/// A format is lines of text, a table or records, each under its names; any other
/// word is refused and told.
pub proof fn formats_are_read(s: &str, r: Result<ExportFormat, ExportError>)
    requires
        ExportFormat::reads(s, r),
    ensures
        ({
            let w = text::lower(text::trimmed(s@));
            &&& w == "txt"@ || w == "text"@ || w == "log"@ ==> r == Ok::<ExportFormat, ExportError>(
                ExportFormat::Txt,
            )
            &&& w == "csv"@ ==> r == Ok::<ExportFormat, ExportError>(ExportFormat::Csv)
            &&& w == "jsonl"@ || w == "ndjson"@ ==> r == Ok::<ExportFormat, ExportError>(
                ExportFormat::Jsonl,
            )
            &&& r is Ok ==> w == "txt"@ || w == "text"@ || w == "log"@ || w == "csv"@ || w
                == "jsonl"@ || w == "ndjson"@
            &&& r matches Err(e) ==> (e matches ExportError::UnknownFormat(t) && t@ == w)
                && e.message() == "unknown export format '"@ + w
                + "', expected one of: txt, csv, jsonl"@
        }),
{
    reveal_strlit("txt");
    reveal_strlit("text");
    reveal_strlit("log");
    reveal_strlit("csv");
    reveal_strlit("jsonl");
    reveal_strlit("ndjson");
    assert("txt"@.len() == 3 && "text"@.len() == 4 && "log"@.len() == 3 && "csv"@.len() == 3
        && "jsonl"@.len() == 5 && "ndjson"@.len() == 6);
    assert("txt"@[0] == 't' && "log"@[0] == 'l' && "csv"@[0] == 'c');
}

/// A search looks for a part, the whole or a pattern, each under its names; any
/// other word is refused and told.
pub proof fn modes_are_read(s: &str, r: Result<SearchMode, String>)
    requires
        SearchMode::reads(s, r),
    ensures
        ({
            let w = text::lower(text::trimmed(s@));
            &&& w == "substring"@ || w == "contains"@ ==> r == Ok::<SearchMode, String>(
                SearchMode::Substring,
            )
            &&& w == "exact"@ ==> r == Ok::<SearchMode, String>(SearchMode::Exact)
            &&& w == "regex"@ || w == "re"@ ==> r == Ok::<SearchMode, String>(SearchMode::Regex)
            &&& r is Ok ==> w == "substring"@ || w == "contains"@ || w == "exact"@ || w == "regex"@
                || w == "re"@
            &&& r matches Err(e) ==> e@ == "unknown query type '"@ + w
                + "', expected one of: substring, exact, regex"@
        }),
{
    reveal_strlit("substring");
    reveal_strlit("contains");
    reveal_strlit("exact");
    reveal_strlit("regex");
    reveal_strlit("re");
    assert("substring"@.len() == 9 && "contains"@.len() == 8 && "exact"@.len() == 5
        && "regex"@.len() == 5 && "re"@.len() == 2);
    assert("exact"@[0] == 'e' && "regex"@[0] == 'r');
}

/// Every choice has its name.
pub proof fn choices_have_names()
    ensures
        (Parity::Off).name() == "none"@,
        (Parity::Odd).name() == "odd"@,
        (Parity::Even).name() == "even"@,
        (FlowControl::Off).name() == "none"@,
        (FlowControl::Software).name() == "software"@,
        (FlowControl::Hardware).name() == "hardware"@,
        (SearchMode::Substring).name() == "substring"@,
        (SearchMode::Exact).name() == "exact"@,
        (SearchMode::Regex).name() == "regex"@,
        (ExportFormat::Txt).name() == "txt"@,
        (ExportFormat::Csv).name() == "csv"@,
        (ExportFormat::Jsonl).name() == "jsonl"@,
{
}

/// Every choice is offered under a label that tells it.
pub proof fn choices_have_labels(p: Parity, f: FlowControl, a: &'static str, b: &'static str)
    requires
        p.is_labelled(a),
        f.is_labelled(b),
    ensures
        p is Off ==> a@ == "None (N)"@,
        p is Odd ==> a@ == "Odd (O)"@,
        p is Even ==> a@ == "Even (E)"@,
        f is Off ==> b@ == "None"@,
        f is Software ==> b@ == "XON/XOFF"@,
        f is Hardware ==> b@ == "RTS/CTS"@,
{
}

// ---------------------------------------------------------------------------
// Framing
// ---------------------------------------------------------------------------

/// Data bits are five to eight, and stop bits one or two: each number stands for
/// itself, and any other is refused and told.
pub proof fn bits_are_numbers(
    n: u8,
    d: Result<DataBits, ParamError>,
    s: Result<StopBits, ParamError>,
)
    requires
        DataBits::takes(n, d),
        StopBits::takes(n, s),
    ensures
        d is Ok <==> 5 <= n <= 8,
        d matches Ok(b) ==> b.value() == n,
        d matches Err(e) ==> e.message() == "invalid data bits "@ + text::dec_nat(n as nat)
            + ", expected 5, 6, 7 or 8"@,
        s is Ok <==> 1 <= n <= 2,
        s matches Ok(b) ==> b.value() == n,
        s matches Err(e) ==> e.message() == "invalid stop bits "@ + text::dec_nat(n as nat)
            + ", expected 1 or 2"@,
        (DataBits::Five).value() == 5 && (DataBits::Six).value() == 6 && (DataBits::Seven).value()
            == 7 && (DataBits::Eight).value() == 8,
        (StopBits::One).value() == 1 && (StopBits::Two).value() == 2,
{
}

/// Bits are read from a decimal number, with blanks around it or none; what is no
/// number is refused as it stands.
pub proof fn bits_are_read(
    t: &str,
    d: Result<DataBits, ParamError>,
    s: Result<StopBits, ParamError>,
)
    requires
        DataBits::reads(t, d),
        StopBits::reads(t, s),
    ensures
        match text::parse_nat(text::trimmed(t@), 255) {
            Some(n) => {
                &&& d is Ok <==> 5 <= n <= 8
                &&& d matches Ok(b) ==> b.value() == n
                &&& s is Ok <==> 1 <= n <= 2
                &&& s matches Ok(b) ==> b.value() == n
                &&& d matches Err(e) ==> e.message() == "invalid data bits "@ + text::dec_nat(n)
                    + ", expected 5, 6, 7 or 8"@
                &&& s matches Err(e) ==> e.message() == "invalid stop bits "@ + text::dec_nat(n)
                    + ", expected 1 or 2"@
            },
            None => {
                &&& d matches Err(e) && e.message() == "invalid data bits '"@ + t@
                    + "', expected 5, 6, 7 or 8"@
                &&& s matches Err(e) && e.message() == "invalid stop bits '"@ + t@
                    + "', expected 1 or 2"@
            },
        },
{
}

/// Every speed is taken but zero, as it is.
pub proof fn speeds_are_taken(baud: u32, r: Result<u32, ParamError>)
    requires
        serial_params::takes_baud(baud, r),
    ensures
        baud > 0 ==> r == Ok::<u32, ParamError>(baud),
        baud == 0 ==> r == Err::<u32, ParamError>(ParamError::Baud(0)),
        (ParamError::Baud(baud)).message() == "invalid baud rate "@ + text::dec_nat(baud as nat)
            + ", expected a value greater than zero"@,
{
}

/// A port that nothing was said of runs at 115200 baud, eight data bits, no parity,
/// one stop bit and no flow control, ends its lines at a line feed, and comes back
/// after a second at first and half a minute at most.
pub proof fn ports_start_out_plain(config: Config, name: Seq<char>)
    ensures
        !config.ports@.contains_key(name) ==> {
            let p = config.spec_port(name);
            &&& p.baudrate == 115_200
            &&& p.data_bits.value() == 8
            &&& p.parity is Off
            &&& p.stop_bits.value() == 1
            &&& p.flow_control is Off
            &&& p.delimiter == 10
            &&& p.auto_reconnect
            &&& p.reconnect_interval_ms == 1_000
            &&& p.reconnect_max_backoff_ms == 30_000
            &&& p.max_buffer_lines == 0
        },
        config.ports@.contains_key(name) ==> config.spec_port(name) == config.ports@[name],
{
}

/// The settings of a port are told in short: the speed, and the data bits, the
/// letter of the parity and the stop bits without a gap, and the flow control
/// where there is one.
pub proof fn settings_are_told_in_short(p: PortConfig)
    ensures
        p.summary() == text::dec_nat(p.baudrate as nat) + " "@ + text::dec_nat(
            p.data_bits.value() as nat,
        ) + seq![
            match p.parity {
                Parity::Off => 'N',
                Parity::Odd => 'O',
                Parity::Even => 'E',
            },
        ] + text::dec_nat(p.stop_bits.value() as nat) + (match p.flow_control {
            FlowControl::Off => ""@,
            FlowControl::Software => " (XON/XOFF)"@,
            FlowControl::Hardware => " (RTS/CTS)"@,
        }),
{
}

// ---------------------------------------------------------------------------
// Configuration
// ---------------------------------------------------------------------------

/// Where nothing is configured, lines are kept in the data directory of the user,
/// written every tenth of a second or by the thousand, and logged at `info`; no
/// port and no macro is set up.
pub proof fn nothing_is_configured(env: &Environment, g: GlobalConfig, c: Config)
    requires
        GlobalConfig::is_default(env, g),
        Config::is_default(env, c),
    ensures
        g.data_dir@ == env.spec_data_dir() && g.archive_dir@ == env.spec_archive_dir(),
        g.flush_interval_ms == 100 && g.flush_batch_size == 1000,
        g.log_level@ == "info"@,
        c.global.data_dir@ == g.data_dir@ && c.global.archive_dir@ == g.archive_dir@,
        c.global.flush_interval_ms == 100 && c.global.flush_batch_size == 1000,
        c.global.log_level@ == "info"@,
        forall|name: Seq<char>|
            !c.ports@.contains_key(name) && !#[trigger] c.macros@.contains_key(name),
{
}

/// A known level is logged at; of any other a warning is given, and `info` is
/// taken.
pub proof fn levels_are_known(g: GlobalConfig, r: (String, Option<String>))
    requires
        g.directs(r),
    ensures
        ({
            let w = text::lower(text::trimmed(g.log_level@));
            let known = w == "trace"@ || w == "debug"@ || w == "info"@ || w == "warn"@ || w
                == "error"@ || w == "off"@;
            &&& known ==> r.0@ == w && r.1 is None
            &&& !known ==> r.0@ == "info"@ && (r.1 matches Some(m) && m@
                == "devserial: unknown log_level '"@ + w + "', using 'info'"@)
        }),
{
}

/// A file that is named is the only one looked at, on the command line before the
/// environment; else the one in the current directory comes before that of the
/// user.
pub proof fn one_file_is_chosen(
    explicit: Option<&str>,
    env: &Environment,
    files: Vec<String>,
    existing: &Vec<String>,
    r: Result<Option<String>, ConfigError>,
)
    requires
        config::are_candidates(explicit, env, files),
        config::loads(explicit, env, existing, r),
    ensures
        ({
            let there = text::texts(existing@);
            let named = match explicit {
                Some(p) => Some(p@),
                None => paths::set_value(env.config),
            };
            match named {
                Some(p) => {
                    &&& text::texts(files@) == seq![p]
                    &&& there.contains(p) ==> (r matches Ok(Some(f)) && f@ == p)
                    &&& !there.contains(p) ==> (r matches Err(e) && e.message()
                        == "configuration file not found: "@ + p)
                },
                None => {
                    let here = "./devserial.toml"@;
                    let home = match env.spec_config_dir() {
                        Some(d) => Some(paths::joined_on(env.platform, d, "config.toml"@)),
                        None => None,
                    };
                    &&& files@.len() == (if home is Some {
                        2int
                    } else {
                        1
                    }) && files@[0]@ == here
                    &&& home matches Some(h) ==> files@[1]@ == h
                    &&& there.contains(here) ==> (r matches Ok(Some(f)) && f@ == here)
                    &&& !there.contains(here) ==> (match home {
                        Some(h) if there.contains(h) => r matches Ok(Some(f)) && f@ == h,
                        _ => r == Ok::<Option<String>, ConfigError>(None),
                    })
                },
            }
        }),
{
    let there = text::texts(existing@);
    let listed = config::candidate_files(*env);
    reveal_with_fuel(config::first_existing, 3);
    if config::requested_file(explicit, *env) is None {
        assert(text::texts(files@) == listed);
        assert(text::texts(files@)[0] == files@[0]@);
        if listed.len() == 2 {
            assert(text::texts(files@)[1] == files@[1]@);
            assert(listed.skip(1)[0] == listed[1]);
        }
    }
}

/// What is wrong with the configuration names its file.
pub proof fn faults_of_the_configuration_are_told(p: String, e: String)
    ensures
        (ConfigError::Missing(p)).message() == "configuration file not found: "@ + p@,
        (ConfigError::Io(p, e)).message() == "failed to read config file "@ + p@ + ": "@ + e@,
        (ConfigError::Parse(p, e)).message() == "failed to parse config file "@ + p@ + ": "@ + e@,
{
}

/// The macros of the user are offered first and in order, and then those that
/// every port has and the user did not replace, in a fixed order.
pub proof fn macros_are_offered_in_order(config: Config, offered: Seq<String>)
    requires
        config.lists_macros(offered),
    ensures
        ({
            let n = config.macros.names().len() as int;
            &&& n <= offered.len() <= n + 3
            &&& forall|i: int, j: int|
                0 <= i <= j < n ==> text::at_or_before(
                    #[trigger] offered[i]@,
                    #[trigger] offered[j]@,
                )
            &&& config.macros@.len() == 0 && config.macros@.dom() == Set::<Seq<char>>::empty()
                ==> offered.len() == n + 3 && offered[n]@ == "reset"@ && offered[n + 1]@
                == "enter_bootloader"@ && offered[n + 2]@ == "break"@
        }),
{
    let n = config.macros.names().len() as int;
    let rest = text::texts(offered.skip(n));
    assert(rest.len() == offered.len() - n);
    assert forall|i: int, j: int| 0 <= i <= j < n implies text::at_or_before(
        #[trigger] offered[i]@,
        #[trigger] offered[j]@,
    ) by {
        assert(offered.take(n)[i] == offered[i]);
        assert(offered.take(n)[j] == offered[j]);
    }
    if config.macros@.dom() == Set::<Seq<char>>::empty() {
        assert(!config.macros@.dom().contains("reset"@));
        assert(!config.macros@.dom().contains("enter_bootloader"@));
        assert(!config.macros@.dom().contains("break"@));
        assert(rest.len() == 3);
        assert(rest[0] == offered[n]@ && rest[1] == offered[n + 1]@ && rest[2] == offered[n + 2]@);
    }
}

/// A macro is run by the steps that the user gave it, and otherwise by those that
/// every port has.
pub proof fn macros_have_their_steps(
    config: Config,
    name: &str,
    r: Option<Vec<MacroStep>>,
    b: Option<Vec<MacroStep>>,
)
    requires
        config.gives_steps(name, r),
        config::is_builtin(name, b),
    ensures
        config.macros@.contains_key(name@) ==> (r matches Some(steps) && config::step_views(steps@)
            == config::step_views(config.macros@[name@].steps@)),
        !config.macros@.contains_key(name@) ==> (match (r, b) {
            (Some(x), Some(y)) => config::step_views(x@) == config::step_views(y@),
            (None, None) => true,
            _ => false,
        }),
        b is Some <==> name@ == "reset"@ || name@ == "enter_bootloader"@ || name@ == "break"@,
{
}

// ---------------------------------------------------------------------------
// Requests and kept state
// ---------------------------------------------------------------------------

/// A request is for the port it names; what concerns no port names none.
pub proof fn requests_name_their_port(r: RequestPayload)
    ensures
        r.target() == (match r {
            RequestPayload::OpenPort { name, .. } => Some(name@),
            RequestPayload::ReconfigurePort { name, .. } => Some(name@),
            RequestPayload::ClosePort { name } => Some(name@),
            RequestPayload::Ping => None,
            RequestPayload::ListPorts => None,
            RequestPayload::ListHardware => None,
            RequestPayload::RestStatus => None,
            RequestPayload::RestEnable { .. } => None,
            RequestPayload::RestDisable => None,
            RequestPayload::Shutdown => None,
            RequestPayload::ReadLines { port, .. } => Some(port@),
            RequestPayload::GetStatus { port } => Some(port@),
            RequestPayload::WriteData { port, .. } => Some(port@),
            RequestPayload::SendBreak { port, .. } => Some(port@),
            RequestPayload::SendFile { port, .. } => Some(port@),
            RequestPayload::ReceiveFile { port, .. } => Some(port@),
            RequestPayload::SetSignal { port, .. } => Some(port@),
            RequestPayload::ExecuteMacro { port, .. } => Some(port@),
            RequestPayload::Search { port, .. } => Some(port@),
            RequestPayload::Export { port, .. } => Some(port@),
            RequestPayload::Clear { port, .. } => Some(port@),
            RequestPayload::GetStats { port } => Some(port@),
            RequestPayload::EspFlash { port, .. } => Some(port@),
            RequestPayload::EspInfo { port } => Some(port@),
            RequestPayload::EspErase { port } => Some(port@),
            RequestPayload::EspWriteBin { port, .. } => Some(port@),
        }),
{
}

/// Settings that were not given are left open, and a window that was not given
/// takes in everything.
pub proof fn nothing_is_asked_for()
    ensures
        protocol::no_settings().baudrate is None,
        protocol::no_settings().data_bits is None,
        protocol::no_settings().parity is None,
        protocol::no_settings().stop_bits is None,
        protocol::no_settings().flow_control is None,
        protocol::whole_window().start_id is None,
        protocol::whole_window().after_id is None,
        protocol::whole_window().tail is None,
        protocol::whole_window().since_ns is None,
        protocol::whole_window().limit is None,
        protocol::whole_window().wait_ms is None,
{
}

/// Ports are opened again as they were kept, in order; what cannot be read of one
/// is passed over.
pub proof fn kept_ports_come_back(
    rows: Seq<(String, Option<PortConfig>)>,
    name: String,
    config: PortConfig,
)
    ensures
        state::readable(Seq::empty()).len() == 0,
        state::readable(rows.push((name, Some(config)))) == state::readable(rows).push(
            PortEntry { name, config },
        ),
        state::readable(rows.push((name, None))) == state::readable(rows),
{
    assert(rows.push((name, Some(config))).drop_last() =~= rows);
    assert(rows.push((name, None)).drop_last() =~= rows);
}

/// What is wrong with the kept state is told with its source.
pub proof fn faults_of_the_state_are_told(e: String)
    ensures
        (StateError::Sqlite(e)).message() == "sqlite error: "@ + e@,
        (StateError::Io(e)).message() == "io error: "@ + e@,
        (StateError::Json(e)).message() == "json error: "@ + e@,
        (ExportError::Io(e)).message() == "io error: "@ + e@,
{
}

// ---------------------------------------------------------------------------
// Limits and pauses
// ---------------------------------------------------------------------------

/// How much is read, searched, shown, kept and exported at most.
pub proof fn limits_are_fixed()
    ensures
        protocol::DEFAULT_READ_LIMIT == 100 && protocol::MAX_READ_LIMIT == 10_000,
        protocol::DEFAULT_SEARCH_LIMIT == 100 && protocol::MAX_SEARCH_LIMIT == 1_000,
        protocol::MAX_SEARCH_SCAN == 5_000_000 && crate::engine::scan::SCAN_PAGE == 1_000,
        crate::export::MAX_EXPORT_LINES == 500_000,
        crate::monitor::buffer::MAX_DISPLAY_LINES == 100_000 && crate::monitor::READ_BATCH == 500,
        crate::rest::jobs::JOBS_KEPT == 16,
        crate::cli::handlers::FOLLOW_BATCH == 500 && crate::cli::handlers::FOLLOW_TAIL == 20,
        crate::ipc::MAX_FRAME_BYTES == 8_388_608,
        crate::modem::MAX_RETRIES == 10 && crate::modem::zmodem::SUBPACKET_LEN == 1_024,
{
}

/// How long is waited, in milliseconds.
pub proof fn pauses_are_fixed()
    ensures
        crate::engine::reading::POLL_MS == 50 && crate::server::NOTIFY_INTERVAL_MS == 50,
        crate::cli::handlers::FOLLOW_INTERVAL_MS == 50,
        crate::engine::tool::ESP_REOPEN_DELAY_MS == 500,
        crate::standalone::LINK_POLL_INTERVAL_MS == 500,
        crate::ipc::DEFAULT_REQUEST_TIMEOUT_MS == 30_000 && crate::ipc::DAEMON_START_TIMEOUT_MS
            == 5_000 && crate::ipc::DAEMON_POLL_MS == 25,
        crate::rest::answers::STREAM_WAIT_MS == 5_000,
        serial_params::DEFAULT_BREAK_MS == 250,
        crate::modem::TIMEOUT_MS == 3_000,
        crate::modem::xmodem::START_POLL_MS == 500 && crate::modem::xmodem::START_DEADLINE_MS
            == 30_000 && crate::modem::xmodem::START_REPLY_MS == 1_000,
        crate::modem::ymodem::START_POLL_MS == 500 && crate::modem::ymodem::START_DEADLINE_MS
            == 30_000 && crate::modem::ymodem::START_REPLY_MS == 1_000
            && crate::modem::ymodem::CLOSE_MS == 500,
        crate::modem::zmodem::HEADER_DEADLINE_MS == 4_000
            && crate::modem::zmodem::FINISH_DEADLINE_MS == 2_000
            && crate::modem::zmodem::HEADER_POLL_MS == 200 && crate::modem::zmodem::CLOSING_MS
            == 200,
{
}

/// The speeds that are offered, and the forms in which times are written.
pub proof fn presets_are_fixed()
    ensures
        serial_params::DEFAULT_BAUD == 115_200,
        serial_params::BAUD_PRESETS@ =~= seq![
            9_600u32,
            19_200,
            38_400,
            57_600,
            115_200,
            230_400,
            460_800,
            921_600,
        ],
        crate::clock::RECORD_PATTERN@ == "%Y-%m-%dT%H:%M:%S%.9fZ"@,
        crate::clock::TIME_OF_DAY_PATTERN@ == "%H:%M:%S%.3f"@,
        crate::clock::FILE_NAME_PATTERN@ == "%Y%m%d_%H%M%S"@,
        crate::export::DISPLAY_ZONE_NOTE@ == "times local"@,
{
}

} // verus!
