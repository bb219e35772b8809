//! Configuration model and file discovery.
//!
//! Every setting declared here has exactly one consumer path. A field that is
//! not read anywhere does not belong in this file, because the documented
//! configuration is a promise to the user.
use vstd::prelude::*;
use vstd::string::*;

use crate::paths;
use crate::paths::Environment;
use crate::serial_params::{DataBits, FlowControl, Parity, StopBits, DEFAULT_BAUD};
use crate::table::Table;
use crate::text;
use crate::text::{concat2, concat3, decimal, same, sorted, to_lower, trim};

verus! {

// ---------------------------------------------------------------------------
// Ports
// ---------------------------------------------------------------------------

/// Per-port configuration.
#[derive(Debug, Clone, Copy, PartialEq, Eq, Structural)]
pub struct PortConfig {
    /// Baud rate.
    pub baudrate: u32,
    /// Data bits (5, 6, 7, 8).
    pub data_bits: DataBits,
    /// Parity.
    pub parity: Parity,
    /// Stop bits (1, 2).
    pub stop_bits: StopBits,
    /// Flow control.
    pub flow_control: FlowControl,
    /// Line delimiter byte.
    pub delimiter: u8,
    /// Enable auto-reconnect on disconnect.
    pub auto_reconnect: bool,
    /// Reconnect interval in milliseconds.
    pub reconnect_interval_ms: u64,
    /// Maximum reconnect backoff in milliseconds.
    pub reconnect_max_backoff_ms: u64,
    /// Maximum lines to keep in buffer (0 = unlimited).
    pub max_buffer_lines: u64,
}

/// The configuration of a port about which nothing is said.
pub open spec fn default_port() -> PortConfig {
    PortConfig {
        baudrate: DEFAULT_BAUD,
        data_bits: DataBits::Eight,
        parity: Parity::Off,
        stop_bits: StopBits::One,
        flow_control: FlowControl::Off,
        delimiter: 10,
        auto_reconnect: true,
        reconnect_interval_ms: 1000,
        reconnect_max_backoff_ms: 30_000,
        max_buffer_lines: 0,
    }
}

impl Default for PortConfig {
    fn default() -> (r: PortConfig)
        ensures
            r == default_port(),
    {
        PortConfig {
            baudrate: DEFAULT_BAUD,
            data_bits: DataBits::Eight,
            parity: Parity::Off,
            stop_bits: StopBits::One,
            flow_control: FlowControl::Off,
            delimiter: 10,
            auto_reconnect: true,
            reconnect_interval_ms: 1000,
            reconnect_max_backoff_ms: 30_000,
            max_buffer_lines: 0,
        }
    }
}

impl PortConfig {
    /// Compact framing summary, for example `115200 8N1 (RTS/CTS)`.
    pub open spec fn summary(self) -> Seq<char> {
        text::dec_nat(self.baudrate as nat) + " "@ + text::dec_nat(self.data_bits.value() as nat)
            + seq![self.parity.spec_letter()] + text::dec_nat(self.stop_bits.value() as nat)
            + self.flow_control.spec_suffix()
    }

    /// Compact framing summary, for example `115200 8N1 (RTS/CTS)`.
    pub fn framing_summary(&self) -> (r: String)
        ensures
            r@ == self.summary(),
    {
        let mut out = decimal(self.baudrate as u64);
        out.append(" ");
        out.append(self.data_bits.to_string().as_str());
        let ghost before = out@;
        out.push(self.parity.letter());
        assert(out@ =~= before + seq![self.parity.spec_letter()]);
        out.append(self.stop_bits.to_string().as_str());
        out.append(self.flow_control.summary_suffix());
        out
    }

    /// The textual form.
    pub fn to_string(&self) -> (r: String)
        ensures
            r@ == self.summary(),
    {
        self.framing_summary()
    }

    /// Maximum reconnect backoff, in milliseconds.
    pub fn reconnect_max_backoff(&self) -> (r: u64)
        ensures
            r == self.reconnect_max_backoff_ms,
    {
        self.reconnect_max_backoff_ms
    }
}

// ---------------------------------------------------------------------------
// Macros
// ---------------------------------------------------------------------------

/// A single step in a macro sequence.
#[derive(Debug, PartialEq, Eq)]
pub enum MacroStep {
    /// Write bytes to the port (hex string or UTF-8).
    Write { value: String },
    /// Set DTR line.
    Dtr { value: bool },
    /// Set RTS line.
    Rts { value: bool },
    /// Delay in milliseconds.
    Delay { ms: u64 },
}

impl Clone for MacroStep {
    fn clone(&self) -> (r: MacroStep)
        ensures
            r == *self,
    {
        match self {
            MacroStep::Write { value } => MacroStep::Write { value: value.clone() },
            MacroStep::Dtr { value } => MacroStep::Dtr { value: *value },
            MacroStep::Rts { value } => MacroStep::Rts { value: *value },
            MacroStep::Delay { ms } => MacroStep::Delay { ms: *ms },
        }
    }
}

/// A single step in a macro sequence, as a value of the model.
#[verifier::ext_equal]
pub enum StepView {
    Write { value: Seq<char> },
    Dtr { value: bool },
    Rts { value: bool },
    Delay { ms: u64 },
}

impl View for MacroStep {
    type V = StepView;

    open spec fn view(&self) -> StepView {
        match *self {
            MacroStep::Write { value } => StepView::Write { value: value@ },
            MacroStep::Dtr { value } => StepView::Dtr { value },
            MacroStep::Rts { value } => StepView::Rts { value },
            MacroStep::Delay { ms } => StepView::Delay { ms },
        }
    }
}

/// The steps of a macro, as values of the model.
pub open spec fn step_views(steps: Seq<MacroStep>) -> Seq<StepView> {
    steps.map_values(|s: MacroStep| s@)
}

/// A user-defined macro: a sequence of steps.
#[derive(Debug)]
pub struct MacroConfig {
    /// Human-readable description.
    pub description: String,
    /// Ordered steps to execute.
    pub steps: Vec<MacroStep>,
}

/// Names of the macros devserial ships with.
pub const BUILTIN_MACRO_NAMES: [&'static str; 3] = ["reset", "enter_bootloader", "break"];

/// The steps of a built-in macro.
pub open spec fn builtin_steps(name: Seq<char>) -> Option<Seq<StepView>> {
    if name == "reset"@ {
        Some(
            seq![
                StepView::Dtr { value: false },
                StepView::Delay { ms: 100 },
                StepView::Dtr { value: true },
            ],
        )
    } else if name == "enter_bootloader"@ {
        Some(
            seq![
                StepView::Rts { value: true },
                StepView::Dtr { value: false },
                StepView::Delay { ms: 50 },
                StepView::Dtr { value: true },
                StepView::Delay { ms: 50 },
                StepView::Rts { value: false },
            ],
        )
    } else if name == "break"@ {
        Some(seq![StepView::Write { value: "0x00"@ }])
    } else {
        None
    }
}

/// The steps of a macro that every port has.
pub open spec fn is_builtin(name: &str, r: Option<Vec<MacroStep>>) -> bool {
    match r {
        Some(steps) => builtin_steps(name@) == Some(step_views(steps@)),
        None => builtin_steps(name@) is None,
    }
}

/// Steps of a built-in macro.
///
/// This is the only definition of the built-in sequences. Every transport and
/// the GUI resolve macros through [`Config::macro_steps`].
pub fn builtin_macro(name: &str) -> (r: Option<Vec<MacroStep>>)
    ensures
        is_builtin(name, r),
{
    if same(name, "reset") {
        let steps = vec![
            MacroStep::Dtr { value: false },
            MacroStep::Delay { ms: 100 },
            MacroStep::Dtr { value: true },
        ];
        assert(step_views(steps@) =~= builtin_steps(name@)->0);
        Some(steps)
    } else if same(name, "enter_bootloader") {
        let steps = vec![
            MacroStep::Rts { value: true },
            MacroStep::Dtr { value: false },
            MacroStep::Delay { ms: 50 },
            MacroStep::Dtr { value: true },
            MacroStep::Delay { ms: 50 },
            MacroStep::Rts { value: false },
        ];
        assert(step_views(steps@) =~= builtin_steps(name@)->0);
        Some(steps)
    } else if same(name, "break") {
        let steps = vec![MacroStep::Write { value: "0x00".to_owned() }];
        assert(step_views(steps@) =~= builtin_steps(name@)->0);
        Some(steps)
    } else {
        None
    }
}

// ---------------------------------------------------------------------------
// Configuration
// ---------------------------------------------------------------------------

/// Global server settings.
#[derive(Debug, Clone, PartialEq, Eq)]
pub struct GlobalConfig {
    /// Directory for database files.
    pub data_dir: String,
    /// Directory for archived databases.
    pub archive_dir: String,
    /// Interval after which a partial batch of captured lines is written.
    pub flush_interval_ms: u64,
    /// Number of captured lines that forces an immediate write.
    pub flush_batch_size: usize,
    /// Log level (trace, debug, info, warn, error).
    pub log_level: String,
}

/// Whether a text names a log level.
pub open spec fn is_log_level(s: Seq<char>) -> bool {
    s == "trace"@ || s == "debug"@ || s == "info"@ || s == "warn"@ || s == "error"@ || s == "off"@
}

impl GlobalConfig {
    /// What holds where nothing is configured.
    pub open spec fn is_default(env: &Environment, r: GlobalConfig) -> bool {
        &&& r.data_dir@ == env.spec_data_dir()
        &&& r.archive_dir@ == env.spec_archive_dir()
        &&& r.flush_interval_ms == 100
        &&& r.flush_batch_size == 1000
        &&& r.log_level@ == "info"@
    }

    /// The default settings, as the environment gives them.
    pub fn default(env: &Environment) -> (r: GlobalConfig)
        ensures
            Self::is_default(env, r),
    {
        GlobalConfig {
            data_dir: paths::default_data_dir(env),
            archive_dir: paths::default_archive_dir(env),
            flush_interval_ms: 100,
            flush_batch_size: 1000,
            log_level: "info".to_owned(),
        }
    }

    /// The level that is logged at, and what is said of an unknown one.
    pub open spec fn directs(self, r: (String, Option<String>)) -> bool {
        ({
            let level = text::lower(text::trimmed(self.log_level@));
            if is_log_level(level) {
                r.0@ == level && r.1 is None
            } else {
                &&& r.0@ == "info"@
                &&& r.1 matches Some(w)
                &&& w@ == "devserial: unknown log_level '"@ + level + "', using 'info'"@
            }
        })
    }

    /// Tracing filter directive derived from [`Self::log_level`].
    ///
    /// An unparseable level falls back to `info`, because a typo in the log
    /// level must not prevent the daemon from starting. The second part of the
    /// result is the warning that is due then.
    pub fn log_directive(&self) -> (r: (String, Option<String>))
        ensures
            self.directs(r),
    {
        let level = to_lower(trim(self.log_level.as_str()).as_str());
        let t = level.as_str();
        if same(t, "trace") || same(t, "debug") || same(t, "info") || same(t, "warn") || same(
            t,
            "error",
        ) || same(t, "off") {
            (level, None)
        } else {
            let warning = concat3("devserial: unknown log_level '", t, "', using 'info'");
            ("info".to_owned(), Some(warning))
        }
    }

    /// Flush interval, in milliseconds.
    pub fn flush_interval(&self) -> (r: u64)
        ensures
            r == self.flush_interval_ms,
    {
        self.flush_interval_ms
    }
}

/// Top-level configuration.
#[derive(Debug)]
pub struct Config {
    /// Global settings.
    pub global: GlobalConfig,
    /// Per-port configurations keyed by port path.
    pub ports: Table<PortConfig>,
    /// User-defined macros keyed by name.
    pub macros: Table<MacroConfig>,
}

/// Clone the steps of a macro.
fn clone_steps(steps: &Vec<MacroStep>) -> (r: Vec<MacroStep>)
    ensures
        step_views(r@) == step_views(steps@),
{
    let r = steps.clone();
    assert(step_views(r@) =~= step_views(steps@));
    r
}

impl Config {
    /// What holds where nothing is configured.
    pub open spec fn is_default(env: &Environment, r: Config) -> bool {
        &&& r.global.data_dir@ == env.spec_data_dir()
        &&& r.global.archive_dir@ == env.spec_archive_dir()
        &&& r.global.flush_interval_ms == 100
        &&& r.global.flush_batch_size == 1000
        &&& r.global.log_level@ == "info"@
        &&& r.ports@ == Map::<Seq<char>, PortConfig>::empty()
        &&& r.macros@ == Map::<Seq<char>, MacroConfig>::empty()
    }

    /// The configuration of a system on which nothing is configured.
    pub fn default(env: &Environment) -> (r: Config)
        ensures
            Self::is_default(env, r),
    {
        Config { global: GlobalConfig::default(env), ports: Table::new(), macros: Table::new() }
    }

    /// The configuration that applies to a port.
    pub open spec fn spec_port(self, name: Seq<char>) -> PortConfig {
        if self.ports@.contains_key(name) {
            self.ports@[name]
        } else {
            default_port()
        }
    }

    /// Port configuration for a port, falling back to the defaults.
    pub fn port(&self, name: &str) -> (r: PortConfig)
        ensures
            r == self.spec_port(name@),
    {
        match self.ports.get(name) {
            Some(c) => *c,
            None => PortConfig::default(),
        }
    }

    /// The steps of a macro, whether user defined or built in.
    pub open spec fn spec_steps(self, name: Seq<char>) -> Option<Seq<StepView>> {
        if self.macros@.contains_key(name) {
            Some(step_views(self.macros@[name].steps@))
        } else {
            builtin_steps(name)
        }
    }

    /// The steps of a macro.
    pub open spec fn gives_steps(self, name: &str, r: Option<Vec<MacroStep>>) -> bool {
        match r {
            Some(steps) => self.spec_steps(name@) == Some(step_views(steps@)),
            None => self.spec_steps(name@) is None,
        }
    }

    /// Steps of a macro, whether user defined or built in.
    ///
    /// User definitions take precedence, so a configuration file can override a
    /// built-in macro for a specific setup.
    pub fn macro_steps(&self, name: &str) -> (r: Option<Vec<MacroStep>>)
        ensures
            self.gives_steps(name, r),
    {
        match self.macros.get(name) {
            Some(m) => Some(clone_steps(&m.steps)),
            None => builtin_macro(name),
        }
    }

    /// Whether a list holds all macro names that can be executed: those of the
    /// user in order, then the built-in ones that the user did not override.
    pub open spec fn lists_macros(self, v: Seq<String>) -> bool {
        let n = self.macros.names().len() as int;
        &&& n <= v.len()
        &&& text::in_order(v.take(n))
        &&& text::texts(v.take(n)).to_multiset() == self.macros.names().to_multiset()
        &&& text::texts(v.skip(n)) == self.spec_builtins_left()
    }

    /// All macro names that can be executed, user defined first.
    ///
    /// The user-defined names come in order; behind them come those built-in
    /// names that no user definition overrides.
    pub fn available_macros(&self) -> (r: Vec<String>)
        ensures
            self.lists_macros(r@),
            text::texts(r@).no_duplicates(),
            forall|name: Seq<char>|
                text::texts(r@).contains(name) <==> #[trigger] self.spec_steps(name) is Some,
    {
        let keys = self.macros.keys();
        let mut names = sorted(keys);
        let ghost users = names@;
        proof {
            lemma_texts_multiset(users, keys@);
        }
        let ghost n = users.len() as int;
        assert(users =~= names@.take(n));
        assert(text::texts(names@.skip(n)) =~= Seq::<Seq<char>>::empty());
        if !self.macros.contains_key("reset") {
            names.push("reset".to_owned());
        }
        if !self.macros.contains_key("enter_bootloader") {
            names.push("enter_bootloader".to_owned());
        }
        if !self.macros.contains_key("break") {
            names.push("break".to_owned());
        }
        proof {
            assert(names@.take(n) =~= users);
            assert(text::texts(names@.skip(n)) =~= self.spec_builtins_left());
            offered_macros_have_steps(*self, names@);
        }
        names
    }

    /// The built-in names that no user definition overrides.
    pub open spec fn spec_builtins_left(self) -> Seq<Seq<char>> {
        (if self.macros@.contains_key("reset"@) {
            seq![]
        } else {
            seq!["reset"@]
        }) + (if self.macros@.contains_key("enter_bootloader"@) {
            seq![]
        } else {
            seq!["enter_bootloader"@]
        }) + (if self.macros@.contains_key("break"@) {
            seq![]
        } else {
            seq!["break"@]
        })
    }
}

/// A macro is offered exactly where it has steps, and none is offered twice.
pub proof fn offered_macros_have_steps(config: Config, offered: Seq<String>)
    requires
        config.macros.names().no_duplicates(),
        forall|k: Seq<char>|
            config.macros.names().contains(k) <==> #[trigger] config.macros@.contains_key(k),
        config.lists_macros(offered),
    ensures
        text::texts(offered).no_duplicates(),
        forall|name: Seq<char>|
            text::texts(offered).contains(name) <==> #[trigger] config.spec_steps(name) is Some,
{
    reveal_strlit("reset");
    reveal_strlit("enter_bootloader");
    reveal_strlit("break");
    let n = config.macros.names().len() as int;
    let all = text::texts(offered);
    let users = text::texts(offered.take(n));
    let rest = config.spec_builtins_left();
    assert(all =~= users + rest) by {
        assert(offered =~= offered.take(n) + offered.skip(n));
        assert(text::texts(offered) =~= text::texts(offered.take(n)) + text::texts(
            offered.skip(n),
        ));
    }
    config.macros.names().lemma_multiset_has_no_duplicates();
    users.lemma_multiset_has_no_duplicates_conv();
    config.macros.names().to_multiset_ensures();
    users.to_multiset_ensures();
    assert forall|k: Seq<char>| #[trigger] users.contains(k) == config.macros@.contains_key(k) by {
        assert(users.to_multiset().count(k) == config.macros.names().to_multiset().count(k));
        assert(config.macros.names().contains(k) == config.macros@.contains_key(k));
    }
    let a = "reset"@;
    let b = "enter_bootloader"@;
    let c = "break"@;
    assert(a.len() == 5 && b.len() == 16 && c.len() == 5 && a[0] == 'r' && c[0] == 'b');
    let left = |k: Seq<char>| (k == a || k == b || k == c) && !config.macros@.contains_key(k);
    assert forall|k: Seq<char>| #[trigger] rest.contains(k) == left(k) by {
        let p = if config.macros@.contains_key(a) {
            0int
        } else {
            1int
        };
        let q = p + if config.macros@.contains_key(b) {
            0int
        } else {
            1int
        };
        if left(k) {
            if k == a {
                assert(rest[0] == a);
            } else if k == b {
                assert(rest[p] == b);
            } else {
                assert(rest[q] == c);
            }
        }
    }
    assert(all.no_duplicates()) by {
        assert forall|i: int, j: int|
            0 <= i < all.len() && 0 <= j < all.len() && i != j implies all[i] != all[j] by {
            if i < n && j < n {
                assert(users[i] != users[j]);
            } else if i >= n && j >= n {
                assert(rest[i - n] != rest[j - n]);
            } else {
                let (u, v) = if i < n {
                    (i, j)
                } else {
                    (j, i)
                };
                assert(users.contains(users[u]));
                assert(rest.contains(rest[v - n]));
            }
        }
    }
    assert forall|name: Seq<char>| all.contains(name) <==> #[trigger] config.spec_steps(
        name,
    ) is Some by {
        if all.contains(name) {
            let i = all.index_of(name);
            if i < n {
                assert(users.contains(users[i]));
            } else {
                assert(rest.contains(rest[i - n]));
            }
        }
        if users.contains(name) {
            let i = users.index_of(name);
            assert(all[i] == name);
        }
        if rest.contains(name) {
            let i = rest.index_of(name);
            assert(all[n + i] == name);
        }
    }
}

/// Lists with the same texts, in whatever order, have the same characters.
proof fn lemma_texts_multiset(a: Seq<String>, b: Seq<String>)
    requires
        a.to_multiset() == b.to_multiset(),
        a.len() == b.len(),
    ensures
        text::texts(a).to_multiset() == text::texts(b).to_multiset(),
    decreases a.len(),
{
    if a.len() == 0 {
        assert(text::texts(a) =~= text::texts(b));
    } else {
        let x = a.last();
        let head = a.drop_last();
        a.to_multiset_ensures();
        b.to_multiset_ensures();
        assert(a =~= head.push(x));
        head.to_multiset_ensures();
        assert(a.to_multiset() == head.to_multiset().insert(x));
        assert(b.to_multiset().count(x) > 0);
        assert(b.contains(x));
        let k = choose|k: int| 0 <= k < b.len() && b[k] == x;
        let rest = b.remove(k);
        vstd::seq_lib::to_multiset_remove(b, k);
        assert(rest.to_multiset() =~= head.to_multiset());
        lemma_texts_multiset(head, rest);
        assert(text::texts(a) =~= text::texts(head).push(x@));
        text::texts(head).to_multiset_ensures();
        text::texts(b).to_multiset_ensures();
        assert(text::texts(rest) =~= text::texts(b).remove(k));
        vstd::seq_lib::to_multiset_remove(text::texts(b), k);
        text::texts(rest).to_multiset_ensures();
        assert(text::texts(b).to_multiset() =~= text::texts(rest).to_multiset().insert(x@));
    }
}

// ---------------------------------------------------------------------------
// Discovery
// ---------------------------------------------------------------------------

/// Configuration loading errors.
#[derive(Debug, Clone, PartialEq, Eq)]
pub enum ConfigError {
    /// A file that was asked for does not exist.
    Missing(String),
    /// A file could not be read, and why.
    Io(String, String),
    /// A file could not be parsed, and why.
    Parse(String, String),
}

impl ConfigError {
    /// The message of the error.
    pub open spec fn message(self) -> Seq<char> {
        match self {
            ConfigError::Missing(p) => "configuration file not found: "@ + p@,
            ConfigError::Io(p, e) => "failed to read config file "@ + p@ + ": "@ + e@,
            ConfigError::Parse(p, e) => "failed to parse config file "@ + p@ + ": "@ + e@,
        }
    }

    /// The message of the error.
    pub fn to_string(&self) -> (r: String)
        ensures
            r@ == self.message(),
    {
        match self {
            ConfigError::Missing(p) => concat2("configuration file not found: ", p.as_str()),
            ConfigError::Io(p, e) => {
                let mut out = concat3("failed to read config file ", p.as_str(), ": ");
                out.append(e.as_str());
                out
            },
            ConfigError::Parse(p, e) => {
                let mut out = concat3("failed to parse config file ", p.as_str(), ": ");
                out.append(e.as_str());
                out
            },
        }
    }
}

/// The files that are looked for when none is asked for, in order.
pub open spec fn candidate_files(env: Environment) -> Seq<Seq<char>> {
    match env.spec_config_dir() {
        Some(d) => seq![
            "./devserial.toml"@,
            paths::joined_on(env.platform, d, "config.toml"@),
        ],
        None => seq!["./devserial.toml"@],
    }
}

/// The file that was asked for, if one was: on the command line, or by the
/// environment.
pub open spec fn requested_file(explicit: Option<&str>, env: Environment) -> Option<Seq<char>> {
    match explicit {
        Some(p) => Some(p@),
        None => paths::set_value(env.config),
    }
}

/// The first of some files that exists.
pub open spec fn first_existing(files: Seq<Seq<char>>, existing: Seq<Seq<char>>) -> Option<
    Seq<char>,
>
    decreases files.len(),
{
    if files.len() == 0 {
        None
    } else if existing.contains(files[0]) {
        Some(files[0])
    } else {
        first_existing(files.skip(1), existing)
    }
}

/// The files that may hold the configuration, the first one first.
pub open spec fn are_candidates(explicit: Option<&str>, env: &Environment, r: Vec<String>) -> bool {
    text::texts(r@) == match requested_file(explicit, *env) {
        Some(p) => seq![p],
        None => candidate_files(*env),
    }
}

/// The files whose existence decides what is loaded.
pub fn config_candidates(explicit: Option<&str>, env: &Environment) -> (r: Vec<String>)
    ensures
        are_candidates(explicit, env, r),
{
    let mut out: Vec<String> = Vec::new();
    if let Some(p) = explicit {
        out.push(p.to_owned());
        assert(text::texts(out@) =~= seq![p@]);
        return out;
    }
    if let Some(p) = paths::config_override(env) {
        out.push(p);
        assert(text::texts(out@) =~= seq![p@]);
        return out;
    }
    out.push("./devserial.toml".to_owned());
    if let Some(dir) = paths::config_dir(env) {
        out.push(paths::join_on(env.platform, dir.as_str(), "config.toml"));
    }
    assert(text::texts(out@) =~= candidate_files(*env));
    out
}

fn is_among(path: &str, existing: &Vec<String>) -> (r: bool)
    ensures
        r == text::texts(existing@).contains(path@),
{
    let mut i: usize = 0;
    while i < existing.len()
        invariant
            i <= existing.len(),
            forall|j: int| 0 <= j < i ==> (#[trigger] existing@[j])@ != path@,
        decreases existing.len() - i,
    {
        if same(existing[i].as_str(), path) {
            assert(text::texts(existing@)[i as int] == path@);
            return true;
        }
        i = i + 1;
    }
    proof {
        if text::texts(existing@).contains(path@) {
            let k = choose|k: int|
                0 <= k < text::texts(existing@).len() && text::texts(existing@)[k] == path@;
            assert(existing@[k]@ == path@);
        }
    }
    false
}

/// The file that holds the configuration.
pub open spec fn loads(
    explicit: Option<&str>,
    env: &Environment,
    existing: &Vec<String>,
    r: Result<Option<String>, ConfigError>,
) -> bool {
    match requested_file(explicit, *env) {
        Some(p) => if text::texts(existing@).contains(p) {
            r matches Ok(Some(f)) && f@ == p
        } else {
            r matches Err(ConfigError::Missing(f)) && f@ == p
        },
        None => match first_existing(candidate_files(*env), text::texts(existing@)) {
            Some(p) => r matches Ok(Some(f)) && f@ == p,
            None => r == Ok::<Option<String>, ConfigError>(None),
        },
    }
}

/// Decide which configuration file is loaded, given those of
/// [`config_candidates`] that exist.
///
/// A file that was asked for must exist. Otherwise the first existing candidate
/// is taken, and where there is none the defaults apply.
pub fn load_config(
    explicit: Option<&str>,
    env: &Environment,
    existing: &Vec<String>,
) -> (r: Result<Option<String>, ConfigError>)
    ensures
        loads(explicit, env, existing, r),
{
    let files = config_candidates(explicit, env);
    let ghost all = text::texts(files@);
    let required = match explicit {
        Some(_) => true,
        None => paths::config_override(env).is_some(),
    };
    if required {
        let p = files[0].clone();
        assert(p@ == all[0]);
        if is_among(p.as_str(), existing) {
            return Ok(Some(p));
        }
        return Err(ConfigError::Missing(p));
    }
    let mut i: usize = 0;
    assert(all.skip(0) =~= all);
    while i < files.len()
        invariant
            i <= files.len(),
            all == text::texts(files@),
            all == candidate_files(*env),
            requested_file(explicit, *env) is None,
            first_existing(all, text::texts(existing@)) == first_existing(
                all.skip(i as int),
                text::texts(existing@),
            ),
        decreases files.len() - i,
    {
        assert(all[i as int] == files@[i as int]@);
        assert(all.skip(i as int)[0] == all[i as int]);
        if is_among(files[i].as_str(), existing) {
            return Ok(Some(files[i].clone()));
        }
        assert(all.skip(i as int).skip(1) =~= all.skip(i + 1));
        i = i + 1;
    }
    Ok(None)
}

// ---------------------------------------------------------------------------
// What the configuration keeps
// ---------------------------------------------------------------------------

/// A user definition overrides the built-in macro of the same name, and that
/// name is then not offered a second time.
pub proof fn user_macro_overrides_builtin(config: Config, name: Seq<char>)
    requires
        config.macros@.contains_key(name),
    ensures
        config.spec_steps(name) == Some(step_views(config.macros@[name].steps@)),
        !config.spec_builtins_left().contains(name),
{
    reveal_strlit("reset");
    reveal_strlit("enter_bootloader");
    reveal_strlit("break");
}

/// Every name among the built-in macros resolves to steps, in every
/// configuration.
pub proof fn builtin_macros_always_resolve(config: Config, name: Seq<char>)
    requires
        name == "reset"@ || name == "enter_bootloader"@ || name == "break"@,
    ensures
        config.spec_steps(name) is Some,
        config.macros@.contains_key(name) || config.spec_builtins_left().contains(name),
{
    let left = config.spec_builtins_left();
    if !config.macros@.contains_key(name) {
        reveal_strlit("reset");
        reveal_strlit("enter_bootloader");
        reveal_strlit("break");
        let a = if config.macros@.contains_key("reset"@) {
            0int
        } else {
            1int
        };
        let b = if config.macros@.contains_key("enter_bootloader"@) {
            a
        } else {
            a + 1
        };
        if name == "reset"@ {
            assert(left[0] == name);
        } else if name == "enter_bootloader"@ {
            assert(left[a] == name);
        } else {
            assert(left[b] == name);
        }
    }
}

} // verus!
