//! The table of open serial ports.
//!
//! The table holds what decides how a command is answered: which ports are
//! managed, with which settings, and whether there is hardware behind them. The
//! handles themselves (the reader task, the store, the device) are held by the
//! task that carries the steps out, under the same names.
use vstd::prelude::*;
use vstd::string::*;

use crate::config::PortConfig;
use crate::paths;
use crate::paths::port_db_path;
use crate::reader::ConnectionState;
use crate::table::Table;
use crate::text;
use crate::text::{chars_of, concat2, concat3, contains, same, slice_of, stands_before, starts_with,
    to_lower};

verus! {

/// A managed port.
#[derive(Debug, Clone, Copy, PartialEq, Eq, Structural)]
pub struct ManagedPort {
    /// The settings the port is open with.
    pub config: PortConfig,
    /// Whether there is a device behind it; a port fed from any other source
    /// can be read but not written or signalled.
    pub hardware: bool,
}

/// A managed port as `list` reports it.
#[derive(Debug, PartialEq, Eq)]
pub struct PortInfo {
    pub name: String,
    pub state: ConnectionState,
    pub total_lines: u64,
}

impl Clone for PortInfo {
    fn clone(&self) -> (r: PortInfo)
        ensures
            r == *self,
    {
        PortInfo { name: self.name.clone(), state: self.state, total_lines: self.total_lines }
    }
}

/// Errors from the port manager.
#[derive(Debug, PartialEq, Eq)]
pub enum PortManagerError {
    NotFound(String),
    AlreadyManaged(String),
    Serial(String),
    NoHardware(String),
    Unavailable,
    Storage(String),
}

impl PortManagerError {
    /// The message of the error.
    pub open spec fn message(self) -> Seq<char> {
        match self {
            PortManagerError::NotFound(p) => "port '"@ + p@ + "' not found"@,
            PortManagerError::AlreadyManaged(p) => "port '"@ + p@ + "' already managed"@,
            PortManagerError::Serial(e) => "serial port error: "@ + e@,
            PortManagerError::NoHardware(p) => "port '"@ + p@
                + "' has no hardware handle (mock port)"@,
            PortManagerError::Unavailable => "port manager is not running"@,
            PortManagerError::Storage(e) => "storage error: "@ + e@,
        }
    }

    /// The message of the error.
    pub fn to_string(&self) -> (r: String)
        ensures
            r@ == self.message(),
    {
        match self {
            PortManagerError::NotFound(p) => concat3("port '", p.as_str(), "' not found"),
            PortManagerError::AlreadyManaged(p) => concat3(
                "port '",
                p.as_str(),
                "' already managed",
            ),
            PortManagerError::Serial(e) => concat2("serial port error: ", e.as_str()),
            PortManagerError::NoHardware(p) => concat3(
                "port '",
                p.as_str(),
                "' has no hardware handle (mock port)",
            ),
            PortManagerError::Unavailable => "port manager is not running".to_owned(),
            PortManagerError::Storage(e) => concat2("storage error: ", e.as_str()),
        }
    }
}

impl Clone for PortManagerError {
    fn clone(&self) -> (r: PortManagerError)
        ensures
            r == *self,
    {
        match self {
            PortManagerError::NotFound(p) => PortManagerError::NotFound(p.clone()),
            PortManagerError::AlreadyManaged(p) => PortManagerError::AlreadyManaged(p.clone()),
            PortManagerError::Serial(e) => PortManagerError::Serial(e.clone()),
            PortManagerError::NoHardware(p) => PortManagerError::NoHardware(p.clone()),
            PortManagerError::Unavailable => PortManagerError::Unavailable,
            PortManagerError::Storage(e) => PortManagerError::Storage(e.clone()),
        }
    }
}

// ---------------------------------------------------------------------------
// Commands
// ---------------------------------------------------------------------------

/// A command to the owner of the port table.
#[derive(Debug, PartialEq, Eq)]
pub enum PortCommand {
    /// Open a device and store its lines under the data directory.
    OpenReal { name: String, config: PortConfig, data_dir: String },
    /// Manage a port fed from another source.
    OpenMock { name: String, config: PortConfig },
    Close { name: String },
    CloseWithConfig { name: String },
    List,
    GetState { name: String },
    GetConfig { name: String },
    GetStorage { name: String },
    GetSerialPort { name: String },
    Write { name: String, data: Vec<u8> },
    Reconfigure { name: String, config: PortConfig },
}

/// What is to be done next for a command.
#[derive(Debug, PartialEq, Eq)]
pub enum PortStep {
    /// Answer with this error.
    Refuse(PortManagerError),
    /// Open the device with the settings of the command, then go on with
    /// `serial_opened`.
    OpenSerial,
    /// The port is in the table: start its reader, then answer that it is done.
    StartReader,
    /// The port has left the table: stop its reader, then answer that it is
    /// done, with the settings that the port had where the command asks for
    /// them.
    StopReader(PortConfig),
    /// Ask every port of the table for its state and number of lines, then
    /// answer with them in the order of `sort_infos`.
    Collect(Vec<String>),
    /// Answer with the state of the port's reader.
    ReadState,
    /// Answer with these settings.
    Config(PortConfig),
    /// Answer with the port's store.
    HandStorage,
    /// Answer with the port's device.
    HandSerialPort,
    /// Write the bytes of the command to the device, then answer with `written`.
    WriteBytes,
    /// Apply the settings of the command to the device, then answer with
    /// `reconfigured`.
    ApplySettings,
}

impl PortCommand {
    /// The port that the command is about.
    pub open spec fn subject(self) -> Seq<char> {
        match self {
            PortCommand::OpenReal { name, .. } => name@,
            PortCommand::OpenMock { name, .. } => name@,
            PortCommand::Close { name } => name@,
            PortCommand::CloseWithConfig { name } => name@,
            PortCommand::List => Seq::empty(),
            PortCommand::GetState { name } => name@,
            PortCommand::GetConfig { name } => name@,
            PortCommand::GetStorage { name } => name@,
            PortCommand::GetSerialPort { name } => name@,
            PortCommand::Write { name, .. } => name@,
            PortCommand::Reconfigure { name, .. } => name@,
        }
    }

    /// Whether the command brings a port into the table.
    pub open spec fn opens(self) -> bool {
        self is OpenReal || self is OpenMock
    }

    /// Whether the command takes a port out of the table.
    pub open spec fn closes(self) -> bool {
        self is Close || self is CloseWithConfig
    }

    /// Whether the command needs the device behind a port.
    pub open spec fn needs_hardware(self) -> bool {
        self is GetSerialPort || self is Write || self is Reconfigure
    }
}

/// Whether a command is refused, and why.
pub open spec fn refusal(ports: Map<Seq<char>, ManagedPort>, cmd: PortCommand) -> Option<
    Seq<char>,
> {
    let name = cmd.subject();
    if cmd is List {
        None
    } else if cmd.opens() {
        if ports.contains_key(name) {
            Some("port '"@ + name + "' already managed"@)
        } else {
            None
        }
    } else if !ports.contains_key(name) {
        Some("port '"@ + name + "' not found"@)
    } else if cmd.needs_hardware() && !ports[name].hardware {
        Some("port '"@ + name + "' has no hardware handle (mock port)"@)
    } else {
        None
    }
}

/// The kind of error with which a command is refused.
pub open spec fn refused_with(
    ports: Map<Seq<char>, ManagedPort>,
    cmd: PortCommand,
    e: PortManagerError,
) -> bool {
    &&& refusal(ports, cmd) == Some(e.message())
    &&& match e {
        PortManagerError::AlreadyManaged(p) => cmd.opens() && p@ == cmd.subject(),
        PortManagerError::NotFound(p) => !cmd.opens() && !ports.contains_key(cmd.subject()) && p@
            == cmd.subject(),
        PortManagerError::NoHardware(p) => cmd.needs_hardware() && p@ == cmd.subject(),
        _ => false,
    }
}

/// The port table after the first step of a command.
pub open spec fn table_after(ports: Map<Seq<char>, ManagedPort>, cmd: PortCommand) -> Map<
    Seq<char>,
    ManagedPort,
> {
    if refusal(ports, cmd) is Some {
        ports
    } else {
        match cmd {
            PortCommand::OpenMock { name, config } => ports.insert(
                name@,
                ManagedPort { config, hardware: false },
            ),
            PortCommand::Close { name } => ports.remove(name@),
            PortCommand::CloseWithConfig { name } => ports.remove(name@),
            _ => ports,
        }
    }
}

/// The port table once a device and its store are open.
pub open spec fn opened_table(
    ports: Map<Seq<char>, ManagedPort>,
    name: Seq<char>,
    config: PortConfig,
) -> Map<Seq<char>, ManagedPort> {
    ports.insert(name, ManagedPort { config, hardware: true })
}

/// The port table once a device has taken new settings.
pub open spec fn reconfigured_table(
    ports: Map<Seq<char>, ManagedPort>,
    name: Seq<char>,
    config: PortConfig,
) -> Map<Seq<char>, ManagedPort> {
    ports.insert(name, ManagedPort { config, hardware: ports[name].hardware })
}

/// The port table after all steps of a command. Where there is a device to open
/// or to set, `done` says whether that went well, the store included.
pub open spec fn table_settled(
    ports: Map<Seq<char>, ManagedPort>,
    cmd: PortCommand,
    done: bool,
) -> Map<Seq<char>, ManagedPort> {
    if refusal(ports, cmd) is None && done {
        match cmd {
            PortCommand::OpenReal { name, config, .. } => opened_table(ports, name@, config),
            PortCommand::Reconfigure { name, config } => reconfigured_table(ports, name@, config),
            _ => table_after(ports, cmd),
        }
    } else {
        table_after(ports, cmd)
    }
}

/// Whether a command is answered without an error.
pub open spec fn accepted(
    ports: Map<Seq<char>, ManagedPort>,
    cmd: PortCommand,
    done: bool,
) -> bool {
    &&& refusal(ports, cmd) is None
    &&& cmd is OpenReal || cmd is Write || cmd is Reconfigure ==> done
}

/// Whether every port of a table is named once, and nothing else is.
pub open spec fn names_the_ports(
    names: Seq<Seq<char>>,
    ports: Map<Seq<char>, ManagedPort>,
) -> bool {
    &&& names.no_duplicates()
    &&& forall|k: Seq<char>| names.contains(k) <==> #[trigger] ports.contains_key(k)
}

fn require_port<'a>(ports: &'a Table<ManagedPort>, name: &str) -> (r: Result<
    &'a ManagedPort,
    PortManagerError,
>)
    ensures
        match r {
            Ok(p) => ports@.contains_key(name@) && *p == ports@[name@],
            Err(PortManagerError::NotFound(n)) => !ports@.contains_key(name@) && n@ == name@,
            Err(_) => false,
        },
{
    match ports.get(name) {
        Some(p) => Ok(p),
        None => Err(PortManagerError::NotFound(name.to_owned())),
    }
}

fn require_hardware<'a>(ports: &'a Table<ManagedPort>, name: &str, step: PortStep) -> (r: PortStep)
    requires
        !(step is Refuse),
    ensures
        match r {
            PortStep::Refuse(PortManagerError::NotFound(n)) => !ports@.contains_key(name@) && n@
                == name@,
            PortStep::Refuse(PortManagerError::NoHardware(n)) => ports@.contains_key(name@)
                && !ports@[name@].hardware && n@ == name@,
            PortStep::Refuse(_) => false,
            _ => r == step && ports@.contains_key(name@) && ports@[name@].hardware,
        },
{
    match require_port(ports, name) {
        Ok(p) => if p.hardware {
            step
        } else {
            PortStep::Refuse(PortManagerError::NoHardware(name.to_owned()))
        },
        Err(e) => PortStep::Refuse(e),
    }
}

fn take_port(ports: &mut Table<ManagedPort>, name: &str) -> (r: PortStep)
    ensures
        final(ports)@ == (if old(ports)@.contains_key(name@) {
            old(ports)@.remove(name@)
        } else {
            old(ports)@
        }),
        match r {
            PortStep::StopReader(c) => old(ports)@.contains_key(name@) && c
                == old(ports)@[name@].config,
            PortStep::Refuse(PortManagerError::NotFound(n)) => !old(ports)@.contains_key(name@)
                && n@ == name@,
            _ => false,
        },
{
    let ghost before = ports@;
    match ports.remove(name) {
        Some(p) => PortStep::StopReader(p.config),
        None => {
            assert(before.remove(name@) =~= before);
            PortStep::Refuse(PortManagerError::NotFound(name.to_owned()))
        },
    }
}

/// What is to be done next for a command, given the ports of the table and their
/// names.
pub open spec fn is_next(
    ports: Map<Seq<char>, ManagedPort>,
    listed: Seq<Seq<char>>,
    cmd: PortCommand,
    r: PortStep,
) -> bool {
    &&& match r {
        PortStep::Refuse(e) => refused_with(ports, cmd, e),
        _ => refusal(ports, cmd) is None,
    }
    &&& refusal(ports, cmd) is None ==> match cmd {
        PortCommand::OpenReal { .. } => r is OpenSerial,
        PortCommand::OpenMock { .. } => r is StartReader,
        PortCommand::Close { name } => r == PortStep::StopReader(ports[name@].config),
        PortCommand::CloseWithConfig { name } => r == PortStep::StopReader(
            ports[name@].config,
        ),
        PortCommand::List => {
            &&& r matches PortStep::Collect(names)
            &&& text::texts(names@) == listed
            &&& names_the_ports(text::texts(names@), ports)
        },
        PortCommand::GetState { .. } => r is ReadState,
        PortCommand::GetConfig { name } => r == PortStep::Config(ports[name@].config),
        PortCommand::GetStorage { .. } => r is HandStorage,
        PortCommand::GetSerialPort { .. } => r is HandSerialPort,
        PortCommand::Write { .. } => r is WriteBytes,
        PortCommand::Reconfigure { .. } => r is ApplySettings,
    }
}

/// Carry out one command against the port table, as far as the table decides
/// it, and say what is left to do.
pub fn handle_command(ports: &mut Table<ManagedPort>, cmd: &PortCommand) -> (r: PortStep)
    ensures
        final(ports)@ == table_after(old(ports)@, *cmd),
        is_next(old(ports)@, old(ports).names(), *cmd, r),
{
    match cmd {
        PortCommand::OpenReal { name, .. } => if ports.contains_key(name.as_str()) {
            PortStep::Refuse(PortManagerError::AlreadyManaged(name.clone()))
        } else {
            PortStep::OpenSerial
        },
        PortCommand::OpenMock { name, config } => if ports.contains_key(name.as_str()) {
            PortStep::Refuse(PortManagerError::AlreadyManaged(name.clone()))
        } else {
            ports.insert(name.clone(), ManagedPort { config: *config, hardware: false });
            PortStep::StartReader
        },
        PortCommand::Close { name } => take_port(ports, name.as_str()),
        PortCommand::CloseWithConfig { name } => take_port(ports, name.as_str()),
        PortCommand::List => PortStep::Collect(ports.keys()),
        PortCommand::GetState { name } => match require_port(ports, name.as_str()) {
            Ok(_) => PortStep::ReadState,
            Err(e) => PortStep::Refuse(e),
        },
        PortCommand::GetConfig { name } => match require_port(ports, name.as_str()) {
            Ok(p) => PortStep::Config(p.config),
            Err(e) => PortStep::Refuse(e),
        },
        PortCommand::GetStorage { name } => match require_port(ports, name.as_str()) {
            Ok(_) => PortStep::HandStorage,
            Err(e) => PortStep::Refuse(e),
        },
        PortCommand::GetSerialPort { name } => require_hardware(
            ports,
            name.as_str(),
            PortStep::HandSerialPort,
        ),
        PortCommand::Write { name, .. } => require_hardware(
            ports,
            name.as_str(),
            PortStep::WriteBytes,
        ),
        PortCommand::Reconfigure { name, .. } => require_hardware(
            ports,
            name.as_str(),
            PortStep::ApplySettings,
        ),
    }
}

/// What is said of a device that was opened: where its lines go.
pub open spec fn answers_open(
    name: &str,
    data_dir: &str,
    outcome: Result<(), String>,
    r: Result<String, PortManagerError>,
) -> bool {
    match (outcome, r) {
        (Ok(_), Ok(path)) => path@ == paths::db_path(data_dir@, name@),
        (Err(e), Err(PortManagerError::Serial(m))) => m@ == e@,
        _ => false,
    }
}

/// The device was opened, or was not: where it was, the store of the port is
/// opened next, at the path that comes back.
pub fn serial_opened(name: &str, data_dir: &str, outcome: Result<(), String>) -> (r: Result<
    String,
    PortManagerError,
>)
    ensures
        answers_open(name, data_dir, outcome, r),
{
    match outcome {
        Ok(_) => Ok(port_db_path(data_dir, name)),
        Err(e) => Err(PortManagerError::Serial(e)),
    }
}

/// The store of a device was opened, or was not: where it was, the port is in
/// the table from now on, and its reader can start.
pub fn storage_opened(
    ports: &mut Table<ManagedPort>,
    name: &str,
    config: PortConfig,
    outcome: Result<(), String>,
) -> (r: Result<(), PortManagerError>)
    ensures
        match (outcome, r) {
            (Ok(_), Ok(_)) => final(ports)@ == opened_table(old(ports)@, name@, config),
            (Err(e), Err(PortManagerError::Storage(m))) => m@ == e@ && *final(ports) == *old(ports),
            _ => false,
        },
{
    match outcome {
        Ok(_) => {
            ports.insert(name.to_owned(), ManagedPort { config, hardware: true });
            Ok(())
        },
        Err(e) => Err(PortManagerError::Storage(e)),
    }
}

/// What is said of bytes that were written.
pub open spec fn answers_write(
    outcome: Result<(), String>,
    r: Result<(), PortManagerError>,
) -> bool {
    match (outcome, r) {
        (Ok(_), Ok(_)) => true,
        (Err(e), Err(PortManagerError::Serial(m))) => m@ == e@,
        _ => false,
    }
}

/// The answer to a write, given how it went.
pub fn written(outcome: Result<(), String>) -> (r: Result<(), PortManagerError>)
    ensures
        answers_write(outcome, r),
{
    match outcome {
        Ok(_) => Ok(()),
        Err(e) => Err(PortManagerError::Serial(e)),
    }
}

/// The answer to a change of settings, given how it went. The table follows the
/// device: it takes the new settings exactly where the device did.
pub fn reconfigured(
    ports: &mut Table<ManagedPort>,
    name: &str,
    config: PortConfig,
    outcome: Result<(), String>,
) -> (r: Result<(), PortManagerError>)
    requires
        old(ports)@.contains_key(name@),
    ensures
        match (outcome, r) {
            (Ok(_), Ok(_)) => final(ports)@ == reconfigured_table(old(ports)@, name@, config),
            (Err(e), Err(PortManagerError::Serial(m))) => m@ == e@ && *final(ports) == *old(ports),
            _ => false,
        },
{
    match outcome {
        Ok(_) => {
            let hardware = match ports.get(name) {
                Some(p) => p.hardware,
                None => false,
            };
            ports.insert(name.to_owned(), ManagedPort { config, hardware });
            Ok(())
        },
        Err(e) => Err(PortManagerError::Serial(e)),
    }
}

/// Whether ports are listed by name.
pub open spec fn infos_in_order(v: Seq<PortInfo>) -> bool {
    forall|i: int, j: int|
        0 <= i <= j < v.len() ==> text::at_or_before(
            (#[trigger] v[i]).name@,
            (#[trigger] v[j]).name@,
        )
}

fn insert_info(v: &mut Vec<PortInfo>, p: PortInfo)
    requires
        infos_in_order(old(v)@),
    ensures
        infos_in_order(final(v)@),
        exists|k: int| 0 <= k <= old(v)@.len() && final(v)@ == old(v)@.insert(k, p),
{
    let mut k: usize = 0;
    while k < v.len() && !stands_before(p.name.as_str(), v[k].name.as_str())
        invariant
            k <= v.len(),
            v@ == old(v)@,
            forall|i: int| 0 <= i < k ==> !text::at_or_before(p.name@, (#[trigger] v@[i]).name@),
        decreases v.len() - k,
    {
        k = k + 1;
    }
    let ghost before = v@;
    v.insert(k, p);
    proof {
        assert forall|i: int, j: int| 0 <= i <= j < v@.len() implies text::at_or_before(
            (#[trigger] v@[i]).name@,
            (#[trigger] v@[j]).name@,
        ) by {
            text::lemma_order_reflexive(p.name@);
            if i < k && j == k {
                text::lemma_order_total(p.name@, before[i].name@);
            } else if i == k && j > k {
                assert(text::at_or_before(p.name@, before[k as int].name@));
                text::lemma_order_transitive(
                    p.name@,
                    before[k as int].name@,
                    before[j - 1].name@,
                );
            }
        }
        assert(v@ == before.insert(k as int, p));
    }
}

/// Put the answer to `List` in the order of the names.
pub fn sort_infos(infos: &Vec<PortInfo>) -> (r: Vec<PortInfo>)
    ensures
        infos_in_order(r@),
        r@.to_multiset() == infos@.to_multiset(),
        r@.len() == infos@.len(),
{
    let mut out: Vec<PortInfo> = Vec::new();
    let mut i: usize = 0;
    assert(infos@.take(0) =~= Seq::<PortInfo>::empty());
    while i < infos.len()
        invariant
            i <= infos.len(),
            infos_in_order(out@),
            out@.to_multiset() == infos@.take(i as int).to_multiset(),
            out@.len() == i,
        decreases infos.len() - i,
    {
        let ghost before = out@;
        insert_info(&mut out, infos[i].clone());
        proof {
            let p = infos@[i as int];
            let k = choose|k: int| 0 <= k <= before.len() && out@ == before.insert(k, p);
            before.insert_ensures(k, p);
            assert(infos@.take(i + 1) =~= infos@.take(i as int).push(p));
            infos@.take(i as int).to_multiset_ensures();
            before.to_multiset_ensures();
            vstd::seq_lib::to_multiset_insert(before, k, p);
        }
        i = i + 1;
    }
    assert(infos@.take(infos@.len() as int) =~= infos@);
    out
}

// ---------------------------------------------------------------------------
// Laws of the port table
// ---------------------------------------------------------------------------

/// A port is never managed twice: a second open of a managed port is refused
/// and leaves the table as it was.
pub proof fn second_open_is_refused(
    ports: Map<Seq<char>, ManagedPort>,
    first: PortCommand,
    done: bool,
    second: PortCommand,
    again: bool,
)
    requires
        first.opens(),
        first is OpenReal ==> done,
        second.opens(),
        first.subject() == second.subject(),
    ensures
        refusal(table_settled(ports, first, done), second) == Some(
            "port '"@ + second.subject() + "' already managed"@,
        ),
        table_settled(table_settled(ports, first, done), second, again) == table_settled(
            ports,
            first,
            done,
        ),
{
}

/// Closing a port undoes opening it, and a closed port is not found again.
pub proof fn close_undoes_open(
    ports: Map<Seq<char>, ManagedPort>,
    open: PortCommand,
    done: bool,
    close: PortCommand,
)
    requires
        open.opens(),
        open is OpenReal ==> done,
        close.closes(),
        open.subject() == close.subject(),
        !ports.contains_key(open.subject()),
    ensures
        table_settled(table_settled(ports, open, done), close, true) == ports,
        refusal(ports, close) == Some("port '"@ + close.subject() + "' not found"@),
{
    assert(table_settled(table_settled(ports, open, done), close, true) =~= ports);
}

/// A command touches no port but its own.
pub proof fn other_ports_are_untouched(
    ports: Map<Seq<char>, ManagedPort>,
    cmd: PortCommand,
    done: bool,
    other: Seq<char>,
)
    requires
        other != cmd.subject(),
    ensures
        table_settled(ports, cmd, done).contains_key(other) == ports.contains_key(other),
        ports.contains_key(other) ==> table_settled(ports, cmd, done)[other] == ports[other],
{
}

/// A refused command changes nothing.
pub proof fn refused_command_changes_nothing(
    ports: Map<Seq<char>, ManagedPort>,
    cmd: PortCommand,
    done: bool,
)
    requires
        refusal(ports, cmd) is Some,
    ensures
        table_settled(ports, cmd, done) == ports,
{
}

/// The port table after commands that were carried out one after the other, each
/// with whether the device did its part.
pub open spec fn table_over(history: Seq<(PortCommand, bool)>) -> Map<Seq<char>, ManagedPort>
    decreases history.len(),
{
    if history.len() == 0 {
        Map::empty()
    } else {
        table_settled(table_over(history.drop_last()), history.last().0, history.last().1)
    }
}

/// Whether one of the commands was answered without an error.
pub open spec fn accepted_at(history: Seq<(PortCommand, bool)>, i: int) -> bool {
    accepted(table_over(history.take(i)), history[i].0, history[i].1)
}

/// Whether a port was opened at some command and has not been closed since.
pub open spec fn opened_at(history: Seq<(PortCommand, bool)>, name: Seq<char>, i: int) -> bool {
    &&& history[i].0.opens()
    &&& history[i].0.subject() == name
    &&& accepted_at(history, i)
    &&& forall|j: int|
        i < j < history.len() && (#[trigger] history[j]).0.closes() && history[j].0.subject()
            == name ==> !accepted_at(history, j)
}

/// Whether a port is held: it was opened, and has not been closed since.
pub open spec fn held(history: Seq<(PortCommand, bool)>, name: Seq<char>) -> bool {
    exists|i: int| 0 <= i < history.len() && #[trigger] opened_at(history, name, i)
}

proof fn lemma_opened_before(history: Seq<(PortCommand, bool)>, name: Seq<char>, i: int)
    requires
        0 <= i < history.len() - 1,
    ensures
        opened_at(history, name, i) <==> opened_at(history.drop_last(), name, i) && !(
        history.last().0.closes() && history.last().0.subject() == name && accepted_at(
            history,
            history.len() - 1,
        )),
{
    let before = history.drop_last();
    assert(history.take(i) =~= before.take(i));
    assert forall|j: int| 0 <= j < before.len() implies accepted_at(history, j) == accepted_at(
        before,
        j,
    ) by {
        assert(history.take(j) =~= before.take(j));
    }
    if opened_at(history, name, i) {
        assert forall|j: int|
            i < j < before.len() && (#[trigger] before[j]).0.closes() && before[j].0.subject()
                == name implies !accepted_at(before, j) by {
            assert(history[j] == before[j]);
        }
        assert(history[history.len() - 1] == history.last());
    }
}

/// The table holds exactly the ports that were opened and have not been closed
/// since, whatever the commands were.
pub proof fn table_holds_what_was_opened(history: Seq<(PortCommand, bool)>, name: Seq<char>)
    ensures
        table_over(history).contains_key(name) <==> held(history, name),
    decreases history.len(),
{
    if history.len() > 0 {
        let before = history.drop_last();
        let last = history.len() - 1;
        table_holds_what_was_opened(before, name);
        assert(history.take(last) =~= before);
        if table_over(history).contains_key(name) {
            if table_over(before).contains_key(name) {
                let i = choose|i: int| 0 <= i < before.len() && opened_at(before, name, i);
                lemma_opened_before(history, name, i);
                assert(opened_at(history, name, i));
            } else {
                assert(opened_at(history, name, last));
            }
        }
        if held(history, name) {
            let i = choose|i: int| 0 <= i < history.len() && opened_at(history, name, i);
            if i < last {
                lemma_opened_before(history, name, i);
                assert(opened_at(before, name, i));
            }
        }
    }
}

/// Whatever the commands were: an open is refused exactly where its port is
/// held, a close exactly where it is not, and a refused command leaves the table
/// as it was.
pub proof fn held_ports_decide(
    history: Seq<(PortCommand, bool)>,
    cmd: PortCommand,
    e: PortManagerError,
)
    requires
        cmd.opens() || cmd.closes(),
    ensures
        cmd.opens() ==> (refusal(table_over(history), cmd) is Some <==> held(
            history,
            cmd.subject(),
        )),
        cmd.closes() ==> (refusal(table_over(history), cmd) is Some <==> !held(
            history,
            cmd.subject(),
        )),
        refused_with(table_over(history), cmd, e) ==> {
            &&& cmd.opens() ==> (e matches PortManagerError::AlreadyManaged(p) && p@
                == cmd.subject())
            &&& cmd.closes() ==> (e matches PortManagerError::NotFound(p) && p@ == cmd.subject())
            &&& table_over(history.push((cmd, true))) == table_over(history)
            &&& table_over(history.push((cmd, false))) == table_over(history)
        },
{
    table_holds_what_was_opened(history, cmd.subject());
    assert(history.push((cmd, true)).drop_last() =~= history);
    assert(history.push((cmd, false)).drop_last() =~= history);
}

/// Whether a port is among those that are reported.
pub open spec fn is_reported(infos: Seq<PortInfo>, name: Seq<char>) -> bool {
    exists|i: int| 0 <= i < infos.len() && (#[trigger] infos[i]).name@ == name
}

/// Whatever the commands were, `List` is answered with exactly the held ports,
/// each once, strictly in the order of their names, and leaves the table as it
/// was.
pub proof fn list_names_the_held_ports(
    history: Seq<(PortCommand, bool)>,
    names: Seq<Seq<char>>,
    infos: Seq<PortInfo>,
    r: Seq<PortInfo>,
)
    requires
        names_the_ports(names, table_over(history)),
        infos.len() == names.len(),
        forall|i: int| 0 <= i < infos.len() ==> (#[trigger] infos[i]).name@ == names[i],
        infos_in_order(r),
        r.to_multiset() == infos.to_multiset(),
    ensures
        forall|i: int, j: int|
            0 <= i < j < r.len() ==> text::at_or_before(
                (#[trigger] r[i]).name@,
                (#[trigger] r[j]).name@,
            ) && r[i].name@ != r[j].name@,
        forall|name: Seq<char>| is_reported(r, name) <==> #[trigger] held(history, name),
        table_over(history.push((PortCommand::List, true))) == table_over(history),
{
    assert(history.push((PortCommand::List, true)).drop_last() =~= history);
    assert(infos.no_duplicates()) by {
        assert forall|i: int, j: int|
            0 <= i < infos.len() && 0 <= j < infos.len() && i != j implies infos[i] != infos[j] by {
            assert(names[i] != names[j]);
        }
    }
    infos.lemma_multiset_has_no_duplicates();
    r.lemma_multiset_has_no_duplicates_conv();
    infos.to_multiset_ensures();
    r.to_multiset_ensures();
    assert forall|x: PortInfo| #[trigger] r.contains(x) == infos.contains(x) by {
        assert(r.contains(x) <==> r.to_multiset().count(x) > 0);
        assert(infos.contains(x) <==> infos.to_multiset().count(x) > 0);
    }
    assert forall|i: int, j: int| 0 <= i < j < r.len() implies text::at_or_before(
        (#[trigger] r[i]).name@,
        (#[trigger] r[j]).name@,
    ) && r[i].name@ != r[j].name@ by {
        assert(r.contains(r[i]) && r.contains(r[j]));
        assert(infos.contains(r[i]) && infos.contains(r[j]));
        let a = infos.index_of(r[i]);
        let b = infos.index_of(r[j]);
        assert(r[i] != r[j]);
        assert(infos[a].name@ == names[a] && infos[b].name@ == names[b]);
        assert(names[a] != names[b]);
    }
    assert forall|name: Seq<char>| is_reported(r, name) <==> #[trigger] held(history, name) by {
        table_holds_what_was_opened(history, name);
        if is_reported(r, name) {
            let i = choose|i: int| 0 <= i < r.len() && (#[trigger] r[i]).name@ == name;
            assert(r.contains(r[i]));
            let a = infos.index_of(r[i]);
            assert(infos[a].name@ == names[a]);
            assert(names.contains(name));
        }
        if held(history, name) {
            assert(table_over(history).contains_key(name));
            let a = names.index_of(name);
            assert(infos[a].name@ == name);
            assert(infos.contains(infos[a]) && r.contains(infos[a]));
            let i = r.index_of(infos[a]);
            assert(r[i].name@ == name);
        }
    }
}

// ---------------------------------------------------------------------------
// Device nodes
// ---------------------------------------------------------------------------

/// How the operating system names a serial device.
#[derive(Debug, Clone, Copy, PartialEq, Eq, Structural)]
pub enum DeviceNodes {
    /// One node for a device.
    Single,
    /// A callout node (`/dev/cu.NAME`) and a dial-in node (`/dev/tty.NAME`) for
    /// one device, as on macOS and the BSDs.
    Twin,
}

/// The canonical name of a device node.
pub open spec fn canonical(port: Seq<char>, nodes: DeviceNodes) -> Seq<char> {
    if nodes is Twin && text::begins_with(port, "/dev/tty."@) {
        "/dev/cu."@ + port.skip("/dev/tty."@.len() as int)
    } else {
        port
    }
}

/// Canonical name for a device node.
///
/// Two names that map onto the same canonical name denote the same hardware.
pub fn canonical_device(port: &str, nodes: DeviceNodes) -> (r: String)
    ensures
        r@ == canonical(port@, nodes),
{
    if let DeviceNodes::Twin = nodes {
        if starts_with(port, "/dev/tty.") {
            proof {
                reveal_strlit("/dev/tty.");
            }
            let c = chars_of(port);
            let rest = slice_of(c.as_slice(), 9, c.len());
            assert(rest@ =~= port@.skip(9));
            return concat2("/dev/cu.", rest.as_str());
        }
    }
    port.to_owned()
}

/// Whether two port names denote the same physical device.
pub fn same_device(left: &str, right: &str, nodes: DeviceNodes) -> (r: bool)
    ensures
        r == (canonical(left@, nodes) == canonical(right@, nodes)),
{
    same(left, right) || same(
        canonical_device(left, nodes).as_str(),
        canonical_device(right, nodes).as_str(),
    )
}

/// Taking the canonical name twice changes nothing.
pub proof fn canonical_name_is_canonical(port: Seq<char>, nodes: DeviceNodes)
    ensures
        canonical(canonical(port, nodes), nodes) == canonical(port, nodes),
{
    reveal_strlit("/dev/tty.");
    reveal_strlit("/dev/cu.");
    let c = canonical(port, nodes);
    if nodes is Twin && text::begins_with(port, "/dev/tty."@) {
        assert(c[5] == 'c');
        if text::begins_with(c, "/dev/tty."@) {
            assert(c.take(9)[5] == "/dev/tty."@[5]);
        }
    }
}

/// Whether a listed node is offered: all but a dial-in node whose callout twin
/// is listed too.
pub open spec fn offered(port: Seq<char>, ports: Seq<Seq<char>>, nodes: DeviceNodes) -> bool {
    canonical(port, nodes) == port || !ports.contains(canonical(port, nodes))
}

/// The nodes that are offered, in the order in which they are listed.
pub open spec fn deduped(
    taken: Seq<Seq<char>>,
    ports: Seq<Seq<char>>,
    nodes: DeviceNodes,
) -> Seq<Seq<char>>
    decreases taken.len(),
{
    if taken.len() == 0 {
        Seq::empty()
    } else if offered(taken.last(), ports, nodes) {
        deduped(taken.drop_last(), ports, nodes).push(taken.last())
    } else {
        deduped(taken.drop_last(), ports, nodes)
    }
}

fn listed(ports: &[String], name: &str) -> (r: bool)
    ensures
        r == text::texts(ports@).contains(name@),
{
    let mut i: usize = 0;
    while i < ports.len()
        invariant
            i <= ports.len(),
            forall|j: int| 0 <= j < i ==> (#[trigger] ports@[j])@ != name@,
        decreases ports.len() - i,
    {
        if same(ports[i].as_str(), name) {
            assert(text::texts(ports@)[i as int] == name@);
            return true;
        }
        i = i + 1;
    }
    assert forall|j: int| 0 <= j < text::texts(ports@).len() implies text::texts(ports@)[j]
        != name@ by {
        assert(ports@[j]@ != name@);
    }
    false
}

/// Drop dial-in nodes whose callout twin is also present.
///
/// A dial-in node without a twin is kept, so nothing is ever hidden that the
/// user could not otherwise reach.
pub fn dedupe_device_nodes(ports: &[String], nodes: DeviceNodes) -> (r: Vec<String>)
    ensures
        text::texts(r@) == deduped(text::texts(ports@), text::texts(ports@), nodes),
{
    let ghost all = text::texts(ports@);
    let mut out: Vec<String> = Vec::new();
    let mut i: usize = 0;
    assert(text::texts(out@) =~= deduped(all.take(0), all, nodes));
    while i < ports.len()
        invariant
            i <= ports.len(),
            all == text::texts(ports@),
            text::texts(out@) == deduped(all.take(i as int), all, nodes),
        decreases ports.len() - i,
    {
        let canonical = canonical_device(ports[i].as_str(), nodes);
        assert(all.take(i + 1).drop_last() =~= all.take(i as int));
        assert(all.take(i + 1).last() == ports@[i as int]@);
        if same(canonical.as_str(), ports[i].as_str()) || !listed(ports, canonical.as_str()) {
            let ghost before = out@;
            out.push(ports[i].clone());
            assert(text::texts(out@) =~= text::texts(before).push(ports@[i as int]@));
        }
        i = i + 1;
    }
    assert(all.take(all.len() as int) =~= all);
    out
}

/// Every device stays reachable: for every listed node a node of the same
/// device is offered.
pub proof fn every_device_stays_reachable(
    ports: Seq<Seq<char>>,
    nodes: DeviceNodes,
    i: int,
) -> (j: int)
    requires
        0 <= i < ports.len(),
    ensures
        0 <= j < deduped(ports, ports, nodes).len(),
        canonical(deduped(ports, ports, nodes)[j], nodes) == canonical(ports[i], nodes),
{
    if offered(ports[i], ports, nodes) {
        lemma_offered_is_kept(ports, ports, nodes, i)
    } else {
        let c = canonical(ports[i], nodes);
        canonical_name_is_canonical(ports[i], nodes);
        let k = choose|k: int| 0 <= k < ports.len() && ports[k] == c;
        lemma_offered_is_kept(ports, ports, nodes, k)
    }
}

proof fn lemma_offered_is_kept(
    taken: Seq<Seq<char>>,
    ports: Seq<Seq<char>>,
    nodes: DeviceNodes,
    i: int,
) -> (j: int)
    requires
        0 <= i < taken.len(),
        offered(taken[i], ports, nodes),
    ensures
        0 <= j < deduped(taken, ports, nodes).len(),
        deduped(taken, ports, nodes)[j] == taken[i],
    decreases taken.len(),
{
    if i == taken.len() - 1 {
        deduped(taken, ports, nodes).len() - 1
    } else {
        lemma_offered_is_kept(taken.drop_last(), ports, nodes, i)
    }
}

/// Whether a port name looks like that of a USB device.
pub open spec fn is_usb(port: Seq<char>) -> bool {
    let lower = text::lower(port);
    text::occurs_in(lower, "usb"@) || text::occurs_in(lower, "acm"@)
}

/// Whether a port name looks like that of a USB device.
pub fn looks_like_usb(port: &str) -> (r: bool)
    ensures
        r == is_usb(port@),
{
    let lower = to_lower(port);
    contains(lower.as_str(), "usb") || contains(lower.as_str(), "acm")
}

/// Whether a port is offered at or before another: USB-style devices first,
/// then alphabetically.
pub open spec fn port_before(a: Seq<char>, b: Seq<char>) -> bool {
    if is_usb(a) == is_usb(b) {
        text::at_or_before(a, b)
    } else {
        is_usb(a)
    }
}

/// Whether ports are in the order in which they are offered.
pub open spec fn ports_in_order(v: Seq<String>) -> bool {
    forall|i: int, j: int|
        0 <= i <= j < v.len() ==> port_before(#[trigger] v[i]@, #[trigger] v[j]@)
}

fn offered_before(a: &str, b: &str) -> (r: bool)
    ensures
        r == port_before(a@, b@),
{
    let x = looks_like_usb(a);
    let y = looks_like_usb(b);
    if x == y {
        stands_before(a, b)
    } else {
        x
    }
}

fn insert_port(v: &mut Vec<String>, s: String)
    requires
        ports_in_order(old(v)@),
    ensures
        ports_in_order(final(v)@),
        exists|k: int| 0 <= k <= old(v)@.len() && final(v)@ == old(v)@.insert(k, s),
{
    let mut k: usize = 0;
    while k < v.len() && !offered_before(s.as_str(), v[k].as_str())
        invariant
            k <= v.len(),
            v@ == old(v)@,
            forall|i: int| 0 <= i < k ==> !port_before(s@, #[trigger] v@[i]@),
        decreases v.len() - k,
    {
        k = k + 1;
    }
    let ghost before = v@;
    v.insert(k, s);
    proof {
        assert forall|i: int, j: int| 0 <= i <= j < v@.len() implies port_before(
            #[trigger] v@[i]@,
            #[trigger] v@[j]@,
        ) by {
            text::lemma_order_reflexive(s@);
            if i < k && j == k {
                text::lemma_order_total(s@, before[i]@);
            } else if i == k && j > k {
                assert(port_before(s@, before[k as int]@));
                assert(port_before(before[k as int]@, before[j - 1]@));
                if is_usb(s@) == is_usb(before[k as int]@) && is_usb(s@) == is_usb(
                    before[j - 1]@,
                ) {
                    text::lemma_order_transitive(s@, before[k as int]@, before[j - 1]@);
                }
            }
        }
        assert(v@ == before.insert(k as int, s));
    }
}

/// USB-style devices first, then alphabetically.
pub fn sort_ports(ports: Vec<String>) -> (r: Vec<String>)
    ensures
        ports_in_order(r@),
        r@.to_multiset() == ports@.to_multiset(),
        r@.len() == ports@.len(),
{
    let mut out: Vec<String> = Vec::new();
    let mut i: usize = 0;
    assert(ports@.take(0) =~= Seq::<String>::empty());
    while i < ports.len()
        invariant
            i <= ports.len(),
            ports_in_order(out@),
            out@.to_multiset() == ports@.take(i as int).to_multiset(),
            out@.len() == i,
        decreases ports.len() - i,
    {
        let ghost before = out@;
        insert_port(&mut out, ports[i].clone());
        proof {
            let s = ports@[i as int];
            let k = choose|k: int| 0 <= k <= before.len() && out@ == before.insert(k, s);
            before.insert_ensures(k, s);
            assert(ports@.take(i + 1) =~= ports@.take(i as int).push(s));
            ports@.take(i as int).to_multiset_ensures();
            before.to_multiset_ensures();
            vstd::seq_lib::to_multiset_insert(before, k, s);
        }
        i = i + 1;
    }
    assert(ports@.take(ports@.len() as int) =~= ports@);
    out
}

/// Whether ports are those to offer, of those the operating system lists: one
/// entry per physical device, USB-style devices first.
pub open spec fn offer(listed: Seq<String>, nodes: DeviceNodes, r: Seq<String>) -> bool {
    &&& ports_in_order(r)
    &&& exists|kept: Seq<String>|
        text::texts(kept) == deduped(text::texts(listed), text::texts(listed), nodes)
            && #[trigger] kept.to_multiset() == r.to_multiset()
}

/// The ports to offer, of those the operating system lists: one entry per
/// physical device, USB-style devices first.
pub fn available_ports(listed: &[String], nodes: DeviceNodes) -> (r: Vec<String>)
    ensures
        offer(listed@, nodes, r@),
{
    let kept = dedupe_device_nodes(listed, nodes);
    let ghost k = kept@;
    let r = sort_ports(kept);
    assert(k.to_multiset() == r@.to_multiset());
    r
}

proof fn lemma_kept_are_offered(taken: Seq<Seq<char>>, ports: Seq<Seq<char>>, nodes: DeviceNodes)
    ensures
        forall|j: int|
            0 <= j < deduped(taken, ports, nodes).len() ==> taken.contains(
                #[trigger] deduped(taken, ports, nodes)[j],
            ) && offered(deduped(taken, ports, nodes)[j], ports, nodes),
        taken.no_duplicates() ==> deduped(taken, ports, nodes).no_duplicates(),
    decreases taken.len(),
{
    if taken.len() > 0 {
        let head = taken.drop_last();
        let kept = deduped(head, ports, nodes);
        let all = deduped(taken, ports, nodes);
        lemma_kept_are_offered(head, ports, nodes);
        assert forall|j: int| 0 <= j < all.len() implies taken.contains(#[trigger] all[j])
            && offered(all[j], ports, nodes) by {
            if j < kept.len() {
                assert(all[j] == kept[j]);
                let k = head.index_of(kept[j]);
                assert(taken[k] == kept[j]);
            } else {
                assert(taken[taken.len() - 1] == all[j]);
            }
        }
        if taken.no_duplicates() {
            assert forall|i: int, j: int|
                0 <= i < all.len() && 0 <= j < all.len() && i != j implies all[i] != all[j] by {
                if i < kept.len() && j < kept.len() {
                    assert(kept[i] != kept[j]);
                } else {
                    let other = if i < kept.len() {
                        i
                    } else {
                        j
                    };
                    assert(head.contains(kept[other]));
                    let k = head.index_of(kept[other]);
                    assert(taken[k] != taken[taken.len() - 1]);
                }
            }
        }
    }
}

/// Two dial-in nodes of one device are the same node.
proof fn lemma_one_dial_in_node(a: Seq<char>, b: Seq<char>, nodes: DeviceNodes)
    requires
        canonical(a, nodes) == canonical(b, nodes),
        canonical(a, nodes) != a,
        canonical(b, nodes) != b,
    ensures
        a == b,
{
    let head = "/dev/tty."@;
    let n = head.len() as int;
    let c = canonical(a, nodes);
    let m = "/dev/cu."@.len() as int;
    assert(c.skip(m) =~= a.skip(n));
    assert(c.skip(m) =~= b.skip(n));
    assert(a =~= a.take(n) + a.skip(n));
    assert(b =~= b.take(n) + b.skip(n));
}

/// No two offered ports denote one device, where the operating system lists no
/// node twice.
pub proof fn offered_ports_are_different_devices(
    listed: Seq<String>,
    nodes: DeviceNodes,
    r: Seq<String>,
)
    requires
        text::texts(listed).no_duplicates(),
        offer(listed, nodes, r),
    ensures
        forall|i: int, j: int|
            0 <= i < j < r.len() ==> canonical((#[trigger] r[i])@, nodes) != canonical(
                (#[trigger] r[j])@,
                nodes,
            ),
{
    let all = text::texts(listed);
    let names = deduped(all, all, nodes);
    let kept = choose|kept: Seq<String>|
        text::texts(kept) == names && #[trigger] kept.to_multiset() == r.to_multiset();
    lemma_kept_are_offered(all, all, nodes);
    assert forall|i: int| 0 <= i < kept.len() implies (#[trigger] kept[i])@ == names[i] by {
        assert(text::texts(kept)[i] == kept[i]@);
    }
    assert(kept.no_duplicates()) by {
        assert forall|i: int, j: int|
            0 <= i < kept.len() && 0 <= j < kept.len() && i != j implies kept[i] != kept[j] by {
            assert(names[i] != names[j]);
        }
    }
    kept.lemma_multiset_has_no_duplicates();
    r.lemma_multiset_has_no_duplicates_conv();
    kept.to_multiset_ensures();
    r.to_multiset_ensures();
    assert forall|x: String| #[trigger] r.contains(x) implies kept.contains(x) by {
        assert(r.to_multiset().count(x) > 0);
        assert(kept.to_multiset().count(x) > 0);
    }
    assert forall|i: int, j: int| 0 <= i < j < r.len() implies canonical(
        (#[trigger] r[i])@,
        nodes,
    ) != canonical((#[trigger] r[j])@, nodes) by {
        assert(r.contains(r[i]) && r.contains(r[j]));
        let a = kept.index_of(r[i]);
        let b = kept.index_of(r[j]);
        assert(r[i] != r[j]);
        assert(names[a] != names[b]);
        assert(all.contains(names[a]) && all.contains(names[b]));
        if canonical(names[a], nodes) == canonical(names[b], nodes) {
            if canonical(names[a], nodes) != names[a] && canonical(names[b], nodes) != names[b] {
                lemma_one_dial_in_node(names[a], names[b], nodes);
            }
        }
    }
}

} // verus!
