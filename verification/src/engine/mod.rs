//! The one place where devserial operations are carried out.
//!
//! Transports (CLI, IPC daemon, MCP server) translate their input into a
//! [`RequestPayload`], hand it to [`CommandEngine::execute`] and render the
//! [`ResponsePayload`] that comes out. No transport contains operation logic of
//! its own, which is what keeps their behaviour identical.
//!
//! The engine decides; it does not wait. An operation is a sequence of
//! [`Work`], each of which the caller performs and reports back as an
//! [`Event`], until the engine has the answer.
use vstd::prelude::*;
use vstd::string::*;

use crate::clock;
use crate::config::{Config, PortConfig};
use crate::esp;
use crate::export::{ExportError, ExportFormat};
use crate::hex::HexError;
use crate::modem::FileTransferProtocol;
use crate::paths;
use crate::paths::archive_timestamp;
use crate::port_manager;
use crate::port_manager::{available_ports, DeviceNodes, PortCommand, PortInfo, PortManagerError};
use crate::protocol::{
    LinesPage, ReadWindow, RequestPayload, ResponsePayload, RestState, SearchOutcome, PortSettings,
    DEFAULT_READ_LIMIT, MAX_READ_LIMIT,
};
use crate::reader::ConnectionState;
use crate::serial_params::{ParamError, DEFAULT_BREAK_MS};
use crate::storage::{BufferStats, StoredLine};
use crate::text;
use crate::text::{concat2, concat3};

pub mod device;
pub mod ports;
pub mod reading;
pub mod scan;
pub mod tool;
pub mod transfer;

use crate::engine::device::{device_step, set_signal, write_data, DeviceOp, Goal, Run};
use crate::engine::ports::{reconfigure_port, PortsOp};
use crate::engine::reading::{
    clear_at, export_lines, read_lines, read_step, search, ReadOp, SearchPlan,
};
use crate::engine::tool::{esp_operation, Job, ToolOp};
use crate::engine::transfer::{receive_file, send_file, transfer_step, TransferOp};

verus! {

/// Everything that can go wrong while executing an operation.
#[derive(Debug, PartialEq, Eq)]
pub enum EngineError {
    Port(PortManagerError),
    Storage(String),
    Export(ExportError),
    Hex(HexError),
    Param(ParamError),
    Regex(String),
    Io { path: String, source: String },
    Invalid(String),
    UnknownMacro { name: String, available: String },
    Transfer(String),
    Tool(String),
    Task(String),
}

impl EngineError {
    /// The message of the error.
    pub open spec fn message(self) -> Seq<char> {
        match self {
            EngineError::Port(e) => e.message(),
            EngineError::Storage(e) => e@,
            EngineError::Export(e) => e.message(),
            EngineError::Hex(e) => e.message(),
            EngineError::Param(e) => e.message(),
            EngineError::Regex(e) => "invalid regex: "@ + e@,
            EngineError::Io { path, source } => "io error on '"@ + path@ + "': "@ + source@,
            EngineError::Invalid(m) => "invalid argument: "@ + m@,
            EngineError::UnknownMacro { name, available } => "unknown macro '"@ + name@
                + "'. Available: "@ + available@,
            EngineError::Transfer(e) => "file transfer failed: "@ + e@,
            EngineError::Tool(m) => m@,
            EngineError::Task(e) => "internal task failed: "@ + e@,
        }
    }

    /// The message of the error.
    pub fn to_string(&self) -> (r: String)
        ensures
            r@ == self.message(),
    {
        match self {
            EngineError::Port(e) => e.to_string(),
            EngineError::Storage(e) => e.clone(),
            EngineError::Export(e) => e.to_string(),
            EngineError::Hex(e) => e.to_string(),
            EngineError::Param(e) => e.to_string(),
            EngineError::Regex(e) => concat2("invalid regex: ", e.as_str()),
            EngineError::Io { path, source } => {
                let mut m = concat3("io error on '", path.as_str(), "': ");
                m.append(source.as_str());
                m
            },
            EngineError::Invalid(m) => concat2("invalid argument: ", m.as_str()),
            EngineError::UnknownMacro { name, available } => {
                let mut m = concat3("unknown macro '", name.as_str(), "'. Available: ");
                m.append(available.as_str());
                m
            },
            EngineError::Transfer(e) => concat2("file transfer failed: ", e.as_str()),
            EngineError::Tool(m) => m.clone(),
            EngineError::Task(e) => concat2("internal task failed: ", e.as_str()),
        }
    }
}

/// Something to do with the device of a port.
#[derive(Debug, PartialEq, Eq)]
pub enum DeviceAction {
    SetBreak(bool),
    SetDtr(bool),
    SetRts(bool),
    WriteAll(Vec<u8>),
    /// Wait, in milliseconds.
    Sleep(u64),
}

/// Something that the engine has the caller do.
pub enum Work {
    /// A command to the port manager.
    Port(PortCommand),
    /// List the serial devices of the machine.
    ListDevices,
    /// Note in the persisted state that a port is open with these settings.
    Remember { name: String, config: PortConfig },
    /// Note in the persisted state that a port is closed.
    Forget { name: String },
    /// Read a page from the store of a port: count its lines, read those of
    /// `line_query`, and put them together with `page_of`.
    ReadPage { port: String, window: ReadWindow, limit: u32 },
    /// Wait, in milliseconds.
    Sleep(u64),
    /// Size and age of the buffer of a port.
    Stats { port: String },
    /// Search the store of a port, page by page, as `scan::Scan` says.
    Search { port: String, plan: SearchPlan },
    /// Whether a directory exists.
    Exists { path: String },
    /// Read the lines of a port from one number to another.
    ReadRange { port: String, start: i64, end: i64 },
    /// Write a text to a file.
    WriteText { path: String, text: String },
    /// The absolute form of a path.
    Absolute { path: String },
    /// Count and then clear the lines of a port, keeping a copy where a path is
    /// given.
    Clear { port: String, archive: Option<String> },
    /// Add a command to the send history of a port.
    AppendHistory { port: String, command: String },
    /// Put a marker into the buffer of a port.
    Log { port: String, message: String },
    /// Work on the device of a port. Where `keep` is set, nobody else gets the
    /// device between this and the next work of the operation.
    Device { port: String, action: DeviceAction, keep: bool },
    /// Read a file.
    ReadFile { path: String },
    /// Create a directory and those above it.
    CreateDir { path: String },
    /// Write bytes to a file.
    WriteFile { path: String, data: Vec<u8> },
    /// Send a file over the device of a port.
    Send { port: String, protocol: FileTransferProtocol, file_name: String, data: Vec<u8> },
    /// Receive a file over the device of a port.
    Receive { port: String, protocol: FileTransferProtocol },
    /// Look for the tool.
    FindTool,
    /// Run the tool with these arguments.
    RunTool { args: Vec<String> },
    /// A request to the owner of the HTTP listener.
    Listener(ListenerRequest),
}

/// A request to the owner of the HTTP listener.
#[derive(Debug, PartialEq, Eq)]
pub enum ListenerRequest {
    /// What it is doing.
    Status,
    /// Start it, overriding its configuration where given.
    Enable { bind: Option<String>, port: Option<u16>, token: Option<String> },
    /// Stop it.
    Disable,
}

/// What came of a work.
pub enum Event {
    /// It is done.
    Done,
    /// The port manager or the store refused it.
    Failed(EngineError),
    /// It failed, for this reason.
    Error(String),
    State(ConnectionState),
    Config(PortConfig),
    Ports(Vec<PortInfo>),
    Devices(Vec<String>),
    /// A page, and how many milliseconds the operation has taken so far.
    Page(LinesPage, u64),
    Stats(BufferStats),
    Found(SearchOutcome),
    Exists(bool),
    Lines(Vec<StoredLine>),
    Path(String),
    Count(u64),
    Bytes(Vec<u8>),
    /// Bytes that went over the line.
    Sent(usize),
    Received(String, Vec<u8>),
    /// Whether the tool was found.
    Tool(bool),
    /// What the tool said.
    Output(Result<String, String>),
    /// What the HTTP listener is doing now.
    Listener(RestState),
}

/// Where an operation stands while a work is under way.
pub enum Operation {
    Ports(PortsOp),
    Read(ReadOp),
    Device(DeviceOp),
    Transfer(TransferOp),
    Tool(ToolOp),
    /// The owner of the HTTP listener is asked.
    Listener,
    /// A note in the send history is under way; then comes the answer.
    Record(ResponsePayload),
    /// A note is under way whose outcome changes nothing; then comes a marker in
    /// the buffer, then the answer.
    LogThen { port: String, message: String, answer: ResponsePayload },
    /// A note is under way whose outcome changes nothing; then comes the answer.
    Finish(ResponsePayload),
}

/// How an operation goes on.
pub enum Progress {
    /// Do this, and report what came of it.
    Do(Work, Operation),
    /// This is the answer.
    Done(Result<ResponsePayload, EngineError>),
}

/// Core command dispatcher for devserial operations.
pub struct CommandEngine {
    /// The configuration, which also names the directories, so there is no
    /// second place where they could disagree.
    pub config: Config,
    /// How the operating system names serial devices.
    pub nodes: DeviceNodes,
}

/// What a marker says of a write with the tool.
pub open spec fn write_bin_note(file_path: Seq<char>, address: Seq<char>) -> Seq<char> {
    "WRITE-BIN "@ + file_path + " @ "@ + address
}

/// Whether an operation begins by looking for the tool.
pub open spec fn tool_begins(
    port: Seq<char>,
    note: Option<Seq<char>>,
    args: Seq<Seq<char>>,
    r: Progress,
) -> bool {
    &&& r matches Progress::Do(Work::FindTool, Operation::Tool(ToolOp::Find(job)))
    &&& job.port@ == port
    &&& text::texts(job.args@) == args
    &&& match (note, job.log) {
        (Some(n), Some(l)) => l@ == n,
        (None, None) => true,
        _ => false,
    }
}

impl CommandEngine {
    /// Create a new command engine.
    pub fn new(config: Config, nodes: DeviceNodes) -> (r: CommandEngine)
        ensures
            r.config == config,
            r.nodes == nodes,
    {
        CommandEngine { config, nodes }
    }

    /// The configuration.
    pub fn config(&self) -> (r: &Config)
        ensures
            *r == self.config,
    {
        &self.config
    }

    /// Directory holding capture databases.
    pub fn data_dir(&self) -> (r: &str)
        ensures
            r@ == self.config.global.data_dir@,
    {
        self.config.global.data_dir.as_str()
    }

    /// Directory holding archived databases.
    pub fn archive_dir(&self) -> (r: &str)
        ensures
            r@ == self.config.global.archive_dir@,
    {
        self.config.global.archive_dir.as_str()
    }

    /// How a request is begun. `stamp` names the moment for an archive.
    pub open spec fn begins(self, payload: RequestPayload, stamp: Seq<char>, r: Progress) -> bool {
        match payload {
            RequestPayload::Ping => r == Progress::Done(Ok(ResponsePayload::Pong)),
            RequestPayload::Shutdown => r == Progress::Done(Ok(ResponsePayload::ShutdownAck)),
            RequestPayload::ListPorts => r matches Progress::Do(
                Work::Port(PortCommand::List),
                Operation::Ports(PortsOp::List),
            ),
            RequestPayload::ListHardware => r matches Progress::Do(
                Work::ListDevices,
                Operation::Ports(PortsOp::Hardware),
            ),
            RequestPayload::OpenPort { name, settings } => r matches Progress::Do(
                Work::Port(PortCommand::GetState { name: n }),
                Operation::Ports(PortsOp::Open { name: m, settings: s }),
            ) && n@ == name@ && m@ == name@ && s == settings,
            RequestPayload::ReconfigurePort { name, settings } => ports::asks_current(
                name@,
                settings,
                r,
            ),
            RequestPayload::ClosePort { name } => r matches Progress::Do(
                Work::Port(PortCommand::Close { name: n }),
                Operation::Ports(PortsOp::Close { name: m }),
            ) && n@ == name@ && m@ == name@,
            RequestPayload::ReadLines { port, window } => reading::asks_page(
                port@,
                window,
                reading::effective_limit(window.limit, DEFAULT_READ_LIMIT, MAX_READ_LIMIT),
                r,
            ),
            RequestPayload::GetStatus { port } => r matches Progress::Do(
                Work::Port(PortCommand::GetState { name }),
                Operation::Read(ReadOp::State { port: p }),
            ) && name@ == port@ && p@ == port@,
            RequestPayload::GetStats { port } => r matches Progress::Do(
                Work::Stats { port: p },
                Operation::Read(ReadOp::Stats),
            ) && p@ == port@,
            RequestPayload::Search { port, query, mode, start_ns, end_ns, limit } =>
            reading::search_begins(port@, query@, mode, start_ns, end_ns, limit, r),
            RequestPayload::Export { port, output_path, file_format, start_line, end_line } =>
            reading::export_begins(
                port@,
                output_path@,
                match file_format {
                    Some(f) => f,
                    None => ExportFormat::Txt,
                },
                match start_line {
                    Some(v) => v,
                    None => 1,
                },
                match end_line {
                    Some(v) => v,
                    None => i64::MAX,
                },
                r,
            ),
            RequestPayload::Clear { port, archive_current } => reading::clear_begins(
                self.config.global.archive_dir@,
                port@,
                if archive_current == Some(true) {
                    Some(stamp)
                } else {
                    None
                },
                r,
            ),
            RequestPayload::WriteData { port, data, is_hex } => device::write_begins(
                port@,
                data@,
                is_hex,
                r,
            ),
            RequestPayload::SendBreak { port, duration_ms } => r matches Progress::Do(
                work,
                Operation::Device(DeviceOp::Break { port: p, ms }),
            ) && device::asks_device(work, port@) && p@ == port@ && ms == (match duration_ms {
                Some(v) => v,
                None => DEFAULT_BREAK_MS,
            }),
            RequestPayload::SetSignal { port, dtr, rts } => if dtr is None && rts is None {
                r matches Progress::Done(Err(EngineError::Invalid(m))) && m@
                    == "at least one of dtr or rts must be specified"@
            } else {
                device::run_begins(port@, device::signal_steps(dtr, rts), Goal::Signal, r)
            },
            RequestPayload::ExecuteMacro { port, macro_name } => self.macro_begins(
                port@,
                macro_name,
                r,
            ),
            RequestPayload::SendFile { port, file_path, protocol } => r matches Progress::Do(
                Work::ReadFile { path },
                Operation::Transfer(
                    TransferOp::SendFile { port: p, path: q, name: n, protocol: t },
                ),
            ) && path@ == file_path@ && p@ == port@ && q@ == file_path@ && n@
                == transfer::sent_name(file_path@) && t == protocol,
            RequestPayload::ReceiveFile { port, output_dir, protocol } => r matches Progress::Do(
                work,
                Operation::Transfer(TransferOp::ReceiveDevice { port: p, dir: d, protocol: t }),
            ) && device::asks_device(work, port@) && p@ == port@ && d@ == output_dir@ && t
                == protocol,
            RequestPayload::EspFlash { port, firmware_path, baud } => tool_begins(
                port@,
                Some("FLASH "@ + firmware_path@),
                esp::flash_args(port@, firmware_path@, baud),
                r,
            ),
            RequestPayload::EspInfo { port } => tool_begins(
                port@,
                None,
                seq!["board-info"@, "--port"@, port@],
                r,
            ),
            RequestPayload::EspErase { port } => tool_begins(
                port@,
                Some("ERASE FLASH"@),
                seq!["erase-flash"@, "--port"@, port@],
                r,
            ),
            RequestPayload::EspWriteBin { port, file_path, address } => tool_begins(
                port@,
                Some(write_bin_note(file_path@, address@)),
                seq!["write-bin"@, "--port"@, port@, "--"@, address@, file_path@],
                r,
            ),
            RequestPayload::RestStatus => r == Progress::Do(
                Work::Listener(ListenerRequest::Status),
                Operation::Listener,
            ),
            RequestPayload::RestEnable { bind, port, token } => r == Progress::Do(
                Work::Listener(ListenerRequest::Enable { bind, port, token }),
                Operation::Listener,
            ),
            RequestPayload::RestDisable => r == Progress::Do(
                Work::Listener(ListenerRequest::Disable),
                Operation::Listener,
            ),
        }
    }

    /// Begin a request that touches the lines of a port or its device.
    fn execute_on_lines(&self, payload: RequestPayload, stamp: String) -> (r: Progress)
        requires
            payload is ReadLines || payload is GetStatus || payload is GetStats || payload is Search
                || payload is Export || payload is Clear,
        ensures
            self.begins(payload, stamp@, r),
    {
        match payload {
            RequestPayload::ReadLines { port, window } => read_lines(port, window),
            RequestPayload::GetStatus { port } => Progress::Do(
                Work::Port(PortCommand::GetState { name: port.clone() }),
                Operation::Read(ReadOp::State { port }),
            ),
            RequestPayload::GetStats { port } => Progress::Do(
                Work::Stats { port },
                Operation::Read(ReadOp::Stats),
            ),
            RequestPayload::Search { port, query, mode, start_ns, end_ns, limit } => search(
                port,
                query.as_str(),
                mode,
                start_ns,
                end_ns,
                limit,
            ),
            RequestPayload::Export { port, output_path, file_format, start_line, end_line } =>
            export_lines(port, output_path, file_format, start_line, end_line),
            RequestPayload::Clear { port, archive_current } => {
                let archive = match archive_current {
                    Some(b) => b,
                    None => false,
                };
                clear_at(
                    self.archive_dir(),
                    port,
                    if archive {
                        Some(stamp)
                    } else {
                        None
                    },
                )
            },
            _ => {
                assert(false);
                Progress::Done(Ok(ResponsePayload::Pong))
            },
        }
    }

    /// Begin a request that works on the device of a port.
    fn execute_on_device(&self, payload: RequestPayload) -> (r: Progress)
        requires
            payload is WriteData || payload is SendBreak || payload is SetSignal
                || payload is ExecuteMacro || payload is SendFile || payload is ReceiveFile,
        ensures
            forall|stamp: Seq<char>| self.begins(payload, stamp, r),
    {
        match payload {
            RequestPayload::WriteData { port, data, is_hex } => write_data(port, data, is_hex),
            RequestPayload::SendBreak { port, duration_ms } => {
                let ms: u64 = match duration_ms {
                    Some(v) => v,
                    None => DEFAULT_BREAK_MS,
                };
                Progress::Do(
                    Work::Port(PortCommand::GetSerialPort { name: port.clone() }),
                    Operation::Device(DeviceOp::Break { port, ms }),
                )
            },
            RequestPayload::SetSignal { port, dtr, rts } => set_signal(port, dtr, rts),
            RequestPayload::ExecuteMacro { port, macro_name } => self.execute_macro(
                port,
                macro_name,
            ),
            RequestPayload::SendFile { port, file_path, protocol } => send_file(
                port,
                file_path,
                protocol,
            ),
            RequestPayload::ReceiveFile { port, output_dir, protocol } => receive_file(
                port,
                output_dir,
                protocol,
            ),
            _ => {
                assert(false);
                Progress::Done(Ok(ResponsePayload::Pong))
            },
        }
    }

    /// Begin a request, with the moment that an archive is named after.
    pub fn execute_at(&self, payload: RequestPayload, stamp: String) -> (r: Progress)
        ensures
            self.begins(payload, stamp@, r),
    {
        match payload {
            RequestPayload::Ping => Progress::Done(Ok(ResponsePayload::Pong)),
            RequestPayload::Shutdown => Progress::Done(Ok(ResponsePayload::ShutdownAck)),
            RequestPayload::ListPorts => Progress::Do(
                Work::Port(PortCommand::List),
                Operation::Ports(PortsOp::List),
            ),
            RequestPayload::ListHardware => Progress::Do(
                Work::ListDevices,
                Operation::Ports(PortsOp::Hardware),
            ),
            RequestPayload::OpenPort { name, settings } => Progress::Do(
                Work::Port(PortCommand::GetState { name: name.clone() }),
                Operation::Ports(PortsOp::Open { name, settings }),
            ),
            RequestPayload::ReconfigurePort { name, settings } => reconfigure_port(name, settings),
            RequestPayload::ClosePort { name } => Progress::Do(
                Work::Port(PortCommand::Close { name: name.clone() }),
                Operation::Ports(PortsOp::Close { name }),
            ),
            RequestPayload::EspFlash { port, firmware_path, baud } => {
                let args = esp::flash(port.as_str(), firmware_path.as_str(), baud);
                esp_operation(port, Some(concat2("FLASH ", firmware_path.as_str())), args)
            },
            RequestPayload::EspInfo { port } => {
                let args = esp::board_info(port.as_str());
                esp_operation(port, None, args)
            },
            RequestPayload::EspErase { port } => {
                let args = esp::erase_flash(port.as_str());
                esp_operation(port, Some("ERASE FLASH".to_owned()), args)
            },
            RequestPayload::EspWriteBin { port, file_path, address } => {
                let args = esp::write_bin(port.as_str(), file_path.as_str(), address.as_str());
                let mut note = concat3("WRITE-BIN ", file_path.as_str(), " @ ");
                note.append(address.as_str());
                esp_operation(port, Some(note), args)
            },
            RequestPayload::RestStatus => Progress::Do(
                Work::Listener(ListenerRequest::Status),
                Operation::Listener,
            ),
            RequestPayload::RestEnable { bind, port, token } => Progress::Do(
                Work::Listener(ListenerRequest::Enable { bind, port, token }),
                Operation::Listener,
            ),
            RequestPayload::RestDisable => Progress::Do(
                Work::Listener(ListenerRequest::Disable),
                Operation::Listener,
            ),
            RequestPayload::ReadLines { .. } => self.execute_on_lines(payload, stamp),
            RequestPayload::GetStatus { .. } => self.execute_on_lines(payload, stamp),
            RequestPayload::GetStats { .. } => self.execute_on_lines(payload, stamp),
            RequestPayload::Search { .. } => self.execute_on_lines(payload, stamp),
            RequestPayload::Export { .. } => self.execute_on_lines(payload, stamp),
            RequestPayload::Clear { .. } => self.execute_on_lines(payload, stamp),
            RequestPayload::WriteData { .. } => self.execute_on_device(payload),
            RequestPayload::SendBreak { .. } => self.execute_on_device(payload),
            RequestPayload::SetSignal { .. } => self.execute_on_device(payload),
            RequestPayload::ExecuteMacro { .. } => self.execute_on_device(payload),
            RequestPayload::SendFile { .. } => self.execute_on_device(payload),
            RequestPayload::ReceiveFile { .. } => self.execute_on_device(payload),
        }
    }

    /// Begin a request. An archive is named after the present moment.
    pub fn execute(&self, payload: RequestPayload) -> (r: Progress)
        ensures
            exists|stamp: Seq<char>|
                clock::is_file_stamp(stamp) && #[trigger] self.begins(payload, stamp, r),
    {
        let stamp = archive_timestamp();
        let ghost moment = stamp@;
        let r = self.execute_at(payload, stamp);
        assert(self.begins(payload, moment, r));
        r
    }

    /// What an operation waits for.
    pub open spec fn expects(op: Operation, ev: Event) -> bool {
        match op {
            Operation::Ports(o) => ports::ports_expects(o, ev),
            Operation::Read(o) => reading::read_expects(o, ev),
            Operation::Device(o) => device::device_expects(o, ev),
            Operation::Transfer(o) => transfer::transfer_expects(o, ev),
            Operation::Tool(o) => tool::tool_expects(o, ev),
            Operation::Listener => ev is Listener || ev is Error,
            _ => true,
        }
    }

    /// How an operation goes on.
    pub open spec fn next(self, op: Operation, ev: Event, r: Progress) -> bool {
        match op {
            Operation::Ports(o) => ports::ports_next(self, o, ev, r),
            Operation::Read(o) => reading::read_next(o, ev, r),
            Operation::Device(o) => device::device_next(o, ev, r),
            Operation::Transfer(o) => transfer::transfer_next(o, ev, r),
            Operation::Tool(o) => tool::tool_next(self, o, ev, r),
            Operation::Listener => match ev {
                Event::Listener(state) => r == Progress::Done(
                    Ok(ResponsePayload::RestState(state)),
                ),
                Event::Error(e) => r == Progress::Done(Err(EngineError::Tool(e))),
                _ => false,
            },
            // A history that cannot be written changes nothing; a task that
            // does not come to its end does.
            Operation::Record(answer) => match ev {
                Event::Failed(EngineError::Task(e)) => r == Progress::Done(
                    Err(EngineError::Task(e)),
                ),
                _ => r == Progress::Done(Ok(answer)),
            },
            Operation::LogThen { port, message, answer } => r == Progress::Do(
                Work::Log { port, message },
                Operation::Finish(answer),
            ),
            Operation::Finish(answer) => r == Progress::Done(Ok(answer)),
        }
    }

    /// Go on with an operation, given what came of its last work.
    pub fn step(&self, op: Operation, ev: Event) -> (r: Progress)
        requires
            CommandEngine::expects(op, ev),
        ensures
            self.next(op, ev, r),
    {
        match op {
            Operation::Ports(o) => self.ports_step(o, ev),
            Operation::Read(o) => read_step(o, ev),
            Operation::Device(o) => device_step(o, ev),
            Operation::Transfer(o) => transfer_step(o, ev),
            Operation::Tool(o) => self.tool_step(o, ev),
            Operation::Listener => match ev {
                Event::Listener(state) => Progress::Done(Ok(ResponsePayload::RestState(state))),
                Event::Error(e) => Progress::Done(Err(EngineError::Tool(e))),
                _ => {
                    assert(false);
                    Progress::Done(Ok(ResponsePayload::Pong))
                },
            },
            Operation::Record(answer) => match ev {
                Event::Failed(EngineError::Task(e)) => Progress::Done(Err(EngineError::Task(e))),
                _ => Progress::Done(Ok(answer)),
            },
            Operation::LogThen { port, message, answer } => Progress::Do(
                Work::Log { port, message },
                Operation::Finish(answer),
            ),
            Operation::Finish(answer) => Progress::Done(Ok(answer)),
        }
    }
}

/// The serial ports to offer, of those the operating system lists, one entry per
/// physical device.
pub fn hardware_ports(listed: &[String], nodes: DeviceNodes) -> (r: Vec<String>)
    ensures
        port_manager::offer(listed@, nodes, r@),
{
    available_ports(listed, nodes)
}

/// Read a `StoredLine` list as plain payload strings.
pub fn payloads(lines: &[StoredLine]) -> (r: Vec<&str>)
    ensures
        r@.len() == lines@.len(),
        forall|i: int| 0 <= i < lines@.len() ==> (#[trigger] r@[i])@ == lines@[i].payload@,
{
    let mut out: Vec<&str> = Vec::new();
    let mut i: usize = 0;
    while i < lines.len()
        invariant
            i <= lines.len(),
            out@.len() == i,
            forall|j: int| 0 <= j < i ==> (#[trigger] out@[j])@ == lines@[j].payload@,
        decreases lines.len() - i,
    {
        out.push(lines[i].payload.as_str());
        i = i + 1;
    }
    out
}

// ---------------------------------------------------------------------------
// Laws of the engine
// ---------------------------------------------------------------------------

/// Whether an operation is one that the engine hands out.
pub open spec fn sound(op: Operation) -> bool {
    match op {
        Operation::Device(DeviceOp::Ready(run)) => run.wf(),
        Operation::Device(DeviceOp::Step { run, bytes }) => run.under_way(bytes),
        _ => true,
    }
}

/// An operation that the engine hands out can be taken back: from the first step
/// on, every step leaves an operation that the next step can go on with.
pub proof fn operations_stay_sound(e: CommandEngine, op: Operation, ev: Event, r: Progress)
    requires
        CommandEngine::expects(op, ev),
        e.next(op, ev, r),
    ensures
        sound(op),
        r matches Progress::Do(_, next) ==> sound(next),
{
    match (op, ev) {
        (Operation::Device(DeviceOp::Step { run, bytes }), Event::Done) => {
            let next = choose|next: Run|
                device::one_further(run, next) && next.wf() && #[trigger] device::run_goes_on(
                    next,
                    r,
                );
            assert(device::run_goes_on(next, r));
        },
        _ => {},
    }
}

/// The operation that a request begins with is sound.
pub proof fn first_operation_is_sound(
    e: CommandEngine,
    payload: RequestPayload,
    stamp: Seq<char>,
    r: Progress,
)
    requires
        e.begins(payload, stamp, r),
    ensures
        r matches Progress::Do(_, op) ==> sound(op),
{
}

/// A macro that is carried out without a fault tells every one of its steps, in
/// order: after each step the number of steps told is the number of steps done,
/// and at the end what was told is the whole macro.
pub proof fn a_finished_run_tells_every_step(run: Run)
    requires
        run.wf(),
        run.next == run.steps@.len(),
    ensures
        text::texts(run.done@) == device::told(crate::config::step_views(run.steps@)),
{
    let views = crate::config::step_views(run.steps@);
    assert(views.take(run.next as int) =~= views);
}

/// A port that is open is never opened a second time: the request becomes a
/// change of its settings.
pub proof fn opening_an_open_port_reconfigures_it(
    e: CommandEngine,
    name: String,
    settings: PortSettings,
    state: ConnectionState,
    r: Progress,
)
    requires
        e.next(
            Operation::Ports(PortsOp::Open { name, settings }),
            Event::State(state),
            r,
        ),
    ensures
        ports::asks_current(name@, settings, r),
        !(r matches Progress::Do(Work::Port(PortCommand::OpenReal { .. }), _)),
{
}

/// Whatever becomes of the tool, a port that was released for it is opened again
/// with the settings it had.
pub proof fn a_released_port_is_reopened(
    e: CommandEngine,
    job: Job,
    config: PortConfig,
    result: Result<String, String>,
    r: Progress,
    s: Progress,
)
    requires
        e.next(
            Operation::Tool(ToolOp::Run { job, reopen: Some(config) }),
            Event::Output(result),
            r,
        ),
        r matches Progress::Do(_, op) ==> e.next(op, Event::Done, s),
    ensures
        s matches Progress::Do(Work::Port(PortCommand::OpenReal { name, config: c, .. }), _)
            && name@ == job.port@ && c == config,
{
}

/// A request that is refused at once has nothing done for it.
pub proof fn a_refused_request_does_nothing(
    e: CommandEngine,
    payload: RequestPayload,
    stamp: Seq<char>,
    r: Progress,
)
    requires
        e.begins(payload, stamp, r),
        payload matches RequestPayload::SetSignal { dtr: None, rts: None, .. } || (
        payload matches RequestPayload::Export { output_path, .. } && paths::leads_up(
            output_path@,
        )) || (payload matches RequestPayload::ExecuteMacro { macro_name, .. }
            && e.config.spec_steps(macro_name@) is None),
    ensures
        r matches Progress::Done(Err(_)),
{
}

} // verus!
