//! Command line surface: definitions and router.
//!
//! Commands return errors instead of terminating the process, so the library
//! stays usable from tests and other front ends. The exit code is set once, in
//! the program around it.
use vstd::prelude::*;
use vstd::string::*;

use crate::config::{ConfigError, PortConfig};
use crate::export::ExportFormat;
use crate::ipc::IpcError;
use crate::modem::FileTransferProtocol;
use crate::protocol::{PortSettings, SearchMode};
use crate::serial_params::{
    validate_baud, DataBits, FlowControl, ParamError, Parity, StopBits,
};

pub mod handlers;
pub mod output;

verus! {

/// Errors reported by the command line front end.
#[derive(Debug, PartialEq, Eq)]
pub enum CliError {
    Config(ConfigError),
    Ipc(IpcError),
    Io(String),
    Params(ParamError),
    Json(String),
    Message(String),
}

impl CliError {
    /// Build an error from any message.
    pub fn msg(message: &str) -> (r: CliError)
        ensures
            r matches CliError::Message(m) && m@ == message@,
    {
        CliError::Message(message.to_owned())
    }

    /// The message of the error.
    pub open spec fn message(self) -> Seq<char> {
        match self {
            CliError::Config(e) => e.message(),
            CliError::Ipc(e) => e.message(),
            CliError::Io(e) => e@,
            CliError::Params(e) => e.message(),
            CliError::Json(e) => e@,
            CliError::Message(m) => m@,
        }
    }

    /// The message of the error.
    pub fn to_string(&self) -> (r: String)
        ensures
            r@ == self.message(),
    {
        match self {
            CliError::Config(e) => e.to_string(),
            CliError::Ipc(e) => e.to_string(),
            CliError::Io(e) => e.clone(),
            CliError::Params(e) => e.to_string(),
            CliError::Json(e) => e.clone(),
            CliError::Message(m) => m.clone(),
        }
    }
}

/// Serial line options shared by the commands that open a port.
#[derive(Debug, Clone, Copy, PartialEq, Eq, Structural)]
pub struct LineOptions {
    /// Baud rate
    pub baud: u32,
    /// Data bits (5, 6, 7, 8)
    pub data_bits: u8,
    /// Parity
    pub parity: Parity,
    /// Stop bits (1, 2)
    pub stop_bits: u8,
    /// Flow control
    pub flow_control: FlowControl,
}

impl LineOptions {
    /// Whether every value is in range.
    pub open spec fn in_range(self) -> bool {
        self.baud != 0 && 5 <= self.data_bits <= 8 && 1 <= self.stop_bits <= 2
    }

    /// Whether a configuration has these values, and the defaults beside them.
    pub open spec fn describes(self, c: PortConfig) -> bool {
        &&& c.data_bits.value() == self.data_bits
        &&& c.stop_bits.value() == self.stop_bits
        &&& c == (PortConfig {
            baudrate: self.baud,
            data_bits: c.data_bits,
            parity: self.parity,
            stop_bits: c.stop_bits,
            flow_control: self.flow_control,
            ..crate::config::default_port()
        })
    }

    /// The first value that is out of range.
    pub open spec fn fault(self) -> ParamError {
        if self.baud == 0 {
            ParamError::Baud(0)
        } else if !(5 <= self.data_bits <= 8) {
            ParamError::DataBits(self.data_bits)
        } else {
            ParamError::StopBits(self.stop_bits)
        }
    }

    /// Validate the numeric fields.
    fn validate(self) -> (r: Result<(u32, DataBits, StopBits), ParamError>)
        ensures
            match r {
                Ok((baud, data, stop)) => {
                    &&& self.in_range()
                    &&& baud == self.baud
                    &&& data.value() == self.data_bits
                    &&& stop.value() == self.stop_bits
                },
                Err(e) => !self.in_range() && e == self.fault(),
            },
    {
        let baud = match validate_baud(self.baud) {
            Ok(v) => v,
            Err(e) => {
                return Err(e);
            },
        };
        let data = match DataBits::new(self.data_bits) {
            Ok(v) => v,
            Err(e) => {
                return Err(e);
            },
        };
        let stop = match StopBits::new(self.stop_bits) {
            Ok(v) => v,
            Err(e) => {
                return Err(e);
            },
        };
        Ok((baud, data, stop))
    }

    /// The settings that the options describe.
    pub open spec fn gives_config(self, r: Result<PortConfig, ParamError>) -> bool {
        match r {
            Ok(c) => self.in_range() && self.describes(c),
            Err(e) => !self.in_range() && e == self.fault(),
        }
    }

    /// Convert into a port configuration, validating the numeric fields.
    pub fn to_port_config(self) -> (r: Result<PortConfig, ParamError>)
        ensures
            self.gives_config(r),
    {
        match self.validate() {
            Ok((baudrate, data_bits, stop_bits)) => Ok(
                PortConfig {
                    baudrate,
                    data_bits,
                    parity: self.parity,
                    stop_bits,
                    flow_control: self.flow_control,
                    ..PortConfig::default()
                },
            ),
            Err(e) => Err(e),
        }
    }

    /// The settings that the options ask for.
    pub open spec fn gives_settings(self, r: Result<PortSettings, ParamError>) -> bool {
        match r {
            Ok(s) => {
                &&& self.in_range()
                &&& s.baudrate == Some(self.baud)
                &&& s.data_bits matches Some(d) && d.value() == self.data_bits
                &&& s.parity == Some(self.parity)
                &&& s.stop_bits matches Some(t) && t.value() == self.stop_bits
                &&& s.flow_control == Some(self.flow_control)
            },
            Err(e) => !self.in_range() && e == self.fault(),
        }
    }

    /// Convert into protocol settings.
    pub fn to_settings(self) -> (r: Result<PortSettings, ParamError>)
        ensures
            self.gives_settings(r),
    {
        match self.validate() {
            Ok((baudrate, data_bits, stop_bits)) => Ok(
                PortSettings {
                    baudrate: Some(baudrate),
                    data_bits: Some(data_bits),
                    parity: Some(self.parity),
                    stop_bits: Some(stop_bits),
                    flow_control: Some(self.flow_control),
                },
            ),
            Err(e) => Err(e),
        }
    }
}

/// `DevSerial`, a serial hardware bridge for LLMs, daemons and developers.
#[derive(Debug, PartialEq, Eq)]
pub struct Cli {
    /// Path to a configuration file (default: ./devserial.toml, then the user config directory)
    pub config: Option<String>,
    /// Custom IPC endpoint (Unix socket path or Windows named pipe)
    pub socket: Option<String>,
    pub command: Option<Command>,
}

/// The commands of the command line.
#[derive(Debug, PartialEq, Eq)]
pub enum Command {
    /// Run as MCP server (stdio transport), the default when stdin is piped
    Mcp,
    /// Start or manage the background daemon service
    Daemon {
        /// Check if the daemon is currently running
        status: bool,
        /// Stop a running daemon
        stop: bool,
    },
    /// List managed ports and detected serial hardware
    List {
        /// Output as JSON
        json: bool,
    },
    /// Open a serial port on the daemon
    Open {
        /// Serial port path (e.g. /dev/ttyUSB0, COM3)
        port: String,
        line: LineOptions,
    },
    /// Close a managed serial port
    Close {
        /// Serial port path
        port: String,
    },
    /// Read lines from a serial port's buffer
    Read {
        /// Serial port path
        port: String,
        /// Number of recent lines to read (from the end)
        tail: Option<u32>,
        /// Starting line ID (1-based, negative counts from the end)
        from: Option<i64>,
        /// Read lines after this ID (exclusive)
        after: Option<i64>,
        /// Only lines newer than this RFC 3339 timestamp
        since: Option<String>,
        /// Maximum number of lines to read
        limit: u32,
        /// Wait up to this many milliseconds for new data
        wait_ms: u64,
        /// Continuously follow and stream new lines
        follow: bool,
        /// Include timestamps in the output
        timestamps: bool,
        /// Output as JSON
        json: bool,
    },
    /// Write data to a serial port (reads from stdin if data is omitted or '-')
    Write {
        /// Serial port path
        port: String,
        /// Data string to send (reads from stdin if omitted or '-')
        data: Option<String>,
        /// Treat data as hex-encoded bytes (e.g. "0x0D0A" or "414243")
        hex: bool,
        /// Append a newline (\r\n) to the data
        newline: bool,
    },
    /// Send an RS-232 serial BREAK signal (TX low pulse)
    Break {
        /// Serial port path
        port: String,
        /// Duration of the BREAK pulse in milliseconds
        duration_ms: u64,
    },
    /// Send a file via modem protocol (XMODEM, YMODEM, ZMODEM)
    Send {
        /// Serial port path
        port: String,
        /// Path to the file to send
        file: String,
        /// Protocol to use
        protocol: FileTransferProtocol,
    },
    /// Receive a file via modem protocol (XMODEM, YMODEM, ZMODEM)
    Recv {
        /// Serial port path
        port: String,
        /// Output directory to save the received file in
        output: String,
        /// Protocol to use
        protocol: FileTransferProtocol,
    },
    /// Set DTR and/or RTS control lines
    Signal {
        /// Serial port path
        port: String,
        /// Set DTR line (true = HIGH, false = LOW)
        dtr: Option<bool>,
        /// Set RTS line (true = HIGH, false = LOW)
        rts: Option<bool>,
    },
    /// Execute a macro sequence on a port (e.g. `reset`, `enter_bootloader`)
    Macro {
        /// Serial port path
        port: String,
        /// Macro name
        name: String,
    },
    /// Search buffered serial data
    Search {
        /// Serial port path
        port: String,
        /// Search pattern
        query: String,
        /// How the query is interpreted
        mode: SearchMode,
        /// Only lines at or after this RFC 3339 timestamp
        start: Option<String>,
        /// Only lines at or before this RFC 3339 timestamp
        end: Option<String>,
        /// Maximum results to return
        limit: u32,
        /// Output as JSON
        json: bool,
    },
    /// Export buffered lines to a file
    Export {
        /// Serial port path
        port: String,
        /// Output file path
        output: String,
        /// File format
        format: ExportFormat,
        /// Starting line ID
        start: Option<i64>,
        /// Ending line ID
        end: Option<i64>,
    },
    /// Clear buffered serial data
    Clear {
        /// Serial port path
        port: String,
        /// Archive the database into the configured archive directory first
        archive: bool,
    },
    /// Show connection state and buffer statistics
    Stats {
        /// Serial port path
        port: String,
        /// Output as JSON
        json: bool,
    },
    /// Flash firmware to an ESP device (requires espflash)
    Flash {
        /// Serial port path
        port: String,
        /// Path to the firmware file (ELF or .bin)
        firmware: String,
        /// Baud rate for flashing
        baud: Option<u32>,
        /// Follow the serial output after flashing
        monitor: bool,
    },
    /// Open the GUI port connection manager
    ///
    /// Starting `devserial` without arguments does the same, but only from a
    /// terminal. A desktop launcher has no terminal on stdin, so it needs this
    /// explicit form.
    Gui,
    /// Open a standalone GUI serial monitor
    Monitor {
        /// Serial port path (e.g. /dev/ttyUSB0)
        port: String,
        line: LineOptions,
    },
    /// Open a TUI serial monitor in the terminal
    Tui {
        /// Serial port path (e.g. /dev/ttyUSB0)
        port: String,
        line: LineOptions,
    },
    /// Display version, author, license and repository info
    About,
    /// Internal: monitor subprocess (used by the MCP tool `serial_monitor_open`)
    MonitorSubprocess { port: String, db: String, info: String },
}

impl Command {
    /// Whether the command is carried out by the daemon.
    pub open spec fn is_remote(self) -> bool {
        !(self is Mcp || self is Daemon || self is Gui || self is Monitor || self is Tui
            || self is About || self is MonitorSubprocess)
    }
}

/// What the program does.
#[derive(Debug, PartialEq, Eq)]
pub enum Role {
    /// Serve MCP over standard input and output.
    Mcp,
    /// Run the daemon.
    Daemon,
    /// Say whether the daemon runs, or stop it.
    DaemonControl { status: bool, stop: bool },
    /// Print what the program is.
    About,
    /// Open the window in which a port is chosen.
    Gui,
    /// Open a window for a port.
    Monitor { port: String, config: PortConfig },
    /// Open a terminal monitor for a port.
    Tui { port: String, config: PortConfig },
    /// Open a window for a capture database.
    MonitorSubprocess { port: String, db: String, info: String },
    /// Have the daemon carry out a command.
    Remote(Command),
}

/// What a command starts.
pub open spec fn starts(
    command: Option<Command>,
    interactive: bool,
    r: Result<Role, CliError>,
) -> bool {
    match command {
        None => r == Ok::<Role, CliError>(
            if interactive {
                Role::Gui
            } else {
                Role::Mcp
            },
        ),
        Some(Command::Mcp) => r == Ok::<Role, CliError>(Role::Mcp),
        Some(Command::Daemon { status, stop }) => r == Ok::<Role, CliError>(
            if status || stop {
                Role::DaemonControl { status, stop }
            } else {
                Role::Daemon
            },
        ),
        Some(Command::About) => r == Ok::<Role, CliError>(Role::About),
        Some(Command::Gui) => r == Ok::<Role, CliError>(Role::Gui),
        Some(Command::Monitor { port, line }) => match r {
            Ok(Role::Monitor { port: p, config }) => p == port && line.in_range()
                && line.describes(config),
            Err(CliError::Params(e)) => !line.in_range() && e == line.fault(),
            _ => false,
        },
        Some(Command::Tui { port, line }) => match r {
            Ok(Role::Tui { port: p, config }) => p == port && line.in_range()
                && line.describes(config),
            Err(CliError::Params(e)) => !line.in_range() && e == line.fault(),
            _ => false,
        },
        Some(Command::MonitorSubprocess { port, db, info }) => r == Ok::<Role, CliError>(
            Role::MonitorSubprocess { port, db, info },
        ),
        Some(other) => r == Ok::<Role, CliError>(Role::Remote(other)),
    }
}

/// What the program does for a command, where standard input is a terminal or
/// is not: without a command it serves MCP, but in a terminal it opens the
/// window.
pub fn dispatch(command: Option<Command>, interactive: bool) -> (r: Result<Role, CliError>)
    ensures
        starts(command, interactive, r),
{
    match command {
        None => if interactive {
            Ok(Role::Gui)
        } else {
            Ok(Role::Mcp)
        },
        Some(Command::Mcp) => Ok(Role::Mcp),
        Some(Command::Daemon { status, stop }) => if status || stop {
            Ok(Role::DaemonControl { status, stop })
        } else {
            Ok(Role::Daemon)
        },
        Some(Command::About) => Ok(Role::About),
        Some(Command::Gui) => Ok(Role::Gui),
        Some(Command::Monitor { port, line }) => match line.to_port_config() {
            Ok(config) => Ok(Role::Monitor { port, config }),
            Err(e) => Err(CliError::Params(e)),
        },
        Some(Command::Tui { port, line }) => match line.to_port_config() {
            Ok(config) => Ok(Role::Tui { port, config }),
            Err(e) => Err(CliError::Params(e)),
        },
        Some(Command::MonitorSubprocess { port, db, info }) => Ok(
            Role::MonitorSubprocess { port, db, info },
        ),
        Some(other) => Ok(Role::Remote(other)),
    }
}

} // verus!
