//! The serial monitor window.
//!
//! A window either owns the port it shows, or shows the capture database of a
//! port that another process owns and reports what the user does to that
//! process. What the window holds and decides stands here; drawing it, and the
//! reading and writing of the store and the port, are done around it.
use vstd::prelude::*;
use vstd::string::*;

use crate::clock;
use crate::clock::now_ns;
use crate::config::PortConfig;
use crate::export::{format_time_of_day, now_time_of_day};
use crate::gui_ipc::MonitorEvent;
use crate::hex;
use crate::hex::{decode, encode, format_dump, has_prefix, HexError};
use crate::protocol::PortSettings;
use crate::storage::StoredLine;
use crate::text;
use crate::text::{bytes_of, concat2, concat3, contains, decimal, trim};

pub mod buffer;
pub mod dialog;
pub mod export_form;
pub mod history;
pub mod text_menu;
pub mod transfer_form;
pub mod windows;

use crate::monitor::buffer::{BufferView, DisplayBuffer, DisplayLine};
use crate::monitor::dialog::baud_after_edit;
use crate::monitor::export_form::ExportForm;
use crate::monitor::history::SendHistory;
use crate::monitor::transfer_form::TransferForm;

verus! {

/// Lines that a window reads from the store at once.
pub const READ_BATCH: u32 = 500;

/// Why a window that owns its port reports nothing to a parent.
pub const OWNS_PORT: &'static str = "this window owns the port and handles actions directly";

/// What a window that does not own its port says when it should connect.
pub const NOT_OWNED: &'static str =
    "This window does not own the port; connect and disconnect are unavailable here.";

/// What is sent behind a line of input.
#[derive(Debug, Clone, Copy, PartialEq, Eq, Structural)]
pub enum LineEnding {
    /// Nothing.
    Bare,
    Lf,
    CrLf,
    Cr,
}

impl LineEnding {
    /// The bytes of the line ending.
    pub open spec fn bytes(self) -> Seq<u8> {
        match self {
            LineEnding::Bare => Seq::empty(),
            LineEnding::Lf => seq![10u8],
            LineEnding::CrLf => seq![13u8, 10u8],
            LineEnding::Cr => seq![13u8],
        }
    }

    /// The bytes of the line ending.
    pub fn suffix(self) -> (r: Vec<u8>)
        ensures
            r@ == self.bytes(),
    {
        let mut out: Vec<u8> = Vec::new();
        match self {
            LineEnding::Bare => {},
            LineEnding::Lf => {
                out.push(10);
            },
            LineEnding::CrLf => {
                out.push(13);
                out.push(10);
            },
            LineEnding::Cr => {
                out.push(13);
            },
        }
        assert(out@ =~= self.bytes());
        out
    }

    /// What a choice of this line ending reads.
    pub open spec fn is_labelled(self, r: &'static str) -> bool {
        r@ == (match self {
            LineEnding::Bare => "None"@,
            LineEnding::Lf => "LF"@,
            LineEnding::CrLf => "CRLF"@,
            LineEnding::Cr => "CR"@,
        })
    }

    /// The line ending in words.
    pub fn label(self) -> (r: &'static str)
        ensures
            self.is_labelled(r),
    {
        match self {
            LineEnding::Bare => "None",
            LineEnding::Lf => "LF",
            LineEnding::CrLf => "CRLF",
            LineEnding::Cr => "CR",
        }
    }
}

/// How a window shows its lines.
#[derive(Debug, Clone, Copy, PartialEq, Eq, Structural)]
pub struct ViewOptions {
    pub auto_follow: bool,
    pub paused: bool,
    pub show_timestamps: bool,
    pub hex_view: bool,
    /// Text is being selected in the buffer.
    pub selecting: bool,
}

/// What a window knows of its port, and what it may do with it.
#[derive(Debug, Clone, Copy, PartialEq, Eq, Structural)]
pub struct Link {
    pub connected: bool,
    /// Whether the window writes to the port itself.
    pub owns_port: bool,
    /// Whether the window changes the settings of the port itself.
    pub can_reconfigure: bool,
    /// Whether the window connects and disconnects the port itself.
    pub can_toggle: bool,
    pub dtr_state: bool,
    pub rts_state: bool,
    /// The last line that was read from the store; the greatest number while
    /// the size of the store is not known yet.
    pub last_id: i64,
}

/// The dialog in which the settings of the port are changed.
#[derive(Debug)]
pub struct SettingsForm {
    pub is_open: bool,
    /// Live line settings; the single place the window keeps them.
    pub config: PortConfig,
    pub custom_baud: String,
    /// What the status line says, and whether it is a fault.
    pub status: Option<(String, bool)>,
}

/// Which windows and dialogs are wanted.
#[derive(Debug, Clone, Copy, PartialEq, Eq, Structural)]
pub struct WindowFlags {
    pub is_open: bool,
    pub show_about_dialog: bool,
    pub open_port_dialog_requested: bool,
}

/// What a monitor window holds.
#[derive(Debug)]
pub struct PortMonitorState {
    pub port_name: String,
    pub port_info: String,
    pub buffer: DisplayBuffer,
    pub history: SendHistory,
    pub export: ExportForm,
    pub transfer: TransferForm,
    pub settings: SettingsForm,
    pub input: String,
    pub line_ending: LineEnding,
    pub view: ViewOptions,
    pub link: Link,
    pub flags: WindowFlags,
}

/// Whether a status line says this.
pub open spec fn says(status: Option<(String, bool)>, message: Seq<char>, fault: bool) -> bool {
    status matches Some((m, f)) && m@ == message && f == fault
}

/// How a change of settings is carried out.
#[derive(Debug, PartialEq, Eq)]
pub enum Reconfiguration {
    /// The window does it itself.
    Direct(PortConfig),
    /// The process that owns the port does it.
    Event(MonitorEvent),
    /// Nobody does; the window says why.
    Refused,
}

/// What is to be done with a line of input.
#[derive(Debug, PartialEq, Eq)]
pub enum SendStep {
    /// Nothing: there is no input, or the window says why it cannot be sent.
    Nothing,
    /// Write these bytes to the port.
    Write { data: Vec<u8> },
    /// Report this to the process that owns the port.
    Report { event: MonitorEvent },
}

/// What is done when the connection is toggled, in a word.
pub open spec fn toggle_word(connect: bool) -> Seq<char> {
    if connect {
        "Reconnect"@
    } else {
        "Disconnect"@
    }
}

fn toggle_name(connect: bool) -> (r: &'static str)
    ensures
        r@ == toggle_word(connect),
{
    if connect {
        "Reconnect"
    } else {
        "Disconnect"
    }
}

/// The bytes of a line of input.
pub open spec fn input_bytes(input: Seq<char>, ending: LineEnding) -> Seq<u8> {
    vstd::utf8::encode_utf8(input) + ending.bytes()
}

/// The settings of a window, all of them named.
pub open spec fn all_settings(c: PortConfig) -> PortSettings {
    PortSettings {
        baudrate: Some(c.baudrate),
        data_bits: Some(c.data_bits),
        parity: Some(c.parity),
        stop_bits: Some(c.stop_bits),
        flow_control: Some(c.flow_control),
    }
}

/// Whether a buffer has one line more than another, with this payload, and a
/// time of day in front of it.
pub open spec fn has_line_more(
    before: BufferView,
    after: BufferView,
    payload: Seq<char>,
    is_sent: bool,
    at: i64,
) -> bool {
    exists|line: DisplayLine| #[trigger]
        before.pushed(line).refreshed() == after && line.payload@ == payload && line.is_sent
            == is_sent && line.timestamp_ns == at && clock::is_time_of_day(line.timestamp@)
}

/// The lines of the store as they come into the display.
#[verifier::opaque]
pub open spec fn is_shown_as(line: StoredLine, shown: DisplayLine) -> bool {
    &&& shown.payload@ == line.payload@
    &&& shown.timestamp_ns == line.timestamp_ns
    &&& !shown.is_sent
    &&& clock::is_screen_time(line.timestamp_ns, shown.timestamp@)
}

/// A buffer with lines pushed one after the other.
pub open spec fn all_pushed(b: BufferView, lines: Seq<DisplayLine>) -> BufferView
    decreases lines.len(),
{
    if lines.len() == 0 {
        b
    } else {
        all_pushed(b, lines.drop_last()).pushed(lines.last())
    }
}

/// Whether a buffer has these lines of the store more than another, with the
/// filter applied anew.
pub open spec fn has_lines_more(
    before: BufferView,
    after: BufferView,
    lines: Seq<StoredLine>,
) -> bool {
    exists|shown: Seq<DisplayLine>|
        {
            &&& #[trigger] all_pushed(before, shown).rebuilt() == after
            &&& shown.len() == lines.len()
            &&& forall|i: int| 0 <= i < shown.len() ==> is_shown_as(lines[i], #[trigger] shown[i])
        }
}

fn take_lines(buffer: &mut DisplayBuffer, lines: &[StoredLine])
    ensures
        has_lines_more(old(buffer)@, final(buffer)@, lines@),
{
    let ghost start = buffer@;
    let ghost mut shown: Seq<DisplayLine> = Seq::empty();
    let mut i: usize = 0;
    while i < lines.len()
        invariant
            i <= lines.len(),
            shown.len() == i,
            forall|j: int| 0 <= j < i ==> is_shown_as(lines@[j], #[trigger] shown[j]),
            buffer@ == all_pushed(start, shown),
        decreases lines.len() - i,
    {
        let line = &lines[i];
        let next = DisplayLine {
            timestamp: format_time_of_day(line.timestamp_ns),
            timestamp_ns: line.timestamp_ns,
            payload: line.payload.clone(),
            is_sent: false,
        };
        let ghost n = next;
        buffer.push_display_line(next);
        proof {
            reveal(is_shown_as);
            assert(shown.push(n).drop_last() =~= shown);
            shown = shown.push(n);
        }
        i = i + 1;
    }
    buffer.rebuild_filter();
    assert(all_pushed(start, shown).rebuilt() == buffer@);
}

/// What becomes of a line of input: whether its bytes are written or reported,
/// or why they cannot be.
#[verifier::opaque]
pub open spec fn prepared(
    input: Seq<char>,
    ending: LineEnding,
    owns_port: bool,
    r: Result<SendStep, String>,
) -> bool {
    match r {
        Ok(SendStep::Nothing) => false,
        Ok(SendStep::Write { data }) => owns_port && sends(input, ending, data@),
        Ok(SendStep::Report { event }) => {
            &&& !owns_port
            &&& event matches MonitorEvent::Write { hex: h }
            &&& exists|data: Seq<u8>| #[trigger]
                sends(input, ending, data) && h@ == hex::encoded(data)
        },
        Err(reason) => faulty(input, reason@),
    }
}

fn prepare(input: &str, ending: LineEnding, owns_port: bool) -> (r: Result<SendStep, String>)
    ensures
        prepared(input@, ending, owns_port, r),
        !(r matches Ok(SendStep::Nothing)),
{
    reveal(prepared);
    match input_data(input, ending) {
        Ok(data) => if owns_port {
            Ok(SendStep::Write { data })
        } else {
            assert(sends(input@, ending, data@));
            Ok(SendStep::Report { event: MonitorEvent::Write { hex: encode(data.as_slice()) } })
        },
        Err(e) => Err(e),
    }
}

impl PortMonitorState {
    /// A window that shows the capture database of a port, or owns the port.
    pub fn new(port_name: String, port_info: String, history: Vec<String>, owns_port: bool) -> (r:
        PortMonitorState)
        ensures
            r.port_name == port_name,
            r.port_info == port_info,
            r.history@.entries == text::texts(history@),
            r.link.owns_port == owns_port,
            !r.link.can_reconfigure,
            !r.link.can_toggle,
            r.settings.config == crate::config::default_port(),
            r.starts(),
    {
        PortMonitorState::new_with_reconfigure(
            port_name,
            port_info,
            history,
            owns_port,
            false,
            None,
            false,
        )
    }

    /// Whether the window is one that was just opened.
    pub open spec fn starts(self) -> bool {
        &&& self.buffer@.lines.len() == 0
        &&& !self.buffer@.filter_active
        &&& self.history@.index is None
        &&& !self.export.is_open
        &&& !self.transfer.is_open
        &&& self.settings_start()
        &&& self.input@.len() == 0
        &&& self.line_ending == LineEnding::CrLf
        &&& self.view == (ViewOptions {
            auto_follow: true,
            paused: false,
            show_timestamps: true,
            hex_view: false,
            selecting: false,
        })
        &&& self.link.connected
        &&& !self.link.dtr_state
        &&& !self.link.rts_state
        &&& self.link.last_id == i64::MAX
        &&& self.flags == (WindowFlags {
            is_open: true,
            show_about_dialog: false,
            open_port_dialog_requested: false,
        })
    }

    /// Whether the settings dialog is one that was not opened yet.
    pub open spec fn settings_start(self) -> bool {
        &&& !self.settings.is_open
        &&& self.settings.custom_baud@ == text::dec_nat(self.settings.config.baudrate as nat)
        &&& self.settings.status is None
    }

    /// A window with what its owner lets it do.
    pub fn new_with_reconfigure(
        port_name: String,
        port_info: String,
        history: Vec<String>,
        owns_port: bool,
        can_reconfigure: bool,
        initial_config: Option<PortConfig>,
        can_toggle: bool,
    ) -> (r: PortMonitorState)
        ensures
            r.port_name == port_name,
            r.port_info == port_info,
            r.history@.entries == text::texts(history@),
            r.link.owns_port == owns_port,
            r.link.can_reconfigure == can_reconfigure,
            r.link.can_toggle == can_toggle,
            r.settings.config == (match initial_config {
                Some(c) => c,
                None => crate::config::default_port(),
            }),
            r.starts(),
    {
        let config = match initial_config {
            Some(c) => c,
            None => PortConfig::default(),
        };
        PortMonitorState {
            port_name,
            port_info,
            buffer: DisplayBuffer::new(),
            history: SendHistory::new(history),
            export: ExportForm::new(),
            transfer: TransferForm::new(),
            settings: SettingsForm {
                is_open: false,
                config,
                custom_baud: decimal(config.baudrate as u64),
                status: None,
            },
            input: String::new(),
            line_ending: LineEnding::CrLf,
            view: ViewOptions {
                auto_follow: true,
                paused: false,
                show_timestamps: true,
                hex_view: false,
                selecting: false,
            },
            link: Link {
                connected: true,
                owns_port,
                can_reconfigure,
                can_toggle,
                dtr_state: false,
                rts_state: false,
                last_id: i64::MAX,
            },
            flags: WindowFlags {
                is_open: true,
                show_about_dialog: false,
                open_port_dialog_requested: false,
            },
        }
    }

    /// Live line settings of this window.
    pub fn current_config(&self) -> (r: PortConfig)
        ensures
            r == self.settings.config,
    {
        self.settings.config
    }

    // -------------------------------------------------------- connection

    /// Whether a window asks for its port to be opened or closed.
    pub open spec fn toggles(self, after: Self, r: Option<(bool, PortConfig)>) -> bool {
        &&& after == (PortMonitorState { settings: after.settings, ..self })
        &&& after.settings == (SettingsForm {
            status: after.settings.status,
            ..self.settings
        })
        &&& if self.link.can_toggle {
            r == Some((!self.link.connected, self.settings.config)) && after.settings.status
                == self.settings.status
        } else {
            r is None && says(after.settings.status, NOT_OWNED@, true)
        }
    }

    /// Connect or disconnect the port this window owns: what is to be done, and
    /// with which settings.
    ///
    /// Windows that only display a capture database, such as the monitor
    /// subprocess of the MCP server, do not own the port and say so instead of
    /// sending a command nobody handles.
    pub fn toggle_connection(&mut self) -> (r: Option<(bool, PortConfig)>)
        ensures
            old(self).toggles(*final(self), r),
    {
        if self.link.can_toggle {
            Some((!self.link.connected, self.settings.config))
        } else {
            self.settings.status = Some((NOT_OWNED.to_owned(), true));
            None
        }
    }

    /// The marker of a port that was connected or disconnected.
    pub open spec fn connection_marker(self, connect: bool) -> Seq<char> {
        if connect {
            "━━━ PORT CONNECTED: "@ + self.port_name@ + " ("@ + self.port_info@ + ") ━━━"@
        } else {
            "━━━ PORT DISCONNECTED: "@ + self.port_name@ + " ━━━"@
        }
    }

    fn connection_notice(&self, connect: bool) -> (r: String)
        ensures
            r@ == self.connection_marker(connect),
    {
        if connect {
            let mut m = concat3("━━━ PORT CONNECTED: ", self.port_name.as_str(), " (");
            m.append(self.port_info.as_str());
            m.append(") ━━━");
            m
        } else {
            concat3("━━━ PORT DISCONNECTED: ", self.port_name.as_str(), " ━━━")
        }
    }

    /// How a window shows that its port was opened or closed.
    pub open spec fn is_toggled(
        self,
        connect: bool,
        outcome: Result<(), String>,
        after: Self,
        r: Option<(i64, String)>,
    ) -> bool {
        &&& after == (PortMonitorState {
            link: after.link,
            buffer: after.buffer,
            settings: after.settings,
            ..self
        })
        &&& after.link == (Link {
            connected: after.link.connected,
            ..self.link
        })
        &&& after.settings == (SettingsForm {
            status: after.settings.status,
            ..self.settings
        })
        &&& match outcome {
            Ok(_) => {
                &&& after.link.connected == connect
                &&& after.settings.status == self.settings.status
                &&& r matches Some((at, m))
                &&& m@ == self.connection_marker(connect)
                &&& has_line_more(self.buffer@, after.buffer@, m@, false, at)
            },
            Err(e) => {
                &&& r is None
                &&& after.link.connected == self.link.connected
                &&& after.buffer == self.buffer
                &&& says(
                    after.settings.status,
                    toggle_word(connect) + " failed: "@ + e@,
                    true,
                )
            },
        }
    }

    /// The port was connected or disconnected, or could not be. Where it was, a
    /// marker comes into the display, which also goes into the store.
    pub fn connection_toggled(&mut self, connect: bool, outcome: Result<(), String>) -> (r: Option<
        (i64, String),
    >)
        ensures
            old(self).is_toggled(connect, outcome, *final(self), r),
    {
        match outcome {
            Ok(_) => {
                let notice = self.connection_notice(connect);
                self.link.connected = connect;
                let at = self.add_line(notice.as_str(), false);
                Some((at, notice))
            },
            Err(e) => {
                let action = toggle_name(connect);
                self.settings.status = Some((concat3(action, " failed: ", e.as_str()), true));
                None
            },
        }
    }

    /// Append a line of this moment to the display; where a filter is active, it
    /// is applied anew. The moment comes back.
    fn add_line(&mut self, payload: &str, is_sent: bool) -> (r: i64)
        ensures
            *final(self) == (PortMonitorState { buffer: final(self).buffer, ..*old(self) }),
            has_line_more(old(self).buffer@, final(self).buffer@, payload@, is_sent, r),
    {
        let timestamp_ns = now_ns();
        let line = DisplayLine {
            timestamp: now_time_of_day(),
            timestamp_ns,
            payload: payload.to_owned(),
            is_sent,
        };
        let ghost before = self.buffer@;
        let ghost l = line;
        self.buffer.push_display_line(line);
        self.buffer.refresh();
        assert(before.pushed(l).refreshed() == self.buffer@);
        timestamp_ns
    }

    // -------------------------------------------------------- reading

    /// Whether a window has yet to begin to read.
    pub open spec fn wants_total(self, r: bool) -> bool {
        r == (!self.view.paused && self.link.last_id == i64::MAX)
    }

    /// Whether the size of the store has to be asked for before lines are read.
    pub fn needs_total(&self) -> (r: bool)
        ensures
            self.wants_total(r),
    {
        !self.view.paused && self.link.last_id == i64::MAX
    }

    /// Where a window begins to read.
    pub open spec fn takes_total(self, total_lines: u64, after: Self) -> bool {
        &&& after == (PortMonitorState { link: after.link, ..self })
        &&& after.link == (Link {
            last_id: if total_lines > i64::MAX {
                0
            } else {
                total_lines as i64
            },
            ..self.link
        })
    }

    /// Take over the size of the store: only later lines are shown.
    pub fn take_total(&mut self, total_lines: u64)
        ensures
            old(self).takes_total(total_lines, *final(self)),
    {
        self.link.last_id = if total_lines > i64::MAX as u64 {
            0
        } else {
            total_lines as i64
        };
    }

    /// Which lines a window reads next.
    pub open spec fn reads_next(self, r: Option<(i64, u32)>) -> bool {
        r == (if self.view.paused || self.link.last_id == i64::MAX {
            None
        } else {
            Some(((self.link.last_id + 1) as i64, READ_BATCH))
        })
    }

    /// From which line on to read from the store; nothing while the window is
    /// paused, or while the size of the store is not known.
    pub fn next_read(&self) -> (r: Option<(i64, u32)>)
        ensures
            self.reads_next(r),
    {
        if self.view.paused || self.link.last_id == i64::MAX {
            None
        } else {
            Some((self.link.last_id + 1, READ_BATCH))
        }
    }

    /// How a window shows lines that came in.
    pub open spec fn takes_lines(self, new_lines: &[StoredLine], after: Self) -> bool {
        &&& after == (PortMonitorState {
            buffer: after.buffer,
            link: after.link,
            ..self
        })
        &&& after.link == (Link { last_id: after.link.last_id, ..self.link })
        &&& if new_lines@.len() == 0 {
            after.buffer == self.buffer && after.link.last_id == self.link.last_id
        } else {
            &&& after.link.last_id == new_lines@.last().id
            &&& has_lines_more(self.buffer@, after.buffer@, new_lines@)
        }
    }

    /// Take lines from the store into the display.
    pub fn update_lines(&mut self, new_lines: &[StoredLine])
        ensures
            old(self).takes_lines(new_lines, *final(self)),
    {
        if new_lines.len() > 0 {
            take_lines(&mut self.buffer, new_lines);
            self.link.last_id = new_lines[new_lines.len() - 1].id;
        }
    }

    // -------------------------------------------------------- settings

    /// The settings that are applied: those of the dialog, with the baud rate
    /// that is entered in it.
    pub open spec fn wanted_config(self) -> PortConfig {
        PortConfig {
            baudrate: match dialog::entered_baud(self.settings.custom_baud@) {
                Some(v) => v,
                None => self.settings.config.baudrate,
            },
            ..self.settings.config
        }
    }

    /// How the settings of a window are to be applied.
    pub open spec fn applies(self, after: Self, r: Reconfiguration) -> bool {
        &&& after == (PortMonitorState { settings: after.settings, ..self })
        &&& ({
            let config = self.wanted_config();
            match r {
                Reconfiguration::Direct(c) => self.link.can_reconfigure && c == config
                    && after.settings == (SettingsForm { config, ..self.settings }),
                Reconfiguration::Event(e) => {
                    &&& !self.link.can_reconfigure && !self.link.owns_port
                    &&& e matches MonitorEvent::Reconfigure { settings }
                    &&& settings == all_settings(config)
                    &&& after.settings == (SettingsForm { config, ..self.settings })
                },
                Reconfiguration::Refused => {
                    &&& !self.link.can_reconfigure && self.link.owns_port
                    &&& after.settings == (SettingsForm {
                        config,
                        status: after.settings.status,
                        is_open: true,
                        ..self.settings
                    })
                    &&& says(
                        after.settings.status,
                        "Reconfiguration failed: "@ + OWNS_PORT@,
                        true,
                    )
                },
            }
        })
    }

    /// Apply the settings of the dialog: how that is carried out.
    pub fn apply_reconfiguration(&mut self) -> (r: Reconfiguration)
        ensures
            old(self).applies(*final(self), r),
    {
        self.settings.config.baudrate = baud_after_edit(
            self.settings.config.baudrate,
            self.settings.custom_baud.as_str(),
        );
        let config = self.settings.config;
        if self.link.can_reconfigure {
            Reconfiguration::Direct(config)
        } else if self.link.owns_port {
            let _ = self.reconfigured(Err(OWNS_PORT.to_owned()));
            Reconfiguration::Refused
        } else {
            Reconfiguration::Event(
                MonitorEvent::Reconfigure {
                    settings: PortSettings {
                        baudrate: Some(config.baudrate),
                        data_bits: Some(config.data_bits),
                        parity: Some(config.parity),
                        stop_bits: Some(config.stop_bits),
                        flow_control: Some(config.flow_control),
                    },
                },
            )
        }
    }

    /// How a window shows that its port was set up.
    pub open spec fn is_reconfigured(
        self,
        outcome: Result<(), String>,
        after: Self,
        r: Option<(i64, String)>,
    ) -> bool {
        &&& after == (PortMonitorState {
            port_info: after.port_info,
            buffer: after.buffer,
            settings: after.settings,
            ..self
        })
        &&& after.settings == (SettingsForm {
            status: after.settings.status,
            is_open: outcome is Err,
            ..self.settings
        })
        &&& ({
            let summary = self.settings.config.summary();
            match outcome {
                Ok(_) => {
                    let marker = "━━━ PORT RECONFIGURED: "@ + summary + " ━━━"@;
                    &&& after.port_info@ == summary
                    &&& r matches Some((at, m))
                    &&& m@ == marker
                    &&& has_line_more(self.buffer@, after.buffer@, m@, false, at)
                    &&& says(
                        after.settings.status,
                        "Port reconfigured to "@ + summary,
                        false,
                    )
                },
                Err(e) => {
                    &&& r is None
                    &&& after.port_info == self.port_info
                    &&& after.buffer == self.buffer
                    &&& says(
                        after.settings.status,
                        "Reconfiguration failed: "@ + e@,
                        true,
                    )
                },
            }
        })
    }

    /// The settings were applied, or could not be. Where they were, a marker
    /// comes into the display, which also goes into the store.
    pub fn reconfigured(&mut self, outcome: Result<(), String>) -> (r: Option<(i64, String)>)
        ensures
            old(self).is_reconfigured(outcome, *final(self), r),
    {
        match outcome {
            Ok(_) => {
                let summary = self.settings.config.framing_summary();
                let marker = concat3("━━━ PORT RECONFIGURED: ", summary.as_str(), " ━━━");
                let at = self.add_line(marker.as_str(), false);
                self.settings.status = Some(
                    (concat2("Port reconfigured to ", summary.as_str()), false),
                );
                self.port_info = summary;
                self.settings.is_open = false;
                Some((at, marker))
            },
            Err(e) => {
                self.settings.status = Some(
                    (concat2("Reconfiguration failed: ", e.as_str()), true),
                );
                self.settings.is_open = true;
                None
            },
        }
    }

    // -------------------------------------------------------- actions

    /// What a window asks of the owner of its port.
    pub open spec fn requests(
        self,
        event: MonitorEvent,
        after: Self,
        r: Option<MonitorEvent>,
    ) -> bool {
        &&& after == (PortMonitorState { settings: after.settings, ..self })
        &&& after.settings == (SettingsForm {
            status: after.settings.status,
            ..self.settings
        })
        &&& if self.link.owns_port {
            r is None && says(after.settings.status, OWNS_PORT@, true)
        } else {
            r == Some(event) && after.settings.status == self.settings.status
        }
    }

    /// Report a user action to the process that owns the port: the event to send
    /// on. A window that owns the port itself says that it does.
    pub fn request(&mut self, event: MonitorEvent) -> (r: Option<MonitorEvent>)
        ensures
            old(self).requests(event, *final(self), r),
    {
        if self.link.owns_port {
            self.settings.status = Some((OWNS_PORT.to_owned(), true));
            None
        } else {
            Some(event)
        }
    }

    /// How a window shows that a request failed.
    pub open spec fn is_refused(self, error: String, after: Self) -> bool {
        after == (PortMonitorState {
            settings: SettingsForm { status: Some((error, true)), ..self.settings },
            ..self
        })
    }

    /// An event could not be sent on.
    pub fn request_failed(&mut self, error: String)
        ensures
            old(self).is_refused(error, *final(self)),
    {
        self.settings.status = Some((error, true));
    }

    /// How a window asks for a macro.
    pub open spec fn asks_macro(self, name: &str, after: Self, r: Option<MonitorEvent>) -> bool {
        &&& after == (PortMonitorState { settings: after.settings, ..self })
        &&& after.settings == (SettingsForm {
            status: after.settings.status,
            ..self.settings
        })
        &&& if self.link.owns_port {
            r is None && says(after.settings.status, OWNS_PORT@, true)
        } else {
            &&& r matches Some(MonitorEvent::Macro { name: n })
            &&& n@ == name@
            &&& after.settings.status == self.settings.status
        }
    }

    /// Ask the owning process to run a macro.
    pub fn run_macro(&mut self, name: &str) -> (r: Option<MonitorEvent>)
        ensures
            old(self).asks_macro(name, *final(self), r),
    {
        self.request(MonitorEvent::Macro { name: name.to_owned() })
    }

    /// How a window sends what was entered.
    pub open spec fn sends_input(self, after: Self, r: (SendStep, bool)) -> bool {
        &&& after == (PortMonitorState {
            history: after.history,
            settings: after.settings,
            ..self
        })
        &&& after.settings == (SettingsForm {
            status: after.settings.status,
            ..self.settings
        })
        &&& text::trimmed(self.input@).len() == 0 ==> r.0 is Nothing && !r.1
        &&& text::trimmed(self.input@).len() == 0 ==> after.history == self.history
        &&& text::trimmed(self.input@).len() == 0 ==> after.settings.status == self.settings.status
        &&& text::trimmed(self.input@).len() > 0 ==> after.history@ == self.history@.recorded(
            text::trimmed(self.input@),
        )
        &&& text::trimmed(self.input@).len() > 0 ==> r.1 == self.history@.is_new(
            text::trimmed(self.input@),
        )
        &&& text::trimmed(self.input@).len() > 0 ==> match r.0 {
            SendStep::Nothing => exists|reason: String| #[trigger]
                prepared(
                    text::trimmed(self.input@),
                    self.line_ending,
                    self.link.owns_port,
                    Err(reason),
                ) && says(
                    after.settings.status,
                    "Invalid hex input: "@ + reason@,
                    true,
                ),
            step => prepared(
                text::trimmed(self.input@),
                self.line_ending,
                self.link.owns_port,
                Ok(step),
            ) && after.settings.status == self.settings.status,
        }
    }

    /// Begin to send the input: what is to be done with it, and whether it is a
    /// new entry of the send history.
    ///
    /// Windows that own the port write directly; the others report the action to
    /// the process that does.
    pub fn send_input(&mut self) -> (r: (SendStep, bool))
        ensures
            old(self).sends_input(*final(self), r),
    {
        let input = trim(self.input.as_str());
        if input.as_str().is_empty() {
            return (SendStep::Nothing, false);
        }
        let plan = prepare(input.as_str(), self.line_ending, self.link.owns_port);
        let new = self.record(input.as_str());
        match plan {
            Ok(step) => (step, new),
            Err(e) => {
                self.say(concat2("Invalid hex input: ", e.as_str()), true);
                (SendStep::Nothing, new)
            },
        }
    }

    fn record(&mut self, input: &str) -> (r: bool)
        ensures
            *final(self) == (PortMonitorState { history: final(self).history, ..*old(self) }),
            final(self).history@ == old(self).history@.recorded(input@),
            r == old(self).history@.is_new(input@),
    {
        self.history.record(input)
    }

    fn say(&mut self, message: String, fault: bool)
        ensures
            *final(self) == (PortMonitorState {
                settings: SettingsForm { status: Some((message, fault)), ..old(self).settings },
                ..*old(self)
            }),
    {
        self.settings.status = Some((message, fault));
    }

    /// How a window shows what was sent.
    pub open spec fn is_sent(self, outcome: Result<(), String>, after: Self) -> bool {
        match outcome {
            Err(e) if !self.link.owns_port => after == (PortMonitorState {
                settings: SettingsForm { status: Some((e, true)), ..self.settings },
                ..self
            }),
            _ => {
                &&& after == (PortMonitorState {
                    buffer: after.buffer,
                    input: after.input,
                    ..self
                })
                &&& after.input@.len() == 0
                &&& exists|at: i64|
                    has_line_more(
                        self.buffer@,
                        after.buffer@,
                        text::trimmed(self.input@),
                        true,
                        at,
                    )
            },
        }
    }

    /// The input was sent, or could not be. It comes into the display and leaves
    /// the input field, but where it could not be reported to the owner of the
    /// port. A window that owns the port shows its input whatever came of it.
    pub fn input_sent(&mut self, outcome: Result<(), String>)
        ensures
            old(self).is_sent(outcome, *final(self)),
    {
        match outcome {
            Err(e) if !self.link.owns_port => {
                self.settings.status = Some((e, true));
            },
            _ => {
                let input = trim(self.input.as_str());
                let _ = self.add_line(input.as_str(), true);
                self.input = String::new();
            },
        }
    }

    /// Show the entry in front of the one that is shown.
    pub fn history_up(&mut self)
        ensures
            *final(self) == (PortMonitorState {
                history: final(self).history,
                input: final(self).input,
                ..*old(self)
            }),
            (final(self).history@, final(self).input@) == old(self).history@.back(
                old(self).input@,
            ),
    {
        self.history.history_up(&mut self.input);
    }

    /// Show the entry behind the one that is shown.
    pub fn history_down(&mut self)
        ensures
            *final(self) == (PortMonitorState {
                history: final(self).history,
                input: final(self).input,
                ..*old(self)
            }),
            (final(self).history@, final(self).input@) == old(self).history@.forward(
                old(self).input@,
            ),
    {
        self.history.history_down(&mut self.input);
    }

    // -------------------------------------------------------- view

    /// Whether a window goes on following its lines.
    pub open spec fn scrolls(
        self,
        selecting: bool,
        at_bottom: bool,
        scrolled: bool,
        after: Self,
    ) -> bool {
        after == (PortMonitorState {
            view: ViewOptions {
                selecting,
                auto_follow: follows(
                    self.view.auto_follow,
                    selecting,
                    at_bottom,
                    scrolled,
                ),
                ..self.view
            },
            ..self
        })
    }

    /// Whether the display goes on following the newest line.
    ///
    /// It stops as soon as text is being selected, or when the user scrolls away
    /// from the bottom, and starts again at the bottom.
    pub fn follow(&mut self, selecting: bool, at_bottom: bool, scrolled: bool)
        ensures
            old(self).scrolls(selecting, at_bottom, scrolled, *final(self)),
    {
        let follow = self.view.auto_follow;
        self.view.selecting = selecting;
        self.view.auto_follow = if selecting && follow {
            false
        } else if at_bottom && !follow && !selecting {
            true
        } else if !at_bottom && follow && scrolled {
            false
        } else {
            follow
        };
    }

    /// What a window shows of a line.
    pub open spec fn shows(self, line: &DisplayLine, r: String) -> bool {
        r@ == (if line.is_sent {
            ">> "@ + line.payload@
        } else if self.view.hex_view {
            hex::dumped(vstd::utf8::encode_utf8(line.payload@))
        } else {
            line.payload@
        })
    }

    /// What a line looks like in the display.
    pub fn line_text(&self, line: &DisplayLine) -> (r: String)
        ensures
            self.shows(line, r),
    {
        if line.is_sent {
            concat2(">> ", line.payload.as_str())
        } else if self.view.hex_view {
            format_dump(line.payload.as_str().as_bytes())
        } else {
            line.payload.clone()
        }
    }

    /// What a window says of its port.
    pub open spec fn shows_status(self, r: &'static str) -> bool {
        r@ == (if self.link.connected {
            "Connected"@
        } else {
            "Disconnected"@
        })
    }

    /// The label of the connection.
    pub fn status_label(&self) -> (r: &'static str)
        ensures
            self.shows_status(r),
    {
        if self.link.connected {
            "Connected"
        } else {
            "Disconnected"
        }
    }

    /// What the button for pausing reads.
    pub open spec fn shows_pause(self, r: &'static str) -> bool {
        r@ == (if self.view.paused {
            "Resume"@
        } else {
            "Pause"@
        })
    }

    /// The label of the button that holds or resumes the display.
    pub fn pause_label(&self) -> (r: &'static str)
        ensures
            self.shows_pause(r),
    {
        if self.view.paused {
            "Resume"
        } else {
            "Pause"
        }
    }
}

/// Whether these are the bytes of a line of input: those a hex string denotes,
/// or else the text with its line ending.
#[verifier::opaque]
pub open spec fn sends(input: Seq<char>, ending: LineEnding, data: Seq<u8>) -> bool {
    if hex::prefixed(input) {
        hex::decodes_to(input, data)
    } else {
        data == input_bytes(input, ending)
    }
}

/// Whether a line of input is a hex string that denotes no bytes, for this
/// reason.
#[verifier::opaque]
pub open spec fn faulty(input: Seq<char>, reason: Seq<char>) -> bool {
    hex::prefixed(input) && exists|e: HexError| #[trigger]
        hex::decoding(input, Err(e)) && reason == e.message()
}

fn input_data(input: &str, ending: LineEnding) -> (r: Result<Vec<u8>, String>)
    ensures
        match r {
            Ok(data) => sends(input@, ending, data@),
            Err(e) => faulty(input@, e@),
        },
{
    reveal(sends);
    reveal(faulty);
    if has_prefix(input) {
        match decode(input) {
            Ok(bytes) => Ok(bytes),
            Err(e) => {
                assert(hex::decoding(input@, Err(e)));
                Err(e.to_string())
            },
        }
    } else {
        let mut bytes = bytes_of(input);
        bytes.extend_from_slice(ending.suffix().as_slice());
        assert(bytes@ =~= input_bytes(input@, ending));
        Ok(bytes)
    }
}

/// Whether a display follows the newest line.
pub open spec fn follows(follow: bool, selecting: bool, at_bottom: bool, scrolled: bool) -> bool {
    if selecting {
        false
    } else if at_bottom {
        true
    } else {
        follow && !scrolled
    }
}

/// How a line is coloured.
#[derive(Debug, Clone, Copy, PartialEq, Eq, Structural)]
pub enum LineColor {
    Error,
    Warning,
    Debug,
    Info,
    Settings,
    Plain,
}

/// The colour of a line.
pub open spec fn is_coloured(payload: &str, r: LineColor) -> bool {
    r == (if text::occurs_in(payload@, "[ERROR]"@) || text::occurs_in(payload@, "[PANIC]"@)
        || text::occurs_in(payload@, "error"@) {
        LineColor::Error
    } else if text::occurs_in(payload@, "[WARN]"@) || text::occurs_in(payload@, "warning"@) {
        LineColor::Warning
    } else if text::occurs_in(payload@, "[DEBUG]"@) {
        LineColor::Debug
    } else if text::occurs_in(payload@, "[INFO]"@) {
        LineColor::Info
    } else if text::occurs_in(payload@, "RECONFIGURED"@) {
        LineColor::Settings
    } else {
        LineColor::Plain
    })
}

/// How a line is coloured, by what it holds.
pub fn colorize_label(payload: &str) -> (r: LineColor)
    ensures
        is_coloured(payload, r),
{
    if contains(payload, "[ERROR]") || contains(payload, "[PANIC]") || contains(payload, "error") {
        LineColor::Error
    } else if contains(payload, "[WARN]") || contains(payload, "warning") {
        LineColor::Warning
    } else if contains(payload, "[DEBUG]") {
        LineColor::Debug
    } else if contains(payload, "[INFO]") {
        LineColor::Info
    } else if contains(payload, "RECONFIGURED") {
        LineColor::Settings
    } else {
        LineColor::Plain
    }
}

} // verus!
