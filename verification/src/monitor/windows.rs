//! The windows of one GUI instance.
//!
//! A window is matched by its device, because the same hardware may be named by
//! either of its device nodes.
use vstd::prelude::*;
use vstd::string::*;

use crate::config::PortConfig;
use crate::gui_ipc::{GuiCommand, OpenPortRequest};
use crate::monitor::dialog::PortConfigDialogState;
use crate::port_manager;
use crate::port_manager::{same_device, DeviceNodes};
use crate::protocol::PortSettings;
use crate::serial_params::DEFAULT_BAUD;
use crate::text;
use crate::text::concat3;

verus! {

/// A window, as far as the instance decides on it.
#[derive(Debug, PartialEq, Eq)]
pub struct Window {
    pub port_name: String,
    pub port_info: String,
    pub is_open: bool,
    pub connected: bool,
}

/// Whether a window is for the device that a name denotes.
pub open spec fn is_for(w: Window, port: Seq<char>, nodes: DeviceNodes) -> bool {
    port_manager::canonical(w.port_name@, nodes) == port_manager::canonical(port, nodes)
}

/// The first window for a port.
pub open spec fn finds(
    windows: &[Window],
    port: &str,
    nodes: DeviceNodes,
    r: Option<usize>,
) -> bool {
    match r {
        Some(i) => {
            &&& i < windows@.len()
            &&& is_for(windows@[i as int], port@, nodes)
            &&& forall|j: int| 0 <= j < i ==> !is_for(#[trigger] windows@[j], port@, nodes)
        },
        None => forall|j: int|
            0 <= j < windows@.len() ==> !is_for(#[trigger] windows@[j], port@, nodes),
    }
}

/// The first window for a device.
pub fn find_window(windows: &[Window], port: &str, nodes: DeviceNodes) -> (r: Option<usize>)
    ensures
        finds(windows, port, nodes, r),
{
    let mut i: usize = 0;
    while i < windows.len()
        invariant
            i <= windows.len(),
            forall|j: int| 0 <= j < i ==> !is_for(#[trigger] windows@[j], port@, nodes),
        decreases windows.len() - i,
    {
        if same_device(windows[i].port_name.as_str(), port, nodes) {
            return Some(i);
        }
        i = i + 1;
    }
    None
}

/// What an instance does with a command from another invocation.
#[derive(Debug, PartialEq, Eq)]
pub enum WindowStep {
    Nothing,
    /// Show the dialog in which a port is chosen.
    ShowDialog,
    /// Raise this window.
    Raise(usize),
    /// Keep only the windows that are marked.
    Keep(Vec<bool>),
    /// Open a port, which this instance then owns.
    OpenSession { port_name: String, config: PortConfig },
    /// Open a capture database; the sender keeps the port.
    OpenCapture { port_name: String, db_path: String, port_info: String },
}

/// The settings a port is opened with, where some are named.
pub open spec fn session_config(s: PortSettings) -> PortConfig {
    crate::engine::ports::merged(
        PortConfig { baudrate: DEFAULT_BAUD, ..crate::config::default_port() },
        s,
    )
}

/// The settings a port is opened with: what is named, and the defaults.
pub fn config_from(settings: PortSettings) -> (r: PortConfig)
    ensures
        r == session_config(settings),
{
    let base = PortConfig::default();
    PortConfig {
        baudrate: match settings.baudrate {
            Some(v) => v,
            None => DEFAULT_BAUD,
        },
        data_bits: match settings.data_bits {
            Some(v) => v,
            None => base.data_bits,
        },
        parity: match settings.parity {
            Some(v) => v,
            None => base.parity,
        },
        stop_bits: match settings.stop_bits {
            Some(v) => v,
            None => base.stop_bits,
        },
        flow_control: match settings.flow_control {
            Some(v) => v,
            None => base.flow_control,
        },
        ..base
    }
}

/// Which windows stay when those for a device are closed.
pub open spec fn keeps(windows: Seq<Window>, port: Seq<char>, nodes: DeviceNodes, marks: Seq<bool>)
    -> bool {
    &&& marks.len() == windows.len()
    &&& forall|i: int|
        0 <= i < windows.len() ==> #[trigger] marks[i] == !is_for(windows[i], port, nodes)
}

fn without(windows: &[Window], port: &str, nodes: DeviceNodes) -> (r: Vec<bool>)
    ensures
        keeps(windows@, port@, nodes, r@),
{
    let mut marks: Vec<bool> = Vec::new();
    let mut i: usize = 0;
    while i < windows.len()
        invariant
            i <= windows.len(),
            keeps(windows@.take(i as int), port@, nodes, marks@),
        decreases windows.len() - i,
    {
        marks.push(!same_device(windows[i].port_name.as_str(), port, nodes));
        i = i + 1;
    }
    assert(windows@.take(windows@.len() as int) =~= windows@);
    marks
}

/// Whether a window is the first one for a device.
pub open spec fn first_for(
    windows: Seq<Window>,
    port: Seq<char>,
    nodes: DeviceNodes,
    i: int,
) -> bool {
    &&& 0 <= i < windows.len()
    &&& is_for(windows[i], port, nodes)
    &&& forall|j: int| 0 <= j < i ==> !is_for(#[trigger] windows[j], port, nodes)
}

/// Whether no window is for a device.
pub open spec fn none_for(windows: Seq<Window>, port: Seq<char>, nodes: DeviceNodes) -> bool {
    forall|j: int| 0 <= j < windows.len() ==> !is_for(#[trigger] windows[j], port, nodes)
}

/// What is done where a window is asked for.
pub open spec fn opens_requested(
    windows: &[Window],
    request: OpenPortRequest,
    nodes: DeviceNodes,
    r: WindowStep,
) -> bool {
    ({
        let port = request.port_name@;
        if port.len() == 0 {
            r is ShowDialog
        } else if none_for(windows@, port, nodes) {
            match request.settings {
                Some(s) => r matches WindowStep::OpenSession { port_name, config } && port_name@
                    == port && config == session_config(s),
                None => r matches WindowStep::OpenCapture { port_name, db_path, port_info }
                    && port_name@ == port && db_path@ == request.db_path@ && port_info@
                    == request.port_info@,
            }
        } else {
            r matches WindowStep::Raise(i) && first_for(windows@, port, nodes, i as int)
        }
    })
}

/// How a request to open a port is answered.
///
/// A request without a port asks for the dialog. A device that has a window is
/// never opened a second time: its window is raised. With settings the sender
/// expects this instance to own the port, so a full session is started; without
/// them the sender keeps the port and the window only shows the capture
/// database.
pub fn open_requested_port(windows: &[Window], request: OpenPortRequest, nodes: DeviceNodes) -> (r:
    WindowStep)
    ensures
        opens_requested(windows, request, nodes, r),
{
    if request.port_name.as_str().is_empty() {
        return WindowStep::ShowDialog;
    }
    match find_window(windows, request.port_name.as_str(), nodes) {
        Some(i) => WindowStep::Raise(i),
        None => match request.settings {
            Some(s) => WindowStep::OpenSession {
                port_name: request.port_name,
                config: config_from(s),
            },
            None => WindowStep::OpenCapture {
                port_name: request.port_name,
                db_path: request.db_path,
                port_info: request.port_info,
            },
        },
    }
}

/// What is done with a command to the windows.
pub open spec fn obeys(
    windows: &[Window],
    command: GuiCommand,
    nodes: DeviceNodes,
    r: WindowStep,
) -> bool {
    match command {
        GuiCommand::Ping => r is Nothing,
        GuiCommand::OpenPort(request) => {
            let port = request.port_name@;
            if port.len() == 0 {
                r is ShowDialog
            } else if none_for(windows@, port, nodes) {
                match request.settings {
                    Some(s) => r matches WindowStep::OpenSession { port_name, config }
                        && port_name@ == port && config == session_config(s),
                    None => r matches WindowStep::OpenCapture { port_name, db_path, port_info }
                        && port_name@ == port && db_path@ == request.db_path@ && port_info@
                        == request.port_info@,
                }
            } else {
                r matches WindowStep::Raise(i) && first_for(windows@, port, nodes, i as int)
            }
        },
        GuiCommand::FocusPort { port_name } => if none_for(windows@, port_name@, nodes) {
            r is Nothing
        } else {
            r matches WindowStep::Raise(i) && first_for(
                windows@,
                port_name@,
                nodes,
                i as int,
            )
        },
        GuiCommand::ClosePort { port_name } => r matches WindowStep::Keep(marks) && keeps(
            windows@,
            port_name@,
            nodes,
            marks@,
        ),
    }
}

/// Act on one command from another invocation.
pub fn handle_command(windows: &[Window], command: GuiCommand, nodes: DeviceNodes) -> (r:
    WindowStep)
    ensures
        obeys(windows, command, nodes, r),
{
    match command {
        GuiCommand::Ping => WindowStep::Nothing,
        GuiCommand::OpenPort(request) => open_requested_port(windows, request, nodes),
        GuiCommand::FocusPort { port_name } => match find_window(
            windows,
            port_name.as_str(),
            nodes,
        ) {
            Some(i) => WindowStep::Raise(i),
            None => WindowStep::Nothing,
        },
        GuiCommand::ClosePort { port_name } => WindowStep::Keep(
            without(windows, port_name.as_str(), nodes),
        ),
    }
}

/// What is done when the dialog asks to connect.
#[derive(Debug, PartialEq, Eq)]
pub enum ConnectStep {
    /// Raise this window, which is connected.
    Raise(usize),
    /// Raise this window and connect it again.
    Reconnect(usize),
    /// Open the port.
    OpenSession { port_name: String, config: PortConfig },
}

/// What is done where a port was chosen.
pub open spec fn connects(
    windows: &[Window],
    dialog: &PortConfigDialogState,
    nodes: DeviceNodes,
    r: ConnectStep,
) -> bool {
    ({
        let port = dialog.port();
        match r {
            ConnectStep::Raise(i) => first_for(windows@, port, nodes, i as int)
                && windows@[i as int].connected,
            ConnectStep::Reconnect(i) => first_for(windows@, port, nodes, i as int)
                && !windows@[i as int].connected,
            ConnectStep::OpenSession { port_name, config } => none_for(windows@, port, nodes)
                && port_name@ == port && config == (PortConfig {
                baudrate: dialog.baud(),
                ..dialog.config
            }),
        }
    })
}

/// Open a port from the connection dialog. A device that has a window is not
/// opened a second time.
pub fn connect_from_dialog(
    windows: &[Window],
    dialog: &PortConfigDialogState,
    nodes: DeviceNodes,
) -> (r: ConnectStep)
    ensures
        connects(windows, dialog, nodes, r),
{
    let port = dialog.effective_port();
    match find_window(windows, port.as_str(), nodes) {
        Some(i) => if windows[i].connected {
            ConnectStep::Raise(i)
        } else {
            ConnectStep::Reconnect(i)
        },
        None => ConnectStep::OpenSession { port_name: port, config: dialog.effective_config() },
    }
}

/// What a dialog shows once a port was chosen.
pub open spec fn shows_outcome(
    outcome: Result<(), String>,
    dialog: PortConfigDialogState,
    dialog_after: PortConfigDialogState,
) -> bool {
    dialog_after == (match outcome {
        Ok(_) => PortConfigDialogState {
            is_open: false,
            error_message: None,
            ..dialog
        },
        Err(e) => PortConfigDialogState { error_message: Some(e), ..dialog },
    })
}

/// A window was raised or a port opened from the dialog, or the port could not
/// be opened: the dialog closes, or says why it does not.
pub fn dialog_connected(dialog: &mut PortConfigDialogState, outcome: Result<(), String>)
    ensures
        shows_outcome(outcome, *old(dialog), *final(dialog)),
{
    match outcome {
        Ok(_) => {
            dialog.is_open = false;
            dialog.error_message = None;
        },
        Err(e) => {
            dialog.error_message = Some(e);
        },
    }
}

/// What a dialog shows where a port cannot be opened.
pub open spec fn shows_refusal(
    error: String,
    dialog: PortConfigDialogState,
    dialog_after: PortConfigDialogState,
) -> bool {
    dialog_after == (PortConfigDialogState {
        is_open: true,
        error_message: Some(error),
        ..dialog
    })
}

/// A port that another invocation asked for could not be opened: the dialog is
/// shown and says why.
pub fn session_refused(dialog: &mut PortConfigDialogState, error: String)
    ensures
        shows_refusal(error, *old(dialog), *final(dialog)),
{
    dialog.error_message = Some(error);
    dialog.is_open = true;
}

/// How many windows are open.
pub open spec fn open_windows(windows: Seq<Window>) -> nat
    decreases windows.len(),
{
    if windows.len() == 0 {
        0
    } else {
        open_windows(windows.drop_last()) + (if windows.last().is_open {
            1nat
        } else {
            0nat
        })
    }
}

/// How many windows are open.
pub fn open_count(windows: &[Window]) -> (r: usize)
    ensures
        r == open_windows(windows@),
        r <= windows@.len(),
{
    let mut n: usize = 0;
    let mut i: usize = 0;
    while i < windows.len()
        invariant
            i <= windows.len(),
            n <= i,
            n == open_windows(windows@.take(i as int)),
        decreases windows.len() - i,
    {
        assert(windows@.take(i + 1).drop_last() =~= windows@.take(i as int));
        assert(windows@.take(i + 1).last() == windows@[i as int]);
        if windows[i].is_open {
            n = n + 1;
        }
        i = i + 1;
    }
    assert(windows@.take(windows@.len() as int) =~= windows@);
    n
}

/// The first window that is open.
pub open spec fn is_primary(windows: &[Window], r: Option<usize>) -> bool {
    match r {
        Some(i) => i < windows@.len() && windows@[i as int].is_open && forall|j: int|
            0 <= j < i ==> !(#[trigger] windows@[j]).is_open,
        None => forall|j: int| 0 <= j < windows@.len() ==> !(#[trigger] windows@[j]).is_open,
    }
}

/// The first open window, which takes the main viewport.
pub fn primary(windows: &[Window]) -> (r: Option<usize>)
    ensures
        is_primary(windows, r),
{
    let mut i: usize = 0;
    while i < windows.len()
        invariant
            i <= windows.len(),
            forall|j: int| 0 <= j < i ==> !(#[trigger] windows@[j]).is_open,
        decreases windows.len() - i,
    {
        if windows[i].is_open {
            return Some(i);
        }
        i = i + 1;
    }
    None
}

/// Whether the program ends.
pub open spec fn exits(windows: &[Window], dialog_open: bool, r: bool) -> bool {
    r == (windows@.len() > 0 && (forall|j: int|
        0 <= j < windows@.len() ==> !(#[trigger] windows@[j]).is_open) && !dialog_open)
}

/// Whether the application ends: there were windows, all of them are closed, and
/// the dialog is not shown.
pub fn should_exit(windows: &[Window], dialog_open: bool) -> (r: bool)
    ensures
        exits(windows, dialog_open, r),
{
    windows.len() > 0 && primary(windows).is_none() && !dialog_open
}

/// Whether a window stays where another is closed.
pub open spec fn stays(windows: &[Window], r: bool) -> bool {
    r == (open_windows(windows@) > 1)
}

/// Whether closing the main viewport is cancelled: other windows are open, and
/// one of them takes its place.
pub fn keep_viewport(windows: &[Window]) -> (r: bool)
    ensures
        stays(windows, r),
{
    open_count(windows) > 1
}

/// The ports of the open windows.
pub open spec fn open_ports(windows: Seq<Window>) -> Seq<Seq<char>>
    decreases windows.len(),
{
    if windows.len() == 0 {
        Seq::empty()
    } else if windows.last().is_open {
        open_ports(windows.drop_last()).push(windows.last().port_name@)
    } else {
        open_ports(windows.drop_last())
    }
}

/// The ports that open windows hold.
pub fn active_ports(windows: &[Window]) -> (r: Vec<String>)
    ensures
        text::texts(r@) == open_ports(windows@),
{
    let mut out: Vec<String> = Vec::new();
    let mut i: usize = 0;
    assert(text::texts(out@) =~= open_ports(windows@.take(0)));
    while i < windows.len()
        invariant
            i <= windows.len(),
            text::texts(out@) == open_ports(windows@.take(i as int)),
        decreases windows.len() - i,
    {
        assert(windows@.take(i + 1).drop_last() =~= windows@.take(i as int));
        assert(windows@.take(i + 1).last() == windows@[i as int]);
        if windows[i].is_open {
            let ghost before = out@;
            out.push(windows[i].port_name.clone());
            assert(text::texts(out@) =~= text::texts(before).push(windows@[i as int].port_name@));
        }
        i = i + 1;
    }
    assert(windows@.take(windows@.len() as int) =~= windows@);
    out
}

/// The title of a window.
pub open spec fn is_title(port_name: &str, port_info: &str, version: &str, r: String) -> bool {
    r@ == port_name@ + " ("@ + port_info@ + ") — devserial v"@ + version@
}

/// The title of a window for a port.
pub fn window_title(port_name: &str, port_info: &str, version: &str) -> (r: String)
    ensures
        is_title(port_name, port_info, version, r),
{
    let mut t = concat3(port_name, " (", port_info);
    t.append(") — devserial v");
    t.append(version);
    t
}

/// The title of the dialog.
pub open spec fn is_connect_title(version: &str, r: String) -> bool {
    r@ == "devserial v"@ + version@ + " — Connect Serial Device"@
}

/// The title of the window while no port is open.
pub fn connect_title(version: &str) -> (r: String)
    ensures
        is_connect_title(version, r),
{
    concat3("devserial v", version, " — Connect Serial Device")
}

/// A device never has two windows: a request for a device that has one opens
/// nothing, whichever of its names the request uses.
pub proof fn no_second_window_for_a_device(
    windows: Seq<Window>,
    port: Seq<char>,
    nodes: DeviceNodes,
    i: int,
)
    requires
        0 <= i < windows.len(),
        is_for(windows[i], port, nodes),
    ensures
        !none_for(windows, port, nodes),
        !none_for(windows, port_manager::canonical(port, nodes), nodes),
{
    port_manager::canonical_name_is_canonical(port, nodes);
    assert(is_for(windows[i], port_manager::canonical(port, nodes), nodes));
}

} // verus!
