//! The buttons of a dialog, and the dialog in which a port is chosen.
use vstd::prelude::*;
use vstd::string::*;

use crate::config::PortConfig;
use crate::port_manager;
use crate::port_manager::{same_device, DeviceNodes};
use crate::serial_params::DEFAULT_BAUD;
use crate::text;
use crate::text::{concat2, concat3, decimal, parse_u32, same, trim};

verus! {

/// Standard macOS-style dialog action button bar.
///
/// Places Cancel on the left and the primary action button on the far right
/// with macOS blue accent styling and proper keyboard handling (Enter / Escape).
#[derive(Debug, Clone, Copy)]
pub struct MacosDialogButtons<'a> {
    pub cancel_label: &'a str,
    pub primary_label: &'a str,
    pub primary_enabled: bool,
    pub primary_tooltip: Option<&'a str>,
}

/// What the user did with the buttons of a dialog.
#[derive(Debug, Clone, Copy, PartialEq, Eq, Structural)]
pub enum DialogAction {
    Nothing,
    Cancel,
    Primary,
}

/// What happened to the buttons of a dialog while they were shown.
#[derive(Debug, Clone, Copy, PartialEq, Eq, Structural)]
pub struct ButtonInput {
    pub primary_clicked: bool,
    pub cancel_clicked: bool,
    pub enter: bool,
    pub escape: bool,
}

impl<'a> MacosDialogButtons<'a> {
    /// Buttons with a label.
    pub open spec fn is_new(primary_label: &'a str, r: MacosDialogButtons<'a>) -> bool {
        r == (MacosDialogButtons {
            cancel_label: "Cancel",
            primary_label,
            primary_enabled: true,
            primary_tooltip: None,
        })
    }

    /// A bar with an enabled primary button and a cancel button.
    pub fn new(primary_label: &'a str) -> (r: MacosDialogButtons<'a>)
        ensures
            Self::is_new(primary_label, r),
    {
        MacosDialogButtons {
            cancel_label: "Cancel",
            primary_label,
            primary_enabled: true,
            primary_tooltip: None,
        }
    }

    /// The bar with another cancel button; an empty label means none.
    pub fn with_cancel(self, cancel_label: &'a str) -> (r: MacosDialogButtons<'a>)
        ensures
            r == (MacosDialogButtons { cancel_label, ..self }),
    {
        MacosDialogButtons { cancel_label, ..self }
    }

    /// The bar with the primary button enabled or not.
    pub fn with_enabled(self, enabled: bool) -> (r: MacosDialogButtons<'a>)
        ensures
            r == (MacosDialogButtons { primary_enabled: enabled, ..self }),
    {
        MacosDialogButtons { primary_enabled: enabled, ..self }
    }

    /// The bar with a tooltip on the primary button.
    pub fn with_tooltip(self, tooltip: &'a str) -> (r: MacosDialogButtons<'a>)
        ensures
            r == (MacosDialogButtons { primary_tooltip: Some(tooltip), ..self }),
    {
        MacosDialogButtons { primary_tooltip: Some(tooltip), ..self }
    }

    /// What a click or a key means.
    pub open spec fn acts(self, input: ButtonInput, r: DialogAction) -> bool {
        r == (if self.cancel_label@.len() > 0 && (input.cancel_clicked || input.escape) {
            DialogAction::Cancel
        } else if input.primary_clicked || (self.primary_enabled && input.enter) {
            DialogAction::Primary
        } else {
            DialogAction::Nothing
        })
    }

    /// What the user did. Enter counts only where the primary button is enabled,
    /// Escape only where there is a cancel button, and Cancel prevails.
    pub fn action(&self, input: ButtonInput) -> (r: DialogAction)
        ensures
            self.acts(input, r),
    {
        let mut action = DialogAction::Nothing;
        if input.primary_clicked || (self.primary_enabled && input.enter) {
            action = DialogAction::Primary;
        }
        if !self.cancel_label.is_empty() {
            if input.cancel_clicked || input.escape {
                action = DialogAction::Cancel;
            }
        }
        action
    }
}

/// Whether a port is one that an open window already holds.
pub open spec fn active(ports: Seq<String>, port: Seq<char>, nodes: DeviceNodes) -> bool {
    exists|i: int|
        0 <= i < ports.len() && port_manager::canonical(#[trigger] ports[i]@, nodes)
            == port_manager::canonical(port, nodes)
}

/// Whether a port name refers to a device an open window already holds.
///
/// Compares devices rather than strings, so the second device node of the same
/// hardware is recognised too.
pub fn is_active(active_ports: &[String], port: &str, nodes: DeviceNodes) -> (r: bool)
    ensures
        r == active(active_ports@, port@, nodes),
{
    let mut i: usize = 0;
    while i < active_ports.len()
        invariant
            i <= active_ports.len(),
            forall|j: int|
                0 <= j < i ==> port_manager::canonical(#[trigger] active_ports@[j]@, nodes)
                    != port_manager::canonical(port@, nodes),
        decreases active_ports.len() - i,
    {
        if same_device(active_ports[i].as_str(), port, nodes) {
            return true;
        }
        i = i + 1;
    }
    false
}

/// The baud rate that a text field holds, where it holds one.
pub open spec fn entered_baud(custom: Seq<char>) -> Option<u32> {
    match text::parse_nat(text::trimmed(custom), u32::MAX as nat) {
        Some(v) if v > 0 => Some(v as u32),
        _ => None,
    }
}

/// The baud rate that a text field holds: a number above zero.
pub fn custom_baud(custom: &str) -> (r: Option<u32>)
    ensures
        r == entered_baud(custom@),
{
    match parse_u32(trim(custom).as_str()) {
        Some(v) => if v > 0 {
            Some(v)
        } else {
            None
        },
        None => None,
    }
}

/// The speed after an edit.
pub open spec fn takes_baud(baud: u32, custom: &str, r: u32) -> bool {
    r == (match entered_baud(custom@) {
        Some(v) => v,
        None => baud,
    })
}

/// The baud rate after the text field for it has changed: what it holds, or
/// else the rate as it was.
pub fn baud_after_edit(baud: u32, custom: &str) -> (r: u32)
    ensures
        takes_baud(baud, custom, r),
{
    match custom_baud(custom) {
        Some(v) => v,
        None => baud,
    }
}

/// The dialog in which a port is chosen and opened.
#[derive(Debug)]
pub struct PortConfigDialogState {
    pub available_ports: Vec<String>,
    pub selected_port: String,
    pub custom_port: String,
    pub use_custom_port: bool,
    /// Line settings the dialog will open the port with.
    pub config: PortConfig,
    pub custom_baud: String,
    pub is_open: bool,
    pub error_message: Option<String>,
}

/// Whether a text stands in a list.
pub open spec fn listed(ports: Seq<String>, port: Seq<char>) -> bool {
    text::texts(ports).contains(port)
}

fn lists(ports: &Vec<String>, port: &str) -> (r: bool)
    ensures
        r == listed(ports@, port@),
{
    let mut i: usize = 0;
    while i < ports.len()
        invariant
            i <= ports.len(),
            forall|j: int| 0 <= j < i ==> (#[trigger] ports@[j])@ != port@,
        decreases ports.len() - i,
    {
        if same(ports[i].as_str(), port) {
            assert(text::texts(ports@)[i as int] == port@);
            return true;
        }
        i = i + 1;
    }
    assert forall|j: int| 0 <= j < text::texts(ports@).len() implies text::texts(ports@)[j]
        != port@ by {
        assert(ports@[j]@ != port@);
    }
    false
}

/// The port that is selected after the offered ports have changed: the one that
/// was, where it is still offered, else the first one, where there is one.
pub open spec fn selection_after(selected: Seq<char>, ports: Seq<String>) -> Seq<char> {
    if (selected.len() == 0 || !listed(ports, selected)) && ports.len() > 0 {
        ports[0]@
    } else {
        selected
    }
}

impl PortConfigDialogState {
    /// A dialog that nothing was entered in.
    pub open spec fn is_new(ports: Vec<String>, r: PortConfigDialogState) -> bool {
        &&& r.available_ports == ports
        &&& r.selected_port@ == selection_after(Seq::empty(), ports@)
        &&& r.custom_port@.len() == 0
        &&& !r.use_custom_port
        &&& r.config == crate::config::default_port()
        &&& r.custom_baud@ == text::dec_nat(DEFAULT_BAUD as nat)
        &&& !r.is_open
        &&& r.error_message is None
    }

    /// A closed dialog that offers the given ports.
    pub fn new(ports: Vec<String>) -> (r: PortConfigDialogState)
        ensures
            Self::is_new(ports, r),
    {
        let mut state = PortConfigDialogState {
            available_ports: Vec::new(),
            selected_port: String::new(),
            custom_port: String::new(),
            use_custom_port: false,
            config: PortConfig::default(),
            custom_baud: decimal(DEFAULT_BAUD as u64),
            is_open: false,
            error_message: None,
        };
        assert(state.selected_port@ =~= Seq::<char>::empty());
        state.rescan(ports);
        state
    }

    /// How the ports of a dialog are listed again.
    pub open spec fn rescans(self, ports: Vec<String>, after: Self) -> bool {
        &&& after == (PortConfigDialogState {
            available_ports: ports,
            selected_port: after.selected_port,
            ..self
        })
        &&& after.selected_port@ == selection_after(self.selected_port@, ports@)
    }

    /// Take over the list of offered ports.
    pub fn rescan(&mut self, ports: Vec<String>)
        ensures
            old(self).rescans(ports, *final(self)),
    {
        self.available_ports = ports;
        if (self.selected_port.as_str().is_empty() || !lists(
            &self.available_ports,
            self.selected_port.as_str(),
        )) && self.available_ports.len() > 0 {
            self.selected_port = self.available_ports[0].clone();
        }
    }

    /// How a dialog is opened.
    pub open spec fn is_shown(self, ports: Vec<String>, after: Self) -> bool {
        &&& after == (PortConfigDialogState {
            available_ports: ports,
            selected_port: after.selected_port,
            is_open: true,
            ..self
        })
        &&& after.selected_port@ == selection_after(self.selected_port@, ports@)
    }

    /// Show the dialog, with the ports that are offered now.
    pub fn show(&mut self, ports: Vec<String>)
        ensures
            old(self).is_shown(ports, *final(self)),
    {
        self.is_open = true;
        self.rescan(ports);
    }

    /// The port the dialog will open.
    pub open spec fn port(self) -> Seq<char> {
        if self.use_custom_port || self.selected_port@.len() == 0 {
            text::trimmed(self.custom_port@)
        } else {
            self.selected_port@
        }
    }

    /// The port the dialog will open: the custom one where it is wanted or no
    /// other is selected.
    pub fn effective_port(&self) -> (r: String)
        ensures
            r@ == self.port(),
    {
        if self.use_custom_port || self.selected_port.as_str().is_empty() {
            trim(self.custom_port.as_str())
        } else {
            self.selected_port.clone()
        }
    }

    /// The baud rate the dialog will use.
    pub open spec fn baud(self) -> u32 {
        match entered_baud(self.custom_baud@) {
            Some(v) => v,
            None => self.config.baudrate,
        }
    }

    /// Baud rate the dialog will use, preferring a non-empty custom entry.
    pub fn effective_baud(&self) -> (r: u32)
        ensures
            r == self.baud(),
    {
        baud_after_edit(self.config.baudrate, self.custom_baud.as_str())
    }

    /// The settings that were chosen.
    pub open spec fn gives_config(self, r: PortConfig) -> bool {
        r == (PortConfig { baudrate: self.baud(), ..self.config })
    }

    /// Full configuration the dialog will open the port with.
    pub fn effective_config(&self) -> (r: PortConfig)
        ensures
            self.gives_config(r),
    {
        let mut config = self.config;
        config.baudrate = self.effective_baud();
        config
    }

    /// What a dialog shows.
    pub open spec fn gives_form(
        self,
        active_ports: &[String],
        nodes: DeviceNodes,
        r: PortForm,
    ) -> bool {
        &&& r.free_text == (self.available_ports@.len() == 0 || self.use_custom_port)
        &&& r.title@ == (if self.selected_port@.len() == 0 {
            "Select Port..."@
        } else {
            port_label(self.selected_port@, active(active_ports@, self.selected_port@, nodes))
        })
        &&& r.choices@.len() == self.available_ports@.len()
        &&& forall|i: int|
            0 <= i < r.choices@.len() ==> (#[trigger] r.choices@[i]).offers(
                self.available_ports@[i]@,
                active(active_ports@, self.available_ports@[i]@, nodes),
            )
        &&& match r.notice {
            Some(n) => active(active_ports@, self.port(), nodes) && n@ == "ℹ '"@ + self.port()
                + "' is already active in an open window."@,
            None => !active(active_ports@, self.port(), nodes),
        }
        &&& match (r.error, self.error_message) {
            (Some(t), Some(e)) => t@ == "⚠ "@ + e@,
            (None, None) => true,
            _ => false,
        }
        &&& r.can_connect == (self.port().len() > 0 && !active(active_ports@, self.port(), nodes))
    }

    /// What the form shows, given the ports that open windows hold.
    pub fn form(&self, active_ports: &[String], nodes: DeviceNodes) -> (r: PortForm)
        ensures
            self.gives_form(active_ports, nodes, r),
    {
        let title = if self.selected_port.as_str().is_empty() {
            "Select Port...".to_owned()
        } else {
            label(
                self.selected_port.as_str(),
                is_active(active_ports, self.selected_port.as_str(), nodes),
            )
        };
        let mut choices: Vec<PortChoice> = Vec::new();
        let mut i: usize = 0;
        while i < self.available_ports.len()
            invariant
                i <= self.available_ports.len(),
                choices@.len() == i,
                forall|j: int|
                    0 <= j < i ==> (#[trigger] choices@[j]).offers(
                        self.available_ports@[j]@,
                        active(active_ports@, self.available_ports@[j]@, nodes),
                    ),
            decreases self.available_ports.len() - i,
        {
            let p = self.available_ports[i].as_str();
            let open = is_active(active_ports, p, nodes);
            choices.push(
                PortChoice { port: p.to_owned(), label: label(p, open), enabled: !open },
            );
            i = i + 1;
        }
        let port = self.effective_port();
        let already_open = is_active(active_ports, port.as_str(), nodes);
        let notice = if already_open {
            Some(concat3("ℹ '", port.as_str(), "' is already active in an open window."))
        } else {
            None
        };
        let error = match &self.error_message {
            Some(e) => Some(concat2("⚠ ", e.as_str())),
            None => None,
        };
        PortForm {
            free_text: self.available_ports.len() == 0 || self.use_custom_port,
            title,
            choices,
            notice,
            error,
            can_connect: !port.as_str().is_empty() && !already_open,
        }
    }
}

/// A port in the list of the dialog.
#[derive(Debug, PartialEq, Eq)]
pub struct PortChoice {
    pub port: String,
    pub label: String,
    /// Whether it can be selected.
    pub enabled: bool,
}

impl PortChoice {
    /// Whether the choice offers a port: one that is open is marked and cannot
    /// be selected.
    pub open spec fn offers(self, port: Seq<char>, is_open: bool) -> bool {
        self.port@ == port && self.label@ == port_label(port, is_open) && self.enabled == !is_open
    }
}

/// What the form of the dialog shows.
#[derive(Debug, PartialEq, Eq)]
pub struct PortForm {
    /// Whether the port is entered as text rather than chosen.
    pub free_text: bool,
    pub title: String,
    pub choices: Vec<PortChoice>,
    /// That the port is open already, where it is.
    pub notice: Option<String>,
    pub error: Option<String>,
    /// Whether the port can be opened.
    pub can_connect: bool,
}

/// A port in words.
pub open spec fn port_label(port: Seq<char>, is_open: bool) -> Seq<char> {
    if is_open {
        port + " (Already Open)"@
    } else {
        port
    }
}

fn label(port: &str, is_open: bool) -> (r: String)
    ensures
        r@ == port_label(port@, is_open),
{
    if is_open {
        concat2(port, " (Already Open)")
    } else {
        port.to_owned()
    }
}

/// How a dialog ends.
pub open spec fn ends(action: DialogAction, r: Option<bool>) -> bool {
    r == (match action {
        DialogAction::Primary => Some(true),
        DialogAction::Cancel => Some(false),
        DialogAction::Nothing => None,
    })
}

/// What the form says to the window around it: to connect, to close, or
/// nothing.
pub fn form_result(action: DialogAction) -> (r: Option<bool>)
    ensures
        ends(action, r),
{
    match action {
        DialogAction::Primary => Some(true),
        DialogAction::Cancel => Some(false),
        DialogAction::Nothing => None,
    }
}

} // verus!
