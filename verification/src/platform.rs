//! The platforms, and native integration where one has it.
//!
//! Every platform provides the same surface; on a platform without native
//! integration it is inert.
use vstd::prelude::*;

verus! {

/// The platform that a program runs on.
#[derive(Debug, Clone, Copy, PartialEq, Eq, Structural)]
pub enum Platform {
    MacOs,
    Linux,
    Windows,
    /// Any other Unix.
    OtherUnix,
    /// Anything else.
    Other,
}

/// State of the focused widget, mirrored into the native edit menu.
#[derive(Debug, Clone, Copy, PartialEq, Eq, Structural)]
pub struct EditState {
    /// A text input currently has keyboard focus.
    pub text_focused: bool,
    /// The focused text input has a selection.
    pub text_selection: bool,
    /// The focused text input is non-empty.
    pub text_not_empty: bool,
    /// The capture buffer contains at least one line.
    pub buffer_not_empty: bool,
    /// Lines are selected in the capture buffer.
    pub buffer_selection: bool,
    /// An undo step is available.
    pub can_undo: bool,
    /// A redo step is available.
    pub can_redo: bool,
}

impl Default for EditState {
    fn default() -> (r: EditState)
        ensures
            r == (EditState {
                text_focused: false,
                text_selection: false,
                text_not_empty: false,
                buffer_not_empty: false,
                buffer_selection: false,
                can_undo: false,
                can_redo: false,
            }),
    {
        EditState {
            text_focused: false,
            text_selection: false,
            text_not_empty: false,
            buffer_not_empty: false,
            buffer_selection: false,
            can_undo: false,
            can_redo: false,
        }
    }
}

/// The text field that has keyboard focus.
#[derive(Debug, Clone, Copy, PartialEq, Eq, Structural)]
pub struct TextFocus {
    /// Part of its text is selected.
    pub selection: bool,
    /// It holds some text.
    pub not_empty: bool,
}

/// What can be edited.
pub open spec fn edits(
    focus: Option<TextFocus>,
    buffer_not_empty: bool,
    buffer_selection: bool,
    r: EditState,
) -> bool {
    &&& r.text_focused == (focus is Some)
    &&& r.text_selection == (focus matches Some(f) && f.selection)
    &&& r.text_not_empty == (focus matches Some(f) && f.not_empty)
    &&& r.can_undo == r.text_not_empty
    &&& r.buffer_not_empty == buffer_not_empty
    &&& r.buffer_selection == buffer_selection
    &&& !r.can_redo
}

/// The edit state for a text field, where one has focus, and a buffer.
pub fn edit_state(focus: Option<TextFocus>, buffer_not_empty: bool, buffer_selection: bool) -> (r:
    EditState)
    ensures
        edits(focus, buffer_not_empty, buffer_selection, r),
{
    let (text_focused, text_selection, text_not_empty) = match focus {
        Some(f) => (true, f.selection, f.not_empty),
        None => (false, false, false),
    };
    EditState {
        text_focused,
        text_selection,
        text_not_empty,
        buffer_not_empty,
        buffer_selection,
        can_undo: text_not_empty,
        can_redo: false,
    }
}

/// Native menu items that can request an action once.
#[derive(Debug, Clone, Copy, PartialEq, Eq, Structural)]
pub enum MenuRequest {
    /// Export dialog requested.
    Export,
    /// Open-port dialog requested.
    OpenPort,
    /// Port settings dialog requested.
    PortSettings,
    /// Connect or disconnect toggle requested.
    ToggleConnect,
}

/// Whether a platform has native menus.
pub open spec fn native(platform: Platform) -> bool {
    platform is MacOs
}

/// The native side of an application: the menu items that were chosen and not
/// yet acted upon, and what the edit menu shows.
#[derive(Debug, Clone, Copy, PartialEq, Eq, Structural)]
pub struct NativeApp {
    pub platform: Platform,
    pub export: bool,
    pub open_port: bool,
    pub port_settings: bool,
    pub toggle_connect: bool,
    pub edit_state: EditState,
}

impl NativeApp {
    /// Whether a request waits to be taken.
    pub open spec fn waits(self, request: MenuRequest) -> bool {
        match request {
            MenuRequest::Export => self.export,
            MenuRequest::OpenPort => self.open_port,
            MenuRequest::PortSettings => self.port_settings,
            MenuRequest::ToggleConnect => self.toggle_connect,
        }
    }

    /// The same with a request waiting or not.
    pub open spec fn with(self, request: MenuRequest, waiting: bool) -> NativeApp {
        match request {
            MenuRequest::Export => NativeApp { export: waiting, ..self },
            MenuRequest::OpenPort => NativeApp { open_port: waiting, ..self },
            MenuRequest::PortSettings => NativeApp { port_settings: waiting, ..self },
            MenuRequest::ToggleConnect => NativeApp { toggle_connect: waiting, ..self },
        }
    }

    /// The same after a menu item was chosen. Without native menus there is none
    /// to choose.
    pub open spec fn chosen(self, request: MenuRequest) -> NativeApp {
        if native(self.platform) {
            self.with(request, true)
        } else {
            self
        }
    }

    fn set(&mut self, request: MenuRequest, waiting: bool)
        ensures
            *final(self) == old(self).with(request, waiting),
    {
        match request {
            MenuRequest::Export => {
                self.export = waiting;
            },
            MenuRequest::OpenPort => {
                self.open_port = waiting;
            },
            MenuRequest::PortSettings => {
                self.port_settings = waiting;
            },
            MenuRequest::ToggleConnect => {
                self.toggle_connect = waiting;
            },
        }
    }

    /// A menu item was chosen.
    pub fn choose_item(&mut self, request: MenuRequest)
        ensures
            *final(self) == old(self).chosen(request),
    {
        if has_native_menus(self.platform) {
            self.set(request, true);
        }
    }
}

/// Initialize native application integration: no menu item is chosen yet.
pub fn init_app(platform: Platform) -> (r: NativeApp)
    ensures
        r.platform == platform,
        forall|request: MenuRequest| !#[trigger] r.waits(request),
        r.edit_state == (EditState {
            text_focused: false,
            text_selection: false,
            text_not_empty: false,
            buffer_not_empty: false,
            buffer_selection: false,
            can_undo: false,
            can_redo: false,
        }),
{
    NativeApp {
        platform,
        export: false,
        open_port: false,
        port_settings: false,
        toggle_connect: false,
        edit_state: EditState::default(),
    }
}

/// What the clipboard of a platform holds.
pub open spec fn pastes(platform: Platform, read: Option<String>, r: Option<String>) -> bool {
    r == (if native(platform) {
        read
    } else {
        None
    })
}

/// The text of the system clipboard, given what the platform API reads from it.
///
/// `None` means that the platform provides no native clipboard access, or that
/// there is no text; the GUI framework's own clipboard is used in that case.
pub fn clipboard_text(platform: Platform, read: Option<String>) -> (r: Option<String>)
    ensures
        pastes(platform, read, r),
{
    if has_native_menus(platform) {
        read
    } else {
        None
    }
}

/// Consume a pending native menu request.
///
/// Says `true` exactly once after a menu item was chosen.
pub fn take_menu_request(app: &mut NativeApp, request: MenuRequest) -> (r: bool)
    ensures
        r == old(app).waits(request),
        *final(app) == old(app).with(request, false),
{
    let waiting = match request {
        MenuRequest::Export => app.export,
        MenuRequest::OpenPort => app.open_port,
        MenuRequest::PortSettings => app.port_settings,
        MenuRequest::ToggleConnect => app.toggle_connect,
    };
    app.set(request, false);
    waiting
}

/// Publish the current edit state so native menu items enable and disable.
pub fn update_edit_state(app: &mut NativeApp, state: EditState)
    ensures
        *final(app) == (if native(old(app).platform) {
            NativeApp { edit_state: state, ..*old(app) }
        } else {
            *old(app)
        }),
{
    if has_native_menus(app.platform) {
        app.edit_state = state;
    }
}

/// Whether there is native menu integration.
pub fn has_native_menus(platform: Platform) -> (r: bool)
    ensures
        r == native(platform),
{
    match platform {
        Platform::MacOs => true,
        _ => false,
    }
}

/// A request is taken exactly once after its menu item was chosen, where there
/// are menus, and no other request is touched by it.
pub proof fn a_request_is_taken_once(app: NativeApp, request: MenuRequest, other: MenuRequest)
    ensures
        native(app.platform) ==> app.chosen(request).waits(request),
        !app.with(request, false).waits(request),
        !native(app.platform) ==> app.chosen(request) == app,
        other != request ==> app.chosen(request).waits(other) == app.waits(other),
        other != request ==> app.with(request, false).waits(other) == app.waits(other),
{
}

} // verus!
