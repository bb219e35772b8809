use devserial::config::PortConfig;
use devserial::export::ExportFormat;
use devserial::gui_ipc::{
    acknowledged, delivered, receive, GuiCommand, GuiResponse, GuiStep, MonitorEvent,
    OpenPortRequest,
};
use devserial::modem::FileTransferProtocol;
use devserial::monitor::buffer::{DisplayBuffer, DisplayLine};
use devserial::monitor::dialog::{
    baud_after_edit, custom_baud, form_result, is_active, ButtonInput, DialogAction,
    MacosDialogButtons, PortConfigDialogState,
};
use devserial::monitor::export_form::{
    all_count, default_name, default_name_at, ExportForm, ExportQuery, ExportScope,
};
use devserial::monitor::history::SendHistory;
use devserial::monitor::transfer_form::{protocol_choices, TransferForm};
use devserial::monitor::windows::{
    active_ports, connect_from_dialog, find_window, handle_command, open_count, primary,
    should_exit, window_title, ConnectStep, Window, WindowStep,
};
use devserial::monitor::{
    colorize_label, LineColor, LineEnding, PortMonitorState, Reconfiguration, SendStep,
};
use devserial::monitor::text_menu::{edit, is_enabled, TextChoice};
use devserial::platform::{
    clipboard_text, edit_state, has_native_menus, init_app, take_menu_request, update_edit_state,
    EditState, MenuRequest, Platform, TextFocus,
};
use devserial::port_manager::DeviceNodes;
use devserial::protocol::PortSettings;
use devserial::state::{active_ports as restored, StateError};
use devserial::storage::StoredLine;
use devserial::COPYRIGHT;

fn line(payload: &str) -> DisplayLine {
    DisplayLine {
        timestamp: String::new(),
        timestamp_ns: 0,
        payload: payload.to_string(),
        is_sent: false,
    }
}

#[test]
fn a_filter_shows_what_passes() {
    let mut buffer = DisplayBuffer::new();
    for l in ["alpha", "Beta", "ALPHABET", "gamma"] {
        buffer.push_display_line(line(l));
    }
    assert_eq!(buffer.rows(), [0, 1, 2, 3]);
    buffer.set_filter("alpha");
    assert!(buffer.filter_active());
    assert_eq!(buffer.rows(), [0, 2]);
    assert_eq!(buffer.matches(), 2);
    buffer.push_display_line(line("one alpha more"));
    buffer.refresh();
    assert_eq!(buffer.rows(), [0, 2, 4]);
    buffer.set_filter("");
    assert_eq!(buffer.rows().len(), 5);
    assert_eq!(buffer.line(1).unwrap().payload, "Beta");
    assert!(buffer.line(9).is_none());
    buffer.clear();
    assert_eq!(buffer.len(), 0);
}

#[test]
fn the_buffer_keeps_the_latest_lines() {
    let mut buffer = DisplayBuffer::new();
    for i in 0..100_050 {
        buffer.push_display_line(line(&format!("{i}")));
    }
    let kept = buffer.len();
    assert!(kept < 100_050);
    assert_eq!(buffer.line(kept - 1).unwrap().payload, "100049");
    assert_eq!(buffer.line(0).unwrap().payload, format!("{}", 100_050 - kept));
}

#[test]
fn lower_case_is_more_than_ascii() {
    let mut buffer = DisplayBuffer::new();
    buffer.push_display_line(line("GRÖSSE"));
    buffer.set_filter("größe");
    assert_eq!(buffer.matches(), 0);
    buffer.set_filter("grösse");
    assert_eq!(buffer.matches(), 1);
}

#[test]
fn the_draft_comes_back() {
    let mut history = SendHistory::new(vec!["one".to_string(), "two".to_string()]);
    let mut input = "draft".to_string();
    history.history_up(&mut input);
    assert_eq!(input, "two");
    history.history_up(&mut input);
    assert_eq!(input, "one");
    history.history_down(&mut input);
    assert_eq!(input, "two");
    history.history_down(&mut input);
    assert_eq!(input, "draft");
    assert!(history.record("three"));
    assert!(!history.record("three"));
}

#[test]
fn a_dialog_is_answered_by_its_buttons() {
    let buttons = MacosDialogButtons::new("Connect").with_cancel("Quit").with_enabled(false);
    let input = |primary_clicked, cancel_clicked, enter, escape| ButtonInput {
        primary_clicked,
        cancel_clicked,
        enter,
        escape,
    };
    assert_eq!(buttons.action(input(false, false, true, false)), DialogAction::Nothing);
    assert_eq!(buttons.action(input(false, true, false, false)), DialogAction::Cancel);
    let buttons = buttons.with_enabled(true);
    assert_eq!(buttons.action(input(false, false, true, false)), DialogAction::Primary);
    assert_eq!(form_result(DialogAction::Primary), Some(true));
    assert_eq!(form_result(DialogAction::Cancel), Some(false));
    assert_eq!(form_result(DialogAction::Nothing), None);
}

#[test]
fn a_custom_rate_counts_where_it_is_one() {
    assert_eq!(custom_baud("57600"), Some(57_600));
    assert_eq!(custom_baud("fast"), None);
    assert_eq!(baud_after_edit(9600, "fast"), 9600);
    assert_eq!(baud_after_edit(9600, "57600"), 57_600);
}

#[test]
fn an_open_port_is_not_offered_again() {
    let dialog =
        PortConfigDialogState::new(vec!["/dev/cu.a".to_string(), "/dev/cu.b".to_string()]);
    assert_eq!(dialog.effective_port(), "/dev/cu.a");
    let active = vec!["/dev/tty.a".to_string()];
    assert!(is_active(&active, "/dev/cu.a", DeviceNodes::Twin));
    assert!(!is_active(&active, "/dev/cu.a", DeviceNodes::Single));
    let form = dialog.form(&active, DeviceNodes::Twin);
    assert!(!form.choices[0].enabled && form.choices[1].enabled);
    assert!(!form.can_connect);
}

#[test]
fn an_export_asks_for_what_its_scope_says() {
    let mut form = ExportForm::new();
    form.scope = ExportScope::VisibleBuffer;
    assert_eq!(form.query().unwrap(), ExportQuery::Display);
    form.scope = ExportScope::AllDb;
    assert_eq!(form.query().unwrap(), ExportQuery::All);
    form.scope = ExportScope::CustomRange;
    form.start_line = "5".to_string();
    form.end_line = "7".to_string();
    assert_eq!(form.query().unwrap(), ExportQuery::From { start: 5, count: 3 });
    form.end_line = "3".to_string();
    assert!(form.query().is_err());
    assert_eq!(all_count(10), 10);
    assert_eq!(all_count(u64::MAX), 500_000);
    assert_eq!(
        default_name_at("/dev/ttyUSB0", "20260101_120000", ExportFormat::Csv),
        default_name_at("/dev/ttyUSB0", "20260101_120000", ExportFormat::Csv)
    );
    assert!(default_name("/dev/ttyUSB0", ExportFormat::Csv).ends_with(".csv"));
}

#[test]
fn a_transfer_needs_a_file_but_no_directory() {
    let mut form = TransferForm::new();
    assert!(form.send().is_none());
    form.path = "/tmp/fw.bin".to_string();
    assert!(matches!(form.send(), Some(MonitorEvent::SendFile { path, .. }) if path == "/tmp/fw.bin"));
    form.path = "  ".to_string();
    assert!(matches!(form.receive(), MonitorEvent::ReceiveFile { dir, .. } if dir == "."));
    assert_eq!(protocol_choices()[0].0, FileTransferProtocol::Zmodem);
}

fn window(port: &str, is_open: bool) -> Window {
    Window {
        port_name: port.to_string(),
        port_info: "115200 8N1".to_string(),
        is_open,
        connected: true,
    }
}

#[test]
fn a_device_has_one_window() {
    let windows = vec![window("/dev/cu.a", true), window("/dev/cu.b", false)];
    assert_eq!(find_window(&windows, "/dev/tty.a", DeviceNodes::Twin), Some(0));
    assert_eq!(find_window(&windows, "/dev/tty.a", DeviceNodes::Single), None);
    let open = |port: &str, settings| {
        GuiCommand::OpenPort(OpenPortRequest {
            port_name: port.to_string(),
            db_path: "/d.db".to_string(),
            port_info: "i".to_string(),
            settings,
        })
    };
    assert!(matches!(
        handle_command(&windows, open("/dev/tty.a", None), DeviceNodes::Twin),
        WindowStep::Raise(0)
    ));
    assert!(matches!(
        handle_command(&windows, open("/dev/cu.c", None), DeviceNodes::Twin),
        WindowStep::OpenCapture { .. }
    ));
    let settings = PortSettings { baudrate: Some(9600), ..PortSettings::default() };
    assert!(matches!(
        handle_command(&windows, open("/dev/cu.c", Some(settings)), DeviceNodes::Twin),
        WindowStep::OpenSession { config, .. } if config.baudrate == 9600
    ));
    assert_eq!(open_count(&windows), 1);
    assert_eq!(primary(&windows), Some(0));
    assert_eq!(active_ports(&windows), ["/dev/cu.a"]);
    assert!(!should_exit(&windows, false));
    assert!(!should_exit(&[], false));
    assert!(should_exit(&[window("/dev/cu.a", false)], false));
    assert!(!should_exit(&[window("/dev/cu.a", false)], true));
    assert!(window_title("/dev/cu.a", "115200 8N1", "1.0").contains("/dev/cu.a"));
    let dialog = PortConfigDialogState::new(vec!["/dev/cu.c".to_string()]);
    assert!(matches!(
        connect_from_dialog(&windows, &dialog, DeviceNodes::Twin),
        ConnectStep::OpenSession { .. }
    ));
}

fn monitor(owns_port: bool) -> PortMonitorState {
    PortMonitorState::new("p".to_string(), "115200 8N1".to_string(), Vec::new(), owns_port)
}

#[test]
fn input_goes_to_the_port_or_to_its_owner() {
    let mut own = monitor(true);
    own.input = "AT".to_string();
    own.line_ending = LineEnding::CrLf;
    match own.send_input() {
        (SendStep::Write { data }, _) => assert_eq!(data, b"AT\r\n"),
        _ => panic!("the window writes itself"),
    }
    let mut other = monitor(false);
    other.input = "AT".to_string();
    other.line_ending = LineEnding::Lf;
    match other.send_input() {
        (SendStep::Report { event: MonitorEvent::Write { hex } }, _) => assert_eq!(hex, "41540A"),
        _ => panic!("the owner writes"),
    }
    let mut empty = monitor(true);
    assert!(matches!(empty.send_input(), (SendStep::Nothing, _)));
}

#[test]
fn a_marker_is_shown_at_the_moment_that_is_stored() {
    let mut m = monitor(true);
    let (at, marker) = m.connection_toggled(false, Ok(())).expect("the change is marked");
    let shown = m.buffer.line(0).expect("the marker is shown");
    assert_eq!(shown.timestamp_ns, at);
    assert_eq!(shown.payload, marker);
    assert!(!shown.is_sent);
    m.input = " AT ".to_string();
    m.input_sent(Ok(()));
    let sent = m.buffer.line(1).expect("the input is shown");
    assert_eq!(sent.payload, "AT");
    assert!(sent.is_sent);
}

#[test]
fn new_lines_are_shown_once() {
    let mut m = monitor(true);
    assert!(m.needs_total());
    m.take_total(2);
    let (from, _) = m.next_read().unwrap();
    let stored = |id| StoredLine { id, timestamp_ns: 0, payload: format!("l{id}") };
    m.update_lines(&[stored(from), stored(from + 1)]);
    assert_eq!(m.buffer.len(), 2);
    let (next, _) = m.next_read().unwrap();
    assert_eq!(next, from + 2);
}

#[test]
fn settings_are_changed_by_who_may() {
    let mut m = monitor(false);
    assert!(matches!(
        m.apply_reconfiguration(),
        Reconfiguration::Event(MonitorEvent::Reconfigure { .. }) | Reconfiguration::Refused
    ));
    let mut own = PortMonitorState::new_with_reconfigure(
        "p".to_string(),
        "i".to_string(),
        Vec::new(),
        true,
        true,
        Some(PortConfig { baudrate: 9600, ..PortConfig::default() }),
        true,
    );
    assert_eq!(own.current_config().baudrate, 9600);
    assert!(matches!(own.apply_reconfiguration(), Reconfiguration::Direct(c) if c.baudrate == 9600));
    assert!(own.toggle_connection().is_some());
}

#[test]
fn lines_are_coloured_by_what_they_hold() {
    assert_eq!(colorize_label("[ERROR] boom"), LineColor::Error);
    assert_eq!(colorize_label("a warning"), LineColor::Warning);
    assert_eq!(colorize_label("nothing of note"), LineColor::Plain);
}

#[test]
fn a_running_instance_takes_or_refuses_a_request() {
    assert_eq!(acknowledged(None), Ok(false));
    assert_eq!(acknowledged(Some(Ok(GuiResponse::Accepted))), Ok(true));
    assert_eq!(
        acknowledged(Some(Ok(GuiResponse::Error("no".to_string())))),
        Err("no".to_string())
    );
    assert!(acknowledged(Some(Err("bad".to_string()))).unwrap_err().contains("bad"));
    assert_eq!(
        receive(Ok(GuiCommand::Ping), vec!["p".to_string()]),
        GuiStep::Answer(GuiResponse::Pong { open_ports: vec!["p".to_string()] })
    );
    let focus = GuiCommand::FocusPort { port_name: "p".to_string() };
    assert_eq!(receive(Ok(focus.clone()), Vec::new()), GuiStep::Deliver(focus));
    assert!(matches!(
        receive(Err("bad".to_string()), Vec::new()),
        GuiStep::Answer(GuiResponse::Error(_))
    ));
    assert_eq!(delivered(true), GuiResponse::Accepted);
    assert!(matches!(delivered(false), GuiResponse::Error(_)));
}

#[test]
fn the_edit_menu_follows_the_focus() {
    let focused = edit_state(Some(TextFocus { selection: true, not_empty: true }), true, false);
    assert!(focused.text_focused && focused.text_selection && focused.text_not_empty);
    let none = edit_state(None, true, true);
    assert!(!none.text_focused && none.buffer_not_empty && none.buffer_selection);
}

#[test]
fn a_row_that_cannot_be_read_hides_no_other() {
    let fast = PortConfig { baudrate: 921_600, ..PortConfig::default() };
    let entries = restored(vec![
        ("a".to_string(), Some(PortConfig::default())),
        ("b".to_string(), None),
        ("c".to_string(), Some(fast)),
    ]);
    assert_eq!(entries.len(), 2);
    assert_eq!(entries[1].name, "c");
    assert_eq!(entries[1].config.baudrate, 921_600);
    assert_eq!(StateError::Json("x".to_string()).to_string(), "json error: x");
    assert_eq!(StateError::Io("x".to_string()).to_string(), "io error: x");
    assert_eq!(StateError::Sqlite("x".to_string()).to_string(), "sqlite error: x");
    assert!(COPYRIGHT.starts_with('\u{a9}'));
}

#[test]
fn a_menu_request_is_taken_once() {
    let mut app = init_app(Platform::MacOs);
    assert!(!take_menu_request(&mut app, MenuRequest::Export));
    app.choose_item(MenuRequest::Export);
    assert!(!take_menu_request(&mut app, MenuRequest::ToggleConnect));
    assert!(take_menu_request(&mut app, MenuRequest::Export));
    assert!(!take_menu_request(&mut app, MenuRequest::Export));
    let shown = edit_state(Some(TextFocus { selection: true, not_empty: true }), true, false);
    update_edit_state(&mut app, shown);
    assert_eq!(app.edit_state, shown);
}

#[test]
fn without_native_menus_nothing_is_asked_or_shown() {
    for platform in [Platform::Linux, Platform::Windows, Platform::OtherUnix, Platform::Other] {
        assert!(!has_native_menus(platform));
        let mut app = init_app(platform);
        app.choose_item(MenuRequest::OpenPort);
        assert!(!take_menu_request(&mut app, MenuRequest::OpenPort));
        update_edit_state(&mut app, edit_state(None, true, true));
        assert_eq!(app.edit_state, EditState::default());
        assert_eq!(clipboard_text(platform, Some("x".to_string())), None);
    }
    assert!(has_native_menus(Platform::MacOs));
    assert_eq!(clipboard_text(Platform::MacOs, Some("x".to_string())).as_deref(), Some("x"));
}

#[test]
fn a_text_field_has_its_menu() {
    let mut text = "AT+GMR".to_string();
    assert!(is_enabled(TextChoice::Cut, &text, None));
    assert!(!is_enabled(TextChoice::Paste, &text, None));
    assert!(!is_enabled(TextChoice::Paste, &text, Some("")));
    assert_eq!(edit(TextChoice::Copy, &mut text, None).as_deref(), Some("AT+GMR"));
    assert_eq!(edit(TextChoice::SelectAll, &mut text, None), None);
    assert_eq!(text, "AT+GMR");
    let cut = edit(TextChoice::Cut, &mut text, None);
    assert_eq!(text, "");
    assert!(!is_enabled(TextChoice::Clear, &text, None));
    assert_eq!(edit(TextChoice::Paste, &mut text, cut.as_deref()), None);
    assert_eq!(text, "AT+GMR");
    edit(TextChoice::Paste, &mut text, Some("\r"));
    assert_eq!(text, "AT+GMR\r");
    assert_eq!(edit(TextChoice::Clear, &mut text, None), None);
    assert_eq!(text, "");
    assert_eq!(TextChoice::all()[0].label(), "✂ Cut");
    assert_eq!(TextChoice::Paste.shortcut(), "Cmd+V");
}

#[test]
fn a_failed_write_of_an_owning_window_is_shown_all_the_same() {
    let mut own = monitor(true);
    own.input = "AT".to_string();
    own.input_sent(Err("gone".to_string()));
    assert_eq!(own.buffer.len(), 1);
    assert_eq!(own.input, "");
    assert!(own.settings.status.is_none());
    let mut other = monitor(false);
    other.input = "AT".to_string();
    other.input_sent(Err("gone".to_string()));
    assert_eq!(other.buffer.len(), 0);
    assert_eq!(other.input, "AT");
    assert!(matches!(&other.settings.status, Some((m, true)) if m == "gone"));
}
