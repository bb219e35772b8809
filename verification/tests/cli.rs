use devserial::cli::handlers::{
    daemon_status, daemon_stopped, finish, finish_list, follow_id, follow_next, follow_start,
    parse_instant, run_remote, write_request, write_source, Pending, RemoteStep, Rendered,
    WriteSource,
};
use devserial::cli::output::{
    about_text, authors, describe_state, line_text, port_list_text, search_text, status_text,
    PackageInfo,
};
use devserial::cli::{dispatch, CliError, Command, LineOptions, Role};
use devserial::export::ExportFormat;
use devserial::ipc::IpcError;
use devserial::protocol::{
    LinesPage, PortInfoResponse, ReadWindow, RequestPayload, ResponsePayload, SearchMode,
    SearchOutcome,
};
use devserial::reader::ConnectionState;
use devserial::serial_params::{FlowControl, Parity};
use devserial::storage::{BufferStats, StoredLine};

fn options() -> LineOptions {
    LineOptions {
        baud: 115_200,
        data_bits: 8,
        parity: Parity::Off,
        stop_bits: 1,
        flow_control: FlowControl::Off,
    }
}

fn read(from: Option<i64>) -> Command {
    Command::Read {
        port: "/dev/x".to_string(),
        tail: None,
        from,
        after: None,
        since: None,
        limit: 100,
        wait_ms: 0,
        follow: false,
        timestamps: false,
        json: false,
    }
}

#[test]
fn line_options_reject_out_of_range_values() {
    assert!(LineOptions { data_bits: 9, ..options() }.to_port_config().is_err());
    assert!(LineOptions { stop_bits: 3, ..options() }.to_port_config().is_err());
    assert!(LineOptions { data_bits: 9, ..options() }.to_settings().is_err());
    assert!(LineOptions { stop_bits: 3, ..options() }.to_settings().is_err());
}

#[test]
fn parity_is_validated_by_the_parser() {
    assert!(Parity::parse("sideways").is_err());
    assert!(Parity::parse("even").is_ok());
}

#[test]
fn export_format_is_validated_by_the_parser() {
    assert!(ExportFormat::parse("xml").is_err());
    assert!(ExportFormat::parse("jsonl").is_ok());
}

#[test]
fn line_options_convert_into_a_port_config() {
    let line = LineOptions {
        baud: 9600,
        data_bits: 7,
        parity: Parity::Odd,
        stop_bits: 2,
        flow_control: FlowControl::Hardware,
    };
    let config = line.to_port_config().unwrap();
    assert_eq!(config.baudrate, 9600);
    assert_eq!(config.parity, Parity::Odd);
    assert_eq!(config.data_bits.get(), 7);
    assert_eq!(config.stop_bits.get(), 2);
    assert_eq!(config.flow_control, FlowControl::Hardware);
    assert_eq!(config.framing_summary(), "9600 7O2 (RTS/CTS)");
}

#[test]
fn a_negative_start_line_is_accepted() {
    // The engine counts back from the end for negative IDs.
    match run_remote(read(Some(-20)), false).unwrap() {
        RemoteStep::Request { request: RequestPayload::ReadLines { window, .. }, .. } => {
            assert_eq!(window.start_id, Some(-20));
        }
        _ => panic!("expected read"),
    }
}

#[test]
fn zero_baud_is_rejected_on_conversion() {
    let options = LineOptions {
        baud: 0,
        data_bits: 8,
        parity: Parity::Off,
        stop_bits: 1,
        flow_control: FlowControl::Off,
    };
    assert!(options.to_port_config().is_err());
}

#[test]
fn state_descriptions_are_readable() {
    assert_eq!(describe_state(&ConnectionState::Connected), "connected");
    let text = describe_state(&ConnectionState::Disconnected { since_ms: 1500, attempts: 3 });
    assert!(text.contains("1500ms"));
    assert!(text.contains("3 attempts"));
}

#[test]
fn about_metadata_comes_from_the_manifest() {
    assert!(!authors("Fabian Schmieder").is_empty());
    assert_eq!(authors("A <a@x>:B <b@x>"), "A <a@x>, B <b@x>");
    let info = PackageInfo {
        name: "devserial".to_string(),
        version: "1.2.3".to_string(),
        description: "a bridge".to_string(),
        authors: "Fabian Schmieder".to_string(),
        license: "GPL-3.0-only".to_string(),
        repository: "https://example.org/devserial".to_string(),
    };
    let text = about_text(&info);
    for part in ["1.2.3", "a bridge", "Fabian Schmieder", "GPL-3.0-only", "https://"] {
        assert!(text.contains(part), "{part}: {text}");
    }
}

#[test]
fn timestamps_must_be_rfc3339() {
    assert_eq!(
        parse_instant(&Some("2026-01-15T10:00:00Z".to_string())).unwrap(),
        Some(1_768_471_200_000_000_000)
    );
    assert!(parse_instant(&None).unwrap().is_none());
    let refused = parse_instant(&Some("yesterday".to_string())).unwrap_err();
    assert!(refused.to_string().starts_with("invalid timestamp 'yesterday': "));
    // An instant that the store cannot count stands for none.
    assert_eq!(
        parse_instant(&Some("9999-01-01T00:00:00Z".to_string())).unwrap(),
        Some(0)
    );
}

#[test]
fn newline_and_hex_are_mutually_exclusive() {
    let err = write_request("/dev/x".to_string(), "41".to_string(), true, true).unwrap_err();
    assert!(err.to_string().contains("cannot be combined"));
}

#[test]
fn a_newline_is_appended_where_it_is_asked_for() {
    match write_request("/dev/x".to_string(), "AT".to_string(), false, true).unwrap() {
        RemoteStep::Request { request: RequestPayload::WriteData { data, is_hex, .. }, .. } => {
            assert_eq!(data, "AT\r\n");
            assert!(!is_hex);
        }
        _ => panic!("expected a write"),
    }
}

#[test]
fn a_terminal_is_not_read_from_unasked() {
    assert!(matches!(write_source(Some("x".to_string()), true), Ok(WriteSource::Text(t)) if t == "x"));
    assert!(matches!(write_source(Some("-".to_string()), true), Ok(WriteSource::Stdin)));
    assert!(matches!(write_source(None, false), Ok(WriteSource::Stdin)));
    assert!(write_source(None, true).is_err());
}

#[test]
fn following_goes_on_behind_the_last_line() {
    let window = ReadWindow::default();
    assert!(matches!(
        follow_start("p", window),
        RequestPayload::ReadLines { window: w, .. } if w.tail == Some(20)
    ));
    let page = LinesPage {
        lines: vec![StoredLine { id: 9, timestamp_ns: 0, payload: "x".to_string() }],
        total_lines: 9,
        next_after_id: 9,
    };
    assert_eq!(follow_id(3, &page), 9);
    assert!(matches!(
        follow_next("p", 9),
        RequestPayload::ReadLines { window: w, .. } if w.after_id == Some(9)
    ));
}

#[test]
fn answers_become_text() {
    let text = |pending, response| match finish(pending, response) {
        Ok(Rendered::Text(t)) => t,
        _ => panic!("a text is expected"),
    };
    assert!(text(Pending::Close, ResponsePayload::PortClosed { name: "p".to_string() })
        .contains("p"));
    assert!(text(
        Pending::Clear { port: "p".to_string() },
        ResponsePayload::ClearSuccess { lines_cleared: 3, archive_path: None }
    )
    .contains('3'));
    assert!(finish(Pending::Close, ResponsePayload::Pong).is_err());
}

#[test]
fn a_missing_daemon_leaves_the_hardware_in_the_list() {
    let refused = IpcError::Connect { endpoint: "e".to_string(), source: "s".to_string() };
    match finish_list(Err(refused), vec!["/dev/a".to_string()], false) {
        Ok(Rendered::Text(t)) => {
            assert!(t.contains("daemon not running") && t.contains("/dev/a"), "{t}");
        }
        _ => panic!("a text is expected"),
    }
}

#[test]
fn the_daemon_says_how_it_is() {
    assert_eq!(daemon_status(true, "/tmp/d.sock"), "Daemon is RUNNING (endpoint: /tmp/d.sock)\n");
    assert_eq!(daemon_status(false, "/tmp/d.sock"), "Daemon is STOPPED (endpoint: /tmp/d.sock)\n");
    assert_eq!(
        daemon_stopped(Ok(ResponsePayload::ShutdownAck)).unwrap(),
        "Daemon shutdown requested.\n"
    );
    let absent = IpcError::Connect { endpoint: "e".to_string(), source: "s".to_string() };
    assert_eq!(daemon_stopped(Err(absent)).unwrap(), "Daemon is not running.\n");
    assert!(daemon_stopped(Err(IpcError::Timeout(5))).is_err());
}

#[test]
fn tables_read_as_before() {
    let managed = Some(vec![PortInfoResponse {
        name: "p".to_string(),
        state: ConnectionState::Connected,
        total_lines: 4,
    }]);
    assert_eq!(
        port_list_text(&managed, &Vec::new()),
        "Managed Ports:\n  • p (connected, 4 lines)\n\nAvailable Serial Hardware:\n  \
         (no hardware ports detected)\n"
    );
    let stats = BufferStats {
        total_lines: 1,
        total_bytes: 2,
        db_size_bytes: 3,
        last_timestamp_ns: Some(1_767_225_600_000_000_000),
    };
    let status = status_text("p", &ConnectionState::Connected, &stats);
    assert!(status.contains("Last Activity:  2026-01-01T00:00:00.000000000Z\n"), "{status}");
    let outcome = SearchOutcome {
        results: vec![StoredLine { id: 7, timestamp_ns: 0, payload: "hit".to_string() }],
        truncated: true,
    };
    assert!(search_text(&outcome).starts_with("Found 1 matching lines:\n  [7] hit\n"));
    let line = StoredLine { id: 7, timestamp_ns: 1_767_225_600_000_000_000, payload: "x".to_string() };
    assert_eq!(line_text(&line, false), "x\n");
    let at = chrono::DateTime::from_timestamp_nanos(line.timestamp_ns)
        .with_timezone(&chrono::Local)
        .format("%H:%M:%S%.3f");
    assert_eq!(line_text(&line, true), format!("[{at}] x\n"));
}

#[test]
fn commands_are_routed() {
    assert!(matches!(dispatch(Some(Command::Mcp), false), Ok(Role::Mcp)));
    assert!(matches!(dispatch(None, false), Ok(Role::Mcp)));
    assert!(matches!(dispatch(Some(read(None)), false), Ok(Role::Remote(_))));
    let search = Command::Search {
        port: "p".to_string(),
        query: "q".to_string(),
        mode: SearchMode::Substring,
        start: Some("yesterday".to_string()),
        end: None,
        limit: 5,
        json: false,
    };
    assert!(matches!(run_remote(search, false), Err(CliError::Message(_))));
}
