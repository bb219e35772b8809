//! Operations end to end, on a machine that is held in memory.
use std::collections::HashMap;

use devserial::config::{Config, PortConfig};
use devserial::engine::reading::{
    line_query, page_of, plan_search, resolve_start, search_limit, time_range, LineQuery,
};
use devserial::engine::scan::{Scan, ScanStep, SCAN_PAGE};
use devserial::engine::{
    CommandEngine, DeviceAction, EngineError, Event, ListenerRequest, Progress, Work,
};
use devserial::export::ExportFormat;
use devserial::gui_ipc::MonitorEvent;
use devserial::modem::FileTransferProtocol;
use devserial::paths::Environment;
use devserial::platform::Platform;
use devserial::port_manager::{
    handle_command, reconfigured, sort_infos, storage_opened, DeviceNodes, ManagedPort,
    PortCommand, PortInfo, PortManagerError, PortStep,
};
use devserial::protocol::{
    LinesPage, PortSettings, ReadWindow, RequestPayload, ResponsePayload, RestState, SearchMode,
    SearchOutcome,
};
use devserial::reader::ConnectionState;
use devserial::rest::answers::{
    lines_answer, open_answer, operation_failed, search_answer, LineStream, LinesQuery,
    SearchQuery, StreamStep, TransferBody,
};
use devserial::rest::Status;
use devserial::serial_params::Parity;
use devserial::server::{
    break_answer, clear_answer, export_answer, list_answer, list_resources, macro_answer,
    monitor_event_payload, notify, read_answer, read_resource, receive_file_answer, render_lines,
    resource_port, search_answer as found, send_file_answer, signal_answer, status_answer,
    write_answer, ClearBufferParams, ConfigurePortParams, DevSerialServer, ExportBufferParams,
    PortParams, ReadBufferParams, SearchBufferParams, SerialBreakParams, SerialReceiveFileParams,
    SetControlLinesParams, ToolError, TriggerMacroParams,
};
use devserial::storage::{BufferStats, StoredLine};
use devserial::table::Table;

/// A machine in memory: ports, their captures, files and a tool.
struct World {
    engine: CommandEngine,
    ports: Table<ManagedPort>,
    captures: HashMap<String, Vec<StoredLine>>,
    files: HashMap<String, Vec<u8>>,
    devices: Vec<String>,
    device_log: Vec<DeviceAction>,
    remembered: Vec<String>,
    tool: Option<Result<String, String>>,
    clock_ms: u64,
}

fn world_with(config: Config) -> World {
    World {
        engine: CommandEngine::new(config, DeviceNodes::Single),
        ports: Table::new(),
        captures: HashMap::new(),
        files: HashMap::new(),
        devices: vec!["/dev/ttyUSB0".to_string()],
        device_log: Vec::new(),
        remembered: Vec::new(),
        tool: None,
        clock_ms: 0,
    }
}

/// An environment in which nothing is set.
fn nothing_set() -> Environment {
    Environment::empty(Platform::Linux)
}

fn world() -> World {
    let mut config = Config::default(&nothing_set());
    config.global.data_dir = "/data".to_string();
    config.global.archive_dir = "/data/archive".to_string();
    world_with(config)
}

fn missing(name: &str) -> Event {
    Event::Failed(EngineError::Port(PortManagerError::NotFound(name.to_string())))
}

impl World {
    fn open_mock(&mut self, name: &str, lines: &[&str]) {
        let cmd =
            PortCommand::OpenMock { name: name.to_string(), config: PortConfig::default() };
        assert_eq!(handle_command(&mut self.ports, &cmd), PortStep::StartReader);
        let stored = lines
            .iter()
            .enumerate()
            .map(|(i, l)| StoredLine {
                id: i as i64 + 1,
                timestamp_ns: 1_767_225_600_000_000_000 + i as i64 * 500_000_000,
                payload: (*l).to_string(),
            })
            .collect();
        self.captures.insert(name.to_string(), stored);
    }

    /// A port with a device behind it.
    fn open_device(&mut self, name: &str) {
        storage_opened(&mut self.ports, name, PortConfig::default(), Ok(())).unwrap();
        self.captures.insert(name.to_string(), Vec::new());
    }

    fn stats(&self, lines: &[StoredLine]) -> BufferStats {
        BufferStats {
            total_lines: lines.len() as u64,
            total_bytes: lines.iter().map(|l| l.payload.len() as u64).sum(),
            db_size_bytes: 4096,
            last_timestamp_ns: lines.last().map(|l| l.timestamp_ns),
        }
    }

    fn manage(&mut self, cmd: PortCommand) -> Event {
        match handle_command(&mut self.ports, &cmd) {
            PortStep::Refuse(e) => Event::Failed(EngineError::Port(e)),
            PortStep::OpenSerial => match &cmd {
                PortCommand::OpenReal { name, config, .. } => {
                    if self.devices.contains(name) {
                        storage_opened(&mut self.ports, name, *config, Ok(())).unwrap();
                        self.captures.entry(name.clone()).or_default();
                        Event::Done
                    } else {
                        Event::Failed(EngineError::Port(PortManagerError::Serial(
                            "no such device".to_string(),
                        )))
                    }
                }
                _ => panic!("only a device is opened"),
            },
            PortStep::StartReader | PortStep::HandStorage | PortStep::HandSerialPort => Event::Done,
            PortStep::StopReader(config) => match cmd {
                PortCommand::CloseWithConfig { .. } => Event::Config(config),
                _ => Event::Done,
            },
            PortStep::Collect(names) => {
                let infos = names
                    .into_iter()
                    .map(|name| {
                        let total_lines = self.captures.get(&name).map_or(0, |l| l.len() as u64);
                        PortInfo { name, state: ConnectionState::Connected, total_lines }
                    })
                    .collect();
                Event::Ports(sort_infos(&infos))
            }
            PortStep::ReadState => Event::State(ConnectionState::Connected),
            PortStep::Config(config) => Event::Config(config),
            PortStep::WriteBytes => match cmd {
                PortCommand::Write { data, .. } => {
                    self.device_log.push(DeviceAction::WriteAll(data));
                    Event::Done
                }
                _ => panic!("only bytes are written"),
            },
            PortStep::ApplySettings => match &cmd {
                PortCommand::Reconfigure { name, config } => {
                    reconfigured(&mut self.ports, name, *config, Ok(())).unwrap();
                    Event::Done
                }
                _ => panic!("only settings are applied"),
            },
        }
    }

    fn carry_out(&mut self, work: Work) -> Event {
        match work {
            Work::Port(cmd) => self.manage(cmd),
            Work::ListDevices => Event::Devices(self.devices.clone()),
            Work::Remember { name, .. } => {
                self.remembered.push(name);
                Event::Done
            }
            Work::Forget { name } => {
                self.remembered.retain(|n| *n != name);
                Event::Done
            }
            Work::ReadPage { port, window, limit } => match self.captures.get(&port) {
                None => missing(&port),
                Some(all) => {
                    let total = all.len() as u64;
                    let lines: Vec<StoredLine> = match line_query(&window, total, limit) {
                        LineQuery::Since { since_ns, limit } => all
                            .iter()
                            .filter(|l| l.timestamp_ns > since_ns)
                            .take(limit as usize)
                            .cloned()
                            .collect(),
                        LineQuery::From { start, limit } => all
                            .iter()
                            .filter(|l| l.id >= start)
                            .take(limit as usize)
                            .cloned()
                            .collect(),
                    };
                    Event::Page(page_of(&window, total, lines), self.clock_ms)
                }
            },
            Work::Sleep(ms) => {
                self.clock_ms += ms;
                Event::Done
            }
            Work::Stats { port } => match self.captures.get(&port) {
                None => missing(&port),
                Some(lines) => Event::Stats(self.stats(lines)),
            },
            Work::Search { port, plan } => match self.captures.get(&port) {
                None => missing(&port),
                Some(lines) => {
                    let mut scan = Scan::new();
                    let mut after = 0;
                    loop {
                        let page: Vec<StoredLine> = lines
                            .iter()
                            .filter(|l| {
                                l.id > after
                                    && plan.range.map_or(true, |r| {
                                        r.start_ns <= l.timestamp_ns && l.timestamp_ns <= r.end_ns
                                    })
                            })
                            .take(SCAN_PAGE as usize)
                            .cloned()
                            .collect();
                        match scan.take(&plan, page) {
                            (_, ScanStep::Done(outcome)) => return Event::Found(outcome),
                            (next, ScanStep::More { after: id }) => {
                                scan = next;
                                after = id;
                            }
                        }
                    }
                }
            },
            Work::Exists { path } => Event::Exists(path != "/missing"),
            Work::ReadRange { port, start, end } => match self.captures.get(&port) {
                None => missing(&port),
                Some(lines) => Event::Lines(
                    lines.iter().filter(|l| start <= l.id && l.id <= end).cloned().collect(),
                ),
            },
            Work::WriteText { path, text } => {
                self.files.insert(path, text.into_bytes());
                Event::Done
            }
            Work::Absolute { path } => Event::Path(path),
            Work::Clear { port, archive } => match self.captures.get_mut(&port) {
                None => missing(&port),
                Some(lines) => {
                    let n = lines.len() as u64;
                    if let Some(path) = archive {
                        self.files.insert(path, vec![n as u8]);
                    }
                    lines.clear();
                    Event::Count(n)
                }
            },
            Work::AppendHistory { .. } | Work::Log { .. } => Event::Done,
            Work::Device { action, .. } => {
                self.device_log.push(action);
                Event::Done
            }
            Work::ReadFile { path } => match self.files.get(&path) {
                Some(data) => Event::Bytes(data.clone()),
                None => Event::Error("No such file or directory".to_string()),
            },
            Work::CreateDir { .. } => Event::Done,
            Work::WriteFile { path, data } => {
                self.files.insert(path, data);
                Event::Done
            }
            Work::Send { data, .. } => Event::Sent(data.len()),
            Work::Receive { .. } => Event::Received("got.bin".to_string(), vec![1, 2, 3]),
            Work::FindTool => Event::Tool(self.tool.is_some()),
            Work::RunTool { .. } => Event::Output(match &self.tool {
                Some(Ok(s)) => Ok(s.clone()),
                Some(Err(s)) => Err(s.clone()),
                None => Err("not there".to_string()),
            }),
            Work::Listener(request) => {
                let listening = matches!(request, ListenerRequest::Enable { .. });
                Event::Listener(RestState {
                    listening,
                    bind: "127.0.0.1".to_string(),
                    port: 9600,
                    reason: None,
                    token_required: false,
                })
            }
        }
    }

    fn run(&mut self, payload: RequestPayload) -> Result<ResponsePayload, EngineError> {
        let mut progress = self.engine.execute(payload);
        loop {
            match progress {
                Progress::Done(r) => return r,
                Progress::Do(work, op) => {
                    let event = self.carry_out(work);
                    progress = self.engine.step(op, event);
                }
            }
        }
    }

    fn page(&mut self, port: &str, window: ReadWindow) -> LinesPage {
        match self.run(RequestPayload::ReadLines { port: port.to_string(), window }) {
            Ok(ResponsePayload::Lines(page)) => page,
            _ => panic!("a page is expected"),
        }
    }

    fn search(&mut self, query: &str, mode: SearchMode) -> Result<SearchOutcome, EngineError> {
        match self.run(RequestPayload::Search {
            port: "p".to_string(),
            query: query.to_string(),
            mode,
            start_ns: None,
            end_ns: None,
            limit: Some(10),
        }) {
            Ok(ResponsePayload::SearchResults(outcome)) => Ok(outcome),
            Ok(_) => panic!("search results are expected"),
            Err(e) => Err(e),
        }
    }

    fn tool_call(&mut self, payload: RequestPayload) -> Result<ResponsePayload, ToolError> {
        let outcome = self.run(payload);
        DevSerialServer::run(outcome)
    }
}

fn payloads(page: &LinesPage) -> Vec<&str> {
    page.lines.iter().map(|l| l.payload.as_str()).collect()
}

// ------------------------------------------------------------------ the engine

#[test]
fn test_engine_ping_and_list() {
    let mut w = world();
    assert_eq!(w.run(RequestPayload::Ping).unwrap(), ResponsePayload::Pong);
    assert_eq!(
        w.run(RequestPayload::ListPorts).unwrap(),
        ResponsePayload::PortList(vec![])
    );
}

#[test]
fn test_engine_mock_port_lifecycle() {
    let mut w = world();
    w.open_mock("mock1", &["line 1", "line 2", "line 3"]);

    match w.run(RequestPayload::ListPorts).unwrap() {
        ResponsePayload::PortList(ports) => {
            assert_eq!(ports.len(), 1);
            assert_eq!(ports[0].name, "mock1");
        }
        _ => panic!("expected PortList"),
    }

    let page = w.page(
        "mock1",
        ReadWindow { start_id: Some(1), limit: Some(10), ..ReadWindow::default() },
    );
    assert_eq!(page.lines.len(), 3);
    assert_eq!(page.total_lines, 3);
    assert_eq!(page.next_after_id, 3);
    assert_eq!(page.lines[0].payload, "line 1");

    match w
        .run(RequestPayload::Search {
            port: "mock1".into(),
            query: "line 2".into(),
            mode: SearchMode::Substring,
            start_ns: None,
            end_ns: None,
            limit: Some(10),
        })
        .unwrap()
    {
        ResponsePayload::SearchResults(outcome) => {
            assert_eq!(outcome.results.len(), 1);
            assert!(!outcome.truncated);
        }
        _ => panic!("expected SearchResults"),
    }

    match w.run(RequestPayload::GetStats { port: "mock1".into() }).unwrap() {
        ResponsePayload::Stats(stats) => assert_eq!(stats.total_lines, 3),
        _ => panic!("expected Stats"),
    }

    assert_eq!(
        w.run(RequestPayload::ClosePort { name: "mock1".into() }).unwrap(),
        ResponsePayload::PortClosed { name: "mock1".into() }
    );
}

#[test]
fn tail_and_after_id_agree_on_the_same_lines() {
    let mut w = world();
    w.open_mock("p", &["a", "b", "c", "d", "e"]);
    let tail = w.page("p", ReadWindow { tail: Some(2), ..ReadWindow::default() });
    assert_eq!(payloads(&tail), vec!["d", "e"]);
    let after = w.page("p", ReadWindow { after_id: Some(3), ..ReadWindow::default() });
    assert_eq!(payloads(&after), vec!["d", "e"]);
}

#[test]
fn negative_start_counts_from_the_end() {
    let mut w = world();
    w.open_mock("p", &["a", "b", "c"]);
    let page = w.page("p", ReadWindow { start_id: Some(-1), ..ReadWindow::default() });
    assert_eq!(page.lines.len(), 1);
    assert_eq!(page.lines[0].payload, "c");
}

#[test]
fn regex_search_finds_matches_beyond_the_first_page() {
    let mut w = world();
    let mut lines: Vec<String> = (0..2000).map(|i| format!("noise {i}")).collect();
    lines.push("NEEDLE 4711".into());
    let refs: Vec<&str> = lines.iter().map(String::as_str).collect();
    w.open_mock("p", &refs);
    let outcome = w.search("^NEEDLE", SearchMode::Regex).unwrap();
    assert_eq!(outcome.results.len(), 1);
    assert_eq!(outcome.results[0].payload, "NEEDLE 4711");
}

#[test]
fn exact_search_does_not_match_substrings() {
    let mut w = world();
    w.open_mock("p", &["ok", "ok and more"]);
    let outcome = w.search("ok", SearchMode::Exact).unwrap();
    assert_eq!(outcome.results.len(), 1);
    assert_eq!(outcome.results[0].payload, "ok");
}

#[test]
fn invalid_regex_is_reported_as_such() {
    let mut w = world();
    w.open_mock("p", &[]);
    let err = w.search("[unclosed", SearchMode::Regex).unwrap_err();
    assert!(err.to_string().contains("invalid regex"));
}

#[test]
fn export_writes_the_shared_format() {
    let mut w = world();
    w.open_mock("p", &["hello"]);
    let resp = w
        .run(RequestPayload::Export {
            port: "p".into(),
            output_path: "/tmp/out.csv".into(),
            file_format: Some(ExportFormat::Csv),
            start_line: None,
            end_line: None,
        })
        .unwrap();
    assert!(matches!(resp, ResponsePayload::ExportSuccess { lines_exported: 1, .. }));
    let content = String::from_utf8(w.files["/tmp/out.csv"].clone()).unwrap();
    assert!(content.starts_with("id,timestamp,timestamp_ns,payload\n"));
    assert!(content.contains("\"hello\""));
}

#[test]
fn export_rejects_parent_traversal() {
    let mut w = world();
    w.open_mock("p", &[]);
    let err = w
        .run(RequestPayload::Export {
            port: "p".into(),
            output_path: "../escape.txt".into(),
            file_format: None,
            start_line: None,
            end_line: None,
        })
        .unwrap_err();
    assert!(err.to_string().contains(".."));
}

#[test]
fn clear_archives_into_the_configured_directory() {
    let mut w = world();
    w.open_mock("p", &["one"]);
    match w
        .run(RequestPayload::Clear { port: "p".into(), archive_current: Some(true) })
        .unwrap()
    {
        ResponsePayload::ClearSuccess { lines_cleared, archive_path } => {
            assert_eq!(lines_cleared, 1);
            let archive = archive_path.expect("archive path");
            assert!(
                archive.starts_with("/data/archive"),
                "archive {archive} must sit in the configured archive dir"
            );
            assert!(w.files.contains_key(&archive));
        }
        _ => panic!("expected ClearSuccess"),
    }
}

#[test]
fn unknown_macro_lists_available_ones() {
    let mut w = world();
    w.open_mock("p", &[]);
    let err = w
        .run(RequestPayload::ExecuteMacro { port: "p".into(), macro_name: "nope".into() })
        .unwrap_err();
    let text = err.to_string();
    assert!(text.contains("reset"));
    assert!(text.contains("enter_bootloader"));
}

#[test]
fn invalid_baud_is_rejected() {
    let mut w = world();
    let err = w
        .run(RequestPayload::OpenPort {
            name: "/dev/definitely-not-a-port".into(),
            settings: PortSettings { baudrate: Some(0), ..PortSettings::default() },
        })
        .unwrap_err();
    assert!(err.to_string().contains("baud"));
}

#[test]
fn open_port_uses_configured_defaults_for_known_ports() {
    let mut config = Config::default(&nothing_set());
    config.ports.insert(
        "/dev/configured".into(),
        PortConfig { baudrate: 9600, parity: Parity::Even, ..PortConfig::default() },
    );
    let w = world_with(config);

    let merged =
        w.engine.merge_settings("/dev/configured", PortSettings::default()).unwrap();
    assert_eq!(merged.baudrate, 9600);
    assert_eq!(merged.parity, Parity::Even);

    let overridden = w
        .engine
        .merge_settings(
            "/dev/configured",
            PortSettings { baudrate: Some(19200), ..PortSettings::default() },
        )
        .unwrap();
    assert_eq!(overridden.baudrate, 19200);
    assert_eq!(overridden.parity, Parity::Even);
}

#[test]
fn resolve_start_handles_every_window_shape() {
    let w = |f: fn(&mut ReadWindow)| {
        let mut w = ReadWindow::default();
        f(&mut w);
        w
    };
    assert_eq!(resolve_start(&ReadWindow::default(), 10), 1);
    assert_eq!(resolve_start(&w(|w| w.tail = Some(3)), 10), 8);
    assert_eq!(resolve_start(&w(|w| w.tail = Some(30)), 10), 1);
    assert_eq!(resolve_start(&w(|w| w.after_id = Some(5)), 10), 6);
    assert_eq!(resolve_start(&w(|w| w.start_id = Some(-2)), 10), 9);
    assert_eq!(resolve_start(&w(|w| w.start_id = Some(0)), 10), 1);
    assert_eq!(resolve_start(&w(|w| w.start_id = Some(7)), 10), 7);
}

#[test]
fn time_range_fills_open_ends() {
    assert!(time_range(None, None).is_none());
    let tr = time_range(Some(5), None).unwrap();
    assert_eq!((tr.start_ns, tr.end_ns), (5, i64::MAX));
    let tr = time_range(None, Some(5)).unwrap();
    assert_eq!((tr.start_ns, tr.end_ns), (0, 5));
}

#[test]
fn a_search_stops_with_its_limit_or_its_budget() {
    let stored = |id| StoredLine { id, timestamp_ns: 1, payload: "x".to_string() };
    let plan = plan_search("x", SearchMode::Exact, None, None, Some(2)).unwrap();
    match Scan::new().take(&plan, vec![stored(1), stored(2), stored(3)]).1 {
        ScanStep::Done(o) => {
            assert_eq!(o.results.len(), 2);
            assert!(!o.truncated);
        }
        ScanStep::More { .. } => panic!("there is enough"),
    }
    let spent = Scan { results: Vec::new(), scanned: 4_999_999 };
    match spent.take(&plan, vec![stored(1), stored(2), stored(3)]).1 {
        ScanStep::Done(o) => {
            assert_eq!(o.results.len(), 1);
            assert!(o.truncated);
        }
        ScanStep::More { .. } => panic!("the budget is used up"),
    }
    let end = Scan { results: Vec::new(), scanned: 5_000_000 };
    match end.take(&plan, Vec::new()).1 {
        ScanStep::Done(o) => assert!(!o.truncated),
        ScanStep::More { .. } => panic!("there is nothing left"),
    }
}

#[test]
fn opening_an_open_port_reconfigures_it() {
    let mut w = world();
    let open = |baud| RequestPayload::OpenPort {
        name: "/dev/ttyUSB0".into(),
        settings: PortSettings { baudrate: Some(baud), ..PortSettings::default() },
    };
    assert!(matches!(
        w.run(open(9600)).unwrap(),
        ResponsePayload::PortOpened { config_summary, .. } if config_summary == "9600 8N1"
    ));
    assert_eq!(w.remembered, ["/dev/ttyUSB0"]);
    assert!(matches!(
        w.run(open(19200)).unwrap(),
        ResponsePayload::PortReconfigured { config_summary, .. } if config_summary == "19200 8N1"
    ));
    w.run(RequestPayload::ClosePort { name: "/dev/ttyUSB0".into() }).unwrap();
    assert!(w.remembered.is_empty());
}

#[test]
fn waiting_for_data_ends_with_the_time() {
    let mut w = world();
    w.open_mock("p", &["a"]);
    let page = w.page(
        "p",
        ReadWindow { after_id: Some(1), wait_ms: Some(120), ..ReadWindow::default() },
    );
    assert!(page.lines.is_empty());
    assert_eq!(page.next_after_id, 1);
    assert!(w.clock_ms >= 120);
}

#[test]
fn a_released_port_is_reopened_after_flashing() {
    let mut w = world();
    w.open_device("/dev/ttyUSB0");
    let flash = RequestPayload::EspFlash {
        port: "/dev/ttyUSB0".into(),
        firmware_path: "fw.bin".into(),
        baud: None,
    };
    assert!(w.run(flash.clone()).is_err());
    w.tool = Some(Ok("flashed".to_string()));
    assert_eq!(
        w.run(flash.clone()).unwrap(),
        ResponsePayload::EspSuccess("flashed".to_string())
    );
    assert_eq!(w.ports.len(), 1);
    w.tool = Some(Err("boom".to_string()));
    assert!(w.run(flash).unwrap_err().to_string().contains("boom"));
    assert_eq!(w.ports.len(), 1);
}

#[test]
fn a_macro_runs_its_steps_in_order() {
    let mut w = world();
    w.open_device("d");
    match w
        .run(RequestPayload::ExecuteMacro { port: "d".into(), macro_name: "reset".into() })
        .unwrap()
    {
        ResponsePayload::MacroSuccess { executed_steps } => assert_eq!(executed_steps.len(), 3),
        _ => panic!("expected MacroSuccess"),
    }
    assert_eq!(w.device_log.len(), 2);
    assert!(w.clock_ms > 0);
}

#[test]
fn a_break_is_held_and_let_go() {
    let mut w = world();
    w.open_device("d");
    let response = w
        .run(RequestPayload::SendBreak { port: "d".into(), duration_ms: None })
        .unwrap();
    assert_eq!(response, ResponsePayload::BreakSuccess { duration_ms: 250 });
    assert!(matches!(w.device_log[0], DeviceAction::SetBreak(true)));
    assert!(matches!(w.device_log[w.device_log.len() - 1], DeviceAction::SetBreak(false)));
}

#[test]
fn files_go_over_the_line() {
    let mut w = world();
    w.open_device("d");
    let send = RequestPayload::SendFile {
        port: "d".into(),
        file_path: "/tmp/fw.bin".into(),
        protocol: FileTransferProtocol::Zmodem,
    };
    assert!(w.run(send.clone()).unwrap_err().to_string().contains("/tmp/fw.bin"));
    w.files.insert("/tmp/fw.bin".to_string(), vec![0; 9]);
    assert!(matches!(
        w.run(send).unwrap(),
        ResponsePayload::TransferSuccess { bytes_transferred: 9, file_name, .. } if file_name == "fw.bin"
    ));
    let receive = RequestPayload::ReceiveFile {
        port: "d".into(),
        output_dir: "/in".into(),
        protocol: FileTransferProtocol::Ymodem,
    };
    assert!(matches!(
        w.run(receive).unwrap(),
        ResponsePayload::TransferSuccess { path: Some(p), .. } if p == "/in/got.bin"
    ));
    assert_eq!(w.files["/in/got.bin"], vec![1, 2, 3]);
}

#[test]
fn bytes_are_written_as_text_or_hex() {
    let mut w = world();
    w.open_device("d");
    let write = |data: &str, is_hex| RequestPayload::WriteData {
        port: "d".into(),
        data: data.to_string(),
        is_hex,
    };
    assert_eq!(
        w.run(write("AT", false)).unwrap(),
        ResponsePayload::WriteSuccess { bytes_written: 2 }
    );
    w.run(write("0x0D0A", false)).unwrap();
    w.run(write("41", true)).unwrap();
    assert_eq!(
        w.device_log,
        vec![
            DeviceAction::WriteAll(b"AT".to_vec()),
            DeviceAction::WriteAll(vec![0x0D, 0x0A]),
            DeviceAction::WriteAll(b"A".to_vec()),
        ]
    );
    assert!(matches!(w.run(write("4", true)), Err(EngineError::Hex(_))));
}

#[test]
fn the_listener_is_switched_through_the_engine() {
    let mut w = world();
    assert!(matches!(
        w.run(RequestPayload::RestEnable { bind: None, port: None, token: None }).unwrap(),
        ResponsePayload::RestState(s) if s.listening
    ));
    assert!(matches!(
        w.run(RequestPayload::RestDisable).unwrap(),
        ResponsePayload::RestState(s) if !s.listening
    ));
    assert_eq!(search_limit(None), 100);
    assert_eq!(search_limit(Some(5000)), 1000);
}

#[test]
fn hardware_is_listed_once_per_device() {
    let mut w = world();
    assert_eq!(
        w.run(RequestPayload::ListHardware).unwrap(),
        ResponsePayload::HardwarePorts(vec!["/dev/ttyUSB0".to_string()])
    );
    assert_eq!(w.run(RequestPayload::Shutdown).unwrap(), ResponsePayload::ShutdownAck);
}

// ------------------------------------------------------------------ the tools

fn server_world() -> World {
    let mut w = world();
    w.open_mock("/dev/mock", &["[INFO] boot", "[ERROR] failure", "[INFO] done"]);
    w
}

fn read_params(port: &str) -> ReadBufferParams {
    ReadBufferParams {
        port_name: port.to_string(),
        start_line: None,
        after_line: None,
        max_lines: None,
        include_timestamps: None,
        wait_ms: None,
        since_time: None,
    }
}

fn serial_read(w: &mut World, params: ReadBufferParams) -> Result<String, ToolError> {
    let payload = params.request()?;
    let response = w.tool_call(payload)?;
    read_answer(params.include_timestamps, response)
}

fn serial_search(w: &mut World, params: SearchBufferParams) -> Result<String, ToolError> {
    let payload = params.request()?;
    found(w.tool_call(payload)?)
}

fn message(e: &ToolError) -> &str {
    match e {
        ToolError::InvalidParams(m) | ToolError::Internal(m) => m,
    }
}

fn search_params(query: &str, query_type: Option<SearchMode>) -> SearchBufferParams {
    SearchBufferParams {
        port_name: "/dev/mock".into(),
        query: query.into(),
        query_type,
        start_time: None,
        end_time: None,
        max_results: None,
    }
}

#[test]
fn read_returns_header_and_lines() {
    let mut w = server_world();
    let out = serial_read(&mut w, read_params("/dev/mock")).unwrap();
    assert!(out.starts_with("[lines 1-3 of 3 total]"));
    assert!(out.contains("[ERROR] failure"));
}

#[test]
fn read_with_timestamps() {
    let mut w = server_world();
    let out = serial_read(
        &mut w,
        ReadBufferParams { include_timestamps: Some(true), ..read_params("/dev/mock") },
    )
    .unwrap();
    assert!(out.contains(':'), "expected a clock time in the output");
}

#[test]
fn read_after_line_reports_no_new_lines() {
    let mut w = server_world();
    let out = serial_read(
        &mut w,
        ReadBufferParams { after_line: Some(3), ..read_params("/dev/mock") },
    )
    .unwrap();
    assert!(out.contains("no new lines"));
    assert_eq!(out, "[no new lines after 3, 3 total]");
}

#[test]
fn unknown_port_is_an_error() {
    let mut w = server_world();
    let err = serial_read(&mut w, read_params("/dev/absent")).unwrap_err();
    assert!(message(&err).contains("not found"));
    assert!(matches!(err, ToolError::Internal(_)));
}

#[test]
fn status_is_json() {
    let mut w = server_world();
    let request = PortParams { port_name: "/dev/mock".into() }.status_request();
    let response = w.tool_call(request).unwrap();
    let out = status_answer(response).unwrap();
    let json: serde_json::Value = serde_json::from_str(&out).unwrap();
    assert_eq!(json["total_lines"], 3);
    assert_eq!(json["state"], "Connected");
    assert_eq!(json["last_activity"], "2026-01-01T00:00:01.000000000Z");
}

#[test]
fn search_modes_behave_differently() {
    let mut w = server_world();
    let substring = serial_search(&mut w, search_params("[INFO] boot", None)).unwrap();
    assert!(substring.contains("[INFO] boot"));
    let regex =
        serial_search(&mut w, search_params(r"^\[ERROR\]", Some(SearchMode::Regex))).unwrap();
    assert!(regex.contains("failure"));
    assert!(!regex.contains("boot"));
    let none = serial_search(&mut w, search_params("nothing", None)).unwrap();
    assert_eq!(none, "(no matches)\n");
}

#[test]
fn invalid_regex_is_invalid_params() {
    let mut w = server_world();
    let err = serial_search(&mut w, search_params("[", Some(SearchMode::Regex))).unwrap_err();
    assert!(message(&err).contains("regex"));
    assert!(matches!(err, ToolError::InvalidParams(_)));
}

#[test]
fn a_time_that_is_none_is_invalid_params() {
    let mut params = search_params("x", None);
    params.end_time = Some("yesterday".into());
    let err = params.request().unwrap_err();
    assert!(message(&err).starts_with("invalid time 'yesterday': "));
}

#[test]
fn export_uses_the_shared_format() {
    let mut w = server_world();
    let request = ExportBufferParams {
        port_name: "/dev/mock".into(),
        file_format: Some(ExportFormat::Csv),
        start_line: None,
        end_line: None,
        output_path: "/tmp/export.csv".into(),
    }
    .request();
    let out = export_answer(w.tool_call(request).unwrap()).unwrap();
    assert!(out.contains("Exported 3 lines"));
    let content = String::from_utf8(w.files["/tmp/export.csv"].clone()).unwrap();
    assert!(content.starts_with("id,timestamp,timestamp_ns,payload\n"));
}

#[test]
fn export_rejects_traversal() {
    let mut w = server_world();
    let request = ExportBufferParams {
        port_name: "/dev/mock".into(),
        file_format: None,
        start_line: None,
        end_line: None,
        output_path: "../evil.txt".into(),
    }
    .request();
    let err = w.tool_call(request).unwrap_err();
    assert!(message(&err).contains(".."));
}

fn configure() -> ConfigurePortParams {
    ConfigurePortParams {
        port_name: "/dev/mock".into(),
        baudrate: None,
        data_bits: None,
        parity: None,
        stop_bits: None,
        flow_control: None,
    }
}

#[test]
fn invalid_baud_is_invalid_params() {
    let mut w = server_world();
    let request = ConfigurePortParams { baudrate: Some(0), ..configure() }.request().unwrap();
    let err = w.tool_call(request).unwrap_err();
    assert!(message(&err).contains("baud"));
    assert!(matches!(err, ToolError::InvalidParams(_)));
}

#[test]
fn invalid_data_bits_are_rejected_before_reaching_hardware() {
    let err = ConfigurePortParams { data_bits: Some(9), ..configure() }.request().unwrap_err();
    assert!(message(&err).contains("data bits"));
    let err = ConfigurePortParams { stop_bits: Some(3), ..configure() }.request().unwrap_err();
    assert!(message(&err).contains("stop bits"));
}

#[test]
fn signal_needs_at_least_one_line() {
    let mut w = server_world();
    let request =
        SetControlLinesParams { port_name: "/dev/mock".into(), dtr: None, rts: None }.request();
    let err = w.tool_call(request).unwrap_err();
    assert!(message(&err).contains("dtr"));
}

#[test]
fn clear_reports_removed_lines() {
    let mut w = server_world();
    let request =
        ClearBufferParams { port_name: "/dev/mock".into(), archive_current: None }.request();
    let out = clear_answer(w.tool_call(request).unwrap()).unwrap();
    assert!(out.contains("3 lines removed"));
}

#[test]
fn list_shows_managed_ports() {
    let mut w = server_world();
    let hardware = w.tool_call(RequestPayload::ListHardware).unwrap();
    let managed = w.tool_call(RequestPayload::ListPorts).unwrap();
    let out = list_answer(hardware, managed).unwrap();
    assert_eq!(
        out,
        "System ports:\n  /dev/ttyUSB0\n\nManaged connections:\n  /dev/mock — Connected (3 lines)\n"
    );
}

#[test]
fn mock_ports_have_no_hardware_handle() {
    let mut w = server_world();
    let request =
        SerialBreakParams { port_name: "/dev/mock".into(), duration_ms: Some(10) }.request();
    let err = w.tool_call(request).unwrap_err();
    assert!(message(&err).contains("no hardware handle"));
}

#[test]
fn macro_on_unknown_name_lists_alternatives() {
    let mut w = server_world();
    let request =
        TriggerMacroParams { port_name: "/dev/mock".into(), macro_name: "nope".into() }.request();
    let err = w.tool_call(request).unwrap_err();
    assert!(message(&err).contains("reset"));
}

#[test]
fn tools_word_their_answers() {
    assert_eq!(
        write_answer("p", ResponsePayload::WriteSuccess { bytes_written: 4 }).unwrap(),
        "Wrote 4 bytes to p"
    );
    assert_eq!(
        signal_answer(
            "p",
            ResponsePayload::SignalSuccess {
                applied: vec!["DTR=HIGH".to_string(), "RTS=LOW".to_string()]
            }
        )
        .unwrap(),
        "Set DTR=HIGH, RTS=LOW on p"
    );
    assert_eq!(
        break_answer("p", ResponsePayload::BreakSuccess { duration_ms: 250 }).unwrap(),
        "Sent serial BREAK pulse (250ms) on p"
    );
    assert_eq!(
        macro_answer(
            "p",
            "m",
            ResponsePayload::MacroSuccess {
                executed_steps: vec!["a".to_string(), "b".to_string()]
            }
        )
        .unwrap(),
        "Executed 'm' on p (2 steps: a → b)"
    );
    let moved = |path: Option<&str>| ResponsePayload::TransferSuccess {
        bytes_transferred: 3,
        file_name: "f".to_string(),
        protocol: FileTransferProtocol::Xmodem1k,
        path: path.map(str::to_string),
    };
    assert_eq!(
        send_file_answer("p", moved(None)).unwrap(),
        "Sent 3 bytes ('f') to p via Xmodem1k"
    );
    assert_eq!(
        receive_file_answer("p", moved(Some("/d/f"))).unwrap(),
        "Received 3 bytes from p, saved to '/d/f'"
    );
    assert!(write_answer("p", ResponsePayload::Pong).is_err());
    assert!(matches!(
        (SerialReceiveFileParams { port_name: "p".into(), output_dir: None, protocol: None })
            .request(),
        RequestPayload::ReceiveFile { output_dir, protocol: FileTransferProtocol::Zmodem, .. }
            if output_dir == "."
    ));
    let page = LinesPage { lines: Vec::new(), total_lines: 0, next_after_id: 0 };
    assert_eq!(render_lines(&page, true), "[no new lines after 0, 0 total]");
}

#[test]
fn a_status_resource_names_its_port() {
    let mut w = server_world();
    let listed = list_resources(w.tool_call(RequestPayload::ListPorts).unwrap()).unwrap();
    assert_eq!(listed.len(), 1);
    assert_eq!(listed[0].uri, "serial:///dev/mock/status");
    assert_eq!(resource_port(&listed[0].uri).unwrap(), "/dev/mock");
    assert!(resource_port("serial://status").is_err());
    assert!(resource_port("http:///dev/mock/status").is_err());
    let text = read_resource(
        w.tool_call(RequestPayload::GetStatus { port: "/dev/mock".into() }).unwrap(),
    )
    .unwrap();
    let json: serde_json::Value = serde_json::from_str(&text).unwrap();
    assert_eq!(json["port"], "/dev/mock");
}

#[test]
fn a_port_has_one_monitor_window() {
    let mut w = server_world();
    let status = w.run(RequestPayload::GetStatus { port: "/dev/mock".into() }).unwrap();
    let mut config = Config::default(&nothing_set());
    config.global.data_dir = "/data".to_string();
    let mut server = DevSerialServer::new(CommandEngine::new(config, DeviceNodes::Single));
    let start = server.monitor_open("/dev/mock", status.clone()).unwrap();
    assert_eq!(start.db_path, "/data/_dev_mock.db");
    assert_eq!(start.info, "Connected");
    assert!(server.monitor_opened("/dev/mock", Err("no display".to_string())).is_err());
    assert!(!server.monitor_is_open("/dev/mock"));
    server.monitor_opened("/dev/mock", Ok(())).unwrap();
    assert!(server.monitor_is_open("/dev/mock"));
    assert!(matches!(
        server.monitor_open("/dev/mock", status),
        Err(ToolError::InvalidParams(_))
    ));
    server.monitor_close("/dev/mock").unwrap();
    assert!(server.monitor_close("/dev/mock").is_err());
    assert_eq!(server.engine().data_dir(), "/data");
    assert_eq!(notify(3, Some(4)), (true, 4));
    assert_eq!(notify(4, Some(4)), (false, 4));
    assert_eq!(notify(4, None), (false, 4));
}

#[test]
fn monitor_events_map_onto_operations() {
    let payload = monitor_event_payload("/dev/x", MonitorEvent::Macro { name: "reset".into() });
    assert!(matches!(
        payload,
        RequestPayload::ExecuteMacro { ref macro_name, .. } if macro_name == "reset"
    ));

    let payload = monitor_event_payload("/dev/x", MonitorEvent::Write { hex: "41".into() });
    assert!(matches!(payload, RequestPayload::WriteData { is_hex: true, .. }));
}

// ------------------------------------------------------------------ the routes

fn lines_query() -> LinesQuery {
    LinesQuery { start: None, after: None, tail: None, since: None, limit: None, wait_ms: None }
}

fn route_lines(w: &mut World, query: LinesQuery) -> serde_json::Value {
    let window = query.window().unwrap();
    let response =
        w.run(RequestPayload::ReadLines { port: "/dev/mock".into(), window }).unwrap();
    serde_json::from_str(&lines_answer(response).unwrap()).unwrap()
}

#[test]
fn the_reading_routes_answer() {
    let mut w = server_world();
    let body = route_lines(&mut w, lines_query());
    assert_eq!(body["total_lines"], 3);
    assert_eq!(body["lines"].as_array().map(Vec::len), Some(3));

    let query = SearchQuery {
        q: "failure".into(),
        mode: None,
        from: None,
        to: None,
        limit: None,
    };
    let payload = query.payload("/dev/mock".into()).unwrap();
    let found: serde_json::Value =
        serde_json::from_str(&search_answer(w.run(payload).unwrap()).unwrap()).unwrap();
    assert_eq!(found["results"].as_array().map(Vec::len), Some(1));

    // A port that is not managed is a refusal, not an empty answer.
    let refused = w.run(RequestPayload::GetStats { port: "nope".into() }).unwrap_err();
    let problem = operation_failed(&refused);
    assert_eq!(problem.status, Status::BadRequest);
    let body: serde_json::Value = serde_json::from_str(&problem.to_json()).unwrap();
    assert!(body["type"].as_str().unwrap().contains("operation-failed"));
    assert_eq!(body["status"], 400);
}

#[test]
fn a_line_on_the_wire_is_the_line_in_the_export() {
    let mut w = server_world();
    let wire = route_lines(&mut w, lines_query())["lines"].clone();
    let exported =
        devserial::export::to_string(&w.captures["/dev/mock"], ExportFormat::Jsonl).unwrap();
    let from_file: Vec<serde_json::Value> =
        exported.lines().map(|line| serde_json::from_str(line).unwrap()).collect();
    assert_eq!(wire, serde_json::Value::Array(from_file));
}

#[test]
fn every_read_window_field_is_reachable() {
    let mut w = server_world();
    let count = |v: &serde_json::Value| v["lines"].as_array().map(Vec::len);

    let tail = route_lines(&mut w, LinesQuery { tail: Some(2), ..lines_query() });
    assert_eq!(count(&tail), Some(2));
    let after = route_lines(&mut w, LinesQuery { after: Some(1), ..lines_query() });
    assert_eq!(count(&after), Some(2));
    let start =
        route_lines(&mut w, LinesQuery { start: Some(2), limit: Some(1), ..lines_query() });
    assert_eq!(count(&start), Some(1));
    assert_eq!(start["lines"][0]["id"], 2);
    let since = route_lines(
        &mut w,
        LinesQuery { since: Some("2026-01-01T00:00:00.700Z".into()), ..lines_query() },
    );
    assert_eq!(count(&since), Some(1));
    let waited =
        route_lines(&mut w, LinesQuery { after: Some(3), wait_ms: Some(1), ..lines_query() });
    assert_eq!(count(&waited), Some(0));

    // A time that is not a time is refused, and says which value.
    let bad = LinesQuery { since: Some("yesterday".into()), ..lines_query() }.window();
    assert!(bad.unwrap_err().detail.contains("yesterday"));
}

#[test]
fn closing_a_port_over_http_closes_it_on_the_daemon() {
    let mut w = server_world();
    w.run(RequestPayload::ClosePort { name: "/dev/mock".into() }).unwrap();
    assert!(w.ports.is_empty(), "the daemon still holds the port the route said it closed");
}

#[test]
fn a_transfer_reaches_the_engine_in_both_directions() {
    let mut w = server_world();
    let sending = TransferBody::Send {
        path: "/tmp/does-not-matter.bin".into(),
        protocol: FileTransferProtocol::Zmodem,
    }
    .payload("nope".into());
    assert!(w.run(sending).unwrap_err().to_string().contains("does-not-matter.bin"));
    let receiving = TransferBody::Receive {
        directory: "/tmp".into(),
        protocol: FileTransferProtocol::Ymodem,
    }
    .payload("nope".into());
    assert!(w.run(receiving).unwrap_err().to_string().contains("nope"));
}

#[test]
fn opening_over_http_twice_is_no_failure() {
    let mut w = world();
    let open = || RequestPayload::OpenPort {
        name: "/dev/ttyUSB0".into(),
        settings: PortSettings::default(),
    };
    let first = open_answer(w.run(open()).unwrap()).unwrap();
    let second = open_answer(w.run(open()).unwrap()).unwrap();
    assert_eq!(first, "{\"port\":\"/dev/ttyUSB0\",\"settings\":\"115200 8N1\"}");
    assert_eq!(first, second);
}

#[test]
fn the_stream_carries_line_ids_and_resumes_from_them() {
    let mut w = server_world();
    let read = |w: &mut World, at: LineStream| {
        let outcome = w.run(at.request("/dev/mock"));
        match at.answered(outcome) {
            StreamStep::Send(events, next) => (events, next),
            StreamStep::End => panic!("the port is there"),
        }
    };
    let (first, next) = read(&mut w, LineStream::new(ReadWindow::default(), None));
    assert_eq!(first.len(), 3);
    assert_eq!(first[0].id.as_deref(), Some("1"));
    assert_eq!(first[2].id.as_deref(), Some("3"));
    assert!(first[1].data.contains("[ERROR] failure"));
    assert_eq!(next.after, 3);

    // Resuming from the second line gives the third, and not the two before it.
    let (resumed, _) = read(&mut w, LineStream::new(ReadWindow::default(), Some("2")));
    assert_eq!(resumed.len(), 1);
    assert_eq!(resumed[0].id.as_deref(), Some("3"));

    // What the caller says wins over what it saw.
    let at = LineStream::new(ReadWindow { after_id: Some(1), ..ReadWindow::default() }, Some("2"));
    assert_eq!(at.after, 1);

    let gone = at.answered(Err(EngineError::Tool("gone".to_string())));
    assert!(matches!(gone, StreamStep::End));
}
