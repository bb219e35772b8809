use devserial::config::PortConfig;
use devserial::ipc::IpcError;
use devserial::modem::FileTransferProtocol;
use devserial::paths::Environment;
use devserial::platform::Platform;
use devserial::protocol::{RequestPayload, ResponsePayload, RestState};
use devserial::reader::ConnectionState;
use devserial::serial_params::Parity;
use devserial::standalone::{
    attach_session, config_settings, daemon_reached, link_state, resolve_data_dir, rest_answer,
    toggle_payload, transfer_answer, transfer_payload, write_payload, written, AttachStep,
    PortAction, RestRequest,
};
use devserial::storage::BufferStats;

#[test]
fn settings_round_trip_through_the_protocol() {
    let config = PortConfig { baudrate: 9600, parity: Parity::Even, ..PortConfig::default() };
    let settings = config_settings(&config);
    assert_eq!(settings.baudrate, Some(9600));
    assert_eq!(settings.parity, Some(Parity::Even));
}

#[test]
fn data_dir_follows_the_configuration() {
    let env = Environment::empty(Platform::Linux);
    assert_eq!(resolve_data_dir(Some("/x/captures".to_string()), &env), "/x/captures");
    assert_eq!(resolve_data_dir(None, &env), "./data");
}

#[test]
fn every_action_maps_to_the_request_that_performs_it() {
    // A surface control that produced no request, or the wrong one, would
    // look like it worked and change nothing on the device.
    let port = "/dev/ttyUSB0";

    assert!(matches!(
        PortAction::Break { duration_ms: Some(7) }.payload(port),
        RequestPayload::SendBreak { duration_ms: Some(7), .. }
    ));
    assert!(matches!(
        PortAction::Signal { dtr: Some(true), rts: None }.payload(port),
        RequestPayload::SetSignal { dtr: Some(true), rts: None, .. }
    ));
    assert!(matches!(
        PortAction::Macro { name: "reset".to_string() }.payload(port),
        RequestPayload::ExecuteMacro { .. }
    ));

    for action in [
        PortAction::Break { duration_ms: None },
        PortAction::Signal { dtr: None, rts: Some(false) },
        PortAction::Macro { name: "enter_bootloader".to_string() },
    ] {
        let named = match action.payload(port) {
            RequestPayload::SendBreak { port, .. }
            | RequestPayload::SetSignal { port, .. }
            | RequestPayload::ExecuteMacro { port, .. } => port,
            other => panic!("{action:?} produced {other:?}"),
        };
        assert_eq!(named, port, "the request names another port");
    }
}

fn status() -> ResponsePayload {
    ResponsePayload::Status {
        name: "p".to_string(),
        state: ConnectionState::Connected,
        stats: BufferStats {
            total_lines: 0,
            total_bytes: 0,
            db_size_bytes: 0,
            last_timestamp_ns: None,
        },
    }
}

fn not_found() -> IpcError {
    IpcError::Remote("port 'p' not found".to_string())
}

#[test]
fn attaching_opens_only_what_is_not_held() {
    let settings = config_settings(&PortConfig::default());
    let at = match daemon_reached("p".to_string(), settings, Ok(())) {
        AttachStep::Ask(RequestPayload::GetStatus { port }, at) => {
            assert_eq!(port, "p");
            at
        }
        _ => panic!("the state is asked for first"),
    };
    assert_eq!(
        attach_session(at, Ok(status())),
        AttachStep::Attached(ConnectionState::Connected)
    );

    let at = match daemon_reached("p".to_string(), settings, Ok(())) {
        AttachStep::Ask(_, at) => at,
        _ => panic!("the state is asked for first"),
    };
    let at = match attach_session(at, Err(not_found())) {
        AttachStep::Ask(RequestPayload::OpenPort { name, settings: s }, at) => {
            assert_eq!((name.as_str(), s), ("p", settings));
            at
        }
        _ => panic!("a port that is not held is opened"),
    };
    let opened = ResponsePayload::PortOpened {
        name: "p".to_string(),
        config_summary: "115200 8N1".to_string(),
    };
    let at = match attach_session(at, Ok(opened)) {
        AttachStep::Ask(RequestPayload::GetStatus { .. }, at) => at,
        _ => panic!("the state is read back"),
    };
    assert!(matches!(attach_session(at, Ok(status())), AttachStep::Attached(_)));
}

#[test]
fn an_unreachable_daemon_ends_the_attempt() {
    let settings = config_settings(&PortConfig::default());
    match daemon_reached("p".to_string(), settings, Err(IpcError::Timeout(1000))) {
        AttachStep::Failed(m) => assert!(m.starts_with("could not reach the daemon: ")),
        _ => panic!("there is nobody to ask"),
    }
}

#[test]
fn bytes_are_forwarded_as_they_are() {
    assert!(matches!(
        write_payload("p", b"AT\r\n"),
        RequestPayload::WriteData { data, is_hex: false, .. } if data == "AT\r\n"
    ));
    assert!(matches!(
        write_payload("p", &[0xff, 0x00]),
        RequestPayload::WriteData { data, is_hex: true, .. } if data == "FF00"
    ));
    let ok = ResponsePayload::WriteSuccess { bytes_written: 2 };
    assert_eq!(written(Ok(ok), 2).unwrap(), 2);
    assert!(written(Ok(ResponsePayload::Pong), 2).is_err());
    assert!(written(Err(not_found()), 2).is_err());
}

#[test]
fn requests_of_a_surface() {
    let config = PortConfig::default();
    assert!(matches!(toggle_payload("p", true, &config), RequestPayload::OpenPort { .. }));
    assert!(matches!(toggle_payload("p", false, &config), RequestPayload::ClosePort { .. }));
    assert!(matches!(
        transfer_payload("p", true, "/f", FileTransferProtocol::Zmodem),
        RequestPayload::SendFile { .. }
    ));
    let done = ResponsePayload::TransferSuccess {
        bytes_transferred: 5,
        file_name: "f".to_string(),
        protocol: FileTransferProtocol::Zmodem,
        path: Some("/d/f".to_string()),
    };
    assert_eq!(transfer_answer(done).unwrap(), "5 bytes, /d/f");
    assert!(matches!(RestRequest::Status.payload(), RequestPayload::RestStatus));
    let state = RestState {
        listening: false,
        bind: "127.0.0.1".to_string(),
        port: 9600,
        reason: None,
        token_required: false,
    };
    assert_eq!(rest_answer(ResponsePayload::RestState(state.clone())).unwrap(), state);
    assert!(rest_answer(ResponsePayload::Pong).is_err());
}

#[test]
fn the_link_state_follows_the_daemon() {
    let (state, _) = link_state(ConnectionState::Reconnecting, &Ok(status()));
    assert_eq!(state, ConnectionState::Connected);
}
