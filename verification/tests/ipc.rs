use devserial::engine::EngineError;
use devserial::ipc::{
    answer, binary_missing, default_gui_socket_path, default_pid_path, describe_span, frame_text,
    is_alive, keep_waiting, reply, serve, spawn_failed, start_timeout, FrameReader, FrameStep,
    IpcClient, IpcError, ServeStep,
};
use devserial::paths::Environment;
use devserial::platform::Platform;
use devserial::port_manager::PortManagerError;
use devserial::protocol::{RequestPayload, ResponsePayload, RpcRequest, RpcResponse};

/// Read every frame of a text that arrives in one chunk.
fn frames(text: &[u8], max: usize) -> Result<Vec<Vec<u8>>, String> {
    let mut reader = FrameReader::new();
    let mut rest = text;
    let mut all = Vec::new();
    loop {
        match reader.feed(rest, max) {
            FrameStep::More => break,
            FrameStep::Frame { frame, consumed } => {
                all.push(frame);
                rest = &rest[consumed..];
            }
            FrameStep::TooLong(reason) => return Err(reason),
        }
    }
    all.extend(reader.end());
    Ok(all)
}

#[test]
fn oversized_frames_are_refused() {
    assert!(frames(b"aaaaaaaaaaaaaaaa", 4).is_err());
}

#[test]
fn an_oversized_frame_is_refused_with_its_newline_in_the_chunk() {
    let refused = frames(b"aaaaaaaa\n", 4).expect_err("eight bytes are more than four");
    assert_eq!(refused, "frame exceeds 4 bytes");
    assert_eq!(frames(b"aaaa\nbb\n", 4).unwrap(), vec![b"aaaa".to_vec(), b"bb".to_vec()]);
    assert!(frames(b"bb\naaaaa\n", 4).is_err());
}

#[test]
fn an_oversized_frame_is_not_kept() {
    let mut reader = FrameReader::new();
    assert_eq!(reader.feed(b"aaa", 4), FrameStep::More);
    assert!(matches!(reader.feed(b"aa\n", 4), FrameStep::TooLong(_)));
    assert_eq!(reader.end(), None);
    assert_eq!(reader.feed(b"aaaa", 4), FrameStep::More);
    assert_eq!(reader.end(), Some(b"aaaa".to_vec()));
}

#[test]
fn frames_split_on_newlines() {
    assert_eq!(frames(b"one\ntwo\n", 1024).unwrap(), vec![b"one".to_vec(), b"two".to_vec()]);
}

#[test]
fn a_trailing_frame_without_newline_is_still_returned() {
    assert_eq!(frames(b"tail", 1024).unwrap(), vec![b"tail".to_vec()]);
}

#[test]
fn a_frame_may_arrive_byte_by_byte() {
    let mut reader = FrameReader::new();
    for b in b"one" {
        assert!(matches!(reader.feed(&[*b], 10), FrameStep::More));
    }
    assert!(matches!(
        reader.feed(b"\nx", 10),
        FrameStep::Frame { frame, consumed: 1 } if frame == b"one"
    ));
}

#[test]
fn a_frame_is_read_as_text() {
    assert_eq!(frame_text(b"  {} ").as_deref(), Some("{}"));
    assert_eq!(frame_text(b"   "), None);
}

#[test]
fn test_ipc_ping_pong() {
    let mut client = IpcClient::new("/tmp/x.sock".to_string());
    let request = client.request(RequestPayload::Ping);
    let id = request.id;
    match serve(Ok(request)) {
        ServeStep::Execute { id: i, payload, stop } => {
            assert_eq!(i, id);
            assert_eq!(payload, RequestPayload::Ping);
            assert!(!stop);
        }
        ServeStep::Reply(_) => panic!("a request is executed"),
    }
    let response = reply(id, Ok(ResponsePayload::Pong));
    assert_eq!(answer(Some(Ok(response)), "").unwrap(), ResponsePayload::Pong);
}

#[test]
fn engine_errors_reach_the_client_as_messages() {
    let error = EngineError::Port(PortManagerError::NotFound("/dev/absent".to_string()));
    let err = answer(Some(Ok(reply(1, Err(error)))), "").unwrap_err();
    assert!(matches!(err, IpcError::Remote(_)));
    assert!(err.to_string().contains("not found"));
}

#[test]
fn a_shutdown_request_actually_stops_the_server() {
    let step = serve(Ok(RpcRequest { id: 3, payload: RequestPayload::Shutdown }));
    assert!(matches!(step, ServeStep::Execute { id: 3, stop: true, .. }));
}

#[test]
fn a_malformed_request_is_answered() {
    match serve(Err("expected value".to_string())) {
        ServeStep::Reply(RpcResponse { id: 0, result: Err(m) }) => {
            assert!(m.contains("expected value"));
        }
        _ => panic!("there is nothing to execute"),
    }
}

#[test]
fn unreachable_endpoint_is_reported_as_such() {
    let err = IpcError::Connect {
        endpoint: "/tmp/absent.sock".to_string(),
        source: "No such file".to_string(),
    };
    assert!(err.to_string().contains("/tmp/absent.sock"));
    assert!(!is_alive(&Err(err)));
    assert!(is_alive(&Ok(ResponsePayload::Pong)));
}

#[test]
fn a_connection_that_ends_or_lies_is_a_protocol_error() {
    assert!(matches!(answer(None, ""), Err(IpcError::Protocol(_))));
    assert!(matches!(
        answer(Some(Err("bad".to_string())), "x"),
        Err(IpcError::Protocol(_))
    ));
}

#[test]
fn session_reports_its_endpoint() {
    let client = IpcClient::new("/tmp/x.sock".to_string()).with_timeout(500);
    assert_eq!(client.endpoint(), "/tmp/x.sock");
    assert_eq!(client.timeout_ms(), 500);
    let client = client.with_config_path(Some("/etc/d.toml".to_string()));
    assert_eq!(client.config_path().as_deref(), Some("/etc/d.toml"));
    assert_eq!(client.daemon_args(), ["daemon", "--socket", "/tmp/x.sock"]);
}

#[test]
fn each_request_has_its_own_id() {
    let mut client = IpcClient::new("e".to_string());
    let a = client.request(RequestPayload::Ping).id;
    let b = client.request(RequestPayload::Ping).id;
    assert_ne!(a, b);
}

#[test]
fn waiting_for_a_daemon_ends() {
    assert!(keep_waiting(0));
    assert!(!keep_waiting(u64::MAX));
    assert!(matches!(start_timeout(), IpcError::Spawn(_)));
    assert!(matches!(binary_missing("x"), IpcError::Spawn(_)));
    assert!(matches!(spawn_failed("x"), IpcError::Spawn(_)));
}

#[test]
fn spans_and_paths() {
    assert_eq!(describe_span(1500), "1.5s");
    assert_eq!(describe_span(20), "20ms");
    let env = Environment { socket: Some("/tmp/d.sock".to_string()), ..Environment::empty(Platform::Linux) };
    assert_eq!(default_pid_path(&env), "/tmp/d.pid");
    assert_eq!(default_gui_socket_path(&env), "/tmp/gui.sock");
}
