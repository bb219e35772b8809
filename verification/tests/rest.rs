use devserial::modem::FileTransferProtocol;
use devserial::protocol::{PortSettings, ReadWindow, RequestPayload, SearchMode};
use devserial::rest::jobs::{
    already_sent, flash_outcome, job_events, job_id, job_started, no_such_job, JobLog, Jobs,
    JOBS_KEPT,
};
use devserial::rest::routes::{
    describe, features, operation_id, placeholders, served_by, success, version, HEALTH, ROUTES,
};
use devserial::rest::{
    bind_failure, declares_json, host_is_local, let_in, presents_token, token_required, Attempt, BindError, BindScope, Head, RestConfig, RestServer, Status,
};

fn config(bind: &str, port: u16) -> RestConfig {
    RestConfig { enabled: false, bind: bind.to_string(), port, token: None }
}

#[test]
fn the_three_bind_failures_read_differently() {
    let in_use = bind_failure("127.0.0.1", 9600, "127.0.0.1:9600", &BindError::AddrInUse);
    assert!(in_use.contains("9600"), "{in_use}");
    assert!(in_use.contains("in use"), "{in_use}");

    let denied = bind_failure("127.0.0.1", 443, "127.0.0.1:443", &BindError::PermissionDenied);
    assert!(denied.contains("443") && denied.contains("1024"), "{denied}");

    let missing =
        bind_failure("192.168.1.9", 9600, "192.168.1.9:9600", &BindError::AddrNotAvailable);
    assert!(missing.contains("192.168.1.9"), "{missing}");

    // Anything else still says what happened rather than nothing.
    let other = bind_failure(
        "127.0.0.1",
        9600,
        "127.0.0.1:9600",
        &BindError::Other("other error".to_string()),
    );
    assert!(other.contains("127.0.0.1:9600"), "{other}");

    let all = [&in_use, &denied, &missing];
    for (i, a) in all.iter().enumerate() {
        for b in all.iter().skip(i + 1) {
            assert_ne!(a, b, "two failures read the same");
        }
    }
}

#[test]
fn a_non_loopback_bind_without_a_token_is_refused() {
    let open = config("0.0.0.0", 0);
    let refused = RestServer::may_bind(&open, BindScope::Network)
        .expect_err("0.0.0.0 without a token has to be refused");
    assert!(refused.contains("token"), "{refused}");
    let mut server = RestServer::new(&open, BindScope::Network);
    let again = server
        .enable(&open, BindScope::Network, Attempt::Listening(4711))
        .expect_err("0.0.0.0 without a token has to be refused");
    assert_eq!(again, refused);
    assert!(!server.state().listening && !server.running);
    let mut guarded = config("0.0.0.0", 0);
    guarded.token = Some("s3cret".to_string());
    assert!(RestServer::may_bind(&guarded, BindScope::Network).is_ok());
    let state = server.enable(&guarded, BindScope::Network, Attempt::Listening(4711)).unwrap();
    assert!(state.listening && state.token_required);
    assert!(!presents_token(&server.token, None));
}

#[test]
fn a_bind_that_is_not_an_address_is_reported() {
    let refused = RestServer::may_bind(&config("localhost", 0), BindScope::NotAnAddress)
        .expect_err("a name is not an address");
    assert!(refused.contains("localhost"), "{refused}");
    let named = config("localhost", 0);
    let mut server = RestServer::new(&named, BindScope::NotAnAddress);
    let again = server
        .enable(&named, BindScope::NotAnAddress, Attempt::Listening(4711))
        .expect_err("a name is not an address");
    assert_eq!(again, refused);
}

#[test]
fn a_configured_token_is_reported_as_required() {
    let mut loopback = config("127.0.0.1", 0);
    assert!(!token_required(&loopback, BindScope::Loopback));
    loopback.token = Some("s3cret".to_string());
    assert!(token_required(&loopback, BindScope::Loopback));
    assert!(token_required(&config("0.0.0.0", 0), BindScope::Network));
}

#[test]
fn the_state_says_what_the_listener_does() {
    let c = config("127.0.0.1", 0);
    let mut server = RestServer::new(&c, BindScope::Loopback);
    assert!(!server.state().listening);
    let state = server.enable(&c, BindScope::Loopback, Attempt::Listening(4711)).unwrap();
    assert!(state.listening);
    assert_eq!(state.port, 4711);
    assert!(server.running);
    let failed =
        server.enable(&c, BindScope::Loopback, Attempt::Unbound("in use".to_string())).unwrap_err();
    assert_eq!(failed, "in use");
    assert_eq!(server.state().reason.as_deref(), Some("in use"));
    let left = server.disable();
    assert_eq!(left.reason.as_deref(), Some("in use"), "it was not listening");
    assert!(!server.running);
    let state = server.enable(&c, BindScope::Loopback, Attempt::Listening(4712)).unwrap();
    assert!(state.listening);
    let state = server.disable();
    assert!(!state.listening && state.reason.is_none());
    assert_eq!(state.port, 4712);
    assert!(!server.running);
}

/// One of every request, so the route table can be walked.
fn every_request() -> Vec<RequestPayload> {
    let port = || "/dev/ttyUSB0".to_string();
    let mut all = vec![
        RequestPayload::Ping,
        RequestPayload::ListPorts,
        RequestPayload::ListHardware,
        RequestPayload::OpenPort { name: port(), settings: PortSettings::default() },
        RequestPayload::ReconfigurePort { name: port(), settings: PortSettings::default() },
        RequestPayload::ClosePort { name: port() },
        RequestPayload::ReadLines { port: port(), window: ReadWindow::default() },
        RequestPayload::GetStatus { port: port() },
        RequestPayload::WriteData { port: port(), data: "x".into(), is_hex: false },
        RequestPayload::SendBreak { port: port(), duration_ms: None },
        RequestPayload::SendFile {
            port: port(),
            file_path: "f".into(),
            protocol: FileTransferProtocol::Zmodem,
        },
        RequestPayload::ReceiveFile {
            port: port(),
            output_dir: ".".into(),
            protocol: FileTransferProtocol::Zmodem,
        },
        RequestPayload::SetSignal { port: port(), dtr: None, rts: None },
        RequestPayload::ExecuteMacro { port: port(), macro_name: "reset".into() },
        RequestPayload::Search {
            port: port(),
            query: "q".into(),
            mode: SearchMode::Substring,
            start_ns: None,
            end_ns: None,
            limit: None,
        },
        RequestPayload::Export {
            port: port(),
            output_path: "o".into(),
            file_format: None,
            start_line: None,
            end_line: None,
        },
        RequestPayload::Clear { port: port(), archive_current: None },
        RequestPayload::GetStats { port: port() },
        RequestPayload::RestStatus,
        RequestPayload::RestEnable { bind: None, port: None, token: None },
        RequestPayload::RestDisable,
        RequestPayload::Shutdown,
    ];
    all.extend([
        RequestPayload::EspFlash { port: port(), firmware_path: "f".into(), baud: None },
        RequestPayload::EspInfo { port: port() },
        RequestPayload::EspErase { port: port() },
        RequestPayload::EspWriteBin { port: port(), file_path: "f".into(), address: "0x0".into() },
    ]);
    all
}

#[test]
fn every_request_has_a_route_or_a_recorded_reason() {
    for payload in every_request() {
        match served_by(&payload) {
            Ok(routes) => {
                assert!(!routes.is_empty(), "{payload:?} claims no route at all");
                for route in routes {
                    assert!(
                        ROUTES.contains(&route),
                        "{payload:?} claims {route}, which the router does not serve"
                    );
                }
            }
            Err(reason) => {
                assert!(!reason.is_empty(), "{payload:?} has neither a route nor a reason")
            }
        }
    }
}

#[test]
fn every_route_serves_a_request() {
    let claimed: std::collections::BTreeSet<&str> = every_request()
        .iter()
        .filter_map(|payload| served_by(payload).ok())
        .flatten()
        .collect();
    // Two routes describe the build rather than carrying out a request,
    // so they are the ones with nothing to claim them.
    let about_itself = ["GET /v1/version", "GET /v1/openapi.json"];
    for route in ROUTES {
        if about_itself.contains(&route) {
            continue;
        }
        assert!(claimed.contains(route), "{route} is advertised but no request maps to it");
    }
}

#[test]
fn only_a_loopback_host_on_our_port_passes() {
    assert!(host_is_local("127.0.0.1:9600", 9600));
    assert!(host_is_local("localhost:9600", 9600));
    assert!(host_is_local("[::1]:9600", 9600));

    // A rebound name, the attack this guard exists for.
    assert!(!host_is_local("localhost.attacker.example:9600", 9600));
    assert!(!host_is_local("evil.example:9600", 9600));
    // The right name on the wrong port is not this listener.
    assert!(!host_is_local("127.0.0.1:9601", 9600));
    // No port means the scheme default, which is never ours.
    assert!(!host_is_local("127.0.0.1", 9600));
    assert!(!host_is_local("", 9600));
    // An IPv6 literal is bracketed.
    assert!(!host_is_local("::1:9600", 9600));
}

fn head<'a>(method: &'a str, host: &'a str, content_type: Option<&'a str>) -> Head<'a> {
    Head { method, health: false, host: Some(host), content_type, authorization: None }
}

#[test]
fn a_body_without_json_and_a_foreign_host_are_refused() {
    let untyped = let_in(&head("POST", "localhost:9600", None), &None, 9600).unwrap_err();
    assert_eq!(untyped.status, Status::UnsupportedMediaType);
    assert_eq!(untyped.status.code(), 415);
    assert!(untyped.to_json().contains("not-json"));

    let foreign =
        let_in(&head("GET", "localhost.attacker.example:9600", None), &None, 9600).unwrap_err();
    assert_eq!(foreign.status.code(), 421);
    assert!(foreign.to_json().contains("host-not-local"));

    // And the same request with the right host passes, so the refusal is
    // the header rather than the route.
    assert!(let_in(&head("GET", "localhost:9600", None), &None, 9600).is_ok());
    let json = Some("Application/JSON; charset=utf-8");
    assert!(let_in(&head("PUT", "localhost:9600", json), &None, 9600).is_ok());
    assert!(!declares_json("text/plain"));
    assert!(!declares_json(""));
}

#[test]
fn a_token_is_enforced_but_health_is_not_behind_it() {
    let token = Some("s3cret".to_string());
    let ask = |health, authorization| {
        let h = Head {
            method: "GET",
            health,
            host: Some("localhost:9600"),
            content_type: None,
            authorization,
        };
        let_in(&h, &token, 9600)
    };
    assert!(ask(true, None).is_ok());
    let refused = ask(false, None).unwrap_err();
    assert_eq!(refused.status.code(), 401);
    assert!(ask(false, Some("Bearer wrong")).is_err());
    assert!(ask(false, Some("s3cret")).is_err());
    assert!(ask(false, Some("Bearer s3cret")).is_ok());
}

#[test]
fn the_listener_answers_health_and_version() {
    assert_eq!(HEALTH, "{\"status\":\"ok\"}");
    let body: serde_json::Value =
        serde_json::from_str(&version("1.2.3", &features(true, false, true))).unwrap();
    assert_eq!(body["version"], "1.2.3");
    assert_eq!(body["features"][0], "rest");
    assert_eq!(body["features"][2], "tui");
    assert_eq!(body["routes"].as_array().map(Vec::len), Some(ROUTES.len()));
}

#[test]
fn the_description_covers_every_route() {
    let mut names = std::collections::BTreeSet::new();
    for route in ROUTES {
        assert!(!describe(route).is_empty(), "{route} is described without saying what it is for");
        let (method, path) = route.split_once(' ').expect("a route is a method and a path");
        let name = operation_id(method, path);
        assert!(!name.is_empty());
        assert!(names.insert(name), "{route} shares its name with another route");
        let declared = placeholders(path);
        for placeholder in
            path.split('/').filter_map(|s| s.strip_prefix('{').and_then(|s| s.strip_suffix('}')))
        {
            assert!(declared.contains(&placeholder.to_string()), "{route} hides {placeholder}");
        }
    }
    assert_eq!(describe("GET /nowhere"), "");
    assert_eq!(operation_id("POST", "/v1/ports/{port}/esp/write-bin"), "post_ports_port_esp_write_bin");
    assert_eq!(operation_id("ÄNDERN", "/v1/ports"), "ändern_ports");
    assert_eq!(placeholders("/v1/ports/{port}/macros/{name}"), ["port", "name"]);
    assert_eq!(success("POST /v1/ports/{port}/esp/flash").0, 202);
    assert_eq!(success("GET /v1/jobs/{job}/stream"), (200, "an event stream"));
}

#[test]
fn the_flash_route_answers_with_a_job_and_streams_its_outcome() {
    let id = job_id(0x1f, 2);
    assert_eq!(id, "1f2");
    let body: serde_json::Value = serde_json::from_str(&job_started(&id)).unwrap();
    assert_eq!(body["stream"], format!("/v1/jobs/{id}/stream"));

    let mut log = JobLog::new();
    log.push("10%".to_string());
    log.push("done".to_string());
    assert!(!log.is_finished());
    log.finish(flash_outcome(Err("no board".to_string())));
    assert!(log.is_finished());
    let (lines, outcome) = log.since(1);
    assert_eq!(lines, ["done"]);
    let events = job_events(1, &lines, &outcome);
    assert_eq!(events.len(), 2);
    assert_eq!(events[0].id.as_deref(), Some("2"));
    assert_eq!(events[0].data, "{\"text\":\"done\"}");
    assert_eq!(events[1].event, "done");
    assert!(events[1].data.contains("\"ok\":false"));
    assert!(log.since(9).0.is_empty());

    // A job nobody started is a refusal rather than a stream that never
    // says anything.
    let absent = no_such_job("nosuchjob");
    assert_eq!(absent.status.code(), 404);
    assert!(absent.to_json().contains("no-such-job"));
    assert_eq!(already_sent(None, Some("7")), 7);
    assert_eq!(already_sent(Some(1), Some("7")), 1);
    assert_eq!(already_sent(None, Some("x")), 0);
}

#[test]
fn old_finished_jobs_go_and_running_ones_stay() {
    let mut jobs: Jobs<u32> = Jobs::new();
    for n in 0..40u32 {
        let finished = vec![true; jobs.known.len() + 1];
        jobs.remember(format!("j{n}"), n, &finished);
    }
    assert_eq!(jobs.known.len(), JOBS_KEPT);
    assert_eq!(jobs.find("j39"), Some(&39));
    assert_eq!(jobs.find("j0"), None);

    let mut jobs: Jobs<u32> = Jobs::new();
    for n in 0..20u32 {
        let mut finished = vec![true; jobs.known.len() + 1];
        finished[0] = false;
        jobs.remember(format!("j{n}"), n, &finished);
    }
    assert_eq!(jobs.find("j0"), Some(&0));
    assert_ne!(job_id(5, 1), job_id(5, 2));
}
