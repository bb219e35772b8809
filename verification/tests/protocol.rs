use devserial::protocol::{
    RequestPayload, SearchMode, DEFAULT_READ_LIMIT, DEFAULT_SEARCH_LIMIT, MAX_READ_LIMIT,
    MAX_SEARCH_LIMIT,
};
use devserial::serial_params::DEFAULT_BREAK_MS;

#[test]
fn search_mode_parsing() {
    assert_eq!("exact".parse::<SearchMode>().unwrap(), SearchMode::Exact);
    assert_eq!("REGEX".parse::<SearchMode>().unwrap(), SearchMode::Regex);
    assert!("fuzzy".parse::<SearchMode>().is_err());
}

#[test]
fn every_port_operation_reports_its_port() {
    let payload = RequestPayload::GetStats { port: "/dev/x".into() };
    assert_eq!(payload.port(), Some("/dev/x"));
    assert_eq!(RequestPayload::Ping.port(), None);
}

#[test]
fn documented_limits_match_the_constants() {
    assert_eq!(DEFAULT_READ_LIMIT, 100, "update the serial_read description");
    assert_eq!(MAX_READ_LIMIT, 10_000, "update the serial_read description");
    assert_eq!(DEFAULT_SEARCH_LIMIT, 100, "update the serial_search description");
    assert_eq!(MAX_SEARCH_LIMIT, 1000, "update the serial_search description");
    assert_eq!(DEFAULT_BREAK_MS, 250, "update the serial_break descriptions");
}

#[test]
fn search_modes_read_back() {
    for m in [SearchMode::Substring, SearchMode::Exact, SearchMode::Regex] {
        assert_eq!(m.to_string().parse::<SearchMode>().unwrap(), m);
    }
    assert_eq!(SearchMode::default(), SearchMode::Substring);
}
