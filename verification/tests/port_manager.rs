use devserial::config::PortConfig;
use devserial::port_manager::{
    available_ports, canonical_device, dedupe_device_nodes, handle_command, looks_like_usb,
    reconfigured, same_device, serial_opened, sort_infos, sort_ports, storage_opened, written,
    DeviceNodes, ManagedPort, PortCommand, PortInfo, PortManagerError, PortStep,
};
use devserial::reader::ConnectionState;
use devserial::table::Table;

#[test]
fn dial_in_nodes_are_hidden_when_their_callout_twin_exists() {
    let ports = vec![
        "/dev/cu.usbmodem1101".to_string(),
        "/dev/tty.usbmodem1101".to_string(),
        "/dev/cu.debug-console".to_string(),
        "/dev/tty.debug-console".to_string(),
        "/dev/tty.orphan".to_string(),
    ];
    let deduped = dedupe_device_nodes(&ports, DeviceNodes::Twin);
    assert_eq!(
        deduped,
        vec![
            "/dev/cu.usbmodem1101".to_string(),
            "/dev/cu.debug-console".to_string(),
            // No callout twin exists, so this one stays reachable.
            "/dev/tty.orphan".to_string(),
        ]
    );
    let deduped = dedupe_device_nodes(&ports, DeviceNodes::Single);
    assert_eq!(deduped.len(), 5, "other platforms have no node twins");
}

#[test]
fn the_two_nodes_of_one_device_compare_equal() {
    for nodes in [DeviceNodes::Single, DeviceNodes::Twin] {
        assert!(same_device("/dev/cu.usbmodem1", "/dev/cu.usbmodem1", nodes));
        assert!(!same_device("/dev/cu.usbmodem1", "/dev/cu.usbmodem2", nodes));
        assert_eq!(canonical_device("/dev/ttyUSB0", nodes), "/dev/ttyUSB0");
        assert_eq!(canonical_device("COM3", nodes), "COM3");
    }
    assert!(same_device("/dev/cu.usbmodem1", "/dev/tty.usbmodem1", DeviceNodes::Twin));
    assert_eq!(
        canonical_device("/dev/tty.usbmodem1", DeviceNodes::Twin),
        "/dev/cu.usbmodem1"
    );
    assert!(!same_device("/dev/cu.usbmodem1", "/dev/tty.usbmodem1", DeviceNodes::Single));
}

#[test]
fn usb_devices_are_offered_first() {
    let sorted = sort_ports(vec![
        "/dev/cu.Bluetooth-Incoming-Port".to_string(),
        "/dev/cu.usbmodem1101".to_string(),
        "/dev/cu.debug-console".to_string(),
    ]);
    assert_eq!(sorted[0], "/dev/cu.usbmodem1101");
    assert!(looks_like_usb(&sorted[0]) && !looks_like_usb(&sorted[1]));
}

#[test]
fn offered_ports_are_one_per_device() {
    let listed = vec![
        "/dev/tty.usbserial".to_string(),
        "/dev/cu.usbserial".to_string(),
        "/dev/cu.a".to_string(),
    ];
    assert_eq!(
        available_ports(&listed, DeviceNodes::Twin),
        vec!["/dev/cu.usbserial".to_string(), "/dev/cu.a".to_string()]
    );
}

fn manager() -> Table<ManagedPort> {
    Table::new()
}

fn open_mock(table: &mut Table<ManagedPort>, name: &str, config: PortConfig) -> PortStep {
    handle_command(table, &PortCommand::OpenMock { name: name.to_string(), config })
}

#[test]
fn test_open_and_list() {
    let mut mgr = manager();
    assert_eq!(open_mock(&mut mgr, "/dev/ttyUSB0", PortConfig::default()), PortStep::StartReader);
    assert_eq!(
        handle_command(&mut mgr, &PortCommand::List),
        PortStep::Collect(vec!["/dev/ttyUSB0".to_string()])
    );
}

#[test]
fn test_open_two_ports() {
    let mut mgr = manager();
    open_mock(&mut mgr, "port1", PortConfig::default());
    open_mock(&mut mgr, "port2", PortConfig::default());
    assert_eq!(mgr.keys(), vec!["port1".to_string(), "port2".to_string()]);
    let info = |name: &str| PortInfo {
        name: name.to_string(),
        state: ConnectionState::Connected,
        total_lines: 0,
    };
    let sorted = sort_infos(&vec![info("port2"), info("port1")]);
    assert_eq!(sorted[0].name, "port1");
    assert_eq!(sorted[1].name, "port2");
}

#[test]
fn test_open_duplicate_error() {
    let mut mgr = manager();
    open_mock(&mut mgr, "port1", PortConfig::default());
    let step = open_mock(&mut mgr, "port1", PortConfig::default());
    assert!(matches!(step, PortStep::Refuse(PortManagerError::AlreadyManaged(_))));
}

#[test]
fn test_close_port() {
    let mut mgr = manager();
    open_mock(&mut mgr, "port1", PortConfig::default());
    let step = handle_command(&mut mgr, &PortCommand::Close { name: "port1".to_string() });
    assert!(matches!(step, PortStep::StopReader(_)));
    assert!(mgr.is_empty());
}

#[test]
fn test_close_nonexistent() {
    let mut mgr = manager();
    let step = handle_command(&mut mgr, &PortCommand::Close { name: "nope".to_string() });
    assert!(matches!(step, PortStep::Refuse(PortManagerError::NotFound(_))));
}

#[test]
fn test_get_state_nonexistent() {
    let mut mgr = manager();
    let step = handle_command(&mut mgr, &PortCommand::GetState { name: "nope".to_string() });
    assert!(matches!(step, PortStep::Refuse(PortManagerError::NotFound(_))));
}

#[test]
fn test_get_serial_port_mock_returns_no_hardware() {
    let mut mgr = manager();
    open_mock(&mut mgr, "mock", PortConfig::default());
    let step = handle_command(&mut mgr, &PortCommand::GetSerialPort { name: "mock".to_string() });
    assert!(matches!(step, PortStep::Refuse(PortManagerError::NoHardware(_))));
    let write = PortCommand::Write { name: "mock".to_string(), data: vec![65] };
    assert!(matches!(
        handle_command(&mut mgr, &write),
        PortStep::Refuse(PortManagerError::NoHardware(_))
    ));
}

#[test]
fn test_get_config_returns_effective_config() {
    let mut mgr = manager();
    let config = PortConfig { baudrate: 9600, ..PortConfig::default() };
    open_mock(&mut mgr, "port1", config);
    match handle_command(&mut mgr, &PortCommand::GetConfig { name: "port1".to_string() }) {
        PortStep::Config(c) => assert_eq!(c.baudrate, 9600),
        _ => panic!("a managed port has settings"),
    }
}

#[test]
fn a_device_is_managed_once_its_store_is_open() {
    let mut mgr = manager();
    let cmd = PortCommand::OpenReal {
        name: "/dev/ttyUSB0".to_string(),
        config: PortConfig::default(),
        data_dir: "/data".to_string(),
    };
    assert_eq!(handle_command(&mut mgr, &cmd), PortStep::OpenSerial);
    assert!(mgr.is_empty());
    let refused = serial_opened("/dev/ttyUSB0", "/data", Err("busy".to_string())).unwrap_err();
    assert!(matches!(refused, PortManagerError::Serial(_)));
    let path = serial_opened("/dev/ttyUSB0", "/data", Ok(())).unwrap();
    assert_eq!(path, "/data/_dev_ttyUSB0.db");
    let failed =
        storage_opened(&mut mgr, "/dev/ttyUSB0", PortConfig::default(), Err("full".to_string()));
    assert!(matches!(failed, Err(PortManagerError::Storage(_))));
    assert!(mgr.is_empty());
    storage_opened(&mut mgr, "/dev/ttyUSB0", PortConfig::default(), Ok(())).unwrap();
    assert_eq!(mgr.len(), 1);
}

#[test]
fn settings_take_effect_once_the_device_took_them() {
    let mut mgr = manager();
    storage_opened(&mut mgr, "p", PortConfig::default(), Ok(())).unwrap();
    let fast = PortConfig { baudrate: 921_600, ..PortConfig::default() };
    let cmd = PortCommand::Reconfigure { name: "p".to_string(), config: fast };
    assert_eq!(handle_command(&mut mgr, &cmd), PortStep::ApplySettings);
    assert!(reconfigured(&mut mgr, "p", fast, Err("no".to_string())).is_err());
    assert_eq!(mgr.get("p").unwrap().config.baudrate, 115_200);
    reconfigured(&mut mgr, "p", fast, Ok(())).unwrap();
    assert_eq!(mgr.get("p").unwrap().config.baudrate, 921_600);
    assert!(written(Err("gone".to_string())).is_err());
    assert_eq!(PortManagerError::Unavailable.to_string(), "port manager is not running");
}

#[test]
fn the_list_names_what_is_held() {
    let mut mgr = manager();
    let close = |name: &str| PortCommand::Close { name: name.to_string() };
    open_mock(&mut mgr, "b", PortConfig::default());
    open_mock(&mut mgr, "c", PortConfig::default());
    storage_opened(&mut mgr, "a", PortConfig::default(), Ok(())).unwrap();
    assert_eq!(
        open_mock(&mut mgr, "a", PortConfig::default()),
        PortStep::Refuse(PortManagerError::AlreadyManaged("a".to_string()))
    );
    assert!(matches!(handle_command(&mut mgr, &close("b")), PortStep::StopReader(_)));
    assert_eq!(
        handle_command(&mut mgr, &close("b")),
        PortStep::Refuse(PortManagerError::NotFound("b".to_string()))
    );
    open_mock(&mut mgr, "b", PortConfig::default());
    let again = PortCommand::CloseWithConfig { name: "c".to_string() };
    assert!(matches!(handle_command(&mut mgr, &again), PortStep::StopReader(_)));
    let PortStep::Collect(names) = handle_command(&mut mgr, &PortCommand::List) else {
        panic!("a list asks every port");
    };
    let infos: Vec<PortInfo> = names
        .into_iter()
        .map(|name| PortInfo { name, state: ConnectionState::Connected, total_lines: 0 })
        .collect();
    let reply: Vec<String> = sort_infos(&infos).into_iter().map(|p| p.name).collect();
    assert_eq!(reply, ["a", "b"]);
    assert_eq!(mgr.len(), 2, "a list changes nothing");
}
