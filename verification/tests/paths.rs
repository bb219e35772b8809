use devserial::paths::{
    archive_path, archive_timestamp, climbs, config_dir, default_archive_dir, default_data_dir,
    default_gui_socket_path, default_socket_path, directory, file_name, gui_socket_path, is_pipe_path, pid_path, port_db_path, sanitize_port_name, state_db_path,
    with_extension, Environment,
};
use devserial::platform::Platform;

#[test]
fn sanitize_covers_all_platform_separators() {
    assert_eq!(sanitize_port_name("/dev/ttyUSB0"), "_dev_ttyUSB0");
    assert_eq!(sanitize_port_name(r"\\.\COM3"), "__._COM3");
    assert_eq!(sanitize_port_name("COM3:"), "COM3_");
}

#[test]
fn db_path_is_stable_across_entry_points() {
    let dir = "/data";
    assert_eq!(port_db_path(dir, "/dev/ttyUSB0"), "/data/_dev_ttyUSB0.db");
}

#[test]
fn archive_path_uses_archive_dir() {
    let p = archive_path("/arch", "/dev/ttyUSB0", "20260101_120000");
    assert_eq!(p, "/arch/_dev_ttyUSB0_20260101_120000.db");
}

#[test]
fn pid_path_replaces_extension() {
    let p = pid_path("/run/devserial/devserial.sock", &Environment::empty(Platform::Linux));
    assert_eq!(p, "/run/devserial/devserial.pid");
}

#[test]
fn gui_socket_sits_next_to_ipc_socket() {
    let p = gui_socket_path("/run/devserial/devserial.sock", Platform::Linux);
    assert_eq!(p, "/run/devserial/gui.sock");
}

#[test]
fn data_dir_env_override_wins() {
    assert!(!default_data_dir(&Environment::empty(Platform::Linux)).is_empty());
    let env = Environment { data_dir: Some("/var/serial".to_string()), ..Environment::empty(Platform::Linux) };
    assert_eq!(default_data_dir(&env), "/var/serial");
}

#[test]
fn pipe_paths_are_recognized() {
    assert!(is_pipe_path(r"\\.\pipe\devserial"));
    assert!(!is_pipe_path("/tmp/devserial.sock"));
}

#[test]
fn the_state_database_sits_in_the_data_directory() {
    assert_eq!(state_db_path("/data"), "/data/config.db");
}

#[test]
fn parts_of_a_path() {
    assert_eq!(file_name("/tmp/a.bin").as_deref(), Some("a.bin"));
    assert_eq!(directory("/tmp/a.bin"), "/tmp");
    assert_eq!(with_extension("/tmp/a.tar.gz", "csv"), "/tmp/a.tar.csv");
    assert!(climbs("../evil.txt"));
    assert!(climbs("/tmp/../etc/x"));
    assert!(!climbs("/tmp/a..b"));
}

#[test]
fn directories_follow_the_environment() {
    let env = Environment {
        home: Some("/home/me".to_string()),
        runtime_dir: Some("/run/user/7".to_string()),
        socket: None,
        ..Environment::empty(Platform::Linux)
    };
    assert!(config_dir(&env).unwrap().starts_with("/home/me/"));
    assert!(default_socket_path(&env).starts_with("/run/user/7/"));
    let named = Environment { socket: Some("/tmp/d.sock".to_string()), ..Environment::empty(Platform::Linux) };
    assert_eq!(default_socket_path(&named), "/tmp/d.sock");
}

fn set(platform: Platform) -> Environment {
    let some = |v: &str| Some(v.to_string());
    Environment {
        state_home: some("/state"),
        runtime_dir: some("/run/user/7"),
        home: some("/home/me"),
        local_app_data: some("C:\\Users\\me\\Local"),
        app_data: some("C:\\Users\\me\\Roaming"),
        temp_dir: "/tmp".to_string(),
        ..Environment::empty(platform)
    }
}

#[test]
fn every_platform_has_its_directories() {
    let mac = set(Platform::MacOs);
    assert_eq!(default_data_dir(&mac), "/home/me/Library/Application Support/devserial");
    assert_eq!(
        default_socket_path(&mac),
        "/home/me/Library/Application Support/devserial/devserial.sock"
    );
    assert_eq!(config_dir(&mac).as_deref(), Some("/home/me/.config/devserial"));
    let linux = set(Platform::Linux);
    assert_eq!(default_data_dir(&linux), "/state/devserial");
    assert_eq!(default_archive_dir(&linux), "/state/devserial/archive");
    assert_eq!(default_socket_path(&linux), "/run/user/7/devserial/devserial.sock");
    let at_home = Environment { state_home: None, runtime_dir: None, ..set(Platform::Linux) };
    assert_eq!(default_data_dir(&at_home), "/home/me/.local/state/devserial");
    assert_eq!(default_socket_path(&at_home), "/home/me/.local/state/devserial/devserial.sock");
    let other = set(Platform::OtherUnix);
    assert_eq!(default_data_dir(&other), "./data");
    assert_eq!(default_socket_path(&other), "/tmp/devserial.sock");
    assert_eq!(config_dir(&other).as_deref(), Some("/home/me/.config/devserial"));
    assert_eq!(config_dir(&set(Platform::Other)), None);
    for platform in [Platform::MacOs, Platform::Linux, Platform::Windows, Platform::Other] {
        assert_eq!(default_data_dir(&Environment::empty(platform)), "./data");
    }
}

#[test]
fn windows_has_pipes() {
    let env = set(Platform::Windows);
    assert_eq!(default_data_dir(&env), r"C:\Users\me\Local\devserial");
    assert_eq!(default_archive_dir(&env), r"C:\Users\me\Local\devserial\archive");
    assert_eq!(config_dir(&env).as_deref(), Some(r"C:\Users\me\Roaming\devserial"));
    assert_eq!(default_socket_path(&env), r"\\.\pipe\devserial");
    assert_eq!(default_gui_socket_path(&env), r"\\.\pipe\devserial-gui");
    assert_eq!(
        pid_path(r"\\.\pipe\devserial", &env),
        r"C:\Users\me\Local\devserial\devserial.pid"
    );
    assert_eq!(pid_path(r"C:\run.d\a.sock", &env), "C:/run.d/a.pid");
    assert_eq!(gui_socket_path(r"C:\run.d\a.sock", Platform::Windows), "C:/run.d/gui.sock");
    assert_eq!(gui_socket_path("C:a.sock", Platform::Windows), "C:gui.sock");
    let drive = Environment { local_app_data: Some("D:".to_string()), ..set(Platform::Windows) };
    assert_eq!(default_data_dir(&drive), "D:devserial");
}

#[test]
fn an_archive_is_stamped_as_an_export_is() {
    let stamp = archive_timestamp();
    assert_eq!(stamp.len(), "20260101_120000".len());
    assert_eq!(&stamp[8..9], "_");
}
