use devserial::config::{
    builtin_macro, config_candidates, load_config, Config, ConfigError, GlobalConfig, MacroConfig,
    MacroStep, PortConfig,
};
use devserial::paths::Environment;
use devserial::platform::Platform;
use devserial::serial_params::{DataBits, FlowControl, Parity, StopBits};

/// An environment in which nothing is set.
fn nothing_set() -> Environment {
    Environment::empty(Platform::Linux)
}

#[test]
fn test_default_config() {
    let config = Config::default(&nothing_set());
    assert_eq!(config.global.flush_interval_ms, 100);
    assert_eq!(config.global.flush_batch_size, 1000);
    assert!(config.ports.is_empty());
    assert!(config.macros.is_empty());
}

#[test]
fn test_missing_explicit_config_is_an_error() {
    let existing: Vec<String> = Vec::new();
    let err = load_config(Some("/nonexistent/path.toml"), &Environment::empty(Platform::Linux), &existing)
        .unwrap_err();
    assert!(err.to_string().contains("not found"));
}

#[test]
fn test_port_config_defaults() {
    let port = PortConfig::default();
    assert_eq!(port.baudrate, 115_200);
    assert_eq!(port.data_bits, DataBits::EIGHT);
    assert_eq!(port.parity, Parity::Off);
    assert_eq!(port.stop_bits, StopBits::ONE);
    assert!(port.auto_reconnect);
}

#[test]
fn test_framing_summary() {
    let mut port = PortConfig::default();
    assert_eq!(port.framing_summary(), "115200 8N1");
    port.parity = Parity::Even;
    port.data_bits = DataBits::SEVEN;
    port.flow_control = FlowControl::Hardware;
    assert_eq!(port.framing_summary(), "115200 7E1 (RTS/CTS)");
}

#[test]
fn builtin_macros_resolve() {
    let config = Config::default(&nothing_set());
    assert_eq!(config.macro_steps("reset").unwrap().len(), 3);
    assert_eq!(config.macro_steps("enter_bootloader").unwrap().len(), 6);
    assert_eq!(config.macro_steps("break").unwrap().len(), 1);
    assert!(config.macro_steps("nope").is_none());
}

#[test]
fn user_macro_overrides_builtin() {
    let mut config = Config::default(&nothing_set());
    config.macros.insert(
        "reset".into(),
        MacroConfig { description: String::new(), steps: vec![MacroStep::Delay { ms: 1 }] },
    );
    assert_eq!(config.macro_steps("reset").unwrap().len(), 1);
    let names = config.available_macros();
    assert_eq!(names.iter().filter(|n| *n == "reset").count(), 1);
    assert!(names.contains(&"enter_bootloader".to_string()));
}

#[test]
fn log_directive_falls_back_for_unknown_level() {
    let mut global = GlobalConfig::default(&nothing_set());
    assert_eq!(global.log_directive().0, "info");
    global.log_level = "DEBUG".into();
    assert_eq!(global.log_directive().0, "debug");
    global.log_level = "loud".into();
    assert_eq!(global.log_directive().0, "info");
    assert!(global.log_directive().1.unwrap().contains("loud"));
}

#[test]
fn the_first_existing_candidate_is_loaded() {
    let env = Environment { home: Some("/home/me".to_string()), ..Environment::empty(Platform::Linux) };
    let candidates = config_candidates(None, &env);
    assert!(candidates.len() > 1);
    let last = candidates[candidates.len() - 1].clone();
    assert_eq!(load_config(None, &env, &vec![last.clone()]).unwrap(), Some(last));
    assert_eq!(load_config(None, &env, &Vec::new()).unwrap(), None);
    assert_eq!(
        load_config(None, &env, &candidates).unwrap(),
        Some(candidates[0].clone())
    );
}

#[test]
fn a_variable_names_the_configuration() {
    let env = Environment { config: Some("/etc/d.toml".to_string()), ..Environment::empty(Platform::Linux) };
    assert!(matches!(
        load_config(None, &env, &Vec::new()),
        Err(ConfigError::Missing(f)) if f == "/etc/d.toml"
    ));
    assert_eq!(
        load_config(None, &env, &vec!["/etc/d.toml".to_string()]).unwrap().as_deref(),
        Some("/etc/d.toml")
    );
}

#[test]
fn a_port_without_settings_of_its_own_has_the_defaults() {
    let mut config = Config::default(&nothing_set());
    config.ports.insert(
        "/dev/a".into(),
        PortConfig { baudrate: 9600, ..PortConfig::default() },
    );
    assert_eq!(config.port("/dev/a").baudrate, 9600);
    assert_eq!(config.port("/dev/b").baudrate, 115_200);
    assert_eq!(builtin_macro("reset").unwrap().len(), 3);
}

#[test]
fn a_macro_is_offered_where_it_has_steps() {
    let mut config = Config::default(&nothing_set());
    for name in ["zap", "break"] {
        config.macros.insert(
            name.into(),
            MacroConfig { description: String::new(), steps: vec![MacroStep::Delay { ms: 1 }] },
        );
    }
    let names = config.available_macros();
    assert_eq!(names, ["break", "zap", "reset", "enter_bootloader"]);
    assert!(names.iter().all(|n| config.macro_steps(n).is_some()));
}

#[test]
fn the_defaults_follow_the_environment() {
    let env = Environment { data_dir: Some("/srv/serial".to_string()), ..nothing_set() };
    let global = GlobalConfig::default(&env);
    assert_eq!(global.data_dir, "/srv/serial");
    assert_eq!(global.archive_dir, "/srv/serial/archive");
    assert_eq!(Config::default(&env).global.data_dir, "/srv/serial");
}
