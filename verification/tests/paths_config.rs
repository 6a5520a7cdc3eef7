use whale_widget::config::{Config, UsageMode, UNIT_SCALE_BITS};
use whale_widget::paths::{config_path, join_file_name, join_with, ledger_path, program_dir};

#[test]
fn config_path_sits_in_the_directory() {
    assert_eq!(config_path("/opt/whale"), "/opt/whale/config.json");
    assert_eq!(ledger_path("/opt/whale"), "/opt/whale/ledger.json");
}

#[test]
fn join_after_trailing_separator_adds_none() {
    assert_eq!(join_file_name("/opt/whale/", "config.json"), "/opt/whale/config.json");
}

#[test]
fn join_to_empty_directory_is_the_name() {
    assert_eq!(config_path(""), "config.json");
}

#[test]
fn join_to_current_directory() {
    assert_eq!(ledger_path("."), "./ledger.json");
}

#[test]
fn default_config_values() {
    let c = Config::default();
    assert_eq!(c.api_key, "");
    assert_eq!(c.widget_size_bits, UNIT_SCALE_BITS);
    assert_eq!(f32::from_bits(c.widget_size_bits), 1.0f32);
    assert_eq!(c.usage_mode, UsageMode::Ledger);
    assert_eq!(c.auto_refresh_seconds, 60);
    assert!(c.show_bubble);
}

#[test]
fn missing_config_file_gives_default_to_write() {
    let load = Config::load(false, None);
    assert!(load.write_default);
    assert_eq!(load.config.auto_refresh_seconds, 60);
}

#[test]
fn stored_config_is_taken() {
    let stored = Config {
        api_key: "sk-test".to_string(),
        widget_size_bits: 1.5f32.to_bits(),
        usage_mode: UsageMode::Realtime,
        auto_refresh_seconds: 120,
        show_bubble: false,
    };
    let load = Config::load(true, Some(stored));
    assert!(!load.write_default);
    assert_eq!(load.config.api_key, "sk-test");
    assert_eq!(load.config.usage_mode, UsageMode::Realtime);
    assert_eq!(load.config.auto_refresh_seconds, 120);
    assert!(!load.config.show_bubble);
}

#[test]
fn unreadable_config_file_gives_default_not_written() {
    let load = Config::load(true, None);
    assert!(!load.write_default);
    assert_eq!(load.config.api_key, "");
    assert_eq!(load.config.usage_mode, UsageMode::Ledger);
}

#[test]
fn program_dir_falls_back_to_current() {
    assert_eq!(program_dir(None), ".");
    assert_eq!(program_dir(Some("/opt/whale".to_string())), "/opt/whale");
    assert_eq!(config_path(&program_dir(None)), "./config.json");
}

#[test]
fn join_with_given_separator() {
    assert_eq!(join_with("C:\\app", "config.json", '\\', false), "C:\\app\\config.json");
    assert_eq!(join_with("/opt/app", "config.json", '/', false), "/opt/app/config.json");
    assert_eq!(join_with("/opt/app/", "config.json", '/', true), "/opt/app/config.json");
    assert_eq!(join_with("", "ledger.json", '/', false), "ledger.json");
}
