use std::path::Path;

use wfinfo::config::{join_path, Args, CaptureMode, Config, ConfigError};

fn no_args() -> Args {
    Args {
        game_log_file_path: None,
        window_name: None,
        hotkey: None,
        capture_delay_ms: None,
        log_level: None,
        log_timestamps: None,
        config_file: None,
    }
}

#[test]
fn defaults() {
    let config = Config::with_home(Some("/home/tenno".to_string()));
    assert_eq!(
        config.game_log_file_path.as_deref(),
        Some("/home/tenno/.local/share/Steam/steamapps/compatdata/230410/pfx/drive_c/users/steamuser/AppData/Local/Warframe/EE.log")
    );
    assert_eq!(config.window_name, "Warframe");
    assert_eq!(config.hotkey, "F12");
    assert_eq!(config.capture_delay_ms, 1500);
    assert_eq!(config.log_level, "info");
    assert!(!config.log_timestamps);
    assert!(!config.save_screenshots);
    assert_eq!(config.capture_mode, CaptureMode::Window);
    assert!(config.prices_file_path.is_none());
    assert!(Config::with_home(None).game_log_file_path.is_none());
}

#[test]
fn args_override_only_given_values() {
    let mut config = Config::with_home(None);
    let args = Args {
        window_name: Some("gamescope".to_string()),
        capture_delay_ms: Some(10),
        log_timestamps: Some(true),
        ..no_args()
    };
    config.update_from_args(&args);
    assert_eq!(config.window_name, "gamescope");
    assert_eq!(config.capture_delay_ms, 10);
    assert!(config.log_timestamps);
    assert_eq!(config.hotkey, "F12");
    assert_eq!(config.log_level, "info");
    assert!(config.game_log_file_path.is_none());

    let mut again = config.clone();
    again.update_from_args(&no_args());
    assert_eq!(again.window_name, config.window_name);
    assert_eq!(again.capture_delay_ms, config.capture_delay_ms);
}

#[test]
fn validation_checks_hotkey_then_level() {
    let mut config = Config::with_home(None);
    assert!(config.validate().is_ok());
    for level in ["error", "warn", "info", "debug", "trace", "off"] {
        config.log_level = level.to_string();
        assert!(config.validate().is_ok());
    }
    config.log_level = "verbose".to_string();
    match config.validate() {
        Err(ConfigError::InvalidLogLevel(level)) => assert_eq!(level, "verbose"),
        other => panic!("unexpected {:?}", other),
    }
    config.hotkey = "NotAKey".to_string();
    match config.validate() {
        Err(ConfigError::InvalidHotkey(hotkey, reason)) => {
            assert_eq!(hotkey, "NotAKey");
            assert!(!reason.is_empty());
        }
        other => panic!("unexpected {:?}", other),
    }
    config.hotkey = "ctrl+shift+F10".to_string();
    config.log_level = "info".to_string();
    assert!(config.validate().is_ok());
}

#[test]
fn config_file_path_layout() {
    assert_eq!(
        Config::config_file_path_in("/home/u/.config"),
        "/home/u/.config/wfinfo-ng/config.yaml"
    );
}

#[test]
fn join_path_agrees_with_std() {
    for (base, rest) in [("", "a"), ("/", "a"), ("x", "a/b"), ("x/", "a"), ("x", "/abs"), ("x", "")] {
        assert_eq!(
            join_path(base, rest),
            Path::new(base).join(rest).to_string_lossy()
        );
    }
}

#[test]
fn config_error_messages() {
    assert_eq!(
        ConfigError::InvalidHotkey("F99".to_string(), "bad key".to_string()).message(),
        "Invalid hotkey 'F99': bad key"
    );
    assert_eq!(
        ConfigError::InvalidLogLevel("loud".to_string()).message(),
        "Invalid log level: loud"
    );
    assert_eq!(
        ConfigError::NoConfigDirectory.message(),
        "Could not determine config directory"
    );
}

#[test]
fn config_file_path_needs_a_config_directory() {
    assert!(matches!(
        Config::config_file_path_from(None),
        Err(ConfigError::NoConfigDirectory)
    ));
    assert_eq!(
        Config::config_file_path_from(Some("/home/tenno/.config".to_string())).unwrap(),
        "/home/tenno/.config/wfinfo-ng/config.yaml"
    );
}
