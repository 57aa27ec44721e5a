use scribe::config::{Config, RawConfig, SyncProvider};
use std::path::Path;

#[test]
fn test_default_config_has_sensible_values() {
    let cfg = Config::default();
    assert!(cfg.db_path.is_none());
    assert!(cfg.notifications_enabled);
    assert_eq!(cfg.date_format, "%Y-%m-%d");
    assert_eq!(cfg.time_format, "%H:%M");
    assert!(!cfg.setup.daemon_service_installed);
    assert!(!cfg.setup.agent_installed);
}

#[test]
fn test_db_path_returns_override_when_set() {
    let mut cfg = Config::default();
    cfg.db_path = Some("/tmp/test.db".to_owned());
    cfg.notifications_enabled = true;
    cfg.date_format = "%Y-%m-%d".to_owned();
    cfg.time_format = "%H:%M".to_owned();
    assert_eq!(cfg.db_path(), "/tmp/test.db");
}

#[test]
fn test_db_path_returns_xdg_default_when_unset() {
    let cfg = Config::default();
    let db = cfg.db_path();
    assert_eq!(Path::new(&db).file_name().and_then(|n| n.to_str()), Some("scribe.db"));
}

#[test]
fn test_from_raw_empty_db_path_string_uses_default() {
    let mut raw = RawConfig::default();
    raw.data.db_path = Some(String::new());
    let cfg = Config::from_raw(raw);
    assert!(cfg.db_path.is_none());
}

#[test]
fn test_round_trip_preserves_setup_state() {
    let mut cfg = Config::default();
    cfg.setup.daemon_service_installed = true;
    cfg.setup.agent_installed = true;
    let raw = cfg.to_raw();
    let restored = Config::from_raw(raw);
    assert!(restored.setup.daemon_service_installed);
    assert!(restored.setup.agent_installed);
}

#[test]
fn test_sync_config_defaults_to_disabled() {
    let cfg = Config::default();
    assert!(!cfg.sync.enabled);
    assert_eq!(cfg.sync.provider, SyncProvider::Gist);
    assert_eq!(cfg.sync.interval_secs, 60);
}

#[test]
fn test_sync_config_round_trip() {
    let mut cfg = Config::default();
    cfg.sync.enabled = true;
    cfg.sync.provider = SyncProvider::S3;
    cfg.sync.s3.bucket = "my-bucket".to_owned();
    let raw = cfg.to_raw();
    let restored = Config::from_raw(raw);
    assert!(restored.sync.enabled);
    assert_eq!(restored.sync.provider, SyncProvider::S3);
    assert_eq!(restored.sync.s3.bucket, "my-bucket");
}

#[test]
fn config_round_trip_keeps_every_field() {
    let mut cfg = Config::default();
    cfg.db_path = Some("/data/scribe.db".to_owned());
    cfg.notifications_enabled = false;
    cfg.date_format = "%d/%m/%Y".to_owned();
    cfg.time_format = "%I:%M %p".to_owned();
    cfg.sync.interval_secs = 300;
    let restored = Config::from_raw(cfg.to_raw());
    assert_eq!(restored.db_path.as_deref(), Some("/data/scribe.db"));
    assert!(!restored.notifications_enabled);
    assert_eq!(restored.date_format, "%d/%m/%Y");
    assert_eq!(restored.time_format, "%I:%M %p");
    assert_eq!(restored.sync.interval_secs, 300);
}

#[test]
fn raw_default_has_no_database_override() {
    let raw = RawConfig::default();
    assert!(raw.data.db_path.is_none());
    assert!(raw.notifications.enabled);
    assert_eq!(raw.display.date_format, "%Y-%m-%d");
}
