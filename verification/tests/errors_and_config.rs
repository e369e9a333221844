use ddcstuff::config::{config_path, Config};
use ddcstuff::error::DdcError;
use ddcstuff::monitor::MonitorId;

#[test]
fn error_messages() {
    assert_eq!(DdcError::Ipc("x".to_string()).message(), "IPC error: x");
    assert_eq!(DdcError::NotFound("m".to_string()).message(), "monitor not found: m");
    assert_eq!(DdcError::PermissionDenied("p".to_string()).message(), "permission denied: p");
    assert_eq!(DdcError::DdcFailed("d".to_string()).message(), "DDC/CI error: d");
    assert_eq!(DdcError::BacklightFailed("b".to_string()).message(), "backlight error: b");
    let io = std::io::Error::new(std::io::ErrorKind::Other, "boom");
    assert_eq!(DdcError::from(io).message(), "I/O error: boom");
}

#[test]
fn default_config() {
    let c = Config::default();
    assert_eq!(c.daemon.socket_path, "");
    assert!(!c.fade.enabled);
    assert_eq!(c.fade.duration_ms, 400);
    assert_eq!(c.fade.steps, 20);
    assert_eq!(c.backlight.path, "");
}

#[test]
fn config_file_location() {
    assert_eq!(config_path(Some("/home/u/.config")), "/home/u/.config/ddcd/config.toml");
    assert_eq!(config_path(None), "/etc/ddcd/config.toml");
}

#[test]
fn monitor_ids() {
    let a = MonitorId("ddc-a".to_string());
    assert_eq!(a, MonitorId("ddc-a".to_string()));
    assert_ne!(a, MonitorId("ddc-b".to_string()));
    assert_eq!(a.clone().as_str(), "ddc-a");
}
