use lostlove::config::{
    default_bind_address, default_connection_timeout, default_log_level, default_max_connections,
    default_max_streams, default_metrics_port, default_mtu, default_port, default_protocol,
    default_rate_limit, default_true, default_tun_address, default_tun_name,
    default_worker_threads, Config, LimitsConfig, MonitoringConfig,
};
use lostlove::error::LostLoveError;

#[test]
fn test_default_config() {
    let config = Config::default_for_testing();
    assert_eq!(config.server.port, 8443);
    assert_eq!(config.network.mtu, 1400);
}

#[test]
fn test_config_validation() {
    let mut config = Config::default_for_testing();
    assert!(config.validate().is_ok());

    config.network.mtu = 100;
    assert!(config.validate().is_err());
}

#[test]
fn defaults_match_documented_values() {
    assert_eq!(default_bind_address(), "0.0.0.0");
    assert_eq!(default_port(), 8443);
    assert_eq!(default_protocol(), "tcp");
    assert_eq!(default_max_connections(), 1000);
    assert_eq!(default_worker_threads(), 0);
    assert_eq!(default_tun_name(), "hfp0");
    assert_eq!(default_tun_address(), "10.8.0.1/24");
    assert_eq!(default_mtu(), 1400);
    assert_eq!(default_rate_limit(), 100_000_000);
    assert_eq!(default_max_streams(), 256);
    assert_eq!(default_connection_timeout(), 300);
    assert!(default_true());
    assert_eq!(default_metrics_port(), 9090);
    assert_eq!(default_log_level(), "info");
    let limits = LimitsConfig::default();
    assert_eq!(limits.connection_timeout, 300);
    let monitoring = MonitoringConfig::default();
    assert!(monitoring.enable_metrics);
    assert_eq!(monitoring.log_level, "info");
}

#[test]
fn validation_rejects_each_bad_field() {
    let mut c = Config::default_for_testing();
    c.server.bind_address = String::new();
    assert!(matches!(c.validate(), Err(LostLoveError::Config(_))));

    let mut c = Config::default_for_testing();
    c.server.port = 0;
    assert!(matches!(c.validate(), Err(LostLoveError::Config(_))));

    let mut c = Config::default_for_testing();
    c.server.protocol = "quic".to_string();
    assert!(matches!(c.validate(), Err(LostLoveError::Config(_))));

    let mut c = Config::default_for_testing();
    c.network.mtu = 9001;
    assert!(c.validate().is_err());
}

#[test]
fn validation_accepts_bounds_and_every_protocol() {
    for p in ["tcp", "udp", "both"] {
        let mut c = Config::default_for_testing();
        c.server.protocol = p.to_string();
        assert!(c.validate().is_ok());
    }
    let mut c = Config::default_for_testing();
    c.network.mtu = 576;
    assert!(c.validate().is_ok());
    c.network.mtu = 9000;
    assert!(c.validate().is_ok());
    c.network.mtu = 575;
    assert!(c.validate().is_err());
}
