use fact::config::{
    AgentMode, ConfigError, FactConfig, Roles, DEFAULT_INTERVAL, DEFAULT_RPMDB,
    DEFAULT_SENSOR_ENDPOINT, DEFAULT_VSOCK_PORT, MAX_PATHS,
};
use fact::{file_monitor_config, package_monitor_config};

#[test]
fn defaults_of_the_configuration() {
    let c = FactConfig::new();
    assert_eq!(c.mode, AgentMode::FileMonitor);
    assert!(!c.enable_file_monitor);
    assert!(!c.enable_package_monitor);
    assert!(c.paths.is_empty());
    assert_eq!(c.url, None);
    assert_eq!(c.certs, None);
    assert!(!c.skip_http);
    assert!(!c.use_vsock);
    assert_eq!(c.rpmdb, "/var/lib/rpm");
    assert_eq!(c.interval, 3600);
    assert_eq!(c.vsock_port, 818);
    assert_eq!(c.sensor_endpoint, "sensor:443");
    assert!(!c.enable_vsock_server);
    assert!(!c.enable_vm_agent);
    assert_eq!(FactConfig::default(), c);
    assert_eq!(MAX_PATHS, 16);
    assert_eq!(DEFAULT_RPMDB, "/var/lib/rpm");
    assert_eq!(DEFAULT_INTERVAL, 3600);
    assert_eq!(DEFAULT_VSOCK_PORT, 818);
    assert_eq!(DEFAULT_SENSOR_ENDPOINT, "sensor:443");
}

#[test]
fn default_selection_with_paths_arms_the_file_collector() {
    let mut c = FactConfig::new();
    c.paths = vec!["/etc".to_string()];
    let c = c.with_defaults();
    assert!(c.enable_file_monitor);
    assert!(!c.enable_package_monitor);
    assert_eq!(c.paths, vec!["/etc".to_string()]);
}

#[test]
fn default_selection_without_paths_arms_the_package_collector() {
    let c = FactConfig::new().with_defaults();
    assert!(!c.enable_file_monitor);
    assert!(c.enable_package_monitor);
}

#[test]
fn flags_that_are_set_are_left_alone() {
    let mut c = FactConfig::new();
    c.enable_package_monitor = true;
    c.paths = vec!["/etc".to_string()];
    let c = c.with_defaults();
    assert!(!c.enable_file_monitor);
    assert!(c.enable_package_monitor);

    let mut c = FactConfig::new();
    c.enable_file_monitor = true;
    let c = c.with_defaults();
    assert!(c.enable_file_monitor);
    assert!(!c.enable_package_monitor);

    let mut c = FactConfig::new();
    c.enable_file_monitor = true;
    c.enable_package_monitor = true;
    let c = c.with_defaults();
    assert!(c.enable_file_monitor);
    assert!(c.enable_package_monitor);
}

#[test]
fn completing_changes_nothing_but_the_two_flags() {
    let mut c = FactConfig::new();
    c.mode = AgentMode::Hybrid;
    c.url = Some("http://s:9000".to_string());
    c.certs = Some("/certs".to_string());
    c.skip_http = true;
    c.use_vsock = true;
    c.rpmdb = "/db".to_string();
    c.interval = 5;
    c.vsock_port = 9;
    c.sensor_endpoint = "s:1".to_string();
    c.enable_vsock_server = true;
    c.enable_vm_agent = true;
    let mut expected = FactConfig::new();
    expected.mode = AgentMode::Hybrid;
    expected.url = Some("http://s:9000".to_string());
    expected.certs = Some("/certs".to_string());
    expected.skip_http = true;
    expected.use_vsock = true;
    expected.rpmdb = "/db".to_string();
    expected.interval = 5;
    expected.vsock_port = 9;
    expected.sensor_endpoint = "s:1".to_string();
    expected.enable_vsock_server = true;
    expected.enable_vm_agent = true;
    expected.enable_package_monitor = true;
    assert_eq!(c.with_defaults(), expected);
}

#[test]
fn at_most_sixteen_paths_are_valid() {
    let mut c = FactConfig::new();
    assert_eq!(c.validate(), Ok(()));
    c.paths = (0..16).map(|i| format!("/p{}", i)).collect();
    assert_eq!(c.validate(), Ok(()));
    c.paths.push("/one-more".to_string());
    assert_eq!(c.validate(), Err(ConfigError::TooManyPaths));
}

#[test]
fn the_mode_selects_the_roles() {
    let mut c = FactConfig::new();
    assert_eq!(c.roles(), Roles { collectors: true, vm_agent: false, listener: false });
    c.mode = AgentMode::VmAgent;
    assert_eq!(c.roles(), Roles { collectors: false, vm_agent: true, listener: false });
    c.mode = AgentMode::VsockListener;
    assert_eq!(c.roles(), Roles { collectors: false, vm_agent: false, listener: true });
    c.mode = AgentMode::Hybrid;
    assert_eq!(c.roles(), Roles { collectors: false, vm_agent: false, listener: false });
    c.enable_vm_agent = true;
    assert_eq!(c.roles(), Roles { collectors: false, vm_agent: true, listener: false });
    c.enable_vsock_server = true;
    assert_eq!(c.roles(), Roles { collectors: false, vm_agent: true, listener: true });
}

#[test]
fn reports_go_to_the_url_unless_rpc_is_switched_off() {
    let mut c = FactConfig::new();
    assert_eq!(c.report_url(), None);
    c.url = Some("http://s:9000".to_string());
    assert_eq!(c.report_url(), Some("http://s:9000".to_string()));
    c.skip_http = true;
    assert_eq!(c.report_url(), None);
}

#[test]
fn collector_configurations_are_taken_from_the_configuration() {
    let mut c = FactConfig::new();
    c.paths = vec!["/etc".to_string(), "/var".to_string()];
    c.url = Some("http://s:9000".to_string());
    c.rpmdb = "/db".to_string();
    c.interval = 7;
    c.use_vsock = true;
    assert_eq!(file_monitor_config(&c).paths, c.paths);
    assert_eq!(file_monitor_config(&c).clone().paths, c.paths);
    let p = package_monitor_config(&c, None);
    assert_eq!(p.rpmdb, "/db");
    assert_eq!(p.interval, 7);
    assert_eq!(p.url, Some("http://s:9000".to_string()));
    assert_eq!(p.certs, None);
    assert!(p.use_vsock);
    assert!(!p.skip_http);
    c.skip_http = true;
    let p = package_monitor_config(&c, None);
    assert_eq!(p.url, None);
    assert!(p.skip_http);
}

#[test]
fn the_bundle_is_loaded_for_the_package_collector_only() {
    let mut c = FactConfig::new();
    c.certs = Some("/certs".to_string());
    assert_eq!(c.certs_to_load(), Some("/certs".to_string()));
    c.paths = vec!["/etc".to_string()];
    assert_eq!(c.certs_to_load(), None);
    c.enable_package_monitor = true;
    assert_eq!(c.certs_to_load(), Some("/certs".to_string()));
    c.enable_package_monitor = false;
    c.enable_file_monitor = true;
    c.paths.clear();
    assert_eq!(c.certs_to_load(), None);
    c.enable_package_monitor = true;
    c.certs = None;
    assert_eq!(c.certs_to_load(), None);
}
