//! Telemetry agent core: the decisions, parsers and protocol state machines
//! behind the file-open, package-inventory and guest-relay collectors.

pub mod bpf;
pub mod certs;
pub mod client;
pub mod config;
pub mod event;
pub mod host_info;
pub mod json;
pub mod monitor;
pub mod monitors;
pub mod report;
pub mod sensor_relay;
pub mod text;
pub mod vm_agent;
pub mod vm_watcher;
pub mod vsock;

use vstd::prelude::*;

use certs::Certs;
use config::FactConfig;
use monitor::{AnyMonitor, HostProbe, Monitor, MonitorRegistry, Runner};
use monitors::file_monitor::{FileMonitor, FileMonitorConfig};
use monitors::package_monitor::{PackageMonitor, PackageMonitorConfig};

verus! {

/// The configuration of the file-open collector that `config` asks for.
pub fn file_monitor_config(config: &FactConfig) -> (r: FileMonitorConfig)
    ensures
        r.paths@ == config.paths@,
{
    FileMonitorConfig { paths: config.paths.clone() }
}

/// The configuration of the package collector that `config` asks for, with
/// the bundle loaded for it. Reports go by RPC only where RPC is not
/// switched off.
pub fn package_monitor_config(config: &FactConfig, certs: Option<Certs>) -> (r:
    PackageMonitorConfig)
    ensures
        r.rpmdb@ == config.rpmdb@,
        r.interval == config.interval,
        r.url == config.effective_url(),
        r.certs == certs,
        r.use_vsock == config.use_vsock,
        r.skip_http == config.skip_http,
{
    PackageMonitorConfig {
        rpmdb: config.rpmdb.clone(),
        interval: config.interval,
        url: config.report_url(),
        certs,
        use_vsock: config.use_vsock,
        skip_http: config.skip_http,
    }
}

/// `m` is the file-open collector that `config` asks for, not running.
pub open spec fn is_file_monitor(config: FactConfig, m: AnyMonitor) -> bool {
    m matches AnyMonitor::File(f) && f.config().paths@ == config.paths@ && !f.running()
}

/// `m` is the package collector that `config` asks for, with the bundle
/// `certs`, not running.
pub open spec fn is_package_monitor(config: FactConfig, certs: Option<Certs>, m: AnyMonitor) -> bool {
    m matches AnyMonitor::Package(p) && p.config().rpmdb@ == config.rpmdb@ && p.config().interval
        == config.interval && p.config().url == config.effective_url() && p.config().certs
        == certs && p.config().use_vsock == config.use_vsock && p.config().skip_http
        == config.skip_http && !p.running()
}

/// `monitors` are the collectors that a completed configuration arms, in
/// the order they are started: the file-open collector, then the package
/// collector.
pub open spec fn armed(config: FactConfig, certs: Option<Certs>, monitors: Seq<AnyMonitor>) -> bool {
    if config.enable_file_monitor && config.enable_package_monitor {
        monitors.len() == 2 && is_file_monitor(config, monitors[0]) && is_package_monitor(
            config,
            certs,
            monitors[1],
        )
    } else if config.enable_file_monitor {
        monitors.len() == 1 && is_file_monitor(config, monitors[0])
    } else if config.enable_package_monitor {
        monitors.len() == 1 && is_package_monitor(config, certs, monitors[0])
    } else {
        monitors.len() == 0
    }
}

/// Sets up the run that `config` asks for: the configuration is completed,
/// the collectors it arms are registered, and the run is ready to begin on
/// the host probed as `host`.
pub fn run(config: FactConfig, certs: Option<Certs>, host: HostProbe) -> (r: Runner)
    ensures
        armed(
            (FactConfig {
                enable_file_monitor: config.arms_file_monitor(),
                enable_package_monitor: config.arms_package_monitor(),
                ..config
            }),
            certs,
            r.monitors(),
        ),
        r.host() == host,
        r@.phase == monitor::RunPhase::Idle,
        r@.wf(),
{
    let config = config.with_defaults();
    let mut registry = MonitorRegistry::new();
    if config.enable_file_monitor {
        let m = FileMonitor::new(file_monitor_config(&config));
        registry.register(AnyMonitor::File(m));
    }
    if config.enable_package_monitor {
        let m = PackageMonitor::new(package_monitor_config(&config, certs));
        proof {
            reveal_strlit("file_monitor");
            reveal_strlit("package_monitor");
            assert("file_monitor"@.len() != "package_monitor"@.len());
        }
        let ghost before = registry@;
        let added = registry.register(AnyMonitor::Package(m));
        assert(added) by {
            if !added {
                let names = monitor::names_of(before);
                let j = choose|j: int| 0 <= j < names.len() && names[j] == "package_monitor"@;
                assert(before[j] is File);
            }
        }
    }
    Runner::new(registry, host)
}

} // verus!
