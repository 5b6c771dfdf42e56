//! The agent's configuration and the rules that complete it.

use vstd::prelude::*;

verus! {

/// The most paths that can be watched.
pub const MAX_PATHS: usize = 16;

/// Package database directory used unless another is given.
pub const DEFAULT_RPMDB: &'static str = "/var/lib/rpm";

/// Seconds between two package scans unless another period is given.
pub const DEFAULT_INTERVAL: u64 = 3600;

/// The guest listener's port unless another is given.
pub const DEFAULT_VSOCK_PORT: u32 = 818;

/// Upstream of the relay unless another is given.
pub const DEFAULT_SENSOR_ENDPOINT: &'static str = "sensor:443";

/// The role the agent takes.
#[derive(Debug, Clone, Copy, PartialEq, Eq, Structural)]
pub enum AgentMode {
    /// Watch file opens on a cluster node.
    FileMonitor,
    /// Scan the packages of a virtual machine.
    VmAgent,
    /// Accept guest connections on the host and relay what they send.
    VsockListener,
    /// Scan packages and accept guests, each as enabled.
    Hybrid,
}

/// What is wrong with a configuration.
#[derive(Debug, Clone, Copy, PartialEq, Eq, Structural)]
pub enum ConfigError {
    /// More than `MAX_PATHS` paths are to be watched.
    TooManyPaths,
    /// The path at this position is longer than a path filter can hold.
    PathTooLong(usize),
}

/// The agent's configuration.
#[derive(Debug, PartialEq, Eq)]
pub struct FactConfig {
    pub mode: AgentMode,
    /// Arm the file collector.
    pub enable_file_monitor: bool,
    /// Arm the package collector.
    pub enable_package_monitor: bool,
    /// The paths to watch.
    pub paths: Vec<String>,
    /// Where reports are sent.
    pub url: Option<String>,
    /// Directory that holds the certificate bundle.
    pub certs: Option<String>,
    /// Send nothing over RPC.
    pub skip_http: bool,
    /// Send over the host-guest transport.
    pub use_vsock: bool,
    /// Directory of the package database.
    pub rpmdb: String,
    /// Seconds between two package scans.
    pub interval: u64,
    /// Port the guest listener binds to.
    pub vsock_port: u32,
    /// Upstream of the relay.
    pub sensor_endpoint: String,
    /// In hybrid mode, accept guests.
    pub enable_vsock_server: bool,
    /// In hybrid mode, scan packages.
    pub enable_vm_agent: bool,
}

/// The parts of the agent that a configuration asks for.
#[derive(Debug, Clone, Copy, PartialEq, Eq, Structural)]
pub struct Roles {
    /// Run the collectors through the registry.
    pub collectors: bool,
    /// Run the package agent of a virtual machine.
    pub vm_agent: bool,
    /// Run the guest listener and its relay.
    pub listener: bool,
}

impl AgentMode {
    /// The parts of the agent that this mode asks for. In hybrid mode the two
    /// switches decide.
    pub open spec fn spec_roles(self, enable_vsock_server: bool, enable_vm_agent: bool) -> Roles {
        match self {
            AgentMode::FileMonitor => Roles { collectors: true, vm_agent: false, listener: false },
            AgentMode::VmAgent => Roles { collectors: false, vm_agent: true, listener: false },
            AgentMode::VsockListener => Roles {
                collectors: false,
                vm_agent: false,
                listener: true,
            },
            AgentMode::Hybrid => Roles {
                collectors: false,
                vm_agent: enable_vm_agent,
                listener: enable_vsock_server,
            },
        }
    }
}

impl FactConfig {
    /// No flag asks for a collector.
    pub open spec fn no_collector_chosen(&self) -> bool {
        !self.enable_file_monitor && !self.enable_package_monitor
    }

    /// The file collector is armed once the configuration is completed: by
    /// its flag, or, when no flag is set, by there being paths to watch.
    pub open spec fn arms_file_monitor(&self) -> bool {
        if self.no_collector_chosen() {
            self.paths@.len() > 0
        } else {
            self.enable_file_monitor
        }
    }

    /// The package collector is armed once the configuration is completed:
    /// by its flag, or, when no flag is set, by there being no path to watch.
    pub open spec fn arms_package_monitor(&self) -> bool {
        if self.no_collector_chosen() {
            self.paths@.len() == 0
        } else {
            self.enable_package_monitor
        }
    }

    /// The URL to send reports to: the configured one, unless RPC is
    /// switched off.
    pub open spec fn effective_url(&self) -> Option<String> {
        if self.skip_http {
            None
        } else {
            self.url
        }
    }

    /// The bundle directory that the collectors need loaded before they are
    /// set up: the configured one where the package collector is armed. The
    /// file collector uses no bundle.
    pub open spec fn collector_certs(&self) -> Option<String> {
        if self.arms_package_monitor() {
            self.certs
        } else {
            None
        }
    }

    /// The configuration with every option at its default.
    pub fn new() -> (r: Self)
        ensures
            r.mode == AgentMode::FileMonitor,
            !r.enable_file_monitor,
            !r.enable_package_monitor,
            r.paths@.len() == 0,
            r.url is None,
            r.certs is None,
            !r.skip_http,
            !r.use_vsock,
            r.rpmdb@ == DEFAULT_RPMDB@,
            r.interval == DEFAULT_INTERVAL,
            r.vsock_port == DEFAULT_VSOCK_PORT,
            r.sensor_endpoint@ == DEFAULT_SENSOR_ENDPOINT@,
            !r.enable_vsock_server,
            !r.enable_vm_agent,
    {
        FactConfig {
            mode: AgentMode::FileMonitor,
            enable_file_monitor: false,
            enable_package_monitor: false,
            paths: Vec::new(),
            url: None,
            certs: None,
            skip_http: false,
            use_vsock: false,
            rpmdb: DEFAULT_RPMDB.to_owned(),
            interval: DEFAULT_INTERVAL,
            vsock_port: DEFAULT_VSOCK_PORT,
            sensor_endpoint: DEFAULT_SENSOR_ENDPOINT.to_owned(),
            enable_vsock_server: false,
            enable_vm_agent: false,
        }
    }

    /// Completes the configuration: when no flag chooses a collector, the
    /// file collector is armed if there are paths to watch, and the package
    /// collector if there are none. Everything else stays as it is.
    pub fn with_defaults(self) -> (r: Self)
        ensures
            r == (FactConfig {
                enable_file_monitor: self.arms_file_monitor(),
                enable_package_monitor: self.arms_package_monitor(),
                ..self
            }),
    {
        let mut c = self;
        if !c.enable_file_monitor && !c.enable_package_monitor {
            if c.paths.len() == 0 {
                c.enable_package_monitor = true;
            } else {
                c.enable_file_monitor = true;
            }
        }
        c
    }

    /// Checks what can be checked before anything is started.
    pub fn validate(&self) -> (r: Result<(), ConfigError>)
        ensures
            r is Ok <==> self.paths@.len() <= MAX_PATHS,
            r matches Err(e) ==> e == ConfigError::TooManyPaths,
    {
        if self.paths.len() > MAX_PATHS {
            Err(ConfigError::TooManyPaths)
        } else {
            Ok(())
        }
    }

    /// The parts of the agent to run.
    pub fn roles(&self) -> (r: Roles)
        ensures
            r == self.mode.spec_roles(self.enable_vsock_server, self.enable_vm_agent),
    {
        match self.mode {
            AgentMode::FileMonitor => Roles { collectors: true, vm_agent: false, listener: false },
            AgentMode::VmAgent => Roles { collectors: false, vm_agent: true, listener: false },
            AgentMode::VsockListener => Roles {
                collectors: false,
                vm_agent: false,
                listener: true,
            },
            AgentMode::Hybrid => Roles {
                collectors: false,
                vm_agent: self.enable_vm_agent,
                listener: self.enable_vsock_server,
            },
        }
    }

    /// The bundle directory to load before the collectors are set up, if any.
    pub fn certs_to_load(&self) -> (r: Option<String>)
        ensures
            r == self.collector_certs(),
    {
        let package = if !self.enable_file_monitor && !self.enable_package_monitor {
            self.paths.len() == 0
        } else {
            self.enable_package_monitor
        };
        if package {
            self.certs.clone()
        } else {
            None
        }
    }

    /// The URL to send reports to, if any.
    pub fn report_url(&self) -> (r: Option<String>)
        ensures
            r == self.effective_url(),
    {
        if self.skip_http {
            None
        } else {
            self.url.clone()
        }
    }
}

impl Default for FactConfig {
    fn default() -> (r: Self)
        ensures
            r.mode == AgentMode::FileMonitor,
            r.no_collector_chosen(),
            r.paths@.len() == 0,
            r.url is None,
            r.certs is None,
            !r.skip_http,
            !r.use_vsock,
            r.rpmdb@ == DEFAULT_RPMDB@,
            r.interval == DEFAULT_INTERVAL,
            r.vsock_port == DEFAULT_VSOCK_PORT,
            r.sensor_endpoint@ == DEFAULT_SENSOR_ENDPOINT@,
            !r.enable_vsock_server,
            !r.enable_vm_agent,
    {
        Self::new()
    }
}

impl Clone for FactConfig {
    fn clone(&self) -> (r: Self)
        ensures
            r.mode == self.mode,
            r.enable_file_monitor == self.enable_file_monitor,
            r.enable_package_monitor == self.enable_package_monitor,
            r.paths@ == self.paths@,
            r.url == self.url,
            r.certs == self.certs,
            r.skip_http == self.skip_http,
            r.use_vsock == self.use_vsock,
            r.rpmdb == self.rpmdb,
            r.interval == self.interval,
            r.vsock_port == self.vsock_port,
            r.sensor_endpoint == self.sensor_endpoint,
            r.enable_vsock_server == self.enable_vsock_server,
            r.enable_vm_agent == self.enable_vm_agent,
    {
        FactConfig {
            mode: self.mode,
            enable_file_monitor: self.enable_file_monitor,
            enable_package_monitor: self.enable_package_monitor,
            paths: self.paths.clone(),
            url: self.url.clone(),
            certs: self.certs.clone(),
            skip_http: self.skip_http,
            use_vsock: self.use_vsock,
            rpmdb: self.rpmdb.clone(),
            interval: self.interval,
            vsock_port: self.vsock_port,
            sensor_endpoint: self.sensor_endpoint.clone(),
            enable_vsock_server: self.enable_vsock_server,
            enable_vm_agent: self.enable_vm_agent,
        }
    }
}

/// Default selection: with neither flag set, paths to watch arm the file
/// collector and not the package collector, and no paths arm the package
/// collector and not the file collector.
pub proof fn lemma_default_selection(c: FactConfig)
    requires
        c.no_collector_chosen(),
    ensures
        c.paths@.len() > 0 ==> c.arms_file_monitor() && !c.arms_package_monitor(),
        c.paths@.len() == 0 ==> c.arms_package_monitor() && !c.arms_file_monitor(),
{
}

} // verus!
