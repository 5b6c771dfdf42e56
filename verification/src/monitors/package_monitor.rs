//! The package collector: which hosts it runs on, the command it has the
//! host run, and what becomes of the command's output.

use vstd::prelude::*;
use vstd::utf8::{decode_utf8, valid_utf8};
use crate::certs::Certs;
use crate::config::ConfigError;
use crate::monitor::{HostProbe, Monitor, StartPlan, Transport};
use crate::report::{
    parse_package_output, parse_packages, record_views, PackageRecord, PackageReport, ScanError,
};

verus! {

/// The package tool.
pub const PACKAGE_TOOL: &'static str = "rpm";

/// The format the package tool is asked to print each package in.
pub const QUERY_FORMAT: &'static str = "%{NAME}|%{VERSION}|%{RELEASE}|%{ARCH}\n";

/// Configuration of the package collector.
#[derive(Debug, PartialEq, Eq)]
pub struct PackageMonitorConfig {
    /// Directory of the package database.
    pub rpmdb: String,
    /// Seconds between two scans.
    pub interval: u64,
    /// Where reports are sent by RPC, if anywhere.
    pub url: Option<String>,
    /// The certificate bundle for RPC, if any.
    pub certs: Option<Certs>,
    /// Send over the host-guest transport.
    pub use_vsock: bool,
    /// RPC was switched off.
    pub skip_http: bool,
}

impl Clone for PackageMonitorConfig {
    fn clone(&self) -> (r: Self)
        ensures
            r == *self,
    {
        PackageMonitorConfig {
            rpmdb: self.rpmdb.clone(),
            interval: self.interval,
            url: self.url.clone(),
            certs: self.certs.clone(),
            use_vsock: self.use_vsock,
            skip_http: self.skip_http,
        }
    }
}

/// The package collector.
pub struct PackageMonitor {
    config: PackageMonitorConfig,
    running: bool,
}

impl Clone for PackageMonitor {
    /// A collector with the same configuration and the same state, for the
    /// task that runs the cycles.
    fn clone(&self) -> (r: Self)
        ensures
            r == *self,
    {
        PackageMonitor { config: self.config.clone(), running: self.running }
    }
}

/// What to do with a report once it is on the event bus.
#[derive(Debug, PartialEq, Eq)]
pub enum Shipment {
    /// Nothing more: the sink is gone.
    SinkClosed,
    /// Frame the encoded report and send it over the host-guest transport.
    Vsock,
    /// Upsert the report by RPC at this URL.
    Grpc(String),
    /// Nothing more: no destination is configured.
    Nowhere,
}

/// What the host reports to the loop that runs the cycles.
#[derive(Debug, Clone, Copy, PartialEq, Eq, Structural)]
pub enum CycleEvent {
    /// The loop was set up.
    Started,
    /// A cycle ended, well or not.
    CycleDone(bool),
    /// The scan period is over.
    Tick,
    /// The process was interrupted.
    Interrupted,
}

/// What the loop that runs the cycles asks of the host.
#[derive(Debug, Clone, Copy, PartialEq, Eq, Structural)]
pub enum CycleAction {
    /// Scan and send, and report how it went.
    RunCycle,
    /// Wait for the period to end or for an interrupt. Ticks that fall into
    /// a cycle count as one.
    Wait,
    /// Leave the loop.
    Stop,
}

/// What the loop does on `event`: a cycle runs at once after the start and
/// at every tick; after a cycle the loop waits, however the cycle went; an
/// interrupt ends the loop.
pub open spec fn spec_next(event: CycleEvent) -> CycleAction {
    match event {
        CycleEvent::Started | CycleEvent::Tick => CycleAction::RunCycle,
        CycleEvent::CycleDone(_) => CycleAction::Wait,
        CycleEvent::Interrupted => CycleAction::Stop,
    }
}

/// The command line that lists the packages of the database at `rpmdb`:
/// the tool first, then its arguments.
pub open spec fn spec_command(rpmdb: Seq<char>) -> Seq<Seq<char>> {
    seq![PACKAGE_TOOL@, "--dbpath"@, rpmdb, "-qa"@, "--qf"@, QUERY_FORMAT@]
}

/// The texts of the strings of `v`.
pub open spec fn string_views(v: Seq<String>) -> Seq<Seq<char>> {
    Seq::new(v.len(), |i: int| v[i]@)
}

/// How the collector is set up to ship its reports: over the host-guest
/// transport where that is asked for, else by RPC where a URL is set. Where
/// each report goes in the end is decided cycle by cycle, by `spec_shipment`.
pub open spec fn spec_transport(use_vsock: bool, url: Option<String>) -> Transport {
    if use_vsock {
        Transport::Vsock
    } else {
        match url {
            Some(u) => Transport::Grpc(u),
            None => Transport::LocalOnly,
        }
    }
}

/// What to do with a report that was put on the event bus: over the
/// host-guest transport where that is asked for and there; else by RPC where
/// a URL is set; else nowhere. A report that the sink did not take goes
/// nowhere either.
pub open spec fn spec_shipment(
    use_vsock: bool,
    url: Option<String>,
    sink_open: bool,
    vsock_available: bool,
) -> Shipment {
    if !sink_open {
        Shipment::SinkClosed
    } else if use_vsock && vsock_available {
        Shipment::Vsock
    } else {
        match url {
            Some(u) => Shipment::Grpc(u),
            None => Shipment::Nowhere,
        }
    }
}

/// The command line that lists the packages of the database at `rpmdb`.
pub fn package_command(rpmdb: &str) -> (r: Vec<String>)
    ensures
        string_views(r@) == spec_command(rpmdb@),
{
    let mut cmd: Vec<String> = Vec::new();
    cmd.push(PACKAGE_TOOL.to_owned());
    cmd.push("--dbpath".to_owned());
    cmd.push(rpmdb.to_owned());
    cmd.push("-qa".to_owned());
    cmd.push("--qf".to_owned());
    cmd.push(QUERY_FORMAT.to_owned());
    assert(string_views(cmd@) =~= spec_command(rpmdb@));
    cmd
}

/// Reads the outcome of running the package tool: its output, or `None` when
/// it could not be run.
pub fn read_scan(output: &Option<Vec<u8>>) -> (r: Result<Vec<PackageRecord>, ScanError>)
    ensures
        match *output {
            None => r == Err::<Vec<PackageRecord>, ScanError>(ScanError::CommandFailed),
            Some(bytes) => if valid_utf8(bytes@) {
                r matches Ok(v) && record_views(v@) == parse_packages(decode_utf8(bytes@))
            } else {
                r == Err::<Vec<PackageRecord>, ScanError>(ScanError::NotUtf8)
            },
        },
{
    match output {
        None => Err(ScanError::CommandFailed),
        Some(bytes) => parse_package_output(bytes.as_slice()),
    }
}

impl PackageMonitor {
    /// A collector for `config`, not running.
    pub fn new(config: PackageMonitorConfig) -> (r: Self)
        ensures
            r.config() == config,
            !r.running(),
    {
        Self { config, running: false }
    }

    /// The configuration the collector was made with.
    pub closed spec fn config(&self) -> PackageMonitorConfig {
        self.config
    }

    /// The command the collector has the host run for each scan.
    pub fn command(&self) -> (r: Vec<String>)
        ensures
            string_views(r@) == spec_command(self.config().rpmdb@),
    {
        package_command(self.config.rpmdb.as_str())
    }

    /// Seconds between two scans.
    pub fn interval(&self) -> (r: u64)
        ensures
            r == self.config().interval,
    {
        self.config.interval
    }

    /// The certificate bundle for RPC, if any.
    pub fn certs(&self) -> (r: &Option<Certs>)
        ensures
            *r == self.config().certs,
    {
        &self.config.certs
    }

    /// How the collector is set up to ship its reports.
    pub fn transport(&self) -> (r: Transport)
        ensures
            r == spec_transport(self.config().use_vsock, self.config().url),
    {
        if self.config.use_vsock {
            Transport::Vsock
        } else {
            match &self.config.url {
                Some(u) => Transport::Grpc(u.clone()),
                None => Transport::LocalOnly,
            }
        }
    }

    /// Turns the outcome of one run of the package tool into the records it
    /// lists. A tool that could not be run and output that is not UTF-8 fail
    /// the scan; lines that list no package are passed over.
    pub fn scan_packages(&self, output: &Option<Vec<u8>>) -> (r: Result<
        Vec<PackageRecord>,
        ScanError,
    >)
        ensures
            match *output {
                None => r == Err::<Vec<PackageRecord>, ScanError>(ScanError::CommandFailed),
                Some(bytes) => if valid_utf8(bytes@) {
                    r matches Ok(v) && record_views(v@) == parse_packages(decode_utf8(bytes@))
                } else {
                    r == Err::<Vec<PackageRecord>, ScanError>(ScanError::NotUtf8)
                },
            },
    {
        read_scan(output)
    }

    /// The first half of a cycle: from the outcome of running the package
    /// tool to the report for the host `host_id`, which goes onto the event
    /// bus.
    pub fn process_packages(&self, host_id: &str, output: &Option<Vec<u8>>) -> (r: Result<
        PackageReport,
        ScanError,
    >)
        ensures
            match *output {
                None => r == Err::<PackageReport, ScanError>(ScanError::CommandFailed),
                Some(bytes) => if valid_utf8(bytes@) {
                    r matches Ok(report) && report.id@ == host_id@ && report.distribution is None
                        && record_views(report.components@) == parse_packages(
                        decode_utf8(bytes@),
                    )
                } else {
                    r == Err::<PackageReport, ScanError>(ScanError::NotUtf8)
                },
            },
    {
        match self.scan_packages(output) {
            Ok(pkgs) => Ok(PackageReport::new(host_id, pkgs)),
            Err(e) => Err(e),
        }
    }

    /// The second half of a cycle: where the report goes once it was put on
    /// the event bus, given whether the sink took it and whether the
    /// host-guest transport is there at this moment.
    pub fn shipment(&self, sink_open: bool, vsock_available: bool) -> (r: Shipment)
        ensures
            r == spec_shipment(
                self.config().use_vsock,
                self.config().url,
                sink_open,
                vsock_available,
            ),
    {
        if !sink_open {
            Shipment::SinkClosed
        } else if self.config.use_vsock && vsock_available {
            Shipment::Vsock
        } else {
            match &self.config.url {
                Some(u) => Shipment::Grpc(u.clone()),
                None => Shipment::Nowhere,
            }
        }
    }

    /// The loop that runs the cycles: what to do on `event`. A cycle that
    /// fails is passed over and the loop goes on.
    pub fn next(event: CycleEvent) -> (a: CycleAction)
        ensures
            a == spec_next(event),
    {
        match event {
            CycleEvent::Started => CycleAction::RunCycle,
            CycleEvent::Tick => CycleAction::RunCycle,
            CycleEvent::CycleDone(_) => CycleAction::Wait,
            CycleEvent::Interrupted => CycleAction::Stop,
        }
    }
}

impl Monitor for PackageMonitor {
    open spec fn spec_name(&self) -> Seq<char> {
        "package_monitor"@
    }

    open spec fn spec_description(&self) -> Seq<char> {
        "Periodically scans RPM database for installed packages"@
    }

    closed spec fn running(&self) -> bool {
        self.running
    }

    /// The package tool, its database, and the host-guest transport where
    /// it is asked for.
    open spec fn capable(&self, host: HostProbe) -> bool {
        host.rpm_found && host.rpmdb_exists && (self.config().use_vsock ==> host.vsock_available)
    }

    open spec fn same_settings(&self, other: &Self) -> bool {
        self.config() == other.config()
    }

    open spec fn startable(&self) -> bool {
        true
    }

    /// The plan of a stopped collector is the scanner with the collector's
    /// command, interval and transport.
    open spec fn plans(&self, r: Result<StartPlan, ConfigError>) -> bool {
        if self.running() {
            r matches Ok(StartPlan::Nothing)
        } else {
            r matches Ok(StartPlan::Scanner { command, interval, transport }) && string_views(
                command@,
            ) == spec_command(self.config().rpmdb@) && interval == self.config().interval
                && transport == spec_transport(self.config().use_vsock, self.config().url)
        }
    }

    fn name(&self) -> (r: &'static str) {
        "package_monitor"
    }

    fn description(&self) -> (r: &'static str) {
        "Periodically scans RPM database for installed packages"
    }

    fn can_run(&self, host: &HostProbe) -> (r: bool) {
        host.rpm_found && host.rpmdb_exists && (!self.config.use_vsock || host.vsock_available)
    }

    fn start(&self) -> (r: Result<StartPlan, ConfigError>) {
        if self.running {
            return Ok(StartPlan::Nothing);
        }
        Ok(
            StartPlan::Scanner {
                command: self.command(),
                interval: self.config.interval,
                transport: self.transport(),
            },
        )
    }

    fn mark_started(&mut self)
        ensures
            final(self).config() == old(self).config(),
    {
        self.running = true;
    }

    fn stop(&mut self)
        ensures
            final(self).config() == old(self).config(),
    {
        self.running = false;
    }

    fn is_running(&self) -> (r: bool) {
        self.running
    }
}

} // verus!
