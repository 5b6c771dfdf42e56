//! The package agent of a virtual machine: what it scans, the index report
//! it makes of a scan, and where the report goes.

use vstd::prelude::*;
use vstd::utf8::{decode_utf8, valid_utf8};
use crate::certs::Certs;
use crate::config::FactConfig;
use crate::monitor::Transport;
use crate::monitors::package_monitor::{
    package_command, read_scan, spec_command, spec_next, spec_transport, string_views,
    CycleAction, CycleEvent, PackageMonitor,
};
use crate::report::{
    parse_packages, record_views, Distribution, PackageRecord, PackageRecordView, ScanError,
};
use crate::text::{chars_of, chars_to_string, extend_from, join_with};

verus! {

/// Prefix of the hash id of a report that is sent by RPC.
pub const HASH_ID_PREFIX: &'static str = "/v4/vm/";

/// A package as an index report lists it.
#[derive(Debug, PartialEq, Eq)]
pub struct IndexPackage {
    /// `<name>-<version>`.
    pub id: String,
    pub name: String,
    pub version: String,
    pub arch: String,
    /// The platform identifier of the host.
    pub cpe: String,
}

/// What an `IndexPackage` holds.
pub struct IndexPackageView {
    pub id: Seq<char>,
    pub name: Seq<char>,
    pub version: Seq<char>,
    pub arch: Seq<char>,
    pub cpe: Seq<char>,
}

impl View for IndexPackage {
    type V = IndexPackageView;

    open spec fn view(&self) -> IndexPackageView {
        IndexPackageView {
            id: self.id@,
            name: self.name@,
            version: self.version@,
            arch: self.arch@,
            cpe: self.cpe@,
        }
    }
}

/// The index report of one scan.
#[derive(Debug, PartialEq, Eq)]
pub struct IndexReport {
    /// The identifier of the machine the report is about.
    pub vsock_cid: String,
    /// The report's hash id; empty on a report that travels by the
    /// host-guest transport.
    pub hash_id: String,
    pub success: bool,
    pub packages: Vec<IndexPackage>,
    pub distributions: Vec<Distribution>,
}

/// Why the agent's cycle failed.
#[derive(Debug, Clone, Copy, PartialEq, Eq, Structural)]
pub enum AgentError {
    /// The host-guest transport was asked for and is not there when the
    /// agent is set up.
    VsockUnavailable,
    /// The scan failed.
    Scan(ScanError),
}

/// What the agent's host has to do with the report of a cycle.
#[derive(Debug, PartialEq, Eq)]
pub enum AgentSend {
    /// Encode the report, frame it and send it over the host-guest transport.
    Vsock(IndexReport),
    /// Upsert the report by RPC at `url`.
    Grpc { url: String, report: IndexReport },
    /// Nothing: no destination is configured.
    Nothing,
}

/// The package agent of a virtual machine.
#[derive(Debug, PartialEq, Eq)]
pub struct VmAgent {
    /// Where reports are sent by RPC, if anywhere.
    pub url: Option<String>,
    /// Directory of the package database.
    pub rpmdb: String,
    /// The certificate bundle for RPC, if any.
    pub certs: Option<Certs>,
    /// Send over the host-guest transport.
    pub use_vsock: bool,
    /// Seconds between two scans.
    pub interval: u64,
}

/// The package that the record `r` is listed as, on a host whose platform
/// identifier is `cpe`.
pub open spec fn index_package_of(r: PackageRecordView, cpe: Seq<char>) -> IndexPackageView {
    IndexPackageView {
        id: r.name + seq!['-'] + r.version,
        name: r.name,
        version: r.version,
        arch: r.architecture,
        cpe,
    }
}

/// The views of the packages of `v`.
pub open spec fn index_views(v: Seq<IndexPackage>) -> Seq<IndexPackageView> {
    Seq::new(v.len(), |i: int| v[i]@)
}

/// The packages that `records` are listed as.
pub open spec fn index_packages_of(records: Seq<PackageRecordView>, cpe: Seq<char>) -> Seq<
    IndexPackageView,
> {
    Seq::new(records.len(), |i: int| index_package_of(records[i], cpe))
}

/// The hash id of a report about `hostname`: with the prefix on a report
/// bound for RPC, empty otherwise.
pub open spec fn spec_hash_id(hostname: Seq<char>, rpc: bool) -> Seq<char> {
    if rpc {
        HASH_ID_PREFIX@ + hostname
    } else {
        Seq::empty()
    }
}

/// Lists `record` as a package of an index report.
pub fn index_package(record: &PackageRecord, cpe: &str) -> (r: IndexPackage)
    ensures
        r@ == index_package_of(record@, cpe@),
{
    let name = chars_of(record.name.as_str());
    let version = chars_of(record.version.as_str());
    let id = join_with(name.as_slice(), '-', version.as_slice());
    IndexPackage {
        id: chars_to_string(id.as_slice()),
        name: record.name.clone(),
        version: record.version.clone(),
        arch: record.architecture.clone(),
        cpe: cpe.to_owned(),
    }
}

/// Lists `records` as the packages of an index report, in order.
pub fn index_packages(records: &Vec<PackageRecord>, cpe: &str) -> (r: Vec<IndexPackage>)
    ensures
        index_views(r@) == index_packages_of(record_views(records@), cpe@),
{
    let mut out: Vec<IndexPackage> = Vec::new();
    let mut i: usize = 0;
    while i < records.len()
        invariant
            i <= records@.len(),
            out@.len() == i,
            forall|j: int| 0 <= j < i ==> (#[trigger] out@[j])@ == index_package_of(
                records@[j]@,
                cpe@,
            ),
        decreases records@.len() - i,
    {
        out.push(index_package(&records[i], cpe));
        i += 1;
    }
    assert(index_views(out@) =~= index_packages_of(record_views(records@), cpe@));
    out
}

/// Makes the index report of a scan on the host `hostname`: successful,
/// about `hostname`, with the one distribution, and with a hash id where the
/// report is bound for RPC.
pub fn index_report(
    hostname: &str,
    packages: Vec<IndexPackage>,
    distribution: Distribution,
    rpc: bool,
) -> (r: IndexReport)
    ensures
        r.vsock_cid@ == hostname@,
        r.hash_id@ == spec_hash_id(hostname@, rpc),
        r.success,
        r.packages == packages,
        r.distributions@ == seq![distribution],
{
    let hash_id = if rpc {
        let mut id = chars_of(HASH_ID_PREFIX);
        let host = chars_of(hostname);
        extend_from(&mut id, host.as_slice());
        chars_to_string(id.as_slice())
    } else {
        String::new()
    };
    let mut distributions: Vec<Distribution> = Vec::new();
    distributions.push(distribution);
    IndexReport { vsock_cid: hostname.to_owned(), hash_id, success: true, packages, distributions }
}

/// The report that the relay's self-test sends: successful, about `vm_id`,
/// and empty.
pub fn test_report(vm_id: &str) -> (r: IndexReport)
    ensures
        r.vsock_cid@ == vm_id@,
        r.hash_id@ == Seq::<char>::empty(),
        r.success,
        r.packages@.len() == 0,
        r.distributions@.len() == 0,
{
    IndexReport {
        vsock_cid: vm_id.to_owned(),
        hash_id: String::new(),
        success: true,
        packages: Vec::new(),
        distributions: Vec::new(),
    }
}

impl VmAgent {
    /// The agent that `cfg` asks for, with the bundle loaded for it. Reports
    /// go by RPC only where RPC is not switched off.
    pub fn from_config(cfg: &FactConfig, certs: Option<Certs>) -> (r: Self)
        ensures
            r.url == cfg.effective_url(),
            r.rpmdb@ == cfg.rpmdb@,
            r.certs == certs,
            r.use_vsock == cfg.use_vsock,
            r.interval == cfg.interval,
    {
        VmAgent {
            url: cfg.report_url(),
            rpmdb: cfg.rpmdb.clone(),
            certs,
            use_vsock: cfg.use_vsock,
            interval: cfg.interval,
        }
    }

    /// The command the agent has the host run for each scan.
    pub fn command(&self) -> (r: Vec<String>)
        ensures
            string_views(r@) == spec_command(self.rpmdb@),
    {
        package_command(self.rpmdb.as_str())
    }

    /// Checks at start that the transport asked for is there, and says how
    /// reports will travel.
    pub fn transport(&self, vsock_available: bool) -> (r: Result<Transport, AgentError>)
        ensures
            self.use_vsock && !vsock_available ==> r == Err::<Transport, AgentError>(
                AgentError::VsockUnavailable,
            ),
            !(self.use_vsock && !vsock_available) ==> r == Ok::<Transport, AgentError>(
                spec_transport(self.use_vsock, self.url),
            ),
    {
        if self.use_vsock {
            if !vsock_available {
                Err(AgentError::VsockUnavailable)
            } else {
                Ok(Transport::Vsock)
            }
        } else {
            match &self.url {
                Some(u) => Ok(Transport::Grpc(u.clone())),
                None => Ok(Transport::LocalOnly),
            }
        }
    }

    /// One cycle, from the outcome of running the package tool to what is to
    /// be sent where. The scan must succeed; then the report goes over the
    /// host-guest transport, without a hash id, where that is asked for and
    /// there; else by RPC, with a hash id, where a URL is set; else nothing
    /// is sent.
    pub fn run(
        &self,
        hostname: &str,
        output: &Option<Vec<u8>>,
        cpe: &str,
        distribution: Distribution,
        vsock_available: bool,
    ) -> (r: Result<AgentSend, AgentError>)
        ensures
            match *output {
                None => r == Err::<AgentSend, AgentError>(
                    AgentError::Scan(ScanError::CommandFailed),
                ),
                Some(bytes) => if !valid_utf8(bytes@) {
                    r == Err::<AgentSend, AgentError>(AgentError::Scan(ScanError::NotUtf8))
                } else if self.use_vsock && vsock_available {
                    r matches Ok(AgentSend::Vsock(report)) && self.reports(
                        report,
                        hostname@,
                        decode_utf8(bytes@),
                        cpe@,
                        distribution,
                        false,
                    )
                } else if self.url is Some {
                    r matches Ok(AgentSend::Grpc { url, report }) && url == self.url->0
                        && self.reports(
                        report,
                        hostname@,
                        decode_utf8(bytes@),
                        cpe@,
                        distribution,
                        true,
                    )
                } else {
                    r matches Ok(AgentSend::Nothing)
                },
            },
    {
        let records = match read_scan(output) {
            Ok(v) => v,
            Err(e) => {
                return Err(AgentError::Scan(e));
            },
        };
        if self.use_vsock && vsock_available {
            let packages = index_packages(&records, cpe);
            Ok(AgentSend::Vsock(index_report(hostname, packages, distribution, false)))
        } else {
            match &self.url {
                Some(u) => {
                    let packages = index_packages(&records, cpe);
                    Ok(
                        AgentSend::Grpc {
                            url: u.clone(),
                            report: index_report(hostname, packages, distribution, true),
                        },
                    )
                },
                None => Ok(AgentSend::Nothing),
            }
        }
    }

    /// `report` is the index report of the tool output `text` on the host
    /// `hostname`.
    pub open spec fn reports(
        &self,
        report: IndexReport,
        hostname: Seq<char>,
        text: Seq<char>,
        cpe: Seq<char>,
        distribution: Distribution,
        rpc: bool,
    ) -> bool {
        &&& report.vsock_cid@ == hostname
        &&& report.hash_id@ == spec_hash_id(hostname, rpc)
        &&& report.success
        &&& index_views(report.packages@) == index_packages_of(parse_packages(text), cpe)
        &&& report.distributions@ == seq![distribution]
    }

    /// The agent's loop, which is the package collector's: a cycle runs at
    /// once after the start and at every tick; a cycle that fails is passed
    /// over; an interrupt ends the agent.
    pub fn next(event: CycleEvent) -> (a: CycleAction)
        ensures
            a == spec_next(event),
    {
        PackageMonitor::next(event)
    }
}

/// Sets the agent up: the agent that `config` asks for, and how its reports
/// will travel. It fails where the host-guest transport is asked for and is
/// not there.
pub fn run_vm_agent(config: &FactConfig, certs: Option<Certs>, vsock_available: bool) -> (r:
    Result<(VmAgent, Transport), AgentError>)
    ensures
        config.use_vsock && !vsock_available ==> r == Err::<(VmAgent, Transport), AgentError>(
            AgentError::VsockUnavailable,
        ),
        !(config.use_vsock && !vsock_available) ==> (r matches Ok((agent, transport))
            && agent.url == config.effective_url() && agent.rpmdb@ == config.rpmdb@ && agent.certs
            == certs && agent.use_vsock == config.use_vsock && agent.interval == config.interval
            && transport == spec_transport(config.use_vsock, config.effective_url())),
{
    let agent = VmAgent::from_config(config, certs);
    match agent.transport(vsock_available) {
        Ok(t) => Ok((agent, t)),
        Err(e) => Err(e),
    }
}

} // verus!
