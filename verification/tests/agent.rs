use fact::certs::{CertError, CertFile, Certs, CA_FILE, CERT_FILE, KEY_FILE};
use fact::client::{
    client_plan, user_agent, ClientPlan, Service, TlsPlan, COLLECTOR_USER_AGENT,
    RELAY_USER_AGENT, TLS_SERVER_NAME, USER_AGENT_HEADER,
};
use fact::config::FactConfig;
use fact::host_info::create_distribution;
use fact::monitor::Transport;
use fact::report::{PackageRecord, ScanError};
use fact::monitors::package_monitor::{CycleAction, CycleEvent};
use fact::sensor_relay::{ForwardOutcome, RelayAction, RelayEvent, RelayPhase, SensorRelay};
use fact::vm_agent::{
    index_package, index_packages, index_report, run_vm_agent, test_report, AgentError,
    AgentSend, IndexPackage, VmAgent, HASH_ID_PREFIX,
};
use fact::vsock::VmMessage;

fn bundle() -> Certs {
    Certs { ca: "CA".to_string(), cert: "CERT".to_string(), key: "KEY".to_string() }
}

fn message(data: &[u8]) -> VmMessage {
    VmMessage { vm_id: "vm-1".to_string(), data: data.to_vec() }
}

#[test]
fn bundle_needs_all_three_files() {
    assert_eq!(CA_FILE, "ca.pem");
    assert_eq!(CERT_FILE, "cert.pem");
    assert_eq!(KEY_FILE, "key.pem");
    let ca = Some(b"CA".to_vec());
    let cert = Some(b"CERT".to_vec());
    let key = Some(b"KEY".to_vec());
    assert_eq!(Certs::from_files(ca.clone(), cert.clone(), key.clone()), Ok(bundle()));
    assert_eq!(Certs::from_files(None, cert.clone(), key.clone()), Err(CertError::Missing(CertFile::Ca)));
    assert_eq!(Certs::from_files(ca.clone(), None, key.clone()), Err(CertError::Missing(CertFile::Cert)));
    assert_eq!(Certs::from_files(ca.clone(), cert.clone(), None), Err(CertError::Missing(CertFile::Key)));
    assert_eq!(Certs::from_files(None, None, None), Err(CertError::Missing(CertFile::Ca)));
    assert_eq!(bundle().clone(), bundle());
}

#[test]
fn bundle_files_must_hold_text() {
    let bad = Some(vec![0xFFu8]);
    let ok = Some(b"PEM".to_vec());
    assert_eq!(Certs::from_files(bad.clone(), ok.clone(), ok.clone()), Err(CertError::Unparseable(CertFile::Ca)));
    assert_eq!(Certs::from_files(ok.clone(), bad.clone(), ok.clone()), Err(CertError::Unparseable(CertFile::Cert)));
    assert_eq!(Certs::from_files(ok.clone(), ok.clone(), bad.clone()), Err(CertError::Unparseable(CertFile::Key)));
    assert_eq!(Certs::from_files(ok.clone(), bad.clone(), None), Err(CertError::Unparseable(CertFile::Cert)));
    assert_eq!(Certs::from_files(ok, None, bad), Err(CertError::Missing(CertFile::Cert)));
}

#[test]
fn client_without_a_bundle_is_plain() {
    assert_eq!(TLS_SERVER_NAME, "sensor.stackrox.svc");
    assert_eq!(USER_AGENT_HEADER, "user-agent");
    assert_eq!(COLLECTOR_USER_AGENT, "Rox Admission Controller");
    assert_eq!(RELAY_USER_AGENT, "StackRox Fact VM Relay");
    assert_eq!(user_agent(false), "Rox Admission Controller");
    assert_eq!(user_agent(true), "StackRox Fact VM Relay");
    assert_eq!(
        client_plan(Service::VirtualMachine, "http://s:9000", &None, false),
        ClientPlan {
            service: Service::VirtualMachine,
            url: "http://s:9000".to_string(),
            tls: None,
            user_agent: "Rox Admission Controller".to_string(),
        }
    );
}

#[test]
fn client_with_a_bundle_uses_tls_with_the_fixed_server_name() {
    assert_eq!(
        client_plan(Service::IndexReport, "https://sensor:443", &Some(bundle()), true),
        ClientPlan {
            service: Service::IndexReport,
            url: "https://sensor:443".to_string(),
            tls: Some(TlsPlan {
                domain_name: "sensor.stackrox.svc".to_string(),
                ca: "CA".to_string(),
                cert: "CERT".to_string(),
                key: "KEY".to_string(),
            }),
            user_agent: "StackRox Fact VM Relay".to_string(),
        }
    );
}

#[test]
fn relay_connects_then_forwards_each_payload_once() {
    let mut relay = SensorRelay::new("sensor:443".to_string(), Some(bundle()));
    assert_eq!(relay.phase(), RelayPhase::Idle);
    let plan = relay.connect();
    assert_eq!(plan.service, Service::IndexReport);
    assert_eq!(plan.url, "sensor:443");
    assert_eq!(plan.user_agent, "StackRox Fact VM Relay");
    assert_eq!(plan.tls.unwrap().domain_name, "sensor.stackrox.svc");

    assert_eq!(relay.step(RelayEvent::Begin), RelayAction::Connect);
    assert_eq!(relay.phase(), RelayPhase::Connecting);
    assert_eq!(relay.step(RelayEvent::Connected(true)), RelayAction::Receive);
    assert_eq!(relay.step(RelayEvent::Message(message(b"one"))), RelayAction::Forward(message(b"one")));
    assert_eq!(relay.phase(), RelayPhase::Forwarding);
    assert_eq!(relay.step(RelayEvent::Forwarded(ForwardOutcome::Sent)), RelayAction::Receive);
    assert_eq!(relay.step(RelayEvent::Message(message(b"two"))), RelayAction::Forward(message(b"two")));
    assert_eq!(relay.step(RelayEvent::Forwarded(ForwardOutcome::Sent)), RelayAction::Receive);
    assert_eq!(relay.step(RelayEvent::Shutdown), RelayAction::Exit(true));
    assert_eq!(relay.phase(), RelayPhase::Stopped);
}

#[test]
fn relay_reconnects_once_after_a_failure_and_goes_on() {
    let mut relay = SensorRelay::new("sensor:443".to_string(), None);
    assert!(relay.connect().tls.is_none());
    relay.step(RelayEvent::Begin);
    relay.step(RelayEvent::Connected(true));
    relay.step(RelayEvent::Message(message(b"one")));
    assert_eq!(relay.step(RelayEvent::Forwarded(ForwardOutcome::RpcFailed)), RelayAction::Connect);
    assert_eq!(relay.phase(), RelayPhase::Reconnecting);
    assert_eq!(relay.step(RelayEvent::Connected(false)), RelayAction::Receive);
    assert_eq!(relay.phase(), RelayPhase::Receiving);
    relay.step(RelayEvent::Message(message(b"two")));
    assert_eq!(relay.step(RelayEvent::Forwarded(ForwardOutcome::RpcFailed)), RelayAction::Connect);
    assert_eq!(relay.step(RelayEvent::Connected(true)), RelayAction::Receive);
    assert_eq!(relay.step(RelayEvent::QueueClosed), RelayAction::Exit(true));
}

#[test]
fn relay_gives_up_when_the_first_connection_fails() {
    let mut relay = SensorRelay::new("sensor:443".to_string(), None);
    relay.step(RelayEvent::Begin);
    assert_eq!(relay.step(RelayEvent::Connected(false)), RelayAction::Exit(false));
    assert_eq!(relay.phase(), RelayPhase::Stopped);
    assert_eq!(relay.step(RelayEvent::Begin), RelayAction::Ignored);
}

#[test]
fn relay_ignores_events_out_of_turn() {
    let mut relay = SensorRelay::new("sensor:443".to_string(), None);
    assert_eq!(relay.step(RelayEvent::Shutdown), RelayAction::Ignored);
    assert_eq!(relay.step(RelayEvent::Message(message(b"x"))), RelayAction::Ignored);
    assert_eq!(relay.step(RelayEvent::Connected(true)), RelayAction::Ignored);
    assert_eq!(relay.phase(), RelayPhase::Idle);
    relay.step(RelayEvent::Begin);
    assert_eq!(relay.step(RelayEvent::Forwarded(ForwardOutcome::Sent)), RelayAction::Ignored);
    assert_eq!(relay.step(RelayEvent::QueueClosed), RelayAction::Ignored);
    assert_eq!(relay.phase(), RelayPhase::Connecting);
    relay.step(RelayEvent::Connected(true));
    relay.step(RelayEvent::Message(message(b"x")));
    assert_eq!(relay.step(RelayEvent::Message(message(b"y"))), RelayAction::Ignored);
    assert_eq!(relay.step(RelayEvent::Shutdown), RelayAction::Ignored);
    assert_eq!(relay.phase(), RelayPhase::Forwarding);
}

#[test]
fn index_packages_carry_an_id_and_the_platform() {
    let r = PackageRecord { name: "bash".to_string(), version: "5.2.15-1.fc39".to_string(), architecture: "x86_64".to_string() };
    let expected = IndexPackage {
        id: "bash-5.2.15-1.fc39".to_string(),
        name: "bash".to_string(),
        version: "5.2.15-1.fc39".to_string(),
        arch: "x86_64".to_string(),
        cpe: "cpe:/o:fedoraproject:fedora:39".to_string(),
    };
    assert_eq!(index_package(&r, "cpe:/o:fedoraproject:fedora:39"), expected);
    assert_eq!(index_packages(&vec![r.clone(), r], "cpe:/o:fedoraproject:fedora:39"), vec![
        IndexPackage { ..index_package(&PackageRecord { name: "bash".to_string(), version: "5.2.15-1.fc39".to_string(), architecture: "x86_64".to_string() }, "cpe:/o:fedoraproject:fedora:39") },
        expected,
    ]);
    assert!(index_packages(&vec![], "").is_empty());
}

#[test]
fn index_report_has_a_hash_id_only_when_bound_for_rpc() {
    let d = create_distribution(&None, "x86_64");
    let rpc = index_report("node-1", vec![], d.clone(), true);
    assert_eq!(HASH_ID_PREFIX, "/v4/vm/");
    assert_eq!(rpc.hash_id, "/v4/vm/node-1");
    assert_eq!(rpc.vsock_cid, "node-1");
    assert!(rpc.success);
    assert!(rpc.packages.is_empty());
    assert_eq!(rpc.distributions, vec![d.clone()]);
    let guest = index_report("node-1", vec![], d, false);
    assert_eq!(guest.hash_id, "");
    assert_eq!(guest.vsock_cid, "node-1");
    let t = test_report("vm-5");
    assert_eq!(t.vsock_cid, "vm-5");
    assert_eq!(t.hash_id, "");
    assert!(t.success);
    assert!(t.packages.is_empty());
    assert!(t.distributions.is_empty());
}

#[test]
fn agent_is_made_from_the_configuration() {
    let mut c = FactConfig::new();
    c.url = Some("http://s:9000".to_string());
    c.rpmdb = "/db".to_string();
    c.interval = 9;
    let agent = VmAgent::from_config(&c, Some(bundle()));
    assert_eq!(agent.url, Some("http://s:9000".to_string()));
    assert_eq!(agent.rpmdb, "/db");
    assert_eq!(agent.certs, Some(bundle()));
    assert!(!agent.use_vsock);
    assert_eq!(agent.interval, 9);
    assert_eq!(agent.command()[2], "/db");
    assert_eq!(agent.command().len(), 6);
    c.skip_http = true;
    assert_eq!(VmAgent::from_config(&c, None).url, None);
}

#[test]
fn agent_refuses_to_start_without_the_transport_it_was_asked_for() {
    let mut c = FactConfig::new();
    c.use_vsock = true;
    assert_eq!(run_vm_agent(&c, None, false), Err(AgentError::VsockUnavailable));
    let (agent, transport) = run_vm_agent(&c, None, true).unwrap();
    assert!(agent.use_vsock);
    assert_eq!(transport, Transport::Vsock);
    assert_eq!(agent.transport(false), Err(AgentError::VsockUnavailable));

    c.use_vsock = false;
    assert_eq!(run_vm_agent(&c, None, false).unwrap().1, Transport::LocalOnly);
    c.url = Some("http://s:9000".to_string());
    assert_eq!(run_vm_agent(&c, None, false).unwrap().1, Transport::Grpc("http://s:9000".to_string()));
}

#[test]
fn agent_cycle_builds_the_report_for_its_transport() {
    let mut c = FactConfig::new();
    c.url = Some("http://s:9000".to_string());
    let agent = VmAgent::from_config(&c, None);
    let d = create_distribution(&None, "x86_64");
    let output = Some(b"bash|5.2.15|1.fc39|x86_64\nbroken line\n".to_vec());
    match agent.run("node-1", &output, "cpe:x", d.clone(), false) {
        Ok(AgentSend::Grpc { url, report }) => {
            assert_eq!(url, "http://s:9000");
            assert_eq!(report.hash_id, "/v4/vm/node-1");
            assert_eq!(report.vsock_cid, "node-1");
            assert!(report.success);
            assert_eq!(report.packages.len(), 1);
            assert_eq!(report.packages[0].id, "bash-5.2.15-1.fc39");
            assert_eq!(report.packages[0].cpe, "cpe:x");
            assert_eq!(report.distributions, vec![d.clone()]);
        }
        other => panic!("unexpected outcome {:?}", other),
    }

    c.use_vsock = true;
    let agent = VmAgent::from_config(&c, None);
    match agent.run("node-1", &output, "cpe:x", d.clone(), true) {
        Ok(AgentSend::Vsock(report)) => {
            assert_eq!(report.hash_id, "");
            assert_eq!(report.packages.len(), 1);
        }
        other => panic!("unexpected outcome {:?}", other),
    }
    match agent.run("node-1", &output, "cpe:x", d.clone(), false) {
        Ok(AgentSend::Grpc { url, report }) => {
            assert_eq!(url, "http://s:9000");
            assert_eq!(report.hash_id, "/v4/vm/node-1");
        }
        other => panic!("unexpected outcome {:?}", other),
    }
    c.url = None;
    let agent = VmAgent::from_config(&c, None);
    assert_eq!(agent.run("node-1", &output, "cpe:x", d.clone(), false), Ok(AgentSend::Nothing));
    assert_eq!(agent.run("node-1", &None, "cpe:x", d.clone(), true), Err(AgentError::Scan(ScanError::CommandFailed)));
    assert_eq!(agent.run("node-1", &Some(vec![0xFF]), "cpe:x", d.clone(), false), Err(AgentError::Scan(ScanError::NotUtf8)));

    let agent = VmAgent::from_config(&FactConfig::new(), None);
    assert_eq!(agent.run("node-1", &output, "cpe:x", d, false), Ok(AgentSend::Nothing));
}

#[test]
fn agent_loop_runs_at_start_and_at_every_tick() {
    assert_eq!(VmAgent::next(CycleEvent::Started), CycleAction::RunCycle);
    assert_eq!(VmAgent::next(CycleEvent::Tick), CycleAction::RunCycle);
    assert_eq!(VmAgent::next(CycleEvent::CycleDone(true)), CycleAction::Wait);
    assert_eq!(VmAgent::next(CycleEvent::Interrupted), CycleAction::Stop);
}

#[test]
fn agent_goes_on_after_a_cycle_that_failed() {
    assert_eq!(VmAgent::next(CycleEvent::CycleDone(false)), CycleAction::Wait);
    let mut action = VmAgent::next(CycleEvent::Started);
    let mut cycles = 0;
    for event in [
        CycleEvent::CycleDone(true),
        CycleEvent::Tick,
        CycleEvent::CycleDone(false),
        CycleEvent::Tick,
        CycleEvent::CycleDone(false),
        CycleEvent::Tick,
        CycleEvent::CycleDone(true),
    ] {
        if action == CycleAction::RunCycle {
            cycles += 1;
        }
        assert_ne!(action, CycleAction::Stop);
        action = VmAgent::next(event);
    }
    assert_eq!(cycles, 4);
    assert_eq!(action, CycleAction::Wait);
    assert_eq!(VmAgent::next(CycleEvent::Interrupted), CycleAction::Stop);
}

#[test]
fn relay_drops_a_payload_that_is_no_report_and_keeps_its_client() {
    let mut relay = SensorRelay::new("sensor:443".to_string(), None);
    assert_eq!(relay.start(), RelayAction::Connect);
    assert_eq!(relay.step(RelayEvent::Connected(true)), RelayAction::Receive);
    assert_eq!(
        relay.step(RelayEvent::Message(message(&[0xFF, 0xFF, 0xFF]))),
        RelayAction::Forward(message(&[0xFF, 0xFF, 0xFF]))
    );
    assert_eq!(relay.step(RelayEvent::Forwarded(ForwardOutcome::Undecodable)), RelayAction::Receive);
    assert_eq!(relay.phase(), RelayPhase::Receiving);
    assert_eq!(relay.step(RelayEvent::Message(message(b"next"))), RelayAction::Forward(message(b"next")));
    assert_eq!(relay.step(RelayEvent::Forwarded(ForwardOutcome::Sent)), RelayAction::Receive);
}

#[test]
fn relay_starts_once() {
    let mut relay = SensorRelay::new("sensor:443".to_string(), None);
    assert_eq!(relay.start(), RelayAction::Connect);
    assert_eq!(relay.phase(), RelayPhase::Connecting);
    assert_eq!(relay.start(), RelayAction::Ignored);
    assert_eq!(relay.phase(), RelayPhase::Connecting);
}
