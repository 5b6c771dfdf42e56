//! How a client of the sensor is set up: the services, the name expected of
//! the server, and the user agent each caller announces.

use vstd::prelude::*;
use crate::certs::Certs;

verus! {

/// The name the sensor's certificate must carry when TLS is used.
pub const TLS_SERVER_NAME: &'static str = "sensor.stackrox.svc";

/// Metadata key under which the user agent travels.
pub const USER_AGENT_HEADER: &'static str = "user-agent";

/// User agent of the package collector and of the package agent.
pub const COLLECTOR_USER_AGENT: &'static str = "Rox Admission Controller";

/// User agent of the relay.
pub const RELAY_USER_AGENT: &'static str = "StackRox Fact VM Relay";

/// The services of the sensor that the agent calls.
#[derive(Debug, Clone, Copy, PartialEq, Eq, Structural)]
pub enum Service {
    /// Upsert of a virtual machine with its scan.
    VirtualMachine,
    /// Upsert of a virtual machine's index report.
    IndexReport,
}

/// TLS settings of a channel.
#[derive(Debug, PartialEq, Eq)]
pub struct TlsPlan {
    /// The name to expect of the server.
    pub domain_name: String,
    /// The CA certificate that verifies the server.
    pub ca: String,
    /// The client certificate.
    pub cert: String,
    /// The client key.
    pub key: String,
}

/// Everything needed to open a channel to the sensor and call a service on it.
#[derive(Debug, PartialEq, Eq)]
pub struct ClientPlan {
    pub service: Service,
    pub url: String,
    /// TLS settings, or `None` for a plain channel.
    pub tls: Option<TlsPlan>,
    /// The user agent that every request carries.
    pub user_agent: String,
}

/// The user agent a caller of `service` announces.
pub open spec fn spec_user_agent(relay: bool) -> Seq<char> {
    if relay {
        RELAY_USER_AGENT@
    } else {
        COLLECTOR_USER_AGENT@
    }
}

/// The user agent of the relay, or of the collectors.
pub fn user_agent(relay: bool) -> (r: &'static str)
    ensures
        r@ == spec_user_agent(relay),
{
    if relay {
        RELAY_USER_AGENT
    } else {
        COLLECTOR_USER_AGENT
    }
}

/// Plans a client: a plain channel without a bundle; with one, TLS that
/// expects `TLS_SERVER_NAME`, verifies by the bundle's CA and presents the
/// bundle's certificate and key.
pub fn client_plan(service: Service, url: &str, certs: &Option<Certs>, relay: bool) -> (r:
    ClientPlan)
    ensures
        r.service == service,
        r.url@ == url@,
        r.user_agent@ == spec_user_agent(relay),
        r.tls is Some <==> *certs is Some,
        r.tls matches Some(t) ==> t.domain_name@ == TLS_SERVER_NAME@ && t.ca@ == certs->0.ca@
            && t.cert@ == certs->0.cert@ && t.key@ == certs->0.key@,
{
    let tls = match certs {
        Some(c) => Some(
            TlsPlan {
                domain_name: TLS_SERVER_NAME.to_owned(),
                ca: c.ca.clone(),
                cert: c.cert.clone(),
                key: c.key.clone(),
            },
        ),
        None => None,
    };
    ClientPlan { service, url: url.to_owned(), tls, user_agent: user_agent(relay).to_owned() }
}

} // verus!
