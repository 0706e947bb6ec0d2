//! Network-service resources: ports, their fixed IPs, and the update payload
//! that clears a port's security-group enforcement.
use vstd::prelude::*;

verus! {

/// The ports a list request returns.
#[derive(Debug, Clone)]
pub struct Ports {
    pub ports: Vec<PortDetail>,
}

/// One port, as a show request returns it.
#[derive(Debug, Clone)]
pub struct Port {
    pub port: PortDetail,
}

/// A port: identifier, name, status and fixed IP addresses.
#[derive(Debug, Clone)]
pub struct PortDetail {
    pub id: String,
    pub name: String,
    pub status: String,
    pub fixed_ips: Vec<FixedIps>,
}

/// One fixed IP address of a port.
#[derive(Debug, Clone)]
pub struct FixedIps {
    pub ip_address: String,
}

/// The update payload sent to a port.
#[derive(Debug, Clone)]
pub struct PortUpdate {
    pub port: PortUpdateFields,
}

/// The fields an update can set.
#[derive(Debug, Clone)]
pub struct PortUpdateFields {
    pub port_security_enabled: bool,
    pub security_groups: Vec<String>,
}

impl PortUpdate {
    /// The update that switches port security off and clears the
    /// security-group list.
    pub fn empty() -> (r: Self)
        ensures
            r.port.port_security_enabled == false,
            r.port.security_groups@.len() == 0,
    {
        Self { port: PortUpdateFields { port_security_enabled: false, security_groups: Vec::new() } }
    }
}

} // verus!
