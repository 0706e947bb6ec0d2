//! The deployment configuration: defaults, logging, control-plane access,
//! per-architecture resources and the ignition file. Loading the file that
//! fills these values is the surrounding program's concern; the engine takes
//! the loaded configuration as a plain value.
use vstd::prelude::*;

verus! {

/// General defaults of a run.
#[derive(Debug, Clone)]
pub struct DefaultConfig {
    pub work_dir: String,
    pub host: String,
    pub port: i32,
    pub user: String,
    pub password: String,
    pub iso_server_name: String,
    pub iso_volume_name: String,
    pub iso_volume_size: i32,
    pub server_volume_size: i32,
    pub server_prefix: String,
    pub host_prefix: String,
}

/// Logging switches.
#[derive(Debug, Clone)]
pub struct LogConfig {
    pub debug: bool,
    pub log_dir: String,
}

/// Control-plane endpoints, credentials and sizing names.
#[derive(Debug, Clone)]
pub struct OpenStackConfig {
    pub host: String,
    pub user: String,
    pub password: String,
    pub auth_url: String,
    pub project: String,
    pub project_id: String,
    pub domain: String,
    pub flavor: String,
    pub empty_disk_flavor: String,
    pub external_network: String,
    pub external_network_name: String,
    pub internal_network: String,
}

/// The x86_64 deployment resources.
#[derive(Debug, Clone)]
pub struct Amd64Config {
    pub user: String,
    pub password: String,
    pub image_id: String,
    pub image_name: String,
    pub volume_snapshot_id: String,
    pub vip_port_id: String,
    pub keepalived_router_id: String,
}

/// The aarch64 deployment resources.
#[derive(Debug, Clone)]
pub struct Arm64Config {
    pub host: String,
    pub user: String,
    pub password: String,
    pub image_id: String,
    pub image_name: String,
    pub volume_snapshot_id: String,
    pub vip_port_id: String,
    pub keepalived_router_id: String,
}

/// The ignition file handed to the installer.
#[derive(Debug, Clone)]
pub struct IgnitionConfig {
    pub file: String,
    pub user: String,
    pub password: String,
}

/// The whole loaded configuration.
#[derive(Debug, Clone)]
pub struct CONF {
    pub default: DefaultConfig,
    pub log: LogConfig,
    pub openstack: OpenStackConfig,
    pub amd64: Amd64Config,
    pub arm64: Arm64Config,
    pub ignition: IgnitionConfig,
}

} // verus!
