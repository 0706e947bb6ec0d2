//! The deployment orchestrator's state machine and planning logic: the
//! specification of a run, which pipeline stage the known inputs call for,
//! the naming of fleet servers and snapshots, the install retry policy, and
//! the host-count rule of the configure-and-deploy stage.
use vstd::prelude::*;

use crate::args::Arches;
use crate::args::DeployMode;
use crate::config::CONF;
use crate::errors::Exception;
use crate::strutil::dec_str;
use crate::strutil::split_chars;
use crate::strutil::split_str;
use crate::strutil::u32_to_dec;

verus! {

/// The pipeline stages, in the order a fresh run passes them. A stage is
/// skipped when its output is already present in the deployment
/// specification.
#[derive(Debug, Clone, Copy, PartialEq, Eq, Structural)]
pub enum Stage {
    /// No image is known: build the installer image on the build host and
    /// wait until it is active.
    BuildImage,
    /// No snapshot is known: boot a temporary server from the image, attach
    /// a data volume, install onto it, and snapshot the installed volume.
    SetupInstallerServer,
    /// A snapshot is known but no hosts: create the fleet servers from it
    /// and record their addresses.
    ProvisionFleet,
    /// Hosts are known: configure each host and invoke the remote deploy.
    ConfigureAndDeploy,
}

/// The specification of one deployment run, owned by the orchestrator.
/// Fields are filled in as pipeline stages complete: the image id, the
/// snapshot id and the hosts.
#[derive(Debug, Clone)]
pub struct Deployment {
    pub arch: Arches,
    pub mode: DeployMode,
    pub count: i32,
    pub user: String,
    pub password: String,
    pub az: String,
    pub image_id: String,
    pub image_name: String,
    pub volume_snapshot_id: String,
    pub config_file: String,
    pub timestamp: String,
    pub volume_size: i32,
    pub iso_volume_size: i32,
    pub vip: String,
    pub hosts: Vec<String>,
    pub keepalived_router_id: String,
}

/// The stage the known inputs call for: hosts skip straight to configure-
/// and-deploy, a missing snapshot asks for the installer pipeline (starting
/// with the image when that too is missing), and a known snapshot asks for
/// the fleet.
pub open spec fn spec_next_stage(d: &Deployment) -> Stage {
    if d.hosts@.len() > 0 {
        Stage::ConfigureAndDeploy
    } else if d.volume_snapshot_id@.len() == 0 {
        if d.image_id@.len() == 0 {
            Stage::BuildImage
        } else {
            Stage::SetupInstallerServer
        }
    } else {
        Stage::ProvisionFleet
    }
}

/// How many hosts the mode deploys to.
pub fn expected_host_count(mode: DeployMode) -> (r: usize)
    ensures
        mode == DeployMode::AllInOne ==> r == 1,
        mode == DeployMode::MultiNode ==> r == 3,
{
    match mode {
        DeployMode::AllInOne => 1,
        DeployMode::MultiNode => 3,
    }
}

impl Deployment {
    /// A deployment specification assembled from the selectors, the loaded
    /// configuration, the run timestamp and the cluster VIP. A supplied host
    /// list must already match the mode's host count; with no list supplied
    /// the hosts are filled in by the fleet stage.
    pub fn new(
        arch: Arches,
        mode: DeployMode,
        hosts_arg: Option<String>,
        conf: &CONF,
        timestamp: String,
        vip: String,
    ) -> (r: Result<Deployment, Exception>)
        ensures
            (r is Ok) <==> (hosts_arg is None || (mode == DeployMode::AllInOne && split_chars(
                hosts_arg->0@,
                ',',
            ).len() == 1) || (mode == DeployMode::MultiNode && split_chars(
                hosts_arg->0@,
                ',',
            ).len() == 3)),
            r matches Ok(dep) ==> ({
                &&& dep.arch == arch
                &&& dep.mode == mode
                &&& (mode == DeployMode::AllInOne ==> dep.count == 1 && dep.config_file@
                    == conf.default.work_dir@ + "/configs/all-in-one.ini"@)
                &&& (mode == DeployMode::MultiNode ==> dep.count == 3 && dep.config_file@
                    == conf.default.work_dir@ + "/configs/multinode.ini"@)
                &&& (arch == Arches::Amd64 ==> dep.user@ == conf.amd64.user@ && dep.password@
                    == conf.amd64.password@ && dep.az@ == "nova"@ && dep.image_id@
                    == conf.amd64.image_id@ && dep.image_name@ == conf.amd64.image_name@
                    && dep.volume_snapshot_id@ == conf.amd64.volume_snapshot_id@
                    && dep.keepalived_router_id@ == conf.amd64.keepalived_router_id@)
                &&& (arch == Arches::Arm64 ==> dep.user@ == conf.arm64.user@ && dep.password@
                    == conf.arm64.password@ && dep.az@ == "nova-arm"@ && dep.image_id@
                    == conf.arm64.image_id@ && dep.image_name@ == conf.arm64.image_name@
                    && dep.volume_snapshot_id@ == conf.arm64.volume_snapshot_id@
                    && dep.keepalived_router_id@ == conf.arm64.keepalived_router_id@)
                &&& (hosts_arg matches Some(h) ==> dep.hosts.deep_view() == split_chars(h@, ','))
                &&& (hosts_arg is None ==> dep.hosts@.len() == 0)
                &&& dep.timestamp == timestamp
                &&& dep.vip == vip
                &&& dep.volume_size == conf.default.server_volume_size
                &&& dep.iso_volume_size == conf.default.iso_volume_size
            }),
            r matches Err(e) ==> (e matches Exception::Error(m) && ((mode == DeployMode::AllInOne
                ==> m@ == "all in one mode need only one host"@) && (mode == DeployMode::MultiNode
                ==> m@ == "multi node mode need 3 hosts"@))),
    {
        let mut hosts: Vec<String> = Vec::new();
        let mut supplied = false;
        match &hosts_arg {
            Some(h) => {
                hosts = split_str(h.as_str(), ',');
                supplied = true;
            },
            None => {},
        }
        let (user, password, az, image_id, image_name, volume_snapshot_id, keepalived_router_id) =
            match arch {
            Arches::Amd64 => (
                conf.amd64.user.clone(),
                conf.amd64.password.clone(),
                String::from_str("nova"),
                conf.amd64.image_id.clone(),
                conf.amd64.image_name.clone(),
                conf.amd64.volume_snapshot_id.clone(),
                conf.amd64.keepalived_router_id.clone(),
            ),
            Arches::Arm64 => (
                conf.arm64.user.clone(),
                conf.arm64.password.clone(),
                String::from_str("nova-arm"),
                conf.arm64.image_id.clone(),
                conf.arm64.image_name.clone(),
                conf.arm64.volume_snapshot_id.clone(),
                conf.arm64.keepalived_router_id.clone(),
            ),
        };
        let expected = expected_host_count(mode);
        if supplied && hosts.len() != expected {
            let msg = match mode {
                DeployMode::AllInOne => String::from_str("all in one mode need only one host"),
                DeployMode::MultiNode => String::from_str("multi node mode need 3 hosts"),
            };
            return Err(Exception::Error(msg));
        }
        let (count, config_file) = match mode {
            DeployMode::AllInOne => (
                1i32,
                conf.default.work_dir.as_str().to_owned().concat("/configs/all-in-one.ini"),
            ),
            DeployMode::MultiNode => (
                3i32,
                conf.default.work_dir.as_str().to_owned().concat("/configs/multinode.ini"),
            ),
        };
        Ok(
            Deployment {
                arch,
                mode,
                count,
                user,
                password,
                az,
                image_id,
                image_name,
                volume_snapshot_id,
                config_file,
                timestamp,
                volume_size: conf.default.server_volume_size,
                iso_volume_size: conf.default.iso_volume_size,
                vip,
                hosts,
                keepalived_router_id,
            },
        )
    }

    /// The stage the known inputs call for.
    pub fn next_stage(&self) -> (r: Stage)
        ensures
            r == spec_next_stage(self),
    {
        if self.hosts.len() > 0 {
            Stage::ConfigureAndDeploy
        } else if self.volume_snapshot_id.as_str().is_empty() {
            if self.image_id.as_str().is_empty() {
                Stage::BuildImage
            } else {
                Stage::SetupInstallerServer
            }
        } else {
            Stage::ProvisionFleet
        }
    }

    /// Records the built image.
    pub fn set_image_id(&mut self, image_id: String)
        ensures
            final(self).image_id == image_id,
            *final(self) == (Deployment { image_id, ..*old(self) }),
    {
        self.image_id = image_id;
    }

    /// Records the created snapshot.
    pub fn set_volume_snapshot_id(&mut self, volume_snapshot_id: String)
        ensures
            final(self).volume_snapshot_id == volume_snapshot_id,
            *final(self) == (Deployment { volume_snapshot_id, ..*old(self) }),
    {
        self.volume_snapshot_id = volume_snapshot_id;
    }

    /// Records the fleet's addresses as the hosts to configure.
    pub fn set_hosts(&mut self, hosts: Vec<String>)
        ensures
            final(self).hosts == hosts,
            *final(self) == (Deployment { hosts, ..*old(self) }),
    {
        self.hosts = hosts;
    }

    /// The name under which the installed volume is snapshotted.
    pub fn snapshot_name(&self, volume_id: &str) -> (r: String)
        ensures
            r@ == self.timestamp@ + "-volume-"@ + volume_id@ + "-snapshot"@,
    {
        self.timestamp.as_str().to_owned().concat("-volume-").concat(volume_id).concat("-snapshot")
    }

    /// The host-count rule of the configure-and-deploy stage: a single-node
    /// run accepts exactly one host and a multi-node run exactly three;
    /// every other list is rejected, an empty one with its own message.
    pub fn check_hosts_for_deploy(&self) -> (r: Result<(), Exception>)
        ensures
            (r is Ok) <==> ((self.mode == DeployMode::AllInOne && self.hosts@.len() == 1) || (
            self.mode == DeployMode::MultiNode && self.hosts@.len() == 3)),
            r matches Err(e) ==> (e matches Exception::Error(m) && ({
                if self.hosts@.len() == 0 {
                    m@ == "hosts is empty"@
                } else if self.mode == DeployMode::AllInOne {
                    m@ == "all in one mode need only one host"@
                } else {
                    m@ == "multi node mode need 3 hosts"@
                }
            })),
    {
        if self.hosts.len() == 0 {
            return Err(Exception::Error(String::from_str("hosts is empty")));
        }
        let expected = expected_host_count(self.mode);
        if self.hosts.len() != expected {
            let msg = match self.mode {
                DeployMode::AllInOne => String::from_str("all in one mode need only one host"),
                DeployMode::MultiNode => String::from_str("multi node mode need 3 hosts"),
            };
            return Err(Exception::Error(msg));
        }
        Ok(())
    }
}

/// The fixed remote path the finished configuration file is uploaded to on
/// the master host.
pub fn deploy_config_target() -> (r: &'static str)
    ensures
        r@ == "/etc/ustack-deploy/config.ini"@,
{
    "/etc/ustack-deploy/config.ini"
}

/// A name formed from the run timestamp: `timestamp-name`.
pub fn prefixed_name(timestamp: &str, name: &str) -> (r: String)
    ensures
        r@ == timestamp@ + "-"@ + name@,
{
    String::from_str(timestamp).concat("-").concat(name)
}

/// The server and volume names of a fleet of `count` servers: request order
/// is preserved, server `i` (numbered from one) is `prefix-i` with volume
/// `prefix-volume-i`.
pub fn fleet_server_names(prefix: &str, count: u32) -> (r: Vec<(String, String)>)
    ensures
        r@.len() == count,
        forall|i: int|
            0 <= i < count ==> (#[trigger] r@[i]).0@ == prefix@ + "-"@ + dec_str((i + 1) as nat)
                && r@[i].1@ == prefix@ + "-volume-"@ + dec_str((i + 1) as nat),
{
    let mut r: Vec<(String, String)> = Vec::new();
    let mut x: u32 = 0;
    while x < count
        invariant
            0 <= x <= count,
            r@.len() == x,
            forall|i: int|
                0 <= i < x ==> (#[trigger] r@[i]).0@ == prefix@ + "-"@ + dec_str((i + 1) as nat)
                    && r@[i].1@ == prefix@ + "-volume-"@ + dec_str((i + 1) as nat),
        decreases count - x,
    {
        let num = u32_to_dec(x + 1);
        let server_name = String::from_str(prefix).concat("-").concat(num.as_str());
        let volume_name = String::from_str(prefix).concat("-volume-").concat(num.as_str());
        r.push((server_name, volume_name));
        x = x + 1;
    }
    r
}

/// What the installer stage does after one run of the install command.
#[derive(Debug, Clone, Copy, PartialEq, Eq, Structural)]
pub enum InstallStep {
    /// The install command exited cleanly: go on to the reboot.
    Succeeded,
    /// The first run failed: run the install command once more.
    RetryInstall,
    /// The retry failed too: the installation is a fatal failure.
    FatalFailure,
}

/// The install retry policy: one automatic retry of the install command
/// after a first failure, then fatal failure.
pub fn install_retry_step(attempt: u32, ok: bool) -> (r: InstallStep)
    ensures
        ok ==> r == InstallStep::Succeeded,
        !ok && attempt == 0 ==> r == InstallStep::RetryInstall,
        !ok && attempt >= 1 ==> r == InstallStep::FatalFailure,
{
    if ok {
        InstallStep::Succeeded
    } else if attempt == 0 {
        InstallStep::RetryInstall
    } else {
        InstallStep::FatalFailure
    }
}

/// Law: a fresh specification (no hosts, no image, no snapshot) passes the
/// pipeline stages in order. Each argument stands for the specification as
/// one more stage's output has been recorded: first the built image, then
/// the snapshot, then the fleet's hosts — so the stages run as image build,
/// installer server (whose completion snapshots the installed volume),
/// fleet provisioning, and configure-and-deploy.
pub proof fn lemma_fresh_pipeline_order(
    fresh: &Deployment,
    after_image: &Deployment,
    after_snapshot: &Deployment,
    after_fleet: &Deployment,
)
    requires
        fresh.hosts@.len() == 0 && fresh.image_id@.len() == 0 && fresh.volume_snapshot_id@.len()
            == 0,
        after_image.hosts@.len() == 0 && after_image.image_id@.len() > 0
            && after_image.volume_snapshot_id@.len() == 0,
        after_snapshot.hosts@.len() == 0 && after_snapshot.volume_snapshot_id@.len() > 0,
        after_fleet.hosts@.len() > 0,
    ensures
        spec_next_stage(fresh) == Stage::BuildImage,
        spec_next_stage(after_image) == Stage::SetupInstallerServer,
        spec_next_stage(after_snapshot) == Stage::ProvisionFleet,
        spec_next_stage(after_fleet) == Stage::ConfigureAndDeploy,
{
}

} // verus!
