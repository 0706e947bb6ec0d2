//! The fixed shell-command templates the orchestrator runs on remote hosts,
//! each with an exact statement of the produced command line.
use vstd::prelude::*;

use crate::args::DeployMode;

verus! {

/// The command that registers an image file with the cloud image service.
pub fn create_image(disk_format: &str, path: &str, image_name: &str) -> (r: String)
    ensures
        r@ == "source /root/admin-openrc.sh && openstack image create -f value -c id --disk-format "@
            + disk_format@ + " --container-format bare --public --file "@ + path@ + " "@
            + image_name@,
{
    String::from_str(
        "source /root/admin-openrc.sh && openstack image create -f value -c id --disk-format ",
    ).concat(disk_format).concat(" --container-format bare --public --file ").concat(path).concat(
        " ",
    ).concat(image_name)
}

/// The command that installs the target operating system onto `device`.
pub fn install_uswift(device: &str) -> (r: String)
    ensures
        r@ == "sudo uswift-installer install -i uswift.ign "@ + device@ + " -n"@,
{
    String::from_str("sudo uswift-installer install -i uswift.ign ").concat(device).concat(" -n")
}

/// The pipeline that lists network interface names beginning with `en`.
pub fn get_nics() -> (r: &'static str)
    ensures
        r@ == "ifconfig | grep -e ^en | awk -F ':' '{print $1}'"@,
{
    "ifconfig | grep -e ^en | awk -F ':' '{print $1}'"
}

/// The command that sets a host's name.
pub fn set_hostname(host: String) -> (r: String)
    ensures
        r@ == "hostnamectl set-hostname "@ + host@,
{
    String::from_str("hostnamectl set-hostname ").concat(host.as_str())
}

/// The remote deploy entry point for the given mode.
pub fn deploy(mode: DeployMode) -> (r: &'static str)
    ensures
        mode == DeployMode::AllInOne ==> r@ == "cd /etc/ustack-deploy/ && python3 deploy.py all_in_one"@,
        mode == DeployMode::MultiNode ==> r@ == "cd /etc/ustack-deploy/ && python3 deploy.py all"@,
{
    match mode {
        DeployMode::AllInOne => "cd /etc/ustack-deploy/ && python3 deploy.py all_in_one",
        DeployMode::MultiNode => "cd /etc/ustack-deploy/ && python3 deploy.py all",
    }
}

} // verus!
