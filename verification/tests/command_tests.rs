use pipeman::args::DeployMode;
use pipeman::command;

#[test]
fn create_image_command() {
    let c = command::create_image("iso", "/opt/work/img.iso", "my-image");
    assert_eq!(
        c,
        "source /root/admin-openrc.sh && openstack image create -f value -c id \
         --disk-format iso --container-format bare --public --file /opt/work/img.iso my-image"
    );
}

#[test]
fn install_command() {
    assert_eq!(
        command::install_uswift("/dev/vdb"),
        "sudo uswift-installer install -i uswift.ign /dev/vdb -n"
    );
}

#[test]
fn nics_command() {
    assert_eq!(command::get_nics(), "ifconfig | grep -e ^en | awk -F ':' '{print $1}'");
}

#[test]
fn hostname_command() {
    assert_eq!(command::set_hostname("node1".to_string()), "hostnamectl set-hostname node1");
}

#[test]
fn deploy_commands() {
    assert_eq!(
        command::deploy(DeployMode::AllInOne),
        "cd /etc/ustack-deploy/ && python3 deploy.py all_in_one"
    );
    assert_eq!(
        command::deploy(DeployMode::MultiNode),
        "cd /etc/ustack-deploy/ && python3 deploy.py all"
    );
}
