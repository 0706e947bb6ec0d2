use pipeman::args::{Arches, DeployMode};
use pipeman::command;
use pipeman::config::{
    Amd64Config, Arm64Config, DefaultConfig, IgnitionConfig, LogConfig, OpenStackConfig, CONF,
};
use pipeman::errors::Exception;
use pipeman::utils::generate_single_node_config_file;
use pipeman::worker::{
    deploy_config_target, expected_host_count, fleet_server_names, install_retry_step,
    prefixed_name, Deployment, InstallStep, Stage,
};

fn test_conf() -> CONF {
    CONF {
        default: DefaultConfig {
            work_dir: "/opt/pipeman".to_string(),
            host: "build.local".to_string(),
            port: 22,
            user: "root".to_string(),
            password: "pw".to_string(),
            iso_server_name: "iso-server".to_string(),
            iso_volume_name: "iso-volume".to_string(),
            iso_volume_size: 100,
            server_volume_size: 200,
            server_prefix: "ustack".to_string(),
            host_prefix: "node".to_string(),
        },
        log: LogConfig { debug: false, log_dir: "logs".to_string() },
        openstack: OpenStackConfig {
            host: "cloud.local".to_string(),
            user: "admin".to_string(),
            password: "adminpw".to_string(),
            auth_url: "http://cloud.local:5000/v3".to_string(),
            project: "admin".to_string(),
            project_id: "p123".to_string(),
            domain: "Default".to_string(),
            flavor: "m1.large".to_string(),
            empty_disk_flavor: "m1.empty".to_string(),
            external_network: "ext-net-id".to_string(),
            external_network_name: "external".to_string(),
            internal_network: "int-net-id".to_string(),
        },
        amd64: Amd64Config {
            user: "amd-user".to_string(),
            password: "amd-pw".to_string(),
            image_id: String::new(),
            image_name: "amd-image".to_string(),
            volume_snapshot_id: String::new(),
            vip_port_id: "vip-port".to_string(),
            keepalived_router_id: "51".to_string(),
        },
        arm64: Arm64Config {
            host: "arm.local".to_string(),
            user: "arm-user".to_string(),
            password: "arm-pw".to_string(),
            image_id: "arm-img".to_string(),
            image_name: "arm-image".to_string(),
            volume_snapshot_id: "arm-snap".to_string(),
            vip_port_id: "vip-port-arm".to_string(),
            keepalived_router_id: "52".to_string(),
        },
        ignition: IgnitionConfig {
            file: "uswift.ign".to_string(),
            user: "core".to_string(),
            password: "ignpw".to_string(),
        },
    }
}

fn fresh_multi() -> Deployment {
    Deployment::new(
        Arches::Amd64,
        DeployMode::MultiNode,
        None,
        &test_conf(),
        "2024-01-02-03-04".to_string(),
        "10.0.0.100".to_string(),
    )
    .unwrap()
}

#[test]
fn host_counts_per_mode() {
    assert_eq!(expected_host_count(DeployMode::AllInOne), 1);
    assert_eq!(expected_host_count(DeployMode::MultiNode), 3);
}

#[test]
fn new_single_node_accepts_exactly_one_host() {
    let conf = test_conf();
    let ok = Deployment::new(
        Arches::Amd64,
        DeployMode::AllInOne,
        Some("10.0.0.5".to_string()),
        &conf,
        "t".to_string(),
        "v".to_string(),
    );
    let dep = ok.unwrap();
    assert_eq!(dep.count, 1);
    assert_eq!(dep.hosts, vec!["10.0.0.5".to_string()]);
    assert_eq!(dep.config_file, "/opt/pipeman/configs/all-in-one.ini");
    let err = Deployment::new(
        Arches::Amd64,
        DeployMode::AllInOne,
        Some("10.0.0.5,10.0.0.6".to_string()),
        &conf,
        "t".to_string(),
        "v".to_string(),
    );
    match err {
        Err(Exception::Error(m)) => assert_eq!(m, "all in one mode need only one host"),
        _ => panic!("two hosts must be rejected in single-node mode"),
    }
}

#[test]
fn new_multi_node_accepts_exactly_three_hosts() {
    let conf = test_conf();
    let ok = Deployment::new(
        Arches::Amd64,
        DeployMode::MultiNode,
        Some("a,b,c".to_string()),
        &conf,
        "t".to_string(),
        "v".to_string(),
    );
    let dep = ok.unwrap();
    assert_eq!(dep.count, 3);
    assert_eq!(dep.hosts, vec!["a".to_string(), "b".to_string(), "c".to_string()]);
    assert_eq!(dep.config_file, "/opt/pipeman/configs/multinode.ini");
    for hosts in ["a", "a,b", "a,b,c,d"] {
        let err = Deployment::new(
            Arches::Amd64,
            DeployMode::MultiNode,
            Some(hosts.to_string()),
            &conf,
            "t".to_string(),
            "v".to_string(),
        );
        match err {
            Err(Exception::Error(m)) => assert_eq!(m, "multi node mode need 3 hosts"),
            _ => panic!("a host list of the wrong length must be rejected"),
        }
    }
}

#[test]
fn new_picks_architecture_settings() {
    let conf = test_conf();
    let amd = Deployment::new(
        Arches::Amd64,
        DeployMode::MultiNode,
        None,
        &conf,
        "t".to_string(),
        "v".to_string(),
    )
    .unwrap();
    assert_eq!(amd.user, "amd-user");
    assert_eq!(amd.az, "nova");
    assert_eq!(amd.keepalived_router_id, "51");
    assert_eq!(amd.volume_size, 200);
    assert_eq!(amd.iso_volume_size, 100);
    let arm = Deployment::new(
        Arches::Arm64,
        DeployMode::MultiNode,
        None,
        &conf,
        "t".to_string(),
        "v".to_string(),
    )
    .unwrap();
    assert_eq!(arm.user, "arm-user");
    assert_eq!(arm.az, "nova-arm");
    assert_eq!(arm.image_id, "arm-img");
    assert_eq!(arm.volume_snapshot_id, "arm-snap");
}

#[test]
fn configure_stage_rejects_wrong_host_counts() {
    let mut dep = fresh_multi();
    match dep.check_hosts_for_deploy() {
        Err(Exception::Error(m)) => assert_eq!(m, "hosts is empty"),
        _ => panic!("an empty host list must be rejected"),
    }
    dep.set_hosts(vec!["a".to_string(), "b".to_string()]);
    match dep.check_hosts_for_deploy() {
        Err(Exception::Error(m)) => assert_eq!(m, "multi node mode need 3 hosts"),
        _ => panic!("two hosts must be rejected in multi-node mode"),
    }
    dep.set_hosts(vec!["a".to_string(), "b".to_string(), "c".to_string()]);
    assert!(dep.check_hosts_for_deploy().is_ok());
    let mut single = Deployment::new(
        Arches::Amd64,
        DeployMode::AllInOne,
        None,
        &test_conf(),
        "t".to_string(),
        "v".to_string(),
    )
    .unwrap();
    single.set_hosts(vec!["a".to_string(), "b".to_string()]);
    match single.check_hosts_for_deploy() {
        Err(Exception::Error(m)) => assert_eq!(m, "all in one mode need only one host"),
        _ => panic!("two hosts must be rejected in single-node mode"),
    }
}

#[test]
fn fresh_multi_node_walks_stages_in_order() {
    // fresh run: no image, no snapshot, no hosts
    let mut dep = fresh_multi();
    assert_eq!(dep.next_stage(), Stage::BuildImage);
    dep.set_image_id("img-1".to_string());
    assert_eq!(dep.next_stage(), Stage::SetupInstallerServer);
    // the installer stage ends by snapshotting the installed volume
    let snap_name = dep.snapshot_name("vol-7");
    assert_eq!(snap_name, "2024-01-02-03-04-volume-vol-7-snapshot");
    dep.set_volume_snapshot_id("snap-1".to_string());
    assert_eq!(dep.next_stage(), Stage::ProvisionFleet);
    dep.set_hosts(vec!["a".to_string(), "b".to_string(), "c".to_string()]);
    assert_eq!(dep.next_stage(), Stage::ConfigureAndDeploy);
    assert!(dep.check_hosts_for_deploy().is_ok());
    assert_eq!(command::deploy(dep.mode), "cd /etc/ustack-deploy/ && python3 deploy.py all");
}

#[test]
fn hosts_supplied_skip_to_configure() {
    let dep = Deployment::new(
        Arches::Amd64,
        DeployMode::MultiNode,
        Some("a,b,c".to_string()),
        &test_conf(),
        "t".to_string(),
        "v".to_string(),
    )
    .unwrap();
    assert_eq!(dep.next_stage(), Stage::ConfigureAndDeploy);
}

#[test]
fn known_snapshot_skips_installer() {
    let dep = Deployment::new(
        Arches::Arm64,
        DeployMode::MultiNode,
        None,
        &test_conf(),
        "t".to_string(),
        "v".to_string(),
    )
    .unwrap();
    // the arm configuration carries a snapshot id already
    assert_eq!(dep.next_stage(), Stage::ProvisionFleet);
}

#[test]
fn single_node_configure_and_deploy_artifacts() {
    // one reachable host with known interfaces: the stage writes one node
    // line, uploads to the fixed path, and runs the all-in-one entry point
    let mut dep = Deployment::new(
        Arches::Amd64,
        DeployMode::AllInOne,
        Some("10.0.0.7".to_string()),
        &test_conf(),
        "t".to_string(),
        "v".to_string(),
    )
    .unwrap();
    assert_eq!(dep.next_stage(), Stage::ConfigureAndDeploy);
    assert!(dep.check_hosts_for_deploy().is_ok());
    let out = generate_single_node_config_file(
        "[node]\n",
        dep.hosts[0].as_str(),
        dep.password.as_str(),
        "ens3",
        "ens4",
    )
    .unwrap();
    assert_eq!(out, "[node]\nnode=node1,10.0.0.7,amd-pw,ens3,ens4\n");
    assert_eq!(deploy_config_target(), "/etc/ustack-deploy/config.ini");
    assert_eq!(
        command::deploy(dep.mode),
        "cd /etc/ustack-deploy/ && python3 deploy.py all_in_one"
    );
    dep.set_hosts(vec![]);
    assert!(dep.check_hosts_for_deploy().is_err());
}

#[test]
fn fleet_names_preserve_request_order() {
    let prefix = prefixed_name("2024-01-02-03-04", "ustack");
    assert_eq!(prefix, "2024-01-02-03-04-ustack");
    let names = fleet_server_names(prefix.as_str(), 3);
    assert_eq!(names.len(), 3);
    assert_eq!(names[0].0, "2024-01-02-03-04-ustack-1");
    assert_eq!(names[0].1, "2024-01-02-03-04-ustack-volume-1");
    assert_eq!(names[1].0, "2024-01-02-03-04-ustack-2");
    assert_eq!(names[2].0, "2024-01-02-03-04-ustack-3");
    assert_eq!(names[2].1, "2024-01-02-03-04-ustack-volume-3");
}

#[test]
fn install_retries_once_then_fails() {
    assert_eq!(install_retry_step(0, true), InstallStep::Succeeded);
    assert_eq!(install_retry_step(0, false), InstallStep::RetryInstall);
    assert_eq!(install_retry_step(1, true), InstallStep::Succeeded);
    assert_eq!(install_retry_step(1, false), InstallStep::FatalFailure);
}
