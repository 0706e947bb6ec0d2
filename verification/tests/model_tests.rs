use pipeman::errors::Exception;
use pipeman::models::auth::AuthPayload;
use pipeman::models::network::PortUpdate;
use pipeman::models::server::{
    Address, AddressEntry, BlockDevice, Network, ServerCreate, ServerDetail,
    ServerISODetachAction,
};
use pipeman::models::volume::{
    VolumeAttachment, VolumeBootableAction, VolumeCreate, VolumeSnapshot, VolumeUpload,
};

#[test]
fn auth_payload_shape() {
    let p = AuthPayload::new("alice".to_string(), "pw".to_string(), "Default", "admin");
    assert_eq!(p.auth.identity.methods, vec!["password".to_string()]);
    assert_eq!(p.auth.identity.password.user.name, "alice");
    assert_eq!(p.auth.identity.password.user.password, "pw");
    assert_eq!(p.auth.identity.password.user.domain.name, "Default");
    assert_eq!(p.auth.scope.project.name, "admin");
    assert_eq!(p.auth.scope.project.domain.name, "Default");
}

#[test]
fn port_update_clears_security() {
    let u = PortUpdate::empty();
    assert!(!u.port.port_security_enabled);
    assert!(u.port.security_groups.is_empty());
}

#[test]
fn server_create_fields() {
    let nets = Network::new(false, "ext", "int");
    let s = ServerCreate::new(
        "n".to_string(),
        "f".to_string(),
        "i".to_string(),
        nets,
        "az".to_string(),
        1,
    );
    assert_eq!(s.server.name, "n");
    assert_eq!(s.server.flavor_ref, "f");
    assert_eq!(s.server.image_ref, "i");
    assert_eq!(s.server.availability_zone, "az");
    assert_eq!(s.server.max_count, 1);
    assert!(s.server.block_device_mapping_v2.is_empty());
}

#[test]
fn block_device_fields() {
    let b = BlockDevice::new(0, true, "snapshot".to_string(), "volume".to_string(), "u".to_string());
    assert_eq!(b.boot_index, 0);
    assert!(b.delete_on_termination);
    assert_eq!(b.source_type, "snapshot");
    assert_eq!(b.destination_type, "volume");
    assert_eq!(b.uuid, "u");
}

#[test]
fn networks_single_and_dual() {
    let one = Network::new(false, "ext", "int");
    assert_eq!(one.len(), 1);
    assert_eq!(one[0].uuid, "ext");
    let two = Network::new(true, "ext", "int");
    assert_eq!(two.len(), 2);
    assert_eq!(two[0].uuid, "ext");
    assert_eq!(two[1].uuid, "int");
}

#[test]
fn server_addr_reads_external_network() {
    let d = ServerDetail {
        id: "s1".to_string(),
        name: "n".to_string(),
        status: "ACTIVE".to_string(),
        addresses: vec![
            AddressEntry {
                network: "internal".to_string(),
                addrs: vec![Address { addr: "192.168.0.2".to_string() }],
            },
            AddressEntry {
                network: "external".to_string(),
                addrs: vec![
                    Address { addr: "10.0.0.4".to_string() },
                    Address { addr: "10.0.0.5".to_string() },
                ],
            },
        ],
        volumes_attached: vec![],
    };
    assert_eq!(d.addr("external").unwrap(), "10.0.0.4");
}

#[test]
fn server_addr_missing_network_is_error() {
    let d = ServerDetail {
        id: "s1".to_string(),
        name: String::new(),
        status: String::new(),
        addresses: vec![],
        volumes_attached: vec![],
    };
    match d.addr("external") {
        Err(Exception::Error(_)) => {}
        _ => panic!("a server without the external network has no address"),
    }
    let d2 = ServerDetail {
        id: "s1".to_string(),
        name: String::new(),
        status: String::new(),
        addresses: vec![AddressEntry { network: "external".to_string(), addrs: vec![] }],
        volumes_attached: vec![],
    };
    assert!(d2.addr("external").is_err());
}

#[test]
fn iso_detach_action() {
    let _a = ServerISODetachAction::new();
}

#[test]
fn volume_create_fields() {
    let v = VolumeCreate::new("vol".to_string(), 50, "nova".to_string());
    assert_eq!(v.volume.name, "vol");
    assert_eq!(v.volume.size, 50);
    assert_eq!(v.volume.availability_zone, "nova");
}

#[test]
fn volume_attachment_fields() {
    let a = VolumeAttachment::new("v1".to_string(), "/dev/vda".to_string(), true);
    assert_eq!(a.volume_attachment.volume_id, "v1");
    assert_eq!(a.volume_attachment.device, "/dev/vda");
    assert!(a.volume_attachment.delete_on_termination);
}

#[test]
fn volume_upload_defaults() {
    let u = VolumeUpload::new("img".to_string());
    assert_eq!(u.volume_upload.image_name, "img");
    assert_eq!(u.volume_upload.disk_format, "raw");
    assert_eq!(u.volume_upload.container_format, "bare");
    assert_eq!(u.volume_upload.visibility, "public");
    assert!(!u.volume_upload.protected);
    assert_eq!(u.volume_upload.image_id, "");
}

#[test]
fn volume_snapshot_request() {
    let s = VolumeSnapshot::new("snap".to_string(), "vol-1".to_string(), true);
    assert_eq!(s.snapshot.name, "snap");
    assert_eq!(s.snapshot.volume_id, "vol-1");
    assert!(s.snapshot.force);
    assert_eq!(s.snapshot.id, "");
    assert_eq!(s.snapshot.status, "");
}

#[test]
fn bootable_action() {
    let b = VolumeBootableAction::new(true);
    assert!(b.os_set_bootable.bootable);
    let b = VolumeBootableAction::new(false);
    assert!(!b.os_set_bootable.bootable);
}
