//! The control-plane client's computation: service URL construction, the
//! status-code acceptance rule, token extraction from the identity response,
//! VIP extraction from a port, and assembly of the server-creation payload.
//! The HTTP transport itself stays outside the library; a request is
//! successful only if the response status exactly equals the expected code.
use vstd::prelude::*;

use crate::errors::Exception;
use crate::models::server::{BlockDevice, Network, ServerCreate};
use crate::models::network::PortDetail;
use crate::strutil::dec_str;
use crate::strutil::u32_to_dec;

verus! {

/// The root URL of the service listening on `port` of the control-plane
/// host.
pub fn base_url(host: &str, port: i32) -> (r: String)
    requires
        port >= 0,
    ensures
        r@ == "http://"@ + host@ + ":"@ + dec_str(port as nat),
{
    let p = u32_to_dec(port as u32);
    String::from_str("http://").concat(host).concat(":").concat(p.as_str())
}

/// The URL of a network-service resource.
pub fn neutron_url(host: &str, resource: &str) -> (r: String)
    ensures
        r@ == "http://"@ + host@ + ":"@ + dec_str(9696) + "/v2.0/"@ + resource@,
{
    base_url(host, 9696).concat("/v2.0/").concat(resource)
}

/// The URL of an image-service resource.
pub fn glance_url(host: &str, resource: &str) -> (r: String)
    ensures
        r@ == "http://"@ + host@ + ":"@ + dec_str(9292) + "/v2/"@ + resource@,
{
    base_url(host, 9292).concat("/v2/").concat(resource)
}

/// The URL of a compute-service resource.
pub fn nova_url(host: &str, resource: &str) -> (r: String)
    ensures
        r@ == "http://"@ + host@ + ":"@ + dec_str(8774) + "/v2.1/"@ + resource@,
{
    base_url(host, 8774).concat("/v2.1/").concat(resource)
}

/// The URL of a block-storage resource, which is scoped to the project.
pub fn cinder_url(host: &str, project_id: &str, resource: &str) -> (r: String)
    ensures
        r@ == "http://"@ + host@ + ":"@ + dec_str(8776) + "/v3/"@ + project_id@ + "/"@
            + resource@,
{
    base_url(host, 8776).concat("/v3/").concat(project_id).concat("/").concat(resource)
}

/// The acceptance rule of every control-plane request: a response is
/// successful only if its status exactly equals the expected code; otherwise
/// the response body text becomes the error.
pub fn handle_response_status(status: u16, expected_code: u16, body: String) -> (r: Result<
    u16,
    Exception,
>)
    ensures
        status == expected_code ==> r == Ok::<u16, Exception>(status),
        status != expected_code ==> r == Err::<u16, Exception>(Exception::Error(body)),
{
    if status != expected_code {
        Err(Exception::Error(body))
    } else {
        Ok(status)
    }
}

/// The token rule of the identity exchange: the bearer token is the
/// subject-token header of the response, and a response without that header
/// is an authentication failure.
pub fn auth_token_from_header(header: Option<String>) -> (r: Result<String, Exception>)
    ensures
        header matches Some(t) ==> r == Ok::<String, Exception>(t),
        header is None ==> r == Err::<String, Exception>(Exception::AuthenticationException),
{
    match header {
        Some(t) => Ok(t),
        None => Err(Exception::AuthenticationException),
    }
}

/// The cluster VIP read from a port: its first fixed IP. A port without any
/// fixed IP is a descriptive fatal error.
pub fn get_vip(port: &PortDetail) -> (r: Result<String, Exception>)
    ensures
        port.fixed_ips@.len() > 0 ==> (r matches Ok(a) && a@ == port.fixed_ips@[0].ip_address@),
        port.fixed_ips@.len() == 0 ==> (r matches Err(e) && e matches Exception::Error(m) && m@
            == "port "@ + port.id@ + " have no ip"@),
{
    if port.fixed_ips.len() > 0 {
        Ok(port.fixed_ips[0].ip_address.clone())
    } else {
        let msg = String::from_str("port ").concat(port.id.as_str()).concat(" have no ip");
        Err(Exception::Error(msg))
    }
}

/// The server-creation payload: one server in the given zone, booted from
/// `image` unless a snapshot is given, attached to the external network and,
/// when `multi_port` is set, to the internal network too. A snapshot becomes
/// the single boot-from-snapshot block device.
pub fn create_server_payload(
    name: &str,
    flavor: &str,
    image: &str,
    az: &str,
    snapshot_id: Option<String>,
    multi_port: bool,
    external_network: &str,
    internal_network: &str,
) -> (r: ServerCreate)
    ensures
        r.server.name@ == name@,
        r.server.flavor_ref@ == flavor@,
        r.server.image_ref@ == image@,
        r.server.availability_zone@ == az@,
        r.server.max_count == 1,
        multi_port ==> r.server.networks@.len() == 2 && r.server.networks@[1].uuid@
            == internal_network@,
        !multi_port ==> r.server.networks@.len() == 1,
        r.server.networks@[0].uuid@ == external_network@,
        snapshot_id matches Some(s) ==> ({
            &&& r.server.block_device_mapping_v2@.len() == 1
            &&& r.server.block_device_mapping_v2@[0].boot_index == 0
            &&& r.server.block_device_mapping_v2@[0].delete_on_termination == true
            &&& r.server.block_device_mapping_v2@[0].source_type@ == "snapshot"@
            &&& r.server.block_device_mapping_v2@[0].destination_type@ == "volume"@
            &&& r.server.block_device_mapping_v2@[0].uuid == s
        }),
        snapshot_id is None ==> r.server.block_device_mapping_v2@.len() == 0,
{
    let networks = Network::new(multi_port, external_network, internal_network);
    let mut payload = ServerCreate::new(
        String::from_str(name),
        String::from_str(flavor),
        String::from_str(image),
        networks,
        String::from_str(az),
        1,
    );
    if let Some(snapshot) = snapshot_id {
        let block_device = BlockDevice::new(
            0,
            true,
            String::from_str("snapshot"),
            String::from_str("volume"),
            snapshot,
        );
        let mut mapping: Vec<BlockDevice> = Vec::new();
        mapping.push(block_device);
        payload.server.block_device_mapping_v2 = mapping;
    }
    payload
}

} // verus!
