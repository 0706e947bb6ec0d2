//! Compute-service resources: the server-creation payload with its optional
//! boot-from-snapshot block device and network attachments, and the server
//! details a show request returns.
use vstd::prelude::*;

verus! {

/// The server-creation request body.
#[derive(Debug, Clone)]
pub struct ServerCreate {
    pub server: ServerCreateFields,
}

/// The fields of a server-creation request.
#[derive(Debug, Clone)]
pub struct ServerCreateFields {
    pub name: String,
    pub networks: Vec<Network>,
    pub availability_zone: String,
    pub image_ref: String,
    pub flavor_ref: String,
    pub max_count: i32,
    pub block_device_mapping_v2: Vec<BlockDevice>,
}

impl ServerCreate {
    /// A creation request with the given fields and no block devices.
    pub fn new(
        name: String,
        flavor: String,
        image: String,
        networks: Vec<Network>,
        availability_zone: String,
        count: i32,
    ) -> (r: Self)
        ensures
            r.server.name == name,
            r.server.networks == networks,
            r.server.availability_zone == availability_zone,
            r.server.image_ref == image,
            r.server.flavor_ref == flavor,
            r.server.max_count == count,
            r.server.block_device_mapping_v2@.len() == 0,
    {
        Self {
            server: ServerCreateFields {
                name,
                networks,
                availability_zone,
                image_ref: image,
                flavor_ref: flavor,
                max_count: count,
                block_device_mapping_v2: Vec::new(),
            },
        }
    }
}

/// One block-device mapping of a server-creation request.
#[derive(Debug, Clone)]
pub struct BlockDevice {
    pub boot_index: i32,
    pub delete_on_termination: bool,
    pub source_type: String,
    pub destination_type: String,
    pub uuid: String,
}

impl BlockDevice {
    /// A mapping with exactly the given fields.
    pub fn new(
        boot_index: i32,
        delete_on_termination: bool,
        source_type: String,
        destination_type: String,
        uuid: String,
    ) -> (r: Self)
        ensures
            r.boot_index == boot_index,
            r.delete_on_termination == delete_on_termination,
            r.source_type == source_type,
            r.destination_type == destination_type,
            r.uuid == uuid,
    {
        Self { boot_index, delete_on_termination, source_type, destination_type, uuid }
    }
}

/// One network attachment of a server-creation request.
#[derive(Debug, Clone)]
pub struct Network {
    pub uuid: String,
}

impl Network {
    /// The network attachments of a new server: always the external network,
    /// and the internal network too when `multi_port` is set.
    pub fn new(multi_port: bool, external_network: &str, internal_network: &str) -> (r: Vec<Self>)
        ensures
            multi_port ==> r@.len() == 2 && r@[1].uuid@ == internal_network@,
            !multi_port ==> r@.len() == 1,
            r@[0].uuid@ == external_network@,
    {
        let mut networks: Vec<Self> = Vec::new();
        networks.push(Self { uuid: String::from_str(external_network) });
        if multi_port {
            networks.push(Self { uuid: String::from_str(internal_network) });
        }
        networks
    }
}

/// The servers a list request returns.
#[derive(Debug, Clone)]
pub struct Servers {
    pub servers: Vec<ServerDetail>,
}

/// One server, as a show request returns it.
#[derive(Debug, Clone)]
pub struct Server {
    pub server: ServerDetail,
}

/// A server: identifier, name, status, its addresses grouped by network
/// name, and the volumes attached to it.
#[derive(Debug, Clone)]
pub struct ServerDetail {
    pub id: String,
    pub name: String,
    pub status: String,
    pub addresses: Vec<AddressEntry>,
    pub volumes_attached: Vec<VolumeAttached>,
}

/// The addresses a server holds on one named network.
#[derive(Debug, Clone)]
pub struct AddressEntry {
    pub network: String,
    pub addrs: Vec<Address>,
}

/// One volume attached to a server.
#[derive(Debug, Clone)]
pub struct VolumeAttached {
    pub id: String,
}

/// One address of a server.
#[derive(Debug, Clone)]
pub struct Address {
    pub addr: String,
}

/// The position of the first address entry for network `name`; the length of
/// `entries` when there is none.
pub open spec fn find_network_entry(entries: Seq<AddressEntry>, name: Seq<char>) -> int
    decreases entries.len(),
{
    if entries.len() == 0 {
        0
    } else if entries[0].network@ == name {
        0
    } else {
        1 + find_network_entry(entries.drop_first(), name)
    }
}

/// `find_network_entry` returns the first matching position, or the length
/// when there is none.
pub proof fn lemma_find_network_entry(entries: Seq<AddressEntry>, name: Seq<char>)
    ensures
        0 <= find_network_entry(entries, name) <= entries.len(),
        find_network_entry(entries, name) < entries.len() ==> entries[find_network_entry(
            entries,
            name,
        )].network@ == name,
        forall|j: int|
            0 <= j < find_network_entry(entries, name) ==> entries[j].network@ != name,
    decreases entries.len(),
{
    if entries.len() > 0 && entries[0].network@ != name {
        lemma_find_network_entry(entries.drop_first(), name);
        assert forall|j: int| 0 <= j < find_network_entry(entries, name) implies entries[j].network@
            != name by {
            if j > 0 {
                assert(entries.drop_first()[j - 1] == entries[j]);
            }
        }
    }
}

impl ServerDetail {
    /// The server's first address on the named external network: the host
    /// the orchestrator will reach it at. An error when the server holds no
    /// entry for that network or the entry is empty.
    pub fn addr(&self, external_network_name: &str) -> (r: Result<String, crate::errors::Exception>)
        ensures
            ({
                let i = find_network_entry(self.addresses@, external_network_name@);
                &&& (i < self.addresses@.len() && self.addresses@[i].addrs@.len() > 0 ==> (
                r matches Ok(a) && a@ == self.addresses@[i].addrs@[0].addr@))
                &&& (i == self.addresses@.len() || self.addresses@[i].addrs@.len() == 0 ==> (
                r matches Err(e) && e matches crate::errors::Exception::Error(m) && m@
                    == "server has no address on the external network"@))
            }),
    {
        proof {
            lemma_find_network_entry(self.addresses@, external_network_name@);
        }
        let n = self.addresses.len();
        let mut k: usize = 0;
        while k < n
            invariant
                0 <= k <= n,
                n == self.addresses@.len(),
                forall|j: int| 0 <= j < k ==> self.addresses@[j].network@ != external_network_name@,
            decreases n - k,
        {
            let entry = &self.addresses[k];
            if crate::strutil::str_eq(entry.network.as_str(), external_network_name) {
                proof {
                    let i = find_network_entry(self.addresses@, external_network_name@);
                    lemma_find_network_entry(self.addresses@, external_network_name@);
                    assert(i == k as int);
                }
                if entry.addrs.len() > 0 {
                    return Ok(entry.addrs[0].addr.clone());
                } else {
                    return Err(
                        crate::errors::Exception::Error(
                            String::from_str("server has no address on the external network"),
                        ),
                    );
                }
            }
            k = k + 1;
        }
        proof {
            let i = find_network_entry(self.addresses@, external_network_name@);
            lemma_find_network_entry(self.addresses@, external_network_name@);
        }
        Err(
            crate::errors::Exception::Error(
                String::from_str("server has no address on the external network"),
            ),
        )
    }
}

/// The action body that detaches the boot ISO from a server.
#[derive(Debug, Clone)]
pub struct ServerISODetachAction {
    pub detach: ISODetachAction,
}

/// The empty detach action.
#[derive(Debug, Clone)]
pub struct ISODetachAction {}

impl ServerISODetachAction {
    /// The detach action payload.
    pub fn new() -> (r: Self)
        ensures
            r == (ServerISODetachAction { detach: ISODetachAction {  } }),
    {
        Self { detach: ISODetachAction {  } }
    }
}

} // verus!
