//! Configuration-file generation for the deploy stage, and the run
//! timestamp. A host's `node` line is written as
//! `name,address,password,iface1,iface2`; multi-node runs add a `global`
//! section holding the VIP and the keepalived router id.
use vstd::prelude::*;

use crate::errors::Exception;
use crate::inifile::parse_ini;
use crate::inifile::render_doc;
use crate::inifile::spec_parse;
use crate::inifile::spec_set;
use crate::inifile::SectionView;
use crate::strutil::dec_str;
use crate::strutil::u32_to_dec;

verus! {

/// The run timestamp used to name resources, to the minute.
///
/// Relies on chrono's `Local::now` and its `%Y-%m-%d-%H-%M` formatting: the
/// result depends on the clock, so nothing is promised of it.
#[verifier::external_body]
pub fn get_timestamp() -> String {
    let fmt = "%Y-%m-%d-%H-%M";
    let now = chrono::Local::now();
    now.format(fmt).to_string()
}

/// One reachable host and its two interface names, as the per-host
/// configuration steps discovered them.
#[derive(Debug)]
pub struct HostNics {
    pub host: String,
    pub nic1: String,
    pub nic2: String,
}

impl View for HostNics {
    type V = (Seq<char>, Seq<char>, Seq<char>);

    open spec fn view(&self) -> (Seq<char>, Seq<char>, Seq<char>) {
        (self.host@, self.nic1@, self.nic2@)
    }
}

/// The mathematical value of a host list.
pub open spec fn hosts_view(hosts: &Vec<HostNics>) -> Seq<(Seq<char>, Seq<char>, Seq<char>)> {
    Seq::new(hosts@.len(), |i: int| hosts@[i]@)
}

/// The configuration line of one node.
pub open spec fn node_line_of(
    hostname: Seq<char>,
    host: Seq<char>,
    password: Seq<char>,
    nic1: Seq<char>,
    nic2: Seq<char>,
) -> Seq<char> {
    hostname + ","@ + host + ","@ + password + ","@ + nic1 + ","@ + nic2
}

/// The `node` entry of one host: its name, address, password and two
/// interface names, comma-separated.
pub fn node_line(hostname: &str, host: &str, password: &str, nic1: &str, nic2: &str) -> (r: String)
    ensures
        r@ == node_line_of(hostname@, host@, password@, nic1@, nic2@),
{
    String::from_str(hostname).concat(",").concat(host).concat(",").concat(password).concat(
        ",",
    ).concat(nic1).concat(",").concat(nic2)
}

/// The parsed configuration after the single-node write: one `node` entry
/// named `node`, carrying host `node1`.
pub open spec fn spec_single_node_config(
    d: Seq<SectionView>,
    host: Seq<char>,
    password: Seq<char>,
    nic1: Seq<char>,
    nic2: Seq<char>,
) -> Seq<SectionView> {
    spec_set(d, "node"@, "node"@, node_line_of("node1"@, host, password, nic1, nic2))
}

/// Writes the single-node configuration into an existing configuration file
/// text: the file is parsed, the one `node` entry is set, and the file text
/// is rendered back. A file that does not parse is a configuration-file
/// error.
pub fn generate_single_node_config_file(
    contents: &str,
    host: &str,
    password: &str,
    nic1: &str,
    nic2: &str,
) -> (r: Result<String, Exception>)
    ensures
        spec_parse(contents@) matches Some(d) ==> (r matches Ok(out) && out@ == render_doc(
            spec_single_node_config(d, host@, password@, nic1@, nic2@),
        )),
        spec_parse(contents@) is None ==> (r matches Err(e) && e is IniException),
{
    let mut doc = match parse_ini(contents) {
        Ok(d) => d,
        Err(e) => {
            return Err(e);
        },
    };
    let line = node_line("node1", host, password, nic1, nic2);
    doc.set("node", "node", line.as_str());
    Ok(doc.render())
}

/// The configuration after one host of a multi-node run is written: a
/// `node` entry keyed `node<num>`, and the `global` VIP and router id.
pub open spec fn spec_multi_node_step(
    d: Seq<SectionView>,
    num: nat,
    host: (Seq<char>, Seq<char>, Seq<char>),
    password: Seq<char>,
    vip: Seq<char>,
    keepalived_router_id: Seq<char>,
) -> Seq<SectionView> {
    let hostname = "node"@ + dec_str(num);
    let with_node = spec_set(
        d,
        "node"@,
        hostname,
        node_line_of(hostname, host.0, password, host.1, host.2),
    );
    let with_vip = spec_set(with_node, "global"@, "vip"@, vip);
    spec_set(with_vip, "global"@, "keepalived_router_id"@, keepalived_router_id)
}

/// The configuration after the hosts numbered `num`, `num + 1`, ... are
/// written in order.
pub open spec fn spec_multi_node_fold(
    d: Seq<SectionView>,
    hosts: Seq<(Seq<char>, Seq<char>, Seq<char>)>,
    num: nat,
    password: Seq<char>,
    vip: Seq<char>,
    keepalived_router_id: Seq<char>,
) -> Seq<SectionView>
    decreases hosts.len(),
{
    if hosts.len() == 0 {
        d
    } else {
        spec_multi_node_fold(
            spec_multi_node_step(d, num, hosts[0], password, vip, keepalived_router_id),
            hosts.drop_first(),
            num + 1,
            password,
            vip,
            keepalived_router_id,
        )
    }
}

/// Writes the multi-node configuration into an existing configuration file
/// text: hosts are numbered from one in list order, each contributes its
/// `node` entry, and the shared VIP and keepalived router id are written to
/// the `global` section. A file that does not parse is a configuration-file
/// error.
pub fn generate_multi_node_config_file(
    contents: &str,
    hosts: &Vec<HostNics>,
    password: &str,
    vip: &str,
    keepalived_router_id: &str,
) -> (r: Result<String, Exception>)
    requires
        hosts@.len() < 0xffffffff,
    ensures
        spec_parse(contents@) matches Some(d) ==> (r matches Ok(out) && out@ == render_doc(
            spec_multi_node_fold(
                d,
                hosts_view(hosts),
                1,
                password@,
                vip@,
                keepalived_router_id@,
            ),
        )),
        spec_parse(contents@) is None ==> (r matches Err(e) && e is IniException),
{
    let mut doc = match parse_ini(contents) {
        Ok(d) => d,
        Err(e) => {
            return Err(e);
        },
    };
    let ghost d0 = doc@;
    let n = hosts.len();
    proof {
        assert(hosts_view(hosts).subrange(0, n as int) =~= hosts_view(hosts));
    }
    let mut i: usize = 0;
    while i < n
        invariant
            0 <= i <= n,
            n == hosts@.len(),
            n < 0xffffffff,
            spec_multi_node_fold(
                d0,
                hosts_view(hosts),
                1,
                password@,
                vip@,
                keepalived_router_id@,
            ) == spec_multi_node_fold(
                doc@,
                hosts_view(hosts).subrange(i as int, n as int),
                i as nat + 1,
                password@,
                vip@,
                keepalived_router_id@,
            ),
        decreases n - i,
    {
        let ghost pre = doc@;
        let ghost sub = hosts_view(hosts).subrange(i as int, n as int);
        proof {
            assert(sub[0] == hosts@[i as int]@);
            assert(sub.drop_first() =~= hosts_view(hosts).subrange(i + 1, n as int));
        }
        let hostname = String::from_str("node").concat(u32_to_dec((i + 1) as u32).as_str());
        let entry = &hosts[i];
        let line = node_line(
            hostname.as_str(),
            entry.host.as_str(),
            password,
            entry.nic1.as_str(),
            entry.nic2.as_str(),
        );
        doc.set("node", hostname.as_str(), line.as_str());
        doc.set("global", "vip", vip);
        doc.set("global", "keepalived_router_id", keepalived_router_id);
        proof {
            assert(doc@ == spec_multi_node_step(
                pre,
                i as nat + 1,
                sub[0],
                password@,
                vip@,
                keepalived_router_id@,
            ));
        }
        i = i + 1;
    }
    proof {
        assert(hosts_view(hosts).subrange(n as int, n as int) =~= Seq::<
            (Seq<char>, Seq<char>, Seq<char>),
        >::empty());
    }
    Ok(doc.render())
}

} // verus!
