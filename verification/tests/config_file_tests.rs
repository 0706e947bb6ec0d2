use pipeman::inifile::parse_ini;
use pipeman::utils::{
    generate_multi_node_config_file, generate_single_node_config_file, node_line, HostNics,
};

#[test]
fn node_line_format() {
    assert_eq!(
        node_line("node1", "10.0.0.5", "pw", "ens3", "ens4"),
        "node1,10.0.0.5,pw,ens3,ens4"
    );
}

#[test]
fn single_node_file_holds_one_node_line() {
    // the single-node configure stage writes one `node` entry into the
    // existing template and leaves the rest of the file alone
    let template = "[node]\nnode=old\n[global]\nkeep=1\n";
    let out =
        generate_single_node_config_file(template, "10.0.0.7", "secret", "ens3", "ens4").unwrap();
    let doc = parse_ini(out.as_str()).unwrap();
    assert_eq!(doc.get("node", "node").unwrap(), "node1,10.0.0.7,secret,ens3,ens4");
    assert_eq!(doc.section_key_count("node"), 1);
    assert_eq!(doc.get("global", "keep").unwrap(), "1");
}

#[test]
fn single_node_rejects_bad_template() {
    assert!(generate_single_node_config_file("garbage line", "h", "p", "a", "b").is_err());
}

fn three_hosts() -> Vec<HostNics> {
    vec![
        HostNics { host: "A".to_string(), nic1: "a1".to_string(), nic2: "a2".to_string() },
        HostNics { host: "B".to_string(), nic1: "b1".to_string(), nic2: "b2".to_string() },
        HostNics { host: "C".to_string(), nic1: "c1".to_string(), nic2: "c2".to_string() },
    ]
}

#[test]
fn multi_node_round_trip_three_nodes_and_global() {
    // a file written for three hosts with a VIP and a router id must parse
    // back with three node keys and exactly that global section
    let template = "[node]\n";
    let out = generate_multi_node_config_file(template, &three_hosts(), "pw", "10.0.0.100", "51")
        .unwrap();
    let doc = parse_ini(out.as_str()).unwrap();
    assert_eq!(doc.section_key_count("node"), 3);
    assert_eq!(doc.get("node", "node1").unwrap(), "node1,A,pw,a1,a2");
    assert_eq!(doc.get("node", "node2").unwrap(), "node2,B,pw,b1,b2");
    assert_eq!(doc.get("node", "node3").unwrap(), "node3,C,pw,c1,c2");
    assert_eq!(doc.section_key_count("global"), 2);
    assert_eq!(doc.get("global", "vip").unwrap(), "10.0.0.100");
    assert_eq!(doc.get("global", "keepalived_router_id").unwrap(), "51");
}

#[test]
fn multi_node_output_read_back_by_ini_crate() {
    // the written file is a plain ini artifact: the ini crate reads the same
    // three node keys and the same global values back
    let out = generate_multi_node_config_file("[node]\n", &three_hosts(), "pw", "V", "R").unwrap();
    let ini = ini::Ini::load_from_str(out.as_str()).unwrap();
    let node = ini.section(Some("node")).unwrap();
    assert_eq!(node.len(), 3);
    assert_eq!(node.get("node2").unwrap(), "node2,B,pw,b1,b2");
    let global = ini.section(Some("global")).unwrap();
    assert_eq!(global.len(), 2);
    assert_eq!(global.get("vip").unwrap(), "V");
    assert_eq!(global.get("keepalived_router_id").unwrap(), "R");
}

#[test]
fn multi_node_rejects_bad_template() {
    assert!(generate_multi_node_config_file("broken", &three_hosts(), "p", "v", "r").is_err());
}

#[test]
fn timestamp_is_produced() {
    let t = pipeman::utils::get_timestamp();
    assert!(!t.is_empty());
}
