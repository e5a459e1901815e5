use adakairust::node::Node;
use adakairust::types::{NetworkType, NodeType};

#[test]
fn default_node_is_empty_and_offline() {
    let node = Node::default();
    assert_eq!(node.addr(), "");
    assert_eq!(node.port(), 0);
    assert_eq!(node.continent(), "");
    assert_eq!(node.state(), "");
    assert_eq!(node.valency(), 1);
    assert_eq!(node.con_latency(), 0);
    assert_eq!(node.total_latency(), 0);
    assert!(!node.online());
    assert_eq!(node.online_error(), "");
    assert!(matches!(node.network_type(), NetworkType::Mainnet));
    assert!(matches!(node.node_type(), NodeType::Relay));
}

#[test]
fn new_keeps_configured_fields() {
    let node = Node::new(
        "costa-rica.adakailabs.com".to_string(),
        5000,
        "North America".to_string(),
        "CR".to_string(),
        NetworkType::TestNet,
    );
    assert_eq!(node.addr(), "costa-rica.adakailabs.com");
    assert_eq!(node.port(), 5000);
    assert_eq!(node.continent(), "North America");
    assert_eq!(node.state(), "CR");
    assert!(matches!(node.network_type(), NetworkType::TestNet));
    assert!(!node.online());
    assert_eq!(node.valency(), 1);
}

#[test]
fn setters_round_trip_through_getters() {
    let mut node = Node::default();
    node.set_addr("54.220.20.40".to_string());
    node.set_port(3002);
    node.set_continent("Europe".to_string());
    node.set_state("IE".to_string());
    node.set_valency(3);
    node.set_con_latency(120);
    node.set_total_latency(450);
    node.set_online(true);
    node.set_online_error("".to_string());
    node.set_network_type(NetworkType::TestNet);

    assert_eq!(node.addr(), "54.220.20.40");
    assert_eq!(node.port(), 3002);
    assert_eq!(node.continent(), "Europe");
    assert_eq!(node.state(), "IE");
    assert_eq!(node.valency(), 3);
    assert_eq!(node.con_latency(), 120);
    assert_eq!(node.total_latency(), 450);
    assert!(node.online());
    assert_eq!(node.online_error(), "");
    assert!(matches!(node.network_type(), NetworkType::TestNet));
}

#[test]
fn clone_keeps_every_field() {
    let mut node = Node::new(
        "relay.zenithpool.io".to_string(),
        31400,
        "North America".to_string(),
        "Arizona".to_string(),
        NetworkType::Mainnet,
    );
    node.set_total_latency(77);
    node.set_online_error("connection refused".to_string());
    let copy = node.clone();
    assert_eq!(copy.addr(), node.addr());
    assert_eq!(copy.port(), node.port());
    assert_eq!(copy.continent(), node.continent());
    assert_eq!(copy.state(), node.state());
    assert_eq!(copy.total_latency(), node.total_latency());
    assert_eq!(copy.online_error(), node.online_error());
}
