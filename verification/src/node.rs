//! The record kept for one configured node: its address and port, the
//! informational location fields, and the health fields that a probe
//! fills in (latencies, online state, valency).

use vstd::prelude::*;

use crate::types::{NetworkType, NodeType};

verus! {

/// The mathematical value of a [`Node`]: every field as a plain value.
/// Latencies are in milliseconds.
pub ghost struct NodeView {
    /// IP address or DNS name.
    pub addr: Seq<char>,
    /// TCP port.
    pub port: u16,
    /// Continent the node is located on (informational).
    pub continent: Seq<char>,
    /// State the node is located in (informational).
    pub state: Seq<char>,
    /// DNS fan-out degree: number of addresses behind a DNS name, 1 for a
    /// literal IP.
    pub valency: u16,
    /// Time until a connection was established, in milliseconds.
    pub con_latency: u64,
    /// Time until the handshake completed, in milliseconds.
    pub total_latency: u64,
    /// Network the node belongs to.
    pub network_type: NetworkType,
    /// Role of the node.
    pub node_type: NodeType,
    /// Whether the last probe reached the node.
    pub online: bool,
    /// Error text explaining a non-online state.
    pub online_error: Seq<char>,
}

/// The values of a sequence of nodes, element by element.
pub open spec fn nodes_view(s: Seq<Node>) -> Seq<NodeView> {
    Seq::new(s.len(), |i: int| s[i]@)
}

/// Configuration and measured health of one Cardano node.
///
/// Identity is the pair (address, port).  The latency, online and valency
/// fields are only meaningful after a probe's responses were reconciled
/// onto the record.
#[derive(Debug)]
pub struct Node {
    addr: String,
    port: u16,
    continent: String,
    state: String,
    valency: u16,
    con_latency: u64,
    total_latency: u64,
    network_type: NetworkType,
    node_type: NodeType,
    online: bool,
    online_error: String,
}

impl View for Node {
    type V = NodeView;

    closed spec fn view(&self) -> NodeView {
        NodeView {
            addr: self.addr@,
            port: self.port,
            continent: self.continent@,
            state: self.state@,
            valency: self.valency,
            con_latency: self.con_latency,
            total_latency: self.total_latency,
            network_type: self.network_type,
            node_type: self.node_type,
            online: self.online,
            online_error: self.online_error@,
        }
    }
}

impl Default for Node {
    /// An empty record: empty strings, zeroed measurements, offline, the
    /// default network and role, and the default valency of 1.
    fn default() -> (r: Self)
        ensures
            r@ == (NodeView {
                addr: Seq::<char>::empty(),
                port: 0u16,
                continent: Seq::<char>::empty(),
                state: Seq::<char>::empty(),
                valency: 1u16,
                con_latency: 0u64,
                total_latency: 0u64,
                network_type: NetworkType::Mainnet,
                node_type: NodeType::Relay,
                online: false,
                online_error: Seq::<char>::empty(),
            }),
    {
        Node {
            addr: String::new(),
            port: 0,
            continent: String::new(),
            state: String::new(),
            valency: 1,
            con_latency: 0,
            total_latency: 0,
            network_type: NetworkType::Mainnet,
            node_type: NodeType::Relay,
            online: false,
            online_error: String::new(),
        }
    }
}

impl Clone for Node {
    /// A clone has the same value.
    fn clone(&self) -> (r: Self)
        ensures
            r@ == self@,
    {
        Node {
            addr: self.addr.clone(),
            port: self.port,
            continent: self.continent.clone(),
            state: self.state.clone(),
            valency: self.valency,
            con_latency: self.con_latency,
            total_latency: self.total_latency,
            network_type: self.network_type,
            node_type: self.node_type,
            online: self.online,
            online_error: self.online_error.clone(),
        }
    }
}

impl Node {
    /// Builds a record from its configured fields.  Measurements start
    /// zeroed and offline, the valency at its default of 1, the role at
    /// relay.
    pub fn new(
        addr: String,
        port: u16,
        continent: String,
        state: String,
        network_type: NetworkType,
    ) -> (r: Node)
        ensures
            r@ == (NodeView {
                addr: addr@,
                port: port,
                continent: continent@,
                state: state@,
                valency: 1u16,
                con_latency: 0u64,
                total_latency: 0u64,
                network_type: network_type,
                node_type: NodeType::Relay,
                online: false,
                online_error: Seq::<char>::empty(),
            }),
    {
        Node {
            addr,
            port,
            continent,
            state,
            valency: 1,
            con_latency: 0,
            total_latency: 0,
            network_type,
            node_type: NodeType::Relay,
            online: false,
            online_error: String::new(),
        }
    }

    /// Sets the node's IP or DNS address.
    pub fn set_addr(&mut self, addr: String)
        ensures
            final(self)@ == (NodeView { addr: addr@, ..old(self)@ }),
    {
        self.addr = addr;
    }

    /// Sets the node's TCP port.
    pub fn set_port(&mut self, port: u16)
        ensures
            final(self)@ == (NodeView { port: port, ..old(self)@ }),
    {
        self.port = port;
    }

    /// Sets the continent the node is located on.
    pub fn set_continent(&mut self, continent: String)
        ensures
            final(self)@ == (NodeView { continent: continent@, ..old(self)@ }),
    {
        self.continent = continent;
    }

    /// Sets the state the node is located in.
    pub fn set_state(&mut self, state: String)
        ensures
            final(self)@ == (NodeView { state: state@, ..old(self)@ }),
    {
        self.state = state;
    }

    /// Sets the node's valency.
    pub fn set_valency(&mut self, valency: u16)
        ensures
            final(self)@ == (NodeView { valency: valency, ..old(self)@ }),
    {
        self.valency = valency;
    }

    /// Sets the connection latency, in milliseconds.
    pub fn set_con_latency(&mut self, latency: u64)
        ensures
            final(self)@ == (NodeView { con_latency: latency, ..old(self)@ }),
    {
        self.con_latency = latency;
    }

    /// Sets the total (end-to-end) latency, in milliseconds.
    pub fn set_total_latency(&mut self, latency: u64)
        ensures
            final(self)@ == (NodeView { total_latency: latency, ..old(self)@ }),
    {
        self.total_latency = latency;
    }

    /// Sets the online state.
    pub fn set_online(&mut self, online: bool)
        ensures
            final(self)@ == (NodeView { online: online, ..old(self)@ }),
    {
        self.online = online;
    }

    /// Sets the error text that explains a non-online state.
    pub fn set_online_error(&mut self, online_error: String)
        ensures
            final(self)@ == (NodeView { online_error: online_error@, ..old(self)@ }),
    {
        self.online_error = online_error;
    }

    /// Sets the network the node belongs to.
    pub fn set_network_type(&mut self, ntype: NetworkType)
        ensures
            final(self)@ == (NodeView { network_type: ntype, ..old(self)@ }),
    {
        self.network_type = ntype;
    }

    /// Returns the IP address or DNS name.
    pub fn addr(&self) -> (r: &str)
        ensures
            r@ == self@.addr,
    {
        self.addr.as_str()
    }

    /// Returns the TCP port.
    pub fn port(&self) -> (r: u16)
        ensures
            r == self@.port,
    {
        self.port
    }

    /// Returns the continent the node is located on.  Default: `""`.
    pub fn continent(&self) -> (r: &str)
        ensures
            r@ == self@.continent,
    {
        self.continent.as_str()
    }

    /// Returns the state the node is located in.  Default: `""`.
    pub fn state(&self) -> (r: &str)
        ensures
            r@ == self@.state,
    {
        self.state.as_str()
    }

    /// Returns the node's valency.
    pub fn valency(&self) -> (r: u16)
        ensures
            r == self@.valency,
    {
        self.valency
    }

    /// Returns the connection latency, in milliseconds.
    pub fn con_latency(&self) -> (r: u64)
        ensures
            r == self@.con_latency,
    {
        self.con_latency
    }

    /// Returns the total latency, in milliseconds.
    pub fn total_latency(&self) -> (r: u64)
        ensures
            r == self@.total_latency,
    {
        self.total_latency
    }

    /// Returns the online state.  Default: offline.
    pub fn online(&self) -> (r: bool)
        ensures
            r == self@.online,
    {
        self.online
    }

    /// Returns the error text associated with the online state.
    pub fn online_error(&self) -> (r: String)
        ensures
            r@ == self@.online_error,
    {
        self.online_error.clone()
    }

    /// Returns the network the node belongs to.
    pub fn network_type(&self) -> (r: NetworkType)
        ensures
            r == self@.network_type,
    {
        self.network_type
    }

    /// Returns the role of the node.
    pub fn node_type(&self) -> (r: NodeType)
        ensures
            r == self@.node_type,
    {
        self.node_type
    }
}

} // verus!
