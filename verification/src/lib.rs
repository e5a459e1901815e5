//! Building blocks for probing the availability and latency of the peer
//! nodes of a Cardano network.
//!
//! The crate models a batch probe of `N` configured nodes: requests are
//! fanned out to a pool of workers, each worker measures connection and
//! handshake latency under a bounded retry policy and resolves the node's
//! DNS fan-out degree ("valency"), and a collector gathers the responses
//! in arrival order.  The responses are then reconciled back onto the node
//! records by their `id` field.
//!
//! The wire-level connect/handshake, DNS resolution, JSON topology files
//! and any presentation of the results are outside collaborators: callers
//! perform them and hand the plain outcomes to the functions here, which
//! carry the decision logic and its proofs.

pub mod node;
pub mod ping;
pub mod pinger;
pub mod topology;
pub mod types;
