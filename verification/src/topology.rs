//! The configured set of peer nodes of one network: construction from
//! parsed producer records, valency resolution over the whole set, and
//! ordering by measured latency.
//!
//! Reading a topology document (JSON, HTTP) is an outside collaborator's
//! job: it hands the parsed producer records to [`Topology::new`].

use vstd::prelude::*;

use crate::node::{nodes_view, Node, NodeView};
use crate::ping::{spec_valency, valency, is_ip_literal};
use crate::types::NetworkType;

verus! {

/// The mathematical value of a [`Topology`].
pub ghost struct TopologyView {
    /// The producer records, in order.
    pub producers: Seq<Node>,
    /// The network all producers belong to.
    pub network_type: NetworkType,
}

/// The configured peer nodes of one network.
#[derive(Debug)]
pub struct Topology {
    producers: Vec<Node>,
    network_type: NetworkType,
}

impl View for Topology {
    type V = TopologyView;

    closed spec fn view(&self) -> TopologyView {
        TopologyView { producers: self.producers@, network_type: self.network_type }
    }
}

/// Whether a run of nodes is ordered by ascending total latency.
pub open spec fn sorted_by_total_latency(s: Seq<NodeView>) -> bool {
    forall|a: int, b: int|
        0 <= a < b < s.len() ==> s[a].total_latency <= s[b].total_latency
}

/// The records of one latency class: the subsequence of `s` whose total
/// latency is exactly `lat`, in their current order.
pub open spec fn latency_class(s: Seq<Node>, lat: u64) -> Seq<Node> {
    s.filter(|n: Node| n@.total_latency == lat)
}

/// Moving one record to the left across records of strictly greater
/// latency reorders no latency class: the moved record crosses no record
/// of its own class, and the others keep their places among themselves.
proof fn lemma_move_left_keeps_classes(v: Seq<Node>, i: int, j: int, lat: u64)
    requires
        0 <= j <= i < v.len(),
        forall|p: int| j <= p < i ==> v[p]@.total_latency > v[i]@.total_latency,
    ensures
        latency_class(v.remove(i).insert(j, v[i]), lat) == latency_class(v, lat),
{
    let pred = |n: Node| n@.total_latency == lat;
    let m = v[i];
    let a = v.subrange(0, j);
    let b = v.subrange(j, i);
    let d = v.subrange(i + 1, v.len() as int);
    assert(v =~= a + b + seq![m] + d);
    assert(v.remove(i).insert(j, m) =~= a + seq![m] + b + d);
    Seq::filter_distributes_over_add(a, b, pred);
    Seq::filter_distributes_over_add(a + b, seq![m], pred);
    Seq::filter_distributes_over_add(a + b + seq![m], d, pred);
    Seq::filter_distributes_over_add(a, seq![m], pred);
    Seq::filter_distributes_over_add(a + seq![m], b, pred);
    Seq::filter_distributes_over_add(a + seq![m] + b, d, pred);
    if pred(m) {
        // The records the move crosses all have a strictly greater
        // latency, so none belongs to m's own class.
        assert(b.all(|n: Node| !pred(n)));
        b.lemma_all_neg_filter_empty(pred);
        assert(b.filter(pred) =~= Seq::<Node>::empty());
    } else {
        assert(seq![m].all(|n: Node| !pred(n)));
        seq![m].lemma_all_neg_filter_empty(pred);
        assert(seq![m].filter(pred) =~= Seq::<Node>::empty());
    }
    assert(latency_class(v.remove(i).insert(j, v[i]), lat) =~= latency_class(v, lat));
}

impl Topology {
    /// Builds a topology from parsed producer records: every record is
    /// stamped with the topology's network and kept otherwise unchanged,
    /// in order.
    pub fn new(producers: Vec<Node>, network_type: NetworkType) -> (t: Topology)
        ensures
            t@.network_type == network_type,
            t@.producers.len() == producers@.len(),
            forall|i: int|
                0 <= i < producers@.len() ==> (#[trigger] t@.producers[i])@ == (NodeView {
                    network_type: network_type,
                    ..producers@[i]@
                }),
    {
        let mut producers = producers;
        let ghost orig = producers@;
        let mut i: usize = 0;
        while i < producers.len()
            invariant
                i <= producers@.len(),
                producers@.len() == orig.len(),
                forall|j: int|
                    0 <= j < i ==> (#[trigger] producers@[j])@ == (NodeView {
                        network_type: network_type,
                        ..orig[j]@
                    }),
                forall|j: int|
                    i <= j < producers@.len() ==> #[trigger] producers@[j] == orig[j],
            decreases producers@.len() - i,
        {
            let node = &mut producers[i];
            node.set_network_type(network_type);
            i = i + 1;
        }
        Topology { producers, network_type }
    }

    /// Returns the producer records, in their current order.
    pub fn producers(&self) -> (r: &Vec<Node>)
        ensures
            r@ == self@.producers,
    {
        &self.producers
    }

    /// Returns the network the topology belongs to.
    pub fn network_type(&self) -> (r: NetworkType)
        ensures
            r == self@.network_type,
    {
        self.network_type
    }

    /// Resolves the valency of every producer from the caller-supplied
    /// DNS lookup outcomes, one per producer in order (`None` where the
    /// lookup failed).  Each record takes the valency that
    /// [`spec_valency`] assigns to its address and its lookup outcome;
    /// nothing else changes, and a failed lookup degrades only the
    /// valency.
    pub fn resolve_valencies(&mut self, resolved: &Vec<Option<usize>>)
        requires
            resolved@.len() == old(self)@.producers.len(),
        ensures
            final(self)@.network_type == old(self)@.network_type,
            final(self)@.producers.len() == old(self)@.producers.len(),
            forall|i: int|
                0 <= i < old(self)@.producers.len() ==> (#[trigger] final(self)@.producers[i])@
                    == (NodeView {
                    valency: spec_valency(
                        is_ip_literal(old(self)@.producers[i]@.addr),
                        resolved@[i],
                    ),
                    ..old(self)@.producers[i]@
                }),
    {
        let n = self.producers.len();
        let mut i: usize = 0;
        while i < n
            invariant
                i <= n,
                n == self@.producers.len(),
                n == old(self)@.producers.len(),
                resolved@.len() == n,
                self@.network_type == old(self)@.network_type,
                forall|j: int|
                    0 <= j < i ==> (#[trigger] self@.producers[j])@ == (NodeView {
                        valency: spec_valency(
                            is_ip_literal(old(self)@.producers[j]@.addr),
                            resolved@[j],
                        ),
                        ..old(self)@.producers[j]@
                    }),
                forall|j: int|
                    i <= j < n ==> #[trigger] self@.producers[j] == old(self)@.producers[j],
            decreases n - i,
        {
            let v = {
                let node = &self.producers[i];
                valency(node.addr(), *(&resolved[i]))
            };
            let node = &mut self.producers[i];
            node.set_valency(v);
            i = i + 1;
        }
    }

    /// Orders the producers by ascending total latency.  The sort is
    /// stable — records of equal latency keep their relative order, as
    /// the latency classes say — and the records themselves are
    /// untouched: the result holds exactly the same records, as a
    /// multiset, in sorted order.
    pub fn sort(&mut self)
        ensures
            final(self)@.network_type == old(self)@.network_type,
            final(self)@.producers.to_multiset() == old(self)@.producers.to_multiset(),
            sorted_by_total_latency(nodes_view(final(self)@.producers)),
            forall|lat: u64|
                #[trigger] latency_class(final(self)@.producers, lat) == latency_class(
                    old(self)@.producers,
                    lat,
                ),
    {
        let mut i: usize = 1;
        while i < self.producers.len()
            invariant
                1 <= i,
                self@.producers.len() < 2 ==> i == 1,
                2 <= self@.producers.len() ==> i <= self@.producers.len(),
                self@.network_type == old(self)@.network_type,
                self@.producers.to_multiset() == old(self)@.producers.to_multiset(),
                self@.producers.len() == old(self)@.producers.len(),
                forall|lat: u64|
                    #[trigger] latency_class(self@.producers, lat) == latency_class(
                        old(self)@.producers,
                        lat,
                    ),
                forall|a: int, b: int|
                    0 <= a < b < i && b < self@.producers.len()
                        ==> self@.producers[a]@.total_latency <= self@.producers[b]@.total_latency,
            decreases self@.producers.len() - i,
        {
            let ghost v = self@.producers;
            let key = self.producers[i].total_latency();
            let mut j: usize = i;
            while j > 0 && self.producers[j - 1].total_latency() > key
                invariant
                    j <= i < self@.producers.len(),
                    self@.producers == v,
                    forall|p: int|
                        j <= p < i ==> self@.producers[p]@.total_latency > key,
                decreases j,
            {
                j = j - 1;
            }
            let node = self.producers.remove(i);
            self.producers.insert(j, node);
            proof {
                broadcast use vstd::seq_lib::group_to_multiset_ensures;
                broadcast use vstd::seq_lib::to_multiset_insert;

                let w = self@.producers;
                assert(w == v.remove(i as int).insert(j as int, node));
                assert(v.remove(i as int).to_multiset() == v.to_multiset().remove(v[i as int]));
                assert(w.to_multiset() == v.remove(i as int).to_multiset().insert(node));
                assert(v.to_multiset().contains(v[i as int])) by {
                    assert(v.contains(v[i as int]));
                }
                assert(w.to_multiset() =~= v.to_multiset());
                assert forall|p: int| 0 <= p < j implies w[p] == v[p] by {}
                assert(w[j as int] == node);
                assert forall|p: int| j < p <= i implies w[p] == v[p - 1] by {}
                assert forall|a: int, b: int|
                    0 <= a < b < i + 1 && b < w.len() implies w[a]@.total_latency
                    <= w[b]@.total_latency by {
                    if a == j {
                        assert(w[a]@.total_latency == key);
                    } else if b == j {
                        assert(v[a as int]@.total_latency <= v[(j - 1) as int]@.total_latency);
                    }
                }
                assert forall|lat: u64| #[trigger] latency_class(w, lat) == latency_class(
                    v,
                    lat,
                ) by {
                    lemma_move_left_keeps_classes(v, i as int, j as int, lat);
                }
            }
            i = i + 1;
        }
    }
}

} // verus!
