//! The probe protocol: the request and response messages, the bounded
//! retry policy for one connect/handshake probe, the worker decision
//! step, valency resolution, and the reconciliation of responses onto
//! node records.
//!
//! The wire-level connect and handshake and the DNS queries are outside
//! collaborators.  Callers drive them and feed each outcome to the
//! functions here, which decide what happens next and are verified for
//! every outcome the outside world can produce.

use vstd::prelude::*;

use crate::node::{nodes_view, Node, NodeView};
use crate::types::NetworkType;

verus! {

/// How often one node is attempted before it is reported offline.
pub const MAX_ATTEMPTS: usize = 4;

/// Fixed backoff between two connection attempts, in milliseconds.
pub const RETRY_WAIT_MS: u64 = 100;

/// Sentinel latency reported for a failed probe, in milliseconds.
pub const FAIL_LATENCY_MS: u64 = 10000;

/// The kind of connectivity error a probe ended with.
///
/// Resolution failures never appear here: they only degrade a node's
/// valency to 0.  An engine fault is not a probe outcome either; it is
/// the [`MessageOut::EngineFault`] response, and an integrity violation
/// found at reconciliation is an [`IntegrityViolation`].
#[derive(Clone, Copy, Debug, PartialEq, Eq, Structural)]
pub enum ErrorKind {
    /// No connection could be established; retried up to [`MAX_ATTEMPTS`].
    ConnectFailure,
    /// The connection was made but the handshake failed; terminal.
    HandshakeFailure,
}

/// A message sent to a probe worker.
#[derive(Debug)]
pub enum MessageIn {
    /// Tells the worker to terminate without emitting a response.
    Quit,
    /// One probe request.
    Node {
        /// IP or DNS address of the node to probe.
        name: String,
        /// TCP port of the node.
        port: u16,
        /// Network the node belongs to.
        network_magic: NetworkType,
        /// Position of the node in the caller's batch.
        id: usize,
    },
}

/// A message emitted by a probe worker or read by the collector.
#[derive(Debug)]
pub enum MessageOut {
    /// Tells the collector to stop regardless of how many responses came.
    Quit,
    /// The measured result of one probe request.
    Latency {
        /// Time until a connection was established, in milliseconds.
        conn_latency: u64,
        /// Time until the handshake completed, in milliseconds.
        total_latency: u64,
        /// Whether the node answered connection and handshake.
        online: bool,
        /// The id of the request this response answers.
        id: usize,
        /// The kind of failure, if the node is offline.
        error_kind: Option<ErrorKind>,
        /// Text describing the failure; empty on success.
        error: String,
        /// Resolved valency of the node.
        valency: u16,
    },
    /// Sentinel emitted instead of a real response when the engine itself
    /// failed (idle timeout, closed queue).  Carries no node id and is
    /// skipped at reconciliation, so the node reads "not probed" rather
    /// than "probed and failed".
    EngineFault {
        /// Text describing the fault.
        error: String,
    },
}

/// The outcome of one connect/handshake attempt, as the wire-protocol
/// client reports it: a success with both measured durations (in
/// milliseconds), or the failing phase with its error text.
#[derive(Debug)]
pub enum AttemptOutcome {
    /// Connection and handshake succeeded.
    Connected {
        /// Time until the connection was established, in milliseconds.
        conn_latency: u64,
        /// Time until the handshake completed, in milliseconds.
        total_latency: u64,
    },
    /// No connection could be established.
    ConnectFailed {
        /// The connection error's text.
        error: String,
    },
    /// The connection was made but the handshake failed.
    HandshakeFailed {
        /// The handshake error's text.
        error: String,
    },
}

/// The final result of probing one node.
#[derive(Debug)]
pub struct PingOutcome {
    /// Time until a connection was established, in milliseconds;
    /// [`FAIL_LATENCY_MS`] if the probe failed.
    pub conn_latency: u64,
    /// Time until the handshake completed, in milliseconds;
    /// [`FAIL_LATENCY_MS`] if the probe failed.
    pub total_latency: u64,
    /// Whether the node answered connection and handshake.
    pub online: bool,
    /// The kind of failure; `None` exactly when the node is online.
    pub error_kind: Option<ErrorKind>,
    /// Text of the failure; empty on success.
    pub error: String,
}

/// What the retry loop does after one attempt: wait and try again, or
/// stop with a final result.
#[derive(Debug)]
pub enum ProbeStep {
    /// Wait `backoff_ms` milliseconds, then attempt again.
    Retry {
        /// How long to wait before the next attempt, in milliseconds.
        backoff_ms: u64,
    },
    /// The probe is finished with this result.
    Done {
        /// The final result of the probe.
        result: PingOutcome,
    },
}

/// Whether a failure to connect on attempt number `attempt` (counted from
/// 0) is followed by another attempt.  Only connection-establishment
/// failures are ever retried, and only while attempts remain.
pub open spec fn retries_connect_failure(attempt: int) -> bool {
    attempt + 1 < MAX_ATTEMPTS
}

/// Decides what the retry loop does after attempt number `attempt` (from
/// 0) ended in `outcome`.
///
/// A success is final and online with the measured durations; a handshake
/// failure is final and offline at once; a connection failure is retried
/// after [`RETRY_WAIT_MS`] until [`MAX_ATTEMPTS`] attempts are spent,
/// then reported offline.  A failed probe reports [`FAIL_LATENCY_MS`] for
/// both durations and keeps the attempt's error text.
pub fn probe_step(attempt: usize, outcome: AttemptOutcome) -> (step: ProbeStep)
    requires
        attempt < MAX_ATTEMPTS,
    ensures
        (outcome matches AttemptOutcome::Connected { conn_latency, total_latency } ==> {
            &&& step matches ProbeStep::Done { result }
            &&& result.online
            &&& result.error_kind is None
            &&& result.conn_latency == conn_latency
            &&& result.total_latency == total_latency
            &&& result.error@ == Seq::<char>::empty()
        }),
        (outcome matches AttemptOutcome::HandshakeFailed { error } ==> {
            &&& step matches ProbeStep::Done { result }
            &&& !result.online
            &&& result.error_kind == Some(ErrorKind::HandshakeFailure)
            &&& result.error@ == error@
            &&& result.conn_latency == FAIL_LATENCY_MS
            &&& result.total_latency == FAIL_LATENCY_MS
        }),
        (outcome matches AttemptOutcome::ConnectFailed { error } ==> {
            &&& (retries_connect_failure(attempt as int) ==> step == (ProbeStep::Retry {
                backoff_ms: RETRY_WAIT_MS,
            }))
            &&& (!retries_connect_failure(attempt as int) ==> {
                &&& step matches ProbeStep::Done { result }
                &&& !result.online
                &&& result.error_kind == Some(ErrorKind::ConnectFailure)
                &&& result.error@ == error@
                &&& result.conn_latency == FAIL_LATENCY_MS
                &&& result.total_latency == FAIL_LATENCY_MS
            })
        }),
{
    match outcome {
        AttemptOutcome::Connected { conn_latency, total_latency } => ProbeStep::Done {
            result: PingOutcome {
                conn_latency,
                total_latency,
                online: true,
                error_kind: None,
                error: String::new(),
            },
        },
        AttemptOutcome::HandshakeFailed { error } => ProbeStep::Done {
            result: PingOutcome {
                conn_latency: FAIL_LATENCY_MS,
                total_latency: FAIL_LATENCY_MS,
                online: false,
                error_kind: Some(ErrorKind::HandshakeFailure),
                error,
            },
        },
        AttemptOutcome::ConnectFailed { error } => {
            if attempt + 1 < MAX_ATTEMPTS {
                ProbeStep::Retry { backoff_ms: RETRY_WAIT_MS }
            } else {
                ProbeStep::Done {
                    result: PingOutcome {
                        conn_latency: FAIL_LATENCY_MS,
                        total_latency: FAIL_LATENCY_MS,
                        online: false,
                        error_kind: Some(ErrorKind::ConnectFailure),
                        error,
                    },
                }
            }
        },
    }
}

/// LAW: the retry schedule of an unreachable node.  A node whose every
/// attempt fails to connect is attempted exactly [`MAX_ATTEMPTS`] times:
/// each attempt before the last is followed by a backoff of
/// [`RETRY_WAIT_MS`] milliseconds, the last is not, so at least
/// `(MAX_ATTEMPTS - 1) * RETRY_WAIT_MS` = 300 milliseconds of backoff
/// alone elapse before the node is reported offline.
pub proof fn lemma_retry_schedule()
    ensures
        forall|attempt: int|
            0 <= attempt < MAX_ATTEMPTS - 1 ==> retries_connect_failure(attempt),
        !retries_connect_failure(MAX_ATTEMPTS - 1),
        (MAX_ATTEMPTS - 1) * RETRY_WAIT_MS == 300,
{
}

/// What a worker waited on: a message from its private queue, or the end
/// of the bounded wait without one.
#[derive(Debug)]
pub enum WorkerEvent {
    /// A message arrived on the worker's queue.
    Received {
        /// The message that arrived.
        msg: MessageIn,
    },
    /// No message arrived within the bounded idle wait.
    TimedOut,
    /// The worker's queue was closed by its sender.
    Closed,
}

/// What a worker does next.
#[derive(Debug)]
pub enum WorkerAction {
    /// Terminate without emitting a response.
    Stop,
    /// Probe this node, then emit the response built by
    /// [`make_response`].
    Probe {
        /// IP or DNS address of the node to probe.
        name: String,
        /// TCP port of the node.
        port: u16,
        /// Network the node belongs to.
        network_magic: NetworkType,
        /// Position of the node in the caller's batch.
        id: usize,
    },
    /// Emit this fault response, then terminate.
    EmitFaultAndStop {
        /// The sentinel response to emit.
        response: MessageOut,
    },
}

/// Decides what a worker does with one event from its private queue.
///
/// A shutdown message stops the worker without a response; a request is
/// probed; an idle timeout or a closed queue makes the worker emit an
/// [`MessageOut::EngineFault`] sentinel and stop, so that a worker that
/// is never fed cannot stall the batch.
pub fn worker_step(event: WorkerEvent) -> (action: WorkerAction)
    ensures
        (event matches WorkerEvent::Received { msg } ==> {
            &&& (msg is Quit ==> action is Stop)
            &&& (msg matches MessageIn::Node { name, port, network_magic, id } ==> action
                == (WorkerAction::Probe { name, port, network_magic, id }))
        }),
        (event is TimedOut ==> {
            &&& action matches WorkerAction::EmitFaultAndStop { response }
            &&& response matches MessageOut::EngineFault { error }
            &&& error@ == "worker idle timeout"@
        }),
        (event is Closed ==> {
            &&& action matches WorkerAction::EmitFaultAndStop { response }
            &&& response matches MessageOut::EngineFault { error }
            &&& error@ == "request queue closed"@
        }),
{
    match event {
        WorkerEvent::Received { msg } => match msg {
            MessageIn::Quit => WorkerAction::Stop,
            MessageIn::Node { name, port, network_magic, id } => WorkerAction::Probe {
                name,
                port,
                network_magic,
                id,
            },
        },
        WorkerEvent::TimedOut => WorkerAction::EmitFaultAndStop {
            response: MessageOut::EngineFault { error: String::from_str("worker idle timeout") },
        },
        WorkerEvent::Closed => WorkerAction::EmitFaultAndStop {
            response: MessageOut::EngineFault { error: String::from_str("request queue closed") },
        },
    }
}

/// Builds the response a worker emits for request `id`: the probe's final
/// result plus the independently resolved valency.  The response carries
/// exactly the request's id, whatever the outcome.
pub fn make_response(id: usize, outcome: PingOutcome, valency: u16) -> (m: MessageOut)
    ensures
        m == (MessageOut::Latency {
            conn_latency: outcome.conn_latency,
            total_latency: outcome.total_latency,
            online: outcome.online,
            id: id,
            error_kind: outcome.error_kind,
            error: outcome.error,
            valency: valency,
        }),
{
    let PingOutcome { conn_latency, total_latency, online, error_kind, error } = outcome;
    MessageOut::Latency { conn_latency, total_latency, online, id, error_kind, error, valency }
}

/// Whether a string is a literal IPv4 or IPv6 address, as the address
/// parser decides it.  A function of the characters alone.
pub uninterp spec fn is_ip_literal(s: Seq<char>) -> bool;

/// Relies on str::parse::<core::net::IpAddr>: it returns Ok exactly when
/// the string is a literal IPv4 or IPv6 address, never panics, and
/// depends on the characters alone.
#[verifier::external_body]
fn ip_is_literal(host: &str) -> (r: bool)
    ensures
        r == is_ip_literal(host@),
{
    host.parse::<core::net::IpAddr>().is_ok()
}

/// The valency assigned to a node: 1 for a literal IP address, otherwise
/// the number of addresses its DNS name resolved to (capped at what fits
/// in the field), or 0 when resolution failed.
pub open spec fn spec_valency(literal: bool, resolved: Option<usize>) -> u16 {
    if literal {
        1u16
    } else {
        match resolved {
            Some(k) => if k <= 65535 {
                k as u16
            } else {
                65535u16
            },
            None => 0u16,
        }
    }
}

/// Resolves a node's valency from its address and the outcome of a DNS
/// lookup of that address, performed by the caller (`None` when the
/// lookup failed).
///
/// A literal IP address yields valency 1 whatever the lookup returned, so
/// DNS availability cannot touch it; a DNS name yields the number of
/// resolved addresses, and 0 when resolution failed.
pub fn valency(hostname: &str, resolved: Option<usize>) -> (v: u16)
    ensures
        v == spec_valency(is_ip_literal(hostname@), resolved),
{
    if ip_is_literal(hostname) {
        1
    } else {
        match resolved {
            Some(k) => if k <= 65535 {
                k as u16
            } else {
                65535
            },
            None => 0,
        }
    }
}

/// LAW: a literal IP address always yields valency 1, whatever a DNS
/// lookup returned or whether one succeeded at all.
pub proof fn lemma_literal_valency(resolved: Option<usize>)
    ensures
        spec_valency(true, resolved) == 1,
{
}

/// LAW: a DNS name that resolved to `k` addresses yields valency `k`,
/// for every count that fits the valency field.
pub proof fn lemma_resolved_valency(k: usize)
    requires
        k <= 65535,
    ensures
        spec_valency(false, Some(k)) == k,
{
}

/// LAW: a DNS name whose resolution failed yields valency 0; the failure
/// degrades the valency and nothing else.
pub proof fn lemma_resolution_failure_valency()
    ensures
        spec_valency(false, None::<usize>) == 0,
{
}

/// The requests of one batch: one request per node, in the nodes' order,
/// each carrying its node's address and port, the batch's network, and
/// the node's position as its id.
pub open spec fn requests_well_formed(
    reqs: Seq<MessageIn>,
    nodes: Seq<Node>,
    net: NetworkType,
) -> bool {
    &&& reqs.len() == nodes.len()
    &&& forall|i: int|
        0 <= i < reqs.len() ==> {
            &&& (#[trigger] reqs[i]) matches MessageIn::Node { name, port, network_magic, id }
            &&& name@ == nodes[i]@.addr
            &&& port == nodes[i]@.port
            &&& network_magic == net
            &&& id == i
        }
}

/// Builds the probe requests for a batch of nodes: request `i` addresses
/// node `i` and carries id `i`, so every node is requested exactly once
/// and the ids are exactly `0..N`.
pub fn make_requests(nodes: &Vec<Node>, net: NetworkType) -> (reqs: Vec<MessageIn>)
    ensures
        requests_well_formed(reqs@, nodes@, net),
{
    let mut reqs: Vec<MessageIn> = Vec::new();
    let mut i: usize = 0;
    while i < nodes.len()
        invariant
            i <= nodes@.len(),
            reqs@.len() == i,
            forall|j: int|
                0 <= j < i ==> {
                    &&& (#[trigger] reqs@[j]) matches MessageIn::Node {
                        name,
                        port,
                        network_magic,
                        id,
                    }
                    &&& name@ == nodes@[j]@.addr
                    &&& port == nodes@[j]@.port
                    &&& network_magic == net
                    &&& id == j
                },
        decreases nodes@.len() - i,
    {
        let name = String::from_str(nodes[i].addr());
        let port = nodes[i].port();
        reqs.push(MessageIn::Node { name, port, network_magic: net, id: i });
        i = i + 1;
    }
    reqs
}

/// LAW: id integrity on the request side.  In a well-formed batch every
/// request's id lies in `[0, N)` and no id appears twice.
pub proof fn lemma_request_ids_distinct(reqs: Seq<MessageIn>, nodes: Seq<Node>, net: NetworkType)
    requires
        requests_well_formed(reqs, nodes, net),
    ensures
        forall|i: int|
            0 <= i < reqs.len() ==> {
                &&& (#[trigger] reqs[i]) matches MessageIn::Node { id, .. }
                &&& 0 <= id < nodes.len()
            },
        forall|i: int, j: int|
            0 <= i < j < reqs.len() ==> (reqs[i])->Node_id != (reqs[j])->Node_id,
{
}

/// What a response overwrites in the node record it answers for: the two
/// latencies, the online state, the error text and the valency.  The
/// identity and location fields are untouched.
pub open spec fn spec_updated(n: NodeView, m: MessageOut) -> NodeView
    recommends
        m is Latency,
{
    NodeView {
        con_latency: m->Latency_conn_latency,
        total_latency: m->Latency_total_latency,
        online: m->Latency_online,
        online_error: m->Latency_error@,
        valency: m->Latency_valency,
        ..n
    }
}

/// The last response in `msgs` that answers request `k`, if any.  Faults
/// and shutdown messages answer no request.
pub open spec fn last_response_for(msgs: Seq<MessageOut>, k: int) -> Option<MessageOut>
    decreases msgs.len(),
{
    if msgs.len() == 0 {
        None
    } else if msgs.last() matches MessageOut::Latency { id, .. } && id == k {
        Some(msgs.last())
    } else {
        last_response_for(msgs.drop_last(), k)
    }
}

/// Id integrity of a response list against a batch of `n` nodes: every
/// real response answers a request in `[0, n)` and no request is answered
/// twice.
pub open spec fn response_ids_valid(msgs: Seq<MessageOut>, n: int) -> bool {
    &&& forall|i: int|
        0 <= i < msgs.len() ==> ((#[trigger] msgs[i]) is Latency ==> 0 <= msgs[i]->Latency_id < n)
    &&& forall|i: int, j: int|
        #![trigger msgs[i], msgs[j]]
        0 <= i < j < msgs.len() && msgs[i] is Latency && msgs[j] is Latency
            ==> msgs[i]->Latency_id != msgs[j]->Latency_id
}

/// The node records after a response list was applied: record `k` holds
/// the fields of the last response with id `k`, or stays as it was when
/// no response answers it (a node an engine fault stood in for reads
/// "not probed").
pub open spec fn spec_reconciled(nodes: Seq<NodeView>, msgs: Seq<MessageOut>) -> Seq<NodeView> {
    Seq::new(
        nodes.len(),
        |k: int|
            match last_response_for(msgs, k) {
                Some(m) => spec_updated(nodes[k], m),
                None => nodes[k],
            },
    )
}

/// An id integrity violation found at reconciliation.  Such a violation
/// is reported to the caller, never silently dropped.
#[derive(Clone, Copy, Debug, PartialEq, Eq, Structural)]
pub enum IntegrityViolation {
    /// A response carries an id outside `[0, N)`.
    IdOutOfRange {
        /// The offending id.
        id: usize,
    },
    /// Two responses carry the same id.
    DuplicateId {
        /// The id that appears twice.
        id: usize,
    },
}

/// Appending one message changes the last response for `k` only when the
/// new message itself answers `k`.
proof fn lemma_last_response_push(msgs: Seq<MessageOut>, m: MessageOut, k: int)
    ensures
        last_response_for(msgs.push(m), k) == (if m matches MessageOut::Latency { id, .. } && id
            == k {
            Some(m)
        } else {
            last_response_for(msgs, k)
        }),
{
    assert(msgs.push(m).last() == m);
    assert(msgs.push(m).drop_last() =~= msgs);
}

/// Applies a list of probe responses onto the node records of a batch:
/// the record at index `id` takes each response's latencies, online
/// state, error text and valency; records no response answers — and
/// records an engine fault stood in for — are left untouched.
///
/// Returns `Ok` exactly when the responses respect id integrity: every
/// real response's id lies in `[0, N)` and no id repeats.  On a
/// violation the records are left unchanged and the violation is
/// reported.
pub fn reconcile(nodes: &mut Vec<Node>, msgs: &Vec<MessageOut>) -> (r: Result<
    (),
    IntegrityViolation,
>)
    ensures
        r is Ok <==> response_ids_valid(msgs@, old(nodes)@.len() as int),
        r is Ok ==> nodes_view(final(nodes)@) == spec_reconciled(nodes_view(old(nodes)@), msgs@),
        r is Err ==> final(nodes)@ == old(nodes)@,
        (r matches Err(IntegrityViolation::IdOutOfRange { id }) ==> exists|i: int|
            0 <= i < msgs@.len() && (#[trigger] msgs@[i]) is Latency && msgs@[i]->Latency_id == id
                && id >= old(nodes)@.len()),
        (r matches Err(IntegrityViolation::DuplicateId { id }) ==> exists|i: int, j: int|
            #![trigger msgs@[i], msgs@[j]]
            0 <= i < j < msgs@.len() && msgs@[i] is Latency && msgs@[j] is Latency
                && msgs@[i]->Latency_id == id && msgs@[j]->Latency_id == id),
{
    let n = nodes.len();
    let mut i: usize = 0;
    while i < msgs.len()
        invariant
            i <= msgs@.len(),
            n == nodes@.len(),
            forall|a: int|
                0 <= a < i ==> ((#[trigger] msgs@[a]) is Latency ==> 0 <= msgs@[a]->Latency_id
                    < n),
            forall|a: int, b: int|
                #![trigger msgs@[a], msgs@[b]]
                0 <= a < b < i && msgs@[a] is Latency && msgs@[b] is Latency
                    ==> msgs@[a]->Latency_id != msgs@[b]->Latency_id,
        decreases msgs@.len() - i,
    {
        match &msgs[i] {
            MessageOut::Latency { id, .. } => {
                let id = *id;
                if id >= n {
                    return Err(IntegrityViolation::IdOutOfRange { id });
                }
                let mut j: usize = 0;
                while j < i
                    invariant
                        j <= i < msgs@.len(),
                        msgs@[i as int] is Latency,
                        msgs@[i as int]->Latency_id == id,
                        forall|b: int|
                            0 <= b < j ==> ((#[trigger] msgs@[b]) is Latency
                                ==> msgs@[b]->Latency_id != id),
                    decreases i - j,
                {
                    match &msgs[j] {
                        MessageOut::Latency { id: other_id, .. } => {
                            if *other_id == id {
                                return Err(IntegrityViolation::DuplicateId { id });
                            }
                        },
                        _ => {},
                    }
                    j = j + 1;
                }
            },
            _ => {},
        }
        i = i + 1;
    }
    let ghost orig = nodes_view(nodes@);
    let mut i: usize = 0;
    while i < msgs.len()
        invariant
            i <= msgs@.len(),
            nodes@.len() == n,
            orig.len() == n,
            response_ids_valid(msgs@, n as int),
            nodes_view(nodes@) =~= spec_reconciled(orig, msgs@.take(i as int)),
        decreases msgs@.len() - i,
    {
        let ghost prefix = msgs@.take(i as int);
        match &msgs[i] {
            MessageOut::Latency {
                conn_latency,
                total_latency,
                online,
                id,
                error_kind: _,
                error,
                valency,
            } => {
                let id = *id;
                assert(msgs@[i as int] is Latency);
                assert(id < n);
                let node = &mut nodes[id];
                node.set_con_latency(*conn_latency);
                node.set_total_latency(*total_latency);
                node.set_online(*online);
                node.set_online_error(error.clone());
                node.set_valency(*valency);
            },
            _ => {},
        }
        proof {
            let m = msgs@[i as int];
            assert(msgs@.take(i + 1) =~= prefix.push(m));
            assert forall|k: int| 0 <= k < n implies nodes_view(nodes@)[k] == spec_reconciled(
                orig,
                msgs@.take(i + 1),
            )[k] by {
                lemma_last_response_push(prefix, m, k);
                if m matches MessageOut::Latency { id, .. } && id == k {
                    assert(last_response_for(msgs@.take(i + 1), k) == Some(m));
                    match last_response_for(prefix, k) {
                        Some(m2) => {
                            assert(spec_reconciled(orig, prefix)[k] == spec_updated(orig[k], m2));
                            assert(spec_updated(spec_updated(orig[k], m2), m) == spec_updated(
                                orig[k],
                                m,
                            ));
                        },
                        None => {
                            assert(spec_reconciled(orig, prefix)[k] == orig[k]);
                        },
                    }
                } else {
                    assert(last_response_for(msgs@.take(i + 1), k) == last_response_for(
                        prefix,
                        k,
                    ));
                }
            }
            assert(nodes_view(nodes@) =~= spec_reconciled(orig, msgs@.take(i + 1)));
        }
        i = i + 1;
    }
    proof {
        assert(msgs@.take(msgs@.len() as int) =~= msgs@);
    }
    Ok(())
}

/// Under id integrity a response is the only one answering its request,
/// so it is also the last one.
proof fn lemma_last_response_unique(msgs: Seq<MessageOut>, n: int, i: int)
    requires
        response_ids_valid(msgs, n),
        0 <= i < msgs.len(),
        msgs[i] is Latency,
    ensures
        last_response_for(msgs, msgs[i]->Latency_id as int) == Some(msgs[i]),
    decreases msgs.len(),
{
    let k = msgs[i]->Latency_id as int;
    if i < msgs.len() - 1 {
        let prefix = msgs.drop_last();
        assert(response_ids_valid(prefix, n)) by {
            assert forall|a: int|
                0 <= a < prefix.len() implies ((#[trigger] prefix[a]) is Latency ==> 0 <= prefix[a]->Latency_id < n) by {
                assert(prefix[a] == msgs[a]);
            }
            assert forall|a: int, b: int|
                #![trigger prefix[a], prefix[b]]
                0 <= a < b < prefix.len() && prefix[a] is Latency
                    && prefix[b] is Latency implies prefix[a]->Latency_id
                != prefix[b]->Latency_id by {
                assert(prefix[a] == msgs[a]);
                assert(prefix[b] == msgs[b]);
            }
        }
        assert(prefix[i] == msgs[i]);
        lemma_last_response_unique(prefix, n, i);
        if msgs.last() is Latency {
            assert(msgs[msgs.len() - 1] == msgs.last());
            assert(msgs.last()->Latency_id != k);
        }
    }
}

/// LAW: partial-failure isolation at reconciliation.  Under id integrity
/// every response lands exactly on its own record: the record at the
/// response's id takes that response's fields, and the response touches
/// no other record — an offline response marks its own node offline and
/// nothing else.
pub proof fn lemma_response_reconciles_own_record(
    nodes: Seq<NodeView>,
    msgs: Seq<MessageOut>,
    i: int,
)
    requires
        response_ids_valid(msgs, nodes.len() as int),
        0 <= i < msgs.len(),
        msgs[i] is Latency,
    ensures
        spec_reconciled(nodes, msgs)[msgs[i]->Latency_id as int] == spec_updated(
            nodes[msgs[i]->Latency_id as int],
            msgs[i],
        ),
{
    lemma_last_response_unique(msgs, nodes.len() as int, i);
}

/// LAW: a record that no response answers — because none was sent, or an
/// engine fault stood in for it — is left exactly as it was, so "not
/// probed" is never conflated with "probed and failed".
pub proof fn lemma_unanswered_record_unchanged(
    nodes: Seq<NodeView>,
    msgs: Seq<MessageOut>,
    k: int,
)
    requires
        0 <= k < nodes.len(),
        last_response_for(msgs, k) is None,
    ensures
        spec_reconciled(nodes, msgs)[k] == nodes[k],
{
}

/// LAW: reconciliation never touches a record's identity or location.
/// Address, port, continent, state, network and role survive every
/// response list.
pub proof fn lemma_reconcile_keeps_identity(nodes: Seq<NodeView>, msgs: Seq<MessageOut>, k: int)
    requires
        0 <= k < nodes.len(),
    ensures
        spec_reconciled(nodes, msgs)[k].addr == nodes[k].addr,
        spec_reconciled(nodes, msgs)[k].port == nodes[k].port,
        spec_reconciled(nodes, msgs)[k].continent == nodes[k].continent,
        spec_reconciled(nodes, msgs)[k].state == nodes[k].state,
        spec_reconciled(nodes, msgs)[k].network_type == nodes[k].network_type,
        spec_reconciled(nodes, msgs)[k].node_type == nodes[k].node_type,
{
}

/// LAW: reconciliation is idempotent.  Applying the same response list
/// twice leaves exactly the state that applying it once produces, for
/// every node batch and every response list.
pub proof fn lemma_reconcile_idempotent(nodes: Seq<NodeView>, msgs: Seq<MessageOut>)
    ensures
        spec_reconciled(spec_reconciled(nodes, msgs), msgs) == spec_reconciled(nodes, msgs),
{
    assert(spec_reconciled(spec_reconciled(nodes, msgs), msgs) =~= spec_reconciled(nodes, msgs));
}

} // verus!
