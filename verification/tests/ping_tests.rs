use adakairust::node::Node;
use adakairust::ping::{
    make_requests, make_response, probe_step, reconcile, valency, worker_step, AttemptOutcome,
    ErrorKind, IntegrityViolation, MessageIn, MessageOut, PingOutcome, ProbeStep, WorkerAction,
    WorkerEvent, FAIL_LATENCY_MS, MAX_ATTEMPTS, RETRY_WAIT_MS,
};
use adakairust::types::NetworkType;

fn online_response(id: usize, conn: u64, total: u64, valency: u16) -> MessageOut {
    MessageOut::Latency {
        conn_latency: conn,
        total_latency: total,
        online: true,
        id,
        error_kind: None,
        error: "".to_string(),
        valency,
    }
}

fn offline_response(id: usize, error: &str) -> MessageOut {
    MessageOut::Latency {
        conn_latency: FAIL_LATENCY_MS,
        total_latency: FAIL_LATENCY_MS,
        online: false,
        id,
        error_kind: Some(ErrorKind::ConnectFailure),
        error: error.to_string(),
        valency: 0,
    }
}

fn batch(n: usize) -> Vec<Node> {
    let mut nodes = Vec::new();
    for i in 0..n {
        nodes.push(Node::new(
            format!("relay-{}.example", i),
            3000 + i as u16,
            "".to_string(),
            "".to_string(),
            NetworkType::TestNet,
        ));
    }
    nodes
}

#[test]
fn probe_success_is_final_and_online() {
    let step = probe_step(0, AttemptOutcome::Connected { conn_latency: 42, total_latency: 97 });
    match step {
        ProbeStep::Done { result } => {
            assert!(result.online);
            assert_eq!(result.conn_latency, 42);
            assert_eq!(result.total_latency, 97);
            assert_eq!(result.error, "");
            assert!(result.error_kind.is_none());
        }
        ProbeStep::Retry { .. } => panic!("a successful attempt must be final"),
    }
}

#[test]
fn probe_handshake_failure_is_terminal() {
    let step = probe_step(0, AttemptOutcome::HandshakeFailed { error: "version mismatch".to_string() });
    match step {
        ProbeStep::Done { result } => {
            assert!(!result.online);
            assert_eq!(result.error, "version mismatch");
            assert_eq!(result.error_kind, Some(ErrorKind::HandshakeFailure));
            assert_eq!(result.conn_latency, FAIL_LATENCY_MS);
            assert_eq!(result.total_latency, FAIL_LATENCY_MS);
        }
        ProbeStep::Retry { .. } => panic!("a handshake failure must not be retried"),
    }
}

#[test]
fn unreachable_node_is_retried_then_reported_offline() {
    // Simulate the retry loop on a node whose every attempt fails to
    // connect: the attempts before the last are each followed by the
    // fixed backoff, the last reports offline with the captured text.
    let mut backoff_total: u64 = 0;
    let mut attempts: usize = 0;
    let mut attempt: usize = 0;
    loop {
        attempts += 1;
        let step = probe_step(attempt, AttemptOutcome::ConnectFailed {
            error: "connection refused".to_string(),
        });
        match step {
            ProbeStep::Retry { backoff_ms } => {
                assert_eq!(backoff_ms, RETRY_WAIT_MS);
                backoff_total += backoff_ms;
                attempt += 1;
            }
            ProbeStep::Done { result } => {
                assert!(!result.online);
                assert_eq!(result.error, "connection refused");
                assert_eq!(result.error_kind, Some(ErrorKind::ConnectFailure));
                break;
            }
        }
    }
    assert_eq!(attempts, MAX_ATTEMPTS);
    assert_eq!(backoff_total, 300);
}

#[test]
fn worker_quits_without_response() {
    let action = worker_step(WorkerEvent::Received { msg: MessageIn::Quit });
    assert!(matches!(action, WorkerAction::Stop));
}

#[test]
fn worker_probes_a_request() {
    let action = worker_step(WorkerEvent::Received {
        msg: MessageIn::Node {
            name: "relays.mainnet.stakenuts.com".to_string(),
            port: 3001,
            network_magic: NetworkType::Mainnet,
            id: 7,
        },
    });
    match action {
        WorkerAction::Probe { name, port, network_magic, id } => {
            assert_eq!(name, "relays.mainnet.stakenuts.com");
            assert_eq!(port, 3001);
            assert!(matches!(network_magic, NetworkType::Mainnet));
            assert_eq!(id, 7);
        }
        _ => panic!("a request must be probed"),
    }
}

#[test]
fn starved_worker_emits_engine_fault() {
    for (event, text) in [
        (WorkerEvent::TimedOut, "worker idle timeout"),
        (WorkerEvent::Closed, "request queue closed"),
    ] {
        let action = worker_step(event);
        match action {
            WorkerAction::EmitFaultAndStop { response } => match response {
                MessageOut::EngineFault { error } => assert_eq!(error, text),
                _ => panic!("the sentinel must be an engine fault"),
            },
            _ => panic!("a starved worker must emit a fault and stop"),
        }
    }
}

#[test]
fn response_keeps_request_id() {
    let outcome = PingOutcome {
        conn_latency: 11,
        total_latency: 23,
        online: true,
        error_kind: None,
        error: "".to_string(),
    };
    let msg = make_response(17, outcome, 4);
    match msg {
        MessageOut::Latency { conn_latency, total_latency, online, id, error_kind, error, valency } => {
            assert_eq!(id, 17);
            assert_eq!(conn_latency, 11);
            assert_eq!(total_latency, 23);
            assert!(online);
            assert!(error_kind.is_none());
            assert_eq!(error, "");
            assert_eq!(valency, 4);
        }
        _ => panic!("a probe outcome must become a latency response"),
    }
}

#[test]
fn literal_address_valency_is_one_whatever_dns_says() {
    // The lookup outcome must not matter for a literal address.
    assert_eq!(valency("54.220.20.40", None), 1);
    assert_eq!(valency("54.220.20.40", Some(5)), 1);
    assert_eq!(valency("54.220.20.40", Some(0)), 1);
    assert_eq!(valency("2002::1", None), 1);
}

#[test]
fn hostname_valency_counts_resolved_addresses() {
    assert_eq!(valency("relays-new.cardano-testnet.iohkdev.io", Some(8)), 8);
    assert_eq!(valency("costa-rica.adakailabs.com", Some(1)), 1);
}

#[test]
fn failed_resolution_degrades_valency_to_zero() {
    assert_eq!(valency("no-such-name.example", None), 0);
}

#[test]
fn malformed_addresses_are_hostnames_not_literals() {
    // Malformed or partial address strings — a topology file can hold
    // anything — must be treated as names, never panic the probe.
    assert_eq!(valency("1:2:3:4:5:6:7:8:9::", None), 0);
    assert_eq!(valency("1:2:3:4:5:6:7:8:9::", Some(3)), 3);
    assert_eq!(valency("10", None), 0);
    assert_eq!(valency("1.2", Some(2)), 2);
    assert_eq!(valency("10.0.0.256", None), 0);
    assert_eq!(valency("", None), 0);
}

#[test]
fn requests_carry_batch_positions_as_ids() {
    let nodes = batch(3);
    let reqs = make_requests(&nodes, NetworkType::TestNet);
    assert_eq!(reqs.len(), 3);
    for (i, req) in reqs.iter().enumerate() {
        match req {
            MessageIn::Node { name, port, network_magic, id } => {
                assert_eq!(*id, i);
                assert_eq!(name, nodes[i].addr());
                assert_eq!(*port, nodes[i].port());
                assert!(matches!(network_magic, NetworkType::TestNet));
            }
            MessageIn::Quit => panic!("a batch holds only requests"),
        }
    }
}

#[test]
fn reconcile_writes_response_fields_by_id() {
    let mut nodes = batch(3);
    let msgs = vec![online_response(2, 40, 90, 2), offline_response(0, "connection refused")];
    let r = reconcile(&mut nodes, &msgs);
    assert!(r.is_ok());

    assert!(!nodes[0].online());
    assert_eq!(nodes[0].online_error(), "connection refused");
    assert_eq!(nodes[0].con_latency(), FAIL_LATENCY_MS);

    // No response answered node 1: it reads "not probed", untouched.
    assert!(!nodes[1].online());
    assert_eq!(nodes[1].online_error(), "");
    assert_eq!(nodes[1].con_latency(), 0);

    assert!(nodes[2].online());
    assert_eq!(nodes[2].con_latency(), 40);
    assert_eq!(nodes[2].total_latency(), 90);
    assert_eq!(nodes[2].valency(), 2);

    // Identity fields are never overwritten.
    assert_eq!(nodes[2].addr(), "relay-2.example");
    assert_eq!(nodes[2].port(), 3002);
}

#[test]
fn reconcile_twice_gives_the_same_state() {
    let mut once = batch(4);
    let msgs = vec![
        online_response(1, 15, 35, 1),
        offline_response(3, "no route to host"),
        online_response(0, 22, 51, 8),
    ];
    assert!(reconcile(&mut once, &msgs).is_ok());

    let mut twice = once.clone();
    assert!(reconcile(&mut twice, &msgs).is_ok());

    for (a, b) in once.iter().zip(twice.iter()) {
        assert_eq!(a.addr(), b.addr());
        assert_eq!(a.port(), b.port());
        assert_eq!(a.valency(), b.valency());
        assert_eq!(a.con_latency(), b.con_latency());
        assert_eq!(a.total_latency(), b.total_latency());
        assert_eq!(a.online(), b.online());
        assert_eq!(a.online_error(), b.online_error());
    }
}

#[test]
fn reconcile_reports_out_of_range_id() {
    let mut nodes = batch(2);
    let msgs = vec![online_response(0, 10, 20, 1), online_response(2, 10, 20, 1)];
    let r = reconcile(&mut nodes, &msgs);
    assert_eq!(r, Err(IntegrityViolation::IdOutOfRange { id: 2 }));
    // On a violation nothing was applied.
    assert!(!nodes[0].online());
    assert_eq!(nodes[0].con_latency(), 0);
}

#[test]
fn reconcile_reports_duplicate_id() {
    let mut nodes = batch(2);
    let msgs = vec![online_response(1, 10, 20, 1), online_response(1, 12, 22, 1)];
    let r = reconcile(&mut nodes, &msgs);
    assert_eq!(r, Err(IntegrityViolation::DuplicateId { id: 1 }));
    assert!(!nodes[1].online());
}

#[test]
fn engine_fault_leaves_node_untouched() {
    let mut nodes = batch(2);
    nodes[0].set_online(true);
    nodes[0].set_con_latency(33);
    let msgs = vec![
        MessageOut::EngineFault { error: "worker idle timeout".to_string() },
        online_response(1, 10, 20, 1),
    ];
    let r = reconcile(&mut nodes, &msgs);
    assert!(r.is_ok());
    // Node 0 was never probed: its earlier state survives.
    assert!(nodes[0].online());
    assert_eq!(nodes[0].con_latency(), 33);
    assert!(nodes[1].online());
}

#[test]
fn all_reachable_batch_reconciles_all_online() {
    let mut nodes = batch(20);
    let mut msgs = Vec::new();
    // Responses arrive in an order unrelated to dispatch order.
    for i in (0..20).rev() {
        msgs.push(online_response(i, 12 + i as u64, 30 + i as u64, 1));
    }
    assert!(reconcile(&mut nodes, &msgs).is_ok());
    assert_eq!(nodes.len(), 20);
    for node in nodes.iter() {
        assert!(node.online());
        assert!(node.con_latency() > 0);
        assert!(node.total_latency() > 0);
    }
}

#[test]
fn mixed_batch_reconciles_exactly_one_offline() {
    let mut nodes = batch(20);
    let mut msgs = Vec::new();
    for i in 0..19 {
        msgs.push(online_response(i, 12, 30, 1));
    }
    msgs.push(offline_response(19, "connection refused"));
    assert!(reconcile(&mut nodes, &msgs).is_ok());

    let offline: Vec<&Node> = nodes.iter().filter(|n| !n.online()).collect();
    assert_eq!(offline.len(), 1);
    assert!(!offline[0].online_error().is_empty());
    let online = nodes.iter().filter(|n| n.online()).count();
    assert_eq!(online, 19);
}
