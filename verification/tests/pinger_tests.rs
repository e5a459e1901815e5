use adakairust::ping::{ErrorKind, MessageOut};
use adakairust::pinger::{
    dispatch_allowed, engine_transition, pool_size, EngineEvent, EngineState, Pinger,
};

fn response(id: usize) -> MessageOut {
    MessageOut::Latency {
        conn_latency: 10,
        total_latency: 20,
        online: true,
        id,
        error_kind: None,
        error: "".to_string(),
        valency: 1,
    }
}

fn offline(id: usize) -> MessageOut {
    MessageOut::Latency {
        conn_latency: 10000,
        total_latency: 10000,
        online: false,
        id,
        error_kind: Some(ErrorKind::ConnectFailure),
        error: "connection refused".to_string(),
        valency: 0,
    }
}

#[test]
fn pool_has_at_least_one_worker() {
    let mut pinger = Pinger::new(10);
    assert!(pinger.worker_threads() >= 1);
}

#[test]
fn pool_is_sized_from_cpus_times_scale() {
    // A multi-CPU machine is oversubscribed by the factor.
    assert_eq!(pool_size(4, 4), 16);
    assert_eq!(pool_size(2, 1), 2);
    // A single-CPU machine keeps one worker whatever the factor.
    assert_eq!(pool_size(1, 4), 1);
    // A factor of 0 is ignored, and so is a product that cannot fit.
    assert_eq!(pool_size(8, 0), 8);
    assert_eq!(pool_size(usize::MAX, 2), usize::MAX);
}

#[test]
fn any_scale_keeps_at_least_one_worker() {
    for scale in [0, 1, 2, 16, usize::MAX] {
        let mut pinger = Pinger::with_scale(4, scale);
        assert!(pinger.worker_threads() >= 1);
    }
}

#[test]
fn cursor_stays_within_the_pool_and_cycles() {
    let mut pinger = Pinger::new(10);
    let w = pinger.worker_threads();
    let first = pinger.next_worker();
    assert!(first < w);
    // After w further calls the cursor is back where it was.
    let mut last = first;
    for _ in 0..w {
        last = pinger.next_worker();
        assert!(last < w);
    }
    assert_eq!(first, last);
}

#[test]
fn batch_of_n_collects_exactly_n_responses() {
    let n = 20;
    let mut pinger = Pinger::new(n);
    assert!(!pinger.done());
    // Arrival order is unrelated to dispatch order.
    for i in (1..n).rev() {
        assert!(!pinger.collect(response(i)));
    }
    assert!(pinger.collect(offline(0)));
    assert!(pinger.done());
    assert_eq!(pinger.msg_vec().len(), n);
}

#[test]
fn empty_batch_is_complete_at_once() {
    let pinger = Pinger::new(0);
    assert!(pinger.done());
    assert_eq!(pinger.msg_vec().len(), 0);
}

#[test]
fn shutdown_cuts_collection_short() {
    let mut pinger = Pinger::new(5);
    assert!(!pinger.collect(response(0)));
    assert!(pinger.collect(MessageOut::Quit));
    assert!(pinger.done());
    // The shutdown itself is no response.
    assert_eq!(pinger.msg_vec().len(), 1);
}

#[test]
fn finished_collector_reads_nothing_further() {
    let mut pinger = Pinger::new(1);
    assert!(pinger.collect(response(0)));
    assert!(pinger.collect(response(0)));
    assert_eq!(pinger.msg_vec().len(), 1);
}

#[test]
fn engine_lifecycle_runs_forward() {
    let s = EngineState::Created;
    assert!(!dispatch_allowed(s));
    let s = engine_transition(s, EngineEvent::Started);
    assert!(matches!(s, EngineState::Running));
    assert!(dispatch_allowed(s));
    let s = engine_transition(s, EngineEvent::DispatchCompleted);
    assert!(matches!(s, EngineState::Draining));
    assert!(!dispatch_allowed(s));
    let s = engine_transition(s, EngineEvent::ShutdownRequested);
    assert!(matches!(s, EngineState::Shutdown));
}

#[test]
fn shutdown_is_accepted_everywhere_and_terminal() {
    for s in [
        EngineState::Created,
        EngineState::Running,
        EngineState::Draining,
        EngineState::Shutdown,
    ] {
        let t = engine_transition(s, EngineEvent::ShutdownRequested);
        assert!(matches!(t, EngineState::Shutdown));
    }
    // Shutting down twice is as harmless as once, and nothing leads out.
    for e in [
        EngineEvent::Started,
        EngineEvent::DispatchCompleted,
        EngineEvent::ShutdownRequested,
    ] {
        let t = engine_transition(EngineState::Shutdown, e);
        assert!(matches!(t, EngineState::Shutdown));
        assert!(!dispatch_allowed(t));
    }
}
