//! The probe engine's bookkeeping: sizing of the worker pool, the
//! round-robin dispatch cursor, the collector that aggregates responses
//! in arrival order until the batch is complete, and the engine's
//! lifecycle state machine.
//!
//! The workers themselves run on whatever concurrency primitive the
//! caller picks; they coordinate purely by feeding messages to the
//! functions here.

use vstd::prelude::*;

use crate::ping::MessageOut;

verus! {

/// Scale factor applied to the hardware parallelism when sizing the
/// worker pool.  Probing is I/O bound, so the pool is oversubscribed.
pub const WORKER_SCALE: usize = 4;

/// Relies on num_cpus::get: the number of logical CPUs available to the
/// process.  Its documentation promises that it always returns at
/// least 1.
#[verifier::external_body]
fn cpu_count() -> (n: usize)
    ensures
        1 <= n,
{
    num_cpus::get()
}

/// The worker pool size for a machine with `cpus` CPUs and an
/// oversubscription factor of `scale`: a multi-CPU machine gets
/// `cpus * scale` workers (or `cpus`, where that product does not fit),
/// a single-CPU machine keeps one worker, and a factor of 0 is ignored.
pub open spec fn spec_pool_size(cpus: usize, scale: usize) -> usize {
    if 1 < cpus && 1 <= scale {
        if cpus * scale <= usize::MAX {
            (cpus * scale) as usize
        } else {
            cpus
        }
    } else {
        cpus
    }
}

/// Sizes the worker pool from a CPU count and an oversubscription
/// factor, exactly as [`spec_pool_size`] says.  A pool sized from at
/// least one CPU always has at least one worker.
pub fn pool_size(cpus: usize, scale: usize) -> (w: usize)
    ensures
        w == spec_pool_size(cpus, scale),
        1 <= cpus ==> 1 <= w,
{
    if cpus > 1 && scale >= 1 {
        match cpus.checked_mul(scale) {
            Some(w) => {
                proof {
                    assert(cpus * scale >= 1) by (nonlinear_arith)
                        requires
                            1 <= cpus,
                            1 <= scale,
                    ;
                }
                w
            },
            None => cpus,
        }
    } else {
        cpus
    }
}

/// The mathematical value of a [`Pinger`].
pub ghost struct PingerView {
    /// Number of workers the pool is sized for.
    pub worker_threads: usize,
    /// The round-robin dispatch cursor.
    pub next_cpu: usize,
    /// Number of responses the batch owes: one per submitted node.
    pub size: usize,
    /// The responses collected so far, in arrival order.
    pub msgs: Seq<MessageOut>,
    /// Whether collection has finished, by count or by shutdown.
    pub done: bool,
}

impl PingerView {
    /// Well-formedness: the pool has at least one worker, the cursor
    /// points at one of them, and the collector never holds more than the
    /// batch owes nor stops short of that without being done.
    pub open spec fn wf(self) -> bool {
        &&& 1 <= self.worker_threads
        &&& self.next_cpu < self.worker_threads
        &&& self.msgs.len() <= self.size
        &&& !self.done ==> self.msgs.len() < self.size
    }
}

/// Bookkeeping for one probe batch: how many workers serve it, which
/// worker the next request goes to, and the responses collected so far.
#[derive(Debug)]
pub struct Pinger {
    worker_threads: usize,
    next_cpu: usize,
    size: usize,
    msg_vec: Vec<MessageOut>,
    done: bool,
}

impl View for Pinger {
    type V = PingerView;

    closed spec fn view(&self) -> PingerView {
        PingerView {
            worker_threads: self.worker_threads,
            next_cpu: self.next_cpu,
            size: self.size,
            msgs: self.msg_vec@,
            done: self.done,
        }
    }
}

/// What the collector's state becomes when one message is read from the
/// shared response queue: a shutdown message finishes collection at once
/// and adds nothing; a response is appended in arrival order and
/// collection finishes exactly when the batch's count is reached.  A
/// finished collector reads nothing further.
pub open spec fn spec_collect(v: PingerView, m: MessageOut) -> PingerView {
    if v.done {
        v
    } else if m is Quit {
        PingerView { done: true, ..v }
    } else {
        PingerView { msgs: v.msgs.push(m), done: v.msgs.len() + 1 >= v.size, ..v }
    }
}

/// The collector's state after reading a whole list of messages in order.
pub open spec fn spec_collect_all(v: PingerView, msgs: Seq<MessageOut>) -> PingerView
    decreases msgs.len(),
{
    if msgs.len() == 0 {
        v
    } else {
        spec_collect_all(spec_collect(v, msgs.first()), msgs.drop_first())
    }
}

impl Pinger {
    /// Sets up the bookkeeping for a batch of `size` nodes.  The pool is
    /// sized by [`pool_size`] from the machine's drawn CPU count times
    /// [`WORKER_SCALE`] (a single-CPU machine keeps one worker); the
    /// cursor starts at the first worker; no responses are collected
    /// yet, so the batch is already complete only when it is empty.
    pub fn new(size: usize) -> (p: Pinger)
        ensures
            p@.wf(),
            p@.size == size,
            p@.next_cpu == 0,
            p@.msgs == Seq::<MessageOut>::empty(),
            p@.done == (size == 0),
            exists|cpus: usize|
                1 <= cpus && p@.worker_threads == spec_pool_size(cpus, WORKER_SCALE),
    {
        Pinger::with_scale(size, WORKER_SCALE)
    }

    /// As [`Pinger::new`], with an explicit oversubscription factor in
    /// place of [`WORKER_SCALE`].  The pool is sized by [`pool_size`]
    /// from the machine's drawn CPU count and the factor, so it always
    /// keeps at least one worker.
    pub fn with_scale(size: usize, scale: usize) -> (p: Pinger)
        ensures
            p@.wf(),
            p@.size == size,
            p@.next_cpu == 0,
            p@.msgs == Seq::<MessageOut>::empty(),
            p@.done == (size == 0),
            exists|cpus: usize| 1 <= cpus && p@.worker_threads == spec_pool_size(cpus, scale),
    {
        let cpus = cpu_count();
        let worker_threads = pool_size(cpus, scale);
        Pinger { worker_threads, next_cpu: 0, size, msg_vec: Vec::new(), done: size == 0 }
    }

    /// Returns the number of workers the pool is sized for.
    pub fn worker_threads(&mut self) -> (n: usize)
        ensures
            final(self)@ == old(self)@,
            n == old(self)@.worker_threads,
    {
        self.worker_threads
    }

    /// Advances the round-robin cursor by one worker, wrapping at the
    /// pool size, and returns the worker the next request goes to.
    pub fn next_worker(&mut self) -> (w: usize)
        requires
            old(self)@.wf(),
        ensures
            final(self)@.wf(),
            final(self)@ == (PingerView {
                next_cpu: (if old(self)@.next_cpu + 1 == old(self)@.worker_threads {
                    0usize
                } else {
                    (old(self)@.next_cpu + 1) as usize
                }),
                ..old(self)@
            }),
            w == final(self)@.next_cpu,
            w < old(self)@.worker_threads,
    {
        self.next_cpu = self.next_cpu + 1;
        if self.next_cpu == self.worker_threads {
            self.next_cpu = 0;
        }
        self.next_cpu
    }

    /// Reads one message from the shared response queue into the
    /// collector, as [`spec_collect`] describes, and reports whether the
    /// batch is complete: every owed response arrived, or a shutdown cut
    /// it short.
    pub fn collect(&mut self, msg: MessageOut) -> (done: bool)
        requires
            old(self)@.wf(),
        ensures
            final(self)@.wf(),
            final(self)@ == spec_collect(old(self)@, msg),
            done == final(self)@.done,
    {
        if self.done {
            true
        } else {
            match msg {
                MessageOut::Quit => {
                    self.done = true;
                    true
                },
                m => {
                    self.msg_vec.push(m);
                    if self.msg_vec.len() >= self.size {
                        self.done = true;
                    }
                    self.done
                },
            }
        }
    }

    /// Returns the responses collected so far, in arrival order.  The
    /// full batch is there once [`Pinger::collect`] reported completion
    /// without a shutdown.
    pub fn msg_vec(&self) -> (msgs: &Vec<MessageOut>)
        ensures
            msgs@ == self@.msgs,
    {
        &self.msg_vec
    }

    /// Returns whether collection has finished.
    pub fn done(&self) -> (r: bool)
        ensures
            r == self@.done,
    {
        self.done
    }
}

/// LAW: completeness of the collector.  From any well-formed, unfinished
/// state, reading exactly the responses the batch still owes — none of
/// them a shutdown — finishes the collection with precisely those
/// responses appended in arrival order: a batch of N nodes yields exactly
/// N collected responses.
pub proof fn lemma_collector_completeness(v: PingerView, msgs: Seq<MessageOut>)
    requires
        v.wf(),
        !v.done,
        forall|i: int| 0 <= i < msgs.len() ==> !((#[trigger] msgs[i]) is Quit),
        v.msgs.len() + msgs.len() == v.size,
    ensures
        spec_collect_all(v, msgs).done,
        spec_collect_all(v, msgs).msgs == v.msgs + msgs,
        spec_collect_all(v, msgs).size == v.size,
    decreases msgs.len(),
{
    let w = spec_collect(v, msgs.first());
    if msgs.len() == 1 {
        assert(spec_collect_all(w, msgs.drop_first()) == w);
        assert(w.msgs =~= v.msgs + msgs);
    } else {
        lemma_collector_completeness(w, msgs.drop_first());
        assert(w.msgs + msgs.drop_first() =~= v.msgs + msgs);
    }
}

/// LAW: the collector never finishes early.  While fewer responses have
/// arrived than the batch owes and no shutdown was read, collection is
/// not finished, and it holds exactly the responses that arrived.
pub proof fn lemma_collector_partial(v: PingerView, msgs: Seq<MessageOut>)
    requires
        v.wf(),
        !v.done,
        forall|i: int| 0 <= i < msgs.len() ==> !((#[trigger] msgs[i]) is Quit),
        v.msgs.len() + msgs.len() < v.size,
    ensures
        !spec_collect_all(v, msgs).done,
        spec_collect_all(v, msgs).msgs == v.msgs + msgs,
        spec_collect_all(v, msgs).wf(),
    decreases msgs.len(),
{
    if msgs.len() == 0 {
        assert(v.msgs + msgs =~= v.msgs);
    } else {
        let w = spec_collect(v, msgs.first());
        lemma_collector_partial(w, msgs.drop_first());
        assert(w.msgs + msgs.drop_first() =~= v.msgs + msgs);
    }
}

/// LAW: a shutdown cuts collection short.  Reading a shutdown message
/// finishes any well-formed collector at once, and adds no response.
pub proof fn lemma_collector_shutdown(v: PingerView)
    ensures
        spec_collect(v, MessageOut::Quit).done || v.done,
        spec_collect(v, MessageOut::Quit).msgs == v.msgs,
{
}

/// The lifecycle of the engine that owns the worker pool.
#[derive(Clone, Copy, Debug, PartialEq, Eq, Structural)]
pub enum EngineState {
    /// Built, workers not started yet.
    Created,
    /// Workers started; requests may be dispatched.
    Running,
    /// All requests dispatched; awaiting the collector.
    Draining,
    /// Terminal: no further dispatch is accepted.
    Shutdown,
}

/// The events that move the engine through its lifecycle.
#[derive(Clone, Copy, Debug, PartialEq, Eq, Structural)]
pub enum EngineEvent {
    /// The worker pool was started.
    Started,
    /// The last request of the batch was dispatched.
    DispatchCompleted,
    /// The caller asked for shutdown.
    ShutdownRequested,
}

/// The engine's lifecycle: Created, then Running once started, then
/// Draining once dispatch is done, and Shutdown on request from any
/// state.  Shutdown is terminal, and every event is accepted in every
/// state — out-of-order events change nothing.
pub open spec fn spec_engine_transition(s: EngineState, e: EngineEvent) -> EngineState {
    match e {
        EngineEvent::Started => if s is Created {
            EngineState::Running
        } else {
            s
        },
        EngineEvent::DispatchCompleted => if s is Running {
            EngineState::Draining
        } else {
            s
        },
        EngineEvent::ShutdownRequested => EngineState::Shutdown,
    }
}

/// Moves the engine's lifecycle state by one event, accepting every event
/// in every state.
pub fn engine_transition(s: EngineState, e: EngineEvent) -> (t: EngineState)
    ensures
        t == spec_engine_transition(s, e),
{
    match e {
        EngineEvent::Started => if matches!(s, EngineState::Created) {
            EngineState::Running
        } else {
            s
        },
        EngineEvent::DispatchCompleted => if matches!(s, EngineState::Running) {
            EngineState::Draining
        } else {
            s
        },
        EngineEvent::ShutdownRequested => EngineState::Shutdown,
    }
}

/// Returns whether the engine accepts a dispatch: only while running.
pub fn dispatch_allowed(s: EngineState) -> (r: bool)
    ensures
        r == (s is Running),
{
    matches!(s, EngineState::Running)
}

/// LAW: shutdown never fails.  A shutdown request is accepted in every
/// lifecycle state — also after the engine has already shut down — and
/// always lands in the terminal state, from which no event leads out.
pub proof fn lemma_shutdown_terminal()
    ensures
        forall|s: EngineState|
            #[trigger] spec_engine_transition(s, EngineEvent::ShutdownRequested) is Shutdown,
        forall|e: EngineEvent|
            #[trigger] spec_engine_transition(EngineState::Shutdown, e) is Shutdown,
{
}

} // verus!
