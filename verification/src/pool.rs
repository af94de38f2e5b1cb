//! The worker pool: a growable, capped set of workers that are checked out
//! for one step and checked in again.
//!
//! The pool starts with one worker and grows on demand up to its cap. It
//! decides; creating a worker, waiting for one and running it on the device
//! are up to the caller, who holds the pool under a lock.
use crate::buckets::{
    is_best_bucket, is_max_bucket, may_serve, pick_bucket, tape_views, PoolPlan,
};
use crate::forward::{ForwardError, ForwardInputs, WorkerError};
use crate::lowered::{LoweredMetalTape, TapeView};
use crate::runtime::RuntimeBindings;
use vstd::prelude::*;

verus! {

/// What the pool hands out: a worker with its private runtime buffers.
#[derive(Debug)]
pub struct PooledWorker<T> {
    pub worker: T,
    pub runtime: RuntimeBindings,
}

/// Answer of the pool to a checkout.
#[derive(Debug)]
pub enum Checkout<T> {
    /// An idle worker.
    Ready(PooledWorker<T>),
    /// No worker is idle, but the pool may grow: a place is reserved, and the
    /// caller creates the worker.
    Spawn,
    /// No worker is idle and the pool is at its cap.
    Wait,
}

/// A growable, capped pool of workers.
#[derive(Debug)]
pub struct MetalWorkerPool<T> {
    bucket_tapes: Vec<LoweredMetalTape>,
    arena_layout: Vec<u64>,
    max_workers: usize,
    residency_attached: bool,
    available: Vec<PooledWorker<T>>,
    total_created: usize,
    signal_counter: u64,
}

/// State of a pool.
pub struct PoolView<T> {
    pub tapes: Seq<TapeView>,
    pub arena_layout: Seq<u64>,
    pub max_workers: int,
    pub residency_attached: bool,
    /// Idle workers; the last one is handed out first.
    pub available: Seq<PooledWorker<T>>,
    /// Workers created or being created.
    pub total_created: int,
    /// Value that the last submission signals.
    pub signal_counter: int,
}

impl<T> PoolView<T> {
    /// Idle workers are among those created, and these are within the cap.
    pub open spec fn wf(self) -> bool {
        &&& self.available.len() <= self.total_created <= self.max_workers
        &&& 1 <= self.total_created
    }

    /// Workers that are checked out or being created.
    pub open spec fn in_use(self) -> int {
        self.total_created - self.available.len()
    }

    /// The state after a worker was checked in.
    pub open spec fn checked_in(self, worker: PooledWorker<T>) -> PoolView<T> {
        PoolView { available: self.available.push(worker), ..self }
    }

    /// The answer to a checkout and the state after it.
    pub open spec fn checked_out(self) -> (Checkout<T>, PoolView<T>) {
        if self.available.len() > 0 {
            (
                Checkout::Ready(self.available.last()),
                PoolView { available: self.available.drop_last(), ..self },
            )
        } else if self.total_created < self.max_workers {
            (Checkout::Spawn, PoolView { total_created: self.total_created + 1, ..self })
        } else {
            (Checkout::Wait, self)
        }
    }

    /// The state after a reserved place was given up.
    pub open spec fn released(self) -> PoolView<T> {
        PoolView { total_created: self.total_created - 1, ..self }
    }
}

impl<T> View for MetalWorkerPool<T> {
    type V = PoolView<T>;

    closed spec fn view(&self) -> PoolView<T> {
        PoolView {
            tapes: tape_views(self.bucket_tapes@),
            arena_layout: self.arena_layout@,
            max_workers: self.max_workers as int,
            residency_attached: self.residency_attached,
            available: self.available@,
            total_created: self.total_created as int,
            signal_counter: self.signal_counter as int,
        }
    }
}

/// What a forward step needs before it takes a worker.
#[derive(Clone, Copy, Debug, PartialEq, Eq)]
pub struct ForwardStart {
    /// Bucket that serves the step.
    pub bucket_idx: usize,
    /// Sequences packed into the step.
    pub num_seqs: u32,
    /// Whether the step verifies speculative tokens.
    pub has_spec_tokens: bool,
    /// Whether the residency set still has to be attached to the queue.
    pub attach_residency: bool,
}

impl<T> MetalWorkerPool<T> {
    /// Builds a pool around its first worker. A cap of 0 is not a pool. Where
    /// the first worker could not be created, there is no pool.
    pub fn new(
        plan: PoolPlan,
        first: Result<PooledWorker<T>, WorkerError>,
        max_workers: usize,
    ) -> (r: Result<Self, WorkerError>)
        requires
            max_workers >= 1,
        ensures
            match first {
                Ok(worker) => r matches Ok(pool) && pool@ == (PoolView {
                    tapes: tape_views(plan.tapes@),
                    arena_layout: plan.arena_layout@,
                    max_workers: max_workers as int,
                    residency_attached: false,
                    available: seq![worker],
                    total_created: 1,
                    signal_counter: 0,
                }),
                Err(e) => r == Err::<Self, WorkerError>(e),
            },
            r matches Ok(pool) ==> pool@.wf(),
    {
        match first {
            Ok(worker) => {
                let mut available: Vec<PooledWorker<T>> = Vec::new();
                available.push(worker);
                assert(available@ =~= seq![worker]);
                Ok(
                    MetalWorkerPool {
                        bucket_tapes: plan.tapes,
                        arena_layout: plan.arena_layout,
                        max_workers,
                        residency_attached: false,
                        available,
                        total_created: 1,
                        signal_counter: 0,
                    },
                )
            },
            Err(e) => Err(e),
        }
    }

    /// The cap.
    pub fn max_workers(&self) -> (n: usize)
        ensures
            n == self@.max_workers,
    {
        self.max_workers
    }

    /// Workers created or being created, checked out or not.
    pub fn current_size(&self) -> (n: usize)
        ensures
            n == self@.total_created,
    {
        self.total_created
    }

    /// Idle workers.
    pub fn available(&self) -> (n: usize)
        ensures
            n == self@.available.len(),
    {
        self.available.len()
    }

    /// Bytes per slot of each worker's arena.
    pub fn arena_layout(&self) -> (layout: &Vec<u64>)
        ensures
            layout@ == self@.arena_layout,
    {
        &self.arena_layout
    }

    /// The lowered tapes, one per bucket.
    pub fn bucket_tapes(&self) -> (tapes: &Vec<LoweredMetalTape>)
        ensures
            tape_views(tapes@) == self@.tapes,
    {
        &self.bucket_tapes
    }

    /// Asks for a worker: an idle one if there is one, else a reserved place
    /// if the pool may grow. On `Wait` the caller sleeps until a worker is
    /// checked in or a place is released, and asks again.
    pub fn checkout(&mut self) -> (r: Checkout<T>)
        requires
            old(self)@.wf(),
        ensures
            r == old(self)@.checked_out().0,
            final(self)@ == old(self)@.checked_out().1,
            final(self)@.wf(),
    {
        match self.available.pop() {
            Some(worker) => {
                assert(self@ == old(self)@.checked_out().1);
                Checkout::Ready(worker)
            },
            None => {
                if self.total_created < self.max_workers {
                    self.total_created = self.total_created + 1;
                    Checkout::Spawn
                } else {
                    Checkout::Wait
                }
            },
        }
    }

    /// Asks for a worker without waiting: `None` where every worker is busy
    /// and the pool is at its cap.
    pub fn try_checkout(&mut self) -> (r: Option<Checkout<T>>)
        requires
            old(self)@.wf(),
        ensures
            final(self)@ == old(self)@.checked_out().1,
            final(self)@.wf(),
            r is None <==> old(self)@.checked_out().0 is Wait,
            r matches Some(c) ==> c == old(self)@.checked_out().0,
    {
        match self.checkout() {
            Checkout::Wait => None,
            c => Some(c),
        }
    }

    /// Gives up a reserved place because the worker could not be created. The
    /// caller wakes one waiter.
    pub fn spawn_failed(&mut self)
        requires
            old(self)@.wf(),
            old(self)@.in_use() > 0,
            old(self)@.total_created > 1,
        ensures
            final(self)@ == old(self)@.released(),
            final(self)@.wf(),
    {
        self.total_created = self.total_created - 1;
    }

    /// Takes a worker back. The caller wakes one waiter.
    pub fn checkin(&mut self, worker: PooledWorker<T>)
        requires
            old(self)@.wf(),
            old(self)@.in_use() > 0,
        ensures
            final(self)@ == old(self)@.checked_in(worker),
            final(self)@.wf(),
    {
        self.available.push(worker);
    }

    /// The bucket that serves `num_tokens` tokens: the smallest that is large
    /// enough, and never one of more than one token below the safe size.
    pub fn pick_bucket(&self, num_tokens: u32) -> (r: Result<usize, ForwardError>)
        ensures
            r matches Ok(i) ==> num_tokens > 0 && is_best_bucket(self@.tapes, num_tokens, i as int),
            r is Ok <==> num_tokens > 0 && exists|j: int|
                0 <= j < self@.tapes.len() && may_serve(
                    (#[trigger] self@.tapes[j]).bucket_m,
                    num_tokens,
                ),
            r matches Err(e) ==> match e {
                ForwardError::ZeroTokens => num_tokens == 0,
                ForwardError::NoBucketFits { num_tokens: n, max_bucket } => num_tokens > 0 && n
                    == num_tokens && is_max_bucket(self@.tapes, max_bucket),
                _ => false,
            },
    {
        let r = pick_bucket(self.bucket_tapes.as_slice(), num_tokens);
        proof {
            let tapes = self.bucket_tapes@;
            assert forall|j: int| 0 <= j < tapes.len() implies (
            #[trigger] tapes[j]).bucket_m == self@.tapes[j].bucket_m by {}
            assert forall|j: int| 0 <= j < tapes.len() implies (
            #[trigger] self@.tapes[j]).bucket_m == tapes[j].bucket_m by {}
        }
        r
    }

    /// Records that the residency set is attached, and says whether it still
    /// had to be.
    pub fn attach_residency_once(&mut self) -> (first: bool)
        ensures
            first == !old(self)@.residency_attached,
            final(self)@ == (PoolView { residency_attached: true, ..old(self)@ }),
    {
        let first = !self.residency_attached;
        self.residency_attached = true;
        first
    }

    /// Starts a forward step: picks its bucket, counts its sequences and says
    /// whether the residency set has to be attached before a worker is checked
    /// out. A step that no bucket serves leaves the pool as it is.
    pub fn begin_forward(&mut self, inputs: &ForwardInputs<'_>) -> (r: Result<
        ForwardStart,
        ForwardError,
    >)
        ensures
            old(self)@.wf() ==> final(self)@.wf(),
            match r {
                Ok(start) => {
                    &&& is_best_bucket(
                        old(self)@.tapes,
                        inputs.num_tokens,
                        start.bucket_idx as int,
                    )
                    &&& inputs.num_tokens > 0
                    &&& start.num_seqs == inputs.seq_count() as u32
                    &&& start.has_spec_tokens == inputs.has_spec_tokens
                    &&& start.attach_residency == !old(self)@.residency_attached
                    &&& final(self)@ == (PoolView { residency_attached: true, ..old(self)@ })
                },
                Err(e) => {
                    &&& final(self)@ == old(self)@
                    &&& match e {
                        ForwardError::ZeroTokens => inputs.num_tokens == 0,
                        ForwardError::NoBucketFits { num_tokens, max_bucket } => {
                            &&& inputs.num_tokens > 0
                            &&& num_tokens == inputs.num_tokens
                            &&& is_max_bucket(old(self)@.tapes, max_bucket)
                            &&& forall|j: int|
                                0 <= j < old(self)@.tapes.len() ==> !may_serve(
                                    (#[trigger] old(self)@.tapes[j]).bucket_m,
                                    num_tokens,
                                )
                        },
                        _ => false,
                    }
                },
            },
    {
        let bucket_idx: usize = match self.pick_bucket(inputs.num_tokens) {
            Ok(i) => i,
            Err(e) => return Err(e),
        };
        let num_seqs: u32 = inputs.num_seqs();
        let attach_residency = self.attach_residency_once();
        Ok(
            ForwardStart {
                bucket_idx,
                num_seqs,
                has_spec_tokens: inputs.has_spec_tokens,
                attach_residency,
            },
        )
    }

    /// The value that the last submission signals; 0 before the first.
    pub fn last_signal(&self) -> (v: u64)
        ensures
            v == self@.signal_counter,
    {
        self.signal_counter
    }

    /// The value that the next submission signals. Values never repeat.
    pub fn next_signal(&mut self) -> (v: u64)
        requires
            old(self)@.signal_counter < u64::MAX,
        ensures
            v == old(self)@.signal_counter + 1,
            final(self)@ == (PoolView { signal_counter: v as int, ..old(self)@ }),
    {
        self.signal_counter = self.signal_counter + 1;
        self.signal_counter
    }
}

// ---- Laws ----

/// A worker that is checked out and checked in again leaves the pool as it
/// was, and the next checkout hands out the same worker without growing.
pub proof fn law_checkin_undoes_checkout<T>(p: PoolView<T>)
    requires
        p.wf(),
        p.available.len() > 0,
    ensures
        ({
            let (c, after) = p.checked_out();
            &&& c matches Checkout::Ready(worker)
            &&& after.checked_in(worker) == p
            &&& after.total_created == p.total_created
        }),
{
    assert(p.available.drop_last().push(p.available.last()) =~= p.available);
}

/// What is checked in last is handed out first, and the pool does not grow
/// while a worker is idle.
pub proof fn law_checkout_reuses<T>(p: PoolView<T>, worker: PooledWorker<T>)
    requires
        p.wf(),
        p.in_use() > 0,
    ensures
        p.checked_in(worker).checked_out() == (Checkout::Ready(worker), p),
{
    assert(p.available.push(worker).drop_last() =~= p.available);
}

/// A worker that could not be created leaves the pool as it was.
pub proof fn law_failed_spawn_is_undone<T>(p: PoolView<T>)
    requires
        p.wf(),
        p.checked_out().0 is Spawn,
    ensures
        p.checked_out().1.released() == p,
        p.checked_out().1.in_use() > 0,
        p.checked_out().1.total_created > 1,
{
}

/// A worker that is taken and given back, whether it was idle or was created,
/// leaves as many workers in use as before, and so does one that could not be
/// created.
pub proof fn law_loans_balance<T>(p: PoolView<T>, worker: PooledWorker<T>)
    requires
        p.wf(),
        p.checked_out().0 !is Wait,
    ensures
        p.checked_out().1.checked_in(worker).in_use() == p.in_use(),
        p.checked_out().1.checked_in(worker).wf(),
        p.checked_out().0 is Spawn ==> p.checked_out().1.released().in_use() == p.in_use(),
{
}

/// The pool grows only when no worker is idle, by one at a time, and never
/// past its cap; the caller has to wait exactly when every worker is in use
/// and the cap is reached.
pub proof fn law_growth_is_capped<T>(p: PoolView<T>)
    requires
        p.wf(),
    ensures
        p.checked_out().1.wf(),
        p.total_created <= p.checked_out().1.total_created <= p.total_created + 1,
        p.checked_out().1.total_created > p.total_created ==> p.available.len() == 0,
        p.checked_out().0 is Wait <==> p.in_use() == p.max_workers,
        p.checked_out().0 is Wait ==> p.checked_out().1 == p,
{
}

/// A checkout succeeds exactly while fewer workers are in use than the cap
/// allows, and then one more is in use.
pub proof fn law_capacity<T>(p: PoolView<T>)
    requires
        p.wf(),
    ensures
        p.checked_out().0 !is Wait ==> p.checked_out().1.in_use() == p.in_use() + 1,
        p.checked_out().0 !is Wait <==> p.in_use() < p.max_workers,
{
}

} // verus!
