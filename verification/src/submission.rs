//! The order of steps in which one command buffer is encoded, committed and
//! awaited.
//!
//! A `Submission` is what has to be done next. The caller does it on the
//! device and hands back what happened; `next` says what follows.
use crate::forward::{CommandBufferStatus, ForwardError, WorkerError};
use vstd::prelude::*;

verus! {

/// Longest wait for a command buffer, in milliseconds.
pub const WAIT_TIMEOUT_MS: u64 = 60000;

/// What kind of command buffer is submitted.
#[derive(Clone, Copy, Debug, PartialEq, Eq, Structural)]
pub enum SubmissionKind {
    /// One bucket, with a hook at the end of the encoder if `tail`, and with
    /// dispatch timestamps if `timing`.
    Bucket { tail: bool, timing: bool },
    /// A chain of steps that the caller encodes.
    Chain,
}

/// What has to be done next.
#[derive(Debug)]
pub enum Submission {
    /// Make sure that queue, allocator and event exist.
    EnsureQueue,
    /// Count the dispatches of the bucket.
    CountDispatches,
    /// Create a timestamp heap with this many entries.
    CreateTimer { entries: usize },
    /// Open a command buffer and an encoder.
    Open { timed: bool },
    /// Encode the bucket.
    EncodeBucket { timed: bool },
    /// Run the caller's hook on the encoder.
    EncodeHook { timed: bool },
    /// End the encoder and the command buffer and take the next signal value.
    End { timed: bool, failure: Option<ForwardError> },
    /// Commit the command buffer and signal the value behind it.
    Commit { timed: bool, signal: u64 },
    /// Wait for the value.
    Wait { timed: bool, signal: u64, timeout_ms: u64 },
    /// Reset the allocator.
    Reset { timed: bool },
    /// Report the timestamps.
    Report,
    /// Nothing: the submission is over.
    Finished(Result<(), ForwardError>),
}

/// What happened.
#[derive(Debug)]
pub enum Happened {
    /// The step was done.
    Done,
    /// The bucket has this many dispatches.
    Dispatches(usize),
    /// Whether the timestamp heap could be created.
    Timer(bool),
    /// How encoding the bucket went.
    Encoded(Result<(), WorkerError>),
    /// How the caller's hook went.
    Hooked(Result<(), ForwardError>),
    /// The encoder is ended; this is the signal value.
    Ended { signal: u64 },
    /// Whether the value was signalled in time.
    Waited(bool),
}

impl Submission {
    /// `happened` is what can happen when this is done.
    pub open spec fn expects(self, happened: Happened) -> bool {
        match self {
            Submission::EnsureQueue => happened is Done,
            Submission::CountDispatches => happened matches Happened::Dispatches(n) && n
                < usize::MAX,
            Submission::CreateTimer { .. } => happened is Timer,
            Submission::Open { .. } => happened is Done,
            Submission::EncodeBucket { .. } => happened is Encoded,
            Submission::EncodeHook { .. } => happened is Hooked,
            Submission::End { .. } => happened is Ended,
            Submission::Commit { .. } => happened is Done,
            Submission::Wait { .. } => happened is Waited,
            Submission::Reset { .. } => happened is Done,
            Submission::Report => happened is Done,
            Submission::Finished(_) => false,
        }
    }

    /// What follows.
    pub open spec fn after(self, kind: SubmissionKind, happened: Happened) -> Submission {
        match self {
            Submission::EnsureQueue => match kind {
                SubmissionKind::Bucket { timing: true, .. } => Submission::CountDispatches,
                _ => Submission::Open { timed: false },
            },
            Submission::CountDispatches => Submission::CreateTimer {
                entries: (happened->Dispatches_0 + 1) as usize,
            },
            Submission::CreateTimer { .. } => Submission::Open { timed: happened->Timer_0 },
            Submission::Open { timed } => match kind {
                SubmissionKind::Bucket { .. } => Submission::EncodeBucket { timed },
                SubmissionKind::Chain => Submission::EncodeHook { timed },
            },
            Submission::EncodeBucket { timed } => match happened->Encoded_0 {
                Err(e) => Submission::Finished(Err(ForwardError::Worker(e))),
                Ok(()) => if kind matches SubmissionKind::Bucket { tail: true, .. } {
                    Submission::EncodeHook { timed }
                } else {
                    Submission::End { timed, failure: None }
                },
            },
            Submission::EncodeHook { timed } => match happened->Hooked_0 {
                Ok(()) => Submission::End { timed, failure: None },
                Err(e) => match kind {
                    SubmissionKind::Chain => Submission::End { timed, failure: Some(e) },
                    SubmissionKind::Bucket { .. } => Submission::Finished(Err(e)),
                },
            },
            Submission::End { timed, failure } => match failure {
                Some(e) => Submission::Finished(Err(e)),
                None => Submission::Commit { timed, signal: happened->signal },
            },
            Submission::Commit { timed, signal } => Submission::Wait {
                timed,
                signal,
                timeout_ms: WAIT_TIMEOUT_MS,
            },
            Submission::Wait { timed, .. } => if happened->Waited_0 {
                Submission::Reset { timed }
            } else {
                Submission::Finished(Err(ForwardError::ExecutionFailed(CommandBufferStatus(5))))
            },
            Submission::Reset { timed } => if timed {
                Submission::Report
            } else {
                Submission::Finished(Ok(()))
            },
            Submission::Report => Submission::Finished(Ok(())),
            Submission::Finished(r) => Submission::Finished(r),
        }
    }

    /// The first thing to do.
    pub fn start() -> (s: Self)
        ensures
            s == Submission::EnsureQueue,
    {
        Submission::EnsureQueue
    }

    /// Says what follows. A bucket whose encoding fails is dropped at once; a
    /// chain whose encoding fails is ended first, but not committed. The
    /// allocator is reset only after the device has caught up.
    pub fn next(self, kind: SubmissionKind, happened: Happened) -> (s: Self)
        requires
            self.expects(happened),
        ensures
            s == self.after(kind, happened),
    {
        match (self, happened) {
            (Submission::EnsureQueue, _) => match kind {
                SubmissionKind::Bucket { timing: true, .. } => Submission::CountDispatches,
                _ => Submission::Open { timed: false },
            },
            (Submission::CountDispatches, Happened::Dispatches(n)) => Submission::CreateTimer {
                entries: n + 1,
            },
            (Submission::CreateTimer { .. }, Happened::Timer(timed)) => Submission::Open { timed },
            (Submission::Open { timed }, _) => match kind {
                SubmissionKind::Bucket { .. } => Submission::EncodeBucket { timed },
                SubmissionKind::Chain => Submission::EncodeHook { timed },
            },
            (Submission::EncodeBucket { timed }, Happened::Encoded(r)) => match r {
                Err(e) => Submission::Finished(Err(ForwardError::from(e))),
                Ok(()) => match kind {
                    SubmissionKind::Bucket { tail: true, .. } => Submission::EncodeHook { timed },
                    _ => Submission::End { timed, failure: None },
                },
            },
            (Submission::EncodeHook { timed }, Happened::Hooked(r)) => match r {
                Ok(()) => Submission::End { timed, failure: None },
                Err(e) => match kind {
                    SubmissionKind::Chain => Submission::End { timed, failure: Some(e) },
                    SubmissionKind::Bucket { .. } => Submission::Finished(Err(e)),
                },
            },
            (Submission::End { timed, failure }, Happened::Ended { signal }) => match failure {
                Some(e) => Submission::Finished(Err(e)),
                None => Submission::Commit { timed, signal },
            },
            (Submission::Commit { timed, signal }, _) => Submission::Wait {
                timed,
                signal,
                timeout_ms: WAIT_TIMEOUT_MS,
            },
            (Submission::Wait { timed, .. }, Happened::Waited(signalled)) => if signalled {
                Submission::Reset { timed }
            } else {
                Submission::Finished(
                    Err(ForwardError::ExecutionFailed(CommandBufferStatus::error())),
                )
            },
            (Submission::Reset { timed }, _) => if timed {
                Submission::Report
            } else {
                Submission::Finished(Ok(()))
            },
            (Submission::Report, _) => Submission::Finished(Ok(())),
            (s, _) => s,
        }
    }
}

// ---- Laws ----

/// How far a submission has come.
pub open spec fn progress(s: Submission) -> int {
    match s {
        Submission::EnsureQueue => 0,
        Submission::CountDispatches => 1,
        Submission::CreateTimer { .. } => 2,
        Submission::Open { .. } => 3,
        Submission::EncodeBucket { .. } => 4,
        Submission::EncodeHook { .. } => 5,
        Submission::End { .. } => 6,
        Submission::Commit { .. } => 7,
        Submission::Wait { .. } => 8,
        Submission::Reset { .. } => 9,
        Submission::Report => 10,
        Submission::Finished(_) => 11,
    }
}

/// What has to be done after `events`, from the start.
pub open spec fn run(kind: SubmissionKind, events: Seq<Happened>) -> Submission
    decreases events.len(),
{
    if events.len() == 0 {
        Submission::EnsureQueue
    } else {
        run(kind, events.drop_last()).after(kind, events.last())
    }
}

/// Each of `events` is what can happen at its place.
pub open spec fn is_run(kind: SubmissionKind, events: Seq<Happened>) -> bool
    decreases events.len(),
{
    events.len() == 0 || (is_run(kind, events.drop_last()) && run(
        kind,
        events.drop_last(),
    ).expects(events.last()))
}

/// Every step leads further, so a submission is over after at most eleven.
pub proof fn law_submission_ends(kind: SubmissionKind, events: Seq<Happened>)
    requires
        is_run(kind, events),
    ensures
        events.len() <= progress(run(kind, events)) <= 11,
    decreases events.len(),
{
    if events.len() > 0 {
        law_submission_ends(kind, events.drop_last());
    }
}

/// Work is committed only if all of it was encoded without an error, and with
/// the signal value that ending the encoder gave.
pub proof fn law_only_clean_work_is_committed(
    s: Submission,
    kind: SubmissionKind,
    happened: Happened,
)
    requires
        s.expects(happened),
    ensures
        s.after(kind, happened) matches Submission::Commit { timed, signal } ==> s == (
        Submission::End { timed, failure: None }) && happened == (Happened::Ended { signal }),
        s.after(kind, happened) matches Submission::End { failure, .. } ==> (failure is Some
            <==> happened matches Happened::Hooked(Err(_))),
{
}

/// The value that is waited for is the one that was signalled.
pub proof fn law_wait_is_for_the_signal(s: Submission, kind: SubmissionKind, happened: Happened)
    requires
        s.expects(happened),
    ensures
        s.after(kind, happened) matches Submission::Wait { timed, signal, timeout_ms } ==> s == (
        Submission::Commit { timed, signal }) && timeout_ms == WAIT_TIMEOUT_MS,
{
}

/// Success is reported only after the device signalled: the only way to it
/// leads through a reset, and the only way to a reset through a signal that
/// came in time.
pub proof fn law_success_means_completion(s: Submission, kind: SubmissionKind, happened: Happened)
    requires
        s.expects(happened),
    ensures
        s.after(kind, happened) matches Submission::Finished(Ok(_)) ==> s is Reset || s is Report,
        s.after(kind, happened) is Report ==> s is Reset,
        s.after(kind, happened) is Reset ==> s is Wait && happened == Happened::Waited(true),
{
}

/// Whether the caller's hook belongs to the submission.
pub open spec fn has_hook(kind: SubmissionKind) -> bool {
    match kind {
        SubmissionKind::Bucket { tail, .. } => tail,
        SubmissionKind::Chain => true,
    }
}

/// The bucket was encoded without an error.
pub open spec fn bucket_encoded(events: Seq<Happened>) -> bool {
    exists|i: int|
        0 <= i < events.len() && (#[trigger] events[i] matches Happened::Encoded(Ok(_)))
}

/// The hook ran without an error.
pub open spec fn hook_done(events: Seq<Happened>) -> bool {
    exists|i: int| 0 <= i < events.len() && (#[trigger] events[i] matches Happened::Hooked(Ok(_)))
}

/// What must have happened on the way to `s`.
spec fn earned(kind: SubmissionKind, s: Submission, events: Seq<Happened>) -> bool {
    let encoded = kind is Bucket ==> bucket_encoded(events);
    let hooked = has_hook(kind) ==> hook_done(events);
    let waited = events.contains(Happened::Waited(true));
    match s {
        Submission::EncodeHook { .. } => encoded && has_hook(kind),
        Submission::End { failure: None, .. } => encoded && hooked,
        Submission::End { failure: Some(e), .. } => kind is Chain && events.contains(
            Happened::Hooked(Err(e)),
        ),
        Submission::Commit { signal, .. } => encoded && hooked && events.contains(
            Happened::Ended { signal },
        ),
        Submission::Wait { signal, .. } => encoded && hooked && events.contains(
            Happened::Ended { signal },
        ),
        Submission::Reset { .. } => encoded && hooked && waited,
        Submission::Report => encoded && hooked && waited,
        Submission::Finished(Ok(_)) => encoded && hooked && waited,
        Submission::Finished(Err(e)) => failure_cause(e, events),
        Submission::EncodeBucket { .. } => kind is Bucket,
        _ => true,
    }
}

/// `events` hold a failure that `e` reports.
pub open spec fn failure_cause(e: ForwardError, events: Seq<Happened>) -> bool {
    ||| events.contains(Happened::Hooked(Err(e)))
    ||| e matches ForwardError::Worker(w) && events.contains(Happened::Encoded(Err(w)))
    ||| e == ForwardError::ExecutionFailed(CommandBufferStatus(5)) && events.contains(
        Happened::Waited(false),
    )
}

proof fn lemma_earned(kind: SubmissionKind, events: Seq<Happened>)
    requires
        is_run(kind, events),
    ensures
        earned(kind, run(kind, events), events),
    decreases events.len(),
{
    if events.len() > 0 {
        let before = events.drop_last();
        lemma_earned(kind, before);
        assert forall|h: Happened| before.contains(h) implies events.contains(h) by {
            let i = choose|i: int| 0 <= i < before.len() && before[i] == h;
            assert(events[i] == h);
        }
        assert forall|i: int| 0 <= i < before.len() implies events[i] == #[trigger] before[i] by {}
        assert(events[events.len() - 1] == events.last());
        match (run(kind, before), events.last()) {
            (Submission::EncodeBucket { .. }, Happened::Encoded(r)) => {
                assert(events.contains(Happened::Encoded(r)));
            },
            (Submission::EncodeHook { .. }, Happened::Hooked(r)) => {
                assert(events.contains(Happened::Hooked(r)));
            },
            (Submission::End { .. }, Happened::Ended { signal }) => {
                assert(events.contains(Happened::Ended { signal }));
            },
            (Submission::Wait { .. }, Happened::Waited(b)) => {
                assert(events.contains(Happened::Waited(b)));
            },
            _ => {},
        }
    }
}

/// A submission that succeeds has encoded its bucket and run its hook, as far
/// as it has them, without an error, and has seen the signal in time.
pub proof fn law_success_is_earned(kind: SubmissionKind, events: Seq<Happened>)
    requires
        is_run(kind, events),
        run(kind, events) matches Submission::Finished(Ok(_)),
    ensures
        kind is Bucket ==> bucket_encoded(events),
        has_hook(kind) ==> hook_done(events),
        events.contains(Happened::Waited(true)),
{
    lemma_earned(kind, events);
}

/// A submission that fails reports what failed: the encoding of its bucket,
/// its hook, or the wait.
pub proof fn law_failure_has_a_cause(
    kind: SubmissionKind,
    events: Seq<Happened>,
    e: ForwardError,
)
    requires
        is_run(kind, events),
        run(kind, events) == Submission::Finished(Err(e)),
    ensures
        failure_cause(e, events),
{
    lemma_earned(kind, events);
}

/// Whatever is committed was encoded and hooked without an error, and its
/// signal value is the one that ending the encoder gave.
pub proof fn law_committed_work_is_clean(
    kind: SubmissionKind,
    events: Seq<Happened>,
    timed: bool,
    signal: u64,
)
    requires
        is_run(kind, events),
        run(kind, events) == (Submission::Commit { timed, signal }),
    ensures
        kind is Bucket ==> bucket_encoded(events),
        has_hook(kind) ==> hook_done(events),
        events.contains(Happened::Ended { signal }),
{
    lemma_earned(kind, events);
}

/// A timed bucket has room for a timestamp before each dispatch and one behind
/// the last; it is timed exactly if the heap could be created, and reports
/// exactly if it is timed. A bucket that is not timed and a chain go straight to
/// their encoder.
pub proof fn law_timed_buckets_report(kind: SubmissionKind, n: usize, made: bool, timed: bool)
    requires
        n < usize::MAX,
    ensures
        ({
            let begun = Submission::EnsureQueue.after(kind, Happened::Done);
            let counted = Submission::CountDispatches.after(kind, Happened::Dispatches(n));
            let heap = Submission::CreateTimer { entries: n };
            let reset = Submission::Reset { timed };
            let wants_times = match kind {
                SubmissionKind::Bucket { timing, .. } => timing,
                SubmissionKind::Chain => false,
            };
            &&& wants_times ==> begun is CountDispatches
            &&& !wants_times ==> begun == (Submission::Open { timed: false })
            &&& counted == (Submission::CreateTimer { entries: (n + 1) as usize })
            &&& heap.after(kind, Happened::Timer(made)) == (Submission::Open { timed: made })
            &&& reset.after(kind, Happened::Done) is Report <==> timed
            &&& !timed ==> (reset.after(kind, Happened::Done) matches Submission::Finished(Ok(_)))
            &&& Submission::Report.after(kind, Happened::Done) matches Submission::Finished(Ok(_))
        }),
{
}

/// What is opened is encoded: a bucket by its worker, then by the hook if it
/// has one, a chain by the hook alone. A bucket that fails is dropped; a chain
/// that fails is ended first, so that its allocator stays usable.
pub proof fn law_encoding_order(
    timed: bool,
    tail: bool,
    timing: bool,
    e: ForwardError,
    w: WorkerError,
    encoded: Happened,
    hooked: Happened,
)
    requires
        encoded matches Happened::Encoded(Ok(_)),
        hooked matches Happened::Hooked(Ok(_)),
    ensures
        ({
            let bucket = SubmissionKind::Bucket { tail, timing };
            let chain = SubmissionKind::Chain;
            let open = Submission::Open { timed };
            let worker = Submission::EncodeBucket { timed };
            let hook = Submission::EncodeHook { timed };
            let end = Submission::End { timed, failure: None };
            let failed = Submission::End { timed, failure: Some(e) };
            &&& open.after(bucket, Happened::Done) == worker
            &&& open.after(chain, Happened::Done) == hook
            &&& tail ==> worker.after(bucket, encoded) == hook
            &&& !tail ==> worker.after(bucket, encoded) == end
            &&& worker.after(bucket, Happened::Encoded(Err(w))) == Submission::Finished(
                Err(ForwardError::Worker(w)),
            )
            &&& hook.after(bucket, hooked) == end
            &&& hook.after(chain, hooked) == end
            &&& hook.after(bucket, Happened::Hooked(Err(e))) == Submission::Finished(Err(e))
            &&& hook.after(chain, Happened::Hooked(Err(e))) == failed
            &&& has_hook(bucket) == tail
            &&& has_hook(chain)
        }),
{
}

/// Committed work is awaited for a minute under the value that it signals. The
/// allocator is reset once the signal came; without it the step fails with the
/// status of an aborted command buffer, which is 5.
pub proof fn law_committed_work_is_awaited(
    kind: SubmissionKind,
    timed: bool,
    signal: u64,
    timeout_ms: u64,
    e: ForwardError,
)
    ensures
        ({
            let ended = Happened::Ended { signal };
            let end = Submission::End { timed, failure: None };
            let failed = Submission::End { timed, failure: Some(e) };
            let commit = Submission::Commit { timed, signal };
            let wait = Submission::Wait { timed, signal, timeout_ms };
            let status = CommandBufferStatus(5);
            &&& end.after(kind, ended) == commit
            &&& failed.after(kind, ended) == Submission::Finished(Err(e))
            &&& commit.after(kind, Happened::Done) == (Submission::Wait {
                timed,
                signal,
                timeout_ms: 60000,
            })
            &&& wait.after(kind, Happened::Waited(true)) == (Submission::Reset { timed })
            &&& wait.after(kind, Happened::Waited(false)) == Submission::Finished(
                Err(ForwardError::ExecutionFailed(status)),
            )
        }),
{
}

} // verus!
