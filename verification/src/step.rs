//! The order in which a whole step runs: from its inputs to the worker's
//! return.
//!
//! A `StepAction` is what has to be done next. The caller does it and hands
//! back what happened; `next` says what follows. What is done on the device is
//! the step's `Submission`.
use crate::forward::{ForwardError, WorkerError};
use crate::pool::ForwardStart;
use crate::submission::{is_run, run, Happened, Submission, SubmissionKind};
use vstd::prelude::*;

verus! {

/// What has to be done next.
#[derive(Debug)]
pub enum StepAction {
    /// Start the step: `MetalWorkerPool::begin_forward`.
    Admit,
    /// Make sure that queue, allocator and event exist. Only a chain does this
    /// ahead of its submission.
    EnsureQueue,
    /// Ask whether the residency set still has to be attached:
    /// `MetalWorkerPool::attach_residency_once`.
    MarkResidency,
    /// Attach the residency set to the queue.
    AttachResidency,
    /// Take a worker, and wait or create one where need be.
    CheckOut,
    /// Write the inputs into the worker's buffers: `write_runtime_inputs`.
    Stage,
    /// Do what the submission asks for.
    Submit(Submission),
    /// Let the caller read the worker's arena.
    HandOut,
    /// Give the worker back.
    CheckIn(Result<(), ForwardError>),
    /// Nothing: the step is over.
    Finished(Result<(), ForwardError>),
}

/// What happened.
#[derive(Debug)]
pub enum StepEvent {
    /// The action was done.
    Done,
    /// Whether a bucket serves the step.
    Admitted(Result<ForwardStart, ForwardError>),
    /// Whether the residency set still has to be attached.
    Marked { first: bool },
    /// Whether there is a worker. Where creating one failed, the place that
    /// was reserved for it is released.
    CheckedOut(Result<(), WorkerError>),
    /// Whether the inputs fit.
    Staged(Result<(), ForwardError>),
    /// What the device did.
    Device(Happened),
}

/// Where the submission of a step starts. The queue of a chain exists already.
pub open spec fn first_submission(kind: SubmissionKind) -> Submission {
    match kind {
        SubmissionKind::Bucket { .. } => Submission::EnsureQueue,
        SubmissionKind::Chain => Submission::Open { timed: false },
    }
}

/// What a step does about its submission: carry on while it is not over, then
/// hand the worker out if a bucket succeeded, and give it back otherwise.
pub open spec fn settled(kind: SubmissionKind, s: Submission) -> StepAction {
    match s {
        Submission::Finished(Ok(_)) => match kind {
            SubmissionKind::Bucket { .. } => StepAction::HandOut,
            SubmissionKind::Chain => StepAction::CheckIn(Ok(())),
        },
        Submission::Finished(Err(e)) => StepAction::CheckIn(Err(e)),
        _ => StepAction::Submit(s),
    }
}

impl StepAction {
    /// The first action of a step of this kind.
    pub open spec fn first(kind: SubmissionKind) -> StepAction {
        match kind {
            SubmissionKind::Bucket { .. } => StepAction::Admit,
            SubmissionKind::Chain => StepAction::EnsureQueue,
        }
    }

    /// `event` is what can happen when this is done.
    pub open spec fn expects(self, event: StepEvent) -> bool {
        match self {
            StepAction::Admit => event is Admitted,
            StepAction::EnsureQueue => event is Done,
            StepAction::MarkResidency => event is Marked,
            StepAction::AttachResidency => event is Done,
            StepAction::CheckOut => event is CheckedOut,
            StepAction::Stage => event is Staged,
            StepAction::Submit(s) => event matches StepEvent::Device(h) && s.expects(h),
            StepAction::HandOut => event is Done,
            StepAction::CheckIn(_) => event is Done,
            StepAction::Finished(_) => false,
        }
    }

    /// What follows.
    pub open spec fn after(self, kind: SubmissionKind, event: StepEvent) -> StepAction {
        match self {
            StepAction::Admit => match event->Admitted_0 {
                Ok(start) => if start.attach_residency {
                    StepAction::AttachResidency
                } else {
                    StepAction::CheckOut
                },
                Err(e) => StepAction::Finished(Err(e)),
            },
            StepAction::EnsureQueue => StepAction::MarkResidency,
            StepAction::MarkResidency => if event->first {
                StepAction::AttachResidency
            } else {
                StepAction::CheckOut
            },
            StepAction::AttachResidency => StepAction::CheckOut,
            StepAction::CheckOut => match event->CheckedOut_0 {
                Ok(_) => StepAction::Stage,
                Err(e) => StepAction::Finished(Err(ForwardError::Worker(e))),
            },
            StepAction::Stage => match event->Staged_0 {
                Ok(_) => StepAction::Submit(first_submission(kind)),
                Err(e) => StepAction::CheckIn(Err(e)),
            },
            StepAction::Submit(s) => settled(kind, s.after(kind, event->Device_0)),
            StepAction::HandOut => StepAction::CheckIn(Ok(())),
            StepAction::CheckIn(r) => StepAction::Finished(r),
            StepAction::Finished(r) => StepAction::Finished(r),
        }
    }

    /// The first thing to do: a bucket's step is admitted, a chain makes sure
    /// of its queue.
    pub fn start(kind: SubmissionKind) -> (a: Self)
        ensures
            a == Self::first(kind),
    {
        match kind {
            SubmissionKind::Bucket { .. } => StepAction::Admit,
            SubmissionKind::Chain => StepAction::EnsureQueue,
        }
    }

    /// Says what follows. A step that is refused before it has a worker is
    /// over at once; one that has a worker gives it back first.
    pub fn next(self, kind: SubmissionKind, event: StepEvent) -> (a: Self)
        requires
            self.expects(event),
        ensures
            a == self.after(kind, event),
    {
        match (self, event) {
            (StepAction::Admit, StepEvent::Admitted(r)) => match r {
                Ok(start) => if start.attach_residency {
                    StepAction::AttachResidency
                } else {
                    StepAction::CheckOut
                },
                Err(e) => StepAction::Finished(Err(e)),
            },
            (StepAction::EnsureQueue, _) => StepAction::MarkResidency,
            (StepAction::MarkResidency, StepEvent::Marked { first }) => if first {
                StepAction::AttachResidency
            } else {
                StepAction::CheckOut
            },
            (StepAction::AttachResidency, _) => StepAction::CheckOut,
            (StepAction::CheckOut, StepEvent::CheckedOut(r)) => match r {
                Ok(()) => StepAction::Stage,
                Err(e) => StepAction::Finished(Err(ForwardError::from(e))),
            },
            (StepAction::Stage, StepEvent::Staged(r)) => match r {
                Ok(()) => match kind {
                    SubmissionKind::Bucket { .. } => StepAction::Submit(Submission::start()),
                    SubmissionKind::Chain => StepAction::Submit(
                        Submission::Open { timed: false },
                    ),
                },
                Err(e) => StepAction::CheckIn(Err(e)),
            },
            (StepAction::Submit(s), StepEvent::Device(h)) => match s.next(kind, h) {
                Submission::Finished(Ok(())) => match kind {
                    SubmissionKind::Bucket { .. } => StepAction::HandOut,
                    SubmissionKind::Chain => StepAction::CheckIn(Ok(())),
                },
                Submission::Finished(Err(e)) => StepAction::CheckIn(Err(e)),
                s => StepAction::Submit(s),
            },
            (StepAction::HandOut, _) => StepAction::CheckIn(Ok(())),
            (StepAction::CheckIn(r), _) => StepAction::Finished(r),
            (a, _) => a,
        }
    }
}

// ---- Runs ----

/// What has to be done after `events`, from the start.
pub open spec fn step_run(kind: SubmissionKind, events: Seq<StepEvent>) -> StepAction
    decreases events.len(),
{
    if events.len() == 0 {
        StepAction::first(kind)
    } else {
        step_run(kind, events.drop_last()).after(kind, events.last())
    }
}

/// Each of `events` is what can happen at its place.
pub open spec fn is_step_run(kind: SubmissionKind, events: Seq<StepEvent>) -> bool
    decreases events.len(),
{
    events.len() == 0 || (is_step_run(kind, events.drop_last()) && step_run(
        kind,
        events.drop_last(),
    ).expects(events.last()))
}

/// What the device did, in order.
pub open spec fn device_events(events: Seq<StepEvent>) -> Seq<Happened>
    decreases events.len(),
{
    if events.len() == 0 {
        Seq::empty()
    } else {
        match events.last() {
            StepEvent::Device(h) => device_events(events.drop_last()).push(h),
            _ => device_events(events.drop_last()),
        }
    }
}

/// The run of the step's submission. That of a chain starts with the queue
/// that the step made sure of.
pub open spec fn submission_events(kind: SubmissionKind, events: Seq<StepEvent>) -> Seq<Happened> {
    match kind {
        SubmissionKind::Bucket { .. } => device_events(events),
        SubmissionKind::Chain => seq![Happened::Done] + device_events(events),
    }
}

/// The step is refused: no bucket serves it, no worker could be created, or an
/// input does not fit.
pub open spec fn refuses(event: StepEvent) -> bool {
    match event {
        StepEvent::Admitted(Err(_)) => true,
        StepEvent::CheckedOut(Err(_)) => true,
        StepEvent::Staged(Err(_)) => true,
        _ => false,
    }
}

/// Workers that were taken.
pub open spec fn checkouts(events: Seq<StepEvent>) -> int
    decreases events.len(),
{
    if events.len() == 0 {
        0
    } else if events.last() matches StepEvent::CheckedOut(Ok(_)) {
        checkouts(events.drop_last()) + 1
    } else {
        checkouts(events.drop_last())
    }
}

/// Workers that were given back.
pub open spec fn checkins(kind: SubmissionKind, events: Seq<StepEvent>) -> int
    decreases events.len(),
{
    if events.len() == 0 {
        0
    } else if step_run(kind, events.drop_last()) is CheckIn {
        checkins(kind, events.drop_last()) + 1
    } else {
        checkins(kind, events.drop_last())
    }
}

/// The step has a worker on loan while `action` is to be done.
pub open spec fn holds_worker(action: StepAction) -> bool {
    action is Stage || action is Submit || action is HandOut || action is CheckIn
}

/// `events` hold what `e` reports.
pub open spec fn step_failure_cause(
    kind: SubmissionKind,
    e: ForwardError,
    events: Seq<StepEvent>,
) -> bool {
    ||| events.contains(StepEvent::Admitted(Err(e)))
    ||| e matches ForwardError::Worker(w) && events.contains(StepEvent::CheckedOut(Err(w)))
    ||| events.contains(StepEvent::Staged(Err(e)))
    ||| is_run(kind, submission_events(kind, events)) && run(kind, submission_events(kind, events))
        == Submission::Finished(Err(e))
}

// ---- Laws ----

/// How far a step has come.
pub open spec fn step_progress(action: StepAction) -> int {
    match action {
        StepAction::Admit => 0,
        StepAction::EnsureQueue => 0,
        StepAction::MarkResidency => 1,
        StepAction::AttachResidency => 2,
        StepAction::CheckOut => 3,
        StepAction::Stage => 4,
        StepAction::Submit(s) => 5 + crate::submission::progress(s),
        StepAction::HandOut => 17,
        StepAction::CheckIn(_) => 18,
        StepAction::Finished(_) => 19,
    }
}

/// Every action leads further, so a step is over after at most nineteen.
pub proof fn law_step_ends(kind: SubmissionKind, events: Seq<StepEvent>)
    requires
        is_step_run(kind, events),
    ensures
        events.len() <= step_progress(step_run(kind, events)) <= 19,
    decreases events.len(),
{
    if events.len() > 0 {
        law_step_ends(kind, events.drop_last());
    }
}

/// A worker that was taken is given back exactly once: no step takes two or
/// gives back more than it took, a step that is over holds none, and in
/// between a step holds one exactly while its action needs it.
pub proof fn law_worker_comes_back_once(kind: SubmissionKind, events: Seq<StepEvent>)
    requires
        is_step_run(kind, events),
    ensures
        0 <= checkins(kind, events) <= checkouts(events) <= 1,
        checkouts(events) - checkins(kind, events) == 1 <==> holds_worker(step_run(kind, events)),
        step_run(kind, events) is Finished ==> checkins(kind, events) == checkouts(events),
        step_progress(step_run(kind, events)) <= 3 ==> checkouts(events) == 0,
    decreases events.len(),
{
    if events.len() > 0 {
        law_worker_comes_back_once(kind, events.drop_last());
    }
}

/// What the step knows of its submission while `action` is to be done.
spec fn follows(kind: SubmissionKind, action: StepAction, events: Seq<StepEvent>) -> bool {
    let device = submission_events(kind, events);
    match action {
        StepAction::Submit(s) => is_run(kind, device) && run(kind, device) == s && s !is Finished,
        StepAction::HandOut => kind is Bucket && is_run(kind, device) && (run(
            kind,
            device,
        ) matches Submission::Finished(Ok(_))),
        StepAction::CheckIn(Ok(_)) => is_run(kind, device) && (run(
            kind,
            device,
        ) matches Submission::Finished(Ok(_))),
        StepAction::Finished(Ok(_)) => is_run(kind, device) && (run(
            kind,
            device,
        ) matches Submission::Finished(Ok(_))),
        StepAction::CheckIn(Err(e)) => step_failure_cause(kind, e, events),
        StepAction::Finished(Err(e)) => step_failure_cause(kind, e, events),
        _ => device_events(events).len() == 0,
    }
}

proof fn lemma_follows(kind: SubmissionKind, events: Seq<StepEvent>)
    requires
        is_step_run(kind, events),
    ensures
        follows(kind, step_run(kind, events), events),
    decreases events.len(),
{
    if events.len() > 0 {
        let before = events.drop_last();
        let action = step_run(kind, before);
        let event = events.last();
        lemma_follows(kind, before);
        assert(events[events.len() - 1] == event);
        assert forall|x: StepEvent| before.contains(x) implies events.contains(x) by {
            let i = choose|i: int| 0 <= i < before.len() && before[i] == x;
            assert(events[i] == x);
        }
        match event {
            StepEvent::Device(h) => {
                let a = submission_events(kind, before);
                let b = submission_events(kind, events);
                assert(b =~= a.push(h));
                assert(b.drop_last() =~= a);
            },
            _ => {
                assert(submission_events(kind, events) == submission_events(kind, before));
                if let StepEvent::Staged(r) = event {
                    assert(events.contains(StepEvent::Staged(r)));
                    let device = submission_events(kind, events);
                    reveal_with_fuel(run, 2);
                    reveal_with_fuel(is_run, 2);
                    assert(device_events(events) =~= Seq::empty());
                    if kind is Chain {
                        assert(device =~= seq![Happened::Done]);
                        assert(device.drop_last() =~= Seq::empty());
                    }
                }
                if let StepEvent::Admitted(r) = event {
                    assert(events.contains(StepEvent::Admitted(r)));
                }
                if let StepEvent::CheckedOut(r) = event {
                    assert(events.contains(StepEvent::CheckedOut(r)));
                }
            },
        }
    }
}

/// Inputs are checked before anything is done on the device: a step submits
/// only after its inputs were accepted, and a bucket's step makes sure of the
/// queue no earlier than that.
pub proof fn law_validation_comes_first(kind: SubmissionKind, events: Seq<StepEvent>)
    requires
        is_step_run(kind, events),
    ensures
        step_run(kind, events) is Submit || device_events(events).len() > 0 ==> exists|i: int|
            0 <= i < events.len() && (#[trigger] events[i] matches StepEvent::Staged(Ok(_))),
        step_run(kind, events) is HandOut ==> exists|i: int|
            0 <= i < events.len() && (#[trigger] events[i] matches StepEvent::Staged(Ok(_))),
        step_run(kind, events) is EnsureQueue ==> kind is Chain && events.len() == 0,
    decreases events.len(),
{
    if events.len() > 0 {
        let before = events.drop_last();
        law_validation_comes_first(kind, before);
        assert(events[events.len() - 1] == events.last());
        assert forall|i: int| 0 <= i < before.len() implies events[i] == #[trigger] before[i] by {}
    }
}

/// A refused step reaches no device: from the refusal on it only gives its
/// worker back, if it has one, and ends with an error, and nothing was done on
/// the device before.
pub proof fn law_refused_step_reaches_no_device(
    kind: SubmissionKind,
    events: Seq<StepEvent>,
    at: int,
)
    requires
        is_step_run(kind, events),
        0 <= at < events.len(),
        refuses(events[at]),
    ensures
        device_events(events).len() == 0,
        (step_run(kind, events) matches StepAction::CheckIn(Err(_))) || (step_run(
            kind,
            events,
        ) matches StepAction::Finished(Err(_))),
    decreases events.len(),
{
    let before = events.drop_last();
    if at < before.len() {
        assert(before[at] == events[at]);
        law_refused_step_reaches_no_device(kind, before, at);
    } else {
        lemma_follows(kind, before);
    }
}

/// A step that succeeds has run its submission to success.
pub proof fn law_success_runs_the_submission(kind: SubmissionKind, events: Seq<StepEvent>)
    requires
        is_step_run(kind, events),
        step_run(kind, events) matches StepAction::Finished(Ok(_)),
    ensures
        is_run(kind, submission_events(kind, events)),
        run(kind, submission_events(kind, events)) matches Submission::Finished(Ok(_)),
        checkouts(events) == 1,
        checkins(kind, events) == 1,
{
    lemma_follows(kind, events);
    law_worker_comes_back_once(kind, events);
    law_worker_comes_back_once(kind, events.drop_last());
}

/// A step that fails reports what failed: its admission, the worker, its
/// inputs, or its submission.
pub proof fn law_step_reports_its_failure(
    kind: SubmissionKind,
    events: Seq<StepEvent>,
    e: ForwardError,
)
    requires
        is_step_run(kind, events),
        step_run(kind, events) == StepAction::Finished(Err(e)),
    ensures
        step_failure_cause(kind, e, events),
{
    lemma_follows(kind, events);
}

/// A step takes its worker right after the residency set was attached, or at
/// once if it was attached already; a bucket's step asks when it is admitted, a
/// chain behind its queue.
pub proof fn law_workers_are_taken_behind_the_residency(
    kind: SubmissionKind,
    start: ForwardStart,
    first: bool,
)
    ensures
        ({
            let marked = StepEvent::Marked { first };
            let admitted = StepAction::Admit.after(kind, StepEvent::Admitted(Ok(start)));
            &&& kind is Bucket ==> StepAction::first(kind) is Admit
            &&& kind is Chain ==> StepAction::first(kind) is EnsureQueue
            &&& StepAction::EnsureQueue.after(kind, StepEvent::Done) is MarkResidency
            &&& admitted is AttachResidency <==> start.attach_residency
            &&& admitted is CheckOut <==> !start.attach_residency
            &&& StepAction::MarkResidency.after(kind, marked) is AttachResidency <==> first
            &&& StepAction::MarkResidency.after(kind, marked) is CheckOut <==> !first
            &&& StepAction::AttachResidency.after(kind, StepEvent::Done) is CheckOut
        }),
{
}

/// A bucket that succeeded is handed out before its worker goes back; a chain
/// is not, and nothing that failed is.
pub proof fn law_only_successful_buckets_are_handed_out(
    kind: SubmissionKind,
    s: Submission,
    happened: Happened,
)
    requires
        s.expects(happened),
    ensures
        StepAction::Submit(s).after(kind, StepEvent::Device(happened)) is HandOut
            <==> kind is Bucket && (s.after(kind, happened) matches Submission::Finished(Ok(_))),
        StepAction::Submit(s).after(kind, StepEvent::Device(happened)) is Submit <==> s.after(
            kind,
            happened,
        ) !is Finished,
        StepAction::HandOut.after(kind, StepEvent::Done) matches StepAction::CheckIn(Ok(_)),
{
}

} // verus!
