use ferrite_forward::buckets::{
    arena_layout, for_buckets, lower_buckets, BucketChoices, MetalBucketSpec, PoolBuildError,
    PoolPlan,
};
use ferrite_forward::forward::{CommandBufferStatus, ForwardError, ForwardInputs, WorkerError};
use ferrite_forward::instruction::{CanonicalParams, Instruction};
use ferrite_forward::lowered::{LoweredMetalTape, MetalDtype};
use ferrite_forward::lowering_check::check_buckets;
use ferrite_forward::pool::{Checkout, MetalWorkerPool, PooledWorker};
use ferrite_forward::step::{StepAction, StepEvent};
use ferrite_forward::submission::{Happened, Submission, SubmissionKind};
use ferrite_forward::runtime::{
    write_runtime_inputs, write_slice, write_slot_mapping, RuntimeBindings,
};

fn runtime(len: usize) -> RuntimeBindings {
    RuntimeBindings {
        input_ids: vec![0xAA; len],
        positions: vec![0xAA; len],
        slot_mapping: vec![0xAA; len],
        cu_seqlens_q: vec![0xAA; 16],
        seq_used_k: vec![0xAA; 16],
        block_table: vec![0xAA; 16],
        num_tokens_u32: vec![0xAA; 4],
        num_sample_rows_u32: vec![0xAA; 4],
        sample_indices: vec![0xAA; len],
    }
}

fn tape(bucket_m: u32) -> LoweredMetalTape {
    LoweredMetalTape {
        bucket_m,
        num_arena_slots: 2,
        commands: vec![],
        barrier_before: vec![],
        runtime_gate: vec![],
        splitk_scratch_bytes: 0,
        moe_scratch_bytes: 0,
    }
}

fn worker(id: u32, len: usize) -> PooledWorker<u32> {
    PooledWorker { worker: id, runtime: runtime(len) }
}

fn pool_of(bucket_ms: &[u32], max: usize, len: usize) -> MetalWorkerPool<u32> {
    let plan = PoolPlan {
        tapes: bucket_ms.iter().map(|m| tape(*m)).collect(),
        arena_layout: vec![4096, 4096],
    };
    MetalWorkerPool::new(plan, Ok(worker(0, len)), max).expect("pool builds")
}

fn build_pool(max: usize) -> MetalWorkerPool<u32> {
    pool_of(&[1], max, 16)
}

fn build_multi_bucket_pool(bucket_ms: &[u32], max: usize) -> MetalWorkerPool<u32> {
    let max_m = *bucket_ms.iter().max().unwrap_or(&1) as usize;
    pool_of(bucket_ms, max, (max_m * 4).max(16))
}

fn checkout(pool: &mut MetalWorkerPool<u32>) -> PooledWorker<u32> {
    match pool.checkout() {
        Checkout::Ready(w) => w,
        Checkout::Spawn => worker(pool.current_size() as u32 - 1, 16),
        Checkout::Wait => panic!("checkout would block"),
    }
}

#[test]
fn pool_starts_with_one_worker() {
    let pool = build_pool(4);
    assert_eq!(pool.max_workers(), 4);
    assert_eq!(pool.current_size(), 1, "first worker eagerly created");
    assert_eq!(pool.available(), 1);
}

#[test]
fn checkout_returns_eagerly_created_worker_first() {
    let mut pool = build_pool(4);
    let g = checkout(&mut pool);
    assert_eq!(g.worker, 0);
    assert_eq!(pool.current_size(), 1, "first checkout reuses eager worker");
    assert_eq!(pool.available(), 0);
}

#[test]
fn pool_grows_under_demand_up_to_cap() {
    let mut pool = build_pool(3);
    let g1 = checkout(&mut pool);
    let g2 = checkout(&mut pool);
    let g3 = checkout(&mut pool);
    assert_eq!(pool.current_size(), 3, "grew to cap");
    assert_eq!(pool.available(), 0);
    assert!(pool.try_checkout().is_none());
    pool.checkin(g1);
    pool.checkin(g2);
    pool.checkin(g3);
    assert_eq!(pool.available(), 3);
    assert_eq!(pool.current_size(), 3, "cap unchanged after checkin");
    // The last one in is the first one out.
    assert_eq!(checkout(&mut pool).worker, 2);
}

#[test]
fn guard_drop_returns_worker_to_pool() {
    let mut pool = build_pool(2);
    let g = checkout(&mut pool);
    assert_eq!(pool.available(), 0);
    pool.checkin(g);
    assert_eq!(pool.available(), 1, "drop returns worker");
    let _g2 = checkout(&mut pool);
    assert_eq!(pool.current_size(), 1, "no growth on reuse");
}

#[test]
fn checkout_blocks_when_at_cap_unblocks_on_checkin() {
    let mut pool = build_pool(1);
    let g1 = checkout(&mut pool);
    assert_eq!(pool.available(), 0);
    assert!(matches!(pool.checkout(), Checkout::Wait));
    pool.checkin(g1);
    assert!(matches!(pool.checkout(), Checkout::Ready(_)));
    assert_eq!(pool.current_size(), 1);
}

#[test]
fn try_checkout_at_cap_returns_none() {
    let mut pool = build_pool(1);
    let _g = checkout(&mut pool);
    match pool.try_checkout() {
        None => {}
        Some(_) => panic!("try_checkout should be None at cap"),
    }
}

#[test]
fn concurrent_growth_to_cap() {
    let mut pool = build_pool(2);
    // Both checkouts are answered before either worker exists.
    let a = pool.checkout();
    let b = pool.checkout();
    assert!(matches!(a, Checkout::Ready(_)));
    assert!(matches!(b, Checkout::Spawn));
    if let Checkout::Ready(w) = a {
        pool.checkin(w);
    }
    pool.checkin(worker(1, 16));
    assert!(pool.current_size() <= 2);
    assert_eq!(pool.available(), pool.current_size());
}

#[test]
fn failed_spawn_releases_its_place() {
    let mut pool = build_pool(2);
    let _g = checkout(&mut pool);
    assert!(matches!(pool.try_checkout(), Some(Checkout::Spawn)));
    assert_eq!(pool.current_size(), 2);
    assert!(pool.try_checkout().is_none());
    pool.spawn_failed();
    assert_eq!(pool.current_size(), 1);
    assert!(matches!(pool.try_checkout(), Some(Checkout::Spawn)));
}

#[test]
fn a_pool_needs_its_first_worker() {
    let plan = PoolPlan { tapes: vec![], arena_layout: vec![] };
    let first: Result<PooledWorker<u32>, WorkerError> =
        Err(WorkerError { message: "no memory".to_string() });
    let err = MetalWorkerPool::new(plan, first, 1).err().expect("fails");
    assert_eq!(err.message, "no memory");
    let built: PoolBuildError = err.into();
    assert_eq!(built.message(), "MetalWorkerPool::for_buckets: no memory");
}

#[test]
fn signals_never_repeat() {
    let mut pool = build_pool(1);
    assert_eq!(pool.next_signal(), 1);
    assert_eq!(pool.next_signal(), 2);
}

#[test]
fn residency_is_attached_once() {
    let mut pool = build_pool(1);
    assert!(pool.attach_residency_once());
    assert!(!pool.attach_residency_once());
}

#[test]
fn pick_bucket_returns_smallest_fit() {
    let pool = build_multi_bucket_pool(&[1, 8, 32], 1);
    assert_eq!(pool.pick_bucket(1).unwrap(), 0);
    assert_eq!(pool.pick_bucket(2).unwrap(), 1);
    assert_eq!(pool.pick_bucket(8).unwrap(), 1);
    assert_eq!(pool.pick_bucket(9).unwrap(), 2);
    assert_eq!(pool.pick_bucket(32).unwrap(), 2);
}

#[test]
fn pick_bucket_zero_tokens_errors() {
    let pool = build_multi_bucket_pool(&[1, 8], 1);
    assert!(matches!(pool.pick_bucket(0), Err(ForwardError::ZeroTokens)));
}

#[test]
fn pick_bucket_overflow_errors() {
    let pool = build_multi_bucket_pool(&[1, 8], 1);
    match pool.pick_bucket(9) {
        Err(ForwardError::NoBucketFits { num_tokens: 9, max_bucket: 8 }) => {}
        other => panic!("expected NoBucketFits {{ 9, 8 }}, got {other:?}"),
    }
}

#[test]
fn pick_bucket_handles_unsorted_tape_order() {
    let pool = build_multi_bucket_pool(&[32, 1, 8], 1);
    assert_eq!(pool.pick_bucket(1).unwrap(), 1, "smallest bucket at index 1");
    assert_eq!(pool.pick_bucket(8).unwrap(), 2, "8 fits index 2 (bucket_m=8)");
    assert_eq!(pool.pick_bucket(9).unwrap(), 0, "9 only fits the 32 bucket");
}

#[test]
fn pick_bucket_skips_unsafe_sizes_and_keeps_the_first() {
    let pool = build_multi_bucket_pool(&[2, 4, 16, 8, 8], 1);
    assert_eq!(pool.pick_bucket(2).unwrap(), 3);
    assert_eq!(pool.pick_bucket(1).unwrap(), 3);
    let pair = build_multi_bucket_pool(&[4, 8], 1);
    assert_eq!(pair.pick_bucket(1).unwrap(), 1);
    let small = build_multi_bucket_pool(&[2, 4], 1);
    match small.pick_bucket(1) {
        Err(ForwardError::NoBucketFits { num_tokens: 1, max_bucket: 4 }) => {}
        other => panic!("expected NoBucketFits {{ 1, 4 }}, got {other:?}"),
    }
    match small.pick_bucket(3) {
        Err(ForwardError::NoBucketFits { num_tokens: 3, max_bucket: 4 }) => {}
        other => panic!("expected NoBucketFits {{ 3, 4 }}, got {other:?}"),
    }
    let none = build_multi_bucket_pool(&[], 1);
    match none.pick_bucket(3) {
        Err(ForwardError::NoBucketFits { num_tokens: 3, max_bucket: 0 }) => {}
        other => panic!("expected NoBucketFits {{ 3, 0 }}, got {other:?}"),
    }
}

fn inputs<'a>(num_tokens: u32, input_ids: &'a [u32], positions: &'a [u32]) -> ForwardInputs<'a> {
    ForwardInputs {
        num_tokens,
        input_ids,
        positions,
        slot_mapping: None,
        cu_seqlens_q: None,
        seq_used_k: None,
        block_table: None,
        last_token_indices: None,
        has_spec_tokens: false,
    }
}

fn kind() -> SubmissionKind {
    SubmissionKind::Bucket { tail: false, timing: false }
}

/// What a device that never fails does.
fn device(submission: &Submission, pool: &mut MetalWorkerPool<u32>) -> Happened {
    match submission {
        Submission::EncodeBucket { .. } => Happened::Encoded(Ok(())),
        Submission::EncodeHook { .. } => Happened::Hooked(Ok(())),
        Submission::End { .. } => Happened::Ended { signal: pool.next_signal() },
        Submission::Wait { .. } => Happened::Waited(true),
        _ => Happened::Done,
    }
}

/// Runs a step and lists its actions.
fn drive<R>(
    pool: &mut MetalWorkerPool<u32>,
    kind: SubmissionKind,
    step: &ForwardInputs<'_>,
    spawned: Result<u32, WorkerError>,
    with_output: impl FnOnce(&u32, usize) -> R,
) -> (Result<Option<R>, ForwardError>, Vec<String>) {
    let mut spawned = Some(spawned);
    let mut with_output = Some(with_output);
    let mut start = None;
    let mut on_loan: Option<PooledWorker<u32>> = None;
    let mut output = None;
    let mut seen = vec![];
    let mut action = StepAction::start(kind);
    loop {
        let name = format!("{:?}", action);
        let end = name.find(|c: char| !c.is_alphanumeric()).unwrap_or(name.len());
        seen.push(match &action {
            StepAction::Submit(s) => format!("{:?}", s),
            _ => name[..end].to_string(),
        });
        let event = match &action {
            StepAction::Admit => {
                let admitted = pool.begin_forward(step);
                start = admitted.as_ref().ok().copied();
                StepEvent::Admitted(admitted)
            }
            StepAction::MarkResidency => {
                StepEvent::Marked { first: pool.attach_residency_once() }
            }
            StepAction::CheckOut => StepEvent::CheckedOut(match pool.checkout() {
                Checkout::Ready(w) => {
                    on_loan = Some(w);
                    Ok(())
                }
                Checkout::Spawn => match spawned.take().expect("one worker is created") {
                    Ok(id) => {
                        on_loan = Some(worker(id, 16));
                        Ok(())
                    }
                    Err(e) => {
                        pool.spawn_failed();
                        Err(e)
                    }
                },
                Checkout::Wait => panic!("checkout would block"),
            }),
            StepAction::Stage => {
                let w = on_loan.as_mut().expect("a worker is on loan");
                StepEvent::Staged(write_runtime_inputs(&mut w.runtime, step))
            }
            StepAction::Submit(s) => StepEvent::Device(device(s, pool)),
            StepAction::HandOut => {
                let w = on_loan.as_ref().expect("a worker is on loan");
                let f = with_output.take().expect("handed out once");
                output = Some(f(&w.worker, start.expect("the step was admitted").bucket_idx));
                StepEvent::Done
            }
            StepAction::CheckIn(_) => {
                pool.checkin(on_loan.take().expect("a worker is on loan"));
                StepEvent::Done
            }
            StepAction::Finished(_) => break,
            _ => StepEvent::Done,
        };
        action = action.next(kind, event);
    }
    match action {
        StepAction::Finished(Ok(())) => (Ok(output), seen),
        StepAction::Finished(Err(e)) => (Err(e), seen),
        _ => unreachable!(),
    }
}

fn no_spawn() -> Result<u32, WorkerError> {
    Err(WorkerError { message: "no memory".to_string() })
}

fn forward<R>(
    pool: &mut MetalWorkerPool<u32>,
    step: &ForwardInputs<'_>,
    with_output: impl FnOnce(&u32, usize) -> R,
) -> Result<R, ForwardError> {
    drive(pool, kind(), step, no_spawn(), with_output).0.map(|r| r.expect("handed out"))
}

#[test]
fn forward_runs_one_decode_step() {
    let mut pool = build_multi_bucket_pool(&[1], 1);
    let step = inputs(1, &[0u32], &[0u32]);
    assert_eq!(pool.bucket_tapes().len(), 1);
    let saw = forward(&mut pool, &step, |worker, bucket_idx| {
        assert_eq!(*worker, 0);
        assert_eq!(bucket_idx, 0);
        42u32
    })
    .expect("forward succeeds");
    assert_eq!(saw, 42);
    assert_eq!(pool.available(), 1, "worker returned to pool after forward");
    assert_eq!(pool.last_signal(), 1);
    match pool.checkout() {
        Checkout::Ready(w) => assert_eq!(w.runtime.num_tokens_u32, vec![1, 0, 0, 0]),
        other => panic!("expected an idle worker, got {other:?}"),
    }
}

#[test]
fn forward_rejects_zero_tokens() {
    let mut pool = build_multi_bucket_pool(&[1], 1);
    let err = forward(&mut pool, &inputs(0, &[], &[]), |_, _| ())
        .expect_err("zero-token forward rejected");
    assert!(matches!(err, ForwardError::ZeroTokens));
    assert_eq!(pool.available(), 1);
}

#[test]
fn forward_rejects_oversized_token_count() {
    let mut pool = build_multi_bucket_pool(&[1, 8], 1);
    let big = vec![0u32; 9];
    match forward(&mut pool, &inputs(9, &big, &big), |_, _| ()) {
        Err(ForwardError::NoBucketFits { num_tokens: 9, max_bucket: 8 }) => {}
        other => panic!("expected NoBucketFits {{ 9, 8 }}, got {other:?}"),
    }
    assert_eq!(pool.available(), 1, "no checkout on bucket failure");
}

#[test]
fn forward_rejects_oversized_input_slice() {
    let mut pool = build_pool(1);
    let too_big = [0u32, 0u32, 0u32, 0u32, 0u32];
    let step = inputs(1, &too_big, &[0u32]);
    let err = forward(&mut pool, &step, |_, _| ()).expect_err("oversized slice rejected");
    match err {
        ForwardError::BufferTooSmall {
            kind: "input_ids",
            bytes_needed: 20,
            bytes_available: 16,
        } => {}
        other => panic!("expected BufferTooSmall on input_ids, got {other:?}"),
    }
    assert_eq!(pool.available(), 1, "worker returned to pool after validation failure");
    assert_eq!(pool.last_signal(), 0, "nothing was submitted");
}

#[test]
fn steps_run_in_order() {
    let mut pool = build_pool(1);
    let step = inputs(1, &[0u32], &[0u32]);
    let (r, seen) = drive(&mut pool, kind(), &step, no_spawn(), |_, _| ());
    assert!(r.is_ok());
    assert_eq!(
        seen,
        vec![
            "Admit",
            "AttachResidency",
            "CheckOut",
            "Stage",
            "EnsureQueue",
            "Open { timed: false }",
            "EncodeBucket { timed: false }",
            "End { timed: false, failure: None }",
            "Commit { timed: false, signal: 1 }",
            "Wait { timed: false, signal: 1, timeout_ms: 60000 }",
            "Reset { timed: false }",
            "HandOut",
            "CheckIn",
            "Finished",
        ]
    );
    let (_, seen) = drive(&mut pool, kind(), &step, no_spawn(), |_, _| ());
    assert_eq!(seen[..2], ["Admit", "CheckOut"]);
}

#[test]
fn chains_make_sure_of_their_queue_first() {
    let mut pool = build_pool(1);
    let step = inputs(0, &[0u32], &[0u32]);
    let (r, seen) = drive(&mut pool, SubmissionKind::Chain, &step, no_spawn(), |_, _| ());
    assert!(matches!(r, Ok(None)));
    assert_eq!(
        seen[..7],
        [
            "EnsureQueue",
            "MarkResidency",
            "AttachResidency",
            "CheckOut",
            "Stage",
            "Open { timed: false }",
            "EncodeHook { timed: false }",
        ]
    );
    assert_eq!(seen[seen.len() - 3..], ["Reset { timed: false }", "CheckIn", "Finished"]);
    assert_eq!(pool.available(), 1);
}

#[test]
fn refused_steps_reach_no_device() {
    let mut pool = build_pool(2);
    let step = inputs(1, &[0; 5], &[0u32]);
    let (_, seen) = drive(&mut pool, kind(), &step, no_spawn(), |_, _| ());
    assert_eq!(seen[2..], ["CheckOut", "Stage", "CheckIn", "Finished"]);
    let (_, seen) = drive(&mut pool, SubmissionKind::Chain, &step, no_spawn(), |_, _| ());
    assert_eq!(seen[1..], ["MarkResidency", "CheckOut", "Stage", "CheckIn", "Finished"]);
    assert_eq!(pool.available(), 1);

    let busy = checkout(&mut pool);
    let (r, seen) = drive(&mut pool, kind(), &inputs(1, &[], &[]), no_spawn(), |_, _| ());
    assert!(matches!(r, Err(ForwardError::Worker(_))));
    assert_eq!(seen, ["Admit", "CheckOut", "Finished"]);
    assert_eq!((pool.current_size(), pool.available()), (1, 0));
    pool.checkin(busy);
}

#[test]
fn failed_submissions_give_the_worker_back() {
    let event = |h: Happened| StepEvent::Device(h);
    let submitting = StepAction::Submit(Submission::Wait {
        timed: false,
        signal: 1,
        timeout_ms: 60000,
    });
    let action = submitting.next(kind(), event(Happened::Waited(false)));
    assert!(matches!(action, StepAction::CheckIn(Err(ForwardError::ExecutionFailed(_)))));
    let submitting = StepAction::Submit(Submission::EncodeBucket { timed: false });
    let lost = WorkerError { message: "lost".to_string() };
    let action = submitting.next(kind(), event(Happened::Encoded(Err(lost))));
    assert!(matches!(action, StepAction::CheckIn(Err(ForwardError::Worker(_)))));
    let action = action.next(kind(), StepEvent::Done);
    assert!(matches!(action, StepAction::Finished(Err(ForwardError::Worker(_)))));
}

#[test]
fn sequences_are_counted_from_their_boundaries() {
    let mut step = inputs(1, &[], &[]);
    assert_eq!(step.num_seqs(), 1);
    step.cu_seqlens_q = Some(&[]);
    assert_eq!(step.num_seqs(), 1);
    step.cu_seqlens_q = Some(&[0]);
    assert_eq!(step.num_seqs(), 1);
    step.cu_seqlens_q = Some(&[0, 4]);
    assert_eq!(step.num_seqs(), 1);
    step.cu_seqlens_q = Some(&[0, 4, 9, 10]);
    assert_eq!(step.num_seqs(), 3);
}

const EMPTY: &[Instruction] = &[];
const TEST_ARENA_BYTES: &[u64] = &[4096, 4096];

fn params() -> CanonicalParams {
    CanonicalParams {
        head_dim: 64,
        num_q_heads: 32,
        num_kv_heads: 4,
        rot_dim: 64,
        block_size: 16,
        max_blocks_per_seq: 128,
        blocks_per_chunk: 64,
        q_size: 2048,
        intermediate_size: 5632,
        attn_scale_bits: 0.125f32.to_bits(),
        rms_norm_eps_bits: 1e-5f32.to_bits(),
        norm_weight_offset_bits: 0,
        metal_dtype: MetalDtype::F16,
    }
}

fn spec(bucket_m: u32, slots: u32, arena_bytes: &'static [u64]) -> MetalBucketSpec {
    MetalBucketSpec {
        bucket_m,
        backbone_tape_index: 0,
        lm_head_tape_index: 1,
        num_arena_slots: slots,
        terminal_slot: 1,
        arena_bytes,
        backbone: EMPTY,
        lm_head: EMPTY,
        backbone_barriers: &[],
        lm_head_barriers: &[],
    }
}

fn no_choices(n: usize) -> Vec<BucketChoices> {
    (0..n)
        .map(|_| BucketChoices { backbone: vec![], lm_head: vec![], slice: None })
        .collect()
}

#[test]
fn for_buckets_rejects_empty_specs() {
    match for_buckets(params(), false, &[], &[], Ok(())) {
        Err(PoolBuildError::NoBuckets) => {}
        other => panic!("expected NoBuckets, got {other:?}"),
    }
    match for_buckets(params(), false, &[], &[], Err("broken".to_string())) {
        Err(PoolBuildError::NoBuckets) => {}
        other => panic!("expected NoBuckets, got {other:?}"),
    }
}

#[test]
fn for_buckets_builds_pool_for_single_empty_bucket() {
    let specs = [spec(1, 2, TEST_ARENA_BYTES)];
    let plan = for_buckets(params(), false, &specs, &no_choices(1), Ok(())).expect("plan");
    assert_eq!(plan.arena_layout, vec![4096, 4096]);
    assert_eq!(plan.tapes.len(), 1);
    assert_eq!(plan.tapes[0].commands.len(), 0);
    assert_eq!(plan.tapes[0].num_arena_slots, 2);
    let pool = MetalWorkerPool::new(plan, Ok(worker(0, 16)), 2).expect("pool");
    assert_eq!(pool.max_workers(), 2);
    assert_eq!(pool.current_size(), 1, "first worker eagerly created");
    assert_eq!(pool.available(), 1);
    assert_eq!(*pool.arena_layout(), vec![4096, 4096]);
}

#[test]
fn for_buckets_preserves_bucket_order() {
    let specs = [spec(1, 2, TEST_ARENA_BYTES), spec(8, 2, TEST_ARENA_BYTES)];
    let plan = for_buckets(params(), false, &specs, &no_choices(2), Ok(())).expect("plan");
    let pool = MetalWorkerPool::new(plan, Ok(worker(0, 16)), 1).expect("pool");
    assert_eq!(pool.pick_bucket(1).unwrap(), 0);
    assert_eq!(pool.pick_bucket(8).unwrap(), 1);
    assert!(matches!(pool.pick_bucket(9), Err(ForwardError::NoBucketFits { .. })));
}

#[test]
fn arenas_take_the_largest_use_of_each_slot() {
    let specs = [spec(1, 2, &[10, 40]), spec(8, 4, &[30, 20, 5]), spec(32, 1, &[])];
    assert_eq!(arena_layout(&specs), vec![30, 40, 5, 0]);
    assert_eq!(arena_layout(&[]), Vec::<u64>::new());
}

#[test]
fn lowering_failures_name_their_bucket() {
    let mut bad = spec(8, 2, TEST_ARENA_BYTES);
    bad.backbone = &[Instruction::Other("Mystery")];
    let specs = [spec(1, 2, TEST_ARENA_BYTES), bad];
    let err = lower_buckets(params(), false, &specs, &no_choices(2)).err().expect("fails");
    match &err {
        PoolBuildError::BucketLower { bucket_m: 8, error } => {
            assert!(error.starts_with("lowering: unsupported instruction variant `Mystery`"));
        }
        other => panic!("expected BucketLower, got {other:?}"),
    }
    assert!(err
        .message()
        .starts_with("MetalWorkerPool::for_buckets: lowering bucket M=8 failed: lowering: "));
    match for_buckets(params(), false, &specs, &no_choices(2), Err("shader".to_string())) {
        Err(e) => assert_eq!(
            e.message(),
            "MetalWorkerPool::for_buckets: pipeline cache build failed: shader"
        ),
        Ok(_) => panic!("expected a failure"),
    }
    assert_eq!(
        PoolBuildError::NoBuckets.message(),
        "MetalWorkerPool::for_buckets: bucket_specs is empty"
    );
}

#[test]
fn bucket_checks_stop_at_the_first_failure() {
    let contiguous: &[Instruction] = &[Instruction::AttentionPrefillContiguous(0, 0, 0, 0, false)];
    let mut failing = spec(8, 2, TEST_ARENA_BYTES);
    failing.backbone = &[Instruction::Other("Mystery")];
    failing.lm_head = contiguous;
    let mut undefined = spec(8, 2, TEST_ARENA_BYTES);
    undefined.lm_head = contiguous;
    let check = |specs: &[MetalBucketSpec]| {
        check_buckets(params(), false, specs, &no_choices(specs.len()))
    };
    assert!(check(&[]));
    assert!(check(&[spec(1, 2, TEST_ARENA_BYTES), failing, undefined]));
    assert!(!check(&[spec(1, 2, TEST_ARENA_BYTES), undefined, failing]));
    assert!(!check_buckets(params(), false, &[failing], &[]));
}

// ---- Runtime buffers ----

#[test]
fn slices_are_padded_with_zeros() {
    let mut buffer = vec![0xAA; 12];
    write_slice("positions", &mut buffer, &[1, 0x01020304]).expect("fits");
    assert_eq!(buffer, vec![1, 0, 0, 0, 4, 3, 2, 1, 0, 0, 0, 0]);
    write_slice("positions", &mut buffer, &[]).expect("fits");
    assert_eq!(buffer, vec![0; 12]);
}

#[test]
fn slot_mappings_are_padded_with_the_sentinel() {
    let mut buffer = vec![0xAA; 10];
    write_slot_mapping(&mut buffer, &[7]).expect("fits");
    assert_eq!(buffer, vec![7, 0, 0, 0, 255, 255, 255, 255, 255, 255]);
    let err = write_slot_mapping(&mut buffer, &[7, 8, 9]).err().expect("too large");
    match err {
        ForwardError::BufferTooSmall {
            kind: "slot_mapping",
            bytes_needed: 12,
            bytes_available: 10,
        } => {}
        other => panic!("unexpected {other:?}"),
    }
    assert_eq!(buffer, vec![7, 0, 0, 0, 255, 255, 255, 255, 255, 255]);
}

#[test]
fn steps_fill_every_buffer() {
    let mut r = runtime(8);
    let mut step = inputs(2, &[5, 6], &[1]);
    step.slot_mapping = Some(&[3]);
    step.cu_seqlens_q = Some(&[0, 2]);
    step.block_table = Some(&[9]);
    step.last_token_indices = Some(&[1]);
    write_runtime_inputs(&mut r, &step).expect("fits");
    assert_eq!(r.input_ids, vec![5, 0, 0, 0, 6, 0, 0, 0]);
    assert_eq!(r.positions, vec![1, 0, 0, 0, 0, 0, 0, 0]);
    assert_eq!(r.slot_mapping, vec![3, 0, 0, 0, 255, 255, 255, 255]);
    assert_eq!(r.cu_seqlens_q[..8], [0, 0, 0, 0, 2, 0, 0, 0]);
    assert_eq!(r.seq_used_k, vec![0xAA; 16], "not given, not touched");
    assert_eq!(r.block_table[..8], [9, 0, 0, 0, 0, 0, 0, 0]);
    assert_eq!(r.num_tokens_u32, vec![2, 0, 0, 0]);
    assert_eq!(r.num_sample_rows_u32, vec![1, 0, 0, 0]);
    assert_eq!(r.sample_indices, vec![1, 0, 0, 0, 0, 0, 0, 0]);
    step.last_token_indices = None;
    write_runtime_inputs(&mut r, &step).expect("fits");
    assert_eq!(r.num_sample_rows_u32, vec![0, 0, 0, 0]);
    assert_eq!(r.sample_indices, vec![1, 0, 0, 0, 0, 0, 0, 0]);
}

#[test]
fn refused_steps_touch_nothing() {
    let big = [0u32; 5];
    let cases: Vec<(&str, fn(&mut ForwardInputs<'static>))> = vec![
        ("positions", |s| s.positions = &[0; 5]),
        ("slot_mapping", |s| s.slot_mapping = Some(&[0; 5])),
        ("cu_seqlens_q", |s| s.cu_seqlens_q = Some(&[0; 5])),
        ("seq_used_k", |s| s.seq_used_k = Some(&[0; 5])),
        ("block_table", |s| s.block_table = Some(&[0; 5])),
        ("last_token_indices", |s| s.last_token_indices = Some(&[0; 5])),
    ];
    assert_eq!(big.len(), 5);
    for (name, spoil) in cases {
        let mut r = runtime(16);
        let mut step = inputs(1, &[1], &[1]);
        spoil(&mut step);
        match write_runtime_inputs(&mut r, &step) {
            Err(ForwardError::BufferTooSmall { kind, bytes_needed: 20, bytes_available: 16 }) => {
                assert_eq!(kind, name)
            }
            other => panic!("expected BufferTooSmall, got {other:?}"),
        }
        assert_eq!(r.input_ids, vec![0xAA; 16], "{}", name);
        assert_eq!(r.positions, vec![0xAA; 16], "{}", name);
        assert_eq!(r.num_tokens_u32, vec![0xAA; 4], "{}", name);
    }
}

#[test]
fn forward_errors_have_texts() {
    assert_eq!(ForwardError::ZeroTokens.message(), "MetalWorkerPool::forward: num_tokens == 0");
    assert_eq!(
        ForwardError::NoBucketFits { num_tokens: 90, max_bucket: 8 }.message(),
        "MetalWorkerPool::forward: no bucket fits num_tokens=90 (max bucket_m = 8)"
    );
    assert_eq!(
        ForwardError::BufferTooSmall { kind: "positions", bytes_needed: 20, bytes_available: 16 }
            .message(),
        "MetalWorkerPool::forward: runtime buffer `positions` too small (needs 20 bytes, have 16)"
    );
    let e: ForwardError = WorkerError { message: "lost".to_string() }.into();
    assert_eq!(e.message(), "MetalWorkerPool::forward: lost");
    assert_eq!(
        ForwardError::ExecutionFailed(CommandBufferStatus::error()).message(),
        "MetalWorkerPool::forward: command buffer status = MTLCommandBufferStatus(5) (expected \
         Completed)"
    );
    assert_eq!(
        ForwardError::Followup("argmax".to_string()).message(),
        "MetalWorkerPool::forward: followup hook failed: argmax"
    );
}
