//! Buckets: which one serves a step, how large the shared arena is, and the
//! lowering of all of them.
use crate::forward::{ForwardError, WorkerError};
use crate::instruction::{CanonicalParams, Instruction, KernelChoice, QmvChoice};
use crate::lowered::{LoweredMetalTape, LoweringError, TapeView};
use crate::lowering::{lower_pair, tape_view, PairInputs, TapeSite};
use crate::text::{decimal, push_decimal};
use vstd::prelude::*;
use vstd::std_specs::convert::FromSpecImpl;
use vstd::string::StringExecFns;

verus! {

/// Compile-time data of one bucket.
#[derive(Clone, Copy, Debug)]
pub struct MetalBucketSpec {
    pub bucket_m: u32,
    /// Tape that the backbone's weight locators refer to.
    pub backbone_tape_index: u32,
    /// Tape that the head's weight locators refer to.
    pub lm_head_tape_index: u32,
    pub num_arena_slots: u32,
    /// Slot in which the bucket's last activation lands.
    pub terminal_slot: u32,
    /// Bytes per arena slot.
    pub arena_bytes: &'static [u64],
    pub backbone: &'static [Instruction],
    pub lm_head: &'static [Instruction],
    /// Barrier flag per backbone instruction.
    pub backbone_barriers: &'static [bool],
    /// Barrier flag per head instruction.
    pub lm_head_barriers: &'static [bool],
}

/// Kernel choices for one bucket.
#[derive(Debug)]
pub struct BucketChoices {
    pub backbone: Vec<Option<KernelChoice>>,
    pub lm_head: Vec<Option<KernelChoice>>,
    /// Kernel of the sliced head, where the slice is on.
    pub slice: Option<QmvChoice>,
}

/// Why a pool could not be built.
#[derive(Debug)]
pub enum PoolBuildError {
    /// The shader libraries could not be loaded.
    PipelineCacheBuild(String),
    /// The bucket of `bucket_m` tokens could not be lowered.
    BucketLower { bucket_m: u32, error: String },
    /// The first worker could not be created.
    Worker(WorkerError),
    /// No bucket was given.
    NoBuckets,
}

impl From<WorkerError> for PoolBuildError {
    fn from(e: WorkerError) -> (r: Self) {
        PoolBuildError::Worker(e)
    }
}

impl FromSpecImpl<WorkerError> for PoolBuildError {
    open spec fn obeys_from_spec() -> bool {
        true
    }

    open spec fn from_spec(e: WorkerError) -> Self {
        PoolBuildError::Worker(e)
    }
}

impl PoolBuildError {
    /// The text of the error.
    pub open spec fn text(&self) -> Seq<char> {
        match self {
            PoolBuildError::PipelineCacheBuild(s) => {
                "MetalWorkerPool::for_buckets: pipeline cache build failed: "@ + s@
            },
            PoolBuildError::BucketLower { bucket_m, error } => {
                "MetalWorkerPool::for_buckets: lowering bucket M="@ + decimal(*bucket_m as nat)
                    + " failed: "@ + error@
            },
            PoolBuildError::Worker(e) => "MetalWorkerPool::for_buckets: "@ + e.message@,
            PoolBuildError::NoBuckets => {
                "MetalWorkerPool::for_buckets: bucket_specs is empty"@
            },
        }
    }

    /// Returns the text of the error.
    pub fn message(&self) -> (s: String)
        ensures
            s@ == self.text(),
    {
        match self {
            PoolBuildError::PipelineCacheBuild(e) => {
                let mut s = String::from_str(
                    "MetalWorkerPool::for_buckets: pipeline cache build failed: ",
                );
                s.append(e.as_str());
                s
            },
            PoolBuildError::BucketLower { bucket_m, error } => {
                let mut s = String::from_str("MetalWorkerPool::for_buckets: lowering bucket M=");
                push_decimal(&mut s, *bucket_m as u64);
                s.append(" failed: ");
                s.append(error.as_str());
                s
            },
            PoolBuildError::Worker(e) => {
                let mut s = String::from_str("MetalWorkerPool::for_buckets: ");
                s.append(e.message.as_str());
                s
            },
            PoolBuildError::NoBuckets => String::from_str(
                "MetalWorkerPool::for_buckets: bucket_specs is empty",
            ),
        }
    }
}

// ---- Which bucket serves a step ----

/// Buckets of more than one token but fewer than this are never chosen: tiled
/// kernels may write past their arena slots.
pub const SAFE_MULTI_ROW_BUCKET_M: u32 = 8;

/// The least bucket size that may serve `num_tokens` tokens.
pub open spec fn effective_min(num_tokens: u32) -> u32 {
    if num_tokens <= 1 || num_tokens >= SAFE_MULTI_ROW_BUCKET_M {
        num_tokens
    } else {
        SAFE_MULTI_ROW_BUCKET_M
    }
}

/// A bucket of `bucket_m` tokens may serve a step of `num_tokens`: it is large
/// enough, and of a safe size.
pub open spec fn may_serve(bucket_m: u32, num_tokens: u32) -> bool {
    bucket_m >= effective_min(num_tokens) && (bucket_m == 1 || bucket_m
        >= SAFE_MULTI_ROW_BUCKET_M)
}

/// Bucket `i` is the one for `num_tokens` tokens: it may serve them, no
/// smaller bucket may, and among equals it comes first.
pub open spec fn is_best_bucket(tapes: Seq<TapeView>, num_tokens: u32, i: int) -> bool {
    &&& 0 <= i < tapes.len()
    &&& may_serve(tapes[i].bucket_m, num_tokens)
    &&& forall|j: int|
        0 <= j < tapes.len() && may_serve((#[trigger] tapes[j]).bucket_m, num_tokens)
            ==> tapes[i].bucket_m < tapes[j].bucket_m || (tapes[i].bucket_m == tapes[j].bucket_m
            && i <= j)
}

/// `m` is the largest bucket size, or 0 if there is no bucket.
pub open spec fn is_max_bucket(tapes: Seq<TapeView>, m: u32) -> bool {
    &&& forall|j: int| 0 <= j < tapes.len() ==> (#[trigger] tapes[j]).bucket_m <= m
    &&& m == 0 || exists|j: int| 0 <= j < tapes.len() && (#[trigger] tapes[j]).bucket_m == m
}

/// The tapes by their views.
pub open spec fn tape_views(tapes: Seq<LoweredMetalTape>) -> Seq<TapeView> {
    tapes.map_values(|t: LoweredMetalTape| t@)
}

/// Picks the bucket for `num_tokens` tokens: the smallest that may serve them.
/// The buckets may come in any order.
pub fn pick_bucket(tapes: &[LoweredMetalTape], num_tokens: u32) -> (r: Result<
    usize,
    ForwardError,
>)
    ensures
        r matches Ok(i) ==> num_tokens > 0 && is_best_bucket(
            tape_views(tapes@),
            num_tokens,
            i as int,
        ),
        r is Ok <==> num_tokens > 0 && exists|j: int|
            0 <= j < tapes@.len() && may_serve((#[trigger] tapes@[j]).bucket_m, num_tokens),
        r matches Err(e) ==> match e {
            ForwardError::ZeroTokens => num_tokens == 0,
            ForwardError::NoBucketFits { num_tokens: n, max_bucket } => num_tokens > 0 && n
                == num_tokens && is_max_bucket(tape_views(tapes@), max_bucket),
            _ => false,
        },
{
    if num_tokens == 0 {
        return Err(ForwardError::ZeroTokens);
    }
    let least: u32 = if num_tokens == 1 || num_tokens >= SAFE_MULTI_ROW_BUCKET_M {
        num_tokens
    } else {
        SAFE_MULTI_ROW_BUCKET_M
    };
    let ghost views = tape_views(tapes@);
    let mut best: Option<usize> = None;
    let mut max_bucket: u32 = 0;
    let mut i: usize = 0;
    while i < tapes.len()
        invariant
            i <= tapes@.len(),
            views == tape_views(tapes@),
            least == effective_min(num_tokens),
            is_max_bucket(views.take(i as int), max_bucket),
            match best {
                Some(b) => is_best_bucket(views.take(i as int), num_tokens, b as int),
                None => forall|j: int|
                    0 <= j < i ==> !may_serve((#[trigger] tapes@[j]).bucket_m, num_tokens),
            },
        decreases tapes@.len() - i,
    {
        let bucket_m: u32 = tapes[i].bucket_m;
        let ghost front = views.take(i as int);
        let ghost longer = views.take(i + 1);
        assert(longer =~= front.push(views[i as int]));
        assert(longer[i as int].bucket_m == bucket_m);
        proof {
            let m = if bucket_m > max_bucket {
                bucket_m
            } else {
                max_bucket
            };
            assert forall|j: int| 0 <= j < longer.len() implies (
            #[trigger] longer[j]).bucket_m <= m by {
                if j < i {
                    assert(longer[j] == front[j]);
                }
            }
            if m != 0 && m == max_bucket {
                let j = choose|j: int|
                    0 <= j < front.len() && (#[trigger] front[j]).bucket_m == max_bucket;
                assert(longer[j] == front[j]);
            }
        }
        if bucket_m > max_bucket {
            max_bucket = bucket_m;
        }
        if bucket_m >= least && (bucket_m == 1 || bucket_m >= SAFE_MULTI_ROW_BUCKET_M) {
            let better: bool = match best {
                Some(b) => tapes[b].bucket_m > bucket_m,
                None => true,
            };
            proof {
                if let Some(b) = best {
                    assert(front[b as int] == views[b as int]);
                    assert(longer[b as int] == front[b as int]);
                }
                assert forall|j: int| 0 <= j < longer.len() implies longer[j] == (
                if j < i {
                    front[j]
                } else {
                    views[i as int]
                }) by {}
                assert(forall|j: int| 0 <= j < i ==> tapes@[j].bucket_m == front[j].bucket_m);
            }
            if better {
                best = Some(i);
            }
        } else {
            proof {
                assert forall|j: int|
                    0 <= j < longer.len() && may_serve(
                        (#[trigger] longer[j]).bucket_m,
                        num_tokens,
                    ) implies longer[j] == front[j] && j < i by {}
                if let Some(b) = best {
                    assert(longer[b as int] == front[b as int]);
                }
            }
        }
        i += 1;
    }
    assert(views.take(i as int) =~= views);
    match best {
        Some(b) => {
            assert(tapes@[b as int].bucket_m == views[b as int].bucket_m);
            Ok(b)
        },
        None => Err(ForwardError::NoBucketFits { num_tokens, max_bucket }),
    }
}

// ---- The shared arena ----

/// `n` is the largest number of arena slots of any bucket, or 0 if there is no
/// bucket.
pub open spec fn is_slot_count(specs: Seq<MetalBucketSpec>, n: int) -> bool {
    &&& forall|i: int| 0 <= i < specs.len() ==> (#[trigger] specs[i]).num_arena_slots <= n
    &&& n == 0 || exists|i: int|
        0 <= i < specs.len() && (#[trigger] specs[i]).num_arena_slots == n
}

/// `bytes` is the largest size that any bucket gives to `slot`, or 0 if none
/// does.
pub open spec fn is_slot_size(specs: Seq<MetalBucketSpec>, slot: int, bytes: u64) -> bool {
    &&& forall|i: int|
        0 <= i < specs.len() && slot < (#[trigger] specs[i]).arena_bytes@.len()
            ==> specs[i].arena_bytes@[slot] <= bytes
    &&& bytes == 0 || exists|i: int|
        0 <= i < specs.len() && slot < (#[trigger] specs[i]).arena_bytes@.len()
            && specs[i].arena_bytes@[slot] == bytes
}

/// An arena that serves every bucket and is no larger than that takes.
pub open spec fn is_arena_layout(specs: Seq<MetalBucketSpec>, layout: Seq<u64>) -> bool {
    &&& is_slot_count(specs, layout.len() as int)
    &&& forall|slot: int|
        0 <= slot < layout.len() ==> is_slot_size(specs, slot, #[trigger] layout[slot])
}

/// No bucket sizes a slot beyond the largest slot count.
pub open spec fn arena_sizes_in_range(specs: Seq<MetalBucketSpec>) -> bool {
    forall|n: int|
        is_slot_count(specs, n) ==> forall|i: int|
            0 <= i < specs.len() ==> (#[trigger] specs[i]).arena_bytes@.len() <= n
}

/// Sizes the arena that every bucket shares: as many slots as the largest
/// bucket has, each as large as its largest use.
pub fn arena_layout(specs: &[MetalBucketSpec]) -> (layout: Vec<u64>)
    requires
        arena_sizes_in_range(specs@),
    ensures
        is_arena_layout(specs@, layout@),
{
    let mut num_slots: usize = 0;
    let mut i: usize = 0;
    while i < specs.len()
        invariant
            i <= specs@.len(),
            is_slot_count(specs@.take(i as int), num_slots as int),
        decreases specs@.len() - i,
    {
        let n: usize = specs[i].num_arena_slots as usize;
        let ghost front = specs@.take(i as int);
        let ghost longer = specs@.take(i + 1);
        proof {
            assert(longer =~= front.push(specs@[i as int]));
            if num_slots > 0 {
                let j = choose|j: int|
                    0 <= j < front.len() && (#[trigger] front[j]).num_arena_slots == num_slots;
                assert(longer[j] == front[j]);
            }
            assert(longer[i as int].num_arena_slots == n);
            assert forall|j: int| 0 <= j < longer.len() implies longer[j] == (if j < i {
                front[j]
            } else {
                specs@[i as int]
            }) by {}
        }
        if n > num_slots {
            num_slots = n;
        }
        i += 1;
    }
    assert(specs@.take(i as int) =~= specs@);
    let mut layout: Vec<u64> = Vec::new();
    while layout.len() < num_slots
        invariant
            layout@.len() <= num_slots,
            forall|slot: int| 0 <= slot < layout@.len() ==> layout@[slot] == 0,
        decreases num_slots - layout@.len(),
    {
        layout.push(0);
    }
    let mut i: usize = 0;
    while i < specs.len()
        invariant
            i <= specs@.len(),
            layout@.len() == num_slots,
            is_slot_count(specs@, num_slots as int),
            arena_sizes_in_range(specs@),
            forall|slot: int|
                0 <= slot < layout@.len() ==> is_slot_size(
                    specs@.take(i as int),
                    slot,
                    #[trigger] layout@[slot],
                ),
        decreases specs@.len() - i,
    {
        let bytes: &[u64] = specs[i].arena_bytes;
        let ghost before = layout@;
        assert(bytes@.len() <= num_slots) by {
            assert(specs@[i as int].arena_bytes@.len() <= num_slots);
        }
        let mut slot: usize = 0;
        while slot < bytes.len()
            invariant
                slot <= bytes@.len(),
                bytes@.len() <= num_slots,
                layout@.len() == num_slots,
                before.len() == num_slots,
                forall|k: int|
                    0 <= k < num_slots ==> #[trigger] layout@[k] == if k < slot && bytes@[k]
                        > before[k] {
                        bytes@[k]
                    } else {
                        before[k]
                    },
            decreases bytes@.len() - slot,
        {
            let b: u64 = bytes[slot];
            if b > layout[slot] {
                layout.set(slot, b);
            }
            slot += 1;
        }
        let ghost front = specs@.take(i as int);
        let ghost longer = specs@.take(i + 1);
        assert(longer =~= front.push(specs@[i as int]));
        assert forall|k: int| 0 <= k < layout@.len() implies is_slot_size(
            longer,
            k,
            #[trigger] layout@[k],
        ) by {
            assert(is_slot_size(front, k, before[k]));
            assert(longer[i as int] == specs@[i as int]);
            assert forall|j: int| 0 <= j < longer.len() && k < (
            #[trigger] longer[j]).arena_bytes@.len() implies longer[j].arena_bytes@[k]
                <= layout@[k] by {
                if j < i {
                    assert(longer[j] == front[j]);
                }
            }
            if layout@[k] != 0 && layout@[k] == before[k] {
                let j = choose|j: int|
                    0 <= j < front.len() && k < (#[trigger] front[j]).arena_bytes@.len()
                        && front[j].arena_bytes@[k] == before[k];
                assert(longer[j] == front[j]);
            }
        }
        i += 1;
    }
    assert(specs@.take(i as int) =~= specs@);
    layout
}

// ---- Lowering all buckets ----

/// What the lowering of one bucket reads.
pub open spec fn bucket_inputs(
    params: CanonicalParams,
    steel_attention: bool,
    spec: MetalBucketSpec,
    choices: BucketChoices,
) -> PairInputs {
    PairInputs {
        site: TapeSite {
            params,
            steel_attention,
            bucket_m: spec.bucket_m,
            tape_index: spec.backbone_tape_index,
        },
        backbone: spec.backbone@,
        lm_head: spec.lm_head@,
        backbone_choices: choices.backbone@,
        lm_head_choices: choices.lm_head@,
        backbone_barriers: spec.backbone_barriers@,
        lm_head_barriers: spec.lm_head_barriers@,
        num_arena_slots: spec.num_arena_slots,
        lm_head_tape_index: spec.lm_head_tape_index,
        slice: choices.slice,
    }
}

/// What bucket `i` lowers to.
pub open spec fn bucket_result(
    params: CanonicalParams,
    steel_attention: bool,
    specs: Seq<MetalBucketSpec>,
    choices: Seq<BucketChoices>,
    i: int,
) -> Result<TapeView, LoweringError> {
    bucket_inputs(params, steel_attention, specs[i], choices[i]).result()
}

/// Lowering all buckets up to the first that fails is defined.
pub open spec fn buckets_defined(
    params: CanonicalParams,
    steel_attention: bool,
    specs: Seq<MetalBucketSpec>,
    choices: Seq<BucketChoices>,
) -> bool {
    &&& specs.len() == choices.len()
    &&& forall|i: int|
        #![trigger specs[i]]
        0 <= i < specs.len() && (forall|j: int|
            0 <= j < i ==> (#[trigger] bucket_result(
                params,
                steel_attention,
                specs,
                choices,
                j,
            )) is Ok) ==> bucket_inputs(params, steel_attention, specs[i], choices[i]).defined()
}

/// Lowers every bucket, in order. The first one that fails is reported with
/// its size and the text of its error.
pub fn lower_buckets(
    params: CanonicalParams,
    steel_attention: bool,
    specs: &[MetalBucketSpec],
    choices: &[BucketChoices],
) -> (r: Result<Vec<LoweredMetalTape>, PoolBuildError>)
    requires
        buckets_defined(params, steel_attention, specs@, choices@),
    ensures
        match r {
            Ok(tapes) => tapes@.len() == specs@.len() && forall|i: int|
                0 <= i < specs@.len() ==> (#[trigger] bucket_result(
                    params,
                    steel_attention,
                    specs@,
                    choices@,
                    i,
                )) == Ok::<TapeView, LoweringError>(tapes@[i]@),
            Err(PoolBuildError::BucketLower { bucket_m, error }) => exists|i: int|
                0 <= i < specs@.len() && bucket_m == specs@[i].bucket_m && (
                #[trigger] bucket_result(params, steel_attention, specs@, choices@, i) matches Err(
                    e,
                ) && error@ == e.text()) && forall|j: int|
                    0 <= j < i ==> (#[trigger] bucket_result(
                        params,
                        steel_attention,
                        specs@,
                        choices@,
                        j,
                    )) is Ok,
            Err(_) => false,
        },
{
    let mut tapes: Vec<LoweredMetalTape> = Vec::new();
    let mut i: usize = 0;
    while i < specs.len()
        invariant
            i <= specs@.len(),
            specs@.len() == choices@.len(),
            buckets_defined(params, steel_attention, specs@, choices@),
            tapes@.len() == i,
            forall|j: int|
                0 <= j < i ==> (#[trigger] bucket_result(
                    params,
                    steel_attention,
                    specs@,
                    choices@,
                    j,
                )) == Ok::<TapeView, LoweringError>(tapes@[j]@),
        decreases specs@.len() - i,
    {
        let spec = &specs[i];
        let choice = &choices[i];
        let site = TapeSite {
            params,
            steel_attention,
            bucket_m: spec.bucket_m,
            tape_index: spec.backbone_tape_index,
        };
        assert(bucket_inputs(
            params,
            steel_attention,
            specs@[i as int],
            choices@[i as int],
        ).defined());
        let lowered = lower_pair(
            site,
            spec.backbone,
            spec.lm_head,
            choice.backbone.as_slice(),
            choice.lm_head.as_slice(),
            spec.backbone_barriers,
            spec.lm_head_barriers,
            spec.num_arena_slots,
            spec.lm_head_tape_index,
            choice.slice,
        );
        assert(tape_view(lowered) == bucket_result(
            params,
            steel_attention,
            specs@,
            choices@,
            i as int,
        ));
        match lowered {
            Ok(tape) => {
                tapes.push(tape);
            },
            Err(e) => {
                return Err(
                    PoolBuildError::BucketLower { bucket_m: spec.bucket_m, error: e.message() },
                );
            },
        }
        i += 1;
    }
    Ok(tapes)
}

/// The arena and the tapes of a pool.
#[derive(Debug)]
pub struct PoolPlan {
    pub tapes: Vec<LoweredMetalTape>,
    pub arena_layout: Vec<u64>,
}

/// Plans a pool from its buckets. `cache` says whether the shader libraries
/// could be loaded; it is not looked at where there is no bucket.
pub fn for_buckets(
    params: CanonicalParams,
    steel_attention: bool,
    specs: &[MetalBucketSpec],
    choices: &[BucketChoices],
    cache: Result<(), String>,
) -> (r: Result<PoolPlan, PoolBuildError>)
    requires
        arena_sizes_in_range(specs@),
        cache is Ok ==> buckets_defined(params, steel_attention, specs@, choices@),
    ensures
        match r {
            Ok(plan) => {
                &&& specs@.len() > 0
                &&& cache is Ok
                &&& is_arena_layout(specs@, plan.arena_layout@)
                &&& plan.tapes@.len() == specs@.len()
                &&& forall|i: int|
                    0 <= i < specs@.len() ==> (#[trigger] bucket_result(
                        params,
                        steel_attention,
                        specs@,
                        choices@,
                        i,
                    )) == Ok::<TapeView, LoweringError>(plan.tapes@[i]@)
            },
            Err(PoolBuildError::NoBuckets) => specs@.len() == 0,
            Err(PoolBuildError::PipelineCacheBuild(m)) => specs@.len() > 0 && cache == Err::<
                (),
                String,
            >(m),
            Err(PoolBuildError::BucketLower { bucket_m, error }) => cache is Ok && exists|i: int|
                0 <= i < specs@.len() && bucket_m == specs@[i].bucket_m && (
                #[trigger] bucket_result(params, steel_attention, specs@, choices@, i) matches Err(
                    e,
                ) && error@ == e.text()) && forall|j: int|
                    0 <= j < i ==> (#[trigger] bucket_result(
                        params,
                        steel_attention,
                        specs@,
                        choices@,
                        j,
                    )) is Ok,
            Err(PoolBuildError::Worker(_)) => false,
        },
{
    if specs.len() == 0 {
        return Err(PoolBuildError::NoBuckets);
    }
    let layout = arena_layout(specs);
    if let Err(m) = cache {
        return Err(PoolBuildError::PipelineCacheBuild(m));
    }
    match lower_buckets(params, steel_attention, specs, choices) {
        Ok(tapes) => Ok(PoolPlan { tapes, arena_layout: layout }),
        Err(e) => Err(e),
    }
}

// ---- Laws ----

/// More tokens never go to a smaller bucket.
pub proof fn law_pick_is_monotone(tapes: Seq<TapeView>, a: u32, b: u32, i: int, j: int)
    requires
        0 < a <= b,
        is_best_bucket(tapes, a, i),
        is_best_bucket(tapes, b, j),
    ensures
        tapes[i].bucket_m <= tapes[j].bucket_m,
{
}

/// The chosen bucket holds all tokens, and it is never one of more than one
/// token below the safe size; no other bucket is chosen for the same number of
/// tokens.
pub proof fn law_pick_is_safe_and_unique(tapes: Seq<TapeView>, num_tokens: u32, i: int, j: int)
    requires
        num_tokens > 0,
        is_best_bucket(tapes, num_tokens, i),
        is_best_bucket(tapes, num_tokens, j),
    ensures
        i == j,
        tapes[i].bucket_m >= num_tokens,
        tapes[i].bucket_m == 1 || tapes[i].bucket_m >= SAFE_MULTI_ROW_BUCKET_M,
{
}

/// A bucket that is exactly as large as the step serves it, if that is a safe
/// size and no bucket before it has the same size.
pub proof fn law_exact_bucket_is_picked(tapes: Seq<TapeView>, num_tokens: u32, i: int)
    requires
        num_tokens == 1 || num_tokens >= SAFE_MULTI_ROW_BUCKET_M,
        0 <= i < tapes.len(),
        tapes[i].bucket_m == num_tokens,
        forall|j: int| 0 <= j < i ==> (#[trigger] tapes[j]).bucket_m != num_tokens,
    ensures
        is_best_bucket(tapes, num_tokens, i),
{
}

/// Every slot of every bucket fits into the shared arena.
pub proof fn law_arena_serves_every_bucket(
    specs: Seq<MetalBucketSpec>,
    layout: Seq<u64>,
    i: int,
    slot: int,
)
    requires
        is_arena_layout(specs, layout),
        0 <= i < specs.len(),
        0 <= slot < specs[i].num_arena_slots,
    ensures
        slot < layout.len(),
        slot < specs[i].arena_bytes@.len() ==> specs[i].arena_bytes@[slot] <= layout[slot],
{
    assert(is_slot_size(specs, slot, layout[slot]));
}

/// The chosen bucket is the smallest of those that hold all tokens and are not
/// of two to seven tokens, and none is chosen exactly if there is no such.
pub proof fn law_smallest_safe_bucket_is_picked(
    tapes: Seq<TapeView>,
    num_tokens: u32,
    i: int,
    j: int,
)
    requires
        num_tokens > 0,
        is_best_bucket(tapes, num_tokens, i),
        0 <= j < tapes.len(),
        tapes[j].bucket_m >= num_tokens,
        !(2 <= tapes[j].bucket_m <= 7),
    ensures
        tapes[i].bucket_m >= num_tokens,
        !(2 <= tapes[i].bucket_m <= 7),
        tapes[i].bucket_m <= tapes[j].bucket_m,
        tapes[i].bucket_m == tapes[j].bucket_m ==> i <= j,
{
    assert(may_serve(tapes[j].bucket_m, num_tokens));
}

/// A bucket may serve a step exactly if it holds all tokens and is not of two
/// to seven tokens.
pub proof fn law_serving_buckets(bucket_m: u32, num_tokens: u32)
    requires
        num_tokens > 0,
    ensures
        may_serve(bucket_m, num_tokens) <==> bucket_m >= num_tokens && !(2 <= bucket_m <= 7),
{
}

/// The largest bucket is a bucket, and no bucket is larger.
pub proof fn law_largest_bucket(tapes: Seq<TapeView>, m: u32, j: int)
    requires
        is_max_bucket(tapes, m),
        0 <= j < tapes.len(),
    ensures
        tapes[j].bucket_m <= m,
        exists|k: int| 0 <= k < tapes.len() && (#[trigger] tapes[k]).bucket_m == m,
{
    if m == 0 {
        assert(tapes[j].bucket_m == m);
    }
}

/// The shared arena is no larger than it has to be: it has as many slots as
/// some bucket, and every slot that takes bytes takes as many as some bucket
/// gives it.
pub proof fn law_arena_is_no_larger_than_needed(
    specs: Seq<MetalBucketSpec>,
    layout: Seq<u64>,
    slot: int,
)
    requires
        is_arena_layout(specs, layout),
        0 <= slot < layout.len(),
    ensures
        exists|i: int|
            0 <= i < specs.len() && (#[trigger] specs[i]).num_arena_slots == layout.len(),
        layout[slot] > 0 ==> exists|i: int|
            0 <= i < specs.len() && slot < (#[trigger] specs[i]).arena_bytes@.len()
                && specs[i].arena_bytes@[slot] == layout[slot],
{
    assert(is_slot_size(specs, slot, layout[slot]));
}

/// A bucket is lowered from its own data: its size and slots, the backbone with
/// the backbone's tape, barriers and choices, and the head with the head's.
pub proof fn law_buckets_are_lowered_from_their_own_data(
    params: CanonicalParams,
    steel_attention: bool,
    spec: MetalBucketSpec,
    choices: BucketChoices,
)
    ensures
        ({
            let inputs = bucket_inputs(params, steel_attention, spec, choices);
            let b = inputs.backbone_inputs();
            let h = inputs.head_inputs();
            &&& inputs.num_arena_slots == spec.num_arena_slots
            &&& inputs.slice == choices.slice
            &&& inputs.lm_head_tape_index == spec.lm_head_tape_index
            &&& b.site.params == params && h.site.params == params
            &&& b.site.steel_attention == steel_attention
            &&& h.site.steel_attention == steel_attention
            &&& b.site.bucket_m == spec.bucket_m && h.site.bucket_m == spec.bucket_m
            &&& b.site.tape_index == spec.backbone_tape_index
            &&& h.site.tape_index == spec.lm_head_tape_index
            &&& b.instructions == spec.backbone@ && h.instructions == spec.lm_head@
            &&& b.barriers == spec.backbone_barriers@ && h.barriers == spec.lm_head_barriers@
            &&& b.choices == choices.backbone@ && h.choices == choices.lm_head@
            &&& inputs.lm_head == spec.lm_head@ && inputs.backbone == spec.backbone@
            &&& inputs.site == b.site
        }),
{
}

/// Bucket `i` is lowered from spec `i` with the choices of bucket `i`.
pub proof fn law_buckets_keep_their_choices(
    params: CanonicalParams,
    steel_attention: bool,
    specs: Seq<MetalBucketSpec>,
    choices: Seq<BucketChoices>,
    i: int,
)
    requires
        0 <= i < specs.len(),
        0 <= i < choices.len(),
    ensures
        bucket_result(params, steel_attention, specs, choices, i) == bucket_inputs(
            params,
            steel_attention,
            specs[i],
            choices[i],
        ).result(),
{
}

} // verus!
