//! Launch arguments of the device-interpreter megakernels.
//!
//! A variant's launcher takes one of several argument packs, each a superset
//! of the one before. Callers stage the largest and let `dispatch_launch`
//! project it down to what the launcher takes. Device pointers are carried as
//! addresses.
use vstd::prelude::*;

verus! {

/// Address of a device array of activation pointers.
pub type ActPtrs = u64;

/// Address of a device array of weight pointers.
pub type WeightPtrs = u64;

/// Address of a device array of cache pointers, one per layer.
pub type KvPtrs = u64;

/// Address of a device array of `u32`s.
pub type U32Ptr = u64;

/// Address of a device array of `i32`s.
pub type I32Ptr = u64;

/// Address of a device array of `i64`s.
pub type I64Ptr = u64;

/// Address of a mutable device array of `i32`s.
pub type I32MutPtr = u64;

/// Address of a mutable device array of `u32`s.
pub type U32MutPtr = u64;

/// Arguments of a launcher that touches no caches.
#[derive(Clone, Copy, Debug, PartialEq, Eq, Structural)]
pub struct LaunchArgs {
    pub act_ptrs: ActPtrs,
    pub weight_ptrs: WeightPtrs,
    /// Barrier counters; 0 if the variant has none.
    pub barriers: I32MutPtr,
    /// Trace verbosity; 0 is off.
    pub trace_level: i32,
}

/// Arguments of a launcher that reads or writes the paged KV cache.
#[derive(Clone, Copy, Debug, PartialEq, Eq, Structural)]
pub struct LaunchArgsQkv {
    pub act_ptrs: ActPtrs,
    pub weight_ptrs: WeightPtrs,
    pub input_ids: U32Ptr,
    pub positions: U32Ptr,
    pub slot_mapping: I64Ptr,
    pub key_cache_ptrs: KvPtrs,
    pub value_cache_ptrs: KvPtrs,
    pub barriers: I32MutPtr,
    pub trace_level: i32,
}

/// Arguments of a launcher that runs attention.
#[derive(Clone, Copy, Debug, PartialEq, Eq, Structural)]
pub struct LaunchArgsAttn {
    pub act_ptrs: ActPtrs,
    pub weight_ptrs: WeightPtrs,
    pub input_ids: U32Ptr,
    pub positions: U32Ptr,
    pub slot_mapping: I64Ptr,
    pub key_cache_ptrs: KvPtrs,
    pub value_cache_ptrs: KvPtrs,
    pub seq_lens: I32Ptr,
    pub block_table: U32Ptr,
    /// Entries per row of the block table.
    pub block_table_stride: u32,
    pub barriers: I32MutPtr,
    pub trace_level: i32,
}

/// Arguments of a launcher that runs several steps.
#[derive(Clone, Copy, Debug, PartialEq, Eq, Structural)]
pub struct LaunchArgsMultiStep {
    pub act_ptrs: ActPtrs,
    pub weight_ptrs: WeightPtrs,
    /// Token per step; the kernel fills in all but the first.
    pub input_ids_multi: U32MutPtr,
    pub positions_multi: U32Ptr,
    pub slot_mapping_multi: I64Ptr,
    pub key_cache_ptrs: KvPtrs,
    pub value_cache_ptrs: KvPtrs,
    pub seq_lens_multi: I32Ptr,
    pub block_table: U32Ptr,
    pub block_table_stride: u32,
    pub barriers: I32MutPtr,
    pub trace_level: i32,
    pub num_steps: i32,
    pub output_token_ids: U32MutPtr,
}

/// Arguments of a launcher whose kernel stays resident.
#[derive(Clone, Copy, Debug, PartialEq, Eq, Structural)]
pub struct PersistentDecodeLaunchArgs {
    pub act_ptrs: ActPtrs,
    pub weight_ptrs: WeightPtrs,
    /// Address of the protocol buffer.
    pub protocol: u64,
    pub key_cache_ptrs: KvPtrs,
    pub value_cache_ptrs: KvPtrs,
    pub barriers: I32MutPtr,
    pub trace_level: i32,
}

/// Which argument pack a variant's launcher takes.
#[derive(Clone, Copy, Debug, PartialEq, Eq, Structural)]
pub enum LaunchTier {
    Base,
    Qkv,
    Attn,
    MultiStep,
    PersistentDecode,
}

// ---- Tensors ----

/// Element type of a device tensor.
#[derive(Clone, Copy, Debug, PartialEq, Eq, Structural)]
pub enum DType {
    U32,
    I32,
    I64,
}

/// A device tensor.
#[derive(Debug)]
pub struct TensorView {
    /// Device address of the first element.
    pub address: u64,
    pub shape: Vec<usize>,
    pub dtype: DType,
}

/// The sequence lengths of a launch are those of the tensor, in place.
pub fn seq_lens_ptr(view: &TensorView) -> (p: I32Ptr)
    ensures
        p == view.address,
{
    view.address
}

/// The block table of a launch is the tensor, in place. Block numbers are
/// never negative, so reading them as unsigned changes nothing.
pub fn block_table_ptr(view: &TensorView) -> (p: U32Ptr)
    ensures
        p == view.address,
{
    view.address
}

/// The positions of a launch are those of the tensor, in place.
pub fn positions_ptr(view: &TensorView) -> (p: U32Ptr)
    ensures
        p == view.address,
{
    view.address
}

/// The token ids of a launch are those of the tensor, in place.
pub fn input_ids_ptr(view: &TensorView) -> (p: U32Ptr)
    ensures
        p == view.address,
{
    view.address
}

/// The slot mapping of a launch is that of the tensor, in place.
pub fn slot_mapping_ptr(view: &TensorView) -> (p: I64Ptr)
    ensures
        p == view.address,
{
    view.address
}

// ---- Layout ----

/// The least multiple of `align` from `n` on.
pub open spec fn align_up(n: int, align: int) -> int {
    if n % align == 0 {
        n
    } else {
        n + (align - n % align)
    }
}

/// Where field `i` of a C struct starts: behind the field before it, aligned
/// to its own size.
pub open spec fn c_offset(sizes: Seq<int>, i: int) -> int
    decreases i,
{
    if i <= 0 {
        0
    } else {
        align_up(c_offset(sizes, i - 1) + sizes[i - 1], sizes[i])
    }
}

/// The largest of the first `n` sizes, and at least 1.
pub open spec fn largest(sizes: Seq<int>, n: int) -> int
    decreases n,
{
    if n <= 0 {
        1
    } else if largest(sizes, n - 1) >= sizes[n - 1] {
        largest(sizes, n - 1)
    } else {
        sizes[n - 1]
    }
}

/// Alignment of a C struct: that of its largest field.
pub open spec fn c_align(sizes: Seq<int>) -> int {
    largest(sizes, sizes.len() as int)
}

/// Bytes of a C struct: up to the end of its last field, and from there on to
/// a multiple of its alignment.
pub open spec fn c_size(sizes: Seq<int>) -> int {
    if sizes.len() == 0 {
        0
    } else {
        align_up(
            c_offset(sizes, sizes.len() - 1) + sizes[sizes.len() - 1],
            c_align(sizes),
        )
    }
}

/// Bytes and alignment of an argument pack, as launchers take it.
#[derive(Clone, Copy, Debug, PartialEq, Eq, Structural)]
pub struct AbiLayout {
    pub size: usize,
    pub align: usize,
}

/// Byte offsets of the fields of `LaunchArgs`, as launchers take them.
#[derive(Clone, Copy, Debug, PartialEq, Eq, Structural)]
pub struct LaunchArgsOffsets {
    pub act_ptrs: usize,
    pub weight_ptrs: usize,
    pub barriers: usize,
    pub trace_level: usize,
}

/// Byte offsets of the fields of `LaunchArgsQkv`, as launchers take them.
#[derive(Clone, Copy, Debug, PartialEq, Eq, Structural)]
pub struct LaunchArgsQkvOffsets {
    pub act_ptrs: usize,
    pub weight_ptrs: usize,
    pub input_ids: usize,
    pub positions: usize,
    pub slot_mapping: usize,
    pub key_cache_ptrs: usize,
    pub value_cache_ptrs: usize,
    pub barriers: usize,
    pub trace_level: usize,
}

/// Byte offsets of the fields of `LaunchArgsAttn`, as launchers take them.
#[derive(Clone, Copy, Debug, PartialEq, Eq, Structural)]
pub struct LaunchArgsAttnOffsets {
    pub act_ptrs: usize,
    pub weight_ptrs: usize,
    pub input_ids: usize,
    pub positions: usize,
    pub slot_mapping: usize,
    pub key_cache_ptrs: usize,
    pub value_cache_ptrs: usize,
    pub seq_lens: usize,
    pub block_table: usize,
    pub block_table_stride: usize,
    pub barriers: usize,
    pub trace_level: usize,
}

impl LaunchArgs {
    /// Bytes and alignment of the pack.
    pub fn abi_layout() -> (l: AbiLayout)
        ensures
            l.size == c_size(Self::sizes()),
            l.align == c_align(Self::sizes()),
            l.size == 32,
            l.align == 8,
    {
        proof {
            reveal_with_fuel(c_offset, 5);
            reveal_with_fuel(largest, 5);
            assert(c_align(Self::sizes()) == 8);
            assert(align_up(28, 8) == 32);
        }
        AbiLayout { size: 32, align: 8 }
    }

    /// Field sizes, in order.
    pub open spec fn sizes() -> Seq<int> {
        seq![8, 8, 8, 4]
    }

    /// Byte offsets of the fields.
    pub fn abi_offsets() -> (o: LaunchArgsOffsets)
        ensures
            o.act_ptrs == c_offset(Self::sizes(), 0),
            o.weight_ptrs == c_offset(Self::sizes(), 1),
            o.barriers == c_offset(Self::sizes(), 2),
            o.trace_level == c_offset(Self::sizes(), 3),
    {
        proof {
            reveal_with_fuel(c_offset, 5);
        }
        LaunchArgsOffsets { act_ptrs: 0, weight_ptrs: 8, barriers: 16, trace_level: 24 }
    }
}

impl LaunchArgsQkv {
    /// Bytes and alignment of the pack.
    pub fn abi_layout() -> (l: AbiLayout)
        ensures
            l.size == c_size(Self::sizes()),
            l.align == c_align(Self::sizes()),
            l.size == 72,
            l.align == 8,
    {
        proof {
            reveal_with_fuel(c_offset, 10);
            reveal_with_fuel(largest, 10);
            assert(c_align(Self::sizes()) == 8);
            assert(align_up(68, 8) == 72);
        }
        AbiLayout { size: 72, align: 8 }
    }

    /// Field sizes, in order.
    pub open spec fn sizes() -> Seq<int> {
        seq![8, 8, 8, 8, 8, 8, 8, 8, 4]
    }

    /// Byte offsets of the fields.
    pub fn abi_offsets() -> (o: LaunchArgsQkvOffsets)
        ensures
            o.act_ptrs == c_offset(Self::sizes(), 0),
            o.weight_ptrs == c_offset(Self::sizes(), 1),
            o.input_ids == c_offset(Self::sizes(), 2),
            o.positions == c_offset(Self::sizes(), 3),
            o.slot_mapping == c_offset(Self::sizes(), 4),
            o.key_cache_ptrs == c_offset(Self::sizes(), 5),
            o.value_cache_ptrs == c_offset(Self::sizes(), 6),
            o.barriers == c_offset(Self::sizes(), 7),
            o.trace_level == c_offset(Self::sizes(), 8),
    {
        proof {
            reveal_with_fuel(c_offset, 10);
        }
        LaunchArgsQkvOffsets {
            act_ptrs: 0,
            weight_ptrs: 8,
            input_ids: 16,
            positions: 24,
            slot_mapping: 32,
            key_cache_ptrs: 40,
            value_cache_ptrs: 48,
            barriers: 56,
            trace_level: 64,
        }
    }
}

impl LaunchArgsAttn {
    /// Bytes and alignment of the pack.
    pub fn abi_layout() -> (l: AbiLayout)
        ensures
            l.size == c_size(Self::sizes()),
            l.align == c_align(Self::sizes()),
            l.size == 96,
            l.align == 8,
    {
        proof {
            reveal_with_fuel(c_offset, 13);
            reveal_with_fuel(largest, 13);
            assert(c_align(Self::sizes()) == 8);
            assert(align_up(92, 8) == 96);
        }
        AbiLayout { size: 96, align: 8 }
    }

    /// Field sizes, in order.
    pub open spec fn sizes() -> Seq<int> {
        seq![8, 8, 8, 8, 8, 8, 8, 8, 8, 4, 8, 4]
    }

    /// Byte offsets of the fields.
    pub fn abi_offsets() -> (o: LaunchArgsAttnOffsets)
        ensures
            o.act_ptrs == c_offset(Self::sizes(), 0),
            o.weight_ptrs == c_offset(Self::sizes(), 1),
            o.input_ids == c_offset(Self::sizes(), 2),
            o.positions == c_offset(Self::sizes(), 3),
            o.slot_mapping == c_offset(Self::sizes(), 4),
            o.key_cache_ptrs == c_offset(Self::sizes(), 5),
            o.value_cache_ptrs == c_offset(Self::sizes(), 6),
            o.seq_lens == c_offset(Self::sizes(), 7),
            o.block_table == c_offset(Self::sizes(), 8),
            o.block_table_stride == c_offset(Self::sizes(), 9),
            o.barriers == c_offset(Self::sizes(), 10),
            o.trace_level == c_offset(Self::sizes(), 11),
    {
        proof {
            reveal_with_fuel(c_offset, 13);
        }
        LaunchArgsAttnOffsets {
            act_ptrs: 0,
            weight_ptrs: 8,
            input_ids: 16,
            positions: 24,
            slot_mapping: 32,
            key_cache_ptrs: 40,
            value_cache_ptrs: 48,
            seq_lens: 56,
            block_table: 64,
            block_table_stride: 72,
            barriers: 80,
            trace_level: 88,
        }
    }
}

// ---- Launching ----

/// What a launcher's return code means.
pub open spec fn code_result(rc: i32) -> Result<(), i32> {
    if rc == 0 {
        Ok(())
    } else {
        Err(rc)
    }
}

fn check_code(rc: i32) -> (r: Result<(), i32>)
    ensures
        r == code_result(rc),
{
    if rc == 0 {
        Ok(())
    } else {
        Err(rc)
    }
}

/// Calls a base launcher.
pub fn launch<F: FnOnce(LaunchArgs) -> i32>(launch_fn: F, args: LaunchArgs) -> (r: Result<(), i32>)
    requires
        launch_fn.requires((args,)),
    ensures
        exists|rc: i32| launch_fn.ensures((args,), rc) && r == #[trigger] code_result(rc),
{
    let rc: i32 = launch_fn(args);
    check_code(rc)
}

/// Calls a cache launcher.
pub fn launch_qkv<F: FnOnce(LaunchArgsQkv) -> i32>(launch_fn: F, args: LaunchArgsQkv) -> (r: Result<
    (),
    i32,
>)
    requires
        launch_fn.requires((args,)),
    ensures
        exists|rc: i32| launch_fn.ensures((args,), rc) && r == #[trigger] code_result(rc),
{
    let rc: i32 = launch_fn(args);
    check_code(rc)
}

/// Calls an attention launcher.
pub fn launch_attn<F: FnOnce(LaunchArgsAttn) -> i32>(launch_fn: F, args: LaunchArgsAttn) -> (r:
    Result<(), i32>)
    requires
        launch_fn.requires((args,)),
    ensures
        exists|rc: i32| launch_fn.ensures((args,), rc) && r == #[trigger] code_result(rc),
{
    let rc: i32 = launch_fn(args);
    check_code(rc)
}

/// Calls a multi-step launcher.
pub fn launch_multi_step<F: FnOnce(LaunchArgsMultiStep) -> i32>(
    launch_fn: F,
    args: LaunchArgsMultiStep,
) -> (r: Result<(), i32>)
    requires
        launch_fn.requires((args,)),
    ensures
        exists|rc: i32| launch_fn.ensures((args,), rc) && r == #[trigger] code_result(rc),
{
    let rc: i32 = launch_fn(args);
    check_code(rc)
}

/// Calls the launcher of a resident kernel.
pub fn launch_persistent_decode<F: FnOnce(PersistentDecodeLaunchArgs) -> i32>(
    launch_fn: F,
    args: PersistentDecodeLaunchArgs,
) -> (r: Result<(), i32>)
    requires
        launch_fn.requires((args,)),
    ensures
        exists|rc: i32| launch_fn.ensures((args,), rc) && r == #[trigger] code_result(rc),
{
    let rc: i32 = launch_fn(args);
    check_code(rc)
}

/// A launcher, tagged with the argument pack it takes.
#[derive(Clone, Copy)]
pub enum LaunchFnAny<B, Q, A, M, P> {
    Base(B),
    Qkv(Q),
    Attn(A),
    MultiStep(M),
    PersistentDecode(P),
}

impl<B, Q, A, M, P> LaunchFnAny<B, Q, A, M, P> {
    /// The pack that the launcher takes.
    pub open spec fn tier_of(&self) -> LaunchTier {
        match self {
            LaunchFnAny::Base(_) => LaunchTier::Base,
            LaunchFnAny::Qkv(_) => LaunchTier::Qkv,
            LaunchFnAny::Attn(_) => LaunchTier::Attn,
            LaunchFnAny::MultiStep(_) => LaunchTier::MultiStep,
            LaunchFnAny::PersistentDecode(_) => LaunchTier::PersistentDecode,
        }
    }

    /// Returns the pack that the launcher takes.
    pub fn tier(&self) -> (t: LaunchTier)
        ensures
            t == self.tier_of(),
    {
        match self {
            LaunchFnAny::Base(_) => LaunchTier::Base,
            LaunchFnAny::Qkv(_) => LaunchTier::Qkv,
            LaunchFnAny::Attn(_) => LaunchTier::Attn,
            LaunchFnAny::MultiStep(_) => LaunchTier::MultiStep,
            LaunchFnAny::PersistentDecode(_) => LaunchTier::PersistentDecode,
        }
    }
}

impl<B, Q, A, M, P> LaunchFnAny<B, Q, A, M, P> {
    /// The launcher by its tier; its address is left out.
    pub fn label(&self) -> (s: &'static str)
        ensures
            s == match self.tier_of() {
                LaunchTier::Base => "LaunchFnAny::Base",
                LaunchTier::Qkv => "LaunchFnAny::Qkv",
                LaunchTier::Attn => "LaunchFnAny::Attn",
                LaunchTier::MultiStep => "LaunchFnAny::MultiStep",
                LaunchTier::PersistentDecode => "LaunchFnAny::PersistentDecode",
            },
    {
        match self {
            LaunchFnAny::Base(_) => "LaunchFnAny::Base",
            LaunchFnAny::Qkv(_) => "LaunchFnAny::Qkv",
            LaunchFnAny::Attn(_) => "LaunchFnAny::Attn",
            LaunchFnAny::MultiStep(_) => "LaunchFnAny::MultiStep",
            LaunchFnAny::PersistentDecode(_) => "LaunchFnAny::PersistentDecode",
        }
    }
}

/// The base part of the attention arguments.
pub open spec fn base_part(args: LaunchArgsAttn) -> LaunchArgs {
    LaunchArgs {
        act_ptrs: args.act_ptrs,
        weight_ptrs: args.weight_ptrs,
        barriers: args.barriers,
        trace_level: args.trace_level,
    }
}

/// The cache part of the attention arguments.
pub open spec fn qkv_part(args: LaunchArgsAttn) -> LaunchArgsQkv {
    LaunchArgsQkv {
        act_ptrs: args.act_ptrs,
        weight_ptrs: args.weight_ptrs,
        input_ids: args.input_ids,
        positions: args.positions,
        slot_mapping: args.slot_mapping,
        key_cache_ptrs: args.key_cache_ptrs,
        value_cache_ptrs: args.value_cache_ptrs,
        barriers: args.barriers,
        trace_level: args.trace_level,
    }
}

/// Calls the launcher with the part of the arguments that it takes. Multi-step
/// and resident kernels are launched otherwise.
pub fn dispatch_launch<
    B: FnOnce(LaunchArgs) -> i32,
    Q: FnOnce(LaunchArgsQkv) -> i32,
    A: FnOnce(LaunchArgsAttn) -> i32,
    M,
    P,
>(fn_any: LaunchFnAny<B, Q, A, M, P>, args: LaunchArgsAttn) -> (r: Result<(), i32>)
    requires
        match fn_any {
            LaunchFnAny::Base(f) => f.requires((base_part(args),)),
            LaunchFnAny::Qkv(f) => f.requires((qkv_part(args),)),
            LaunchFnAny::Attn(f) => f.requires((args,)),
            LaunchFnAny::MultiStep(_) => false,
            LaunchFnAny::PersistentDecode(_) => false,
        },
    ensures
        match fn_any {
            LaunchFnAny::Base(f) => exists|rc: i32|
                f.ensures((base_part(args),), rc) && r == #[trigger] code_result(rc),
            LaunchFnAny::Qkv(f) => exists|rc: i32|
                f.ensures((qkv_part(args),), rc) && r == #[trigger] code_result(rc),
            LaunchFnAny::Attn(f) => exists|rc: i32|
                f.ensures((args,), rc) && r == #[trigger] code_result(rc),
            LaunchFnAny::MultiStep(_) => true,
            LaunchFnAny::PersistentDecode(_) => true,
        },
{
    match fn_any {
        LaunchFnAny::Base(f) => launch(
            f,
            LaunchArgs {
                act_ptrs: args.act_ptrs,
                weight_ptrs: args.weight_ptrs,
                barriers: args.barriers,
                trace_level: args.trace_level,
            },
        ),
        LaunchFnAny::Qkv(f) => launch_qkv(
            f,
            LaunchArgsQkv {
                act_ptrs: args.act_ptrs,
                weight_ptrs: args.weight_ptrs,
                input_ids: args.input_ids,
                positions: args.positions,
                slot_mapping: args.slot_mapping,
                key_cache_ptrs: args.key_cache_ptrs,
                value_cache_ptrs: args.value_cache_ptrs,
                barriers: args.barriers,
                trace_level: args.trace_level,
            },
        ),
        LaunchFnAny::Attn(f) => launch_attn(f, args),
        LaunchFnAny::MultiStep(_) => Ok(()),
        LaunchFnAny::PersistentDecode(_) => Ok(()),
    }
}

// ---- Laws ----

/// The attention arguments start with the cache arguments: the seven fields
/// that both have in front lie at the same offsets.
pub proof fn law_attention_prefix_is_the_cache_prefix(i: int)
    requires
        0 <= i < 7,
    ensures
        c_offset(LaunchArgsAttn::sizes(), i) == c_offset(LaunchArgsQkv::sizes(), i),
        LaunchArgsAttn::sizes()[i] == LaunchArgsQkv::sizes()[i],
{
    reveal_with_fuel(c_offset, 8);
}

/// Fields of a C struct do not overlap and come in order.
pub proof fn law_c_fields_do_not_overlap(sizes: Seq<int>, i: int, j: int)
    requires
        forall|k: int| 0 <= k < sizes.len() ==> #[trigger] sizes[k] > 0,
        0 <= i < j < sizes.len(),
    ensures
        0 <= c_offset(sizes, i),
        c_offset(sizes, i) + sizes[i] <= c_offset(sizes, j),
        c_offset(sizes, j) % sizes[j] == 0,
    decreases j,
{
    lemma_aligned(sizes, j);
    lemma_aligned(sizes, i);
    lemma_aligned(sizes, j - 1);
    assert(sizes[j - 1] > 0);
    let end = c_offset(sizes, j - 1) + sizes[j - 1];
    lemma_align_up(end, sizes[j]);
    if i < j - 1 {
        law_c_fields_do_not_overlap(sizes, i, j - 1);
    }
}

/// A C struct holds all its fields, and an array of it keeps them aligned: its
/// size is a multiple of its alignment, and no field asks for more.
pub proof fn law_c_size_covers_the_fields(sizes: Seq<int>, i: int)
    requires
        forall|k: int| 0 <= k < sizes.len() ==> #[trigger] sizes[k] > 0,
        0 <= i < sizes.len(),
    ensures
        c_offset(sizes, i) + sizes[i] <= c_size(sizes),
        c_size(sizes) % c_align(sizes) == 0,
        sizes[i] <= c_align(sizes),
{
    let last = sizes.len() - 1;
    lemma_largest(sizes, sizes.len() as int, i);
    lemma_aligned(sizes, last);
    assert(sizes[last] > 0);
    lemma_align_up(c_offset(sizes, last) + sizes[last], c_align(sizes));
    if i < last {
        law_c_fields_do_not_overlap(sizes, i, last);
    }
}

/// The largest size is no smaller than any.
proof fn lemma_largest(sizes: Seq<int>, n: int, i: int)
    requires
        0 <= i < n <= sizes.len(),
    ensures
        largest(sizes, n) >= 1,
        sizes[i] <= largest(sizes, n),
    decreases n,
{
    if i < n - 1 {
        lemma_largest(sizes, n - 1, i);
    } else {
        lemma_largest_is_positive(sizes, n - 1);
    }
}

proof fn lemma_largest_is_positive(sizes: Seq<int>, n: int)
    ensures
        largest(sizes, n) >= 1,
    decreases n,
{
    if n > 0 {
        lemma_largest_is_positive(sizes, n - 1);
    }
}

/// Every field is aligned to its size.
proof fn lemma_aligned(sizes: Seq<int>, i: int)
    requires
        forall|k: int| 0 <= k < sizes.len() ==> #[trigger] sizes[k] > 0,
        0 <= i < sizes.len(),
    ensures
        0 <= c_offset(sizes, i),
        c_offset(sizes, i) % sizes[i] == 0,
    decreases i,
{
    if i > 0 {
        lemma_aligned(sizes, i - 1);
        assert(sizes[i - 1] > 0);
        lemma_align_up(c_offset(sizes, i - 1) + sizes[i - 1], sizes[i]);
    } else {
        assert(sizes[i] > 0);
        vstd::arithmetic::div_mod::lemma_small_mod(0, sizes[i] as nat);
    }
}

/// Aligning up gives a multiple that is not smaller.
proof fn lemma_align_up(n: int, align: int)
    requires
        n >= 0,
        align > 0,
    ensures
        align_up(n, align) >= n,
        align_up(n, align) % align == 0,
{
    let r = n % align;
    if r != 0 {
        vstd::arithmetic::div_mod::lemma_fundamental_div_mod(n, align);
        let q = n / align;
        assert(n + (align - r) == (q + 1) * align) by (nonlinear_arith)
            requires
                n == align * q + r,
        ;
        vstd::arithmetic::div_mod::lemma_mod_multiples_basic(q + 1, align);
    }
}

/// Projecting keeps what it keeps: the base part of the cache part is the base
/// part.
pub proof fn law_projections_nest(args: LaunchArgsAttn)
    ensures
        base_part(args) == (LaunchArgs {
            act_ptrs: qkv_part(args).act_ptrs,
            weight_ptrs: qkv_part(args).weight_ptrs,
            barriers: qkv_part(args).barriers,
            trace_level: qkv_part(args).trace_level,
        }),
{
}

/// A launcher that takes less is given the same values under the same names.
pub proof fn law_projections_keep_their_fields(args: LaunchArgsAttn)
    ensures
        base_part(args).act_ptrs == args.act_ptrs,
        base_part(args).weight_ptrs == args.weight_ptrs,
        base_part(args).barriers == args.barriers,
        base_part(args).trace_level == args.trace_level,
        qkv_part(args).act_ptrs == args.act_ptrs,
        qkv_part(args).weight_ptrs == args.weight_ptrs,
        qkv_part(args).input_ids == args.input_ids,
        qkv_part(args).positions == args.positions,
        qkv_part(args).slot_mapping == args.slot_mapping,
        qkv_part(args).key_cache_ptrs == args.key_cache_ptrs,
        qkv_part(args).value_cache_ptrs == args.value_cache_ptrs,
        qkv_part(args).barriers == args.barriers,
        qkv_part(args).trace_level == args.trace_level,
{
}

/// Addresses take eight bytes and counts four, so addresses lie eight bytes
/// apart and a count in front of an address is padded.
pub proof fn law_launchers_find_their_arguments(i: int)
    requires
        0 <= i,
    ensures
        i < 4 ==> c_offset(LaunchArgs::sizes(), i) == 8 * i,
        i < 9 ==> c_offset(LaunchArgsQkv::sizes(), i) == 8 * i,
        i < 12 ==> c_offset(LaunchArgsAttn::sizes(), i) == 8 * i,
        LaunchArgs::sizes().len() == 4,
        LaunchArgsQkv::sizes().len() == 9,
        LaunchArgsAttn::sizes().len() == 12,
        i < 4 ==> LaunchArgs::sizes()[i] == if i == 3 {
            4int
        } else {
            8
        },
        i < 9 ==> LaunchArgsQkv::sizes()[i] == if i == 8 {
            4int
        } else {
            8
        },
        i < 12 ==> LaunchArgsAttn::sizes()[i] == if i == 9 || i == 11 {
            4int
        } else {
            8
        },
    decreases i,
{
    if 0 < i {
        law_launchers_find_their_arguments(i - 1);
    }
}

/// A launch succeeds exactly if its code is 0, and a failed one reports the
/// code.
pub proof fn law_launches_report_their_code(rc: i32)
    ensures
        code_result(rc) is Ok <==> rc == 0,
        code_result(rc) matches Err(e) ==> e == rc,
{
}

/// A launcher's tier is the pack that it is tagged with.
pub proof fn law_tiers_tell_launchers_apart<B, Q, A, M, P>(f: LaunchFnAny<B, Q, A, M, P>)
    ensures
        f.tier_of() is Base <==> f is Base,
        f.tier_of() is Qkv <==> f is Qkv,
        f.tier_of() is Attn <==> f is Attn,
        f.tier_of() is MultiStep <==> f is MultiStep,
        f.tier_of() is PersistentDecode <==> f is PersistentDecode,
{
}

} // verus!
