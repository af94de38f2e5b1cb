//! Launch of the vendor megakernel: the checks, buffer shapes and integer
//! arguments of one call.
//!
//! Allocating the buffers and making the call are up to the caller; floating
//! point arguments pass through it untouched.
use crate::text::{push_signed_decimal, signed_decimal};
use vstd::prelude::*;
use vstd::string::StringExecFns;

verus! {

/// Device addresses of the weights, with the output width of each projection.
#[derive(Clone, Copy, Debug, PartialEq, Eq, Structural)]
pub struct WeightPtrs {
    pub qkv: u64,
    pub qkv_r: i32,
    pub attn_norm: u64,
    pub o: u64,
    pub o_r: i32,
    pub mlp_norm: u64,
    pub up: u64,
    pub up_r: i32,
    pub gate: u64,
    pub gate_r: i32,
    pub down: u64,
    pub down_r: i32,
    pub lm_head_norm: u64,
    pub lm_head: u64,
    pub lm_head_r: i32,
}

/// Device addresses of the rotary tables.
#[derive(Clone, Copy, Debug, PartialEq, Eq, Structural)]
pub struct RopePtrs {
    pub cos: u64,
    pub sin: u64,
    pub max_pos: i32,
}

/// Shape constants of a call. Scales are held as the bits of an `f32`.
#[derive(Clone, Copy, Debug, PartialEq, Eq, Structural)]
pub struct ShapeConfig {
    pub num_layers: i32,
    pub hidden_dim: i32,
    pub head_dim: i32,
    pub num_attention_heads: i32,
    pub num_kv_heads: i32,
    pub intermediate_dim: i32,
    pub num_devices: i32,
    pub vocab_size: i32,
    pub matmul_out_block_size: i32,
    pub matmul_batch_block_size: i32,
    pub kv_page_size: i32,
    pub attn_scale_bits: u32,
    pub rms_norm_eps_bits: u32,
}

/// What a call reads from the forward context: the dimensions of its tensors
/// and of the KV cache.
#[derive(Clone, Copy, Debug, PartialEq, Eq, Structural)]
pub struct ContextDims {
    pub input_ids: usize,
    pub positions: usize,
    pub cu_seqlens_q: usize,
    pub block_table_rows: usize,
    pub block_table_cols: usize,
    pub max_seqlen_q: usize,
    pub kv_num_blocks: usize,
    pub kv_block_size: usize,
    pub kv_num_layers: usize,
}

/// Why a launch failed.
#[derive(Debug)]
pub enum KvmLaunchError {
    /// The driver refused a copy or a fill.
    Driver(String),
    /// The launcher returned a code other than 0.
    LaunchReturned(i32),
    /// The model and the KV cache disagree on the number of layers.
    LayerMismatch { shape_layers: i32, kv_layers: i32 },
}

impl KvmLaunchError {
    /// The text of the error.
    pub open spec fn text(&self) -> Seq<char> {
        match self {
            KvmLaunchError::Driver(e) => "kvm launch driver error: "@ + e@,
            KvmLaunchError::LaunchReturned(rc) => {
                "kvm extern launcher returned cudaError="@ + signed_decimal(*rc as int)
            },
            KvmLaunchError::LayerMismatch { shape_layers, kv_layers } => {
                "kvm launch: canonical num_layers="@ + signed_decimal(*shape_layers as int)
                    + " but KvCachePool has num_layers="@ + signed_decimal(*kv_layers as int)
                    + "; vendor megakernel requires them equal"@
            },
        }
    }

    /// Returns the text of the error.
    pub fn message(&self) -> (s: String)
        ensures
            s@ == self.text(),
    {
        match self {
            KvmLaunchError::Driver(e) => {
                let mut s = String::from_str("kvm launch driver error: ");
                s.append(e.as_str());
                s
            },
            KvmLaunchError::LaunchReturned(rc) => {
                let mut s = String::from_str("kvm extern launcher returned cudaError=");
                push_signed_decimal(&mut s, *rc as i64);
                s
            },
            KvmLaunchError::LayerMismatch { shape_layers, kv_layers } => {
                let mut s = String::from_str("kvm launch: canonical num_layers=");
                push_signed_decimal(&mut s, *shape_layers as i64);
                s.append(" but KvCachePool has num_layers=");
                push_signed_decimal(&mut s, *kv_layers as i64);
                s.append("; vendor megakernel requires them equal");
                s
            },
        }
    }
}

/// Shapes of the buffers that a call allocates.
#[derive(Clone, Copy, Debug, PartialEq, Eq, Structural)]
pub struct ScratchShapes {
    /// Rows of 32 `i32`s: the tape.
    pub tape_rows: usize,
    /// Barrier counters: this many times 16 by 16 by 16 `u32`s, cleared.
    pub barrier_layers: usize,
    /// Rows of the `bf16` and `f32` buffers below.
    pub rows: usize,
    /// Columns of the hidden states and of the three norm intermediates.
    pub hidden_cols: usize,
    /// Columns of the rotated queries and of the attention output.
    pub query_cols: usize,
    /// Columns of the SiLU output.
    pub silu_cols: usize,
    /// Columns of the logits.
    pub vocab_cols: usize,
}

/// Integer arguments of the launcher.
#[derive(Clone, Copy, Debug, PartialEq, Eq, Structural)]
pub struct LaunchScalars {
    pub bar_d0: i32,
    pub bar_d1: i32,
    pub bar_d2: i32,
    pub bar_d3: i32,
    pub num_instructions: i32,
    pub num_timing_rows: i32,
    pub kv_total_pages: i32,
    pub kv_page_size_runtime: i32,
    pub batch_size: i32,
    pub vocab_size: i32,
    pub num_position_ids: i32,
    pub num_prefill_qo: i32,
    pub num_prefill_kv_indices: i32,
    pub num_decode_seqs: i32,
    pub num_decode_kv_indices: i32,
    pub num_pages: i32,
    pub num_prefill_tokens: i32,
    pub dev_idx: i32,
}

/// A planned launch.
#[derive(Clone, Copy, Debug, PartialEq, Eq, Structural)]
pub struct LaunchPlan {
    pub scratch: ScratchShapes,
    pub scalars: LaunchScalars,
}

/// Devices that share the intermediate dimension, at least one.
pub open spec fn device_count(shape: ShapeConfig) -> int {
    if shape.num_devices < 1 {
        1
    } else {
        shape.num_devices as int
    }
}

/// The dimensions of a model are counts, and the sizes that follow from them
/// fit.
pub open spec fn dims_fit(shape: ShapeConfig, ctx: ContextDims) -> bool {
    &&& shape.num_layers >= 0
    &&& shape.hidden_dim >= 0
    &&& shape.head_dim >= 0
    &&& shape.num_attention_heads >= 0
    &&& shape.intermediate_dim >= 0
    &&& shape.vocab_size >= 0
    &&& shape.num_attention_heads * shape.head_dim <= usize::MAX
    &&& ctx.input_ids <= i32::MAX
    &&& ctx.block_table_rows * ctx.block_table_cols <= usize::MAX
}

/// The buffers of a call.
pub open spec fn scratch_of(
    shape: ShapeConfig,
    ctx: ContextDims,
    tape_len: usize,
) -> ScratchShapes {
    ScratchShapes {
        tape_rows: tape_len,
        barrier_layers: shape.num_layers as usize,
        rows: ctx.input_ids,
        hidden_cols: shape.hidden_dim as usize,
        query_cols: (shape.num_attention_heads * shape.head_dim) as usize,
        silu_cols: (shape.intermediate_dim as int / device_count(shape)) as usize,
        vocab_cols: shape.vocab_size as usize,
    }
}

/// The integer arguments of a call.
pub open spec fn scalars_of(
    shape: ShapeConfig,
    ctx: ContextDims,
    tape_len: usize,
) -> LaunchScalars {
    LaunchScalars {
        bar_d0: shape.num_layers,
        bar_d1: 16,
        bar_d2: 16,
        bar_d3: 16,
        num_instructions: tape_len as i32,
        num_timing_rows: 1,
        kv_total_pages: ctx.kv_num_blocks as i32,
        kv_page_size_runtime: ctx.kv_block_size as i32,
        batch_size: ctx.input_ids as i32,
        vocab_size: shape.vocab_size,
        num_position_ids: ctx.positions as i32,
        num_prefill_qo: (if ctx.cu_seqlens_q == 0 {
            0
        } else {
            ctx.cu_seqlens_q - 1
        }) as i32,
        num_prefill_kv_indices: (ctx.block_table_rows * ctx.block_table_cols) as i32,
        num_decode_seqs: ctx.input_ids as i32,
        num_decode_kv_indices: (ctx.block_table_rows * ctx.block_table_cols) as i32,
        num_pages: ctx.kv_num_blocks as i32,
        num_prefill_tokens: ctx.max_seqlen_q as i32,
        dev_idx: 0,
    }
}

/// A count as the launcher takes it.
fn to_i32(n: usize) -> (r: i32)
    ensures
        r == n as i32,
        n <= i32::MAX ==> r == n,
{
    #[verifier::truncate]
    (n as i32)
}

/// Plans a launch. A model whose number of layers is not that of the KV cache
/// is refused before anything is allocated.
pub fn plan_launch(shape: ShapeConfig, ctx: ContextDims, tape_len: usize) -> (r: Result<
    LaunchPlan,
    KvmLaunchError,
>)
    requires
        shape.num_layers == ctx.kv_num_layers as i32 ==> dims_fit(shape, ctx),
    ensures
        match r {
            Ok(plan) => {
                &&& shape.num_layers == ctx.kv_num_layers as i32
                &&& plan.scratch == scratch_of(shape, ctx, tape_len)
                &&& plan.scalars == scalars_of(shape, ctx, tape_len)
            },
            Err(e) => {
                &&& shape.num_layers != ctx.kv_num_layers as i32
                &&& e == (KvmLaunchError::LayerMismatch {
                    shape_layers: shape.num_layers,
                    kv_layers: ctx.kv_num_layers as i32,
                })
            },
        },
{
    let kv_layers: i32 = to_i32(ctx.kv_num_layers);
    if shape.num_layers != kv_layers {
        return Err(KvmLaunchError::LayerMismatch { shape_layers: shape.num_layers, kv_layers });
    }
    let devices: usize = if shape.num_devices < 1 {
        1
    } else {
        shape.num_devices as usize
    };
    proof {
        assert(0 <= shape.num_attention_heads * shape.head_dim) by (nonlinear_arith)
            requires
                shape.num_attention_heads >= 0,
                shape.head_dim >= 0,
        ;
        assert(0 <= ctx.block_table_rows * ctx.block_table_cols) by (nonlinear_arith)
            requires
                ctx.block_table_rows >= 0,
                ctx.block_table_cols >= 0,
        ;
    }
    let heads: usize = shape.num_attention_heads as usize;
    let head_dim: usize = shape.head_dim as usize;
    let query_cols: usize = heads * head_dim;
    let inter: usize = shape.intermediate_dim as usize / devices;
    let table: usize = ctx.block_table_rows * ctx.block_table_cols;
    let boundaries: usize = if ctx.cu_seqlens_q == 0 {
        0
    } else {
        ctx.cu_seqlens_q - 1
    };
    let scratch = ScratchShapes {
        tape_rows: tape_len,
        barrier_layers: shape.num_layers as usize,
        rows: ctx.input_ids,
        hidden_cols: shape.hidden_dim as usize,
        query_cols,
        silu_cols: inter,
        vocab_cols: shape.vocab_size as usize,
    };
    let scalars = LaunchScalars {
        bar_d0: shape.num_layers,
        bar_d1: 16,
        bar_d2: 16,
        bar_d3: 16,
        num_instructions: to_i32(tape_len),
        num_timing_rows: 1,
        kv_total_pages: to_i32(ctx.kv_num_blocks),
        kv_page_size_runtime: to_i32(ctx.kv_block_size),
        batch_size: to_i32(ctx.input_ids),
        vocab_size: shape.vocab_size,
        num_position_ids: to_i32(ctx.positions),
        num_prefill_qo: to_i32(boundaries),
        num_prefill_kv_indices: to_i32(table),
        num_decode_seqs: to_i32(ctx.input_ids),
        num_decode_kv_indices: to_i32(table),
        num_pages: to_i32(ctx.kv_num_blocks),
        num_prefill_tokens: to_i32(ctx.max_seqlen_q),
        dev_idx: 0,
    };
    Ok(LaunchPlan { scratch, scalars })
}

/// Device addresses of a call's buffers and of the context's tensors, and the
/// stream.
#[derive(Clone, Copy, Debug, PartialEq, Eq, Structural)]
pub struct LaunchBuffers {
    pub tape: u64,
    pub bar: u64,
    pub timings: u64,
    pub global_instr_idx: u64,
    pub hidden: u64,
    pub rms_rope_inter: u64,
    pub rms_gate_inter: u64,
    pub q_post_rope: u64,
    pub attn_out: u64,
    pub silu_out: u64,
    pub rms_lm_head_inter: u64,
    pub logits: u64,
    pub positions: u64,
    pub slot_mapping: u64,
    pub cu_seqlens_q: u64,
    pub block_table: u64,
    pub seqused_k: u64,
    /// Key cache of layer 0.
    pub k_cache: u64,
    /// Value cache of layer 0.
    pub v_cache: u64,
    pub stream: u64,
}

/// Arguments of the launcher, in its order.
#[derive(Clone, Copy, Debug, PartialEq, Eq, Structural)]
pub struct LauncherArgs {
    pub d_bar: u64,
    pub bar_d0: i32,
    pub bar_d1: i32,
    pub bar_d2: i32,
    pub bar_d3: i32,
    pub d_instructions: u64,
    pub num_instructions: i32,
    pub d_timings: u64,
    pub num_timing_rows: i32,
    pub d_global_instruction_index: u64,
    pub d_qkv_weights: u64,
    pub qkv_r: i32,
    pub d_attn_norm_weights: u64,
    pub d_o_weights: u64,
    pub o_r: i32,
    pub d_mlp_norm_weights: u64,
    pub d_up_weights: u64,
    pub up_r: i32,
    pub d_gate_weights: u64,
    pub gate_r: i32,
    pub d_down_weights: u64,
    pub down_r: i32,
    pub d_lm_head_norm_weights: u64,
    pub d_lm_head_weights: u64,
    pub lm_head_r: i32,
    pub d_k_cache: u64,
    pub kv_total_pages: i32,
    pub kv_page_size_runtime: i32,
    pub d_v_cache: u64,
    pub d_rope_cos: u64,
    pub max_pos: i32,
    pub d_rope_sin: u64,
    pub d_hidden_states: u64,
    pub batch_size: i32,
    pub d_rms_rope_intermediates: u64,
    pub d_rms_gate_intermediates: u64,
    pub d_q_post_rope: u64,
    pub d_attn_out: u64,
    pub d_silu_out: u64,
    pub d_rms_lm_head_intermediates: u64,
    pub d_logits: u64,
    pub vocab_size: i32,
    pub d_position_ids: u64,
    pub num_position_ids: i32,
    pub d_kv_append_indices: u64,
    pub d_prefill_qo_indptr: u64,
    pub num_prefill_qo: i32,
    pub d_prefill_kv_indptr: u64,
    pub d_prefill_kv_indices: u64,
    pub num_prefill_kv_indices: i32,
    pub d_prefill_kv_last_page_len: u64,
    pub d_decode_kv_indptr: u64,
    pub num_decode_seqs: i32,
    pub d_decode_kv_indices: u64,
    pub num_decode_kv_indices: i32,
    pub d_decode_kv_last_page_len: u64,
    pub attn_scale_bits: u32,
    pub rms_norm_eps_bits: u32,
    pub num_pages: i32,
    pub num_prefill_tokens: i32,
    pub dev_idx: i32,
    pub raw_stream: u64,
}

/// The arguments of a planned launch. Prefill and decode read the same
/// boundaries, block table and key lengths.
pub open spec fn launcher_args(
    plan: LaunchPlan,
    b: LaunchBuffers,
    weights: WeightPtrs,
    rope: RopePtrs,
    shape: ShapeConfig,
) -> LauncherArgs {
    LauncherArgs {
        d_bar: b.bar,
        bar_d0: plan.scalars.bar_d0,
        bar_d1: plan.scalars.bar_d1,
        bar_d2: plan.scalars.bar_d2,
        bar_d3: plan.scalars.bar_d3,
        d_instructions: b.tape,
        num_instructions: plan.scalars.num_instructions,
        d_timings: b.timings,
        num_timing_rows: plan.scalars.num_timing_rows,
        d_global_instruction_index: b.global_instr_idx,
        d_qkv_weights: weights.qkv,
        qkv_r: weights.qkv_r,
        d_attn_norm_weights: weights.attn_norm,
        d_o_weights: weights.o,
        o_r: weights.o_r,
        d_mlp_norm_weights: weights.mlp_norm,
        d_up_weights: weights.up,
        up_r: weights.up_r,
        d_gate_weights: weights.gate,
        gate_r: weights.gate_r,
        d_down_weights: weights.down,
        down_r: weights.down_r,
        d_lm_head_norm_weights: weights.lm_head_norm,
        d_lm_head_weights: weights.lm_head,
        lm_head_r: weights.lm_head_r,
        d_k_cache: b.k_cache,
        kv_total_pages: plan.scalars.kv_total_pages,
        kv_page_size_runtime: plan.scalars.kv_page_size_runtime,
        d_v_cache: b.v_cache,
        d_rope_cos: rope.cos,
        max_pos: rope.max_pos,
        d_rope_sin: rope.sin,
        d_hidden_states: b.hidden,
        batch_size: plan.scalars.batch_size,
        d_rms_rope_intermediates: b.rms_rope_inter,
        d_rms_gate_intermediates: b.rms_gate_inter,
        d_q_post_rope: b.q_post_rope,
        d_attn_out: b.attn_out,
        d_silu_out: b.silu_out,
        d_rms_lm_head_intermediates: b.rms_lm_head_inter,
        d_logits: b.logits,
        vocab_size: plan.scalars.vocab_size,
        d_position_ids: b.positions,
        num_position_ids: plan.scalars.num_position_ids,
        d_kv_append_indices: b.slot_mapping,
        d_prefill_qo_indptr: b.cu_seqlens_q,
        num_prefill_qo: plan.scalars.num_prefill_qo,
        d_prefill_kv_indptr: b.cu_seqlens_q,
        d_prefill_kv_indices: b.block_table,
        num_prefill_kv_indices: plan.scalars.num_prefill_kv_indices,
        d_prefill_kv_last_page_len: b.seqused_k,
        d_decode_kv_indptr: b.cu_seqlens_q,
        num_decode_seqs: plan.scalars.num_decode_seqs,
        d_decode_kv_indices: b.block_table,
        num_decode_kv_indices: plan.scalars.num_decode_kv_indices,
        d_decode_kv_last_page_len: b.seqused_k,
        attn_scale_bits: shape.attn_scale_bits,
        rms_norm_eps_bits: shape.rms_norm_eps_bits,
        num_pages: plan.scalars.num_pages,
        num_prefill_tokens: plan.scalars.num_prefill_tokens,
        dev_idx: plan.scalars.dev_idx,
        raw_stream: b.stream,
    }
}

/// Calls the launcher of a planned launch and checks what it returns.
pub fn launch<F: FnOnce(LauncherArgs) -> i32>(
    launcher: F,
    plan: LaunchPlan,
    b: LaunchBuffers,
    weights: WeightPtrs,
    rope: RopePtrs,
    shape: ShapeConfig,
) -> (r: Result<(), KvmLaunchError>)
    requires
        launcher.requires((launcher_args(plan, b, weights, rope, shape),)),
    ensures
        exists|rc: i32|
            launcher.ensures((launcher_args(plan, b, weights, rope, shape),), rc)
                && #[trigger] is_launch_result(rc, r),
{
    let args = LauncherArgs {
        d_bar: b.bar,
        bar_d0: plan.scalars.bar_d0,
        bar_d1: plan.scalars.bar_d1,
        bar_d2: plan.scalars.bar_d2,
        bar_d3: plan.scalars.bar_d3,
        d_instructions: b.tape,
        num_instructions: plan.scalars.num_instructions,
        d_timings: b.timings,
        num_timing_rows: plan.scalars.num_timing_rows,
        d_global_instruction_index: b.global_instr_idx,
        d_qkv_weights: weights.qkv,
        qkv_r: weights.qkv_r,
        d_attn_norm_weights: weights.attn_norm,
        d_o_weights: weights.o,
        o_r: weights.o_r,
        d_mlp_norm_weights: weights.mlp_norm,
        d_up_weights: weights.up,
        up_r: weights.up_r,
        d_gate_weights: weights.gate,
        gate_r: weights.gate_r,
        d_down_weights: weights.down,
        down_r: weights.down_r,
        d_lm_head_norm_weights: weights.lm_head_norm,
        d_lm_head_weights: weights.lm_head,
        lm_head_r: weights.lm_head_r,
        d_k_cache: b.k_cache,
        kv_total_pages: plan.scalars.kv_total_pages,
        kv_page_size_runtime: plan.scalars.kv_page_size_runtime,
        d_v_cache: b.v_cache,
        d_rope_cos: rope.cos,
        max_pos: rope.max_pos,
        d_rope_sin: rope.sin,
        d_hidden_states: b.hidden,
        batch_size: plan.scalars.batch_size,
        d_rms_rope_intermediates: b.rms_rope_inter,
        d_rms_gate_intermediates: b.rms_gate_inter,
        d_q_post_rope: b.q_post_rope,
        d_attn_out: b.attn_out,
        d_silu_out: b.silu_out,
        d_rms_lm_head_intermediates: b.rms_lm_head_inter,
        d_logits: b.logits,
        vocab_size: plan.scalars.vocab_size,
        d_position_ids: b.positions,
        num_position_ids: plan.scalars.num_position_ids,
        d_kv_append_indices: b.slot_mapping,
        d_prefill_qo_indptr: b.cu_seqlens_q,
        num_prefill_qo: plan.scalars.num_prefill_qo,
        d_prefill_kv_indptr: b.cu_seqlens_q,
        d_prefill_kv_indices: b.block_table,
        num_prefill_kv_indices: plan.scalars.num_prefill_kv_indices,
        d_prefill_kv_last_page_len: b.seqused_k,
        d_decode_kv_indptr: b.cu_seqlens_q,
        num_decode_seqs: plan.scalars.num_decode_seqs,
        d_decode_kv_indices: b.block_table,
        num_decode_kv_indices: plan.scalars.num_decode_kv_indices,
        d_decode_kv_last_page_len: b.seqused_k,
        attn_scale_bits: shape.attn_scale_bits,
        rms_norm_eps_bits: shape.rms_norm_eps_bits,
        num_pages: plan.scalars.num_pages,
        num_prefill_tokens: plan.scalars.num_prefill_tokens,
        dev_idx: plan.scalars.dev_idx,
        raw_stream: b.stream,
    };
    let rc: i32 = launcher(args);
    launch_result(rc)
}

/// `r` is what return code `rc` means.
pub open spec fn is_launch_result(rc: i32, r: Result<(), KvmLaunchError>) -> bool {
    match r {
        Ok(()) => rc == 0,
        Err(e) => rc != 0 && e == KvmLaunchError::LaunchReturned(rc),
    }
}

/// What the launcher's return code means.
pub fn launch_result(rc: i32) -> (r: Result<(), KvmLaunchError>)
    ensures
        is_launch_result(rc, r),
{
    if rc != 0 {
        Err(KvmLaunchError::LaunchReturned(rc))
    } else {
        Ok(())
    }
}

/// The logits and the hidden states have one row per token, and prefill and
/// decode describe the same block table.
pub proof fn law_plan_is_consistent(shape: ShapeConfig, ctx: ContextDims, tape_len: usize)
    requires
        dims_fit(shape, ctx),
        tape_len <= i32::MAX,
    ensures
        scratch_of(shape, ctx, tape_len).rows == scalars_of(shape, ctx, tape_len).batch_size,
        scratch_of(shape, ctx, tape_len).tape_rows == scalars_of(
            shape,
            ctx,
            tape_len,
        ).num_instructions,
        scratch_of(shape, ctx, tape_len).barrier_layers == scalars_of(shape, ctx, tape_len).bar_d0,
        scratch_of(shape, ctx, tape_len).vocab_cols == scalars_of(shape, ctx, tape_len).vocab_size,
        scalars_of(shape, ctx, tape_len).num_prefill_kv_indices == scalars_of(
            shape,
            ctx,
            tape_len,
        ).num_decode_kv_indices,
        scalars_of(shape, ctx, tape_len).kv_total_pages == scalars_of(
            shape,
            ctx,
            tape_len,
        ).num_pages,
{
}

/// The pages of the KV cache are its blocks: the launcher is given the block
/// size as page size and the number of blocks as number of pages, so that the
/// pages times their size are the token slots of the cache.
pub proof fn law_pages_are_blocks(shape: ShapeConfig, ctx: ContextDims, tape_len: usize)
    requires
        ctx.kv_num_blocks <= i32::MAX,
        ctx.kv_block_size <= i32::MAX,
    ensures
        ({
            let s = scalars_of(shape, ctx, tape_len);
            &&& s.kv_page_size_runtime == ctx.kv_block_size
            &&& s.kv_total_pages == ctx.kv_num_blocks
            &&& s.num_pages == ctx.kv_num_blocks
            &&& s.kv_total_pages * s.kv_page_size_runtime == ctx.kv_num_blocks * ctx.kv_block_size
        }),
{
}

/// The launcher is told of every tensor how long it is: a batch of as many
/// rows as there are tokens, one position per token, the tape's instructions,
/// one prefill per pair of neighbouring boundaries, every entry of the block
/// table, and the longest query; barriers are counted per layer in a cube of
/// 16.
pub proof fn law_counts_are_those_of_the_context(
    shape: ShapeConfig,
    ctx: ContextDims,
    tape_len: usize,
)
    requires
        tape_len <= i32::MAX,
        ctx.input_ids <= i32::MAX,
        ctx.positions <= i32::MAX,
        ctx.cu_seqlens_q <= i32::MAX,
        ctx.max_seqlen_q <= i32::MAX,
        0 <= ctx.block_table_rows * ctx.block_table_cols <= i32::MAX,
    ensures
        ({
            let s = scalars_of(shape, ctx, tape_len);
            &&& s.num_instructions == tape_len
            &&& s.batch_size == ctx.input_ids
            &&& s.num_decode_seqs == ctx.input_ids
            &&& s.num_position_ids == ctx.positions
            &&& ctx.cu_seqlens_q > 0 ==> s.num_prefill_qo + 1 == ctx.cu_seqlens_q
            &&& ctx.cu_seqlens_q == 0 ==> s.num_prefill_qo == 0
            &&& s.num_prefill_kv_indices == ctx.block_table_rows * ctx.block_table_cols
            &&& s.num_decode_kv_indices == ctx.block_table_rows * ctx.block_table_cols
            &&& s.num_prefill_tokens == ctx.max_seqlen_q
            &&& s.vocab_size == shape.vocab_size
            &&& s.bar_d0 == shape.num_layers
            &&& s.bar_d1 == 16 && s.bar_d2 == 16 && s.bar_d3 == 16
            &&& s.num_timing_rows == 1
            &&& s.dev_idx == 0
        }),
{
}

/// The buffers are as wide as what they hold: hidden states by the hidden
/// dimension, queries by all heads, logits by the vocabulary, and the SiLU
/// output by one device's share of the intermediate dimension, rounded down.
pub proof fn law_buffers_fit_the_model(shape: ShapeConfig, ctx: ContextDims, tape_len: usize)
    requires
        dims_fit(shape, ctx),
    ensures
        ({
            let b = scratch_of(shape, ctx, tape_len);
            let devices = if shape.num_devices >= 1 {
                shape.num_devices as int
            } else {
                1
            };
            &&& b.tape_rows == tape_len
            &&& b.barrier_layers == shape.num_layers
            &&& b.rows == ctx.input_ids
            &&& b.hidden_cols == shape.hidden_dim
            &&& b.query_cols == shape.num_attention_heads * shape.head_dim
            &&& b.vocab_cols == shape.vocab_size
            &&& b.silu_cols * devices <= shape.intermediate_dim < (b.silu_cols + 1) * devices
        }),
{
    assert(0 <= shape.num_attention_heads * shape.head_dim) by (nonlinear_arith)
        requires
            shape.num_attention_heads >= 0,
            shape.head_dim >= 0,
    ;
    let d = device_count(shape);
    let n = shape.intermediate_dim as int;
    let q = n / d;
    vstd::arithmetic::div_mod::lemma_fundamental_div_mod(n, d);
    assert(0 <= q <= n && q * d <= n < (q + 1) * d) by (nonlinear_arith)
        requires
            n == d * q + n % d,
            0 <= n % d < d,
            d >= 1,
            n >= 0,
    ;
}

/// Every argument of the launcher is what its name says: each weight, table,
/// buffer and cache stands at its own argument, beside its own size.
pub proof fn law_launcher_gets_what_it_names(
    plan: LaunchPlan,
    b: LaunchBuffers,
    weights: WeightPtrs,
    rope: RopePtrs,
    shape: ShapeConfig,
)
    ensures
        ({
            let a = launcher_args(plan, b, weights, rope, shape);
            &&& a.d_bar == b.bar
            &&& a.bar_d0 == plan.scalars.bar_d0
            &&& a.bar_d1 == plan.scalars.bar_d1
            &&& a.bar_d2 == plan.scalars.bar_d2
            &&& a.bar_d3 == plan.scalars.bar_d3
            &&& a.d_instructions == b.tape
            &&& a.num_instructions == plan.scalars.num_instructions
            &&& a.d_timings == b.timings
            &&& a.num_timing_rows == plan.scalars.num_timing_rows
            &&& a.d_global_instruction_index == b.global_instr_idx
            &&& a.d_qkv_weights == weights.qkv
            &&& a.qkv_r == weights.qkv_r
            &&& a.d_attn_norm_weights == weights.attn_norm
            &&& a.d_o_weights == weights.o
            &&& a.o_r == weights.o_r
            &&& a.d_mlp_norm_weights == weights.mlp_norm
            &&& a.d_up_weights == weights.up
            &&& a.up_r == weights.up_r
            &&& a.d_gate_weights == weights.gate
            &&& a.gate_r == weights.gate_r
            &&& a.d_down_weights == weights.down
            &&& a.down_r == weights.down_r
            &&& a.d_lm_head_norm_weights == weights.lm_head_norm
            &&& a.d_lm_head_weights == weights.lm_head
            &&& a.lm_head_r == weights.lm_head_r
            &&& a.d_k_cache == b.k_cache
            &&& a.kv_total_pages == plan.scalars.kv_total_pages
            &&& a.kv_page_size_runtime == plan.scalars.kv_page_size_runtime
            &&& a.d_v_cache == b.v_cache
            &&& a.d_rope_cos == rope.cos
            &&& a.max_pos == rope.max_pos
            &&& a.d_rope_sin == rope.sin
            &&& a.d_hidden_states == b.hidden
            &&& a.batch_size == plan.scalars.batch_size
            &&& a.d_rms_rope_intermediates == b.rms_rope_inter
            &&& a.d_rms_gate_intermediates == b.rms_gate_inter
            &&& a.d_q_post_rope == b.q_post_rope
            &&& a.d_attn_out == b.attn_out
            &&& a.d_silu_out == b.silu_out
            &&& a.d_rms_lm_head_intermediates == b.rms_lm_head_inter
            &&& a.d_logits == b.logits
            &&& a.vocab_size == plan.scalars.vocab_size
            &&& a.d_position_ids == b.positions
            &&& a.num_position_ids == plan.scalars.num_position_ids
            &&& a.d_kv_append_indices == b.slot_mapping
            &&& a.d_prefill_qo_indptr == b.cu_seqlens_q
            &&& a.num_prefill_qo == plan.scalars.num_prefill_qo
            &&& a.d_prefill_kv_indptr == b.cu_seqlens_q
            &&& a.d_prefill_kv_indices == b.block_table
            &&& a.num_prefill_kv_indices == plan.scalars.num_prefill_kv_indices
            &&& a.d_prefill_kv_last_page_len == b.seqused_k
            &&& a.d_decode_kv_indptr == b.cu_seqlens_q
            &&& a.num_decode_seqs == plan.scalars.num_decode_seqs
            &&& a.d_decode_kv_indices == b.block_table
            &&& a.num_decode_kv_indices == plan.scalars.num_decode_kv_indices
            &&& a.d_decode_kv_last_page_len == b.seqused_k
            &&& a.attn_scale_bits == shape.attn_scale_bits
            &&& a.rms_norm_eps_bits == shape.rms_norm_eps_bits
            &&& a.num_pages == plan.scalars.num_pages
            &&& a.num_prefill_tokens == plan.scalars.num_prefill_tokens
            &&& a.dev_idx == plan.scalars.dev_idx
            &&& a.raw_stream == b.stream
        }),
{
}

/// A launch succeeds exactly if its code is 0, and a failed one reports the
/// code.
pub proof fn law_launch_reports_its_code(rc: i32, r: Result<(), KvmLaunchError>)
    requires
        is_launch_result(rc, r),
    ensures
        r is Ok <==> rc == 0,
        r matches Err(e) ==> e == KvmLaunchError::LaunchReturned(rc),
{
}

} // verus!
