use ferrite_forward::instruction::CanonicalParams;
use ferrite_forward::ids::{
    AttnDebugMode, AttnScale, BlockSize, BlocksPerChunk, HeadDim, MaxBlocksPerSeq, NumKvHeads,
    NumQHeads,
};
use ferrite_forward::kernel_constants::{AttentionPrefillPagedConstants, FunctionConstants};
use ferrite_forward::lowered::{
    ConstantValue, DispatchShape, KernelId, LoweredCommand, MetalDtype,
};
use ferrite_forward::pipelines::{kernel_label, PipelineLookupError, SpecializedPipelines};

fn tiny_llama() -> CanonicalParams {
    CanonicalParams {
        head_dim: 64,
        num_q_heads: 32,
        num_kv_heads: 4,
        rot_dim: 64,
        block_size: 16,
        max_blocks_per_seq: 128,
        blocks_per_chunk: 64,
        q_size: 2048,
        intermediate_size: 5632,
        attn_scale_bits: 0.125f32.to_bits(),
        rms_norm_eps_bits: 1e-5f32.to_bits(),
        norm_weight_offset_bits: 0,
        metal_dtype: MetalDtype::F16,
    }
}

/// The constants that a kernel reads for a bucket, without going through an
/// instruction.
fn constants_for(
    w: &CanonicalParams,
    kernel: KernelId,
    bucket_m: u32,
) -> Result<Vec<ConstantValue>, PipelineLookupError> {
    Ok(match kernel {
        KernelId::RmsNorm => vec![
            ConstantValue::uint(0, bucket_m),
            ConstantValue::uint(1, w.q_size as u32),
            ConstantValue::float(2, w.rms_norm_eps_bits),
        ],
        KernelId::FusedGateUpSiluMul if bucket_m == 1 => vec![
            ConstantValue::uint(3, bucket_m),
            ConstantValue::uint(4, w.intermediate_size as u32),
            ConstantValue::uint(5, w.q_size as u32),
        ],
        KernelId::FusedGateUpSiluMul => vec![
            ConstantValue::uint(6, bucket_m),
            ConstantValue::uint(7, w.intermediate_size as u32),
            ConstantValue::uint(8, w.q_size as u32),
        ],
        KernelId::AttentionViaCache => vec![
            ConstantValue::uint(0, w.head_dim),
            ConstantValue::uint(1, w.num_q_heads),
            ConstantValue::uint(2, w.num_kv_heads),
            ConstantValue::float(3, w.attn_scale_bits),
            ConstantValue::uint(4, w.block_size),
            ConstantValue::uint(5, w.max_blocks_per_seq),
        ],
        KernelId::Reshape => return Err(PipelineLookupError::MetadataOnly(KernelId::Reshape)),
        _ => return SpecializedPipelines.pipeline_for_command(&command(kernel)).map(|k| k.constants),
    })
}

fn command(kernel: KernelId) -> LoweredCommand {
    LoweredCommand {
        kernel,
        library: "lib",
        function: "fun",
        constants: vec![ConstantValue::uint(0, 7)],
        dispatch: DispatchShape::dispatch_1d(1, 1),
        bindings: vec![],
        gemm_dims: None,
    }
}

#[test]
fn rmsnorm_constants_are_well_formed() {
    let bag = constants_for(&tiny_llama(), KernelId::RmsNorm, 8).expect("rmsnorm bag");
    assert_eq!(bag.len(), 3);
    assert_eq!(bag[0], ConstantValue::uint(0, 8));
    assert_eq!(bag[1], ConstantValue::uint(1, 2048));
    assert_eq!(bag[2], ConstantValue::float(2, 1e-5f32.to_bits()));
}

#[test]
fn attention_via_cache_pulls_consts_from_canonical_params() {
    let bag = constants_for(&tiny_llama(), KernelId::AttentionViaCache, 1).expect("attn bag");
    assert_eq!(bag.len(), 6);
    assert_eq!(bag[0], ConstantValue::uint(0, 64));
    assert_eq!(bag[3], ConstantValue::float(3, 0.125f32.to_bits()));
    assert_eq!(bag[4], ConstantValue::uint(4, 16));
    assert_eq!(bag[5], ConstantValue::uint(5, 128));
}

#[test]
fn fused_silu_bag_has_no_eps() {
    let bag = constants_for(&tiny_llama(), KernelId::FusedGateUpSiluMul, 64).expect("silu bag");
    assert_eq!(bag.len(), 3);
    assert_eq!(bag[0], ConstantValue::uint(6, 64));
    assert_eq!(bag[1], ConstantValue::uint(7, 5632));
    assert_eq!(bag[2], ConstantValue::uint(8, 2048));
}

#[test]
fn fused_silu_decode_bag_uses_indices_3_4_5() {
    let bag =
        constants_for(&tiny_llama(), KernelId::FusedGateUpSiluMul, 1).expect("silu decode bag");
    assert_eq!(bag.len(), 3);
    assert_eq!(bag[0], ConstantValue::uint(3, 1));
    assert_eq!(bag[1], ConstantValue::uint(4, 5632));
    assert_eq!(bag[2], ConstantValue::uint(5, 2048));
}

#[test]
fn gemm_is_rejected_as_opaque() {
    let err = constants_for(&tiny_llama(), KernelId::Gemm, 1).unwrap_err();
    assert!(matches!(err, PipelineLookupError::OpaqueKernel(_)));
}

#[test]
fn reshape_is_rejected_as_metadata_only() {
    let err = constants_for(&tiny_llama(), KernelId::Reshape, 1).unwrap_err();
    assert!(matches!(err, PipelineLookupError::MetadataOnly(_)));
}

#[test]
fn debug_modes_are_appended() {
    let p = tiny_llama();
    let plain = AttentionPrefillPagedConstants {
        head_dim: HeadDim(p.head_dim),
        num_q_heads: NumQHeads(p.num_q_heads),
        num_kv_heads: NumKvHeads(p.num_kv_heads),
        attn_scale: AttnScale(p.attn_scale_bits),
        block_size: BlockSize(p.block_size),
        max_blocks: MaxBlocksPerSeq(p.max_blocks_per_seq),
        blocks_per_chunk: BlocksPerChunk(p.blocks_per_chunk),
        debug_mode: None,
    };
    let debug = AttentionPrefillPagedConstants { debug_mode: Some(AttnDebugMode(5)), ..plain };
    let mut values = plain.into_values();
    assert_eq!(values.len(), 7);
    values.push(ConstantValue::uint(99, 5));
    assert_eq!(debug.into_values(), values);
}

#[test]
fn keys_carry_the_command() {
    let key = SpecializedPipelines.pipeline_for_command(&command(KernelId::Add)).expect("key");
    assert_eq!(key.library, "lib");
    assert_eq!(key.function, "fun");
    assert_eq!(key.constants, vec![ConstantValue::uint(0, 7)]);
}

#[test]
fn dense_products_have_their_own_key() {
    let key = SpecializedPipelines.pipeline_for_gemm_bf16(3, 4, 5);
    assert_eq!(key.library, "gemm");
    assert_eq!(key.function, "gemm_bf16_specialized");
    assert_eq!(
        key.constants,
        vec![ConstantValue::uint(0, 3), ConstantValue::uint(1, 4), ConstantValue::uint(2, 5)]
    );
}

#[test]
fn lookup_errors_have_texts() {
    assert_eq!(
        PipelineLookupError::OpaqueKernel(KernelId::Gemm).message(),
        "specialized pipeline lookup: Gemm is opaque (route through MPS GEMM wrapper)"
    );
    assert_eq!(
        PipelineLookupError::MetadataOnly(KernelId::Reshape).message(),
        "specialized pipeline lookup: Reshape is a metadata-only op (lowering should drop it)"
    );
    assert_eq!(
        PipelineLookupError::DtypeNotYetWired(KernelId::Embed, MetalDtype::Int4).message(),
        "specialized pipeline lookup: kernel Embed dtype Int4 not yet wired"
    );
    assert_eq!(
        PipelineLookupError::Build("no library".to_string()).message(),
        "specialized pipeline build: no library"
    );
    assert_eq!(kernel_label(KernelId::MoeWeightedSum), "MoeWeightedSum");
}
