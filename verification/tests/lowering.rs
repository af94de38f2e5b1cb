use ferrite_forward::commands::{LowerSite, THREADS_PER_GROUP};
use ferrite_forward::ids::{BucketM, ConstSlot, LayerId};
use ferrite_forward::instruction::{
    CanonicalParams, DequantDtype, Instruction, KernelChoice, KernelQuery, QmmTChoice,
    QmmTKernel, QmvChoice, QmvKernel, ScaleDtype,
};
use ferrite_forward::lowered::{
    gate_matches, Binding, ConstantValue, DispatchShape, GemmDims, KernelId, LoweredCommand,
    LoweringError, MScaleAxis, MScaling, MetalDtype, RuntimeBindingKind, RuntimeGate,
    WeightBundleKind, WeightLocator, WeightTensor,
};
use ferrite_forward::lowering_check::{check_tape, is_lowerable, TapeCheck};
use ferrite_forward::lowering::{kernel_query, lower, lower_one, lower_pair, slice_query, TapeSite};

const INTERMEDIATE_SIZE: usize = 8192;

fn test_params() -> CanonicalParams {
    CanonicalParams {
        head_dim: 64,
        num_q_heads: 32,
        num_kv_heads: 4,
        rot_dim: 64,
        block_size: 16,
        max_blocks_per_seq: 128,
        blocks_per_chunk: 64,
        q_size: 2048,
        intermediate_size: INTERMEDIATE_SIZE,
        attn_scale_bits: 0.125f32.to_bits(),
        rms_norm_eps_bits: 1e-5f32.to_bits(),
        norm_weight_offset_bits: 0.0f32.to_bits(),
        metal_dtype: MetalDtype::Bf16,
    }
}

fn site(index: usize, bucket_m: u32, layer_offset: u32) -> LowerSite {
    LowerSite {
        params: test_params(),
        steel_attention: false,
        bucket_m,
        tape_index: 3,
        index,
        layer_offset,
    }
}

fn tape_site(bucket_m: u32) -> TapeSite {
    TapeSite { params: test_params(), steel_attention: false, bucket_m, tape_index: 3 }
}

fn leak(s: String) -> &'static str {
    Box::leak(s.into_boxed_str())
}

fn act(d: DequantDtype) -> &'static str {
    match d {
        DequantDtype::F16 => "f16",
        DequantDtype::Bf16 => "bf16",
    }
}

fn scale(d: ScaleDtype) -> &'static str {
    match d {
        ScaleDtype::F16 => "f16",
        ScaleDtype::Bf16 => "bf16",
    }
}

/// A picker for the shapes used here.
fn pick(query: KernelQuery) -> KernelChoice {
    match query {
        KernelQuery::Qmv { m, n, k, group_size, bits, dtype, scale_dtype } => {
            let (kernel, name) = if k == 64 || k == 128 {
                (QmvKernel::Quad { d: k }, "quad")
            } else if n % 8 == 0 && k % 512 == 0 {
                (QmvKernel::Fast, "fast")
            } else {
                (QmvKernel::Generic, "generic")
            };
            KernelChoice::Qmv(QmvChoice {
                kernel,
                threadgroups: (m, (n + 7) / 8, 1),
                threads_per_threadgroup: (32, 2, 1),
                function: leak(format!(
                    "affine_qmv_{}_{}_s_{}_gs_{}_b_{}_batch_0",
                    name,
                    act(dtype),
                    scale(scale_dtype),
                    group_size,
                    bits
                )),
            })
        }
        KernelQuery::QmmT { m, n, k, group_size, bits, dtype, scale_dtype } => {
            let n_tiles = (n + 31) / 32;
            let m_tiles = (m + 31) / 32;
            let mut split_k = if n_tiles * m_tiles >= 512 { 1 } else { 512 / (n_tiles * m_tiles) };
            while split_k > 1 && k % (split_k * group_size) != 0 {
                split_k -= 1;
            }
            let stem = format!(
                "{}_s_{}_gs_{}_b_{}",
                act(dtype),
                scale(scale_dtype),
                group_size,
                bits
            );
            if split_k > 1 {
                KernelChoice::QmmT(QmmTChoice {
                    kernel: QmmTKernel::SplitK { split_k, k_partition_size: k / split_k },
                    threadgroups: (n_tiles, m_tiles, split_k),
                    threads_per_threadgroup: (32, 2, 2),
                    function_aligned: leak(format!("affine_qmm_t_splitk_{}_alN_true", stem)),
                    function_unaligned: leak(format!("affine_qmm_t_splitk_{}_alN_false", stem)),
                    reduce_function: leak(format!("splitk_reduce_sum_{}", act(dtype))),
                })
            } else {
                KernelChoice::QmmT(QmmTChoice {
                    kernel: QmmTKernel::Standard,
                    threadgroups: (n_tiles, m_tiles, 1),
                    threads_per_threadgroup: (32, 2, 2),
                    function_aligned: leak(format!("affine_qmm_t_{}_alN_true_batch_0", stem)),
                    function_unaligned: leak(format!("affine_qmm_t_{}_alN_false_batch_0", stem)),
                    reduce_function: leak(format!("splitk_reduce_sum_{}", act(dtype))),
                })
            }
        }
    }
}

fn lower_picked(s: LowerSite, inst: &Instruction, scratch: &mut u32) -> Vec<LoweredCommand> {
    let choice = kernel_query(s, inst).map(pick);
    lower_one(s, inst, choice, scratch).expect("lower")
}

fn choices(site: TapeSite, instructions: &[Instruction]) -> Vec<Option<KernelChoice>> {
    instructions
        .iter()
        .enumerate()
        .map(|(i, inst)| kernel_query(site.at(i, 0), inst).map(pick))
        .collect()
}

#[test]
fn affine_qmm_lowers_to_qmv_fast_at_decode_bucket() {
    let inst = Instruction::AffineQmm(7, 11, 3, 2048, 2048, 64, 4, 18);
    let mut scratch = 0u32;
    let cmds = lower_picked(site(0, 1, 5), &inst, &mut scratch);
    assert_eq!(cmds.len(), 1, "qmv branch emits exactly one command");
    assert_eq!(scratch, 0, "qmv branch never allocates splitk scratch");
    let cmd = &cmds[0];
    assert_eq!(cmd.kernel, KernelId::AffineQmvFast);
    assert_eq!(cmd.library, "quantized_qmv");
    assert_eq!(cmd.function, "affine_qmv_fast_bf16_s_f16_gs_64_b_4_batch_0");
    assert_eq!(cmd.constants, vec![ConstantValue::sint(0, 2048), ConstantValue::sint(1, 2048)]);
    assert_eq!(cmd.dispatch.threadgroups, (1, 2048 / 8, 1));
    assert_eq!(cmd.dispatch.threads_per_threadgroup, (32, 2, 1));
    assert_eq!(cmd.bindings.len(), 5);
    match &cmd.bindings[0] {
        Binding::Weight { which, layer, binding_index, .. } => {
            assert_eq!(*which, WeightTensor::Weight);
            assert_eq!(layer.0, 8);
            assert_eq!(*binding_index, 0);
        }
        _ => panic!("bindings[0]: expected Weight"),
    }
    match &cmd.bindings[1] {
        Binding::Weight { which, .. } => assert_eq!(*which, WeightTensor::AffineScales),
        _ => panic!("bindings[1]: expected AffineScales Weight"),
    }
    match &cmd.bindings[2] {
        Binding::Weight { which, .. } => assert_eq!(*which, WeightTensor::AffineBiases),
        _ => panic!("bindings[2]: expected AffineBiases Weight"),
    }
    match &cmd.bindings[3] {
        Binding::ArenaSlot { slot, binding_index } => {
            assert_eq!(*slot, 7);
            assert_eq!(*binding_index, 3);
        }
        _ => panic!("bindings[3]: expected in_slot ArenaSlot"),
    }
    match &cmd.bindings[4] {
        Binding::ArenaSlot { slot, binding_index } => {
            assert_eq!(*slot, 11);
            assert_eq!(*binding_index, 4);
        }
        _ => panic!("bindings[4]: expected out_slot ArenaSlot"),
    }
    assert!(cmd.gemm_dims.is_none());
}

#[test]
fn affine_qmm_lowers_to_qmm_t_standard_when_grid_full() {
    let inst = Instruction::AffineQmm(7, 11, 3, 2048, 2048, 64, 4, 18);
    let mut scratch = 0u32;
    let cmds = lower_picked(site(0, 512, 0), &inst, &mut scratch);
    assert_eq!(cmds.len(), 1, "Standard path emits exactly one command");
    assert_eq!(scratch, 0, "Standard path never allocates splitk scratch");
    let cmd = &cmds[0];
    assert_eq!(cmd.kernel, KernelId::AffineQmmT);
    assert_eq!(cmd.library, "quantized_qmm");
    assert_eq!(cmd.function, "affine_qmm_t_bf16_s_f16_gs_64_b_4_alN_true_batch_0");
    assert_eq!(
        cmd.constants,
        vec![
            ConstantValue::sint(0, 2048),
            ConstantValue::sint(1, 2048),
            ConstantValue::sint(2, 512),
        ],
    );
    assert_eq!(cmd.dispatch.threadgroups, (2048 / 32, 512 / 32, 1));
    assert_eq!(cmd.dispatch.threads_per_threadgroup, (32, 2, 2));
    assert_eq!(cmd.bindings.len(), 5);
    assert!(cmd.gemm_dims.is_none());
}

#[test]
fn affine_qmm_lowers_to_qmm_t_splitk_pair_at_sparse_prefill() {
    let inst = Instruction::AffineQmm(7, 11, 3, 2048, 2048, 64, 4, 18);
    let mut scratch = 0u32;
    let cmds = lower_picked(site(0, 64, 0), &inst, &mut scratch);
    assert_eq!(cmds.len(), 2, "SplitK pair emits two commands");
    assert_eq!(scratch, 4 * 64 * 2048 * 2);

    let qmm_t = &cmds[0];
    assert_eq!(qmm_t.kernel, KernelId::AffineQmmTSplitK);
    assert_eq!(qmm_t.library, "quantized_qmm");
    assert_eq!(qmm_t.function, "affine_qmm_t_splitk_bf16_s_f16_gs_64_b_4_alN_true");
    assert_eq!(qmm_t.dispatch.threadgroups, (64, 2, 4));
    assert_eq!(qmm_t.dispatch.threads_per_threadgroup, (32, 2, 2));
    assert_eq!(qmm_t.bindings.len(), 5);
    match &qmm_t.bindings[4] {
        Binding::Scratch { binding_index } => assert_eq!(*binding_index, 4),
        _ => panic!("qmm_t bindings[4]: expected Scratch"),
    }

    let reduce = &cmds[1];
    assert_eq!(reduce.kernel, KernelId::SplitKReduceSum);
    assert_eq!(reduce.library, "quantized_splitk_reduce");
    assert_eq!(reduce.function, "splitk_reduce_sum_bf16");
    assert_eq!(
        reduce.constants,
        vec![
            ConstantValue::uint(0, 64),
            ConstantValue::uint(1, 2048),
            ConstantValue::uint(2, 4),
        ],
    );
    assert_eq!(reduce.bindings.len(), 2);
    match &reduce.bindings[0] {
        Binding::ArenaSlot { slot, binding_index } => {
            assert_eq!(*slot, 11);
            assert_eq!(*binding_index, 0);
        }
        _ => panic!("reduce bindings[0]: expected out ArenaSlot"),
    }
    match &reduce.bindings[1] {
        Binding::Scratch { binding_index } => assert_eq!(*binding_index, 1),
        _ => panic!("reduce bindings[1]: expected Scratch"),
    }
}

#[test]
fn silu_mul_lowers_with_three_arena_bindings_and_n_constant() {
    let inst = Instruction::SiluMul(5, 6, 7);
    let mut scratch = 0u32;
    let cmds = lower_picked(site(0, 64, 0), &inst, &mut scratch);
    assert_eq!(cmds.len(), 1, "SiluMul emits exactly one command");
    let cmd = &cmds[0];
    assert_eq!(cmd.kernel, KernelId::SiluMul);
    assert_eq!(cmd.library, "silu_mul");
    assert_eq!(cmd.function, "silu_mul_bf16");
    let n_expected = 64 * (INTERMEDIATE_SIZE as u32);
    assert_eq!(cmd.constants, vec![ConstantValue::uint(0, n_expected)]);
    assert_eq!(cmd.bindings.len(), 3);
    match &cmd.bindings[0] {
        Binding::ArenaSlot { slot, binding_index } => {
            assert_eq!(*slot, 7);
            assert_eq!(*binding_index, 0);
        }
        _ => panic!("bindings[0]: expected out_slot ArenaSlot"),
    }
    match &cmd.bindings[1] {
        Binding::ArenaSlot { slot, binding_index } => {
            assert_eq!(*slot, 5);
            assert_eq!(*binding_index, 1);
        }
        _ => panic!("bindings[1]: expected gate_slot ArenaSlot"),
    }
    match &cmd.bindings[2] {
        Binding::ArenaSlot { slot, binding_index } => {
            assert_eq!(*slot, 6);
            assert_eq!(*binding_index, 2);
        }
        _ => panic!("bindings[2]: expected up_slot ArenaSlot"),
    }
    assert!(cmd.gemm_dims.is_none());
}

#[test]
fn affine_qmm_qmm_t_unaligned_n_picks_unaligned_kernel() {
    let inst = Instruction::AffineQmm(7, 11, 0, 2050, 2048, 64, 4, 18);
    let mut scratch = 0u32;
    let cmds = lower_picked(site(0, 512, 0), &inst, &mut scratch);
    assert_eq!(cmds.len(), 1);
    let cmd = &cmds[0];
    assert_eq!(cmd.function, "affine_qmm_t_bf16_s_f16_gs_64_b_4_alN_false_batch_0");
    assert_eq!(cmd.dispatch.threadgroups, (65, 512 / 32, 1));
}

#[test]
fn affine_embed_lowers_to_single_command_with_2d_dispatch() {
    let inst = Instruction::AffineEmbed(0, 64, 4);
    let bucket_m = 32u32;
    let mut scratch = 0u32;
    let cmds = lower_picked(site(0, bucket_m, 5), &inst, &mut scratch);
    assert_eq!(cmds.len(), 1, "AffineEmbed always emits a single command");
    assert_eq!(scratch, 0, "AffineEmbed never allocates splitk scratch");
    let cmd = &cmds[0];
    assert_eq!(cmd.kernel, KernelId::AffineEmbed);
    assert_eq!(cmd.library, "quantized_dequantize");
    assert_eq!(cmd.function, "affine_embed_bf16_s_f16_gs_64_b_4");
    assert_eq!(cmd.constants, vec![ConstantValue::uint(0, 2048)]);
    assert_eq!(cmd.dispatch.threadgroups, (4, bucket_m, 1));
    assert_eq!(cmd.dispatch.threads_per_threadgroup, (THREADS_PER_GROUP, 1, 1));
    assert_eq!(cmd.bindings.len(), 5);
    match &cmd.bindings[0] {
        Binding::Weight {
            kind: WeightBundleKind::AffineQuantEmbedding,
            which,
            layer,
            locator: _,
            binding_index,
        } => {
            assert_eq!(*which, WeightTensor::Weight);
            assert_eq!(layer.0, 0);
            assert_eq!(*binding_index, 0);
        }
        _ => panic!("bindings[0]: expected AffineQuantEmbedding Weight"),
    }
    match &cmd.bindings[1] {
        Binding::Weight { which, .. } => assert_eq!(*which, WeightTensor::AffineScales),
        _ => panic!("bindings[1]: expected AffineScales"),
    }
    match &cmd.bindings[2] {
        Binding::Weight { which, .. } => assert_eq!(*which, WeightTensor::AffineBiases),
        _ => panic!("bindings[2]: expected AffineBiases"),
    }
    match &cmd.bindings[3] {
        Binding::Runtime { kind, binding_index } => {
            assert_eq!(*kind, RuntimeBindingKind::InputIds);
            assert_eq!(*binding_index, 3);
        }
        _ => panic!("bindings[3]: expected InputIds runtime"),
    }
    match &cmd.bindings[4] {
        Binding::ArenaSlot { slot, binding_index } => {
            assert_eq!(*slot, 0);
            assert_eq!(*binding_index, 4);
        }
        _ => panic!("bindings[4]: expected out_slot ArenaSlot"),
    }
    assert!(cmd.gemm_dims.is_none());
}

fn index_of(b: &Binding) -> u8 {
    match *b {
        Binding::ArenaSlot { binding_index, .. } => binding_index,
        Binding::Weight { binding_index, .. } => binding_index,
        Binding::Runtime { binding_index, .. } => binding_index,
        Binding::Scratch { binding_index } => binding_index,
        Binding::Inline { binding_index, .. } => binding_index,
        Binding::MoeScratch { binding_index, .. } => binding_index,
        Binding::PersistentBarrierCounter { binding_index } => binding_index,
    }
}

/// One instruction of every kind that lowers, with arguments that differ from
/// each other.
fn every_instruction() -> Vec<Instruction> {
    vec![
        Instruction::Embed(1),
        Instruction::RmsNorm(2, 3, 4),
        Instruction::FusedAddRmsNorm(5, 6, 7),
        Instruction::Gemm(1, 2, 3, 40, 50),
        Instruction::AffineQmm(1, 2, 3, 2048, 2048, 64, 4, 18),
        Instruction::SiluMul(1, 2, 3),
        Instruction::AffineEmbed(1, 32, 4),
        Instruction::FusedGateUpSiluMul(1, 2, 3),
        Instruction::RopeAppend(1, 2, 3, 4, 5, 6, 7, false),
        Instruction::FusedQkvRopeCache(1, 2, 3, false, false),
        Instruction::SynthPreAttn(1, 2, 3, 4, 64, 4, "synth_a", true),
        Instruction::SynthPreAttn(1, 2, 3, 4, 64, 4, "synth_b", false),
        Instruction::SynthMlpPreDown(1, 2, 3, 4, 64, 4, "synth_c"),
        Instruction::SynthGateUpSiluMul(1, 2, 3, 64, 4, "synth_d"),
        Instruction::AttentionViaCache(1, 2, 3, true),
        Instruction::AttentionPrefillPaged(1, 2, 3, false),
        Instruction::Add(1, 2),
        Instruction::ScalarMul(1, 2, 2.0f32.to_bits()),
        Instruction::MetalBiasAdd(1, 2, 3, 100, true),
    ]
}

#[test]
fn arguments_are_bound_in_order() {
    for bucket_m in [1u32, 8, 64, 512] {
        for inst in every_instruction() {
            let mut scratch = 0u32;
            for cmd in lower_picked(site(9, bucket_m, 2), &inst, &mut scratch) {
                for (i, b) in cmd.bindings.iter().enumerate() {
                    assert_eq!(index_of(b) as usize, i, "{:?}", inst);
                    if let Binding::Weight { locator, .. } = b {
                        assert_eq!(locator.bucket, 3);
                        assert_eq!(locator.op_idx, 9);
                    }
                }
            }
        }
    }
}

#[test]
fn embed_command_is_exact() {
    let mut scratch = 0u32;
    let cmds = lower_picked(site(4, 300, 1), &Instruction::Embed(12), &mut scratch);
    assert_eq!(
        cmds,
        vec![LoweredCommand {
            kernel: KernelId::Embed,
            library: "embed",
            function: "embed_bf16_specialized",
            constants: vec![ConstantValue::uint(0, 300), ConstantValue::uint(1, 2048)],
            dispatch: DispatchShape {
                threadgroups: (2, 1, 1),
                threads_per_threadgroup: (256, 1, 1),
                m_scaling: Some(MScaling { axis: MScaleAxis::X, bucket_m: BucketM(300) }),
            },
            bindings: vec![
                Binding::ArenaSlot { slot: 12, binding_index: 0 },
                Binding::Weight {
                    kind: WeightBundleKind::Embedding,
                    which: WeightTensor::Weight,
                    layer: LayerId(0),
                    locator: WeightLocator { bucket: 3, op_idx: 4, slot: 0 },
                    binding_index: 1,
                },
                Binding::Runtime { kind: RuntimeBindingKind::InputIds, binding_index: 2 },
            ],
            gemm_dims: None,
        }]
    );
}

#[test]
fn rms_norm_reads_its_layer_and_carries_the_gain_offset() {
    let mut scratch = 0u32;
    let cmds = lower_picked(site(4, 8, 10), &Instruction::RmsNorm(1, 2, 5), &mut scratch);
    assert_eq!(cmds[0].function, "rmsnorm_bf16_s_f16_specialized");
    assert_eq!(cmds[0].dispatch.threadgroups, (8, 1, 1));
    assert_eq!(
        cmds[0].constants,
        vec![
            ConstantValue::uint(0, 8),
            ConstantValue::uint(1, 2048),
            ConstantValue::float(2, 1e-5f32.to_bits()),
            ConstantValue::float(3, 0.0f32.to_bits()),
        ]
    );
    assert_eq!(cmds[0].bindings[0], Binding::ArenaSlot { slot: 2, binding_index: 0 });
    assert_eq!(cmds[0].bindings[1], Binding::ArenaSlot { slot: 1, binding_index: 1 });
    assert!(matches!(cmds[0].bindings[2], Binding::Weight { layer: LayerId(15), .. }));
}

#[test]
fn gemm_carries_its_dimensions() {
    let mut scratch = 0u32;
    let cmds = lower_picked(site(0, 33, 0), &Instruction::Gemm(1, 2, 3, 100, 50), &mut scratch);
    assert_eq!(cmds[0].library, "");
    assert_eq!(cmds[0].function, "");
    assert_eq!(cmds[0].constants, vec![]);
    assert_eq!(cmds[0].dispatch.threadgroups, (3, 7, 1));
    assert_eq!(cmds[0].gemm_dims, Some(GemmDims { m: 33, n: 100, k: 50 }));
}

#[test]
fn gate_up_splits_on_one_token() {
    let mut scratch = 0u32;
    let inst = Instruction::FusedGateUpSiluMul(1, 2, 3);
    let one = lower_picked(site(0, 1, 0), &inst, &mut scratch);
    assert_eq!(one[0].function, "fused_gate_up_silu_mul_decode_bf16_specialized");
    assert_eq!(one[0].dispatch.threadgroups, (2048, 1, 1));
    assert_eq!(one[0].dispatch.threads_per_threadgroup, (256, 1, 1));
    assert_eq!(one[0].dispatch.m_scaling, None);
    assert_eq!(one[0].constants[0], ConstantValue::uint(3, 1));
    let many = lower_picked(site(0, 33, 0), &inst, &mut scratch);
    assert_eq!(many[0].function, "fused_gate_up_silu_mul_gemm_steel_bf16_specialized");
    assert_eq!(many[0].dispatch.threadgroups, (256, 2, 1));
    assert_eq!(many[0].dispatch.threads_per_threadgroup, (128, 1, 1));
    assert_eq!(many[0].constants[0], ConstantValue::uint(6, 33));
}

#[test]
fn synth_pre_attn_adds_three_biases() {
    let mut scratch = 0u32;
    let with = lower_picked(
        site(0, 2, 1),
        &Instruction::SynthPreAttn(1, 2, 3, 4, 64, 4, "sym", true),
        &mut scratch,
    );
    let without = lower_picked(
        site(0, 2, 1),
        &Instruction::SynthPreAttn(1, 2, 3, 4, 64, 4, "sym", false),
        &mut scratch,
    );
    assert_eq!(with[0].bindings.len(), 21);
    assert_eq!(without[0].bindings.len(), 18);
    assert_eq!(with[0].bindings[..18], without[0].bindings[..]);
    assert_eq!(with[0].library, "sym");
    assert_eq!(with[0].function, "sym");
    assert_eq!(with[0].dispatch.threadgroups, (2, 40, 1));
    assert_eq!(with[0].dispatch.threads_per_threadgroup, (512, 1, 1));
    assert_eq!(
        with[0].bindings[20],
        Binding::Weight {
            kind: WeightBundleKind::LinearLayer,
            which: WeightTensor::AffineLinearBias,
            layer: LayerId(5),
            locator: WeightLocator { bucket: 3, op_idx: 0, slot: 2 },
            binding_index: 20,
        }
    );
}

#[test]
fn synth_mlp_pre_down_tiles_the_intermediate_size() {
    let mut scratch = 0u32;
    let cmds = lower_picked(
        site(0, 4, 0),
        &Instruction::SynthMlpPreDown(1, 2, 3, 4, 64, 4, "sym"),
        &mut scratch,
    );
    assert_eq!(cmds[0].dispatch.threadgroups, (4, 8192 / 64, 1));
    assert_eq!(cmds[0].dispatch.threads_per_threadgroup, (512, 1, 1));
    assert_eq!(cmds[0].bindings.len(), 10);
}

#[test]
fn prefill_attention_has_two_variants() {
    let mut scratch = 0u32;
    let inst = Instruction::AttentionPrefillPaged(1, 2, 3, false);
    let plain = lower_picked(site(0, 70, 0), &inst, &mut scratch);
    assert_eq!(plain[0].library, "attention");
    assert_eq!(plain[0].function, "attention_prefill_sdpa_v2_paged_bf16_specialized");
    assert_eq!(plain[0].dispatch.threadgroups, (32, 70, 1));
    assert_eq!(plain[0].constants.len(), 7);
    let mut s = site(0, 70, 0);
    s.steel_attention = true;
    let steel = lower_picked(s, &inst, &mut scratch);
    assert_eq!(steel[0].library, "attention_steel_paged");
    assert_eq!(steel[0].function, "attention_steel_paged_bf16_bq32_bk16_bd128_wm4_wn1_bs16");
    assert_eq!(steel[0].dispatch.threadgroups, (3, 32, 1));
    assert_eq!(steel[0].dispatch.threads_per_threadgroup, (128, 1, 1));
    assert_eq!(
        steel[0].constants[7],
        ConstantValue::Uint { slot: ConstSlot(99), value: 0 }
    );
    s.params.metal_dtype = MetalDtype::F16;
    let half = lower_picked(s, &inst, &mut scratch);
    assert_eq!(half[0].function, "attention_steel_paged_f16_bq32_bk16_bd128_wm4_wn1_bs16");
}

#[test]
fn decode_attention_carries_seven_constants() {
    let mut scratch = 0u32;
    let inst = Instruction::AttentionViaCache(1, 2, 3, true);
    let cmds = lower_picked(site(4, 8, 5), &inst, &mut scratch);
    assert_eq!(cmds.len(), 1);
    assert_eq!(cmds[0].function, "attention_via_cache_v2_bf16_specialized");
    assert_eq!(
        cmds[0].constants,
        vec![
            ConstantValue::uint(0, 64),
            ConstantValue::uint(1, 32),
            ConstantValue::uint(2, 4),
            ConstantValue::float(3, 0.125f32.to_bits()),
            ConstantValue::uint(4, 16),
            ConstantValue::uint(5, 128),
            ConstantValue::uint(6, 64),
        ]
    );
}

#[test]
fn gates_follow_sequences_and_speculation() {
    let single = Some(RuntimeGate::OnlyIfSingleSeq);
    let multi = Some(RuntimeGate::OnlyIfMultiSeq);
    for (seqs, spec, slice, full) in [
        (1, false, true, false),
        (2, false, false, true),
        (1, true, false, true),
        (3, true, false, true),
    ] {
        assert!(gate_matches(None, seqs, spec));
        assert_eq!(gate_matches(single, seqs, spec), slice);
        assert_eq!(gate_matches(multi, seqs, spec), full);
    }
}

#[test]
fn bias_add_picks_its_tensor() {
    let mut scratch = 0u32;
    let affine =
        lower_picked(site(0, 10, 0), &Instruction::MetalBiasAdd(1, 2, 3, 100, true), &mut scratch);
    let dense =
        lower_picked(site(0, 10, 0), &Instruction::MetalBiasAdd(1, 2, 3, 100, false), &mut scratch);
    assert!(matches!(
        affine[0].bindings[1],
        Binding::Weight { which: WeightTensor::AffineLinearBias, .. }
    ));
    assert!(matches!(dense[0].bindings[1], Binding::Weight { which: WeightTensor::Bias, .. }));
    assert_eq!(affine[0].dispatch.threadgroups, (4, 1, 1));
}

#[test]
fn metadata_only_tapes_are_empty() {
    let tape = [
        Instruction::Reshape(1, 2, 3, 4, 5, 6),
        Instruction::Alias(1, 2),
        Instruction::Free(1),
    ];
    let out = lower(tape_site(8), &tape, &[], &[false, false, false], 5).expect("lower");
    assert_eq!(out.commands.len(), 0);
    assert_eq!(out.barrier_before.len(), 0);
    assert_eq!(out.runtime_gate.len(), 0);
    assert_eq!(out.splitk_scratch_bytes, 0);
    assert_eq!(out.num_arena_slots, 5);
    assert_eq!(out.bucket_m, 8);
}

fn layer_of(cmd: &LoweredCommand) -> u32 {
    for b in &cmd.bindings {
        if let Binding::Weight { layer, .. } = b {
            return layer.0;
        }
    }
    panic!("no weight")
}

#[test]
fn loops_unroll_with_rising_layers() {
    let tape = [
        Instruction::Embed(0),
        Instruction::Loop(3, 2),
        Instruction::RmsNorm(0, 1, 0),
        Instruction::FusedAddRmsNorm(1, 0, 10),
        Instruction::Add(0, 1),
    ];
    let barriers = [true, true, false, true];
    let out = lower(tape_site(8), &tape, &[], &barriers, 5).expect("lower");
    assert_eq!(out.commands.len(), 8);
    assert_eq!(
        out.commands[1..7].iter().map(layer_of).collect::<Vec<u32>>(),
        vec![0, 10, 1, 11, 2, 12]
    );
    // The flags of the body repeat; the last instruction has none given.
    assert_eq!(out.barrier_before, vec![true, false, true, false, true, false, true, true]);
    for c in &out.commands[1..7] {
        for b in &c.bindings {
            if let Binding::Weight { locator, .. } = b {
                assert!(locator.op_idx == 2 || locator.op_idx == 3);
            }
        }
    }
}

/// A binding of iteration 0 as iteration `by` has it.
fn moved(b: &Binding, by: u32) -> Binding {
    let mut b = *b;
    match &mut b {
        Binding::Weight {
            kind: WeightBundleKind::Embedding | WeightBundleKind::AffineQuantEmbedding,
            ..
        } => {}
        Binding::Weight { layer, .. }
        | Binding::Runtime { kind: RuntimeBindingKind::KvCacheK { layer }, .. }
        | Binding::Runtime { kind: RuntimeBindingKind::KvCacheV { layer }, .. } => {
            layer.0 += by;
        }
        _ => {}
    }
    b
}

#[test]
fn iterations_differ_in_their_layers_only() {
    for inst in every_instruction() {
        let mut scratch: u32 = 0;
        let first = lower_picked(site(5, 64, 0), &inst, &mut scratch);
        let later = lower_picked(site(5, 64, 3), &inst, &mut scratch);
        assert_eq!(first.len(), later.len());
        for (a, b) in first.iter().zip(&later) {
            assert_eq!(a.kernel, b.kernel);
            assert_eq!(a.function, b.function);
            assert_eq!(a.constants, b.constants);
            assert_eq!(a.dispatch, b.dispatch);
            let bindings: Vec<Binding> = a.bindings.iter().map(|x| moved(x, 3)).collect();
            assert_eq!(bindings, b.bindings);
        }
    }
}

#[test]
fn malformed_loops_are_refused() {
    let tape = [Instruction::Embed(0), Instruction::Loop(3, 2), Instruction::Embed(0)];
    let err = lower(tape_site(8), &tape, &[], &[], 5).unwrap_err();
    assert_eq!(
        err,
        LoweringError::MalformedLoop { index: 1, count: 3, body_len: 2, remaining: 1 }
    );
    assert_eq!(
        err.message(),
        "lowering: malformed Loop(3, 2) at tape index 1 — body extends past tape end (only 1 \
         instructions remain)"
    );
}

#[test]
fn unsupported_instructions_are_named() {
    let tape = [Instruction::Embed(0), Instruction::Loop(2, 1), Instruction::Other("Mystery")];
    let err = lower(tape_site(8), &tape, &[], &[], 5).unwrap_err();
    assert_eq!(err, LoweringError::UnsupportedVariant { index: 2, variant_type: "Mystery" });
    assert!(err.message().starts_with(
        "lowering: unsupported instruction variant `Mystery` at tape index 2 ("
    ));
}

#[test]
fn an_error_hides_what_follows() {
    // The contiguous prefill has no lowering, but the error comes first.
    let tape = [
        Instruction::Other("First"),
        Instruction::AttentionPrefillContiguous(0, 0, 0, 0, false),
    ];
    let err = lower(tape_site(8), &tape, &[], &[], 5).unwrap_err();
    assert_eq!(err, LoweringError::UnsupportedVariant { index: 0, variant_type: "First" });
}

#[test]
fn split_k_pairs_share_the_largest_scratch() {
    let tape = [
        Instruction::AffineQmm(7, 11, 3, 2048, 2048, 64, 4, 18),
        Instruction::AffineQmm(7, 11, 3, 1024, 2048, 64, 4, 18),
    ];
    let t = tape_site(64);
    let out = lower(t, &tape, &choices(t, &tape), &[false, false], 5).expect("lower");
    assert_eq!(out.commands.len(), 4);
    assert_eq!(out.barrier_before, vec![false, true, false, true]);
    let mut a = 0u32;
    let mut b = 0u32;
    lower_picked(t.at(0, 0), &tape[0], &mut a);
    lower_picked(t.at(1, 0), &tape[1], &mut b);
    assert_eq!(out.splitk_scratch_bytes, a.max(b));
    assert!(a > 0 && b > 0);
}

#[test]
fn scratch_saturates() {
    let inst = Instruction::AffineQmm(7, 11, 3, 0x8000_0000, 2048, 64, 4, 0);
    let choice = KernelChoice::QmmT(QmmTChoice {
        kernel: QmmTKernel::SplitK { split_k: 4, k_partition_size: 512 },
        threadgroups: (1, 1, 4),
        threads_per_threadgroup: (32, 2, 2),
        function_aligned: "a",
        function_unaligned: "u",
        reduce_function: "r",
    });
    let mut scratch = 7u32;
    let cmds = lower_one(site(0, 64, 0), &inst, Some(choice), &mut scratch).expect("lower");
    assert_eq!(scratch, u32::MAX);
    assert_eq!(cmds[0].constants[1], ConstantValue::sint(1, i32::MIN));
    assert_eq!(cmds[1].dispatch.threadgroups, (16777216, 1, 1));
}

#[test]
fn nax_kernels_align_to_sixty_four() {
    let choice = |n: u32| {
        let inst = Instruction::AffineQmm(7, 11, 3, n, 2048, 64, 4, 0);
        let c = KernelChoice::QmmT(QmmTChoice {
            kernel: QmmTKernel::Nax,
            threadgroups: (1, 2, 1),
            threads_per_threadgroup: (32, 2, 2),
            function_aligned: "a",
            function_unaligned: "u",
            reduce_function: "r",
        });
        let mut scratch = 0u32;
        lower_one(site(0, 64, 0), &inst, Some(c), &mut scratch).expect("lower").remove(0)
    };
    assert_eq!(choice(64).kernel, KernelId::AffineQmmTNax);
    assert_eq!(choice(64).library, "quantized_qmm_nax");
    assert_eq!(choice(64).function, "a");
    assert_eq!(choice(96).function, "u");
}

#[test]
fn pairs_concatenate_without_a_slice() {
    let backbone = [Instruction::Embed(0), Instruction::RmsNorm(0, 1, 2)];
    let lm_head = [Instruction::AffineQmm(1, 2, 0, 2048, 2048, 64, 4, 18)];
    let t = tape_site(512);
    let head = TapeSite { tape_index: 4, ..t };
    let out = lower_pair(
        t,
        &backbone,
        &lm_head,
        &[],
        &choices(head, &lm_head),
        &[true, false],
        &[false],
        9,
        4,
        None,
    )
    .expect("lower");
    assert_eq!(out.commands.len(), 3);
    assert_eq!(out.barrier_before, vec![true, false, false]);
    assert_eq!(out.runtime_gate, vec![None, None, None]);
    assert_eq!(out.commands[2].kernel, KernelId::AffineQmmT);
    assert!(matches!(
        out.commands[2].bindings[0],
        Binding::Weight { locator: WeightLocator { bucket: 4, op_idx: 0, slot: 0 }, .. }
    ));
}

#[test]
fn sliced_heads_run_one_way_or_the_other() {
    let backbone = [Instruction::Embed(0)];
    let lm_head = [Instruction::AffineQmm(1, 2, 6, 2048, 4096, 64, 4, 18)];
    let t = tape_site(512);
    let head = TapeSite { tape_index: 4, ..t };
    let slice = match pick(slice_query(t.params, &lm_head).expect("query")) {
        KernelChoice::Qmv(c) => c,
        _ => panic!("expected a matrix-vector kernel"),
    };
    assert_eq!(slice.threadgroups, (1, 256, 1));
    let out = lower_pair(
        t,
        &backbone,
        &lm_head,
        &[],
        &choices(head, &lm_head),
        &[true],
        &[false],
        9,
        4,
        Some(slice),
    )
    .expect("lower");
    let kernels: Vec<KernelId> = out.commands.iter().map(|c| c.kernel).collect();
    assert_eq!(
        kernels,
        vec![
            KernelId::Embed,
            KernelId::GatherLastToken,
            KernelId::AffineQmvFast,
            KernelId::ScatterFirstToLastRow,
            KernelId::AffineQmmT,
        ]
    );
    assert_eq!(out.barrier_before, vec![true, true, false, true, false]);
    assert_eq!(
        out.runtime_gate,
        vec![
            None,
            Some(RuntimeGate::OnlyIfSingleSeq),
            Some(RuntimeGate::OnlyIfSingleSeq),
            Some(RuntimeGate::OnlyIfSingleSeq),
            Some(RuntimeGate::OnlyIfMultiSeq),
        ]
    );
    assert_eq!(out.commands[1].function, "gather_last_token_bf16_specialized");
    assert_eq!(out.commands[1].constants, vec![ConstantValue::uint(0, 4096)]);
    assert_eq!(out.commands[1].dispatch.threadgroups, (16, 1, 1));
    assert_eq!(out.commands[1].bindings[0], Binding::ArenaSlot { slot: 1, binding_index: 0 });
    assert_eq!(out.commands[2].dispatch.m_scaling, None);
    assert!(matches!(
        out.commands[2].bindings[0],
        Binding::Weight { layer: LayerId(6), .. }
    ));
    assert_eq!(out.commands[3].constants, vec![ConstantValue::uint(0, 2048)]);
    assert_eq!(out.commands[3].bindings[0], Binding::ArenaSlot { slot: 2, binding_index: 0 });
}

#[test]
fn slices_need_several_tokens_and_one_pass() {
    let lm_head = [Instruction::AffineQmm(1, 2, 6, 2048, 2048, 64, 4, 18)];
    let slice = match pick(slice_query(test_params(), &lm_head).expect("query")) {
        KernelChoice::Qmv(c) => c,
        _ => panic!("expected a matrix-vector kernel"),
    };
    for bucket_m in [1u32, 64] {
        let t = tape_site(bucket_m);
        let out = lower_pair(
            t,
            &[],
            &lm_head,
            &[],
            &choices(t, &lm_head),
            &[],
            &[],
            9,
            3,
            Some(slice),
        )
        .expect("lower");
        assert!(out.runtime_gate.iter().all(|g| g.is_none()), "bucket {}", bucket_m);
    }
    assert_eq!(slice_query(test_params(), &[Instruction::Embed(0)]), None);
    assert_eq!(slice_query(test_params(), &[]), None);
}

#[test]
fn the_backbone_fails_first() {
    let err = lower_pair(
        tape_site(8),
        &[Instruction::Other("Backbone")],
        &[Instruction::Other("Head")],
        &[],
        &[],
        &[],
        &[],
        9,
        3,
        None,
    )
    .unwrap_err();
    assert_eq!(err, LoweringError::UnsupportedVariant { index: 0, variant_type: "Backbone" });
    let err = lower_pair(
        tape_site(8),
        &[],
        &[Instruction::Free(0), Instruction::Other("Head")],
        &[],
        &[],
        &[],
        &[],
        9,
        3,
        None,
    )
    .unwrap_err();
    assert_eq!(err, LoweringError::UnsupportedVariant { index: 1, variant_type: "Head" });
}

#[test]
fn one_dimensional_grids_round_up() {
    let d = DispatchShape::dispatch_1d(257, 256);
    assert_eq!(d.threadgroups, (2, 1, 1));
    assert_eq!(d.threads_per_threadgroup, (256, 1, 1));
    assert_eq!(d.m_scaling, None);
    assert_eq!(DispatchShape::dispatch_1d(0, 256).threadgroups, (0, 1, 1));
    assert_eq!(DispatchShape::dispatch_1d(u32::MAX, 1).threadgroups, (u32::MAX, 1, 1));
    assert_eq!(DispatchShape::dispatch_1d(u32::MAX, 2).threadgroups, (0x8000_0000, 1, 1));
}

#[test]
fn symbol_infixes() {
    assert_eq!(MetalDtype::F16.symbol_infix(), "f16");
    assert_eq!(MetalDtype::Bf16.symbol_infix(), "bf16");
    assert_eq!(MetalDtype::Int4.symbol_infix(), "int4");
}

#[test]
fn checks_tell_what_lowering_comes_to() {
    let t = tape_site(8);
    let check = |tape: &[Instruction]| check_tape(t, tape, &choices(t, tape), &[]);
    assert_eq!(check(&[]), TapeCheck::Succeeds);
    assert_eq!(check(&every_instruction()), TapeCheck::Succeeds);
    assert_eq!(check(&[Instruction::Other("x")]), TapeCheck::Fails);
    assert_eq!(check(&[Instruction::Loop(2, 1)]), TapeCheck::Fails);
    let contiguous = Instruction::AttentionPrefillContiguous(0, 0, 0, 0, false);
    assert_eq!(check(&[contiguous]), TapeCheck::Undefined);
    assert_eq!(check(&[Instruction::Other("x"), contiguous]), TapeCheck::Fails);
    assert_eq!(check(&[Instruction::Loop(0, 1), contiguous]), TapeCheck::Succeeds);
    assert_eq!(
        check(&[Instruction::Loop(1, 1), Instruction::Loop(0, 0)]),
        TapeCheck::Undefined
    );
    // The layer overflows in the second iteration only.
    let last = Instruction::RmsNorm(0, 1, u32::MAX);
    assert_eq!(check(&[Instruction::Loop(1, 1), last]), TapeCheck::Succeeds);
    assert_eq!(check(&[Instruction::Loop(2, 1), last]), TapeCheck::Undefined);
}

#[test]
fn unwired_instructions_are_not_lowerable() {
    let s = site(0, 8, 0);
    for inst in [
        Instruction::AffineEmbed(0, 64, 8),
        Instruction::AffineEmbed(0, 16, 4),
        Instruction::FusedQkvRopeCache(0, 0, 0, true, false),
        Instruction::FusedQkvRopeCache(0, 0, 0, false, true),
        Instruction::SynthPreAttn(0, 0, 0, 0, 64, 8, "s", false),
        Instruction::SynthMlpPreDown(0, 0, 0, 0, 64, 8, "s"),
        Instruction::AffineQmm(0, 0, 0, 8, 8, 64, 4, 18),
        Instruction::MetalBiasAdd(0, 0, 0, u32::MAX, false),
    ] {
        assert!(!is_lowerable(s, &inst, None), "{:?}", inst);
    }
    let mut int4 = s;
    int4.params.metal_dtype = MetalDtype::Int4;
    assert!(!is_lowerable(int4, &Instruction::Embed(0), None));
    assert!(is_lowerable(int4, &Instruction::AttentionPrefillPaged(0, 0, 0, false), None));
    let mut odd = s;
    odd.params.head_dim = 48;
    assert!(!is_lowerable(odd, &Instruction::SynthMlpPreDown(0, 0, 0, 0, 64, 4, "s"), None));
}
