use ferrite_forward::bytes::u64_le_bytes;
use ferrite_forward::executor::MetalExecutor;
use ferrite_forward::ids::LayerId;
use ferrite_forward::instruction::{DequantDtype, Instruction, ScaleDtype};
use ferrite_forward::kvm::{
    launch, plan_launch, ContextDims, KvmLaunchError, LaunchBuffers, LauncherArgs, RopePtrs,
    ShapeConfig, WeightPtrs,
};
use ferrite_forward::lowered::{
    KernelId, MScaleAxis, MScaling, MetalDtype, RuntimeBindingKind, RuntimeGate,
    WeightBundleKind, WeightLocator, WeightTensor,
};
use ferrite_forward::mega_player::{
    allocation_len, check_operands, check_profile, launch_grid, lookup_request,
    player_pipeline_key, player_symbol, resolve_mega_buffers, tape_profile, BufferRef, InputKind,
    LookupRequest, MegaDispatchCache, MegaProgram, OpKind, OperandSlot, ProfileRow, ResolveError,
    ResolvedBuffer, ShapeClass, TapeOp, WeightBundle, WeightLoc, WeightRole,
};
use ferrite_forward::mtl4::{bake_mtl4_steps, BoundBuffer, BucketStep, IcbStep};
use ferrite_forward::persistent::{PersistentDecodeSession, ProtoOp, StepInput};
use ferrite_forward::protocol_layout::{OFFSET_BLOCK_TABLE, PROTOCOL_BYTES};
use ferrite_forward::submission::{Happened, Submission, SubmissionKind};
use ferrite_forward::timing::{DispatchTimingState, PipelineTotal};
use ferrite_forward::forward::{ForwardError, WorkerError};
use ferrite_forward::ids::BucketM;

// ---- Megakernel player ----

fn program() -> MegaProgram {
    MegaProgram {
        tape: vec![
            TapeOp { opcode: 0, shape: 0 },
            TapeOp { opcode: 0, shape: 1 },
            TapeOp { opcode: 3, shape: 99 },
            TapeOp { opcode: 0, shape: 0 },
            TapeOp { opcode: 0, shape: 2 },
            TapeOp { opcode: 0, shape: 3 },
        ],
        shapes: vec![
            ShapeClass { op: OpKind::Qmv, dim1: 64, dim2: 3 },
            ShapeClass { op: OpKind::Add, dim1: 100, dim2: 7 },
            ShapeClass { op: OpKind::OutOfTable, dim1: 100, dim2: 7 },
            ShapeClass { op: OpKind::Unprofiled, dim1: 100, dim2: 7 },
        ],
        tape_offsets: vec![0, 3, 6],
        operands: vec![
            OperandSlot { buffer: 1, byte_offset: 8 },
            OperandSlot { buffer: 0, byte_offset: 0 },
            OperandSlot { buffer: 3, byte_offset: 1 },
        ],
        buffers: vec![
            BufferRef::ArenaSlot(1),
            BufferRef::Weight {
                bundle: WeightBundle::CosSin,
                role: WeightRole::AffineScales,
                loc: WeightLoc { layer: 4, bucket: 5, op_idx: 6, slot: 7 },
            },
            BufferRef::Input(InputKind::KvCacheV { layer: 2 }),
            BufferRef::EmbeddedHidden,
        ],
        arena_bytes: vec![16, 32],
        num_flags: 3,
    }
}

fn found() -> Vec<Option<ResolvedBuffer>> {
    vec![
        None,
        Some(ResolvedBuffer { address: 0x1000, base: 0x20 }),
        Some(ResolvedBuffer { address: 0x3000, base: 0x99 }),
        None,
    ]
}

#[test]
fn lookups_are_named() {
    let p = program();
    assert_eq!(lookup_request(p.buffers[0]), LookupRequest::Nothing);
    assert_eq!(
        lookup_request(p.buffers[1]),
        LookupRequest::Weight {
            kind: WeightBundleKind::CosSin,
            which: WeightTensor::AffineScales,
            layer: LayerId(4),
            locator: WeightLocator { bucket: 5, op_idx: 6, slot: 7 },
        }
    );
    assert_eq!(
        lookup_request(p.buffers[2]),
        LookupRequest::Runtime(RuntimeBindingKind::KvCacheV { layer: LayerId(2) })
    );
    assert_eq!(
        lookup_request(BufferRef::Input(InputKind::NumTokens)),
        LookupRequest::Runtime(RuntimeBindingKind::NumTokensU32)
    );
}

#[test]
fn programs_resolve_to_operand_tables() {
    let cache =
        MegaDispatchCache::build(&program(), &[0xA000, 0xB000], &found(), Some(0xC000)).unwrap();
    assert_eq!(
        cache.resolved,
        vec![
            ResolvedBuffer { address: 0xB000, base: 0 },
            ResolvedBuffer { address: 0x1000, base: 0x20 },
            ResolvedBuffer { address: 0x3000, base: 0 },
            ResolvedBuffer { address: 0xC000, base: 0 },
        ]
    );
    assert_eq!(cache.operand_bytes, u64_le_bytes(&[0x1028, 0xB000, 0xC001]));
    assert_eq!(cache.operand_bytes.len(), 24);
    assert_eq!(cache.operand_bytes[..8], [0x28, 0x10, 0, 0, 0, 0, 0, 0]);
    assert_eq!(cache.flags_len, 12);
    assert_eq!(cache.p, 2);
}

#[test]
fn unresolved_buffers_are_reported_in_order() {
    let err = |p: &MegaProgram, arena: &[u64], f: &[Option<ResolvedBuffer>], e: Option<u64>| {
        MegaDispatchCache::build(p, arena, f, e).err().expect("fails")
    };
    let p = program();
    assert_eq!(
        err(&p, &[0xA000], &found(), None),
        ResolveError::LookupFailed { reason: "wavefront-mega: arena slot out of range" }
    );
    let mut missing = found();
    missing[1] = None;
    assert_eq!(
        err(&p, &[0xA000, 0xB000], &missing, None),
        ResolveError::WeightMissing { buffer: 1 }
    );
    assert_eq!(
        err(&p, &[0xA000, 0xB000], &found(), None),
        ResolveError::LookupFailed {
            reason: "wavefront-mega: EmbeddedHidden source but no embed-output buffer supplied",
        }
    );
    let mut scratch = program();
    scratch.buffers[0] = BufferRef::Scratch(0);
    assert_eq!(
        err(&scratch, &[], &found(), None),
        ResolveError::LookupFailed {
            reason: "wavefront-mega: serializer emits no Scratch (k_chunks=1 only)",
        }
    );
}

#[test]
fn empty_programs_still_launch() {
    let p = MegaProgram {
        tape: vec![],
        shapes: vec![],
        tape_offsets: vec![],
        operands: vec![],
        buffers: vec![],
        arena_bytes: vec![],
        num_flags: 0,
    };
    let cache = MegaDispatchCache::build(&p, &[], &[], None).unwrap();
    assert_eq!(cache.p, 1);
    assert_eq!(cache.flags_len, 4);
    assert_eq!(cache.operand_bytes.len(), 0);
    assert_eq!(allocation_len(0), 1);
    assert_eq!(allocation_len(9), 9);
}

#[test]
fn grids_follow_what_is_asked_for() {
    assert_eq!(launch_grid(5, None, None), ((5, 1, 1), (1024, 1, 1)));
    assert_eq!(launch_grid(5, Some(0), Some(64)), ((5, 1, 1), (64, 1, 1)));
    assert_eq!(launch_grid(5, Some(3), None), ((5, 3, 1), (1024, 1, 1)));
}

#[test]
fn player_symbols() {
    assert_eq!(
        player_symbol(DequantDtype::Bf16, ScaleDtype::F16, 64, 4),
        "wavefront_player_bf16_s_f16_gs_64_b_4"
    );
    let key = player_pipeline_key(MetalDtype::F16, 128, 10);
    assert_eq!(key.library, "wavefront_layer");
    assert_eq!(key.function, "wavefront_player_f16_s_f16_gs_128_b_10");
}

#[test]
fn profiles_count_and_weigh() {
    let profile = tape_profile(&program());
    assert_eq!(
        profile.rows,
        vec![
            ProfileRow { op: OpKind::Qmv, count: 2, bytes: 192 },
            ProfileRow { op: OpKind::Add, count: 1, bytes: 200 },
        ]
    );
    assert_eq!(profile.other, 2);
    assert_eq!(profile.total_bytes, 392);
}

#[test]
fn operands_and_tapes_can_be_checked() {
    let p = program();
    let resolved = resolve_mega_buffers(&p, &[0xA000, 0xB000], &found(), Some(0xC000)).unwrap();
    assert!(check_operands(&p, &resolved));
    assert!(!check_operands(&p, &resolved[..3]));
    let mut far = program();
    far.operands[0].byte_offset = u64::MAX;
    assert!(!check_operands(&far, &resolved));
    assert!(check_profile(&p));
    let mut lost = program();
    lost.tape[0].shape = 9;
    assert!(!check_profile(&lost));
    let mut huge = program();
    huge.shapes[0] = ShapeClass { op: OpKind::Attn, dim1: u32::MAX, dim2: u32::MAX };
    assert!(!check_profile(&huge));
}

// ---- Argument tables ----

fn icb(indices: &[u32]) -> IcbStep {
    IcbStep {
        kernel: KernelId::Add,
        pipeline: 77,
        direct_bindings: vec![indices
            .iter()
            .map(|i| BoundBuffer { gpu_address: 1000, offset: *i as u64, index: *i })
            .collect()],
        direct_dispatch: vec![((1, 2, 3), (4, 5, 6))],
        direct_m_scaling: vec![Some(MScaling { axis: MScaleAxis::Y, bucket_m: BucketM(8) })],
        barrier_before: vec![true],
        runtime_gate: vec![Some(RuntimeGate::OnlyIfMultiSeq)],
    }
}

#[test]
fn steps_bake_to_tables() {
    let steps = [BucketStep::Icb(icb(&[2, 0, 30])), BucketStep::Icb(icb(&[]))];
    let baked = bake_mtl4_steps(&steps).expect("eligible");
    assert_eq!(baked.len(), 2);
    assert_eq!(baked[0].kernel, KernelId::Add);
    assert_eq!(baked[0].pipeline, 77);
    assert_eq!(baked[0].tables[0].bind_count, 31);
    assert_eq!(baked[0].tables[0].addresses, vec![(2, 1002), (0, 1000), (30, 1030)]);
    assert_eq!(baked[0].dispatches, vec![((1, 2, 3), (4, 5, 6))]);
    assert_eq!(baked[0].barrier_before, vec![true]);
    assert_eq!(baked[0].runtime_gate, vec![Some(RuntimeGate::OnlyIfMultiSeq)]);
    assert_eq!(
        baked[0].m_scaling,
        vec![Some(MScaling { axis: MScaleAxis::Y, bucket_m: BucketM(8) })]
    );
    assert_eq!(baked[1].tables[0].bind_count, 1);
}

#[test]
fn some_buckets_have_no_tables() {
    assert!(bake_mtl4_steps(&[BucketStep::Icb(icb(&[0])), BucketStep::Gemm]).is_none());
    assert!(bake_mtl4_steps(&[BucketStep::Icb(icb(&[31]))]).is_none());
    assert_eq!(bake_mtl4_steps(&[]).expect("empty").len(), 0);
}

// ---- Resident kernel ----

fn apply(buf: &mut Vec<u8>, ops: &[ProtoOp]) {
    for op in ops {
        match *op {
            ProtoOp::WriteU32 { offset, value } => {
                buf[offset..offset + 4].copy_from_slice(&value.to_le_bytes())
            }
            ProtoOp::WriteI32 { offset, value } => {
                buf[offset..offset + 4].copy_from_slice(&value.to_le_bytes())
            }
            ProtoOp::WriteI64 { offset, value } => {
                buf[offset..offset + 8].copy_from_slice(&value.to_le_bytes())
            }
            ProtoOp::FenceRelease => {}
        }
    }
}

fn u32_at(buf: &[u8], offset: usize) -> u32 {
    let mut b = [0u8; 4];
    b.copy_from_slice(&buf[offset..offset + 4]);
    u32::from_le_bytes(b)
}

#[test]
fn step_inputs_land_in_their_fields() {
    let session = PersistentDecodeSession::alloc_session(0).expect("session");
    let mut buf = vec![0xEEu8; PROTOCOL_BYTES];
    let ops = session.write_step_input(&StepInput {
        input_id: 11,
        position: 12,
        seq_len: -3,
        slot_mapping: -4,
        block_table_stride: 5,
        block_ids: &[21, 22],
    });
    assert_eq!(ops.len(), 10);
    apply(&mut buf, &ops);
    assert_eq!(buf[..64], [0xEE; 64]);
    assert_eq!(u32_at(&buf, 64), 11);
    assert_eq!(u32_at(&buf, 68), 12);
    assert_eq!(u32_at(&buf, 72) as i32, -3);
    assert_eq!(buf[76..80], [0xEE; 4]);
    assert_eq!(buf[80..88], (-4i64).to_le_bytes());
    assert_eq!(u32_at(&buf, 88), 5);
    assert_eq!(buf[92..96], [0xEE; 4]);
    let table: Vec<u32> = (0..6).map(|i| u32_at(&buf, OFFSET_BLOCK_TABLE + 4 * i)).collect();
    assert_eq!(table, vec![21, 22, 0, 0, 0, 0xEEEEEEEE]);
    assert_eq!(u32_at(&buf, 2144), 0xEEEEEEEE);
}

#[test]
fn long_block_tables_are_cut() {
    let session = PersistentDecodeSession::alloc_session(0).expect("session");
    let ids: Vec<u32> = (0..600).collect();
    let ops = session.write_step_input(&StepInput {
        input_id: 0,
        position: 0,
        seq_len: 0,
        slot_mapping: 0,
        block_table_stride: 4000,
        block_ids: &ids,
    });
    assert_eq!(ops.len(), 5 + 512);
    assert_eq!(ops[516], ProtoOp::WriteU32 { offset: 96 + 4 * 511, value: 511 });
}

#[test]
fn steps_are_released_and_taken() {
    let mut session = PersistentDecodeSession::alloc_session(0).expect("session");
    assert_eq!(session.current_step(), 0);
    assert_eq!(
        session.signal_cpu_step(),
        vec![ProtoOp::FenceRelease, ProtoOp::WriteU32 { offset: 0, value: 1 }]
    );
    assert!(!session.output_ready(0));
    assert!(session.output_ready(1));
    assert_eq!(session.take_output(99), 99);
    assert_eq!(session.last_output_token, 99);
    assert_eq!(session.current_step(), 1);
    assert_eq!(
        session.request_stop(),
        vec![
            ProtoOp::WriteU32 { offset: 8, value: 1 },
            ProtoOp::FenceRelease,
            ProtoOp::WriteU32 { offset: 0, value: 2 },
        ]
    );
    assert_eq!(PersistentDecodeSession::alloc_session(2).err(), Some(2));
}

// ---- Vendor megakernel ----

fn shape() -> ShapeConfig {
    ShapeConfig {
        num_layers: 2,
        hidden_dim: 64,
        head_dim: 16,
        num_attention_heads: 4,
        num_kv_heads: 2,
        intermediate_dim: 100,
        num_devices: 3,
        vocab_size: 1000,
        matmul_out_block_size: 0,
        matmul_batch_block_size: 0,
        kv_page_size: 16,
        attn_scale_bits: 7,
        rms_norm_eps_bits: 8,
    }
}

fn dims() -> ContextDims {
    ContextDims {
        input_ids: 5,
        positions: 6,
        cu_seqlens_q: 3,
        block_table_rows: 2,
        block_table_cols: 8,
        max_seqlen_q: 4,
        kv_num_blocks: 50,
        kv_block_size: 16,
        kv_num_layers: 2,
    }
}

#[test]
fn launches_are_planned() {
    let plan = plan_launch(shape(), dims(), 9).expect("plan");
    assert_eq!(plan.scratch.rows, 5);
    assert_eq!(plan.scratch.tape_rows, 9);
    assert_eq!(plan.scratch.barrier_layers, 2);
    assert_eq!(plan.scratch.hidden_cols, 64);
    assert_eq!(plan.scratch.query_cols, 64);
    assert_eq!(plan.scratch.silu_cols, 33);
    assert_eq!(plan.scratch.vocab_cols, 1000);
    assert_eq!(plan.scalars.num_prefill_qo, 2);
    assert_eq!(plan.scalars.num_prefill_kv_indices, 16);
    assert_eq!(plan.scalars.num_pages, 50);
    assert_eq!(plan.scalars.bar_d1, 16);
}

#[test]
fn layer_counts_have_to_agree() {
    let mut ctx = dims();
    ctx.kv_num_layers = 3;
    let err = plan_launch(shape(), ctx, 9).err().expect("mismatch");
    assert!(matches!(err, KvmLaunchError::LayerMismatch { shape_layers: 2, kv_layers: 3 }));
    assert_eq!(
        err.message(),
        "kvm launch: canonical num_layers=2 but KvCachePool has num_layers=3; vendor megakernel \
         requires them equal"
    );
    assert_eq!(
        KvmLaunchError::Driver("lost".to_string()).message(),
        "kvm launch driver error: lost"
    );
}

#[test]
fn launchers_get_every_argument() {
    let plan = plan_launch(shape(), dims(), 9).expect("plan");
    let b = LaunchBuffers {
        tape: 1,
        bar: 2,
        timings: 3,
        global_instr_idx: 4,
        hidden: 5,
        rms_rope_inter: 6,
        rms_gate_inter: 7,
        q_post_rope: 8,
        attn_out: 9,
        silu_out: 10,
        rms_lm_head_inter: 11,
        logits: 12,
        positions: 13,
        slot_mapping: 14,
        cu_seqlens_q: 15,
        block_table: 16,
        seqused_k: 17,
        k_cache: 18,
        v_cache: 19,
        stream: 20,
    };
    let weights = WeightPtrs {
        qkv: 30,
        qkv_r: 31,
        attn_norm: 32,
        o: 33,
        o_r: 34,
        mlp_norm: 35,
        up: 36,
        up_r: 37,
        gate: 38,
        gate_r: 39,
        down: 40,
        down_r: 41,
        lm_head_norm: 42,
        lm_head: 43,
        lm_head_r: 44,
    };
    let rope = RopePtrs { cos: 50, sin: 51, max_pos: 52 };
    let check = |a: LauncherArgs| -> i32 {
        assert_eq!((a.d_instructions, a.d_bar, a.d_hidden_states, a.d_logits), (1, 2, 5, 12));
        assert_eq!((a.d_prefill_qo_indptr, a.d_prefill_kv_indptr, a.d_decode_kv_indptr), (15, 15, 15));
        assert_eq!((a.d_prefill_kv_indices, a.d_decode_kv_indices), (16, 16));
        assert_eq!((a.d_prefill_kv_last_page_len, a.d_decode_kv_last_page_len), (17, 17));
        assert_eq!((a.d_qkv_weights, a.qkv_r, a.d_lm_head_weights, a.lm_head_r), (30, 31, 43, 44));
        assert_eq!((a.d_rope_cos, a.max_pos, a.d_rope_sin), (50, 52, 51));
        assert_eq!((a.attn_scale_bits, a.rms_norm_eps_bits, a.dev_idx, a.raw_stream), (7, 8, 0, 20));
        assert_eq!((a.num_instructions, a.batch_size, a.num_position_ids), (9, 5, 6));
        0
    };
    assert!(launch(check, plan, b, weights, rope, shape()).is_ok());
    let err = launch(|_: LauncherArgs| -> i32 { -700 }, plan, b, weights, rope, shape())
        .err()
        .expect("fails");
    assert!(matches!(err, KvmLaunchError::LaunchReturned(-700)));
    assert_eq!(err.message(), "kvm extern launcher returned cudaError=-700");
}

// ---- Executor ----

#[test]
fn only_empty_tapes_record() {
    let ok = MetalExecutor::new(true, Ok(()), &[], 1u8, 4, "Instruction").expect("empty");
    assert_eq!(ok.forward(), Err("forward() not yet implemented".to_string()));
    let fail = |device: bool, ctx: Result<(), String>, tape: &[Instruction]| {
        MetalExecutor::new(device, ctx, tape, 1u8, 4, "Instruction").err().expect("fails")
    };
    assert_eq!(fail(false, Err("x".to_string()), &[]), "No Metal device found");
    assert_eq!(fail(true, Err("x".to_string()), &[]), "x");
    let tape = [Instruction::Gemm(0, 0, 0, 0, 0), Instruction::Add(0, 0)];
    assert_eq!(fail(true, Ok(()), &tape), "Gemm recording not yet implemented");
    assert_eq!(
        fail(true, Ok(()), &[Instruction::Free(0)]),
        "Instruction variant not yet supported in Metal executor: \"Instruction\""
    );
}

// ---- Timing ----

#[test]
fn timings_are_totalled_per_pipeline() {
    let mut t = DispatchTimingState::new(4);
    t.record_label(0, 10, KernelId::Add, (1, 1, 1));
    t.record_label(1, 20, KernelId::Gemm, (2, 2, 2));
    t.record_label(2, 10, KernelId::SiluMul, (3, 3, 3));
    t.record_label(9, 30, KernelId::Embed, (4, 4, 4));
    assert!(t.resolve(&[]).is_none());
    t.set_dispatch_count(3);
    let start = u64::MAX - 4;
    let stamps = [start, 5, 105, 112];
    let report = t.resolve(&stamps).expect("report");
    assert_eq!(report.dispatches, 3);
    assert_eq!(report.total_ticks, 10 + 100 + 7);
    assert_eq!(
        report.pipelines,
        vec![
            PipelineTotal { pipeline: 20, ticks: 100, count: 1, kernel: KernelId::Gemm },
            PipelineTotal { pipeline: 10, ticks: 17, count: 2, kernel: KernelId::Add },
        ]
    );
    assert_eq!(t.dispatch_label(0), (10, KernelId::Add, (1, 1, 1), false));
    assert_eq!(t.dispatch_label(1), (20, KernelId::Gemm, (2, 2, 2), true));
    assert_eq!(t.dispatch_label(3), (0, KernelId::Embed, (0, 0, 0), true));
}

// ---- Submission ----

fn run(kind: SubmissionKind, events: Vec<Happened>) -> (Vec<String>, Submission) {
    let mut seen = vec![];
    let mut s = Submission::start();
    for e in events {
        seen.push(format!("{:?}", s));
        s = s.next(kind, e);
    }
    (seen, s)
}

#[test]
fn buckets_are_submitted_in_order() {
    let kind = SubmissionKind::Bucket { tail: true, timing: true };
    let (seen, end) = run(
        kind,
        vec![
            Happened::Done,
            Happened::Dispatches(7),
            Happened::Timer(true),
            Happened::Done,
            Happened::Encoded(Ok(())),
            Happened::Hooked(Ok(())),
            Happened::Ended { signal: 3 },
            Happened::Done,
            Happened::Waited(true),
            Happened::Done,
            Happened::Done,
        ],
    );
    assert_eq!(
        seen,
        vec![
            "EnsureQueue",
            "CountDispatches",
            "CreateTimer { entries: 8 }",
            "Open { timed: true }",
            "EncodeBucket { timed: true }",
            "EncodeHook { timed: true }",
            "End { timed: true, failure: None }",
            "Commit { timed: true, signal: 3 }",
            "Wait { timed: true, signal: 3, timeout_ms: 60000 }",
            "Reset { timed: true }",
            "Report",
        ]
    );
    assert!(matches!(end, Submission::Finished(Ok(()))));
}

#[test]
fn failed_encodings_are_not_committed() {
    let bucket = SubmissionKind::Bucket { tail: false, timing: false };
    let (seen, end) = run(
        bucket,
        vec![
            Happened::Done,
            Happened::Done,
            Happened::Encoded(Err(WorkerError { message: "lost".to_string() })),
        ],
    );
    assert_eq!(seen.len(), 3);
    assert!(matches!(end, Submission::Finished(Err(ForwardError::Worker(_)))));
    let (seen, end) = run(
        SubmissionKind::Chain,
        vec![
            Happened::Done,
            Happened::Done,
            Happened::Hooked(Err(ForwardError::Followup("argmax".to_string()))),
            Happened::Ended { signal: 1 },
        ],
    );
    assert!(seen[3].starts_with("End"));
    assert!(matches!(end, Submission::Finished(Err(ForwardError::Followup(_)))));
}

#[test]
fn waits_can_run_out() {
    let (_, end) = run(
        SubmissionKind::Chain,
        vec![
            Happened::Done,
            Happened::Done,
            Happened::Hooked(Ok(())),
            Happened::Ended { signal: 1 },
            Happened::Done,
            Happened::Waited(false),
        ],
    );
    match end {
        Submission::Finished(Err(ForwardError::ExecutionFailed(status))) => {
            assert_eq!(status.0, 5)
        }
        other => panic!("unexpected {other:?}"),
    }
}
