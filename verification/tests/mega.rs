use std::cell::Cell;

use ferrite_forward::mega::{
    block_table_ptr, dispatch_launch, input_ids_ptr, launch_multi_step,
    launch_persistent_decode, positions_ptr, seq_lens_ptr, slot_mapping_ptr, AbiLayout, DType,
    I32Ptr, I64Ptr, LaunchArgs, LaunchArgsAttn, LaunchArgsMultiStep, LaunchArgsQkv, LaunchFnAny,
    LaunchTier, PersistentDecodeLaunchArgs, TensorView, U32Ptr,
};

#[test]
fn launch_args_abi_size() {
    assert_eq!(std::mem::size_of::<LaunchArgs>(), 32);
    assert_eq!(std::mem::align_of::<LaunchArgs>(), 8);
    assert_eq!(LaunchArgs::abi_layout(), AbiLayout { size: 32, align: 8 });
}

#[test]
fn launch_args_qkv_abi_size() {
    assert_eq!(std::mem::size_of::<LaunchArgsQkv>(), 72);
    assert_eq!(std::mem::align_of::<LaunchArgsQkv>(), 8);
    assert_eq!(LaunchArgsQkv::abi_layout(), AbiLayout { size: 72, align: 8 });
}

#[test]
fn launch_args_qkv_field_offsets() {
    let o = LaunchArgsQkv::abi_offsets();
    assert_eq!(o.act_ptrs, 0);
    assert_eq!(o.weight_ptrs, 8);
    assert_eq!(o.input_ids, 16);
    assert_eq!(o.positions, 24);
    assert_eq!(o.slot_mapping, 32);
    assert_eq!(o.key_cache_ptrs, 40);
    assert_eq!(o.value_cache_ptrs, 48);
    assert_eq!(o.barriers, 56);
    assert_eq!(o.trace_level, 64);
}

#[test]
fn launch_args_attn_abi_size() {
    // The fields without padding: ten addresses and two words of four bytes.
    assert_eq!(std::mem::size_of::<LaunchArgsAttn>(), 88);
    assert_eq!(std::mem::align_of::<LaunchArgsAttn>(), 8);
}

#[test]
fn launch_args_attn_is_padded_twice() {
    // Behind the stride, and behind the trace level at 88.
    assert_eq!(LaunchArgsAttn::abi_layout(), AbiLayout { size: 96, align: 8 });
}

#[test]
fn launch_args_attn_field_offsets() {
    let o = LaunchArgsAttn::abi_offsets();
    assert_eq!(o.act_ptrs, 0);
    assert_eq!(o.weight_ptrs, 8);
    assert_eq!(o.input_ids, 16);
    assert_eq!(o.positions, 24);
    assert_eq!(o.slot_mapping, 32);
    assert_eq!(o.key_cache_ptrs, 40);
    assert_eq!(o.value_cache_ptrs, 48);
    assert_eq!(o.seq_lens, 56);
    assert_eq!(o.block_table, 64);
    assert_eq!(o.block_table_stride, 72);
    assert_eq!(o.barriers, 80);
    assert_eq!(o.trace_level, 88);
}

#[test]
fn launch_args_attn_prefix_matches_qkv() {
    let attn = LaunchArgsAttn::abi_offsets();
    let qkv = LaunchArgsQkv::abi_offsets();
    assert_eq!(attn.act_ptrs, qkv.act_ptrs);
    assert_eq!(attn.weight_ptrs, qkv.weight_ptrs);
    assert_eq!(attn.input_ids, qkv.input_ids);
    assert_eq!(attn.positions, qkv.positions);
    assert_eq!(attn.slot_mapping, qkv.slot_mapping);
    assert_eq!(attn.key_cache_ptrs, qkv.key_cache_ptrs);
    assert_eq!(attn.value_cache_ptrs, qkv.value_cache_ptrs);
}

#[test]
fn launch_args_field_offsets() {
    let o = LaunchArgs::abi_offsets();
    assert_eq!((o.act_ptrs, o.weight_ptrs, o.barriers, o.trace_level), (0, 8, 16, 24));
}

type AnyFn = LaunchFnAny<
    fn(LaunchArgs) -> i32,
    fn(LaunchArgsQkv) -> i32,
    fn(LaunchArgsAttn) -> i32,
    fn(LaunchArgsMultiStep) -> i32,
    fn(PersistentDecodeLaunchArgs) -> i32,
>;

fn stub_base(_: LaunchArgs) -> i32 {
    0
}

fn stub_qkv(_: LaunchArgsQkv) -> i32 {
    0
}

fn stub_attn(_: LaunchArgsAttn) -> i32 {
    0
}

fn stub_ms(_: LaunchArgsMultiStep) -> i32 {
    0
}

fn stub_persistent(_: PersistentDecodeLaunchArgs) -> i32 {
    0
}

#[test]
fn launch_fn_any_tier() {
    assert_eq!(AnyFn::Base(stub_base).tier(), LaunchTier::Base);
    assert_eq!(AnyFn::Qkv(stub_qkv).tier(), LaunchTier::Qkv);
    assert_eq!(AnyFn::Attn(stub_attn).tier(), LaunchTier::Attn);
    assert_eq!(AnyFn::MultiStep(stub_ms).tier(), LaunchTier::MultiStep);
    assert_eq!(AnyFn::PersistentDecode(stub_persistent).tier(), LaunchTier::PersistentDecode);
    assert_eq!(AnyFn::Qkv(stub_qkv).label(), "LaunchFnAny::Qkv");
}

fn null_args() -> LaunchArgsAttn {
    LaunchArgsAttn {
        act_ptrs: 0,
        weight_ptrs: 0,
        input_ids: 0,
        positions: 0,
        slot_mapping: 0,
        key_cache_ptrs: 0,
        value_cache_ptrs: 0,
        seq_lens: 0,
        block_table: 0,
        block_table_stride: 0,
        barriers: 0,
        trace_level: 0,
    }
}

#[test]
fn dispatch_launch_picks_tier() {
    let tag = Cell::new(0u8);
    let base = |_: LaunchArgs| -> i32 {
        tag.set(1);
        0
    };
    let qkv = |_: LaunchArgsQkv| -> i32 {
        tag.set(2);
        0
    };
    let attn = |_: LaunchArgsAttn| -> i32 {
        tag.set(3);
        0
    };
    let mut any = LaunchFnAny::Base(base);
    for expected in 1u8..4 {
        tag.set(0);
        dispatch_launch::<_, _, _, (), ()>(any, null_args()).unwrap();
        assert_eq!(tag.get(), expected);
        any = if expected == 1 { LaunchFnAny::Qkv(qkv) } else { LaunchFnAny::Attn(attn) };
    }
}

#[test]
fn dispatch_launch_propagates_error() {
    fn stub_attn_err(_: LaunchArgsAttn) -> i32 {
        42
    }
    let any: AnyFn = LaunchFnAny::Attn(stub_attn_err);
    assert_eq!(dispatch_launch(any, null_args()), Err(42));
    fn stub_base_err(_: LaunchArgs) -> i32 {
        -1
    }
    let any: AnyFn = LaunchFnAny::Base(stub_base_err);
    assert_eq!(dispatch_launch(any, null_args()), Err(-1));
}

#[test]
fn dispatch_launch_projects_every_field() {
    let args = LaunchArgsAttn {
        act_ptrs: 1,
        weight_ptrs: 2,
        input_ids: 3,
        positions: 4,
        slot_mapping: 5,
        key_cache_ptrs: 6,
        value_cache_ptrs: 7,
        seq_lens: 8,
        block_table: 9,
        block_table_stride: 10,
        barriers: 11,
        trace_level: 12,
    };
    fn check_base(a: LaunchArgs) -> i32 {
        assert_eq!(
            a,
            LaunchArgs { act_ptrs: 1, weight_ptrs: 2, barriers: 11, trace_level: 12 }
        );
        0
    }
    fn check_qkv(a: LaunchArgsQkv) -> i32 {
        assert_eq!(
            a,
            LaunchArgsQkv {
                act_ptrs: 1,
                weight_ptrs: 2,
                input_ids: 3,
                positions: 4,
                slot_mapping: 5,
                key_cache_ptrs: 6,
                value_cache_ptrs: 7,
                barriers: 11,
                trace_level: 12,
            }
        );
        0
    }
    fn check_attn(a: LaunchArgsAttn) -> i32 {
        assert_eq!(a.seq_lens, 8);
        assert_eq!(a.block_table, 9);
        assert_eq!(a.block_table_stride, 10);
        0
    }
    let any: AnyFn = LaunchFnAny::Base(check_base);
    assert_eq!(dispatch_launch(any, args), Ok(()));
    let any: AnyFn = LaunchFnAny::Qkv(check_qkv);
    assert_eq!(dispatch_launch(any, args), Ok(()));
    let any: AnyFn = LaunchFnAny::Attn(check_attn);
    assert_eq!(dispatch_launch(any, args), Ok(()));
}

#[test]
fn other_launchers_check_their_codes() {
    let ms = LaunchArgsMultiStep {
        act_ptrs: 0,
        weight_ptrs: 0,
        input_ids_multi: 0,
        positions_multi: 0,
        slot_mapping_multi: 0,
        key_cache_ptrs: 0,
        value_cache_ptrs: 0,
        seq_lens_multi: 0,
        block_table: 0,
        block_table_stride: 0,
        barriers: 0,
        trace_level: 0,
        num_steps: 5,
        output_token_ids: 0,
    };
    assert_eq!(launch_multi_step(|a: LaunchArgsMultiStep| a.num_steps, ms), Err(5));
    assert_eq!(launch_multi_step(stub_ms, ms), Ok(()));
    let pd = PersistentDecodeLaunchArgs {
        act_ptrs: 0,
        weight_ptrs: 0,
        protocol: 9,
        key_cache_ptrs: 0,
        value_cache_ptrs: 0,
        barriers: 0,
        trace_level: 0,
    };
    assert_eq!(
        launch_persistent_decode(|a: PersistentDecodeLaunchArgs| a.protocol as i32, pd),
        Err(9)
    );
}

fn fake_view(address: u64, shape: &[usize], dtype: DType) -> TensorView {
    TensorView { address, shape: shape.to_vec(), dtype }
}

#[test]
fn seq_lens_ptr_zero_copy() {
    let ptr = 0xDEAD_BEEF_1000_u64;
    let view = fake_view(ptr, &[16], DType::I32);
    let i32_ptr: I32Ptr = seq_lens_ptr(&view);
    assert_eq!(i32_ptr, ptr);
}

#[test]
fn block_table_ptr_zero_copy() {
    let ptr = 0xFEED_FACE_2000_u64;
    let view = fake_view(ptr, &[16, 8], DType::I32);
    let u32_ptr: U32Ptr = block_table_ptr(&view);
    assert_eq!(u32_ptr, ptr);
}

#[test]
fn seq_lens_and_block_table_share_underlying_ptr() {
    let ptr = 0x0123_4567_89AB_u64;
    let view = fake_view(ptr, &[16], DType::I32);
    let i32_ptr = seq_lens_ptr(&view);
    let u32_ptr = block_table_ptr(&view);
    assert_eq!(i32_ptr, u32_ptr);
    assert_eq!(i32_ptr, ptr);
}

#[test]
fn positions_ptr_zero_copy() {
    let ptr = 0xCAFE_BABE_3000_u64;
    let view = fake_view(ptr, &[16], DType::U32);
    let u32_ptr: U32Ptr = positions_ptr(&view);
    assert_eq!(u32_ptr, ptr);
}

#[test]
fn input_ids_ptr_zero_copy() {
    let ptr = 0xABCD_1234_5000_u64;
    let view = fake_view(ptr, &[16], DType::U32);
    let u32_ptr: U32Ptr = input_ids_ptr(&view);
    assert_eq!(u32_ptr, ptr);
}

#[test]
fn slot_mapping_ptr_zero_copy() {
    let ptr = 0xBADD_F00D_4000_u64;
    let view = fake_view(ptr, &[16], DType::I64);
    let i64_ptr: I64Ptr = slot_mapping_ptr(&view);
    assert_eq!(i64_ptr, ptr);
}

#[test]
fn positions_and_slot_mapping_are_independent() {
    let pos_ptr = 0x1111_1111_1000_u64;
    let sm_ptr = 0x2222_2222_2000_u64;
    let pos_view = fake_view(pos_ptr, &[16], DType::U32);
    let sm_view = fake_view(sm_ptr, &[16], DType::I64);
    let got_pos = positions_ptr(&pos_view);
    let got_sm = slot_mapping_ptr(&sm_view);
    assert_eq!(got_pos, pos_ptr);
    assert_eq!(got_sm, sm_ptr);
    assert_ne!(got_pos, got_sm);
}
