//! Kernel symbols and element types that follow from a model's activation
//! type.
use crate::instruction::{DequantDtype, ScaleDtype};
use crate::lowered::MetalDtype;
use vstd::prelude::*;

verus! {

/// The one of two symbols that fits `dtype`.
pub open spec fn specialized_symbol(
    f16_symbol: &'static str,
    bf16_symbol: &'static str,
    dtype: MetalDtype,
) -> &'static str {
    if dtype is Bf16 {
        bf16_symbol
    } else {
        f16_symbol
    }
}

/// Picks the half-precision or the bfloat16 symbol of a kernel. No kernel has
/// a symbol for `Int4`.
pub fn pick_specialized_symbol(
    f16_symbol: &'static str,
    bf16_symbol: &'static str,
    dtype: MetalDtype,
) -> (s: &'static str)
    requires
        dtype !is Int4,
    ensures
        s == specialized_symbol(f16_symbol, bf16_symbol, dtype),
        dtype is F16 ==> s == f16_symbol,
        dtype is Bf16 ==> s == bf16_symbol,
{
    match dtype {
        MetalDtype::Bf16 => bf16_symbol,
        _ => f16_symbol,
    }
}

/// The element type that quantized kernels compute in for activations of type
/// `dtype`.
pub open spec fn dequant_dtype(dtype: MetalDtype) -> DequantDtype {
    if dtype is Bf16 {
        DequantDtype::Bf16
    } else {
        DequantDtype::F16
    }
}

/// Converts the activation type to the one that quantized kernels speak.
pub fn dequant_dtype_for(dtype: MetalDtype) -> (d: DequantDtype)
    requires
        dtype !is Int4,
    ensures
        d == dequant_dtype(dtype),
        d is F16 <==> dtype is F16,
        d is Bf16 <==> dtype is Bf16,
{
    match dtype {
        MetalDtype::Bf16 => DequantDtype::Bf16,
        _ => DequantDtype::F16,
    }
}

/// The element type that scales and gains are stored in: checkpoints ship half
/// precision.
pub fn scale_dtype_for() -> (d: ScaleDtype)
    ensures
        d == ScaleDtype::F16,
{
    ScaleDtype::F16
}

/// Symbol of `silu(gate) * up`.
pub open spec fn silu_mul_name(dtype: DequantDtype) -> &'static str {
    match dtype {
        DequantDtype::F16 => "silu_mul_f16",
        DequantDtype::Bf16 => "silu_mul_bf16",
    }
}

/// Returns the symbol of `silu(gate) * up`.
pub fn silu_mul_static_name(dtype: DequantDtype) -> (s: &'static str)
    ensures
        s == silu_mul_name(dtype),
{
    match dtype {
        DequantDtype::F16 => "silu_mul_f16",
        DequantDtype::Bf16 => "silu_mul_bf16",
    }
}

/// Bytes per element of the split-K scratch buffer.
pub fn elem_size_bytes(dtype: DequantDtype) -> (n: u32)
    ensures
        n == 2,
{
    match dtype {
        DequantDtype::F16 => 2,
        DequantDtype::Bf16 => 2,
    }
}

/// Symbol of the standalone RMSNorm with half-precision gains.
pub open spec fn rmsnorm_name(dtype: MetalDtype) -> &'static str {
    specialized_symbol("rmsnorm_f16_s_f16_specialized", "rmsnorm_bf16_s_f16_specialized", dtype)
}

/// Returns the symbol of the standalone RMSNorm. Kernels exist for
/// half-precision gains only.
pub fn rmsnorm_kernel_static_name(dtype: MetalDtype, scale_dtype: ScaleDtype) -> (s: &'static str)
    requires
        dtype !is Int4,
        scale_dtype is F16,
    ensures
        s == rmsnorm_name(dtype),
{
    match dtype {
        MetalDtype::Bf16 => "rmsnorm_bf16_s_f16_specialized",
        _ => "rmsnorm_f16_s_f16_specialized",
    }
}

/// Symbol of the residual add with RMSNorm, half-precision gains.
pub open spec fn fused_add_rmsnorm_name(dtype: MetalDtype) -> &'static str {
    specialized_symbol(
        "fused_add_rmsnorm_f16_s_f16_specialized",
        "fused_add_rmsnorm_bf16_s_f16_specialized",
        dtype,
    )
}

/// Returns the symbol of the residual add with RMSNorm. Kernels exist for
/// half-precision gains only.
pub fn fused_add_rmsnorm_kernel_static_name(
    dtype: MetalDtype,
    scale_dtype: ScaleDtype,
) -> (s: &'static str)
    requires
        dtype !is Int4,
        scale_dtype is F16,
    ensures
        s == fused_add_rmsnorm_name(dtype),
{
    match dtype {
        MetalDtype::Bf16 => "fused_add_rmsnorm_bf16_s_f16_specialized",
        _ => "fused_add_rmsnorm_f16_s_f16_specialized",
    }
}

/// Group sizes that the quantized embedding has kernels for.
pub open spec fn embed_group_size(group_size: u32) -> bool {
    group_size == 32 || group_size == 64 || group_size == 128
}

/// Symbol of the quantized embedding gather, half-precision scales.
pub open spec fn affine_embed_name(dtype: DequantDtype, group_size: u32) -> &'static str {
    match dtype {
        DequantDtype::F16 => if group_size == 32 {
            "affine_embed_f16_s_f16_gs_32_b_4"
        } else if group_size == 64 {
            "affine_embed_f16_s_f16_gs_64_b_4"
        } else {
            "affine_embed_f16_s_f16_gs_128_b_4"
        },
        DequantDtype::Bf16 => if group_size == 32 {
            "affine_embed_bf16_s_f16_gs_32_b_4"
        } else if group_size == 64 {
            "affine_embed_bf16_s_f16_gs_64_b_4"
        } else {
            "affine_embed_bf16_s_f16_gs_128_b_4"
        },
    }
}

/// Returns the symbol of the quantized embedding gather.
pub fn affine_embed_kernel_static_name(
    dtype: DequantDtype,
    scale_dtype: ScaleDtype,
    group_size: u32,
) -> (s: &'static str)
    requires
        scale_dtype is F16,
        embed_group_size(group_size),
    ensures
        s == affine_embed_name(dtype, group_size),
{
    match dtype {
        DequantDtype::F16 => if group_size == 32 {
            "affine_embed_f16_s_f16_gs_32_b_4"
        } else if group_size == 64 {
            "affine_embed_f16_s_f16_gs_64_b_4"
        } else {
            "affine_embed_f16_s_f16_gs_128_b_4"
        },
        DequantDtype::Bf16 => if group_size == 32 {
            "affine_embed_bf16_s_f16_gs_32_b_4"
        } else if group_size == 64 {
            "affine_embed_bf16_s_f16_gs_64_b_4"
        } else {
            "affine_embed_bf16_s_f16_gs_128_b_4"
        },
    }
}

} // verus!
