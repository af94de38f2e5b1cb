//! Kernels whose identity is a type.
//!
//! A command names its kernel three times over: by `KernelId`, by library and
//! by symbol. A type that implements `MetalKernel` fixes the three together,
//! so a command built through `LoweredCommand::for_kernel` cannot mix them.
use crate::kernel_bindings::{AttentionPrefillPagedBindingSet, BindingSet};
use crate::kernel_constants::{AttentionPrefillPagedConstants, FunctionConstants};
use crate::lowered::{CommandView, DispatchShape, KernelId, LoweredCommand};
use vstd::prelude::*;

verus! {

/// The three names of one kernel.
#[derive(Clone, Copy, Debug, PartialEq, Eq)]
pub struct KernelIdentity {
    /// Shader library.
    pub library: &'static str,
    /// Kernel symbol in the library.
    pub function: &'static str,
    /// Coarse tag.
    pub kernel: KernelId,
}

/// One kernel with the shape of its parameters.
pub trait MetalKernel: Sized {
    /// Function constants that the kernel takes.
    type Constants: FunctionConstants;

    /// Bindings that the kernel takes.
    type Bindings: BindingSet;

    /// The names of the kernel.
    spec fn identity() -> KernelIdentity;

    /// Returns the names of the kernel.
    fn kernel_identity() -> (r: KernelIdentity)
        ensures
            r == Self::identity(),
    ;
}

impl LoweredCommand {
    /// Builds a command whose library, symbol and tag all come from `K`.
    pub fn for_kernel<K: MetalKernel>(
        constants: K::Constants,
        bindings: K::Bindings,
        dispatch: DispatchShape,
    ) -> (c: LoweredCommand)
        ensures
            c@ == (CommandView {
                kernel: K::identity().kernel,
                library: K::identity().library,
                function: K::identity().function,
                constants: constants.values(),
                dispatch,
                bindings: bindings.bindings(),
                gemm_dims: None,
            }),
    {
        let id = K::kernel_identity();
        LoweredCommand {
            kernel: id.kernel,
            library: id.library,
            function: id.function,
            constants: constants.into_values(),
            dispatch,
            bindings: bindings.into_bindings(),
            gemm_dims: None,
        }
    }
}

/// Steel prefill attention, bfloat16.
#[derive(Clone, Copy, Debug, PartialEq, Eq)]
pub struct AttentionSteelPagedBf16;

impl MetalKernel for AttentionSteelPagedBf16 {
    type Constants = AttentionPrefillPagedConstants;

    type Bindings = AttentionPrefillPagedBindingSet;

    open spec fn identity() -> KernelIdentity {
        KernelIdentity {
            library: "attention_steel_paged",
            function: "attention_steel_paged_bf16_bq32_bk16_bd128_wm4_wn1_bs16",
            kernel: KernelId::AttentionPrefillSdpaPaged,
        }
    }

    fn kernel_identity() -> (r: KernelIdentity) {
        KernelIdentity {
            library: "attention_steel_paged",
            function: "attention_steel_paged_bf16_bq32_bk16_bd128_wm4_wn1_bs16",
            kernel: KernelId::AttentionPrefillSdpaPaged,
        }
    }
}

/// Steel prefill attention, half precision.
#[derive(Clone, Copy, Debug, PartialEq, Eq)]
pub struct AttentionSteelPagedF16;

impl MetalKernel for AttentionSteelPagedF16 {
    type Constants = AttentionPrefillPagedConstants;

    type Bindings = AttentionPrefillPagedBindingSet;

    open spec fn identity() -> KernelIdentity {
        KernelIdentity {
            library: "attention_steel_paged",
            function: "attention_steel_paged_f16_bq32_bk16_bd128_wm4_wn1_bs16",
            kernel: KernelId::AttentionPrefillSdpaPaged,
        }
    }

    fn kernel_identity() -> (r: KernelIdentity) {
        KernelIdentity {
            library: "attention_steel_paged",
            function: "attention_steel_paged_f16_bq32_bk16_bd128_wm4_wn1_bs16",
            kernel: KernelId::AttentionPrefillSdpaPaged,
        }
    }
}

/// Vector prefill attention, bfloat16.
#[derive(Clone, Copy, Debug, PartialEq, Eq)]
pub struct AttentionSdpaPagedBf16;

impl MetalKernel for AttentionSdpaPagedBf16 {
    type Constants = AttentionPrefillPagedConstants;

    type Bindings = AttentionPrefillPagedBindingSet;

    open spec fn identity() -> KernelIdentity {
        KernelIdentity {
            library: "attention",
            function: "attention_prefill_sdpa_v2_paged_bf16_specialized",
            kernel: KernelId::AttentionPrefillSdpaPaged,
        }
    }

    fn kernel_identity() -> (r: KernelIdentity) {
        KernelIdentity {
            library: "attention",
            function: "attention_prefill_sdpa_v2_paged_bf16_specialized",
            kernel: KernelId::AttentionPrefillSdpaPaged,
        }
    }
}

/// Vector prefill attention, half precision.
#[derive(Clone, Copy, Debug, PartialEq, Eq)]
pub struct AttentionSdpaPagedF16;

impl MetalKernel for AttentionSdpaPagedF16 {
    type Constants = AttentionPrefillPagedConstants;

    type Bindings = AttentionPrefillPagedBindingSet;

    open spec fn identity() -> KernelIdentity {
        KernelIdentity {
            library: "attention",
            function: "attention_prefill_sdpa_v2_paged_f16_specialized",
            kernel: KernelId::AttentionPrefillSdpaPaged,
        }
    }

    fn kernel_identity() -> (r: KernelIdentity) {
        KernelIdentity {
            library: "attention",
            function: "attention_prefill_sdpa_v2_paged_f16_specialized",
            kernel: KernelId::AttentionPrefillSdpaPaged,
        }
    }
}

} // verus!
