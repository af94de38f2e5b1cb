//! Which specialized pipeline a command runs on.
use crate::ids::ConstSlot;
use crate::lowered::{ConstantValue, KernelId, LoweredCommand, MetalDtype};
use vstd::prelude::*;
use vstd::string::StringExecFns;

verus! {

/// What identifies a specialized pipeline: the symbol and the values of its
/// function constants.
#[derive(Debug, PartialEq, Eq)]
pub struct PipelineKey {
    pub library: &'static str,
    pub function: &'static str,
    pub constants: Vec<ConstantValue>,
}

/// Why a pipeline could not be had.
#[derive(Debug)]
pub enum PipelineLookupError {
    /// Dense products do not run on a specialized pipeline.
    OpaqueKernel(KernelId),
    /// The kernel only stands for a change of shape.
    MetadataOnly(KernelId),
    /// The element type has no kernels.
    DtypeNotYetWired(KernelId, MetalDtype),
    /// The pipeline could not be built.
    Build(String),
}

/// Names the specialized pipelines of a device.
#[derive(Clone, Copy, Debug, PartialEq, Eq)]
pub struct SpecializedPipelines;

impl SpecializedPipelines {
    /// The key of the pipeline that a command runs on. A dense product has none.
    pub fn pipeline_for_command(&self, cmd: &LoweredCommand) -> (r: Result<
        PipelineKey,
        PipelineLookupError,
    >)
        ensures
            match r {
                Ok(key) => cmd.kernel !is Gemm && key.library == cmd.library && key.function
                    == cmd.function && key.constants@ == cmd.constants@,
                Err(e) => cmd.kernel is Gemm && e == PipelineLookupError::OpaqueKernel(
                    KernelId::Gemm,
                ),
            },
    {
        match cmd.kernel {
            KernelId::Gemm => Err(PipelineLookupError::OpaqueKernel(KernelId::Gemm)),
            _ => Ok(
                PipelineKey {
                    library: cmd.library,
                    function: cmd.function,
                    constants: vstd::slice::slice_to_vec(cmd.constants.as_slice()),
                },
            ),
        }
    }

    /// The key of the bfloat16 dense product of the given dimensions.
    pub fn pipeline_for_gemm_bf16(&self, m: u32, n: u32, k: u32) -> (key: PipelineKey)
        ensures
            key.library == "gemm",
            key.function == "gemm_bf16_specialized",
            key.constants@ == seq![
                ConstantValue::Uint { slot: ConstSlot(0), value: m },
                ConstantValue::Uint { slot: ConstSlot(1), value: n },
                ConstantValue::Uint { slot: ConstSlot(2), value: k },
            ],
    {
        PipelineKey {
            library: "gemm",
            function: "gemm_bf16_specialized",
            constants: vec![
                ConstantValue::uint(0, m),
                ConstantValue::uint(1, n),
                ConstantValue::uint(2, k),
            ],
        }
    }
}

/// The name of a kernel.
pub open spec fn kernel_name(k: KernelId) -> &'static str {
    match k {
        KernelId::Embed => "Embed",
        KernelId::RmsNorm => "RmsNorm",
        KernelId::FusedAddRmsNorm => "FusedAddRmsNorm",
        KernelId::Gemm => "Gemm",
        KernelId::FusedGateUpSiluMul => "FusedGateUpSiluMul",
        KernelId::RopeAppend => "RopeAppend",
        KernelId::FusedQkvRopeCache => "FusedQkvRopeCache",
        KernelId::FusedAffineQkvRopeCache => "FusedAffineQkvRopeCache",
        KernelId::AttentionViaCache => "AttentionViaCache",
        KernelId::AttentionPrefillSdpaPaged => "AttentionPrefillSdpaPaged",
        KernelId::ScalarMul => "ScalarMul",
        KernelId::Add => "Add",
        KernelId::BiasAdd => "BiasAdd",
        KernelId::Reshape => "Reshape",
        KernelId::AffineQmvQuad => "AffineQmvQuad",
        KernelId::AffineQmvFast => "AffineQmvFast",
        KernelId::AffineQmv => "AffineQmv",
        KernelId::AffineQmmT => "AffineQmmT",
        KernelId::AffineQmmTSplitK => "AffineQmmTSplitK",
        KernelId::AffineQmmTNax => "AffineQmmTNax",
        KernelId::SiluMul => "SiluMul",
        KernelId::SplitKReduceSum => "SplitKReduceSum",
        KernelId::AffineEmbed => "AffineEmbed",
        KernelId::SynthPreAttn => "SynthPreAttn",
        KernelId::SynthPreAttnPersistent => "SynthPreAttnPersistent",
        KernelId::SynthMlpPreDown => "SynthMlpPreDown",
        KernelId::SynthGateUpSiluMul => "SynthGateUpSiluMul",
        KernelId::GatherLastToken => "GatherLastToken",
        KernelId::ScatterFirstToLastRow => "ScatterFirstToLastRow",
        KernelId::Softmax => "Softmax",
        KernelId::ArgPartitionTopK => "ArgPartitionTopK",
        KernelId::TakeAlongAxis => "TakeAlongAxis",
        KernelId::SliceTrailingColsU32 => "SliceTrailingColsU32",
        KernelId::AffineGatherQmvFast => "AffineGatherQmvFast",
        KernelId::AffineGatherQmv => "AffineGatherQmv",
        KernelId::MoeWeightedSum => "MoeWeightedSum",
    }
}

/// Returns the name of a kernel.
pub fn kernel_label(k: KernelId) -> (s: &'static str)
    ensures
        s == kernel_name(k),
{
    match k {
        KernelId::Embed => "Embed",
        KernelId::RmsNorm => "RmsNorm",
        KernelId::FusedAddRmsNorm => "FusedAddRmsNorm",
        KernelId::Gemm => "Gemm",
        KernelId::FusedGateUpSiluMul => "FusedGateUpSiluMul",
        KernelId::RopeAppend => "RopeAppend",
        KernelId::FusedQkvRopeCache => "FusedQkvRopeCache",
        KernelId::FusedAffineQkvRopeCache => "FusedAffineQkvRopeCache",
        KernelId::AttentionViaCache => "AttentionViaCache",
        KernelId::AttentionPrefillSdpaPaged => "AttentionPrefillSdpaPaged",
        KernelId::ScalarMul => "ScalarMul",
        KernelId::Add => "Add",
        KernelId::BiasAdd => "BiasAdd",
        KernelId::Reshape => "Reshape",
        KernelId::AffineQmvQuad => "AffineQmvQuad",
        KernelId::AffineQmvFast => "AffineQmvFast",
        KernelId::AffineQmv => "AffineQmv",
        KernelId::AffineQmmT => "AffineQmmT",
        KernelId::AffineQmmTSplitK => "AffineQmmTSplitK",
        KernelId::AffineQmmTNax => "AffineQmmTNax",
        KernelId::SiluMul => "SiluMul",
        KernelId::SplitKReduceSum => "SplitKReduceSum",
        KernelId::AffineEmbed => "AffineEmbed",
        KernelId::SynthPreAttn => "SynthPreAttn",
        KernelId::SynthPreAttnPersistent => "SynthPreAttnPersistent",
        KernelId::SynthMlpPreDown => "SynthMlpPreDown",
        KernelId::SynthGateUpSiluMul => "SynthGateUpSiluMul",
        KernelId::GatherLastToken => "GatherLastToken",
        KernelId::ScatterFirstToLastRow => "ScatterFirstToLastRow",
        KernelId::Softmax => "Softmax",
        KernelId::ArgPartitionTopK => "ArgPartitionTopK",
        KernelId::TakeAlongAxis => "TakeAlongAxis",
        KernelId::SliceTrailingColsU32 => "SliceTrailingColsU32",
        KernelId::AffineGatherQmvFast => "AffineGatherQmvFast",
        KernelId::AffineGatherQmv => "AffineGatherQmv",
        KernelId::MoeWeightedSum => "MoeWeightedSum",
    }
}

/// The name of an element type.
pub open spec fn dtype_name(d: MetalDtype) -> &'static str {
    match d {
        MetalDtype::F16 => "F16",
        MetalDtype::Bf16 => "Bf16",
        MetalDtype::Int4 => "Int4",
    }
}

fn dtype_label(d: MetalDtype) -> (s: &'static str)
    ensures
        s == dtype_name(d),
{
    match d {
        MetalDtype::F16 => "F16",
        MetalDtype::Bf16 => "Bf16",
        MetalDtype::Int4 => "Int4",
    }
}

impl PipelineLookupError {
    /// The text of the error.
    pub open spec fn text(&self) -> Seq<char> {
        match self {
            PipelineLookupError::OpaqueKernel(k) => "specialized pipeline lookup: "@ + kernel_name(
                *k,
            )@ + " is opaque (route through MPS GEMM wrapper)"@,
            PipelineLookupError::MetadataOnly(k) => "specialized pipeline lookup: "@ + kernel_name(
                *k,
            )@ + " is a metadata-only op (lowering should drop it)"@,
            PipelineLookupError::DtypeNotYetWired(k, d) => {
                "specialized pipeline lookup: kernel "@ + kernel_name(*k)@ + " dtype "@
                    + dtype_name(*d)@ + " not yet wired"@
            },
            PipelineLookupError::Build(e) => "specialized pipeline build: "@ + e@,
        }
    }

    /// Returns the text of the error.
    pub fn message(&self) -> (s: String)
        ensures
            s@ == self.text(),
    {
        match self {
            PipelineLookupError::OpaqueKernel(k) => {
                let mut s = String::from_str("specialized pipeline lookup: ");
                s.append(kernel_label(*k));
                s.append(" is opaque (route through MPS GEMM wrapper)");
                s
            },
            PipelineLookupError::MetadataOnly(k) => {
                let mut s = String::from_str("specialized pipeline lookup: ");
                s.append(kernel_label(*k));
                s.append(" is a metadata-only op (lowering should drop it)");
                s
            },
            PipelineLookupError::DtypeNotYetWired(k, d) => {
                let mut s = String::from_str("specialized pipeline lookup: kernel ");
                s.append(kernel_label(*k));
                s.append(" dtype ");
                s.append(dtype_label(*d));
                s.append(" not yet wired");
                s
            },
            PipelineLookupError::Build(e) => {
                let mut s = String::from_str("specialized pipeline build: ");
                s.append(e.as_str());
                s
            },
        }
    }
}

/// A kernel's label is its name.
pub proof fn law_labels_are_names()
    ensures
        kernel_name(KernelId::Embed) == "Embed",
        kernel_name(KernelId::RmsNorm) == "RmsNorm",
        kernel_name(KernelId::FusedAddRmsNorm) == "FusedAddRmsNorm",
        kernel_name(KernelId::Gemm) == "Gemm",
        kernel_name(KernelId::FusedGateUpSiluMul) == "FusedGateUpSiluMul",
        kernel_name(KernelId::RopeAppend) == "RopeAppend",
        kernel_name(KernelId::FusedQkvRopeCache) == "FusedQkvRopeCache",
        kernel_name(KernelId::FusedAffineQkvRopeCache) == "FusedAffineQkvRopeCache",
        kernel_name(KernelId::AttentionViaCache) == "AttentionViaCache",
        kernel_name(KernelId::AttentionPrefillSdpaPaged) == "AttentionPrefillSdpaPaged",
        kernel_name(KernelId::ScalarMul) == "ScalarMul",
        kernel_name(KernelId::Add) == "Add",
        kernel_name(KernelId::BiasAdd) == "BiasAdd",
        kernel_name(KernelId::Reshape) == "Reshape",
        kernel_name(KernelId::AffineQmvQuad) == "AffineQmvQuad",
        kernel_name(KernelId::AffineQmvFast) == "AffineQmvFast",
        kernel_name(KernelId::AffineQmv) == "AffineQmv",
        kernel_name(KernelId::AffineQmmT) == "AffineQmmT",
        kernel_name(KernelId::AffineQmmTSplitK) == "AffineQmmTSplitK",
        kernel_name(KernelId::AffineQmmTNax) == "AffineQmmTNax",
        kernel_name(KernelId::SiluMul) == "SiluMul",
        kernel_name(KernelId::SplitKReduceSum) == "SplitKReduceSum",
        kernel_name(KernelId::AffineEmbed) == "AffineEmbed",
        kernel_name(KernelId::SynthPreAttn) == "SynthPreAttn",
        kernel_name(KernelId::SynthPreAttnPersistent) == "SynthPreAttnPersistent",
        kernel_name(KernelId::SynthMlpPreDown) == "SynthMlpPreDown",
        kernel_name(KernelId::SynthGateUpSiluMul) == "SynthGateUpSiluMul",
        kernel_name(KernelId::GatherLastToken) == "GatherLastToken",
        kernel_name(KernelId::ScatterFirstToLastRow) == "ScatterFirstToLastRow",
        kernel_name(KernelId::Softmax) == "Softmax",
        kernel_name(KernelId::ArgPartitionTopK) == "ArgPartitionTopK",
        kernel_name(KernelId::TakeAlongAxis) == "TakeAlongAxis",
        kernel_name(KernelId::SliceTrailingColsU32) == "SliceTrailingColsU32",
        kernel_name(KernelId::AffineGatherQmvFast) == "AffineGatherQmvFast",
        kernel_name(KernelId::AffineGatherQmv) == "AffineGatherQmv",
        kernel_name(KernelId::MoeWeightedSum) == "MoeWeightedSum",
        dtype_name(MetalDtype::F16) == "F16",
        dtype_name(MetalDtype::Bf16) == "Bf16",
        dtype_name(MetalDtype::Int4) == "Int4",
{
}

} // verus!
