//! The recording executor: a walk over a tape that records each instruction
//! once.
//!
//! No instruction has a recorder yet, so only the empty tape can be recorded.
use crate::instruction::Instruction;
use vstd::prelude::*;
use vstd::string::StringExecFns;

verus! {

/// An executor whose tape is recorded.
#[derive(Debug)]
pub struct MetalExecutor<W> {
    weights: W,
    num_slots: usize,
}

/// Name of an instruction whose recorder is planned.
pub open spec fn planned_name(inst: Instruction) -> Option<&'static str> {
    match inst {
        Instruction::RmsNorm(..) => Some("RmsNorm"),
        Instruction::Gemm(..) => Some("Gemm"),
        Instruction::Add(..) => Some("Add"),
        Instruction::Reshape(..) => Some("Reshape"),
        Instruction::Embed(..) => Some("Embed"),
        Instruction::ScalarMul(..) => Some("ScalarMul"),
        Instruction::FusedAddRmsNorm(..) => Some("FusedAddRmsNorm"),
        Instruction::RopeAppend(..) => Some("RopeAppend"),
        _ => None,
    }
}

/// Why an instruction cannot be recorded.
pub open spec fn recording_error(inst: Instruction, variant_type: Seq<char>) -> Seq<char> {
    match planned_name(inst) {
        Some(name) => name@ + " recording not yet implemented"@,
        None => {
            "Instruction variant not yet supported in Metal executor: \""@ + variant_type + "\""@
        },
    }
}

/// Says why an instruction cannot be recorded.
fn describe(inst: &Instruction, variant_type: &str) -> (s: String)
    ensures
        s@ == recording_error(*inst, variant_type@),
{
    let name: Option<&'static str> = match *inst {
        Instruction::RmsNorm(..) => Some("RmsNorm"),
        Instruction::Gemm(..) => Some("Gemm"),
        Instruction::Add(..) => Some("Add"),
        Instruction::Reshape(..) => Some("Reshape"),
        Instruction::Embed(..) => Some("Embed"),
        Instruction::ScalarMul(..) => Some("ScalarMul"),
        Instruction::FusedAddRmsNorm(..) => Some("FusedAddRmsNorm"),
        Instruction::RopeAppend(..) => Some("RopeAppend"),
        _ => None,
    };
    match name {
        Some(n) => {
            let mut s = String::from_str(n);
            s.append(" recording not yet implemented");
            s
        },
        None => {
            let mut s = String::from_str(
                "Instruction variant not yet supported in Metal executor: \"",
            );
            s.append(variant_type);
            s.append("\"");
            s
        },
    }
}

impl<W> MetalExecutor<W> {
    /// The weights that the tape reads.
    pub closed spec fn held_weights(&self) -> W {
        self.weights
    }

    /// The number of tile slots.
    pub closed spec fn slots(&self) -> int {
        self.num_slots as int
    }

    /// Records a tape. `device_found` and `context` say whether there is a
    /// device and whether a recording could be opened on it; `variant_type` is
    /// the name of the instruction type.
    pub fn new(
        device_found: bool,
        context: Result<(), String>,
        instructions: &[Instruction],
        weights: W,
        num_slots: usize,
        variant_type: &str,
    ) -> (r: Result<Self, String>)
        ensures
            r is Ok <==> device_found && context is Ok && instructions@.len() == 0,
            r matches Ok(e) ==> e.held_weights() == weights && e.slots() == num_slots,
            r matches Err(m) ==> m@ == if !device_found {
                "No Metal device found"@
            } else if context is Err {
                context->Err_0@
            } else {
                recording_error(instructions@[0], variant_type@)
            },
    {
        if !device_found {
            return Err(String::from_str("No Metal device found"));
        }
        match context {
            Err(m) => Err(m),
            Ok(()) => {
                if instructions.len() > 0 {
                    Err(describe(&instructions[0], variant_type))
                } else {
                    Ok(MetalExecutor { weights, num_slots })
                }
            },
        }
    }

    /// Runs the recorded tape, which is not possible yet.
    pub fn forward(&self) -> (r: Result<(), String>)
        ensures
            r matches Err(m) && m@ == "forward() not yet implemented"@,
    {
        Err(String::from_str("forward() not yet implemented"))
    }
}

/// The instructions whose recorder is planned are named in the error; any other
/// is reported by its type.
pub proof fn law_planned_recorders(inst: Instruction)
    ensures
        inst is RmsNorm ==> planned_name(inst) == Some("RmsNorm"),
        inst is Gemm ==> planned_name(inst) == Some("Gemm"),
        inst is Add ==> planned_name(inst) == Some("Add"),
        inst is Reshape ==> planned_name(inst) == Some("Reshape"),
        inst is Embed ==> planned_name(inst) == Some("Embed"),
        inst is ScalarMul ==> planned_name(inst) == Some("ScalarMul"),
        inst is FusedAddRmsNorm ==> planned_name(inst) == Some("FusedAddRmsNorm"),
        inst is RopeAppend ==> planned_name(inst) == Some("RopeAppend"),
        planned_name(inst) is Some <==> inst is RmsNorm || inst is Gemm || inst is Add
            || inst is Reshape || inst is Embed || inst is ScalarMul || inst is FusedAddRmsNorm
            || inst is RopeAppend,
{
}

} // verus!
