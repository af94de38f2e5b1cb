//! Inputs and errors of a forward step.
use crate::text::{decimal, push_decimal};
use vstd::prelude::*;
use vstd::std_specs::convert::FromSpecImpl;
use vstd::string::StringExecFns;

verus! {

/// Runtime inputs of one forward step. A field that the chosen bucket does not
/// read may be `None`; the buffer behind it is then left alone.
#[derive(Clone, Copy, Debug)]
pub struct ForwardInputs<'a> {
    /// Number of real tokens.
    pub num_tokens: u32,
    /// Token ids to embed.
    pub input_ids: &'a [u32],
    /// Rotary position per token.
    pub positions: &'a [u32],
    /// Paged-cache slot per token.
    pub slot_mapping: Option<&'a [u32]>,
    /// Cumulative sequence boundaries, one more than there are sequences.
    pub cu_seqlens_q: Option<&'a [u32]>,
    /// Used key length per sequence.
    pub seq_used_k: Option<&'a [u32]>,
    /// Block table per sequence.
    pub block_table: Option<&'a [u32]>,
    /// Rows whose logits are sampled.
    pub last_token_indices: Option<&'a [u32]>,
    /// Whether the step verifies speculative tokens.
    pub has_spec_tokens: bool,
}

impl<'a> ForwardInputs<'a> {
    /// The number of sequences packed into the step: one less than there are
    /// boundaries, but at least one, and one where no boundaries are given.
    pub open spec fn seq_count(&self) -> int {
        match self.cu_seqlens_q {
            Some(cu) => if cu@.len() <= 2 {
                1
            } else {
                cu@.len() - 1
            },
            None => 1,
        }
    }

    /// Returns the number of sequences packed into the step.
    pub fn num_seqs(&self) -> (n: u32)
        ensures
            n == self.seq_count() as u32,
            self.seq_count() <= u32::MAX ==> n == self.seq_count(),
    {
        match self.cu_seqlens_q {
            Some(cu) => {
                let len: usize = cu.len();
                if len <= 2 {
                    1
                } else {
                    let count: usize = len - 1;
                    #[verifier::truncate]
                    (count as u32)
                }
            },
            None => 1,
        }
    }
}

/// Failure of a worker, as it reports it.
#[derive(Debug)]
pub struct WorkerError {
    pub message: String,
}

/// Completion status of a command buffer, by the number that Metal gives it.
#[derive(Clone, Copy, Debug, PartialEq, Eq, Structural)]
pub struct CommandBufferStatus(pub usize);

impl CommandBufferStatus {
    /// Execution was aborted.
    pub fn error() -> (s: Self)
        ensures
            s == CommandBufferStatus(5),
    {
        CommandBufferStatus(5)
    }
}

/// Why a forward step failed.
#[derive(Debug)]
pub enum ForwardError {
    /// The step has no tokens.
    ZeroTokens,
    /// The step has more tokens than the largest bucket.
    NoBucketFits { num_tokens: u32, max_bucket: u32 },
    /// An input is larger than the buffer that it goes to.
    BufferTooSmall { kind: &'static str, bytes_needed: usize, bytes_available: usize },
    /// A worker failed.
    Worker(WorkerError),
    /// The command buffer did not complete.
    ExecutionFailed(CommandBufferStatus),
    /// A hook of the caller failed.
    Followup(String),
}

impl From<WorkerError> for ForwardError {
    fn from(e: WorkerError) -> (r: Self) {
        ForwardError::Worker(e)
    }
}

impl FromSpecImpl<WorkerError> for ForwardError {
    open spec fn obeys_from_spec() -> bool {
        true
    }

    open spec fn from_spec(e: WorkerError) -> Self {
        ForwardError::Worker(e)
    }
}

impl ForwardError {
    /// The text of the error.
    pub open spec fn text(&self) -> Seq<char> {
        match self {
            ForwardError::ZeroTokens => "MetalWorkerPool::forward: num_tokens == 0"@,
            ForwardError::NoBucketFits { num_tokens, max_bucket } => {
                "MetalWorkerPool::forward: no bucket fits num_tokens="@ + decimal(
                    *num_tokens as nat,
                ) + " (max bucket_m = "@ + decimal(*max_bucket as nat) + ")"@
            },
            ForwardError::BufferTooSmall { kind, bytes_needed, bytes_available } => {
                "MetalWorkerPool::forward: runtime buffer `"@ + kind@ + "` too small (needs "@
                    + decimal(*bytes_needed as nat) + " bytes, have "@ + decimal(
                    *bytes_available as nat,
                ) + ")"@
            },
            ForwardError::Worker(e) => "MetalWorkerPool::forward: "@ + e.message@,
            ForwardError::ExecutionFailed(status) => {
                "MetalWorkerPool::forward: command buffer status = MTLCommandBufferStatus("@
                    + decimal(status.0 as nat) + ") (expected Completed)"@
            },
            ForwardError::Followup(msg) => {
                "MetalWorkerPool::forward: followup hook failed: "@ + msg@
            },
        }
    }

    /// Returns the text of the error.
    pub fn message(&self) -> (s: String)
        ensures
            s@ == self.text(),
    {
        match self {
            ForwardError::ZeroTokens => String::from_str(
                "MetalWorkerPool::forward: num_tokens == 0",
            ),
            ForwardError::NoBucketFits { num_tokens, max_bucket } => {
                let mut s = String::from_str(
                    "MetalWorkerPool::forward: no bucket fits num_tokens=",
                );
                push_decimal(&mut s, *num_tokens as u64);
                s.append(" (max bucket_m = ");
                push_decimal(&mut s, *max_bucket as u64);
                s.append(")");
                s
            },
            ForwardError::BufferTooSmall { kind, bytes_needed, bytes_available } => {
                let mut s = String::from_str("MetalWorkerPool::forward: runtime buffer `");
                s.append(kind);
                s.append("` too small (needs ");
                push_decimal(&mut s, *bytes_needed as u64);
                s.append(" bytes, have ");
                push_decimal(&mut s, *bytes_available as u64);
                s.append(")");
                s
            },
            ForwardError::Worker(e) => {
                let mut s = String::from_str("MetalWorkerPool::forward: ");
                s.append(e.message.as_str());
                s
            },
            ForwardError::ExecutionFailed(status) => {
                let mut s = String::from_str(
                    "MetalWorkerPool::forward: command buffer status = MTLCommandBufferStatus(",
                );
                push_decimal(&mut s, status.0 as u64);
                s.append(") (expected Completed)");
                s
            },
            ForwardError::Followup(msg) => {
                let mut s = String::from_str("MetalWorkerPool::forward: followup hook failed: ");
                s.append(msg.as_str());
                s
            },
        }
    }
}

/// `n + 1` boundaries delimit `n` sequences; fewer than two delimit the one
/// sequence that there always is.
pub proof fn law_boundaries_delimit_sequences(inputs: ForwardInputs<'_>)
    ensures
        inputs.cu_seqlens_q is None ==> inputs.seq_count() == 1,
        inputs.cu_seqlens_q matches Some(cu) ==> (cu@.len() >= 2 ==> inputs.seq_count() + 1
            == cu@.len()),
        inputs.cu_seqlens_q matches Some(cu) ==> (cu@.len() < 2 ==> inputs.seq_count() == 1),
{
}

} // verus!
