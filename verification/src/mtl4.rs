//! Argument tables of the steps of a bucket.
//!
//! A bucket can be encoded only if none of its steps is a library matrix
//! product and no command binds more buffers than an argument table holds.
use crate::lowered::{KernelId, MScaling, RuntimeGate};
use vstd::prelude::*;

verus! {

/// Buffers that an argument table holds at most.
pub const MTL4_MAX_BUFFER_BINDS: usize = 31;

/// Grid of one dispatch: threadgroups, and threads per threadgroup.
pub type Grid = ((u32, u32, u32), (u32, u32, u32));

/// A buffer bound to one argument.
#[derive(Clone, Copy, Debug, PartialEq, Eq)]
pub struct BoundBuffer {
    /// Device address of the buffer.
    pub gpu_address: u64,
    /// Byte offset into the buffer.
    pub offset: u64,
    /// Argument index.
    pub index: u32,
}

/// A run of dispatches of one kernel, as the worker recorded it.
#[derive(Debug)]
pub struct IcbStep {
    pub kernel: KernelId,
    /// Identity of the pipeline.
    pub pipeline: u64,
    /// Per dispatch, its bindings.
    pub direct_bindings: Vec<Vec<BoundBuffer>>,
    pub direct_dispatch: Vec<Grid>,
    pub direct_m_scaling: Vec<Option<MScaling>>,
    pub barrier_before: Vec<bool>,
    pub runtime_gate: Vec<Option<RuntimeGate>>,
}

/// One step of a bucket's plan.
#[derive(Debug)]
pub enum BucketStep {
    /// A library matrix product, which has no argument table.
    Gemm,
    /// Dispatches of one kernel.
    Icb(IcbStep),
}

/// Contents of one argument table.
#[derive(Debug)]
pub struct ArgumentTable {
    /// Number of arguments that the table holds.
    pub bind_count: usize,
    /// Argument index and device address, in the order of the bindings.
    pub addresses: Vec<(usize, u64)>,
}

/// Dispatches of one kernel, with their argument tables. All sequences run
/// parallel.
#[derive(Debug)]
pub struct Mtl4Step {
    pub kernel: KernelId,
    pub pipeline: u64,
    pub tables: Vec<ArgumentTable>,
    pub dispatches: Vec<Grid>,
    pub m_scaling: Vec<Option<MScaling>>,
    pub barrier_before: Vec<bool>,
    pub runtime_gate: Vec<Option<RuntimeGate>>,
}

impl IcbStep {
    /// All sequences run parallel, and the bound addresses exist.
    pub open spec fn wf(&self) -> bool {
        &&& self.direct_dispatch@.len() == self.direct_bindings@.len()
        &&& self.direct_m_scaling@.len() == self.direct_bindings@.len()
        &&& self.barrier_before@.len() == self.direct_bindings@.len()
        &&& self.runtime_gate@.len() == self.direct_bindings@.len()
        &&& forall|i: int, j: int|
            0 <= i < self.direct_bindings@.len() && 0 <= j < (
            #[trigger] self.direct_bindings@[i])@.len() ==> {
                let b = #[trigger] self.direct_bindings@[i]@[j];
                b.gpu_address + b.offset <= u64::MAX
            }
    }

    /// Every command fits into an argument table.
    pub open spec fn fits(&self) -> bool {
        forall|i: int|
            0 <= i < self.direct_bindings@.len() ==> table_fits(
                (#[trigger] self.direct_bindings@[i])@,
            )
    }
}

impl BucketStep {
    /// Dispatches are well-formed.
    pub open spec fn wf(&self) -> bool {
        self matches BucketStep::Icb(step) ==> step.wf()
    }

    /// The step can be encoded.
    pub open spec fn eligible(&self) -> bool {
        self matches BucketStep::Icb(step) && step.fits()
    }
}

/// All arguments lie within an argument table.
pub open spec fn table_fits(bindings: Seq<BoundBuffer>) -> bool {
    forall|j: int|
        0 <= j < bindings.len() ==> (#[trigger] bindings[j]).index < MTL4_MAX_BUFFER_BINDS
}

/// `n` arguments are just enough: one more than the largest index, and one
/// where nothing is bound.
pub open spec fn is_bind_count(bindings: Seq<BoundBuffer>, n: int) -> bool {
    &&& n >= 1
    &&& forall|j: int| 0 <= j < bindings.len() ==> (#[trigger] bindings[j]).index < n
    &&& n == 1 || exists|j: int| 0 <= j < bindings.len() && (#[trigger] bindings[j]).index == n - 1
}

/// `table` holds the given bindings.
pub open spec fn is_table(bindings: Seq<BoundBuffer>, table: ArgumentTable) -> bool {
    &&& is_bind_count(bindings, table.bind_count as int)
    &&& table.addresses@.len() == bindings.len()
    &&& forall|j: int|
        0 <= j < bindings.len() ==> (#[trigger] table.addresses@[j]).0 == bindings[j].index
            && table.addresses@[j].1 == bindings[j].gpu_address + bindings[j].offset
}

/// `baked` is the step with its argument tables.
pub open spec fn is_baked(step: BucketStep, baked: Mtl4Step) -> bool {
    &&& step matches BucketStep::Icb(icb)
    &&& baked.kernel == icb.kernel
    &&& baked.pipeline == icb.pipeline
    &&& baked.dispatches@ == icb.direct_dispatch@
    &&& baked.m_scaling@ == icb.direct_m_scaling@
    &&& baked.barrier_before@ == icb.barrier_before@
    &&& baked.runtime_gate@ == icb.runtime_gate@
    &&& baked.tables@.len() == icb.direct_bindings@.len()
    &&& forall|i: int|
        0 <= i < baked.tables@.len() ==> is_table(
            icb.direct_bindings@[i]@,
            #[trigger] baked.tables@[i],
        )
}

/// Builds the table of one command, if its arguments fit.
fn bake_table(bindings: &Vec<BoundBuffer>) -> (r: Option<ArgumentTable>)
    requires
        forall|j: int|
            0 <= j < bindings@.len() ==> (#[trigger] bindings@[j]).gpu_address + bindings@[j].offset
                <= u64::MAX,
    ensures
        r is Some <==> table_fits(bindings@),
        r matches Some(table) ==> is_table(bindings@, table),
{
    let mut max_idx: u32 = 0;
    let mut j: usize = 0;
    while j < bindings.len()
        invariant
            j <= bindings@.len(),
            is_bind_count(bindings@.take(j as int), max_idx + 1),
        decreases bindings@.len() - j,
    {
        let idx: u32 = bindings[j].index;
        proof {
            let front = bindings@.take(j as int);
            let longer = bindings@.take(j + 1);
            assert(longer =~= front.push(bindings@[j as int]));
            assert(longer[j as int].index == idx);
            assert(forall|k: int| 0 <= k < j ==> #[trigger] longer[k] == front[k]);
            if max_idx > 0 {
                let k = choose|k: int|
                    0 <= k < front.len() && (#[trigger] front[k]).index == max_idx + 1 - 1;
                assert(longer[k].index == max_idx);
            }
        }
        if idx > max_idx {
            max_idx = idx;
        }
        j += 1;
    }
    assert(bindings@.take(j as int) =~= bindings@);
    let bind_count: u64 = max_idx as u64 + 1;
    if bind_count > MTL4_MAX_BUFFER_BINDS as u64 {
        proof {
            let k = choose|k: int|
                0 <= k < bindings@.len() && (#[trigger] bindings@[k]).index == max_idx + 1 - 1;
            assert(bindings@[k].index >= MTL4_MAX_BUFFER_BINDS);
        }
        return None;
    }
    let mut addresses: Vec<(usize, u64)> = Vec::new();
    let mut j: usize = 0;
    while j < bindings.len()
        invariant
            j <= bindings@.len(),
            addresses@.len() == j,
            forall|k: int|
                0 <= k < bindings@.len() ==> (#[trigger] bindings@[k]).gpu_address
                    + bindings@[k].offset <= u64::MAX,
            forall|k: int|
                0 <= k < j ==> (#[trigger] addresses@[k]).0 == bindings@[k].index
                    && addresses@[k].1 == bindings@[k].gpu_address + bindings@[k].offset,
        decreases bindings@.len() - j,
    {
        let b: BoundBuffer = bindings[j];
        let addr: u64 = b.gpu_address + b.offset;
        addresses.push((b.index as usize, addr));
        j += 1;
    }
    Some(ArgumentTable { bind_count: bind_count as usize, addresses })
}

/// Bakes one run of dispatches, if all its commands fit.
fn bake_step(step: &IcbStep) -> (r: Option<Mtl4Step>)
    requires
        step.wf(),
    ensures
        r is Some <==> step.fits(),
        r matches Some(baked) ==> is_baked(BucketStep::Icb(*step), baked),
{
    let mut tables: Vec<ArgumentTable> = Vec::new();
    let mut i: usize = 0;
    while i < step.direct_bindings.len()
        invariant
            i <= step.direct_bindings@.len(),
            step.wf(),
            tables@.len() == i,
            forall|k: int|
                0 <= k < i ==> is_table(step.direct_bindings@[k]@, #[trigger] tables@[k]),
            forall|k: int|
                0 <= k < i ==> table_fits((#[trigger] step.direct_bindings@[k])@),
        decreases step.direct_bindings@.len() - i,
    {
        match bake_table(&step.direct_bindings[i]) {
            Some(table) => {
                tables.push(table);
            },
            None => {
                assert(!table_fits(step.direct_bindings@[i as int]@));
                return None;
            },
        }
        i += 1;
    }
    Some(
        Mtl4Step {
            kernel: step.kernel,
            pipeline: step.pipeline,
            tables,
            dispatches: vstd::slice::slice_to_vec(step.direct_dispatch.as_slice()),
            m_scaling: vstd::slice::slice_to_vec(step.direct_m_scaling.as_slice()),
            barrier_before: vstd::slice::slice_to_vec(step.barrier_before.as_slice()),
            runtime_gate: vstd::slice::slice_to_vec(step.runtime_gate.as_slice()),
        },
    )
}

/// Bakes the argument tables of a bucket, one step each. A bucket with a
/// library matrix product, or with a command that binds an argument past the
/// end of a table, has no plan.
pub fn bake_mtl4_steps(steps: &[BucketStep]) -> (r: Option<Vec<Mtl4Step>>)
    requires
        forall|i: int| 0 <= i < steps@.len() ==> (#[trigger] steps@[i]).wf(),
    ensures
        r is Some <==> forall|i: int| 0 <= i < steps@.len() ==> (#[trigger] steps@[i]).eligible(),
        r matches Some(baked) ==> baked@.len() == steps@.len() && forall|i: int|
            0 <= i < steps@.len() ==> is_baked(#[trigger] steps@[i], baked@[i]),
{
    let mut out: Vec<Mtl4Step> = Vec::new();
    let mut i: usize = 0;
    while i < steps.len()
        invariant
            i <= steps@.len(),
            out@.len() == i,
            forall|k: int| 0 <= k < steps@.len() ==> (#[trigger] steps@[k]).wf(),
            forall|k: int| 0 <= k < i ==> (#[trigger] steps@[k]).eligible(),
            forall|k: int| 0 <= k < i ==> is_baked(#[trigger] steps@[k], out@[k]),
        decreases steps@.len() - i,
    {
        assert(steps@[i as int].wf());
        match &steps[i] {
            BucketStep::Gemm => {
                assert(!steps@[i as int].eligible());
                return None;
            },
            BucketStep::Icb(step) => match bake_step(step) {
                Some(baked) => {
                    out.push(baked);
                },
                None => {
                    assert(!steps@[i as int].eligible());
                    return None;
                },
            },
        }
        i += 1;
    }
    Some(out)
}

/// The sequences of a baked step run parallel, its tables stay within the
/// limit, and every address lies inside its table.
pub proof fn law_baked_steps_are_parallel(step: BucketStep, baked: Mtl4Step, i: int, j: int)
    requires
        step.wf(),
        step.eligible(),
        is_baked(step, baked),
        0 <= i < baked.tables@.len(),
        0 <= j < baked.tables@[i].addresses@.len(),
    ensures
        baked.dispatches@.len() == baked.tables@.len(),
        baked.m_scaling@.len() == baked.tables@.len(),
        baked.barrier_before@.len() == baked.tables@.len(),
        baked.runtime_gate@.len() == baked.tables@.len(),
        baked.tables@[i].addresses@[j].0 < baked.tables@[i].bind_count <= MTL4_MAX_BUFFER_BINDS,
{
    let icb = step->Icb_0;
    let bindings = icb.direct_bindings@[i]@;
    let table = baked.tables@[i];
    assert(is_table(bindings, table));
    assert(table_fits(bindings));
    assert(table.addresses@[j].0 == bindings[j].index);
    let n = table.bind_count as int;
    if n != 1 {
        let k = choose|k: int| 0 <= k < bindings.len() && (#[trigger] bindings[k]).index == n - 1;
        assert(bindings[k].index < MTL4_MAX_BUFFER_BINDS);
    }
}

/// A baked step keeps everything of its source, and dispatch `i` finds its
/// buffer `j` at the argument that the buffer is bound to, at the buffer's
/// address plus the offset.
pub proof fn law_baked_tables_point_at_their_buffers(
    icb: IcbStep,
    baked: Mtl4Step,
    i: int,
    j: int,
)
    requires
        is_baked(BucketStep::Icb(icb), baked),
        0 <= i < icb.direct_bindings@.len(),
        0 <= j < icb.direct_bindings@[i]@.len(),
    ensures
        baked.kernel == icb.kernel,
        baked.pipeline == icb.pipeline,
        baked.dispatches@ == icb.direct_dispatch@,
        baked.m_scaling@ == icb.direct_m_scaling@,
        baked.barrier_before@ == icb.barrier_before@,
        baked.runtime_gate@ == icb.runtime_gate@,
        baked.tables@.len() == icb.direct_bindings@.len(),
        baked.tables@[i].addresses@.len() == icb.direct_bindings@[i]@.len(),
        baked.tables@[i].addresses@[j].0 == icb.direct_bindings@[i]@[j].index,
        baked.tables@[i].addresses@[j].1 == icb.direct_bindings@[i]@[j].gpu_address
            + icb.direct_bindings@[i]@[j].offset,
        icb.direct_bindings@[i]@[j].index < baked.tables@[i].bind_count,
{
    assert(is_table(icb.direct_bindings@[i]@, baked.tables@[i]));
}

/// A table holds one argument more than the largest bound index, and a bucket
/// can be encoded exactly if no step is a library product and no index is 31 or
/// more.
pub proof fn law_tables_hold_thirty_one_arguments(
    bindings: Seq<BoundBuffer>,
    table: ArgumentTable,
    step: BucketStep,
)
    requires
        is_table(bindings, table),
        bindings.len() > 0,
    ensures
        exists|j: int|
            0 <= j < bindings.len() && (#[trigger] bindings[j]).index + 1 == table.bind_count,
        table_fits(bindings) <==> table.bind_count <= 31,
        step is Gemm ==> !step.eligible(),
{
    let n = table.bind_count as int;
    if n == 1 {
        assert(bindings[0].index < 1);
        assert(bindings[0].index + 1 == table.bind_count);
    } else {
        let j = choose|j: int| 0 <= j < bindings.len() && (#[trigger] bindings[j]).index == n - 1;
        assert(bindings[j].index + 1 == table.bind_count);
    }
    if table_fits(bindings) {
        let j = choose|j: int|
            0 <= j < bindings.len() && (#[trigger] bindings[j]).index + 1 == table.bind_count;
        assert(bindings[j].index < 31);
    }
}

} // verus!
