//! Per-dispatch timing: labels of the dispatches of one command buffer, and
//! the totals per pipeline once their timestamps are known.
use crate::lowered::KernelId;
use vstd::prelude::*;

verus! {

/// Labels of the dispatches of one command buffer.
#[derive(Debug)]
pub struct DispatchTimingState {
    pipeline_ptr: Vec<usize>,
    pipeline_kernel: Vec<KernelId>,
    dispatch_shape: Vec<(u32, u32, u32)>,
    dispatch_count: usize,
}

/// Label of one dispatch.
pub struct Label {
    /// Identity of the pipeline.
    pub pipeline: usize,
    pub kernel: KernelId,
    /// Threadgroups of the dispatch.
    pub shape: (u32, u32, u32),
}

/// What a `DispatchTimingState` holds.
pub struct TimingView {
    pub labels: Seq<Label>,
    pub dispatch_count: int,
}

/// Total of one pipeline.
#[derive(Clone, Copy, Debug, PartialEq, Eq)]
pub struct PipelineTotal {
    pub pipeline: usize,
    /// Ticks of all its dispatches.
    pub ticks: u64,
    /// Number of its dispatches.
    pub count: u32,
    /// Kernel of its first dispatch.
    pub kernel: KernelId,
}

/// Totals of one command buffer.
#[derive(Debug)]
pub struct TimingReport {
    pub dispatches: usize,
    pub total_ticks: u64,
    /// One entry per pipeline, the longest first.
    pub pipelines: Vec<PipelineTotal>,
}

/// One past the largest tick count.
pub open spec fn tick_modulus() -> int {
    0x1_0000_0000_0000_0000
}

/// Ticks between two timestamps of a counter that may wrap around.
pub open spec fn ticks_between(from: u64, to: u64) -> int {
    (to - from) % tick_modulus()
}

/// Ticks of dispatch `i`.
pub open spec fn dispatch_delta(timestamps: Seq<u64>, i: int) -> int {
    ticks_between(timestamps[i], timestamps[i + 1])
}

/// Ticks of the first `n` dispatches.
pub open spec fn all_ticks(timestamps: Seq<u64>, n: int) -> int
    decreases n,
{
    if n <= 0 {
        0
    } else {
        all_ticks(timestamps, n - 1) + dispatch_delta(timestamps, n - 1)
    }
}

/// Ticks of those of the first `n` dispatches that run on `pipeline`.
pub open spec fn pipeline_ticks(
    labels: Seq<Label>,
    timestamps: Seq<u64>,
    n: int,
    pipeline: usize,
) -> int
    decreases n,
{
    if n <= 0 {
        0
    } else {
        pipeline_ticks(labels, timestamps, n - 1, pipeline) + if labels[n - 1].pipeline
            == pipeline {
            dispatch_delta(timestamps, n - 1)
        } else {
            0
        }
    }
}

/// Number of those of the first `n` dispatches that run on `pipeline`.
pub open spec fn pipeline_count(labels: Seq<Label>, n: int, pipeline: usize) -> int
    decreases n,
{
    if n <= 0 {
        0
    } else {
        pipeline_count(labels, n - 1, pipeline) + if labels[n - 1].pipeline == pipeline {
            1int
        } else {
            0int
        }
    }
}

/// Dispatch `i` is the first on its pipeline.
pub open spec fn first_on_pipeline(labels: Seq<Label>, i: int) -> bool {
    forall|j: int| 0 <= j < i ==> (#[trigger] labels[j]).pipeline != labels[i].pipeline
}

/// The first of the `n` first dispatches on `pipeline` runs `kernel`.
#[verifier::opaque]
pub open spec fn starts_with(
    labels: Seq<Label>,
    n: int,
    pipeline: usize,
    kernel: KernelId,
) -> bool {
    exists|i: int|
        0 <= i < n && first_on_pipeline(labels, i) && (#[trigger] labels[i]).pipeline == pipeline
            && labels[i].kernel == kernel
}

/// One of the totals is that of `pipeline`.
#[verifier::opaque]
pub open spec fn listed(entries: Seq<PipelineTotal>, pipeline: usize) -> bool {
    exists|a: int| 0 <= a < entries.len() && (#[trigger] entries[a]).pipeline == pipeline
}

/// `e` is the total of one pipeline over the first `n` dispatches.
pub open spec fn is_total(
    labels: Seq<Label>,
    timestamps: Seq<u64>,
    n: int,
    e: PipelineTotal,
) -> bool {
    &&& e.ticks == pipeline_ticks(labels, timestamps, n, e.pipeline) % tick_modulus()
    &&& e.count == pipeline_count(labels, n, e.pipeline)
    &&& starts_with(labels, n, e.pipeline, e.kernel)
}

/// No pipeline occurs twice.
pub open spec fn distinct(entries: Seq<PipelineTotal>) -> bool {
    forall|a: int, b: int|
        0 <= a < b < entries.len() ==> (#[trigger] entries[a]).pipeline != (
        #[trigger] entries[b]).pipeline
}

/// `entries` are the totals of all pipelines of the first `n` dispatches.
pub open spec fn are_totals(
    labels: Seq<Label>,
    timestamps: Seq<u64>,
    n: int,
    entries: Seq<PipelineTotal>,
) -> bool {
    &&& distinct(entries)
    &&& forall|a: int|
        0 <= a < entries.len() ==> is_total(labels, timestamps, n, #[trigger] entries[a])
    &&& forall|i: int| 0 <= i < n ==> listed(entries, (#[trigger] labels[i]).pipeline)
}

/// The longest comes first.
pub open spec fn longest_first(entries: Seq<PipelineTotal>) -> bool {
    forall|a: int, b: int|
        0 <= a < b < entries.len() ==> (#[trigger] entries[a]).ticks >= (
        #[trigger] entries[b]).ticks
}

/// Ticks between two timestamps.
fn wrapping_ticks(from: u64, to: u64) -> (d: u64)
    ensures
        d == ticks_between(from, to),
{
    proof {
        if to < from {
            vstd::arithmetic::div_mod::lemma_fundamental_div_mod_converse(
                to - from,
                tick_modulus(),
                -1,
                to - from + tick_modulus(),
            );
        } else {
            vstd::arithmetic::div_mod::lemma_small_mod((to - from) as nat, tick_modulus() as nat);
        }
    }
    to.wrapping_sub(from)
}

/// Adds ticks modulo the counter's width.
fn wrapping_sum(a: u64, b: u64, Ghost(exact): Ghost<int>) -> (s: u64)
    requires
        a == exact % tick_modulus(),
    ensures
        s == (exact + b) % tick_modulus(),
{
    proof {
        let m = tick_modulus();
        vstd::arithmetic::div_mod::lemma_add_mod_noop(exact, b as int, m);
        vstd::arithmetic::div_mod::lemma_small_mod(b as nat, m as nat);
        if a + b >= m {
            vstd::arithmetic::div_mod::lemma_fundamental_div_mod_converse(a + b, m, 1, a + b - m);
        } else {
            vstd::arithmetic::div_mod::lemma_small_mod((a + b) as nat, m as nat);
        }
    }
    a.wrapping_add(b)
}

impl DispatchTimingState {
    /// What the state holds.
    pub closed spec fn view(&self) -> TimingView {
        TimingView {
            labels: Seq::new(
                self.pipeline_ptr@.len(),
                |i: int|
                    Label {
                        pipeline: self.pipeline_ptr@[i],
                        kernel: self.pipeline_kernel@[i],
                        shape: self.dispatch_shape@[i],
                    },
            ),
            dispatch_count: self.dispatch_count as int,
        }
    }

    /// The label sequences run parallel.
    pub closed spec fn wf(&self) -> bool {
        &&& self.pipeline_kernel@.len() == self.pipeline_ptr@.len()
        &&& self.dispatch_shape@.len() == self.pipeline_ptr@.len()
    }

    /// Room for `count` dispatches, none recorded.
    pub fn new(count: usize) -> (s: Self)
        ensures
            s.wf(),
            s.view().dispatch_count == 0,
            s.view().labels == Seq::new(
                count as nat,
                |i: int| Label { pipeline: 0, kernel: KernelId::Embed, shape: (0, 0, 0) },
            ),
    {
        let mut pipeline_ptr: Vec<usize> = Vec::new();
        let mut pipeline_kernel: Vec<KernelId> = Vec::new();
        let mut dispatch_shape: Vec<(u32, u32, u32)> = Vec::new();
        let mut i: usize = 0;
        while i < count
            invariant
                i <= count,
                pipeline_ptr@ == Seq::new(i as nat, |j: int| 0usize),
                pipeline_kernel@ == Seq::new(i as nat, |j: int| KernelId::Embed),
                dispatch_shape@ == Seq::new(i as nat, |j: int| (0u32, 0u32, 0u32)),
            decreases count - i,
        {
            pipeline_ptr.push(0);
            pipeline_kernel.push(KernelId::Embed);
            dispatch_shape.push((0, 0, 0));
            i += 1;
            assert(pipeline_ptr@ =~= Seq::new(i as nat, |j: int| 0usize));
            assert(pipeline_kernel@ =~= Seq::new(i as nat, |j: int| KernelId::Embed));
            assert(dispatch_shape@ =~= Seq::new(i as nat, |j: int| (0u32, 0u32, 0u32)));
        }
        let s = DispatchTimingState {
            pipeline_ptr,
            pipeline_kernel,
            dispatch_shape,
            dispatch_count: 0,
        };
        assert(s.view().labels =~= Seq::new(
            count as nat,
            |i: int| Label { pipeline: 0, kernel: KernelId::Embed, shape: (0, 0, 0) },
        ));
        s
    }

    /// Labels dispatch `idx`; one past the end is ignored.
    pub fn record_label(
        &mut self,
        idx: usize,
        pipeline: usize,
        kernel: KernelId,
        tg: (u32, u32, u32),
    )
        requires
            old(self).wf(),
        ensures
            final(self).wf(),
            final(self).view().dispatch_count == old(self).view().dispatch_count,
            final(self).view().labels == if idx < old(self).view().labels.len() {
                old(self).view().labels.update(
                    idx as int,
                    Label { pipeline, kernel, shape: tg },
                )
            } else {
                old(self).view().labels
            },
    {
        if idx < self.pipeline_ptr.len() {
            self.pipeline_ptr.set(idx, pipeline);
            self.pipeline_kernel.set(idx, kernel);
            self.dispatch_shape.set(idx, tg);
            assert(self.view().labels =~= old(self).view().labels.update(
                idx as int,
                Label { pipeline, kernel, shape: tg },
            ));
        }
    }

    /// Sets the number of dispatches that were recorded.
    pub fn set_dispatch_count(&mut self, count: usize)
        requires
            old(self).wf(),
        ensures
            final(self).wf(),
            final(self).view() == (TimingView {
                dispatch_count: count as int,
                ..old(self).view()
            }),
    {
        self.dispatch_count = count;
        assert(self.view().labels =~= old(self).view().labels);
    }

    /// The label of dispatch `i`, and whether it runs on another pipeline than
    /// the dispatch before it.
    pub fn dispatch_label(&self, i: usize) -> (r: (usize, KernelId, (u32, u32, u32), bool))
        requires
            self.wf(),
            i < self.view().labels.len(),
        ensures
            r.0 == self.view().labels[i as int].pipeline,
            r.1 == self.view().labels[i as int].kernel,
            r.2 == self.view().labels[i as int].shape,
            r.3 <==> i > 0 && self.view().labels[i as int].pipeline != self.view().labels[i
                - 1].pipeline,
    {
        let switched = i > 0 && self.pipeline_ptr[i] != self.pipeline_ptr[i - 1];
        (self.pipeline_ptr[i], self.pipeline_kernel[i], self.dispatch_shape[i], switched)
    }

    /// Totals the recorded dispatches from their timestamps, of which there is
    /// one more than there are dispatches. Without dispatches there is no
    /// report.
    pub fn resolve(&self, timestamps: &[u64]) -> (r: Option<TimingReport>)
        requires
            self.wf(),
            self.view().dispatch_count > 0 ==> {
                &&& self.view().dispatch_count <= self.view().labels.len()
                &&& self.view().dispatch_count < timestamps@.len()
                &&& self.view().dispatch_count <= u32::MAX
            },
        ensures
            r is None <==> self.view().dispatch_count == 0,
            r matches Some(report) ==> {
                let n = self.view().dispatch_count;
                &&& report.dispatches == n
                &&& report.total_ticks == all_ticks(timestamps@, n) % tick_modulus()
                &&& are_totals(self.view().labels, timestamps@, n, report.pipelines@)
                &&& longest_first(report.pipelines@)
            },
    {
        let n: usize = self.dispatch_count;
        if n == 0 {
            return None;
        }
        let ghost labels = self.view().labels;
        let mut entries: Vec<PipelineTotal> = Vec::new();
        let mut total_ticks: u64 = 0;
        let mut i: usize = 0;
        while i < n
            invariant
                i <= n,
                n < timestamps@.len(),
                n <= labels.len(),
                n <= u32::MAX,
                self.wf(),
                labels == self.view().labels,
                total_ticks == all_ticks(timestamps@, i as int) % tick_modulus(),
                are_totals(labels, timestamps@, i as int, entries@),
            decreases n - i,
        {
            let dt: u64 = wrapping_ticks(timestamps[i], timestamps[i + 1]);
            total_ticks = wrapping_sum(
                total_ticks,
                dt,
                Ghost(all_ticks(timestamps@, i as int)),
            );
            add_dispatch(
                &mut entries,
                self.pipeline_ptr[i],
                self.pipeline_kernel[i],
                dt,
                Ghost(labels),
                Ghost(timestamps@),
                Ghost(i as int),
            );
            i += 1;
        }
        let pipelines = sort_longest_first(
            entries,
            Ghost(labels),
            Ghost(timestamps@),
            Ghost(n as int),
        );
        Some(TimingReport { dispatches: n, total_ticks, pipelines })
    }
}

/// Adds one dispatch to the totals.
fn add_dispatch(
    entries: &mut Vec<PipelineTotal>,
    pipeline: usize,
    kernel: KernelId,
    dt: u64,
    Ghost(labels): Ghost<Seq<Label>>,
    Ghost(timestamps): Ghost<Seq<u64>>,
    Ghost(i): Ghost<int>,
)
    requires
        0 <= i < labels.len(),
        i < u32::MAX,
        labels[i].pipeline == pipeline,
        labels[i].kernel == kernel,
        dt == dispatch_delta(timestamps, i),
        are_totals(labels, timestamps, i, old(entries)@),
    ensures
        are_totals(labels, timestamps, i + 1, final(entries)@),
{
    let len: usize = entries.len();
    let mut at: usize = 0;
    while at < len && entries[at].pipeline != pipeline
        invariant
            at <= len,
            len == entries@.len(),
            forall|a: int| 0 <= a < at ==> (#[trigger] entries@[a]).pipeline != pipeline,
        decreases len - at,
    {
        at += 1;
    }
    let ghost before = entries@;
    proof {
        lemma_count_bounds(labels, i, pipeline);
    }
    if at < len {
        let e: PipelineTotal = entries[at];
        assert(is_total(labels, timestamps, i, before[at as int]));
        let ticks: u64 = wrapping_sum(
            e.ticks,
            dt,
            Ghost(pipeline_ticks(labels, timestamps, i, pipeline)),
        );
        let updated = PipelineTotal {
            pipeline,
            ticks,
            count: e.count + 1,
            kernel: e.kernel,
        };
        entries.set(at, updated);
    } else {
        proof {
            lemma_absent(labels, timestamps, i, pipeline, before);
        }
        let ticks: u64 = wrapping_sum(0, dt, Ghost(0));
        entries.push(PipelineTotal { pipeline, ticks, count: 1, kernel });
        assert(entries@[len as int].pipeline == pipeline);
    }
    proof {
        let now = entries@;
        let m = if at < len {
            at as int
        } else {
            len as int
        };
        assert forall|a: int| 0 <= a < now.len() && a != m implies #[trigger] now[a]
            == before[a] && now[a].pipeline != pipeline by {}
        assert(now[m].pipeline == pipeline);
        assert(distinct(now));
        assert(starts_with(labels, i + 1, pipeline, now[m].kernel)) by {
            reveal(starts_with);
            if at < len {
                assert(is_total(labels, timestamps, i, before[m]));
            } else {
                assert(first_on_pipeline(labels, i));
                assert(labels[i].kernel == now[m].kernel);
            }
        }
        assert forall|a: int| 0 <= a < now.len() implies is_total(
            labels,
            timestamps,
            i + 1,
            #[trigger] now[a],
        ) by {
            if a != m {
                assert(is_total(labels, timestamps, i, before[a]));
                reveal(starts_with);
            } else if at < len {
                assert(is_total(labels, timestamps, i, before[a]));
            }
        }
        assert forall|j: int| 0 <= j < i + 1 implies listed(
            now,
            (#[trigger] labels[j]).pipeline,
        ) by {
            reveal(listed);
            if j == i {
                assert(now[m].pipeline == labels[j].pipeline);
            } else {
                assert(listed(before, labels[j].pipeline));
                let a = choose|a: int|
                    0 <= a < before.len() && (#[trigger] before[a]).pipeline
                        == labels[j].pipeline;
                assert(now[a].pipeline == labels[j].pipeline);
            }
        }
    }
}

/// A pipeline occurs at most as often as there are dispatches.
proof fn lemma_count_bounds(labels: Seq<Label>, n: int, pipeline: usize)
    requires
        n >= 0,
    ensures
        0 <= pipeline_count(labels, n, pipeline) <= n,
    decreases n,
{
    if n > 0 {
        lemma_count_bounds(labels, n - 1, pipeline);
    }
}

/// A pipeline without an entry has no dispatch so far.
proof fn lemma_absent(
    labels: Seq<Label>,
    timestamps: Seq<u64>,
    n: int,
    pipeline: usize,
    entries: Seq<PipelineTotal>,
)
    requires
        n >= 0,
        are_totals(labels, timestamps, n, entries),
        forall|a: int| 0 <= a < entries.len() ==> (#[trigger] entries[a]).pipeline != pipeline,
    ensures
        pipeline_ticks(labels, timestamps, n, pipeline) == 0,
        pipeline_count(labels, n, pipeline) == 0,
        forall|j: int| 0 <= j < n ==> (#[trigger] labels[j]).pipeline != pipeline,
{
    assert forall|j: int| 0 <= j < n implies (#[trigger] labels[j]).pipeline != pipeline by {
        reveal(listed);
        assert(listed(entries, labels[j].pipeline));
    }
    lemma_no_dispatch(labels, timestamps, n, pipeline);
}

proof fn lemma_no_dispatch(labels: Seq<Label>, timestamps: Seq<u64>, n: int, pipeline: usize)
    requires
        forall|j: int| 0 <= j < n ==> (#[trigger] labels[j]).pipeline != pipeline,
    ensures
        pipeline_ticks(labels, timestamps, n, pipeline) == 0,
        pipeline_count(labels, n, pipeline) == 0,
    decreases n,
{
    if n > 0 {
        lemma_no_dispatch(labels, timestamps, n - 1, pipeline);
        assert(labels[n - 1].pipeline != pipeline);
    }
}

/// Puts the longest total first.
fn sort_longest_first(
    entries: Vec<PipelineTotal>,
    Ghost(labels): Ghost<Seq<Label>>,
    Ghost(timestamps): Ghost<Seq<u64>>,
    Ghost(n): Ghost<int>,
) -> (out: Vec<PipelineTotal>)
    requires
        are_totals(labels, timestamps, n, entries@),
    ensures
        are_totals(labels, timestamps, n, out@),
        longest_first(out@),
{
    let mut out: Vec<PipelineTotal> = Vec::new();
    let mut k: usize = 0;
    assert(forall|x: PipelineTotal| !entries@.take(0).contains(x));
    while k < entries.len()
        invariant
            k <= entries@.len(),
            distinct(entries@),
            longest_first(out@),
            distinct(out@),
            forall|x: PipelineTotal| #[trigger]
                out@.contains(x) <==> entries@.take(k as int).contains(x),
        decreases entries@.len() - k,
    {
        let e: PipelineTotal = entries[k];
        let len: usize = out.len();
        let mut at: usize = 0;
        while at < len && out[at].ticks >= e.ticks
            invariant
                at <= len,
                len == out@.len(),
                forall|a: int| 0 <= a < at ==> (#[trigger] out@[a]).ticks >= e.ticks,
            decreases len - at,
        {
            at += 1;
        }
        let ghost before = out@;
        proof {
            assert forall|a: int| 0 <= a < before.len() implies (
            #[trigger] before[a]).pipeline != e.pipeline by {
                assert(before.contains(before[a]));
                assert(entries@.take(k as int).contains(before[a]));
                let b = choose|b: int|
                    0 <= b < k && entries@.take(k as int)[b] == before[a];
                assert(entries@[b].pipeline != entries@[k as int].pipeline);
            }
        }
        out.insert(at, e);
        proof {
            lemma_insert(before, at as int, e);
            assert(entries@.take(k + 1) =~= entries@.take(k as int).push(e));
            lemma_push_contains(entries@.take(k as int), e);
        }
        k += 1;
    }
    proof {
        assert(entries@.take(k as int) =~= entries@);
        assert forall|a: int| 0 <= a < out@.len() implies is_total(
            labels,
            timestamps,
            n,
            #[trigger] out@[a],
        ) by {
            assert(out@.contains(out@[a]));
            let b = choose|b: int| 0 <= b < entries@.len() && entries@[b] == out@[a];
            assert(is_total(labels, timestamps, n, entries@[b]));
        }
        assert forall|i: int| 0 <= i < n implies listed(
            out@,
            (#[trigger] labels[i]).pipeline,
        ) by {
            reveal(listed);
            assert(listed(entries@, labels[i].pipeline));
            let b = choose|b: int|
                0 <= b < entries@.len() && (#[trigger] entries@[b]).pipeline
                    == labels[i].pipeline;
            assert(entries@.contains(entries@[b]));
            assert(out@.contains(entries@[b]));
        }
    }
    out
}

/// Inserting a total before the first shorter one keeps the longest first and
/// adds nothing else.
proof fn lemma_insert(s: Seq<PipelineTotal>, at: int, e: PipelineTotal)
    requires
        0 <= at <= s.len(),
        longest_first(s),
        distinct(s),
        forall|a: int| 0 <= a < s.len() ==> (#[trigger] s[a]).pipeline != e.pipeline,
        forall|a: int| 0 <= a < at ==> (#[trigger] s[a]).ticks >= e.ticks,
        at < s.len() ==> s[at].ticks < e.ticks,
    ensures
        longest_first(s.insert(at, e)),
        distinct(s.insert(at, e)),
        forall|x: PipelineTotal| #[trigger]
            s.insert(at, e).contains(x) <==> s.contains(x) || x == e,
{
    let now = s.insert(at, e);
    assert forall|a: int| 0 <= a < now.len() implies #[trigger] now[a] == (if a < at {
        s[a]
    } else if a == at {
        e
    } else {
        s[a - 1]
    }) by {}
    assert forall|a: int| at <= a < s.len() implies (#[trigger] s[a]).ticks <= e.ticks by {
        if a > at {
            assert(s[at].ticks >= s[a].ticks);
        }
    }
    assert forall|x: PipelineTotal| #[trigger]
        now.contains(x) <==> s.contains(x) || x == e by {
        if s.contains(x) {
            let c = choose|c: int| 0 <= c < s.len() && s[c] == x;
            if c < at {
                assert(now[c] == x);
            } else {
                assert(now[c + 1] == x);
            }
        }
        if x == e {
            assert(now[at] == x);
        }
        if now.contains(x) {
            let a = choose|a: int| 0 <= a < now.len() && now[a] == x;
            if a < at {
                assert(s[a] == x);
            } else if a > at {
                assert(s[a - 1] == x);
            }
        }
    }
}

/// What a longer sequence contains.
proof fn lemma_push_contains(s: Seq<PipelineTotal>, e: PipelineTotal)
    ensures
        forall|x: PipelineTotal| #[trigger] s.push(e).contains(x) <==> s.contains(x) || x == e,
{
    assert forall|x: PipelineTotal| #[trigger]
        s.push(e).contains(x) <==> s.contains(x) || x == e by {
        if s.contains(x) {
            let c = choose|c: int| 0 <= c < s.len() && s[c] == x;
            assert(s.push(e)[c] == x);
        }
        assert(s.push(e)[s.len() as int] == e);
    }
}

// ---- Laws ----

/// Dispatches of all listed pipelines among the first `n`.
pub open spec fn sum_of_counts(labels: Seq<Label>, n: int, entries: Seq<PipelineTotal>) -> int
    decreases entries.len(),
{
    if entries.len() == 0 {
        0
    } else {
        sum_of_counts(labels, n, entries.drop_last()) + pipeline_count(
            labels,
            n,
            entries.last().pipeline,
        )
    }
}

/// Ticks of all listed pipelines over the first `n` dispatches.
pub open spec fn sum_of_ticks(
    labels: Seq<Label>,
    timestamps: Seq<u64>,
    n: int,
    entries: Seq<PipelineTotal>,
) -> int
    decreases entries.len(),
{
    if entries.len() == 0 {
        0
    } else {
        sum_of_ticks(labels, timestamps, n, entries.drop_last()) + pipeline_ticks(
            labels,
            timestamps,
            n,
            entries.last().pipeline,
        )
    }
}

/// How often `pipeline` is listed.
spec fn occurrences(entries: Seq<PipelineTotal>, pipeline: usize) -> int
    decreases entries.len(),
{
    if entries.len() == 0 {
        0
    } else {
        occurrences(entries.drop_last(), pipeline) + if entries.last().pipeline == pipeline {
            1int
        } else {
            0int
        }
    }
}

/// A pipeline without an entry does not occur.
proof fn lemma_occurs_never(entries: Seq<PipelineTotal>, pipeline: usize)
    requires
        forall|a: int| 0 <= a < entries.len() ==> (#[trigger] entries[a]).pipeline != pipeline,
    ensures
        occurrences(entries, pipeline) == 0,
    decreases entries.len(),
{
    if entries.len() > 0 {
        let front = entries.drop_last();
        assert(forall|a: int| 0 <= a < front.len() ==> (#[trigger] front[a]) == entries[a]);
        lemma_occurs_never(front, pipeline);
        assert(entries[entries.len() - 1].pipeline != pipeline);
    }
}

/// A listed pipeline occurs once.
proof fn lemma_occurs_once(entries: Seq<PipelineTotal>, a: int)
    requires
        distinct(entries),
        0 <= a < entries.len(),
    ensures
        occurrences(entries, entries[a].pipeline) == 1,
    decreases entries.len(),
{
    let front = entries.drop_last();
    let p = entries[a].pipeline;
    assert(forall|b: int| 0 <= b < front.len() ==> (#[trigger] front[b]) == entries[b]);
    if a == entries.len() - 1 {
        assert forall|b: int| 0 <= b < front.len() implies (#[trigger] front[b]).pipeline != p by {
            assert(entries[b].pipeline != entries[a].pipeline);
        }
        lemma_occurs_never(front, p);
    } else {
        assert(distinct(front));
        lemma_occurs_once(front, a);
        assert(entries[a].pipeline != entries[entries.len() - 1].pipeline);
    }
}

/// One more dispatch is counted as often as its pipeline is listed.
proof fn lemma_sums_step(
    labels: Seq<Label>,
    timestamps: Seq<u64>,
    n: int,
    entries: Seq<PipelineTotal>,
)
    requires
        n > 0,
    ensures
        sum_of_counts(labels, n, entries) == sum_of_counts(labels, n - 1, entries) + occurrences(
            entries,
            labels[n - 1].pipeline,
        ),
        sum_of_ticks(labels, timestamps, n, entries) == sum_of_ticks(
            labels,
            timestamps,
            n - 1,
            entries,
        ) + occurrences(entries, labels[n - 1].pipeline) * dispatch_delta(timestamps, n - 1),
    decreases entries.len(),
{
    if entries.len() > 0 {
        lemma_sums_step(labels, timestamps, n, entries.drop_last());
        let o = occurrences(entries.drop_last(), labels[n - 1].pipeline);
        let d = dispatch_delta(timestamps, n - 1);
        assert((o + 1) * d == o * d + d) by (nonlinear_arith);
    }
}

proof fn lemma_sums_empty(labels: Seq<Label>, timestamps: Seq<u64>, entries: Seq<PipelineTotal>)
    ensures
        sum_of_counts(labels, 0, entries) == 0,
        sum_of_ticks(labels, timestamps, 0, entries) == 0,
    decreases entries.len(),
{
    if entries.len() > 0 {
        lemma_sums_empty(labels, timestamps, entries.drop_last());
    }
}

/// The totals account for every dispatch exactly once: their counts add up to
/// the number of dispatches, and their ticks to the ticks of all dispatches.
pub proof fn law_totals_add_up(
    labels: Seq<Label>,
    timestamps: Seq<u64>,
    n: int,
    entries: Seq<PipelineTotal>,
)
    requires
        n >= 0,
        distinct(entries),
        forall|i: int| 0 <= i < n ==> listed(entries, (#[trigger] labels[i]).pipeline),
    ensures
        sum_of_counts(labels, n, entries) == n,
        sum_of_ticks(labels, timestamps, n, entries) == all_ticks(timestamps, n),
    decreases n,
{
    if n == 0 {
        lemma_sums_empty(labels, timestamps, entries);
    } else {
        law_totals_add_up(labels, timestamps, n - 1, entries);
        lemma_sums_step(labels, timestamps, n, entries);
        let p = labels[n - 1].pipeline;
        assert(listed(entries, p));
        reveal(listed);
        let a = choose|a: int| 0 <= a < entries.len() && (#[trigger] entries[a]).pipeline == p;
        lemma_occurs_once(entries, a);
        assert(1 * dispatch_delta(timestamps, n - 1) == dispatch_delta(timestamps, n - 1));
    }
}

/// Ticks lead from one timestamp to the next, also where the counter wraps
/// around in between.
pub proof fn law_ticks_lead_to_the_next_timestamp(timestamps: Seq<u64>, i: int)
    requires
        0 <= i < timestamps.len() - 1,
    ensures
        ({
            let d = dispatch_delta(timestamps, i);
            let from = timestamps[i] as int;
            let to = timestamps[i + 1] as int;
            &&& to >= from ==> d == to - from
            &&& to < from ==> from + d == to + u64::MAX + 1
        }),
{
    let from = timestamps[i];
    let to = timestamps[i + 1];
    if to < from {
        vstd::arithmetic::div_mod::lemma_fundamental_div_mod_converse(
            to - from,
            tick_modulus(),
            -1,
            to - from + tick_modulus(),
        );
    } else {
        vstd::arithmetic::div_mod::lemma_small_mod((to - from) as nat, tick_modulus() as nat);
    }
}

/// One more dispatch counts once, with its ticks, for the pipeline that it runs
/// on, and for no other, and its ticks count in the sum over all.
pub proof fn law_totals_grow_by_one_dispatch(
    labels: Seq<Label>,
    timestamps: Seq<u64>,
    n: int,
    pipeline: usize,
)
    requires
        0 <= n,
    ensures
        ({
            let d = ticks_between(timestamps[n], timestamps[n + 1]);
            let hit = labels[n].pipeline == pipeline;
            &&& pipeline_count(labels, n + 1, pipeline) - pipeline_count(labels, n, pipeline)
                == if hit {
                1int
            } else {
                0
            }
            &&& pipeline_ticks(labels, timestamps, n + 1, pipeline) - pipeline_ticks(
                labels,
                timestamps,
                n,
                pipeline,
            ) == if hit {
                d
            } else {
                0
            }
            &&& all_ticks(timestamps, n + 1) - all_ticks(timestamps, n) == d
            &&& pipeline_count(labels, 0, pipeline) == 0
            &&& pipeline_ticks(labels, timestamps, 0, pipeline) == 0
            &&& all_ticks(timestamps, 0) == 0
        }),
{
}

/// A report lists every pipeline once, under the kernel of its first dispatch,
/// with its dispatches and their ticks, the longest first.
pub proof fn law_reports_list_pipelines_once(
    labels: Seq<Label>,
    timestamps: Seq<u64>,
    n: int,
    entries: Seq<PipelineTotal>,
    a: int,
    b: int,
)
    requires
        are_totals(labels, timestamps, n, entries),
        longest_first(entries),
        0 <= a < b < entries.len(),
    ensures
        entries[a].pipeline != entries[b].pipeline,
        entries[a].ticks >= entries[b].ticks,
        entries[a].count == pipeline_count(labels, n, entries[a].pipeline),
        entries[a].ticks == pipeline_ticks(labels, timestamps, n, entries[a].pipeline) % (u64::MAX
            + 1),
        exists|i: int|
            0 <= i < n && (#[trigger] labels[i]).pipeline == entries[a].pipeline
                && labels[i].kernel == entries[a].kernel && forall|j: int|
                0 <= j < i ==> (#[trigger] labels[j]).pipeline != entries[a].pipeline,
{
    assert(is_total(labels, timestamps, n, entries[a]));
    reveal(starts_with);
}

/// Every dispatch is accounted for: its pipeline has an entry, with the count
/// and the ticks of all dispatches on that pipeline.
pub proof fn law_every_dispatch_is_accounted_for(
    labels: Seq<Label>,
    timestamps: Seq<u64>,
    n: int,
    entries: Seq<PipelineTotal>,
    i: int,
)
    requires
        are_totals(labels, timestamps, n, entries),
        0 <= i < n,
    ensures
        exists|a: int|
            0 <= a < entries.len() && (#[trigger] entries[a]).pipeline == labels[i].pipeline
                && entries[a].count == pipeline_count(labels, n, labels[i].pipeline)
                && entries[a].ticks == pipeline_ticks(labels, timestamps, n, labels[i].pipeline) % (
            u64::MAX + 1),
{
    assert(listed(entries, labels[i].pipeline));
    reveal(listed);
    let a = choose|a: int|
        0 <= a < entries.len() && (#[trigger] entries[a]).pipeline == labels[i].pipeline;
    assert(is_total(labels, timestamps, n, entries[a]));
}

} // verus!
