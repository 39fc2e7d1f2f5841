//! The stage orchestrator's decisions: the per-job state machine with its
//! bounded retry policy, and the emission of sub-tasks phase by phase,
//! including the aggregation tree.

use vstd::prelude::*;
use crate::codec::{append_dec, dec_str};
use crate::contexts::GenerateContext;
use crate::tasks::{
    AggAllTask, AggTask, AggregateInput, FinalTask, ProveTask, SplitTask, TASK_STATE_FAILED,
    TASK_STATE_UNPROCESSED,
};

verus! {

/// Job status: work is still in progress.
pub const STATUS_COMPUTING: u32 = 0;

/// Job status: the job finished and its result is available.
pub const STATUS_SUCCESS: u32 = 1;

/// Job status: the job was given up.
pub const STATUS_FAILED: u32 = 2;

/// Request status: the request itself was rejected; never stored on a job.
pub const STATUS_INVALID_PARAMETER: u32 = 3;

/// Job phase: no sub-task emitted yet.
pub const STEP_INIT: u32 = 0;

/// Job phase: splitting the program into segments.
pub const STEP_SPLIT: u32 = 1;

/// Job phase: proving each segment.
pub const STEP_PROVE: u32 = 2;

/// Job phase: aggregating receipts pairwise.
pub const STEP_AGG: u32 = 3;

/// Job phase: aggregating a whole directory of receipts in one call.
pub const STEP_AGG_ALL: u32 = 4;

/// Job phase: wrapping the root receipt into the final proof.
pub const STEP_SNARK: u32 = 5;

/// Job phase: nothing left to do.
pub const STEP_END: u32 = 6;

/// How many times one sub-task may be charged with a failure before the job
/// is given up.
pub const TASK_RETRY_BUDGET: u64 = 3;

pub open spec fn is_terminal_status(status: u32) -> bool {
    status == STATUS_SUCCESS || status == STATUS_FAILED
}

pub open spec fn valid_job_status(status: u32) -> bool {
    status == STATUS_COMPUTING || is_terminal_status(status)
}

/// The orchestrator's record of one job between ticks.
pub struct JobState {
    pub status: u32,
    pub step: u32,
    pub retries: u64,
}

/// What the orchestrator observes about a job on one tick.
pub enum JobEvent {
    /// Every sub-task of the current phase has succeeded.
    PhaseComplete { execute_only: bool, precompile: bool },
    /// One sub-task of the current phase was observed in the given state.
    TaskObserved { state: u32 },
}

/// State of a job when its row is first written.
pub open spec fn initial_job_state() -> JobState {
    JobState { status: STATUS_COMPUTING, step: STEP_INIT, retries: 0 }
}

/// The transition function of the per-job state machine. A terminal status
/// is absorbing. A completed phase advances the step, ending early when the
/// job is execute-only or a precompile. A failed sub-task charges the retry
/// budget and poisons the job once the budget is spent; a busy or still
/// running sub-task changes nothing and is not charged.
pub open spec fn spec_job_next(js: JobState, ev: JobEvent) -> JobState {
    if is_terminal_status(js.status) {
        js
    } else {
        match ev {
            JobEvent::PhaseComplete { execute_only, precompile } => {
                if js.step == STEP_INIT {
                    JobState { step: STEP_SPLIT, ..js }
                } else if js.step == STEP_SPLIT {
                    if execute_only {
                        JobState { status: STATUS_SUCCESS, step: STEP_END, ..js }
                    } else {
                        JobState { step: STEP_PROVE, ..js }
                    }
                } else if js.step == STEP_PROVE {
                    if precompile {
                        JobState { status: STATUS_SUCCESS, step: STEP_END, ..js }
                    } else {
                        JobState { step: STEP_AGG, ..js }
                    }
                } else if js.step == STEP_AGG || js.step == STEP_AGG_ALL {
                    JobState { step: STEP_SNARK, ..js }
                } else if js.step == STEP_SNARK {
                    JobState { status: STATUS_SUCCESS, step: STEP_END, ..js }
                } else {
                    js
                }
            },
            JobEvent::TaskObserved { state } => {
                if state == TASK_STATE_FAILED {
                    if js.retries >= TASK_RETRY_BUDGET {
                        JobState { status: STATUS_FAILED, step: STEP_END, ..js }
                    } else {
                        JobState { retries: (js.retries + 1) as u64, ..js }
                    }
                } else {
                    js
                }
            },
        }
    }
}

/// The record of a job when its row is first written.
pub fn new_job_state() -> (js: JobState)
    ensures
        js == initial_job_state(),
{
    JobState { status: STATUS_COMPUTING, step: STEP_INIT, retries: 0 }
}

/// Advances a job whose current phase has completed.
pub fn on_phase_complete(js: &mut JobState, execute_only: bool, precompile: bool)
    ensures
        *final(js) == spec_job_next(*old(js), JobEvent::PhaseComplete { execute_only, precompile }),
        is_terminal_status(old(js).status) ==> *final(js) == *old(js),
        final(js).status != old(js).status ==> !is_terminal_status(old(js).status),
{
    if is_terminal(js.status) {
        return;
    }
    if js.step == STEP_INIT {
        js.step = STEP_SPLIT;
    } else if js.step == STEP_SPLIT {
        if execute_only {
            js.status = STATUS_SUCCESS;
            js.step = STEP_END;
        } else {
            js.step = STEP_PROVE;
        }
    } else if js.step == STEP_PROVE {
        if precompile {
            js.status = STATUS_SUCCESS;
            js.step = STEP_END;
        } else {
            js.step = STEP_AGG;
        }
    } else if js.step == STEP_AGG || js.step == STEP_AGG_ALL {
        js.step = STEP_SNARK;
    } else if js.step == STEP_SNARK {
        js.status = STATUS_SUCCESS;
        js.step = STEP_END;
    }
}

/// Records one observed sub-task state on the job: a failure charges the
/// retry budget and poisons the job once the budget is spent; any other
/// state leaves both the job and the budget untouched.
pub fn on_task_observed(js: &mut JobState, state: u32)
    ensures
        *final(js) == spec_job_next(*old(js), JobEvent::TaskObserved { state }),
        is_terminal_status(old(js).status) ==> *final(js) == *old(js),
        final(js).status != old(js).status ==> !is_terminal_status(old(js).status),
        state == TASK_STATE_UNPROCESSED ==> final(js).retries == old(js).retries,
{
    if is_terminal(js.status) {
        return;
    }
    if state == TASK_STATE_FAILED {
        if js.retries >= TASK_RETRY_BUDGET {
            js.status = STATUS_FAILED;
            js.step = STEP_END;
        } else {
            js.retries = js.retries + 1;
        }
    }
}

/// Whether a status is terminal.
pub fn is_terminal(status: u32) -> (r: bool)
    ensures
        r == is_terminal_status(status),
{
    status == STATUS_SUCCESS || status == STATUS_FAILED
}

/// The statuses a watcher observes when a job in state `js` undergoes the
/// given events, the current status first.
pub open spec fn run_statuses(js: JobState, evs: Seq<JobEvent>) -> Seq<u32>
    decreases evs.len(),
{
    if evs.len() == 0 {
        seq![js.status]
    } else {
        seq![js.status] + run_statuses(spec_job_next(js, evs[0]), evs.drop_first())
    }
}

/// The shape `Computing* terminal*` with a single terminal value: some
/// computing statuses, then one terminal status repeated to the end.
pub open spec fn status_course_ok(sts: Seq<u32>) -> bool
    decreases sts.len(),
{
    if sts.len() == 0 {
        true
    } else if sts[0] == STATUS_COMPUTING {
        status_course_ok(sts.drop_first())
    } else {
        is_terminal_status(sts[0]) && (forall|i: int| 0 <= i < sts.len() ==> #[trigger] sts[i] == sts[0])
    }
}

proof fn lemma_terminal_run(js: JobState, evs: Seq<JobEvent>)
    requires
        is_terminal_status(js.status),
    ensures
        forall|i: int|
            0 <= i < run_statuses(js, evs).len() ==> #[trigger] run_statuses(js, evs)[i]
                == js.status,
        run_statuses(js, evs).len() >= 1,
    decreases evs.len(),
{
    if evs.len() == 0 {
    } else {
        assert(spec_job_next(js, evs[0]) == js);
        lemma_terminal_run(js, evs.drop_first());
        let sts = run_statuses(js, evs);
        let tail = run_statuses(js, evs.drop_first());
        assert(forall|i: int| 0 <= i < sts.len() ==> sts[i] == js.status) by {
            assert(sts[0] == js.status);
            assert(forall|i: int| 1 <= i < sts.len() ==> sts[i] == #[trigger] tail[i - 1]);
        }
    }
}

proof fn lemma_status_course(js: JobState, evs: Seq<JobEvent>)
    requires
        valid_job_status(js.status),
    ensures
        status_course_ok(run_statuses(js, evs)),
    decreases evs.len(),
{
    reveal_with_fuel(status_course_ok, 3);
    reveal_with_fuel(run_statuses, 3);
    let sts = run_statuses(js, evs);
    if is_terminal_status(js.status) {
        lemma_terminal_run(js, evs);
        assert(sts[0] == js.status);
        assert forall|i: int| 0 <= i < sts.len() implies #[trigger] sts[i] == sts[0] by {
            assert(sts[i] == js.status);
        }
    } else {
        if evs.len() == 0 {
            assert(sts.drop_first() =~= Seq::<u32>::empty());
        } else {
            let next = spec_job_next(js, evs[0]);
            assert(valid_job_status(next.status));
            lemma_status_course(next, evs.drop_first());
            assert(sts.drop_first() =~= run_statuses(next, evs.drop_first()));
        }
    }
}

/// The ordered statuses a job ever shows match `Computing+ (Success |
/// Failed)`: the observation starts at `Computing`, and once it leaves
/// `Computing` it shows one terminal status and never changes again.
pub proof fn lemma_job_status_monotone(evs: Seq<JobEvent>)
    ensures
        run_statuses(initial_job_state(), evs)[0] == STATUS_COMPUTING,
        status_course_ok(run_statuses(initial_job_state(), evs)),
{
    lemma_status_course(initial_job_state(), evs);
}

/// `{dir}/{i}`: the path of the `i`-th entry of a directory.
pub open spec fn indexed_path(dir: Seq<char>, i: int) -> Seq<char> {
    dir + seq!['/'] + dec_str(i)
}

/// `{prove_path}/receipt/{i}`: where the receipt of segment `i` is written.
pub open spec fn prove_receipt_path(prove_path: Seq<char>, i: int) -> Seq<char> {
    prove_path + "/receipt/"@ + dec_str(i)
}

/// Builds `{dir}/{i}`.
pub fn indexed_path_of(dir: &str, i: u64) -> (r: String)
    ensures
        r@ == indexed_path(dir@, i as int),
{
    let slash = "/";
    proof {
        reveal_strlit("/");
    }
    let mut s = dir.to_owned();
    s.append(slash);
    append_dec(&mut s, i);
    assert(s@ =~= indexed_path(dir@, i as int));
    s
}

/// Builds `{prove_path}/receipt/{i}`.
pub fn prove_receipt_path_of(prove_path: &str, i: u64) -> (r: String)
    ensures
        r@ == prove_receipt_path(prove_path@, i as int),
{
    let sep = "/receipt/";
    proof {
        reveal_strlit("/receipt/");
    }
    let mut s = prove_path.to_owned();
    s.append(sep);
    append_dec(&mut s, i);
    assert(s@ =~= prove_receipt_path(prove_path@, i as int));
    s
}

/// The split sub-task of a job, emitted when the job leaves `Init`; the
/// `args` pass-through starts empty.
pub fn split_task_of(ctx: &GenerateContext) -> (t: SplitTask)
    ensures
        t.task_id@ == dec_str(0),
        t.state == TASK_STATE_UNPROCESSED,
        t.proof_id@ == ctx.proof_id@,
        t.base_dir@ == ctx.basedir@,
        t.elf_path@ == ctx.elf_path@,
        t.seg_path@ == ctx.seg_path@,
        t.public_input_path@ == ctx.public_input_path@,
        t.private_input_path@ == ctx.private_input_path@,
        t.output_path@ == ctx.output_stream_path@,
        t.args@.len() == 0,
        t.block_no == ctx.block_no,
        t.seg_size == ctx.seg_size,
        t.node_info@.len() == 0,
        t.total_steps == 0,
        t.receipt_inputs_path@ == ctx.receipt_inputs_path@,
{
    let zero = "0";
    let empty = "";
    proof {
        reveal_strlit("0");
        reveal_strlit("");
        assert(zero@ =~= dec_str(0));
    }
    SplitTask {
        task_id: zero.to_owned(),
        state: TASK_STATE_UNPROCESSED,
        proof_id: ctx.proof_id.clone(),
        base_dir: ctx.basedir.clone(),
        elf_path: ctx.elf_path.clone(),
        seg_path: ctx.seg_path.clone(),
        public_input_path: ctx.public_input_path.clone(),
        private_input_path: ctx.private_input_path.clone(),
        output_path: ctx.output_stream_path.clone(),
        args: empty.to_owned(),
        block_no: ctx.block_no,
        seg_size: ctx.seg_size,
        start_ts: 0,
        finish_ts: 0,
        node_info: empty.to_owned(),
        total_steps: 0,
        receipt_inputs_path: ctx.receipt_inputs_path.clone(),
    }
}

/// The `n` prove sub-tasks of a job, one per segment, emitted when the split
/// reports `n` segments: task `i` proves segment file `{seg_path}/{i}` into
/// receipt `{prove_path}/receipt/{i}`.
pub fn prove_tasks_of(ctx: &GenerateContext, n: u64) -> (r: Vec<ProveTask>)
    requires
        n <= usize::MAX,
    ensures
        r@.len() == n,
        forall|i: int|
            0 <= i < n ==> {
                &&& (#[trigger] r@[i]).task_id@ == dec_str(i)
                &&& r@[i].state == TASK_STATE_UNPROCESSED
                &&& r@[i].proof_id@ == ctx.proof_id@
                &&& r@[i].base_dir@ == ctx.basedir@
                &&& r@[i].block_no == ctx.block_no
                &&& r@[i].seg_size == ctx.seg_size
                &&& r@[i].seg_path@ == indexed_path(ctx.seg_path@, i)
                &&& r@[i].receipt_path@ == prove_receipt_path(ctx.prove_path@, i)
                &&& r@[i].receipts_path@ == ctx.receipts_path@
                &&& r@[i].node_info@.len() == 0
            },
{
    let empty = "";
    proof {
        reveal_strlit("");
    }
    let mut r: Vec<ProveTask> = Vec::new();
    let mut i: u64 = 0;
    while i < n
        invariant
            0 <= i <= n,
            n <= usize::MAX,
            r@.len() == i,
            forall|j: int|
                0 <= j < i ==> {
                    &&& (#[trigger] r@[j]).task_id@ == dec_str(j)
                    &&& r@[j].state == TASK_STATE_UNPROCESSED
                    &&& r@[j].proof_id@ == ctx.proof_id@
                    &&& r@[j].base_dir@ == ctx.basedir@
                    &&& r@[j].block_no == ctx.block_no
                    &&& r@[j].seg_size == ctx.seg_size
                    &&& r@[j].seg_path@ == indexed_path(ctx.seg_path@, j)
                    &&& r@[j].receipt_path@ == prove_receipt_path(ctx.prove_path@, j)
                    &&& r@[j].receipts_path@ == ctx.receipts_path@
                    &&& r@[j].node_info@.len() == 0
                },
        decreases n - i,
    {
        let empty = "";
        proof {
            reveal_strlit("");
        }
        let t = ProveTask {
            task_id: crate::codec::u64_to_string(i),
            state: TASK_STATE_UNPROCESSED,
            proof_id: ctx.proof_id.clone(),
            base_dir: ctx.basedir.clone(),
            block_no: ctx.block_no,
            seg_size: ctx.seg_size,
            seg_path: indexed_path_of(ctx.seg_path.as_str(), i),
            receipt_path: prove_receipt_path_of(ctx.prove_path.as_str(), i),
            receipts_path: ctx.receipts_path.clone(),
            start_ts: 0,
            finish_ts: 0,
            node_info: empty.to_owned(),
        };
        r.push(t);
        i = i + 1;
    }
    r
}

/// One aggregation level: adjacent receipts are paired into tasks numbered
/// from `start_id`; with an odd count the unpaired last receipt is promoted
/// to the next level unchanged.
pub fn pair_level(ctx: &GenerateContext, level: &Vec<AggregateInput>, start_id: u64) -> (r: (
    Vec<AggTask>,
    Vec<AggregateInput>,
))
    requires
        start_id + level@.len() / 2 <= u64::MAX,
    ensures
        r.0@.len() == level@.len() / 2,
        r.1@.len() == level@.len() / 2 + level@.len() % 2,
        forall|j: int|
            0 <= j < r.0@.len() ==> {
                &&& (#[trigger] r.0@[j]).task_id@ == dec_str(start_id + j)
                &&& r.0@[j].state == TASK_STATE_UNPROCESSED
                &&& r.0@[j].proof_id@ == ctx.proof_id@
                &&& r.0@[j].base_dir@ == ctx.basedir@
                &&& r.0@[j].block_no == ctx.block_no
                &&& r.0@[j].seg_size == ctx.seg_size
                &&& r.0@[j].input1.receipt_path@ == level@[2 * j].receipt_path@
                &&& r.0@[j].input1.is_agg == level@[2 * j].is_agg
                &&& r.0@[j].input2.receipt_path@ == level@[2 * j + 1].receipt_path@
                &&& r.0@[j].input2.is_agg == level@[2 * j + 1].is_agg
                &&& r.0@[j].output_receipt_path@ == indexed_path(ctx.agg_path@, start_id + j)
                &&& r.0@[j].output_dir@ == ctx.agg_path@
                &&& !r.0@[j].is_final
            },
        forall|j: int|
            0 <= j < r.0@.len() ==> {
                &&& (#[trigger] r.1@[j]).receipt_path@ == indexed_path(ctx.agg_path@, start_id + j)
                &&& r.1@[j].is_agg
            },
        level@.len() % 2 == 1 ==> {
            &&& r.1@.last().receipt_path@ == level@.last().receipt_path@
            &&& r.1@.last().is_agg == level@.last().is_agg
        },
{
    let empty = "";
    proof {
        reveal_strlit("");
    }
    let pairs = level.len() / 2;
    let mut tasks: Vec<AggTask> = Vec::new();
    let mut next: Vec<AggregateInput> = Vec::new();
    let mut j: usize = 0;
    while j < pairs
        invariant
            0 <= j <= pairs,
            pairs == level@.len() / 2,
            level@.len() <= usize::MAX,
            start_id + pairs <= u64::MAX,
            tasks@.len() == j,
            next@.len() == j,
            forall|k: int|
                0 <= k < j ==> {
                    &&& (#[trigger] tasks@[k]).task_id@ == dec_str(start_id + k)
                    &&& tasks@[k].state == TASK_STATE_UNPROCESSED
                    &&& tasks@[k].proof_id@ == ctx.proof_id@
                    &&& tasks@[k].base_dir@ == ctx.basedir@
                    &&& tasks@[k].block_no == ctx.block_no
                    &&& tasks@[k].seg_size == ctx.seg_size
                    &&& tasks@[k].input1.receipt_path@ == level@[2 * k].receipt_path@
                    &&& tasks@[k].input1.is_agg == level@[2 * k].is_agg
                    &&& tasks@[k].input2.receipt_path@ == level@[2 * k + 1].receipt_path@
                    &&& tasks@[k].input2.is_agg == level@[2 * k + 1].is_agg
                    &&& tasks@[k].output_receipt_path@ == indexed_path(ctx.agg_path@, start_id + k)
                    &&& tasks@[k].output_dir@ == ctx.agg_path@
                    &&& !tasks@[k].is_final
                },
            forall|k: int|
                0 <= k < j ==> {
                    &&& (#[trigger] next@[k]).receipt_path@ == indexed_path(
                        ctx.agg_path@,
                        start_id + k,
                    )
                    &&& next@[k].is_agg
                },
        decreases pairs - j,
    {
        let empty = "";
        proof {
            reveal_strlit("");
            crate::codec::lemma_div_mod_2(level@.len() as int);
            assert(2 * j + 1 < level@.len());
        }
        let id = start_id + j as u64;
        let out_path = indexed_path_of(ctx.agg_path.as_str(), id);
        let t = AggTask {
            task_id: crate::codec::u64_to_string(id),
            state: TASK_STATE_UNPROCESSED,
            proof_id: ctx.proof_id.clone(),
            base_dir: ctx.basedir.clone(),
            block_no: ctx.block_no,
            seg_size: ctx.seg_size,
            input1: AggregateInput {
                receipt_path: level[2 * j].receipt_path.clone(),
                is_agg: level[2 * j].is_agg,
            },
            input2: AggregateInput {
                receipt_path: level[2 * j + 1].receipt_path.clone(),
                is_agg: level[2 * j + 1].is_agg,
            },
            output_receipt_path: out_path.clone(),
            output_dir: ctx.agg_path.clone(),
            is_final: false,
            start_ts: 0,
            finish_ts: 0,
            node_info: empty.to_owned(),
        };
        tasks.push(t);
        next.push(AggregateInput { receipt_path: out_path, is_agg: true });
        j += 1;
    }
    if level.len() % 2 == 1 {
        let last = &level[level.len() - 1];
        next.push(
            AggregateInput { receipt_path: last.receipt_path.clone(), is_agg: last.is_agg },
        );
    }
    (tasks, next)
}

/// The aggregation tree of a job with `n` prove receipts, as a flat list of
/// aggregation tasks, level by level: `n - 1` tasks when `n >= 2`, none when
/// `n <= 1`, the root task flagged `is_final`. Task `j` writes its receipt
/// to `{agg_path}/{j}`.
pub fn agg_tasks_of(ctx: &GenerateContext, n: u64) -> (r: Vec<AggTask>)
    requires
        n <= usize::MAX,
    ensures
        n >= 2 ==> r@.len() == n - 1,
        n <= 1 ==> r@.len() == 0,
        forall|j: int|
            0 <= j < r@.len() ==> ((#[trigger] r@[j]).is_final <==> j == r@.len() - 1),
        forall|j: int|
            0 <= j < r@.len() ==> (#[trigger] r@[j]).output_receipt_path@ == indexed_path(
                ctx.agg_path@,
                j,
            ),
        forall|j: int|
            0 <= j < r@.len() ==> (#[trigger] r@[j]).task_id@ == dec_str(j),
        forall|j: int|
            0 <= j < r@.len() ==> (#[trigger] r@[j]).proof_id@ == ctx.proof_id@
                && r@[j].output_dir@ == ctx.agg_path@ && r@[j].state == TASK_STATE_UNPROCESSED,
{
    let mut tasks: Vec<AggTask> = Vec::new();
    if n <= 1 {
        return tasks;
    }
    let mut level: Vec<AggregateInput> = Vec::new();
    let mut i: u64 = 0;
    while i < n
        invariant
            0 <= i <= n,
            n <= usize::MAX,
            level@.len() == i,
        decreases n - i,
    {
        level.push(
            AggregateInput {
                receipt_path: prove_receipt_path_of(ctx.prove_path.as_str(), i),
                is_agg: false,
            },
        );
        i = i + 1;
    }
    while level.len() > 1
        invariant
            n >= 2,
            n <= usize::MAX,
            1 <= level@.len(),
            tasks@.len() + level@.len() == n,
            forall|k: int|
                0 <= k < tasks@.len() ==> {
                    &&& (#[trigger] tasks@[k]).task_id@ == dec_str(k)
                    &&& tasks@[k].output_receipt_path@ == indexed_path(ctx.agg_path@, k)
                    &&& tasks@[k].proof_id@ == ctx.proof_id@
                    &&& tasks@[k].output_dir@ == ctx.agg_path@
                    &&& tasks@[k].state == TASK_STATE_UNPROCESSED
                    &&& !tasks@[k].is_final
                },
        decreases level@.len(),
    {
        proof {
            crate::codec::lemma_div_mod_2(level@.len() as int);
        }
        let start_id = tasks.len() as u64;
        let ghost pre_tasks = tasks@;
        let ghost pre_level = level@;
        let (mut batch, nxt) = pair_level(ctx, &level, start_id);
        tasks.append(&mut batch);
        level = nxt;
        proof {
            assert(tasks@.len() + level@.len() == pre_tasks.len() + pre_level.len());
            assert(forall|k: int|
                0 <= k < pre_tasks.len() ==> #[trigger] tasks@[k] == pre_tasks[k]);
        }
    }
    let ghost pre = tasks@;
    let k = tasks.len() - 1;
    let mut root = tasks.remove(k);
    root.is_final = true;
    tasks.push(root);
    proof {
        assert(tasks@.len() == pre.len());
        assert(forall|j: int| 0 <= j < pre.len() - 1 ==> tasks@[j] == pre[j]);
        assert(tasks@[pre.len() - 1].is_final);
    }
    tasks
}

/// The whole-directory aggregation task of a job with `n` prove receipts:
/// the alternative to the pairwise tree, consuming the receipt directory in
/// one call.
pub fn agg_all_task_of(ctx: &GenerateContext, n: u32) -> (t: AggAllTask)
    ensures
        t.task_id@ == dec_str(0),
        t.state == TASK_STATE_UNPROCESSED,
        t.proof_id@ == ctx.proof_id@,
        t.base_dir@ == ctx.basedir@,
        t.block_no == ctx.block_no,
        t.seg_size == ctx.seg_size,
        t.proof_num == n,
        t.receipt_dir@ == ctx.prove_path@ + "/receipt"@,
        t.output_dir@ == ctx.agg_path@,
        t.node_info@.len() == 0,
{
    let zero = "0";
    let empty = "";
    let sep = "/receipt";
    proof {
        reveal_strlit("0");
        reveal_strlit("");
        reveal_strlit("/receipt");
        assert(zero@ =~= dec_str(0));
    }
    let mut receipt_dir = ctx.prove_path.clone();
    receipt_dir.append(sep);
    AggAllTask {
        task_id: zero.to_owned(),
        state: TASK_STATE_UNPROCESSED,
        proof_id: ctx.proof_id.clone(),
        base_dir: ctx.basedir.clone(),
        block_no: ctx.block_no,
        seg_size: ctx.seg_size,
        proof_num: n,
        receipt_dir,
        output_dir: ctx.agg_path.clone(),
        start_ts: 0,
        finish_ts: 0,
        node_info: empty.to_owned(),
    }
}

/// The final sub-task of a job: wraps the root receipt, reading from the
/// aggregation directory and writing the final proof to the job's final
/// path.
pub fn final_task_of(ctx: &GenerateContext) -> (t: FinalTask)
    ensures
        t.task_id@ == dec_str(0),
        t.state == TASK_STATE_UNPROCESSED,
        t.proof_id@ == ctx.proof_id@,
        t.input_dir@ == ctx.agg_path@,
        t.output_path@ == ctx.final_path@,
        t.node_info@.len() == 0,
{
    let zero = "0";
    let empty = "";
    proof {
        reveal_strlit("0");
        reveal_strlit("");
        assert(zero@ =~= dec_str(0));
    }
    FinalTask {
        task_id: zero.to_owned(),
        state: TASK_STATE_UNPROCESSED,
        proof_id: ctx.proof_id.clone(),
        input_dir: ctx.agg_path.clone(),
        output_path: ctx.final_path.clone(),
        start_ts: 0,
        finish_ts: 0,
        node_info: empty.to_owned(),
    }
}

/// Where the receipt that feeds the final phase lives: with a single
/// segment the lone prove receipt feeds it directly, with no aggregation;
/// otherwise the root of the aggregation tree does.
pub open spec fn spec_stark_receipt_path(prove_path: Seq<char>, agg_path: Seq<char>, n: int) -> Seq<
    char,
> {
    if n <= 1 {
        prove_receipt_path(prove_path, 0)
    } else {
        indexed_path(agg_path, n - 2)
    }
}

/// The receipt that feeds the final phase for a job with `n` prove
/// receipts.
pub fn stark_receipt_path(ctx: &GenerateContext, n: u64) -> (r: String)
    ensures
        r@ == spec_stark_receipt_path(ctx.prove_path@, ctx.agg_path@, n as int),
{
    if n <= 1 {
        prove_receipt_path_of(ctx.prove_path.as_str(), 0)
    } else {
        indexed_path_of(ctx.agg_path.as_str(), n - 2)
    }
}

} // verus!
