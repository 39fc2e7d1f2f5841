//! The dispatch client's logic: building wire requests from sub-tasks,
//! translating replies into task states, and the bounded final-proof poll.

use vstd::prelude::*;
use crate::tasks::{
    AggAllTask, AggTask, AggregateInput, FinalTask, ProveTask, SplitTask,
    spec_result_code_to_state, result_code_to_state, TASK_STATE_FAILED, TASK_STATE_SUCCESS,
    TASK_STATE_UNPROCESSED, TASK_TIMEOUT,
};

verus! {

/// One file to be written on the artifact store: the performing side writes
/// `data` to `path`, overwriting.
pub struct FileWrite {
    pub path: String,
    pub data: Vec<u8>,
}

/// Wire request of the split phase.
pub struct SplitElfRequest {
    pub proof_id: String,
    pub computed_request_id: String,
    pub base_dir: String,
    pub elf_path: String,
    pub seg_path: String,
    pub public_input_path: String,
    pub private_input_path: String,
    pub output_path: String,
    pub args: String,
    pub block_no: u64,
    pub seg_size: u32,
    pub receipt_inputs_path: String,
}

/// Wire request of the prove phase.
pub struct ProveRequest {
    pub proof_id: String,
    pub computed_request_id: String,
    pub base_dir: String,
    pub seg_path: String,
    pub block_no: u64,
    pub seg_size: u32,
    pub receipt_path: String,
    pub receipts_path: String,
}

/// Wire request of the aggregation phase.
pub struct AggregateRequest {
    pub proof_id: String,
    pub computed_request_id: String,
    pub base_dir: String,
    pub seg_path: String,
    pub block_no: u64,
    pub seg_size: u32,
    pub input1: AggregateInput,
    pub input2: AggregateInput,
    pub agg_receipt_path: String,
    pub output_dir: String,
    pub is_final: bool,
}

/// Wire request of the whole-directory aggregation.
pub struct AggregateAllRequest {
    pub proof_id: String,
    pub computed_request_id: String,
    pub base_dir: String,
    pub seg_path: String,
    pub block_no: u64,
    pub seg_size: u32,
    pub proof_num: u32,
    pub receipt_dir: String,
    pub output_dir: String,
}

/// Wire request of the final phase; the circuit data files are read from the
/// aggregation output directory and inlined.
pub struct FinalProofRequest {
    pub proof_id: String,
    pub computed_request_id: String,
    pub common_circuit_data: Vec<u8>,
    pub verifier_only_circuit_data: Vec<u8>,
    pub proof_with_public_inputs: Vec<u8>,
    pub block_public_inputs: Vec<u8>,
}

/// Wire request of the result poll.
pub struct GetTaskResultRequest {
    pub proof_id: String,
    pub computed_request_id: String,
}

/// The result entry of a worker reply envelope.
pub struct ReplyResult {
    pub code: i32,
    pub message: Vec<u8>,
}

/// Builds the split request from a split task.
pub fn build_split_request(t: &SplitTask) -> (r: SplitElfRequest)
    ensures
        r.proof_id@ == t.proof_id@,
        r.computed_request_id@ == t.task_id@,
        r.base_dir@ == t.base_dir@,
        r.elf_path@ == t.elf_path@,
        r.seg_path@ == t.seg_path@,
        r.public_input_path@ == t.public_input_path@,
        r.private_input_path@ == t.private_input_path@,
        r.output_path@ == t.output_path@,
        r.args@ == t.args@,
        r.block_no == t.block_no,
        r.seg_size == t.seg_size,
        r.receipt_inputs_path@ == t.receipt_inputs_path@,
{
    SplitElfRequest {
        proof_id: t.proof_id.clone(),
        computed_request_id: t.task_id.clone(),
        base_dir: t.base_dir.clone(),
        elf_path: t.elf_path.clone(),
        seg_path: t.seg_path.clone(),
        public_input_path: t.public_input_path.clone(),
        private_input_path: t.private_input_path.clone(),
        output_path: t.output_path.clone(),
        args: t.args.clone(),
        block_no: t.block_no,
        seg_size: t.seg_size,
        receipt_inputs_path: t.receipt_inputs_path.clone(),
    }
}

/// Builds the prove request from a prove task.
pub fn build_prove_request(t: &ProveTask) -> (r: ProveRequest)
    ensures
        r.proof_id@ == t.proof_id@,
        r.computed_request_id@ == t.task_id@,
        r.base_dir@ == t.base_dir@,
        r.seg_path@ == t.seg_path@,
        r.block_no == t.block_no,
        r.seg_size == t.seg_size,
        r.receipt_path@ == t.receipt_path@,
        r.receipts_path@ == t.receipts_path@,
{
    ProveRequest {
        proof_id: t.proof_id.clone(),
        computed_request_id: t.task_id.clone(),
        base_dir: t.base_dir.clone(),
        seg_path: t.seg_path.clone(),
        block_no: t.block_no,
        seg_size: t.seg_size,
        receipt_path: t.receipt_path.clone(),
        receipts_path: t.receipts_path.clone(),
    }
}

/// Builds the aggregate request from an aggregation task; the per-segment
/// path is unused in this phase and left empty.
pub fn build_aggregate_request(t: &AggTask) -> (r: AggregateRequest)
    ensures
        r.proof_id@ == t.proof_id@,
        r.computed_request_id@ == t.task_id@,
        r.base_dir@ == t.base_dir@,
        r.seg_path@.len() == 0,
        r.block_no == t.block_no,
        r.seg_size == t.seg_size,
        r.input1.receipt_path@ == t.input1.receipt_path@,
        r.input1.is_agg == t.input1.is_agg,
        r.input2.receipt_path@ == t.input2.receipt_path@,
        r.input2.is_agg == t.input2.is_agg,
        r.agg_receipt_path@ == t.output_receipt_path@,
        r.output_dir@ == t.output_dir@,
        r.is_final == t.is_final,
{
    let empty = "";
    proof {
        reveal_strlit("");
    }
    AggregateRequest {
        proof_id: t.proof_id.clone(),
        computed_request_id: t.task_id.clone(),
        base_dir: t.base_dir.clone(),
        seg_path: empty.to_owned(),
        block_no: t.block_no,
        seg_size: t.seg_size,
        input1: AggregateInput {
            receipt_path: t.input1.receipt_path.clone(),
            is_agg: t.input1.is_agg,
        },
        input2: AggregateInput {
            receipt_path: t.input2.receipt_path.clone(),
            is_agg: t.input2.is_agg,
        },
        agg_receipt_path: t.output_receipt_path.clone(),
        output_dir: t.output_dir.clone(),
        is_final: t.is_final,
    }
}

/// Builds the whole-directory aggregate request; this wire format carries
/// the base directory in its per-segment path field.
pub fn build_aggregate_all_request(t: &AggAllTask) -> (r: AggregateAllRequest)
    ensures
        r.proof_id@ == t.proof_id@,
        r.computed_request_id@ == t.task_id@,
        r.base_dir@ == t.base_dir@,
        r.seg_path@ == t.base_dir@,
        r.block_no == t.block_no,
        r.seg_size == t.seg_size,
        r.proof_num == t.proof_num,
        r.receipt_dir@ == t.receipt_dir@,
        r.output_dir@ == t.output_dir@,
{
    AggregateAllRequest {
        proof_id: t.proof_id.clone(),
        computed_request_id: t.task_id.clone(),
        base_dir: t.base_dir.clone(),
        seg_path: t.base_dir.clone(),
        block_no: t.block_no,
        seg_size: t.seg_size,
        proof_num: t.proof_num,
        receipt_dir: t.receipt_dir.clone(),
        output_dir: t.output_dir.clone(),
    }
}

/// Builds the result-poll request.
pub fn build_get_task_result_request(proof_id: &str, task_id: &str) -> (r: GetTaskResultRequest)
    ensures
        r.proof_id@ == proof_id@,
        r.computed_request_id@ == task_id@,
{
    GetTaskResultRequest {
        proof_id: proof_id.to_owned(),
        computed_request_id: task_id.to_owned(),
    }
}

/// Applies the split reply: no reply leaves the task unprocessed for the
/// next tick; a reply sets the state the code denotes, the worker address,
/// and the segment count the split discovered.
pub fn apply_split_reply(t: &mut SplitTask, reply: &Option<(i32, u64)>, addr: &str)
    ensures
        final(t).task_id == old(t).task_id,
        final(t).proof_id == old(t).proof_id,
        final(t).base_dir == old(t).base_dir,
        final(t).elf_path == old(t).elf_path,
        final(t).seg_path == old(t).seg_path,
        final(t).public_input_path == old(t).public_input_path,
        final(t).private_input_path == old(t).private_input_path,
        final(t).output_path == old(t).output_path,
        final(t).args == old(t).args,
        final(t).block_no == old(t).block_no,
        final(t).seg_size == old(t).seg_size,
        final(t).receipt_inputs_path == old(t).receipt_inputs_path,
        match reply {
            Some((code, total_steps)) => final(t).state == spec_result_code_to_state(*code)
                && final(t).node_info@ == addr@ && final(t).total_steps == total_steps,
            None => final(t).state == TASK_STATE_UNPROCESSED && final(t).node_info == old(t).node_info && final(t).total_steps == old(t).total_steps,
        },
{
    t.state = TASK_STATE_UNPROCESSED;
    match reply {
        Some((code, total_steps)) => {
            t.state = result_code_to_state(*code);
            t.node_info = addr.to_owned();
            t.total_steps = *total_steps;
        },
        None => {},
    }
}

/// Applies a prove reply: no reply leaves the task unprocessed.
pub fn apply_prove_reply(t: &mut ProveTask, reply: &Option<i32>, addr: &str)
    ensures
        final(t).task_id == old(t).task_id,
        final(t).proof_id == old(t).proof_id,
        final(t).base_dir == old(t).base_dir,
        final(t).seg_path == old(t).seg_path,
        final(t).block_no == old(t).block_no,
        final(t).seg_size == old(t).seg_size,
        final(t).receipt_path == old(t).receipt_path,
        final(t).receipts_path == old(t).receipts_path,
        match reply {
            Some(code) => final(t).state == spec_result_code_to_state(*code) && final(t).node_info@ == addr@,
            None => final(t).state == TASK_STATE_UNPROCESSED && final(t).node_info == old(t).node_info,
        },
{
    t.state = TASK_STATE_UNPROCESSED;
    match reply {
        Some(code) => {
            t.state = result_code_to_state(*code);
            t.node_info = addr.to_owned();
        },
        None => {},
    }
}

/// Applies an aggregate reply: no reply leaves the task unprocessed.
pub fn apply_agg_reply(t: &mut AggTask, reply: &Option<i32>, addr: &str)
    ensures
        final(t).task_id == old(t).task_id,
        final(t).proof_id == old(t).proof_id,
        final(t).input1 == old(t).input1,
        final(t).input2 == old(t).input2,
        final(t).output_receipt_path == old(t).output_receipt_path,
        final(t).output_dir == old(t).output_dir,
        final(t).is_final == old(t).is_final,
        match reply {
            Some(code) => final(t).state == spec_result_code_to_state(*code) && final(t).node_info@ == addr@,
            None => final(t).state == TASK_STATE_UNPROCESSED && final(t).node_info == old(t).node_info,
        },
{
    t.state = TASK_STATE_UNPROCESSED;
    match reply {
        Some(code) => {
            t.state = result_code_to_state(*code);
            t.node_info = addr.to_owned();
        },
        None => {},
    }
}

/// Applies a whole-directory aggregate reply: no reply leaves the task
/// unprocessed.
pub fn apply_agg_all_reply(t: &mut AggAllTask, reply: &Option<i32>, addr: &str)
    ensures
        final(t).task_id == old(t).task_id,
        final(t).proof_id == old(t).proof_id,
        final(t).receipt_dir == old(t).receipt_dir,
        final(t).output_dir == old(t).output_dir,
        final(t).proof_num == old(t).proof_num,
        match reply {
            Some(code) => final(t).state == spec_result_code_to_state(*code) && final(t).node_info@ == addr@,
            None => final(t).state == TASK_STATE_UNPROCESSED && final(t).node_info == old(t).node_info,
        },
{
    t.state = TASK_STATE_UNPROCESSED;
    match reply {
        Some(code) => {
            t.state = result_code_to_state(*code);
            t.node_info = addr.to_owned();
        },
        None => {},
    }
}

/// A directory path joined with a file name: a `/` is inserted unless the
/// directory already ends with one.
pub open spec fn join_dir(d: Seq<char>, f: Seq<char>) -> Seq<char> {
    if d.len() > 0 && d.last() == '/' {
        d + f
    } else {
        d + seq!['/'] + f
    }
}

/// Joins a directory path with a file name.
pub fn path_join(d: &str, f: &str) -> (r: String)
    ensures
        r@ == join_dir(d@, f@),
{
    let slash = "/";
    proof {
        reveal_strlit("/");
    }
    let len = d.unicode_len();
    let mut s = d.to_owned();
    if len > 0 && d.get_char(len - 1) == '/' {
        s.append(f);
        assert(s@ =~= join_dir(d@, f@));
    } else {
        s.append(slash);
        s.append(f);
        assert(s@ =~= join_dir(d@, f@));
    }
    s
}

/// The four circuit-data files that the final phase reads from the
/// aggregation output directory.
pub fn final_input_files(input_dir: &str) -> (r: (String, String, String, String))
    ensures
        r.0@ == join_dir(input_dir@, "common_circuit_data.json"@),
        r.1@ == join_dir(input_dir@, "verifier_only_circuit_data.json"@),
        r.2@ == join_dir(input_dir@, "proof_with_public_inputs.json"@),
        r.3@ == join_dir(input_dir@, "block_public_inputs.json"@),
{
    (
        path_join(input_dir, "common_circuit_data.json"),
        path_join(input_dir, "verifier_only_circuit_data.json"),
        path_join(input_dir, "proof_with_public_inputs.json"),
        path_join(input_dir, "block_public_inputs.json"),
    )
}

/// Builds the final-proof request from the task and the four circuit-data
/// files read from its input directory.
pub fn build_final_request(
    t: &FinalTask,
    common_circuit_data: Vec<u8>,
    verifier_only_circuit_data: Vec<u8>,
    proof_with_public_inputs: Vec<u8>,
    block_public_inputs: Vec<u8>,
) -> (r: FinalProofRequest)
    ensures
        r.proof_id@ == t.proof_id@,
        r.computed_request_id@ == t.task_id@,
        r.common_circuit_data == common_circuit_data,
        r.verifier_only_circuit_data == verifier_only_circuit_data,
        r.proof_with_public_inputs == proof_with_public_inputs,
        r.block_public_inputs == block_public_inputs,
{
    FinalProofRequest {
        proof_id: t.proof_id.clone(),
        computed_request_id: t.task_id.clone(),
        common_circuit_data,
        verifier_only_circuit_data,
        proof_with_public_inputs,
        block_public_inputs,
    }
}

/// The code a result poll reports: the reply's code, or `Unspecified` when
/// no structured reply came back.
pub fn task_status_of_reply(reply: &Option<i32>) -> (r: i32)
    ensures
        match reply {
            Some(c) => r == c,
            None => r == crate::tasks::RESULT_CODE_UNSPECIFIED,
        },
{
    match reply {
        Some(c) => *c,
        None => crate::tasks::RESULT_CODE_UNSPECIFIED,
    }
}

/// Outcome of the bounded final-proof poll.
pub enum PollOutcome {
    Success,
    Failed,
    Pending,
}

/// What a sequence of poll results decides: success as soon as any of the
/// first `TASK_TIMEOUT` polls succeeds, failure once `TASK_TIMEOUT` polls
/// have all failed, and otherwise more polls are owed.
pub open spec fn spec_poll_outcome(polls: Seq<bool>) -> PollOutcome {
    if exists|i: int| 0 <= i < polls.len() && i < TASK_TIMEOUT && polls[i] {
        PollOutcome::Success
    } else if polls.len() >= TASK_TIMEOUT {
        PollOutcome::Failed
    } else {
        PollOutcome::Pending
    }
}

/// Evaluates the bounded final-proof poll over the poll results seen so far.
pub fn final_poll_outcome(polls: &Vec<bool>) -> (r: PollOutcome)
    ensures
        r == spec_poll_outcome(polls@),
{
    let bound: usize = TASK_TIMEOUT as usize;
    let mut i: usize = 0;
    while i < polls.len() && i < bound
        invariant
            0 <= i <= polls@.len(),
            i <= TASK_TIMEOUT,
            bound == TASK_TIMEOUT,
            forall|j: int| 0 <= j < i ==> !polls@[j],
        decreases polls@.len() - i,
    {
        if polls[i] {
            return PollOutcome::Success;
        }
        i += 1;
    }
    if polls.len() >= bound {
        PollOutcome::Failed
    } else {
        PollOutcome::Pending
    }
}

/// Exactly `TASK_TIMEOUT` unsuccessful polls decide failure, and a success
/// on the last poll within the bound decides success.
pub proof fn lemma_final_poll_bounds(polls: Seq<bool>)
    requires
        polls.len() == TASK_TIMEOUT,
    ensures
        (forall|i: int| 0 <= i < polls.len() ==> !polls[i]) ==> spec_poll_outcome(polls)
            is Failed,
        polls[TASK_TIMEOUT - 1] ==> spec_poll_outcome(polls) is Success,
{
}

/// Marks the final task successful and yields the write that persists the
/// returned proof bytes at the task's output path; a success is never
/// reported without that write.
pub fn apply_final_success(t: &mut FinalTask, message: Vec<u8>, addr: &str) -> (w: FileWrite)
    ensures
        final(t).state == TASK_STATE_SUCCESS,
        final(t).node_info@ == addr@,
        final(t).task_id == old(t).task_id,
        final(t).proof_id == old(t).proof_id,
        final(t).input_dir == old(t).input_dir,
        final(t).output_path == old(t).output_path,
        w.path == old(t).output_path,
        w.data == message,
{
    t.state = TASK_STATE_SUCCESS;
    t.node_info = addr.to_owned();
    FileWrite { path: t.output_path.clone(), data: message }
}

/// Marks the final task failed after the poll bound was exhausted or the
/// synchronous reply was an error.
pub fn apply_final_failure(t: &mut FinalTask)
    ensures
        final(t).state == TASK_STATE_FAILED,
        final(t).task_id == old(t).task_id,
        final(t).proof_id == old(t).proof_id,
        final(t).input_dir == old(t).input_dir,
        final(t).output_path == old(t).output_path,
        final(t).node_info == old(t).node_info,
{
    t.state = TASK_STATE_FAILED;
}

} // verus!
