//! Task states, result codes, and the translation between a worker's reply
//! code and the local state of a sub-task.

use vstd::prelude::*;

verus! {

/// A sub-task that has not been accepted by any worker yet.
pub const TASK_STATE_UNPROCESSED: u32 = 0;

/// A sub-task that a worker has accepted and is still computing.
pub const TASK_STATE_PROCESSING: u32 = 1;

/// A sub-task whose output artifact has been produced.
pub const TASK_STATE_SUCCESS: u32 = 2;

/// A sub-task whose worker reported an internal error.
pub const TASK_STATE_FAILED: u32 = 3;

/// Per-RPC deadline and final-poll bound, in seconds.
pub const TASK_TIMEOUT: u64 = 1800;

/// Wire value of the `Unspecified` result code.
pub const RESULT_CODE_UNSPECIFIED: i32 = 0;

/// Wire value of the `Ok` result code.
pub const RESULT_CODE_OK: i32 = 1;

/// Wire value of the `InternalError` result code.
pub const RESULT_CODE_INTERNAL_ERROR: i32 = 2;

/// Wire value of the `Busy` result code.
pub const RESULT_CODE_BUSY: i32 = 3;

/// True of the four wire values a well-behaved worker may return.
pub open spec fn known_result_code(code: i32) -> bool {
    code == RESULT_CODE_UNSPECIFIED || code == RESULT_CODE_OK
        || code == RESULT_CODE_INTERNAL_ERROR || code == RESULT_CODE_BUSY
}

/// True of the four local task states.
pub open spec fn valid_task_state(state: u32) -> bool {
    state == TASK_STATE_UNPROCESSED || state == TASK_STATE_PROCESSING
        || state == TASK_STATE_SUCCESS || state == TASK_STATE_FAILED
}

/// What a reply code means for the sub-task that was dispatched: every
/// integer, known or not, maps to a defined task state; an unknown code is
/// treated as a failure.
pub open spec fn spec_result_code_to_state(code: i32) -> u32 {
    if code == RESULT_CODE_UNSPECIFIED {
        TASK_STATE_PROCESSING
    } else if code == RESULT_CODE_OK {
        TASK_STATE_SUCCESS
    } else if code == RESULT_CODE_BUSY {
        TASK_STATE_UNPROCESSED
    } else {
        TASK_STATE_FAILED
    }
}

/// Translates a worker reply code into the local state of the sub-task.
pub fn result_code_to_state(code: i32) -> (state: u32)
    ensures
        state == spec_result_code_to_state(code),
        valid_task_state(state),
{
    if code == RESULT_CODE_UNSPECIFIED {
        TASK_STATE_PROCESSING
    } else if code == RESULT_CODE_OK {
        TASK_STATE_SUCCESS
    } else if code == RESULT_CODE_BUSY {
        TASK_STATE_UNPROCESSED
    } else {
        TASK_STATE_FAILED
    }
}

/// The reply code that announces a task state, under the convention that is
/// inverse to [`spec_result_code_to_state`] wherever that is possible.
pub open spec fn spec_state_to_result_code(state: u32) -> i32 {
    if state == TASK_STATE_PROCESSING {
        RESULT_CODE_UNSPECIFIED
    } else if state == TASK_STATE_SUCCESS {
        RESULT_CODE_OK
    } else if state == TASK_STATE_UNPROCESSED {
        RESULT_CODE_BUSY
    } else {
        RESULT_CODE_INTERNAL_ERROR
    }
}

/// Translates a task state back into a worker reply code.
pub fn state_to_result_code(state: u32) -> (code: i32)
    ensures
        code == spec_state_to_result_code(state),
        known_result_code(code),
{
    if state == TASK_STATE_PROCESSING {
        RESULT_CODE_UNSPECIFIED
    } else if state == TASK_STATE_SUCCESS {
        RESULT_CODE_OK
    } else if state == TASK_STATE_UNPROCESSED {
        RESULT_CODE_BUSY
    } else {
        RESULT_CODE_INTERNAL_ERROR
    }
}

/// Every known reply code comes back unchanged from the round trip through
/// the task state and the inverse convention; in particular the `Ok` and
/// `InternalError` codes are preserved exactly, and every unknown code
/// collapses to `InternalError`.
pub proof fn lemma_result_code_round_trip(code: i32)
    ensures
        known_result_code(code) ==> spec_state_to_result_code(spec_result_code_to_state(code))
            == code,
        !known_result_code(code) ==> spec_state_to_result_code(spec_result_code_to_state(code))
            == RESULT_CODE_INTERNAL_ERROR,
{
}

/// The sub-task of the split phase: one per job.
#[derive(Clone)]
pub struct SplitTask {
    pub task_id: String,
    pub state: u32,
    pub proof_id: String,
    pub base_dir: String,
    pub elf_path: String,
    pub seg_path: String,
    pub public_input_path: String,
    pub private_input_path: String,
    pub output_path: String,
    pub args: String,
    pub block_no: u64,
    pub seg_size: u32,
    pub start_ts: u64,
    pub finish_ts: u64,
    pub node_info: String,
    pub total_steps: u64,
    pub receipt_inputs_path: String,
}

/// The sub-task of the prove phase: one per segment.
#[derive(Clone)]
pub struct ProveTask {
    pub task_id: String,
    pub state: u32,
    pub proof_id: String,
    pub base_dir: String,
    pub block_no: u64,
    pub seg_size: u32,
    pub seg_path: String,
    pub receipt_path: String,
    pub receipts_path: String,
    pub start_ts: u64,
    pub finish_ts: u64,
    pub node_info: String,
}

/// One input receipt of an aggregation: a path and whether the receipt is
/// itself an aggregate rather than a prove-phase leaf.
#[derive(Clone)]
pub struct AggregateInput {
    pub receipt_path: String,
    pub is_agg: bool,
}

/// The sub-task of the aggregation phase: combines two receipts into one.
#[derive(Clone)]
pub struct AggTask {
    pub task_id: String,
    pub state: u32,
    pub proof_id: String,
    pub base_dir: String,
    pub block_no: u64,
    pub seg_size: u32,
    pub input1: AggregateInput,
    pub input2: AggregateInput,
    pub output_receipt_path: String,
    pub output_dir: String,
    pub is_final: bool,
    pub start_ts: u64,
    pub finish_ts: u64,
    pub node_info: String,
}

/// The sub-task that aggregates a whole directory of receipts in one call.
#[derive(Clone)]
pub struct AggAllTask {
    pub task_id: String,
    pub state: u32,
    pub proof_id: String,
    pub base_dir: String,
    pub block_no: u64,
    pub seg_size: u32,
    pub proof_num: u32,
    pub receipt_dir: String,
    pub output_dir: String,
    pub start_ts: u64,
    pub finish_ts: u64,
    pub node_info: String,
}

/// The sub-task of the final phase: wraps the root receipt into the final
/// proof.
#[derive(Clone)]
pub struct FinalTask {
    pub task_id: String,
    pub state: u32,
    pub proof_id: String,
    pub input_dir: String,
    pub output_path: String,
    pub start_ts: u64,
    pub finish_ts: u64,
    pub node_info: String,
}

} // verus!
