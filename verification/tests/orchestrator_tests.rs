use stage_core::contexts::GenerateContext;
use stage_core::dispatch::{
    apply_final_success, apply_prove_reply, apply_split_reply, final_input_files,
    final_poll_outcome, PollOutcome,
};
use stage_core::nodes::{get_nodes, get_snark_nodes, select_idle, ProverNode, ProverNodes};
use stage_core::orchestrator::{
    agg_tasks_of, final_task_of, new_job_state, on_phase_complete, on_task_observed,
    prove_tasks_of, split_task_of, stark_receipt_path, STATUS_COMPUTING, STATUS_FAILED,
    STATUS_SUCCESS, STEP_END, STEP_INIT, STEP_SPLIT,
};
use stage_core::tasks::{
    result_code_to_state, state_to_result_code, ProveTask, SplitTask, RESULT_CODE_BUSY,
    RESULT_CODE_INTERNAL_ERROR, RESULT_CODE_OK, RESULT_CODE_UNSPECIFIED, TASK_STATE_FAILED,
    TASK_STATE_PROCESSING, TASK_STATE_SUCCESS, TASK_STATE_UNPROCESSED, TASK_TIMEOUT,
};

fn ctx() -> GenerateContext {
    GenerateContext::new(
        "p1",
        "/data/proof/p1",
        "/data/proof/p1/elf",
        "/data/proof/p1/segment",
        "/data/proof/p1/prove",
        "/data/proof/p1/aggregate",
        "/data/proof/p1/final/proof_with_public_inputs.json",
        "",
        "",
        "/data/proof/p1/output_stream/output_stream",
        0,
        65536,
        false,
        false,
        "",
        "",
    )
}

#[test]
fn result_code_mapping_is_total() {
    assert_eq!(result_code_to_state(RESULT_CODE_UNSPECIFIED), TASK_STATE_PROCESSING);
    assert_eq!(result_code_to_state(RESULT_CODE_OK), TASK_STATE_SUCCESS);
    assert_eq!(result_code_to_state(RESULT_CODE_INTERNAL_ERROR), TASK_STATE_FAILED);
    assert_eq!(result_code_to_state(RESULT_CODE_BUSY), TASK_STATE_UNPROCESSED);
    assert_eq!(result_code_to_state(-7), TASK_STATE_FAILED);
    assert_eq!(result_code_to_state(12345), TASK_STATE_FAILED);
}

#[test]
fn result_code_round_trip_preserves_known_codes() {
    for code in [
        RESULT_CODE_UNSPECIFIED,
        RESULT_CODE_OK,
        RESULT_CODE_INTERNAL_ERROR,
        RESULT_CODE_BUSY,
    ] {
        assert_eq!(state_to_result_code(result_code_to_state(code)), code);
    }
    assert_eq!(state_to_result_code(result_code_to_state(99)), RESULT_CODE_INTERNAL_ERROR);
}

#[test]
fn split_task_carries_the_context() {
    let t = split_task_of(&ctx());
    assert_eq!(t.task_id, "0");
    assert_eq!(t.state, TASK_STATE_UNPROCESSED);
    assert_eq!(t.proof_id, "p1");
    assert_eq!(t.base_dir, "/data/proof/p1");
    assert_eq!(t.elf_path, "/data/proof/p1/elf");
    assert_eq!(t.output_path, "/data/proof/p1/output_stream/output_stream");
}

#[test]
fn four_prove_tasks_and_their_paths() {
    let tasks = prove_tasks_of(&ctx(), 4);
    assert_eq!(tasks.len(), 4);
    for (i, t) in tasks.iter().enumerate() {
        assert_eq!(t.task_id, i.to_string());
        assert_eq!(t.seg_path, format!("/data/proof/p1/segment/{}", i));
        assert_eq!(t.receipt_path, format!("/data/proof/p1/prove/receipt/{}", i));
        assert_eq!(t.state, TASK_STATE_UNPROCESSED);
    }
}

#[test]
fn four_segment_aggregation_tree() {
    let tasks = agg_tasks_of(&ctx(), 4);
    assert_eq!(tasks.len(), 3);
    // level one: two tasks over the prove receipts
    assert_eq!(tasks[0].input1.receipt_path, "/data/proof/p1/prove/receipt/0");
    assert!(!tasks[0].input1.is_agg);
    assert_eq!(tasks[0].input2.receipt_path, "/data/proof/p1/prove/receipt/1");
    assert!(!tasks[0].input2.is_agg);
    assert_eq!(tasks[1].input1.receipt_path, "/data/proof/p1/prove/receipt/2");
    assert_eq!(tasks[1].input2.receipt_path, "/data/proof/p1/prove/receipt/3");
    assert!(!tasks[0].is_final);
    assert!(!tasks[1].is_final);
    // level two: the root combines the two aggregates
    assert_eq!(tasks[2].input1.receipt_path, "/data/proof/p1/aggregate/0");
    assert!(tasks[2].input1.is_agg);
    assert_eq!(tasks[2].input2.receipt_path, "/data/proof/p1/aggregate/1");
    assert!(tasks[2].input2.is_agg);
    assert!(tasks[2].is_final);
}

#[test]
fn odd_count_aggregation_promotes_the_unpaired_receipt() {
    let tasks = agg_tasks_of(&ctx(), 3);
    assert_eq!(tasks.len(), 2);
    assert_eq!(tasks[0].input1.receipt_path, "/data/proof/p1/prove/receipt/0");
    assert_eq!(tasks[0].input2.receipt_path, "/data/proof/p1/prove/receipt/1");
    // the root pairs the aggregate with the promoted leaf, which keeps its flag
    assert_eq!(tasks[1].input1.receipt_path, "/data/proof/p1/aggregate/0");
    assert!(tasks[1].input1.is_agg);
    assert_eq!(tasks[1].input2.receipt_path, "/data/proof/p1/prove/receipt/2");
    assert!(!tasks[1].input2.is_agg);
    assert!(tasks[1].is_final);
}

#[test]
fn aggregation_counts() {
    let c = ctx();
    assert_eq!(agg_tasks_of(&c, 0).len(), 0);
    assert_eq!(agg_tasks_of(&c, 1).len(), 0);
    assert_eq!(agg_tasks_of(&c, 2).len(), 1);
    assert_eq!(agg_tasks_of(&c, 7).len(), 6);
    assert_eq!(agg_tasks_of(&c, 16).len(), 15);
}

#[test]
fn single_prove_receipt_feeds_the_final_phase() {
    let c = ctx();
    assert_eq!(agg_tasks_of(&c, 1).len(), 0);
    assert_eq!(stark_receipt_path(&c, 1), "/data/proof/p1/prove/receipt/0");
    assert_eq!(stark_receipt_path(&c, 4), "/data/proof/p1/aggregate/2");
}

#[test]
fn final_task_reads_the_aggregate_directory() {
    let t = final_task_of(&ctx());
    assert_eq!(t.input_dir, "/data/proof/p1/aggregate");
    assert_eq!(t.output_path, "/data/proof/p1/final/proof_with_public_inputs.json");
    assert_eq!(t.state, TASK_STATE_UNPROCESSED);
}

#[test]
fn final_input_files_normalize_the_directory() {
    let (a, b, c, d) = final_input_files("/x/agg");
    assert_eq!(a, "/x/agg/common_circuit_data.json");
    assert_eq!(b, "/x/agg/verifier_only_circuit_data.json");
    assert_eq!(c, "/x/agg/proof_with_public_inputs.json");
    assert_eq!(d, "/x/agg/block_public_inputs.json");
    let (a2, _, _, _) = final_input_files("/x/agg/");
    assert_eq!(a2, "/x/agg/common_circuit_data.json");
}

#[test]
fn busy_reply_leaves_the_task_unprocessed() {
    let mut t: ProveTask = prove_tasks_of(&ctx(), 1).pop().unwrap();
    apply_prove_reply(&mut t, &Some(RESULT_CODE_BUSY), "worker:1");
    assert_eq!(t.state, TASK_STATE_UNPROCESSED);
    apply_prove_reply(&mut t, &None, "worker:2");
    assert_eq!(t.state, TASK_STATE_UNPROCESSED);
    apply_prove_reply(&mut t, &Some(RESULT_CODE_OK), "worker:3");
    assert_eq!(t.state, TASK_STATE_SUCCESS);
    assert_eq!(t.node_info, "worker:3");
}

#[test]
fn split_reply_records_the_segment_count() {
    let mut t: SplitTask = split_task_of(&ctx());
    apply_split_reply(&mut t, &Some((RESULT_CODE_OK, 4)), "worker:1");
    assert_eq!(t.state, TASK_STATE_SUCCESS);
    assert_eq!(t.total_steps, 4);
    assert_eq!(t.node_info, "worker:1");
}

#[test]
fn busy_task_does_not_charge_the_retry_budget() {
    let mut js = new_job_state();
    for _ in 0..100 {
        on_task_observed(&mut js, TASK_STATE_UNPROCESSED);
    }
    assert_eq!(js.status, STATUS_COMPUTING);
    assert_eq!(js.retries, 0);
}

#[test]
fn retry_budget_exhaustion_poisons_the_job() {
    let mut js = new_job_state();
    on_task_observed(&mut js, TASK_STATE_FAILED);
    on_task_observed(&mut js, TASK_STATE_FAILED);
    on_task_observed(&mut js, TASK_STATE_FAILED);
    assert_eq!(js.status, STATUS_COMPUTING);
    assert_eq!(js.retries, 3);
    on_task_observed(&mut js, TASK_STATE_FAILED);
    assert_eq!(js.status, STATUS_FAILED);
    assert_eq!(js.step, STEP_END);
    // the terminal status is absorbing
    on_phase_complete(&mut js, false, false);
    on_task_observed(&mut js, TASK_STATE_FAILED);
    assert_eq!(js.status, STATUS_FAILED);
}

#[test]
fn execute_only_job_ends_after_split() {
    let mut js = new_job_state();
    assert_eq!(js.status, STATUS_COMPUTING);
    assert_eq!(js.step, STEP_INIT);
    on_phase_complete(&mut js, true, false);
    assert_eq!(js.step, STEP_SPLIT);
    on_phase_complete(&mut js, true, false);
    assert_eq!(js.status, STATUS_SUCCESS);
    assert_eq!(js.step, STEP_END);
}

#[test]
fn full_pipeline_statuses_stay_computing_until_the_end() {
    let mut js = new_job_state();
    let mut seen = vec![js.status];
    for _ in 0..4 {
        on_phase_complete(&mut js, false, false);
        seen.push(js.status);
    }
    on_phase_complete(&mut js, false, false);
    seen.push(js.status);
    assert_eq!(seen, vec![0, 0, 0, 0, 0, STATUS_SUCCESS]);
    assert_eq!(js.step, STEP_END);
}

#[test]
fn final_poll_bounds() {
    let all_failed = vec![false; TASK_TIMEOUT as usize];
    assert!(matches!(final_poll_outcome(&all_failed), PollOutcome::Failed));

    let mut late_success = vec![false; TASK_TIMEOUT as usize];
    late_success[TASK_TIMEOUT as usize - 1] = true;
    assert!(matches!(final_poll_outcome(&late_success), PollOutcome::Success));

    let still_running = vec![false; 10];
    assert!(matches!(final_poll_outcome(&still_running), PollOutcome::Pending));

    let over_the_bound = {
        let mut v = vec![false; TASK_TIMEOUT as usize + 1];
        v[TASK_TIMEOUT as usize] = true;
        v
    };
    assert!(matches!(final_poll_outcome(&over_the_bound), PollOutcome::Failed));
}

#[test]
fn final_success_writes_the_proof() {
    let mut t = final_task_of(&ctx());
    let w = apply_final_success(&mut t, b"PROOF".to_vec(), "snark:1");
    assert_eq!(t.state, TASK_STATE_SUCCESS);
    assert_eq!(w.path, "/data/proof/p1/final/proof_with_public_inputs.json");
    assert_eq!(w.data, b"PROOF".to_vec());
}

#[test]
fn worker_directory_views_and_selection() {
    let d = ProverNodes::new(
        vec![ProverNode::new("a:1"), ProverNode::new("b:2")],
        vec![ProverNode::new("s:9")],
    );
    let general = get_nodes(&d);
    assert_eq!(general.len(), 2);
    assert_eq!(general[0].addr, "a:1");
    let snark = get_snark_nodes(&d);
    assert_eq!(snark.len(), 1);
    assert_eq!(snark[0].addr, "s:9");

    assert_eq!(select_idle(&d.nodes, &vec![false, true]), Some(1));
    assert_eq!(select_idle(&d.nodes, &vec![true, true]), Some(0));
    assert_eq!(select_idle(&d.nodes, &vec![false, false]), None);
}

#[test]
fn no_reply_polls_as_still_running() {
    assert_eq!(
        stage_core::dispatch::task_status_of_reply(&None),
        RESULT_CODE_UNSPECIFIED
    );
    assert_eq!(
        stage_core::dispatch::task_status_of_reply(&Some(RESULT_CODE_OK)),
        RESULT_CODE_OK
    );
}

#[test]
fn happy_tiny_job() {
    let c = ctx();
    let mut js = new_job_state();
    assert_eq!(js.status, STATUS_COMPUTING);

    // split discovers a single segment
    on_phase_complete(&mut js, false, false);
    let mut split = split_task_of(&c);
    apply_split_reply(&mut split, &Some((RESULT_CODE_OK, 1)), "w:1");
    assert_eq!(split.state, TASK_STATE_SUCCESS);
    on_task_observed(&mut js, split.state);
    on_phase_complete(&mut js, false, false);

    // one prove task, no aggregation
    let mut proves = prove_tasks_of(&c, split.total_steps);
    assert_eq!(proves.len(), 1);
    apply_prove_reply(&mut proves[0], &Some(RESULT_CODE_OK), "w:1");
    on_task_observed(&mut js, proves[0].state);
    on_phase_complete(&mut js, false, false);
    assert_eq!(agg_tasks_of(&c, split.total_steps).len(), 0);
    assert_eq!(stark_receipt_path(&c, 1), "/data/proof/p1/prove/receipt/0");
    on_phase_complete(&mut js, false, false);

    // the final proof comes back and is persisted at the final path
    let mut fin = final_task_of(&c);
    let write = stage_core::dispatch::apply_final_success(&mut fin, b"PROOF".to_vec(), "s:1");
    assert_eq!(write.path, "/data/proof/p1/final/proof_with_public_inputs.json");
    assert_eq!(write.data, b"PROOF".to_vec());
    on_task_observed(&mut js, fin.state);
    on_phase_complete(&mut js, false, false);
    assert_eq!(js.status, STATUS_SUCCESS);
    assert_eq!(js.step, STEP_END);
}

#[test]
fn wire_requests_mirror_their_tasks() {
    let c = ctx();
    let split = split_task_of(&c);
    let sreq = stage_core::dispatch::build_split_request(&split);
    assert_eq!(sreq.proof_id, "p1");
    assert_eq!(sreq.computed_request_id, "0");
    assert_eq!(sreq.elf_path, "/data/proof/p1/elf");

    let prove = prove_tasks_of(&c, 2);
    let preq = stage_core::dispatch::build_prove_request(&prove[1]);
    assert_eq!(preq.computed_request_id, "1");
    assert_eq!(preq.seg_path, "/data/proof/p1/segment/1");
    assert_eq!(preq.receipt_path, "/data/proof/p1/prove/receipt/1");

    let aggs = agg_tasks_of(&c, 2);
    let areq = stage_core::dispatch::build_aggregate_request(&aggs[0]);
    assert_eq!(areq.seg_path, "");
    assert_eq!(areq.agg_receipt_path, "/data/proof/p1/aggregate/0");
    assert!(areq.is_final);

    let agg_all = stage_core::orchestrator::agg_all_task_of(&c, 4);
    let aareq = stage_core::dispatch::build_aggregate_all_request(&agg_all);
    assert_eq!(aareq.proof_num, 4);
    assert_eq!(aareq.receipt_dir, "/data/proof/p1/prove/receipt");
    assert_eq!(aareq.output_dir, "/data/proof/p1/aggregate");
    assert_eq!(aareq.seg_path, aareq.base_dir);

    let poll = stage_core::dispatch::build_get_task_result_request("p1", "0");
    assert_eq!(poll.proof_id, "p1");
    assert_eq!(poll.computed_request_id, "0");
}
