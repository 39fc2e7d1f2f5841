use ethers_core::k256::ecdsa::SigningKey;
use ethers_core::utils::{hash_message, secret_key_to_address};
use stage_core::codec::decode_context;
use stage_core::orchestrator::{STATUS_COMPUTING, STATUS_INVALID_PARAMETER};
use stage_core::stage_service::{
    valid_seg_size, valid_tls_config, GenerateProofOutcome, GenerateProofRequest,
    StageServiceSVC, StageTaskRow, status_file_reads, MAX_SEG_SIZE, MIN_SEG_SIZE,
};

fn signed_request(block_no: Option<u64>, seg_size: u32) -> (GenerateProofRequest, String) {
    let key_bytes: [u8; 32] = [7; 32];
    let key = SigningKey::from_slice(&key_bytes).expect("key");
    let expected_address = hex::encode(secret_key_to_address(&key).as_bytes());

    let message = match block_no {
        Some(bn) => format!("p1&{}&{}", bn, seg_size),
        None => format!("p1&{}", seg_size),
    };
    let digest = hash_message(message.as_bytes());
    let (sig, rid) = key.sign_prehash_recoverable(digest.as_bytes()).expect("sign");
    let mut sig_bytes = sig.to_bytes().to_vec();
    sig_bytes.push(27 + rid.to_byte());

    let request = GenerateProofRequest {
        proof_id: String::from("p1"),
        elf_data: b"ELF".to_vec(),
        block_data: Vec::new(),
        public_input_stream: Vec::new(),
        private_input_stream: b"priv".to_vec(),
        receipt_input: Vec::new(),
        receipt: Vec::new(),
        block_no,
        seg_size,
        execute_only: false,
        precompile: false,
        signature: hex::encode(&sig_bytes),
    };
    (request, expected_address)
}

fn service() -> StageServiceSVC {
    StageServiceSVC::new(
        Some(String::from("http://files.example")),
        Some(String::from("http://verifier.example")),
    )
}

#[test]
fn seg_size_boundaries() {
    assert!(!valid_seg_size(MIN_SEG_SIZE - 1));
    assert!(valid_seg_size(MIN_SEG_SIZE));
    assert!(valid_seg_size(MAX_SEG_SIZE));
    assert!(!valid_seg_size(MAX_SEG_SIZE + 1));
}

#[test]
fn bad_seg_size_is_rejected() {
    let (mut request, _addr) = signed_request(Some(0), MIN_SEG_SIZE);
    request.seg_size = MIN_SEG_SIZE - 1;
    let svc = service();
    match svc.generate_proof_plan("/data", &request, &None) {
        GenerateProofOutcome::Rejected(resp) => {
            assert_eq!(resp.status, STATUS_INVALID_PARAMETER);
            assert_eq!(resp.error_message, "invalid seg_size support [65536-262144]");
        },
        GenerateProofOutcome::Accepted(_) => panic!("must be rejected"),
    }
}

#[test]
fn any_seg_size_is_accepted_for_precompile() {
    let (mut request, addr) = signed_request(Some(0), 1);
    request.precompile = true;
    let svc = service();
    match svc.generate_proof_plan("/data", &request, &Some(addr)) {
        GenerateProofOutcome::Accepted(plan) => {
            assert!(plan.context.precompile);
            assert_eq!(plan.context.seg_size, 1);
        },
        GenerateProofOutcome::Rejected(resp) => {
            panic!("must be accepted, got {}", resp.error_message)
        },
    }
}

#[test]
fn recovered_signer_matches_the_signing_key() {
    let (request, addr) = signed_request(Some(5), MIN_SEG_SIZE);
    let svc = service();
    let recovered = svc.valid_signature(&request).expect("signature must recover");
    assert_eq!(recovered, addr);
    assert_eq!(recovered.len(), 40);
}

#[test]
fn malformed_signature_is_rejected() {
    let (mut request, _addr) = signed_request(None, MIN_SEG_SIZE);
    request.signature = String::from("zz");
    let svc = service();
    match svc.generate_proof_plan("/data", &request, &None) {
        GenerateProofOutcome::Rejected(resp) => {
            assert_eq!(resp.status, STATUS_INVALID_PARAMETER);
            assert_eq!(resp.error_message, "invalid signature");
        },
        GenerateProofOutcome::Accepted(_) => panic!("must be rejected"),
    }
}

#[test]
fn unknown_signer_is_rejected() {
    let (request, _addr) = signed_request(Some(0), MIN_SEG_SIZE);
    let svc = service();
    match svc.generate_proof_plan("/data", &request, &None) {
        GenerateProofOutcome::Rejected(resp) => {
            assert_eq!(resp.status, STATUS_INVALID_PARAMETER);
            assert_eq!(resp.error_message, "permission denied");
            assert_eq!(resp.proof_url, "");
        },
        GenerateProofOutcome::Accepted(_) => panic!("must be rejected"),
    }
}

#[test]
fn accepted_request_yields_the_full_plan() {
    let (request, addr) = signed_request(Some(0), MIN_SEG_SIZE);
    let svc = service();
    let plan = match svc.generate_proof_plan("/data", &request, &Some(addr.clone())) {
        GenerateProofOutcome::Accepted(plan) => plan,
        GenerateProofOutcome::Rejected(resp) => {
            panic!("must be accepted, got {}", resp.error_message)
        },
    };
    assert_eq!(plan.row.user_address, addr);
    assert_eq!(plan.row.status, STATUS_COMPUTING);
    assert_eq!(plan.context.basedir, "/data/proof/p1");
    assert_eq!(plan.context.elf_path, "/data/proof/p1/elf");
    assert_eq!(plan.context.final_path, "/data/proof/p1/final/proof_with_public_inputs.json");
    // the row's context is the canonical serialization of the job context
    let decoded = decode_context(plan.row.context.as_str()).expect("row context decodes");
    assert_eq!(decoded.proof_id, plan.context.proof_id);
    assert_eq!(decoded.basedir, plan.context.basedir);
    // directories in creation order
    assert_eq!(plan.dirs.len(), 9);
    assert_eq!(plan.dirs[0], "/data/proof/p1");
    assert_eq!(plan.dirs[1], "/data/proof/p1/0_0");
    assert_eq!(plan.dirs[8], "/data/proof/p1/final");
    // an empty public input stream creates no file and leaves the path empty
    assert_eq!(plan.context.public_input_path, "");
    assert_eq!(plan.writes.len(), 2);
    assert_eq!(plan.writes[0].path, "/data/proof/p1/elf");
    assert_eq!(plan.writes[0].data, b"ELF".to_vec());
    assert_eq!(plan.writes[1].path, "/data/proof/p1/input_stream/private_input");
    assert_eq!(plan.writes[1].data, b"priv".to_vec());
    // response URLs are templated from the file server
    assert_eq!(plan.response.status, STATUS_COMPUTING);
    assert_eq!(
        plan.response.proof_url,
        "http://files.example/p1/final/proof_with_public_inputs.json"
    );
    assert_eq!(
        plan.response.stark_proof_url,
        "http://files.example/p1/aggregate/proof_with_public_inputs.json"
    );
    assert_eq!(
        plan.response.public_values_url,
        "http://files.example/p1/aggregate/public_values.json"
    );
    assert_eq!(plan.response.solidity_verifier_url, "http://verifier.example");
}

#[test]
fn execute_only_request_blanks_the_urls() {
    let (mut request, addr) = signed_request(None, MIN_SEG_SIZE);
    request.execute_only = true;
    let svc = service();
    match svc.generate_proof_plan("/data", &request, &Some(addr)) {
        GenerateProofOutcome::Accepted(plan) => {
            assert_eq!(plan.response.status, STATUS_COMPUTING);
            assert_eq!(plan.response.proof_url, "");
            assert_eq!(plan.response.stark_proof_url, "");
            assert_eq!(plan.response.public_values_url, "");
            assert_eq!(plan.response.solidity_verifier_url, "");
        },
        GenerateProofOutcome::Rejected(resp) => {
            panic!("must be accepted, got {}", resp.error_message)
        },
    }
}

#[test]
fn status_reads_for_a_succeeded_precompile_job() {
    let (mut request, addr) = signed_request(Some(0), 1);
    request.precompile = true;
    let svc = service();
    let plan = match svc.generate_proof_plan("/data", &request, &Some(addr)) {
        GenerateProofOutcome::Accepted(plan) => plan,
        GenerateProofOutcome::Rejected(_) => panic!("must be accepted"),
    };
    let row = StageTaskRow {
        status: 1,
        step: 6,
        context: Some(plan.row.context.clone()),
        result: None,
    };
    let reads = status_file_reads(&row);
    assert_eq!(
        reads.output_stream_path.as_deref(),
        Some("/data/proof/p1/output_stream/output_stream")
    );
    assert_eq!(reads.receipt_path.as_deref(), Some("/data/proof/p1/prove/receipt/0"));

    let computing = StageTaskRow { status: 0, step: 1, context: Some(plan.row.context), result: None };
    let reads = status_file_reads(&computing);
    assert!(reads.output_stream_path.is_none());
    assert!(reads.receipt_path.is_none());
}

#[test]
fn status_response_inlines_data_and_urls() {
    let svc = service();
    let row = StageTaskRow { status: 1, step: 6, context: None, result: Some(b"PROOF".to_vec()) };
    let resp = svc.build_status_response(
        "p1",
        &Some(row),
        &Some(4),
        Some(b"out".to_vec()),
        None,
    );
    assert_eq!(resp.status, 1);
    assert_eq!(resp.step, 6);
    assert_eq!(resp.total_steps, 4);
    assert_eq!(resp.output_stream, b"out".to_vec());
    assert_eq!(resp.proof_with_public_inputs, b"PROOF".to_vec());
    assert_eq!(resp.proof_url, "http://files.example/p1/final/proof_with_public_inputs.json");

    let missing = svc.build_status_response("p2", &None, &None, None, None);
    assert_eq!(missing.proof_id, "p2");
    assert_eq!(missing.status, 0);
    assert_eq!(missing.proof_url, "");
}

#[test]
fn tls_config_needs_all_three_paths() {
    assert!(valid_tls_config(&None, &None, &None));
    assert!(valid_tls_config(
        &Some(String::from("ca")),
        &Some(String::from("cert")),
        &Some(String::from("key"))
    ));
    assert!(!valid_tls_config(&Some(String::from("ca")), &None, &Some(String::from("key"))));
}
