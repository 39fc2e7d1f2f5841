//! The front service's logic: request validation, signer recovery, the
//! materialization plan of a new job, and the status response.

use vstd::prelude::*;
use crate::codec::{enc_bytes_list, enc_context, encode_bytes_list, encode_context, dec_str,
    append_dec, spec_decode_context, decode_context};
use crate::contexts::{GenerateContext, GenerateContextView};
use crate::dispatch::FileWrite;
use crate::orchestrator::{STATUS_COMPUTING, STATUS_INVALID_PARAMETER, STATUS_SUCCESS};
use crate::signature::{recovered_address_spec, recover_address, sign_message, sign_message_spec};

verus! {

/// Smallest accepted segment size.
pub const MIN_SEG_SIZE: u32 = 65536;

/// Largest accepted segment size.
pub const MAX_SEG_SIZE: u32 = 262144;

/// Whether a segment size lies in the accepted range.
pub fn valid_seg_size(seg_size: u32) -> (r: bool)
    ensures
        r == (MIN_SEG_SIZE <= seg_size <= MAX_SEG_SIZE),
{
    MIN_SEG_SIZE <= seg_size && seg_size <= MAX_SEG_SIZE
}

/// One named file of the block data.
pub struct BlockFileItem {
    pub file_name: String,
    pub file_content: Vec<u8>,
}

/// A proof request as the front service sees it.
pub struct GenerateProofRequest {
    pub proof_id: String,
    pub elf_data: Vec<u8>,
    pub block_data: Vec<BlockFileItem>,
    pub public_input_stream: Vec<u8>,
    pub private_input_stream: Vec<u8>,
    pub receipt_input: Vec<Vec<u8>>,
    pub receipt: Vec<Vec<u8>>,
    pub block_no: Option<u64>,
    pub seg_size: u32,
    pub execute_only: bool,
    pub precompile: bool,
    pub signature: String,
}

/// The front service's answer to a proof request.
pub struct GenerateProofResponse {
    pub proof_id: String,
    pub status: u32,
    pub error_message: String,
    pub proof_url: String,
    pub stark_proof_url: String,
    pub public_values_url: String,
    pub solidity_verifier_url: String,
}

/// The front service; the job store and the artifact store behind it are
/// driven by its caller.
pub struct StageServiceSVC {
    pub fileserver_url: Option<String>,
    pub verifier_url: Option<String>,
}

/// The row inserted for a newly accepted job.
pub struct StageTaskInsert {
    pub proof_id: String,
    pub user_address: String,
    pub status: u32,
    pub context: String,
}

/// Everything the caller must materialize for an accepted request, in
/// order: directories to create, files to write, the job context, the job
/// row, and the response.
pub struct GenerateProofPlan {
    pub dirs: Vec<String>,
    pub writes: Vec<FileWrite>,
    pub context: GenerateContext,
    pub row: StageTaskInsert,
    pub response: GenerateProofResponse,
}

/// What a proof request comes to.
pub enum GenerateProofOutcome {
    Rejected(GenerateProofResponse),
    Accepted(GenerateProofPlan),
}

/// The address the request's signature recovers to over the request's
/// canonical message.
pub open spec fn spec_valid_signature(req: &GenerateProofRequest) -> Option<Seq<char>> {
    recovered_address_spec(
        req.signature@,
        sign_message_spec(req.proof_id@, req.block_no, req.seg_size),
    )
}

/// `{base_dir}/proof/{proof_id}`: a job's directory.
pub open spec fn job_dir(base_dir: Seq<char>, proof_id: Seq<char>) -> Seq<char> {
    base_dir + "/proof/"@ + proof_id
}

/// The job context an accepted request gives rise to: the artifact layout
/// under the job directory, with the input-stream paths left empty for
/// streams the request does not carry.
pub open spec fn planned_context(base_dir: Seq<char>, req: &GenerateProofRequest) -> GenerateContextView {
    let dir = job_dir(base_dir, req.proof_id@);
    GenerateContextView {
        proof_id: req.proof_id@,
        basedir: dir,
        elf_path: dir + "/elf"@,
        seg_path: dir + "/segment"@,
        prove_path: dir + "/prove"@,
        agg_path: dir + "/aggregate"@,
        final_path: dir + "/final/proof_with_public_inputs.json"@,
        public_input_path: if req.public_input_stream@.len() == 0 {
            Seq::empty()
        } else {
            dir + "/input_stream/public_input"@
        },
        private_input_path: if req.private_input_stream@.len() == 0 {
            Seq::empty()
        } else {
            dir + "/input_stream/private_input"@
        },
        output_stream_path: dir + "/output_stream/output_stream"@,
        block_no: match req.block_no {
            Some(bn) => bn,
            None => 0,
        },
        seg_size: req.seg_size,
        execute_only: req.execute_only,
        precompile: req.precompile,
        receipt_inputs_path: if req.receipt_input@.len() == 0 {
            Seq::empty()
        } else {
            dir + "/input_stream/receipt_inputs"@
        },
        receipts_path: if req.receipt@.len() == 0 {
            Seq::empty()
        } else {
            dir + "/input_stream/receipts"@
        },
    }
}

/// `{fileserver}/{proof_id}{suffix}`: an artifact URL.
pub open spec fn url_of(fileserver: Seq<char>, proof_id: Seq<char>, suffix: Seq<char>) -> Seq<
    char,
> {
    fileserver + seq!['/'] + proof_id + suffix
}

fn build_url(fileserver: &str, proof_id: &str, suffix: &str) -> (r: String)
    ensures
        r@ == url_of(fileserver@, proof_id@, suffix@),
{
    let slash = "/";
    proof {
        reveal_strlit("/");
    }
    let mut s = fileserver.to_owned();
    s.append(slash);
    s.append(proof_id);
    s.append(suffix);
    assert(s@ =~= url_of(fileserver@, proof_id@, suffix@));
    s
}

fn empty_string() -> (r: String)
    ensures
        r@.len() == 0,
{
    String::new()
}

impl StageServiceSVC {
    /// Builds the front service around the configured artifact URLs; the
    /// job store, the artifact store and the orchestrator loop behind it
    /// belong to the caller.
    pub fn new(fileserver_url: Option<String>, verifier_url: Option<String>) -> (r:
        StageServiceSVC)
        ensures
            r.fileserver_url == fileserver_url,
            r.verifier_url == verifier_url,
    {
        StageServiceSVC { fileserver_url, verifier_url }
    }

    /// Recovers the signer of the request's canonical message from its
    /// signature; nothing when the signature does not parse or does not
    /// recover.
    pub fn valid_signature(&self, request: &GenerateProofRequest) -> (r: Option<String>)
        ensures
            match r {
                Some(a) => spec_valid_signature(request) == Some(a@),
                None => spec_valid_signature(request) is None,
            },
    {
        let msg = sign_message(request.proof_id.as_str(), request.block_no, request.seg_size);
        recover_address(request.signature.as_str(), msg.as_str())
    }

    /// Decides a proof request, given the whitelist's answer for the
    /// recovered signer: the canonical stored address, or nothing when the
    /// signer is unknown. `user` is meaningful only when the signature
    /// recovers; the caller looks it up between the two steps.
    ///
    /// A bad segment size, a bad signature and an unknown signer are
    /// rejected in that order, each with its message; an accepted request
    /// yields the full materialization plan.
    pub fn generate_proof_plan(
        &self,
        base_dir: &str,
        request: &GenerateProofRequest,
        user: &Option<String>,
    ) -> (r: GenerateProofOutcome)
        ensures
            ({
                let seg_ok = request.precompile || (MIN_SEG_SIZE <= request.seg_size
                    <= MAX_SEG_SIZE);
                let signer = spec_valid_signature(request);
                match r {
                    GenerateProofOutcome::Rejected(resp) => {
                        &&& resp.proof_id@ == request.proof_id@
                        &&& resp.status == STATUS_INVALID_PARAMETER
                        &&& (!seg_ok ==> resp.error_message@
                            == "invalid seg_size support [65536-262144]"@)
                        &&& (seg_ok && signer is None ==> resp.error_message@
                            == "invalid signature"@)
                        &&& (seg_ok && signer is Some && user is None ==> resp.error_message@
                            == "permission denied"@)
                        &&& (!seg_ok || signer is None || user is None)
                        &&& resp.proof_url@.len() == 0
                        &&& resp.stark_proof_url@.len() == 0
                        &&& resp.public_values_url@.len() == 0
                        &&& resp.solidity_verifier_url@.len() == 0
                    },
                    GenerateProofOutcome::Accepted(plan) => {
                        &&& seg_ok
                        &&& signer is Some
                        &&& user matches Some(u) && plan.row.user_address@ == u@
                        &&& plan.context@ == planned_context(base_dir@, request)
                        &&& plan.row.proof_id@ == request.proof_id@
                        &&& plan.row.status == STATUS_COMPUTING
                        &&& plan.row.context@ == enc_context(plan.context@)
                        &&& plan.response.proof_id@ == request.proof_id@
                        &&& plan.response.status == STATUS_COMPUTING
                        &&& plan.response.error_message@.len() == 0
                        &&& (request.execute_only ==> plan.response.proof_url@.len() == 0
                            && plan.response.stark_proof_url@.len() == 0
                            && plan.response.public_values_url@.len() == 0
                            && plan.response.solidity_verifier_url@.len() == 0)
                        &&& (!request.execute_only ==> {
                            &&& plan.response.proof_url@ == (match self.fileserver_url {
                                Some(fs) => url_of(
                                    fs@,
                                    request.proof_id@,
                                    "/final/proof_with_public_inputs.json"@,
                                ),
                                None => Seq::<char>::empty(),
                            })
                            &&& plan.response.stark_proof_url@ == (match self.fileserver_url {
                                Some(fs) => url_of(
                                    fs@,
                                    request.proof_id@,
                                    "/aggregate/proof_with_public_inputs.json"@,
                                ),
                                None => Seq::<char>::empty(),
                            })
                            &&& plan.response.public_values_url@ == (match self.fileserver_url {
                                Some(fs) => url_of(
                                    fs@,
                                    request.proof_id@,
                                    "/aggregate/public_values.json"@,
                                ),
                                None => Seq::<char>::empty(),
                            })
                            &&& plan.response.solidity_verifier_url@ == (match self.verifier_url {
                                Some(v) => v@,
                                None => Seq::<char>::empty(),
                            })
                        })
                        &&& plan.dirs@.len() == 9
                        &&& {
                            let dir = job_dir(base_dir@, request.proof_id@);
                            let bn = match request.block_no {
                                Some(bn) => bn as int,
                                None => 0,
                            };
                            &&& plan.dirs@[0]@ == dir
                            &&& plan.dirs@[1]@ == dir + "/0_"@ + dec_str(bn)
                            &&& plan.dirs@[2]@ == dir + "/input_stream"@
                            &&& plan.dirs@[3]@ == dir + "/output_stream"@
                            &&& plan.dirs@[4]@ == dir + "/segment"@
                            &&& plan.dirs@[5]@ == dir + "/prove"@
                            &&& plan.dirs@[6]@ == dir + "/prove/receipt"@
                            &&& plan.dirs@[7]@ == dir + "/aggregate"@
                            &&& plan.dirs@[8]@ == dir + "/final"@
                        }
                        &&& {
                            let dir = job_dir(base_dir@, request.proof_id@);
                            let bn = match request.block_no {
                                Some(bn) => bn as int,
                                None => 0,
                            };
                            let block_dir = dir + "/0_"@ + dec_str(bn);
                            let nb = request.block_data@.len() as int;
                            let p: int = if request.public_input_stream@.len() == 0 {
                                0
                            } else {
                                1
                            };
                            let q: int = if request.private_input_stream@.len() == 0 {
                                0
                            } else {
                                1
                            };
                            let ri: int = if request.receipt_input@.len() == 0 {
                                0
                            } else {
                                1
                            };
                            let rc: int = if request.receipt@.len() == 0 {
                                0
                            } else {
                                1
                            };
                            &&& plan.writes@.len() == 1 + nb + p + q + ri + rc
                            &&& plan.writes@[0].path@ == dir + "/elf"@
                            &&& plan.writes@[0].data@ == request.elf_data@
                            &&& forall|i: int|
                                0 <= i < nb ==> (#[trigger] plan.writes@[1 + i]).path@ == block_dir
                                    + seq!['/'] + request.block_data@[i].file_name@
                                    && plan.writes@[1 + i].data@
                                    == request.block_data@[i].file_content@
                            &&& p == 1 ==> plan.writes@[1 + nb].path@ == dir
                                + "/input_stream/public_input"@ && plan.writes@[1 + nb].data@
                                == request.public_input_stream@
                            &&& q == 1 ==> plan.writes@[1 + nb + p].path@ == dir
                                + "/input_stream/private_input"@ && plan.writes@[1 + nb + p].data@
                                == request.private_input_stream@
                            &&& ri == 1 ==> plan.writes@[1 + nb + p + q].path@ == dir
                                + "/input_stream/receipt_inputs"@ && plan.writes@[1 + nb + p
                                + q].data@ == enc_bytes_list(request.receipt_input@)
                            &&& rc == 1 ==> plan.writes@[1 + nb + p + q + ri].path@ == dir
                                + "/input_stream/receipts"@ && plan.writes@[1 + nb + p + q
                                + ri].data@ == enc_bytes_list(request.receipt@)
                        }
                    },
                }
            }),
    {
        let seg_ok = request.precompile || valid_seg_size(request.seg_size);
        if !seg_ok {
            let msg = "invalid seg_size support [65536-262144]";
            proof {
                reveal_strlit("invalid seg_size support [65536-262144]");
                reveal_strlit("invalid signature");
                reveal_strlit("permission denied");
            }
            return GenerateProofOutcome::Rejected(
                GenerateProofResponse {
                    proof_id: request.proof_id.clone(),
                    status: STATUS_INVALID_PARAMETER,
                    error_message: msg.to_owned(),
                    proof_url: empty_string(),
                    stark_proof_url: empty_string(),
                    public_values_url: empty_string(),
                    solidity_verifier_url: empty_string(),
                },
            );
        }
        let signer = self.valid_signature(request);
        if signer.is_none() {
            let msg = "invalid signature";
            proof {
                reveal_strlit("invalid signature");
                reveal_strlit("invalid seg_size support [65536-262144]");
                reveal_strlit("permission denied");
            }
            return GenerateProofOutcome::Rejected(
                GenerateProofResponse {
                    proof_id: request.proof_id.clone(),
                    status: STATUS_INVALID_PARAMETER,
                    error_message: msg.to_owned(),
                    proof_url: empty_string(),
                    stark_proof_url: empty_string(),
                    public_values_url: empty_string(),
                    solidity_verifier_url: empty_string(),
                },
            );
        }
        let user_address = match user {
            Some(u) => u.clone(),
            None => {
                let msg = "permission denied";
                proof {
                    reveal_strlit("permission denied");
                    reveal_strlit("invalid seg_size support [65536-262144]");
                    reveal_strlit("invalid signature");
                }
                return GenerateProofOutcome::Rejected(
                    GenerateProofResponse {
                        proof_id: request.proof_id.clone(),
                        status: STATUS_INVALID_PARAMETER,
                        error_message: msg.to_owned(),
                        proof_url: empty_string(),
                        stark_proof_url: empty_string(),
                        public_values_url: empty_string(),
                        solidity_verifier_url: empty_string(),
                    },
                );
            },
        };

        let slash = "/";
        proof {
            reveal_strlit("/");
            reveal_strlit("/proof/");
            reveal_strlit("/elf");
            reveal_strlit("/0_");
            reveal_strlit("/input_stream");
            reveal_strlit("/output_stream");
            reveal_strlit("/segment");
            reveal_strlit("/prove");
            reveal_strlit("/prove/receipt");
            reveal_strlit("/aggregate");
            reveal_strlit("/final");
            reveal_strlit("/final/proof_with_public_inputs.json");
            reveal_strlit("/output_stream/output_stream");
            reveal_strlit("/input_stream/public_input");
            reveal_strlit("/input_stream/private_input");
            reveal_strlit("/input_stream/receipt_inputs");
            reveal_strlit("/input_stream/receipts");
        }
        let mut dir = base_dir.to_owned();
        dir.append("/proof/");
        dir.append(request.proof_id.as_str());
        proof {
            assert(dir@ =~= job_dir(base_dir@, request.proof_id@));
        }
        let block_no = match request.block_no {
            Some(bn) => bn,
            None => 0,
        };

        let mut block_dir = dir.clone();
        block_dir.append("/0_");
        append_dec(&mut block_dir, block_no);

        let mut dirs: Vec<String> = Vec::new();
        dirs.push(dir.clone());
        dirs.push(block_dir.clone());
        dirs.push(concat_path(&dir, "/input_stream"));
        dirs.push(concat_path(&dir, "/output_stream"));
        dirs.push(concat_path(&dir, "/segment"));
        dirs.push(concat_path(&dir, "/prove"));
        dirs.push(concat_path(&dir, "/prove/receipt"));
        dirs.push(concat_path(&dir, "/aggregate"));
        dirs.push(concat_path(&dir, "/final"));

        let mut writes: Vec<FileWrite> = Vec::new();
        writes.push(
            FileWrite { path: concat_path(&dir, "/elf"), data: request.elf_data.clone() },
        );
        let nb = request.block_data.len();
        let mut i: usize = 0;
        while i < nb
            invariant
                0 <= i <= nb,
                nb == request.block_data@.len(),
                writes@.len() == 1 + i,
                slash@ == seq!['/'],
                writes@[0].path@ == job_dir(base_dir@, request.proof_id@) + "/elf"@,
                writes@[0].data@ == request.elf_data@,
                block_dir@ == job_dir(base_dir@, request.proof_id@) + "/0_"@ + dec_str(
                    match request.block_no {
                        Some(bn) => bn as int,
                        None => 0,
                    },
                ),
                forall|j: int|
                    0 <= j < i ==> (#[trigger] writes@[1 + j]).path@ == block_dir@ + seq!['/']
                        + request.block_data@[j].file_name@ && writes@[1 + j].data@
                        == request.block_data@[j].file_content@,
            decreases nb - i,
        {
            let mut p = block_dir.clone();
            p.append(slash);
            p.append(request.block_data[i].file_name.as_str());
            writes.push(FileWrite { path: p, data: request.block_data[i].file_content.clone() });
            i += 1;
        }
        if request.public_input_stream.len() > 0 {
            writes.push(
                FileWrite {
                    path: concat_path(&dir, "/input_stream/public_input"),
                    data: request.public_input_stream.clone(),
                },
            );
        }
        if request.private_input_stream.len() > 0 {
            writes.push(
                FileWrite {
                    path: concat_path(&dir, "/input_stream/private_input"),
                    data: request.private_input_stream.clone(),
                },
            );
        }
        if request.receipt_input.len() > 0 {
            writes.push(
                FileWrite {
                    path: concat_path(&dir, "/input_stream/receipt_inputs"),
                    data: encode_bytes_list(&request.receipt_input),
                },
            );
        }
        if request.receipt.len() > 0 {
            writes.push(
                FileWrite {
                    path: concat_path(&dir, "/input_stream/receipts"),
                    data: encode_bytes_list(&request.receipt),
                },
            );
        }

        let public_input_path = if request.public_input_stream.len() == 0 {
            empty_string()
        } else {
            concat_path(&dir, "/input_stream/public_input")
        };
        let private_input_path = if request.private_input_stream.len() == 0 {
            empty_string()
        } else {
            concat_path(&dir, "/input_stream/private_input")
        };
        let receipt_inputs_path = if request.receipt_input.len() == 0 {
            empty_string()
        } else {
            concat_path(&dir, "/input_stream/receipt_inputs")
        };
        let receipts_path = if request.receipt.len() == 0 {
            empty_string()
        } else {
            concat_path(&dir, "/input_stream/receipts")
        };
        let elf_path = concat_path(&dir, "/elf");
        let seg_path = concat_path(&dir, "/segment");
        let prove_path = concat_path(&dir, "/prove");
        let agg_path = concat_path(&dir, "/aggregate");
        let final_path = concat_path(&dir, "/final/proof_with_public_inputs.json");
        let output_stream_path = concat_path(&dir, "/output_stream/output_stream");

        let context = GenerateContext::new(
            request.proof_id.as_str(),
            dir.as_str(),
            elf_path.as_str(),
            seg_path.as_str(),
            prove_path.as_str(),
            agg_path.as_str(),
            final_path.as_str(),
            public_input_path.as_str(),
            private_input_path.as_str(),
            output_stream_path.as_str(),
            block_no,
            request.seg_size,
            request.execute_only,
            request.precompile,
            receipt_inputs_path.as_str(),
            receipts_path.as_str(),
        );
        proof {
            assert(context@.public_input_path =~= planned_context(base_dir@, request)
                .public_input_path);
            assert(context@.private_input_path =~= planned_context(base_dir@, request)
                .private_input_path);
            assert(context@.receipt_inputs_path =~= planned_context(base_dir@, request)
                .receipt_inputs_path);
            assert(context@.receipts_path =~= planned_context(base_dir@, request).receipts_path);
            assert(context@ == planned_context(base_dir@, request));
        }
        let row_context = encode_context(&context);
        let row = StageTaskInsert {
            proof_id: request.proof_id.clone(),
            user_address,
            status: STATUS_COMPUTING,
            context: row_context,
        };

        let response = self.build_accept_response(request);
        GenerateProofOutcome::Accepted(
            GenerateProofPlan { dirs, writes, context, row, response },
        )
    }

    fn build_accept_response(&self, request: &GenerateProofRequest) -> (resp:
        GenerateProofResponse)
        ensures
            resp.proof_id@ == request.proof_id@,
            resp.status == STATUS_COMPUTING,
            resp.error_message@.len() == 0,
            request.execute_only ==> resp.proof_url@.len() == 0 && resp.stark_proof_url@.len()
                == 0 && resp.public_values_url@.len() == 0 && resp.solidity_verifier_url@.len()
                == 0,
            !request.execute_only ==> {
                &&& resp.proof_url@ == (match self.fileserver_url {
                    Some(fs) => url_of(
                        fs@,
                        request.proof_id@,
                        "/final/proof_with_public_inputs.json"@,
                    ),
                    None => Seq::<char>::empty(),
                })
                &&& resp.stark_proof_url@ == (match self.fileserver_url {
                    Some(fs) => url_of(
                        fs@,
                        request.proof_id@,
                        "/aggregate/proof_with_public_inputs.json"@,
                    ),
                    None => Seq::<char>::empty(),
                })
                &&& resp.public_values_url@ == (match self.fileserver_url {
                    Some(fs) => url_of(fs@, request.proof_id@, "/aggregate/public_values.json"@),
                    None => Seq::<char>::empty(),
                })
                &&& resp.solidity_verifier_url@ == (match self.verifier_url {
                    Some(v) => v@,
                    None => Seq::<char>::empty(),
                })
            },
    {
        if request.execute_only {
            GenerateProofResponse {
                proof_id: request.proof_id.clone(),
                status: STATUS_COMPUTING,
                error_message: empty_string(),
                proof_url: empty_string(),
                stark_proof_url: empty_string(),
                public_values_url: empty_string(),
                solidity_verifier_url: empty_string(),
            }
        } else {
            let proof_url = match &self.fileserver_url {
                Some(fs) => build_url(
                    fs.as_str(),
                    request.proof_id.as_str(),
                    "/final/proof_with_public_inputs.json",
                ),
                None => empty_string(),
            };
            let stark_proof_url = match &self.fileserver_url {
                Some(fs) => build_url(
                    fs.as_str(),
                    request.proof_id.as_str(),
                    "/aggregate/proof_with_public_inputs.json",
                ),
                None => empty_string(),
            };
            let public_values_url = match &self.fileserver_url {
                Some(fs) => build_url(
                    fs.as_str(),
                    request.proof_id.as_str(),
                    "/aggregate/public_values.json",
                ),
                None => empty_string(),
            };
            let solidity_verifier_url = match &self.verifier_url {
                Some(v) => v.clone(),
                None => empty_string(),
            };
            GenerateProofResponse {
                proof_id: request.proof_id.clone(),
                status: STATUS_COMPUTING,
                error_message: empty_string(),
                proof_url,
                stark_proof_url,
                public_values_url,
                solidity_verifier_url,
            }
        }
    }
}


/// The stored row of one job, as the status endpoint reads it.
pub struct StageTaskRow {
    pub status: u32,
    pub step: u32,
    pub context: Option<String>,
    pub result: Option<Vec<u8>>,
}

/// The status endpoint's answer.
pub struct GetStatusResponse {
    pub proof_id: String,
    pub status: u32,
    pub step: u32,
    pub total_steps: u64,
    pub output_stream: Vec<u8>,
    pub receipt: Vec<u8>,
    pub proof_with_public_inputs: Vec<u8>,
    pub proof_url: String,
    pub stark_proof_url: String,
    pub public_values_url: String,
    pub solidity_verifier_url: String,
}

/// Which artifact files the status endpoint must read before it can answer.
pub struct StatusReads {
    pub output_stream_path: Option<String>,
    pub receipt_path: Option<String>,
}

/// The job context a row's serialized context decodes to, if any.
pub open spec fn row_context(row: &StageTaskRow) -> Option<GenerateContextView> {
    match row.context {
        Some(c) => spec_decode_context(c@),
        None => None,
    }
}

/// The mode flags of a row: those of its decoded context, or plain defaults
/// when there is no context or it does not decode.
pub open spec fn row_modes(row: &StageTaskRow) -> (bool, bool) {
    match row_context(row) {
        Some(c) => (c.execute_only, c.precompile),
        None => (false, false),
    }
}

/// What the status endpoint reads from the artifact store for a row: the
/// output stream of a succeeded job that has one, and for a precompile job
/// also the lone prove receipt.
pub fn status_file_reads(row: &StageTaskRow) -> (r: StatusReads)
    ensures
        ({
            let decoded = row_context(row);
            let want = row.status == STATUS_SUCCESS && decoded is Some
                && decoded.unwrap().output_stream_path.len() > 0;
            &&& (match r.output_stream_path {
                Some(p) => want && p@ == decoded.unwrap().output_stream_path,
                None => !want,
            })
            &&& (match r.receipt_path {
                Some(p) => want && decoded.unwrap().precompile && p@
                    == decoded.unwrap().prove_path + "/receipt/0"@,
                None => !(want && (decoded matches Some(c) && c.precompile)),
            })
        }),
{
    proof {
        reveal_strlit("/receipt/0");
    }
    match &row.context {
        Some(c) => match decode_context(c.as_str()) {
            Some(ctx) => {
                if row.status == STATUS_SUCCESS && ctx.output_stream_path.as_str().unicode_len()
                    > 0 {
                    let receipt_path = if ctx.precompile {
                        Some(concat_path(&ctx.prove_path, "/receipt/0"))
                    } else {
                        None
                    };
                    StatusReads {
                        output_stream_path: Some(ctx.output_stream_path),
                        receipt_path,
                    }
                } else {
                    StatusReads { output_stream_path: None, receipt_path: None }
                }
            },
            None => StatusReads { output_stream_path: None, receipt_path: None },
        },
        None => StatusReads { output_stream_path: None, receipt_path: None },
    }
}

impl StageServiceSVC {
    /// Builds the status answer from the stored row, the split task's
    /// segment count, and the artifact bytes that [`status_file_reads`]
    /// asked for. A job that is execute-only or a precompile gets no
    /// artifact URLs and no inline final proof.
    pub fn build_status_response(
        &self,
        proof_id: &str,
        row: &Option<StageTaskRow>,
        total_steps: &Option<u64>,
        output_data: Option<Vec<u8>>,
        receipt_data: Option<Vec<u8>>,
    ) -> (r: GetStatusResponse)
        ensures
            r.proof_id@ == proof_id@,
            row is None ==> r.status == 0 && r.step == 0 && r.total_steps == 0
                && r.output_stream@.len() == 0 && r.receipt@.len() == 0
                && r.proof_with_public_inputs@.len() == 0 && r.proof_url@.len() == 0
                && r.stark_proof_url@.len() == 0 && r.public_values_url@.len() == 0
                && r.solidity_verifier_url@.len() == 0,
            row matches Some(t) ==> {
                let modes = row_modes(t);
                &&& r.status == t.status
                &&& r.step == t.step
                &&& r.total_steps == (match total_steps {
                    Some(n) => *n,
                    None => 0,
                })
                &&& r.output_stream@ == (match output_data {
                    Some(d) => d@,
                    None => Seq::<u8>::empty(),
                })
                &&& r.receipt@ == (match receipt_data {
                    Some(d) => d@,
                    None => Seq::<u8>::empty(),
                })
                &&& ((!modes.0 && !modes.1) ==> {
                    &&& r.proof_with_public_inputs@ == (match t.result {
                        Some(d) => d@,
                        None => Seq::<u8>::empty(),
                    })
                    &&& r.proof_url@ == (match self.fileserver_url {
                        Some(fs) => url_of(
                            fs@,
                            proof_id@,
                            "/final/proof_with_public_inputs.json"@,
                        ),
                        None => Seq::<char>::empty(),
                    })
                    &&& r.stark_proof_url@ == (match self.fileserver_url {
                        Some(fs) => url_of(
                            fs@,
                            proof_id@,
                            "/aggregate/proof_with_public_inputs.json"@,
                        ),
                        None => Seq::<char>::empty(),
                    })
                    &&& r.public_values_url@ == (match self.fileserver_url {
                        Some(fs) => url_of(fs@, proof_id@, "/aggregate/public_values.json"@),
                        None => Seq::<char>::empty(),
                    })
                    &&& r.solidity_verifier_url@ == (match self.verifier_url {
                        Some(v) => v@,
                        None => Seq::<char>::empty(),
                    })
                })
                &&& ((modes.0 || modes.1) ==> r.proof_with_public_inputs@.len() == 0
                    && r.proof_url@.len() == 0 && r.stark_proof_url@.len() == 0
                    && r.public_values_url@.len() == 0 && r.solidity_verifier_url@.len() == 0)
            },
    {
        match row {
            None => GetStatusResponse {
                proof_id: proof_id.to_owned(),
                status: 0,
                step: 0,
                total_steps: 0,
                output_stream: Vec::new(),
                receipt: Vec::new(),
                proof_with_public_inputs: Vec::new(),
                proof_url: empty_string(),
                stark_proof_url: empty_string(),
                public_values_url: empty_string(),
                solidity_verifier_url: empty_string(),
            },
            Some(t) => {
                let ts = match total_steps {
                    Some(n) => *n,
                    None => 0,
                };
                let output_stream = match output_data {
                    Some(d) => d,
                    None => Vec::new(),
                };
                let receipt = match receipt_data {
                    Some(d) => d,
                    None => Vec::new(),
                };
                let (execute_only, precompile) = match &t.context {
                    Some(c) => match decode_context(c.as_str()) {
                        Some(ctx) => (ctx.execute_only, ctx.precompile),
                        None => (false, false),
                    },
                    None => (false, false),
                };
                if !execute_only && !precompile {
                    let proof_with_public_inputs = match &t.result {
                        Some(d) => d.clone(),
                        None => Vec::new(),
                    };
                    let proof_url = match &self.fileserver_url {
                        Some(fs) => build_url(
                            fs.as_str(),
                            proof_id,
                            "/final/proof_with_public_inputs.json",
                        ),
                        None => empty_string(),
                    };
                    let stark_proof_url = match &self.fileserver_url {
                        Some(fs) => build_url(
                            fs.as_str(),
                            proof_id,
                            "/aggregate/proof_with_public_inputs.json",
                        ),
                        None => empty_string(),
                    };
                    let public_values_url = match &self.fileserver_url {
                        Some(fs) => build_url(fs.as_str(), proof_id, "/aggregate/public_values.json"),
                        None => empty_string(),
                    };
                    let solidity_verifier_url = match &self.verifier_url {
                        Some(v) => v.clone(),
                        None => empty_string(),
                    };
                    GetStatusResponse {
                        proof_id: proof_id.to_owned(),
                        status: t.status,
                        step: t.step,
                        total_steps: ts,
                        output_stream,
                        receipt,
                        proof_with_public_inputs,
                        proof_url,
                        stark_proof_url,
                        public_values_url,
                        solidity_verifier_url,
                    }
                } else {
                    GetStatusResponse {
                        proof_id: proof_id.to_owned(),
                        status: t.status,
                        step: t.step,
                        total_steps: ts,
                        output_stream,
                        receipt,
                        proof_with_public_inputs: Vec::new(),
                        proof_url: empty_string(),
                        stark_proof_url: empty_string(),
                        public_values_url: empty_string(),
                        solidity_verifier_url: empty_string(),
                    }
                }
            },
        }
    }
}

/// Whether a TLS configuration is consistent: either no path is set, or all
/// three are.
pub fn valid_tls_config(
    ca_cert_path: &Option<String>,
    cert_path: &Option<String>,
    key_path: &Option<String>,
) -> (r: bool)
    ensures
        r == (ca_cert_path is None || (cert_path is Some && key_path is Some)),
{
    ca_cert_path.is_none() || (cert_path.is_some() && key_path.is_some())
}

fn concat_path(dir: &String, suffix: &str) -> (r: String)
    ensures
        r@ == dir@ + suffix@,
{
    let mut s = dir.clone();
    s.append(suffix);
    s
}

} // verus!
