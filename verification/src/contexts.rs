//! The job context (the persistent description of one proof job) and the
//! split context handed to the execution phase.

use vstd::prelude::*;

verus! {

/// Mathematical content of a [`GenerateContext`].
pub struct GenerateContextView {
    pub proof_id: Seq<char>,
    pub basedir: Seq<char>,
    pub elf_path: Seq<char>,
    pub seg_path: Seq<char>,
    pub prove_path: Seq<char>,
    pub agg_path: Seq<char>,
    pub final_path: Seq<char>,
    pub public_input_path: Seq<char>,
    pub private_input_path: Seq<char>,
    pub output_stream_path: Seq<char>,
    pub block_no: u64,
    pub seg_size: u32,
    pub execute_only: bool,
    pub precompile: bool,
    pub receipt_inputs_path: Seq<char>,
    pub receipts_path: Seq<char>,
}

/// Everything the orchestrator needs to know about one proof job: its
/// identity, the artifact paths of every phase, and the mode flags that
/// prune later phases.
pub struct GenerateContext {
    pub proof_id: String,
    pub basedir: String,
    pub elf_path: String,
    pub seg_path: String,
    pub prove_path: String,
    pub agg_path: String,
    pub final_path: String,
    pub public_input_path: String,
    pub private_input_path: String,
    pub output_stream_path: String,
    pub block_no: u64,
    pub seg_size: u32,
    pub execute_only: bool,
    pub precompile: bool,
    pub receipt_inputs_path: String,
    pub receipts_path: String,
}

impl View for GenerateContext {
    type V = GenerateContextView;

    open spec fn view(&self) -> GenerateContextView {
        GenerateContextView {
            proof_id: self.proof_id@,
            basedir: self.basedir@,
            elf_path: self.elf_path@,
            seg_path: self.seg_path@,
            prove_path: self.prove_path@,
            agg_path: self.agg_path@,
            final_path: self.final_path@,
            public_input_path: self.public_input_path@,
            private_input_path: self.private_input_path@,
            output_stream_path: self.output_stream_path@,
            block_no: self.block_no,
            seg_size: self.seg_size,
            execute_only: self.execute_only,
            precompile: self.precompile,
            receipt_inputs_path: self.receipt_inputs_path@,
            receipts_path: self.receipts_path@,
        }
    }
}

impl GenerateContext {
    /// Builds a job context from its parts.
    #[allow(clippy::too_many_arguments)]
    pub fn new(
        proof_id: &str,
        basedir: &str,
        elf_path: &str,
        seg_path: &str,
        prove_path: &str,
        agg_path: &str,
        final_path: &str,
        public_input_path: &str,
        private_input_path: &str,
        output_stream_path: &str,
        block_no: u64,
        seg_size: u32,
        execute_only: bool,
        precompile: bool,
        receipt_inputs_path: &str,
        receipts_path: &str,
    ) -> (r: GenerateContext)
        ensures
            r@ == (GenerateContextView {
                proof_id: proof_id@,
                basedir: basedir@,
                elf_path: elf_path@,
                seg_path: seg_path@,
                prove_path: prove_path@,
                agg_path: agg_path@,
                final_path: final_path@,
                public_input_path: public_input_path@,
                private_input_path: private_input_path@,
                output_stream_path: output_stream_path@,
                block_no: block_no,
                seg_size: seg_size,
                execute_only: execute_only,
                precompile: precompile,
                receipt_inputs_path: receipt_inputs_path@,
                receipts_path: receipts_path@,
            }),
    {
        GenerateContext {
            proof_id: proof_id.to_owned(),
            basedir: basedir.to_owned(),
            elf_path: elf_path.to_owned(),
            seg_path: seg_path.to_owned(),
            prove_path: prove_path.to_owned(),
            agg_path: agg_path.to_owned(),
            final_path: final_path.to_owned(),
            public_input_path: public_input_path.to_owned(),
            private_input_path: private_input_path.to_owned(),
            output_stream_path: output_stream_path.to_owned(),
            block_no,
            seg_size,
            execute_only,
            precompile,
            receipt_inputs_path: receipt_inputs_path.to_owned(),
            receipts_path: receipts_path.to_owned(),
        }
    }
}

/// Mathematical content of a [`SplitContext`].
pub struct SplitContextView {
    pub basedir: Seq<char>,
    pub elf_path: Seq<char>,
    pub block_no: u64,
    pub seg_size: u32,
    pub seg_path: Seq<char>,
    pub public_input_path: Seq<char>,
    pub private_input_path: Seq<char>,
    pub output_path: Seq<char>,
    pub args: Seq<char>,
    pub receipt_inputs_path: Seq<char>,
    pub receipts_path: Seq<char>,
}

/// Input description of the split phase: where the program and its input
/// streams live and where the segments are to be written.
pub struct SplitContext {
    pub basedir: String,
    pub elf_path: String,
    pub block_no: u64,
    pub seg_size: u32,
    pub seg_path: String,
    pub public_input_path: String,
    pub private_input_path: String,
    pub output_path: String,
    pub args: String,
    pub receipt_inputs_path: String,
    pub receipts_path: String,
}

impl View for SplitContext {
    type V = SplitContextView;

    open spec fn view(&self) -> SplitContextView {
        SplitContextView {
            basedir: self.basedir@,
            elf_path: self.elf_path@,
            block_no: self.block_no,
            seg_size: self.seg_size,
            seg_path: self.seg_path@,
            public_input_path: self.public_input_path@,
            private_input_path: self.private_input_path@,
            output_path: self.output_path@,
            args: self.args@,
            receipt_inputs_path: self.receipt_inputs_path@,
            receipts_path: self.receipts_path@,
        }
    }
}

impl SplitContext {
    /// Builds a split context from its parts.
    #[allow(clippy::too_many_arguments)]
    pub fn new(
        basedir: &str,
        elf_path: &str,
        block_no: u64,
        seg_size: u32,
        seg_path: &str,
        public_input_path: &str,
        private_input_path: &str,
        output_path: &str,
        args: &str,
        receipt_inputs_path: &str,
        receipts_path: &str,
    ) -> (r: SplitContext)
        ensures
            r@ == (SplitContextView {
                basedir: basedir@,
                elf_path: elf_path@,
                block_no: block_no,
                seg_size: seg_size,
                seg_path: seg_path@,
                public_input_path: public_input_path@,
                private_input_path: private_input_path@,
                output_path: output_path@,
                args: args@,
                receipt_inputs_path: receipt_inputs_path@,
                receipts_path: receipts_path@,
            }),
    {
        SplitContext {
            basedir: basedir.to_owned(),
            elf_path: elf_path.to_owned(),
            block_no,
            seg_size,
            seg_path: seg_path.to_owned(),
            public_input_path: public_input_path.to_owned(),
            private_input_path: private_input_path.to_owned(),
            output_path: output_path.to_owned(),
            args: args.to_owned(),
            receipt_inputs_path: receipt_inputs_path.to_owned(),
            receipts_path: receipts_path.to_owned(),
        }
    }
}

} // verus!
