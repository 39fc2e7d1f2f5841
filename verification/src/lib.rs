//! Control-plane core of a distributed proof-generation service: the job and
//! sub-task data model, the per-job scheduling state machine, the
//! aggregation-tree construction, the dispatch reply translation, and the
//! persistence codec for job contexts.

pub mod codec;
pub mod contexts;
pub mod dispatch;
pub mod nodes;
pub mod orchestrator;
pub mod signature;
pub mod stage_service;
pub mod tasks;
