//! A load-generation harness's core: the rate-paced dispatch decisions, the
//! skewed workload mix, per-request outcome classification, the channel-fed
//! aggregation of racing completions, and the persisted form of a run's
//! result. The clock, the network calls, the task spawning and the file
//! writing live with the program around it; every decision and every value
//! they act on is specified and proved here.

pub mod collector;
pub mod ident;
pub mod outcome;
pub mod render;
pub mod schedule;
pub mod variant;
