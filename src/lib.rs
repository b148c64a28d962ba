//! Decision logic of a long-running chain automation agent: the coordinator
//! loop's recovery discipline, the submit-then-confirm protocol for chain
//! actions, and the composition of lending-position queries.
pub mod actions;
pub mod coordinator;
pub mod positions;
pub mod submission;
pub mod telemetry;
