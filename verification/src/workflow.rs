//! Workflows: what the daemon decides when it starts, persists, evaluates,
//! resumes and replays them.

pub mod evaluation;
pub mod events;
pub mod fix;
pub mod graph;
pub mod ledger;
pub mod nodes;
pub mod queries;
pub mod resume;
pub mod rows;
pub mod start;
pub mod types;
