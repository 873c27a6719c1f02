//! Entity types tracked in the provenance ledger.

use vstd::prelude::*;

verus! {

pub const WORKFLOW: &'static str = "workflow";

pub const NODE: &'static str = "node";

pub const PLAN: &'static str = "plan";

pub const REPLAN: &'static str = "replan";

pub const RECOVERY: &'static str = "recovery";

pub const EVALUATION_GROUP: &'static str = "evaluation_group";

pub const EVALUATION_MEMBER: &'static str = "evaluation_member";

pub const COMPETITION_GROUP: &'static str = "competition_group";

pub const COMPETITION_CANDIDATE: &'static str = "competition_candidate";

pub const APPLY: &'static str = "apply";

pub const WORKSPACE: &'static str = "workspace";

} // verus!
