//! Actor categories of provenance events.

use vstd::prelude::*;

verus! {

pub const USER: &'static str = "user";

pub const AGENT: &'static str = "agent";

pub const SYSTEM: &'static str = "system";

} // verus!
