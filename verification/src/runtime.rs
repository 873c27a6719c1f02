//! What the daemon is set up with at its start.

use vstd::prelude::*;
use vstd::string::*;

use crate::config::{AgentMeshConfig, PlanPolicyConfig, RecoveryConfig};
use crate::ids::{id_text, is_time_text, now_text, Uuid};
use crate::protocol::{DaemonMeta, DAEMON_PROTOCOL_VERSION};
use crate::recovery::{policy_of, RecoveryPolicy};

verus! {

/// How often live tasks report a heartbeat, in seconds.
pub const HEARTBEAT_SECONDS: u64 = 5;

/// The plan policy that a configuration asks for; nothing where the default
/// one is to be used.
pub fn configured_plan_policy(config: &AgentMeshConfig) -> (r: Option<&PlanPolicyConfig>)
    ensures
        match config.planner {
            Some(planner) => match (planner.policy, r) {
                (Some(policy), Some(found)) => *found == policy,
                (None, None) => true,
                _ => false,
            },
            None => r is None,
        },
{
    match &config.planner {
        Some(planner) => match &planner.policy {
            Some(policy) => Some(policy),
            None => None,
        },
        None => None,
    }
}

/// The recovery policy that a configuration asks for: the default one where it
/// has no recovery section.
pub fn configured_recovery_policy(config: &AgentMeshConfig) -> (r: RecoveryPolicy)
    ensures
        r == (match config.recovery {
            Some(recovery) => policy_of(recovery),
            None => policy_of(
                RecoveryConfig {
                    max_attempts: None,
                    auto_generate: None,
                    auto_execute: None,
                    max_recovery_agent_calls: None,
                },
            ),
        }),
{
    match &config.recovery {
        Some(recovery) => RecoveryPolicy::from_config(recovery),
        None => RecoveryPolicy::from_config(&RecoveryConfig::default()),
    }
}

/// The metadata of a daemon that starts at the given time.
pub fn daemon_meta(instance_id: &Uuid, pid: u32, address: &str, started_at: String) -> (r:
    DaemonMeta)
    ensures
        r.protocol_version == DAEMON_PROTOCOL_VERSION,
        r.instance_id@ == id_text(instance_id.bits),
        r.pid == pid,
        r.address@ == address@,
        r.started_at == started_at,
{
    DaemonMeta {
        protocol_version: DAEMON_PROTOCOL_VERSION,
        instance_id: instance_id.to_text(),
        pid,
        address: address.to_owned(),
        started_at,
    }
}

/// The metadata of a daemon that starts now.
pub fn fresh_daemon_meta(instance_id: &Uuid, pid: u32, address: &str) -> (r: DaemonMeta)
    ensures
        r.protocol_version == DAEMON_PROTOCOL_VERSION,
        r.instance_id@ == id_text(instance_id.bits),
        r.pid == pid,
        r.address@ == address@,
        is_time_text(r.started_at@),
{
    daemon_meta(instance_id, pid, address, now_text())
}

} // verus!
