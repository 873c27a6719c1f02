//! What the facts of a workflow are filed under in the provenance ledger.

use vstd::prelude::*;
use vstd::string::*;

use crate::ids::{id_text, Uuid};
use crate::provenance::{actor_type, entity_type, event_type};
use crate::workflow::evaluation::ProvenanceRecord;
use crate::workflow::queries::TerminalRecord;

verus! {

/// What an event is filed under: all that enters its hash beside its place in
/// the chain and its payload.
#[derive(Debug, PartialEq, Eq)]
pub struct LedgerKey {
    pub workflow_id: Uuid,
    pub event_type: String,
    pub entity_type: String,
    pub entity_id: String,
    pub actor_type: String,
    pub actor_id: Option<String>,
}

/// Whether a key has these parts.
pub open spec fn is_key(
    r: LedgerKey,
    workflow_id: Uuid,
    event: Seq<char>,
    entity: (Seq<char>, Seq<char>),
    actor: (Seq<char>, Option<Seq<char>>),
) -> bool {
    &&& r.workflow_id == workflow_id
    &&& r.event_type@ == event
    &&& r.entity_type@ == entity.0
    &&& r.entity_id@ == entity.1
    &&& r.actor_type@ == actor.0
    &&& crate::text::opt_text(r.actor_id) == actor.1
}

fn key(
    workflow_id: Uuid,
    event: &str,
    entity: (&str, &str),
    actor: &str,
    actor_id: Option<&str>,
) -> (r: LedgerKey)
    ensures
        is_key(
            r,
            workflow_id,
            event@,
            (entity.0@, entity.1@),
            (actor@, crate::text::opt_str(actor_id)),
        ),
{
    LedgerKey {
        workflow_id,
        event_type: event.to_owned(),
        entity_type: entity.0.to_owned(),
        entity_id: entity.1.to_owned(),
        actor_type: actor.to_owned(),
        actor_id: match actor_id {
            Some(id) => Some(id.to_owned()),
            None => None,
        },
    }
}

/// A step in the life of a workflow that is recorded of itself.
#[derive(Clone, Copy, Debug, PartialEq, Eq, Structural)]
pub enum WorkflowMoment {
    /// The daemon started it.
    Started,
    /// The user resumed it.
    Resumed,
    /// The user asked to cancel it.
    CancelRequested,
}

/// The event type of a step, and who took it.
pub open spec fn moment_key(moment: WorkflowMoment) -> (Seq<char>, (Seq<char>, Option<Seq<char>>)) {
    match moment {
        WorkflowMoment::Started => (
            event_type::WORKFLOW_STARTED@,
            (actor_type::SYSTEM@, Some("WorkflowService"@)),
        ),
        WorkflowMoment::Resumed => (event_type::WORKFLOW_RESUMED@, (actor_type::USER@, None)),
        WorkflowMoment::CancelRequested => (
            event_type::WORKFLOW_CANCELLED@,
            (actor_type::USER@, None),
        ),
    }
}

/// What a step in the life of a workflow is filed under.
pub fn workflow_key(workflow_id: Uuid, moment: WorkflowMoment) -> (r: LedgerKey)
    ensures
        is_key(
            r,
            workflow_id,
            moment_key(moment).0,
            (entity_type::WORKFLOW@, id_text(workflow_id.bits)),
            moment_key(moment).1,
        ),
{
    let id = workflow_id.to_text();
    let entity = (entity_type::WORKFLOW, id.as_str());
    match moment {
        WorkflowMoment::Started => key(
            workflow_id,
            event_type::WORKFLOW_STARTED,
            entity,
            actor_type::SYSTEM,
            Some("WorkflowService"),
        ),
        WorkflowMoment::Resumed => key(
            workflow_id,
            event_type::WORKFLOW_RESUMED,
            entity,
            actor_type::USER,
            None,
        ),
        WorkflowMoment::CancelRequested => key(
            workflow_id,
            event_type::WORKFLOW_CANCELLED,
            entity,
            actor_type::USER,
            None,
        ),
    }
}

/// What the start of a recovery workflow is filed under: the node that it
/// recovers.
pub fn recovery_key(child_workflow_id: Uuid, failed_node_id: &str) -> (r: LedgerKey)
    ensures
        is_key(
            r,
            child_workflow_id,
            event_type::RECOVERY_WORKFLOW_CREATED@,
            (entity_type::RECOVERY@, failed_node_id@),
            (actor_type::SYSTEM@, Some("RecoveryService"@)),
        ),
{
    key(
        child_workflow_id,
        event_type::RECOVERY_WORKFLOW_CREATED,
        (entity_type::RECOVERY, failed_node_id),
        actor_type::SYSTEM,
        Some("RecoveryService"),
    )
}

/// The event type of a workflow's end.
pub open spec fn terminal_event_type(record: TerminalRecord) -> Seq<char> {
    match record {
        TerminalRecord::Completed(_) => event_type::WORKFLOW_COMPLETED@,
        TerminalRecord::Failed(_) => event_type::WORKFLOW_FAILED@,
        TerminalRecord::Cancelled(_) => event_type::WORKFLOW_CANCELLED@,
    }
}

/// What the end of a workflow is filed under.
pub fn terminal_key(workflow_id: Uuid, record: &TerminalRecord) -> (r: LedgerKey)
    ensures
        is_key(
            r,
            workflow_id,
            terminal_event_type(*record),
            (entity_type::WORKFLOW@, id_text(workflow_id.bits)),
            (actor_type::SYSTEM@, Some("WorkflowService"@)),
        ),
{
    let id = workflow_id.to_text();
    let event = match record {
        TerminalRecord::Completed(_) => event_type::WORKFLOW_COMPLETED,
        TerminalRecord::Failed(_) => event_type::WORKFLOW_FAILED,
        TerminalRecord::Cancelled(_) => event_type::WORKFLOW_CANCELLED,
    };
    key(
        workflow_id,
        event,
        (entity_type::WORKFLOW, id.as_str()),
        actor_type::SYSTEM,
        Some("WorkflowService"),
    )
}

/// Whether a key is that of a fact of an evaluation or a competition: what an
/// agent did is filed under the agent, a consensus or a selection under the
/// node that made it.
pub open spec fn is_record_key(r: LedgerKey, record: ProvenanceRecord) -> bool {
    match record {
        ProvenanceRecord::CandidateCompleted { workflow_id, payload } => is_key(
            r,
            workflow_id,
            event_type::CANDIDATE_COMPLETED@,
            (entity_type::COMPETITION_CANDIDATE@, payload.candidate_id@),
            (actor_type::AGENT@, Some(payload.agent_id@)),
        ),
        ProvenanceRecord::EvaluationCompleted { workflow_id, payload } => is_key(
            r,
            workflow_id,
            event_type::EVALUATION_COMPLETED@,
            (entity_type::EVALUATION_MEMBER@, id_text(payload.member_id.bits)),
            (actor_type::AGENT@, Some(payload.agent_id@)),
        ),
        ProvenanceRecord::ConsensusComputed { payload } => is_key(
            r,
            payload.workflow_id,
            event_type::CONSENSUS_COMPUTED@,
            (entity_type::EVALUATION_GROUP@, id_text(payload.group_id.bits)),
            (actor_type::SYSTEM@, Some("ConsensusGate"@)),
        ),
        ProvenanceRecord::WinnerSelected { winner } => is_key(
            r,
            winner.workflow_id,
            event_type::WINNER_SELECTED@,
            (entity_type::COMPETITION_GROUP@, id_text(winner.group_id.bits)),
            (actor_type::SYSTEM@, Some("SelectionGate"@)),
        ),
    }
}

/// What a fact of an evaluation or a competition is filed under.
pub fn record_key(record: &ProvenanceRecord) -> (r: LedgerKey)
    ensures
        is_record_key(r, *record),
{
    match record {
        ProvenanceRecord::CandidateCompleted { workflow_id, payload } => key(
            *workflow_id,
            event_type::CANDIDATE_COMPLETED,
            (entity_type::COMPETITION_CANDIDATE, payload.candidate_id.as_str()),
            actor_type::AGENT,
            Some(payload.agent_id.as_str()),
        ),
        ProvenanceRecord::EvaluationCompleted { workflow_id, payload } => {
            let id = payload.member_id.to_text();
            key(
                *workflow_id,
                event_type::EVALUATION_COMPLETED,
                (entity_type::EVALUATION_MEMBER, id.as_str()),
                actor_type::AGENT,
                Some(payload.agent_id.as_str()),
            )
        },
        ProvenanceRecord::ConsensusComputed { payload } => {
            let id = payload.group_id.to_text();
            key(
                payload.workflow_id,
                event_type::CONSENSUS_COMPUTED,
                (entity_type::EVALUATION_GROUP, id.as_str()),
                actor_type::SYSTEM,
                Some("ConsensusGate"),
            )
        },
        ProvenanceRecord::WinnerSelected { winner } => {
            let id = winner.group_id.to_text();
            key(
                winner.workflow_id,
                event_type::WINNER_SELECTED,
                (entity_type::COMPETITION_GROUP, id.as_str()),
                actor_type::SYSTEM,
                Some("SelectionGate"),
            )
        },
    }
}

/// A fact is filed under its own workflow, as what it is: work under the agent
/// that did it, a consensus and a selection under the node that made it, and
/// each under the candidate, member or group that it is about.
pub proof fn facts_are_filed_as_what_they_are(r: LedgerKey, record: ProvenanceRecord)
    requires
        is_record_key(r, record),
    ensures
        record matches ProvenanceRecord::CandidateCompleted { workflow_id, payload } ==> {
            &&& r.workflow_id == workflow_id && r.event_type@ == "CandidateCompleted"@
            &&& r.entity_type@ == "competition_candidate"@ && r.entity_id@
                == payload.candidate_id@
            &&& r.actor_type@ == "agent"@ && r.actor_id is Some && r.actor_id->0@
                == payload.agent_id@
        },
        record matches ProvenanceRecord::EvaluationCompleted { workflow_id, payload } ==> {
            &&& r.workflow_id == workflow_id && r.event_type@ == "EvaluationCompleted"@
            &&& r.entity_type@ == "evaluation_member"@ && r.entity_id@ == id_text(
                payload.member_id.bits,
            )
            &&& r.actor_type@ == "agent"@ && r.actor_id is Some && r.actor_id->0@
                == payload.agent_id@
        },
        record matches ProvenanceRecord::ConsensusComputed { payload } ==> {
            &&& r.workflow_id == payload.workflow_id && r.event_type@ == "ConsensusComputed"@
            &&& r.entity_type@ == "evaluation_group"@ && r.entity_id@ == id_text(
                payload.group_id.bits,
            )
            &&& r.actor_type@ == "system"@ && r.actor_id is Some && r.actor_id->0@
                == "ConsensusGate"@
        },
        record matches ProvenanceRecord::WinnerSelected { winner } ==> {
            &&& r.workflow_id == winner.workflow_id && r.event_type@ == "WinnerSelected"@
            &&& r.entity_type@ == "competition_group"@ && r.entity_id@ == id_text(
                winner.group_id.bits,
            )
            &&& r.actor_type@ == "system"@ && r.actor_id is Some && r.actor_id->0@
                == "SelectionGate"@
        },
{
}

/// The end of a workflow is filed as the end it had, and its start and resumption
/// as these; only what the user asked for is filed under the user.
pub proof fn moments_are_filed_as_what_they_are(moment: WorkflowMoment, record: TerminalRecord)
    ensures
        terminal_event_type(record) == (match record {
            TerminalRecord::Completed(_) => "WorkflowCompleted"@,
            TerminalRecord::Failed(_) => "WorkflowFailed"@,
            TerminalRecord::Cancelled(_) => "WorkflowCancelled"@,
        }),
        moment == WorkflowMoment::Started ==> moment_key(moment).0 == "WorkflowStarted"@,
        moment == WorkflowMoment::Resumed ==> moment_key(moment).0 == "WorkflowResumed"@,
        moment == WorkflowMoment::CancelRequested ==> moment_key(moment).0
            == "WorkflowCancelled"@,
        moment_key(moment).1.0 == "user"@ <==> moment != WorkflowMoment::Started,
        moment_key(moment).1.1 is Some <==> moment == WorkflowMoment::Started,
{
    reveal_strlit("user");
    reveal_strlit("system");
    assert("user"@.len() == 4);
    assert("system"@.len() == 6);
}

} // verus!
