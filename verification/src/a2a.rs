//! The A2A side of the daemon: the endpoints of its agents, the directory that
//! workflows route through, and the answers of the backend.

use vstd::prelude::*;
use vstd::string::*;

use crate::ids::Uuid;
use crate::json::{entries_model, json_model, lookup, Json, JsonValue};
use crate::model::{terminal, AgentEvent, TaskStatus, DEFAULT_SESSION_LANE};
use crate::protocol::DaemonStreamEvent;
use crate::provenance::canonical::{canonical_entries, canonical_entries_lookup};
use crate::provenance::canonical::canonicalize_json;

verus! {

/// Where an agent is reached.
#[derive(Debug, PartialEq, Eq)]
pub struct DiscoveredEndpoint {
    pub agent_id: String,
    pub url: String,
    pub card_url: String,
}

/// The endpoint of an agent that listens at an address.
pub fn listener_endpoint(agent_id: &String, address: &str) -> (r: DiscoveredEndpoint)
    ensures
        r.agent_id == *agent_id,
        r.url@ == "http://"@ + address@ + "/"@,
        r.card_url@ == "http://"@ + address@ + "/.well-known/agent-card.json"@,
{
    DiscoveredEndpoint {
        agent_id: agent_id.clone(),
        url: "http://".to_owned().concat(address).concat("/"),
        card_url: "http://".to_owned().concat(address).concat("/.well-known/agent-card.json"),
    }
}

/// What is registered of an endpoint.
pub open spec fn endpoint_entry(e: DiscoveredEndpoint) -> (Seq<char>, Json) {
    (
        e.agent_id@,
        Json::Object(
            seq![
                ("url"@, Json::Text(e.url@)),
                ("card_url"@, Json::Text(e.card_url@)),
            ],
        ),
    )
}

/// What is registered of endpoints, in order.
pub open spec fn endpoint_entries(list: Seq<DiscoveredEndpoint>) -> Seq<(Seq<char>, Json)> {
    list.map_values(|e: DiscoveredEndpoint| endpoint_entry(e))
}

fn endpoint_value(e: &DiscoveredEndpoint) -> (r: JsonValue)
    ensures
        r@ == endpoint_entry(*e).1,
{
    let mut fields: Vec<(String, JsonValue)> = Vec::new();
    fields.push(("url".to_owned(), JsonValue::Text(e.url.clone())));
    fields.push(("card_url".to_owned(), JsonValue::Text(e.card_url.clone())));
    let ghost all = fields@;
    proof {
        reveal_with_fuel(entries_model, 3);
        assert(all.drop_last().drop_last() =~= Seq::<(String, JsonValue)>::empty());
        assert(entries_model(all) =~= seq![
            ("url"@, Json::Text(e.url@)),
            ("card_url"@, Json::Text(e.card_url@)),
        ]);
    }
    JsonValue::Object(fields)
}

/// The agents section of the runtime response: each agent with its addresses,
/// by the id of the agent. Of two endpoints of one agent the later one counts.
pub fn runtime_agents(listeners: &[DiscoveredEndpoint]) -> (r: JsonValue)
    ensures
        r@ == Json::Object(canonical_entries(endpoint_entries(listeners@))),
{
    let mut entries: Vec<(String, JsonValue)> = Vec::new();
    let mut i: usize = 0;
    assert(endpoint_entries(listeners@.take(0)) =~= Seq::<(Seq<char>, Json)>::empty());
    while i < listeners.len()
        invariant
            i <= listeners@.len(),
            entries_model(entries@) == endpoint_entries(listeners@.take(i as int)),
        decreases listeners.len() - i,
    {
        let ghost before = entries@;
        let value = endpoint_value(&listeners[i]);
        entries.push((listeners[i].agent_id.clone(), value));
        proof {
            assert(entries@.drop_last() =~= before);
            assert(endpoint_entries(listeners@.take(i + 1)) =~= endpoint_entries(
                listeners@.take(i as int),
            ).push(endpoint_entry(listeners@[i as int])));
        }
        i += 1;
    }
    assert(listeners@.take(i as int) =~= listeners@);
    canonicalize_json(&JsonValue::Object(entries))
}

/// The text of an entry; empty where there is none.
pub open spec fn text_entry(value: Json, key: Seq<char>) -> Seq<char> {
    match value {
        Json::Object(entries) => match lookup(entries, key) {
            Some(Json::Text(text)) => text,
            _ => Seq::empty(),
        },
        _ => Seq::empty(),
    }
}

fn read_text_entry(value: &JsonValue, key: &str) -> (r: String)
    ensures
        r@ == text_entry(value@, key@),
{
    if let Some(found) = value.get(key) {
        if let Some(text) = found.as_str() {
            return text.to_owned();
        }
    }
    String::new()
}

/// The endpoints that registered agents are reached at: those with both
/// addresses, in the order of the entries.
pub open spec fn endpoints_of(entries: Seq<(Seq<char>, Json)>) -> Seq<(Seq<char>, Seq<char>, Seq<char>)>
    decreases entries.len(),
{
    if entries.len() == 0 {
        Seq::empty()
    } else {
        let before = endpoints_of(entries.drop_last());
        let url = text_entry(entries.last().1, "url"@);
        let card = text_entry(entries.last().1, "card_url"@);
        if url.len() == 0 || card.len() == 0 {
            before
        } else {
            before.push((entries.last().0, url, card))
        }
    }
}

/// The texts of endpoints.
pub open spec fn endpoint_texts(list: Seq<DiscoveredEndpoint>) -> Seq<
    (Seq<char>, Seq<char>, Seq<char>),
> {
    Seq::new(list.len(), |i: int| (list[i].agent_id@, list[i].url@, list[i].card_url@))
}

/// The endpoints that the directory of workflows is made of.
pub fn directory_endpoints(agents: &JsonValue) -> (r: Vec<DiscoveredEndpoint>)
    ensures
        endpoint_texts(r@) == (match agents@ {
            Json::Object(entries) => endpoints_of(entries),
            _ => Seq::empty(),
        }),
{
    let mut out: Vec<DiscoveredEndpoint> = Vec::new();
    match agents {
        JsonValue::Object(entries) => {
            let ghost all = entries_model(entries@);
            let mut i: usize = 0;
            proof {
                model_of_entries(entries@);
                assert(all.take(0) =~= Seq::<(Seq<char>, Json)>::empty());
                assert(endpoint_texts(out@) =~= endpoints_of(all.take(0)));
            }
            while i < entries.len()
                invariant
                    i <= entries@.len(),
                    all.len() == entries@.len(),
                    forall|j: int|
                        0 <= j < all.len() ==> #[trigger] all[j] == (
                            entries@[j].0@,
                            json_model(entries@[j].1),
                        ),
                    endpoint_texts(out@) == endpoints_of(all.take(i as int)),
                decreases entries.len() - i,
            {
                proof {
                    assert(all.take(i + 1).drop_last() =~= all.take(i as int));
                    assert(all.take(i + 1).last() == all[i as int]);
                }
                let ghost before = out@;
                let url = read_text_entry(&entries[i].1, "url");
                let card_url = read_text_entry(&entries[i].1, "card_url");
                if !url.as_str().is_empty() && !card_url.as_str().is_empty() {
                    out.push(
                        DiscoveredEndpoint { agent_id: entries[i].0.clone(), url, card_url },
                    );
                    assert(endpoint_texts(out@) =~= endpoint_texts(before).push(
                        (entries@[i as int].0@, url@, card_url@),
                    ));
                }
                i += 1;
            }
            assert(all.take(i as int) =~= all);
        },
        _ => {
            assert(endpoint_texts(out@) =~= Seq::empty());
        },
    }
    out
}

proof fn model_of_entries(entries: Seq<(String, JsonValue)>)
    ensures
        entries_model(entries).len() == entries.len(),
        forall|j: int|
            0 <= j < entries.len() ==> #[trigger] entries_model(entries)[j] == (
                entries[j].0@,
                json_model(entries[j].1),
            ),
    decreases entries.len(),
{
    if entries.len() > 0 {
        model_of_entries(entries.drop_last());
    }
}

/// What is registered of an agent is what its directory entry is made of: the
/// addresses of the last endpoint of that agent.
pub proof fn registered_agent_is_found(list: Seq<DiscoveredEndpoint>, i: int)
    requires
        0 <= i < list.len(),
        forall|j: int| i < j < list.len() ==> (#[trigger] list[j]).agent_id@ != list[i].agent_id@,
    ensures
        lookup(canonical_entries(endpoint_entries(list)), list[i].agent_id@) matches Some(info)
            && text_entry(info, "url"@) == list[i].url@ && text_entry(info, "card_url"@)
            == list[i].card_url@,
{
    let id = list[i].agent_id@;
    canonical_entries_lookup(endpoint_entries(list), id);
    last_endpoint(list, i);
    let fields = seq![
        ("url"@, Json::Text(list[i].url@)),
        ("card_url"@, Json::Text(list[i].card_url@)),
    ];
    canonical_entries_lookup(fields, "url"@);
    canonical_entries_lookup(fields, "card_url"@);
    reveal_strlit("url");
    reveal_strlit("card_url");
    reveal_with_fuel(lookup, 3);
    assert(fields.drop_last() =~= seq![("url"@, Json::Text(list[i].url@))]);
    assert("url"@.len() != "card_url"@.len());
    assert(lookup(fields, "url"@) == Some(Json::Text(list[i].url@)));
    assert(lookup(fields, "card_url"@) == Some(Json::Text(list[i].card_url@)));
}

proof fn last_endpoint(list: Seq<DiscoveredEndpoint>, i: int)
    requires
        0 <= i < list.len(),
        forall|j: int| i < j < list.len() ==> (#[trigger] list[j]).agent_id@ != list[i].agent_id@,
    ensures
        lookup(endpoint_entries(list), list[i].agent_id@) == Some(endpoint_entry(list[i]).1),
    decreases list.len() - i,
{
    let entries = endpoint_entries(list);
    assert(entries.last() == endpoint_entry(list.last()));
    if i < list.len() - 1 {
        assert(endpoint_entries(list.drop_last()) =~= entries.drop_last());
        last_endpoint(list.drop_last(), i);
    }
}

/// What kind of error the task layer had, as far as it is told apart.
#[derive(Debug, PartialEq, Eq)]
pub enum TaskFaultKind {
    AgentNotFound(String),
    TaskNotFound,
    AgentSessionNotFound,
    SessionForAgentNotFound,
    NativeSessionUnavailable,
    WorkspaceUnavailable(String),
    Workspace,
    Other,
}

/// An error of the task layer, with its message.
#[derive(Debug, PartialEq, Eq)]
pub struct TaskFault {
    pub kind: TaskFaultKind,
    pub message: String,
}

/// Errors that the backend answers with.
#[derive(Debug, PartialEq, Eq)]
pub enum BackendError {
    AgentNotFound(String),
    TaskNotFound(Uuid),
    SessionForAgentNotFound,
    SessionBusy,
    TaskNotLive,
    Unsupported,
    Internal(String),
}

/// The answer of the backend to an error of the task layer. It names neither
/// the agent nor the task.
pub fn backend_error(fault: TaskFault) -> (r: BackendError)
    ensures
        match fault.kind {
            TaskFaultKind::AgentNotFound(_) => r matches BackendError::AgentNotFound(agent)
                && agent@.len() == 0,
            TaskFaultKind::TaskNotFound => r == BackendError::TaskNotFound(Uuid { bits: 0 }),
            TaskFaultKind::SessionForAgentNotFound => r == BackendError::SessionForAgentNotFound,
            _ => r == BackendError::Internal(fault.message),
        },
{
    match fault.kind {
        TaskFaultKind::AgentNotFound(_) => BackendError::AgentNotFound(String::new()),
        TaskFaultKind::TaskNotFound => BackendError::TaskNotFound(Uuid::nil()),
        TaskFaultKind::SessionForAgentNotFound => BackendError::SessionForAgentNotFound,
        _ => BackendError::Internal(fault.message),
    }
}

/// An event of an A2A stream.
#[derive(Debug, PartialEq, Eq)]
pub enum A2AStreamEvent {
    Agent(AgentEvent),
    ReplayGap { oldest_available: u64 },
    TaskInfo { task_id: Uuid, context_id: Uuid, agent_session_id: Option<Uuid>, agent_id: String },
}

/// The A2A form of a daemon event; task metadata stands at the head of the
/// stream already and is skipped.
pub fn map_a2a_event(event: DaemonStreamEvent) -> (r: Option<A2AStreamEvent>)
    ensures
        r == (match event {
            DaemonStreamEvent::Agent { event } => Some(A2AStreamEvent::Agent(event)),
            DaemonStreamEvent::TaskInfo { .. } => None,
            DaemonStreamEvent::ReplayGap { oldest_available } => Some(
                A2AStreamEvent::ReplayGap { oldest_available },
            ),
        }),
        r is None <==> event is TaskInfo,
{
    match event {
        DaemonStreamEvent::Agent { event } => Some(A2AStreamEvent::Agent(event)),
        DaemonStreamEvent::TaskInfo { .. } => None,
        DaemonStreamEvent::ReplayGap { oldest_available } => Some(
            A2AStreamEvent::ReplayGap { oldest_available },
        ),
    }
}

/// What a request to cancel a task comes to.
#[derive(Clone, Copy, Debug, PartialEq, Eq, Structural)]
pub enum CancelStep {
    /// No live task of this daemon.
    NotLive,
    /// It has ended already; nothing is to be done.
    AlreadyTerminal,
    /// It is to be cancelled.
    Cancel,
}

/// What a request to cancel a task comes to, by the status of the task where
/// it is live.
pub fn cancel_step(status: Option<TaskStatus>) -> (r: CancelStep)
    ensures
        r == (match status {
            None => CancelStep::NotLive,
            Some(s) => if terminal(s) {
                CancelStep::AlreadyTerminal
            } else {
                CancelStep::Cancel
            },
        }),
        r == CancelStep::NotLive <==> status is None,
        r == CancelStep::AlreadyTerminal <==> status == Some(TaskStatus::Completed) || status == Some(
            TaskStatus::Failed,
        ) || status == Some(TaskStatus::Cancelled),
{
    match status {
        None => CancelStep::NotLive,
        Some(s) => if s.is_terminal() {
            CancelStep::AlreadyTerminal
        } else {
            CancelStep::Cancel
        },
    }
}

/// Only a live task that has not ended is subscribed to.
pub fn subscribe_gate(status: Option<TaskStatus>) -> (r: Result<(), BackendError>)
    ensures
        match status {
            None => r == Err::<(), BackendError>(BackendError::TaskNotLive),
            Some(s) => if terminal(s) {
                r == Err::<(), BackendError>(BackendError::Unsupported)
            } else {
                r is Ok
            },
        },
        r is Ok <==> status is Some && status != Some(TaskStatus::Completed) && status != Some(
            TaskStatus::Failed,
        ) && status != Some(TaskStatus::Cancelled),
{
    match status {
        None => Err(BackendError::TaskNotLive),
        Some(s) => if s.is_terminal() {
            Err(BackendError::Unsupported)
        } else {
            Ok(())
        },
    }
}

/// The lane of a session: the one asked for, or the default one.
pub fn session_lane(asked: Option<&str>) -> (r: String)
    ensures
        r@ == (match asked {
            Some(lane) => lane@,
            None => DEFAULT_SESSION_LANE@,
        }),
{
    match asked {
        Some(lane) => lane.to_owned(),
        None => DEFAULT_SESSION_LANE.to_owned(),
    }
}

/// One more registered agent is in the directory exactly when it has both of its
/// addresses, under its own id.
pub proof fn only_reachable_agents_are_listed(
    entries: Seq<(Seq<char>, Json)>,
    agent: Seq<char>,
    info: Json,
)
    ensures
        endpoints_of(Seq::empty()).len() == 0,
        ({
            let url = text_entry(info, "url"@);
            let card = text_entry(info, "card_url"@);
            let after = endpoints_of(entries.push((agent, info)));
            &&& url.len() > 0 && card.len() > 0 ==> after == endpoints_of(entries).push(
                (agent, url, card),
            )
            &&& url.len() == 0 || card.len() == 0 ==> after == endpoints_of(entries)
        }),
{
    assert(entries.push((agent, info)).drop_last() =~= entries);
}

/// A text is read from the entry of its key where that is a text; anything else
/// reads as an empty one.
pub proof fn entries_are_read_as_texts(entries: Seq<(Seq<char>, Json)>, key: Seq<char>)
    ensures
        lookup(entries, key) matches Some(Json::Text(text)) ==> text_entry(
            Json::Object(entries),
            key,
        ) == text,
        !(lookup(entries, key) matches Some(Json::Text(_))) ==> text_entry(
            Json::Object(entries),
            key,
        ).len() == 0,
        text_entry(Json::Null, key).len() == 0,
{
}

} // verus!
