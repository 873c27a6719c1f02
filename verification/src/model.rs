//! Core domain types: agents, tasks, messages, artifacts and sessions.

use vstd::prelude::*;
use vstd::string::*;
use vstd::utf8::*;

use crate::collections::StringMap;
use crate::ids::{is_random_id, rfc3339_text, Timestamp, Uuid};
use crate::text::same_text;

verus! {

/// A capability an agent advertises (e.g. `code`, `architecture`, `review`).
#[derive(Clone, Debug, PartialEq, Eq)]
pub struct AgentSkill {
    pub name: String,
    pub description: Option<String>,
}

impl AgentSkill {
    /// A skill of the given name.
    pub fn new(name: &str, description: Option<String>) -> (r: Self)
        ensures
            r.name@ == name@,
            r.description == description,
    {
        AgentSkill { name: name.to_owned(), description }
    }
}

/// What kind of workspace an agent needs to run safely.
#[derive(Clone, Copy, Debug, PartialEq, Eq, Structural)]
pub enum WorkspaceRequirement {
    /// No workspace handling (e.g. the mock agent).
    NoWorkspace,
    /// Run in an existing directory (the caller's project).
    Existing,
    /// Requires an isolated Git worktree created by AgentMesh.
    IsolatedGit,
}

impl Default for WorkspaceRequirement {
    fn default() -> (r: Self)
        ensures
            r == WorkspaceRequirement::NoWorkspace,
    {
        WorkspaceRequirement::NoWorkspace
    }
}

/// Static description of an agent, used for discovery and registration.
#[derive(Clone, Debug, PartialEq, Eq)]
pub struct AgentDescriptor {
    pub id: String,
    pub name: String,
    pub description: Option<String>,
    pub skills: Vec<AgentSkill>,
    /// Endpoint through which the agent is reached: `agent://codex` for a
    /// local process adapter, an `https://` URL for a remote A2A agent.
    pub endpoint: String,
    /// Workspace isolation the agent requires.
    pub workspace_requirement: WorkspaceRequirement,
}

/// Lifecycle status of an [`AgentTask`].
///
/// The string representation (`as_str`/`from_str`) is a persistence and wire
/// protocol.
#[derive(Clone, Copy, Debug, PartialEq, Eq, Structural)]
pub enum TaskStatus {
    Submitted,
    Working,
    InputRequired,
    Completed,
    Failed,
    Cancelled,
}

/// The stable text of a task status.
pub open spec fn status_text(status: TaskStatus) -> Seq<char> {
    match status {
        TaskStatus::Submitted => "submitted"@,
        TaskStatus::Working => "working"@,
        TaskStatus::InputRequired => "input_required"@,
        TaskStatus::Completed => "completed"@,
        TaskStatus::Failed => "failed"@,
        TaskStatus::Cancelled => "cancelled"@,
    }
}

/// Different statuses have different texts.
pub proof fn status_text_injective(a: TaskStatus, b: TaskStatus)
    requires
        status_text(a) == status_text(b),
    ensures
        a == b,
{
    reveal_strlit("submitted");
    reveal_strlit("working");
    reveal_strlit("input_required");
    reveal_strlit("completed");
    reveal_strlit("failed");
    reveal_strlit("cancelled");
    assert("submitted"@[0] == 's');
    assert("submitted"@[1] == 'u');
    assert("submitted"@.len() == 9);
    assert("working"@[0] == 'w');
    assert("working"@[1] == 'o');
    assert("working"@.len() == 7);
    assert("input_required"@[0] == 'i');
    assert("input_required"@[1] == 'n');
    assert("input_required"@.len() == 14);
    assert("completed"@[0] == 'c');
    assert("completed"@[1] == 'o');
    assert("completed"@.len() == 9);
    assert("failed"@[0] == 'f');
    assert("failed"@[1] == 'a');
    assert("failed"@.len() == 6);
    assert("cancelled"@[0] == 'c');
    assert("cancelled"@[1] == 'a');
    assert("cancelled"@.len() == 9);
    assert(status_text(a)[0] == status_text(b)[0]);
    assert(status_text(a)[1] == status_text(b)[1]);
}

/// Whether a status can never be left.
pub open spec fn terminal(status: TaskStatus) -> bool {
    status == TaskStatus::Completed || status == TaskStatus::Failed || status
        == TaskStatus::Cancelled
}

/// The lifecycle of a task: which status may follow which.
pub open spec fn may_follow(from: TaskStatus, to: TaskStatus) -> bool {
    match from {
        TaskStatus::Submitted => to == TaskStatus::Working || to == TaskStatus::Failed || to
            == TaskStatus::Cancelled,
        TaskStatus::Working => to == TaskStatus::InputRequired || to == TaskStatus::Completed || to
            == TaskStatus::Failed || to == TaskStatus::Cancelled,
        TaskStatus::InputRequired => to == TaskStatus::Working || to == TaskStatus::Failed || to
            == TaskStatus::Cancelled,
        _ => false,
    }
}

impl TaskStatus {
    /// Stable string form used when persisting to storage.
    pub fn as_str(&self) -> (r: &'static str)
        ensures
            r@ == status_text(*self),
    {
        match self {
            TaskStatus::Submitted => "submitted",
            TaskStatus::Working => "working",
            TaskStatus::InputRequired => "input_required",
            TaskStatus::Completed => "completed",
            TaskStatus::Failed => "failed",
            TaskStatus::Cancelled => "cancelled",
        }
    }

    /// Parse the stable string form; `None` for unknown values.
    pub fn from_str(value: &str) -> (r: Option<Self>)
        ensures
            forall|s: TaskStatus| r == Some(s) <==> value@ == #[trigger] status_text(s),
    {
        proof {
            assert forall|a: TaskStatus, b: TaskStatus|
                #[trigger] status_text(a) == #[trigger] status_text(b) implies a == b by {
                status_text_injective(a, b);
            }
            assert(status_text(TaskStatus::Submitted) == "submitted"@);
            assert(status_text(TaskStatus::Working) == "working"@);
            assert(status_text(TaskStatus::InputRequired) == "input_required"@);
            assert(status_text(TaskStatus::Completed) == "completed"@);
            assert(status_text(TaskStatus::Failed) == "failed"@);
            assert(status_text(TaskStatus::Cancelled) == "cancelled"@);
        }
        if same_text(value, "submitted") {
            Some(TaskStatus::Submitted)
        } else if same_text(value, "working") {
            Some(TaskStatus::Working)
        } else if same_text(value, "input_required") {
            Some(TaskStatus::InputRequired)
        } else if same_text(value, "completed") {
            Some(TaskStatus::Completed)
        } else if same_text(value, "failed") {
            Some(TaskStatus::Failed)
        } else if same_text(value, "cancelled") {
            Some(TaskStatus::Cancelled)
        } else {
            None
        }
    }

    /// Terminal states can never be left.
    pub fn is_terminal(&self) -> (r: bool)
        ensures
            r == terminal(*self),
    {
        matches!(self, TaskStatus::Completed | TaskStatus::Failed | TaskStatus::Cancelled)
    }

    /// Whether moving from `self` to `next` is a valid lifecycle transition.
    ///
    /// Same-state "transitions" are rejected; terminal states have no exits.
    pub fn can_transition_to(&self, next: TaskStatus) -> (r: bool)
        ensures
            r == may_follow(*self, next),
    {
        if self.is_terminal() || *self == next {
            return false;
        }
        match (*self, next) {
            (TaskStatus::Submitted, TaskStatus::Working) => true,
            (TaskStatus::Working, TaskStatus::InputRequired) => true,
            (TaskStatus::Working, TaskStatus::Completed) => true,
            (TaskStatus::InputRequired, TaskStatus::Working) => true,
            (_, TaskStatus::Failed) => true,
            (_, TaskStatus::Cancelled) => true,
            _ => false,
        }
    }
}

/// Terminal states have no exits.
pub proof fn terminal_has_no_exit(from: TaskStatus, to: TaskStatus)
    requires
        terminal(from),
    ensures
        !may_follow(from, to),
{
}

/// No status follows itself.
pub proof fn no_self_transition(status: TaskStatus)
    ensures
        !may_follow(status, status),
{
}

/// Every status that is not terminal can still fail and be cancelled.
pub proof fn live_status_can_end(status: TaskStatus)
    requires
        !terminal(status),
    ensures
        may_follow(status, TaskStatus::Failed),
        may_follow(status, TaskStatus::Cancelled),
{
}

/// A chain of statuses in which each may follow the one before.
pub open spec fn lifecycle(history: Seq<TaskStatus>) -> bool {
    forall|i: int| 0 <= i < history.len() - 1 ==> may_follow(#[trigger] history[i], history[i + 1])
}

/// In a lifecycle only the last status can be terminal.
pub proof fn lifecycle_ends_at_terminal(history: Seq<TaskStatus>, at: int)
    requires
        lifecycle(history),
        0 <= at < history.len(),
        terminal(history[at]),
    ensures
        at == history.len() - 1,
{
}

/// Role of an [`AgentMessage`] within a conversation.
#[derive(Clone, Copy, Debug, PartialEq, Eq, Structural)]
pub enum MessageRole {
    User,
    Assistant,
    System,
}

/// A single message exchanged with an agent.
#[derive(Clone, Debug, PartialEq, Eq)]
pub struct AgentMessage {
    pub role: MessageRole,
    pub content: String,
}

impl AgentMessage {
    /// A message of the user.
    pub fn user(content: &str) -> (r: Self)
        ensures
            r.role == MessageRole::User,
            r.content@ == content@,
    {
        AgentMessage { role: MessageRole::User, content: content.to_owned() }
    }

    /// A message of the agent.
    pub fn assistant(content: &str) -> (r: Self)
        ensures
            r.role == MessageRole::Assistant,
            r.content@ == content@,
    {
        AgentMessage { role: MessageRole::Assistant, content: content.to_owned() }
    }

    /// A message of the system.
    pub fn system(content: &str) -> (r: Self)
        ensures
            r.role == MessageRole::System,
            r.content@ == content@,
    {
        AgentMessage { role: MessageRole::System, content: content.to_owned() }
    }
}

/// Kind of an [`Artifact`] produced by an agent.
#[derive(Clone, Copy, Debug, PartialEq, Eq, PartialOrd, Ord, Structural)]
pub enum ArtifactKind {
    Text,
    File,
    Patch,
    Json,
    Log,
    TestResult,
}

/// The stable key of an artifact kind.
pub open spec fn kind_key(kind: ArtifactKind) -> Seq<char> {
    match kind {
        ArtifactKind::Text => "text"@,
        ArtifactKind::File => "file"@,
        ArtifactKind::Patch => "patch"@,
        ArtifactKind::Json => "json"@,
        ArtifactKind::Log => "log"@,
        ArtifactKind::TestResult => "test_result"@,
    }
}

/// Different artifact kinds have different keys.
pub proof fn kind_key_injective(a: ArtifactKind, b: ArtifactKind)
    requires
        kind_key(a) == kind_key(b),
    ensures
        a == b,
{
    reveal_strlit("text");
    reveal_strlit("file");
    reveal_strlit("patch");
    reveal_strlit("json");
    reveal_strlit("log");
    reveal_strlit("test_result");
    assert("text"@[0] == 't');
    assert("text"@.len() == 4);
    assert("file"@[0] == 'f');
    assert("file"@.len() == 4);
    assert("patch"@[0] == 'p');
    assert("patch"@.len() == 5);
    assert("json"@[0] == 'j');
    assert("json"@.len() == 4);
    assert("log"@[0] == 'l');
    assert("log"@.len() == 3);
    assert("test_result"@[0] == 't');
    assert("test_result"@.len() == 11);
    assert(kind_key(a)[0] == kind_key(b)[0]);
}

impl ArtifactKind {
    /// Stable snake_case key used on the wire (A2A artifact metadata) and in
    /// workflow handoffs.
    pub fn key(&self) -> (r: &'static str)
        ensures
            r@ == kind_key(*self),
    {
        match self {
            ArtifactKind::Text => "text",
            ArtifactKind::File => "file",
            ArtifactKind::Patch => "patch",
            ArtifactKind::Json => "json",
            ArtifactKind::Log => "log",
            ArtifactKind::TestResult => "test_result",
        }
    }

    /// Parse a stable [`Self::key`]; `None` for unknown keys.
    pub fn from_key(key: &str) -> (r: Option<Self>)
        ensures
            forall|k: ArtifactKind| r == Some(k) <==> key@ == #[trigger] kind_key(k),
    {
        proof {
            assert forall|a: ArtifactKind, b: ArtifactKind|
                #[trigger] kind_key(a) == #[trigger] kind_key(b) implies a == b by {
                kind_key_injective(a, b);
            }
            assert(kind_key(ArtifactKind::Text) == "text"@);
            assert(kind_key(ArtifactKind::File) == "file"@);
            assert(kind_key(ArtifactKind::Patch) == "patch"@);
            assert(kind_key(ArtifactKind::Json) == "json"@);
            assert(kind_key(ArtifactKind::Log) == "log"@);
            assert(kind_key(ArtifactKind::TestResult) == "test_result"@);
        }
        if same_text(key, "text") {
            Some(ArtifactKind::Text)
        } else if same_text(key, "file") {
            Some(ArtifactKind::File)
        } else if same_text(key, "patch") {
            Some(ArtifactKind::Patch)
        } else if same_text(key, "json") {
            Some(ArtifactKind::Json)
        } else if same_text(key, "log") {
            Some(ArtifactKind::Log)
        } else if same_text(key, "test_result") {
            Some(ArtifactKind::TestResult)
        } else {
            None
        }
    }
}

/// An agent output that is more structured than a plain message:
/// files, patches, structured JSON, logs, test results.
#[derive(Clone, Debug, PartialEq, Eq)]
pub struct Artifact {
    pub id: Uuid,
    pub name: String,
    pub kind: ArtifactKind,
    pub mime_type: String,
    /// On-disk location when the artifact is persisted; `None` in-memory only.
    pub path: Option<String>,
    pub content: Vec<u8>,
    pub metadata: StringMap<String>,
}

/// `std::str::from_utf8` reads bytes as text: it succeeds exactly on valid
/// UTF-8, and the text then has these bytes.
#[verifier::external_body]
fn utf8_str(bytes: &[u8]) -> (r: Option<&str>)
    ensures
        r is Some <==> valid_utf8(bytes@),
        r matches Some(s) ==> s.spec_bytes() == bytes@,
{
    std::str::from_utf8(bytes).ok()
}

impl Artifact {
    /// A text artifact.
    pub fn text(name: &str, content: &str) -> (r: Self)
        ensures
            is_random_id(r.id.bits),
            r.name@ == name@,
            r.kind == ArtifactKind::Text,
            r.mime_type@ == "text/plain"@,
            r.path is None,
            r.content@ == encode_utf8(content@),
            r.metadata@ == Map::<Seq<char>, String>::empty(),
    {
        Artifact {
            id: Uuid::new_v4(),
            name: name.to_owned(),
            kind: ArtifactKind::Text,
            mime_type: "text/plain".to_owned(),
            path: None,
            content: content.as_bytes_vec(),
            metadata: StringMap::new(),
        }
    }

    /// Decode the artifact content as UTF-8, if possible.
    pub fn content_as_str(&self) -> (r: Option<&str>)
        ensures
            r is Some <==> valid_utf8(self.content@),
            r matches Some(s) ==> s@ == decode_utf8(self.content@),
    {
        let r = utf8_str(self.content.as_slice());
        proof {
            if let Some(s) = r {
                encode_utf8_decode_utf8(s@);
            }
        }
        r
    }
}

/// What a text artifact was made of is what it decodes to.
pub proof fn text_artifact_round_trip(content: Seq<char>)
    ensures
        valid_utf8(encode_utf8(content)),
        decode_utf8(encode_utf8(content)) == content,
{
    encode_utf8_valid_utf8(content);
    encode_utf8_decode_utf8(content);
}

/// A unit of work executed by a single agent.
#[derive(Clone, Debug, PartialEq, Eq)]
pub struct AgentTask {
    pub id: Uuid,
    pub context_id: Uuid,
    pub agent_id: String,
    pub status: TaskStatus,
    pub input: AgentMessage,
    pub artifacts: Vec<Artifact>,
    /// Task creation time. Persisted by the storage layer.
    pub created_at: Timestamp,
    /// When the task started executing, once the adapter spawns.
    pub started_at: Option<Timestamp>,
    /// When the task reached a terminal state.
    pub completed_at: Option<Timestamp>,
    /// Bounded, human-readable failure message for terminal `Failed` tasks.
    pub error: Option<String>,
    /// Working directory the task ran in, when one was requested.
    pub workspace: Option<String>,
    /// AgentMesh session it belongs to, once sessions are tracked.
    pub agent_session_id: Option<Uuid>,
}

impl AgentTask {
    /// Whether the task is fresh: submitted, with no output and no history.
    pub open spec fn is_fresh(&self) -> bool {
        &&& self.status == TaskStatus::Submitted
        &&& self.artifacts@.len() == 0
        &&& self.started_at is None
        &&& self.completed_at is None
        &&& self.error is None
        &&& self.agent_session_id is None
    }

    /// A fresh task without a workspace.
    pub fn new(agent_id: &str, input: AgentMessage) -> (r: Self)
        ensures
            r.is_fresh(),
            is_random_id(r.id.bits),
            is_random_id(r.context_id.bits),
            r.agent_id@ == agent_id@,
            r.input == input,
            r.workspace is None,
            rfc3339_text(r.created_at.seconds as int, r.created_at.nanos as int) is Some,
    {
        AgentTask::with_workspace(agent_id, input, None)
    }

    /// A fresh task, in a workspace when one is given.
    pub fn with_workspace(agent_id: &str, input: AgentMessage, workspace: Option<String>) -> (r:
        Self)
        ensures
            r.is_fresh(),
            is_random_id(r.id.bits),
            is_random_id(r.context_id.bits),
            r.agent_id@ == agent_id@,
            r.input == input,
            r.workspace == workspace,
            rfc3339_text(r.created_at.seconds as int, r.created_at.nanos as int) is Some,
    {
        AgentTask::submitted(
            Uuid::new_v4(),
            Uuid::new_v4(),
            agent_id,
            input,
            workspace,
            Timestamp::now(),
        )
    }

    /// A fresh task under given identities, created at a given time.
    pub fn submitted(
        id: Uuid,
        context_id: Uuid,
        agent_id: &str,
        input: AgentMessage,
        workspace: Option<String>,
        created_at: Timestamp,
    ) -> (r: Self)
        ensures
            r.is_fresh(),
            r.id == id,
            r.context_id == context_id,
            r.agent_id@ == agent_id@,
            r.input == input,
            r.workspace == workspace,
            r.created_at == created_at,
    {
        AgentTask {
            id,
            context_id,
            agent_id: agent_id.to_owned(),
            status: TaskStatus::Submitted,
            input,
            artifacts: Vec::new(),
            created_at,
            started_at: None,
            completed_at: None,
            error: None,
            workspace,
            agent_session_id: None,
        }
    }

    /// Appends an artifact; nothing else changes.
    pub fn add_artifact(&mut self, artifact: Artifact)
        ensures
            final(self).artifacts@ == old(self).artifacts@.push(artifact),
            *final(self) == (AgentTask { artifacts: final(self).artifacts, ..*old(self) }),
    {
        self.artifacts.push(artifact);
    }
}

/// The lane a session runs in unless another is named.
pub const DEFAULT_SESSION_LANE: &'static str = "default";

/// A native agent session bound to a global context and session lane.
///
/// Sessions and contexts are deliberately separate: one global context may
/// span many agent sessions (e.g. `codex` -> `opencode` -> resume `codex`).
#[derive(Clone, Debug, PartialEq, Eq)]
pub struct AgentSession {
    pub id: Uuid,
    pub context_id: Uuid,
    /// Vendor-neutral agent identifier, e.g. `codex` or `opencode`.
    pub agent_id: String,
    /// Logical lane for session isolation within a context.
    pub session_lane: String,
    /// Identifier of the session inside the native agent, once the adapter
    /// reports one. May be `None` before the agent starts.
    pub native_session_id: Option<String>,
    /// Workspace the session is bound to (canonical path).
    pub workspace: Option<String>,
    pub created_at: Timestamp,
    pub updated_at: Timestamp,
}

impl AgentSession {
    /// A new session in the default lane.
    pub fn new(context_id: Uuid, agent_id: &str) -> (r: Self)
        ensures
            is_random_id(r.id.bits),
            r.context_id == context_id,
            r.agent_id@ == agent_id@,
            r.session_lane@ == "default"@,
            r.native_session_id is None,
            r.workspace is None,
            r.created_at == r.updated_at,
            rfc3339_text(r.created_at.seconds as int, r.created_at.nanos as int) is Some,
    {
        AgentSession::with_lane(context_id, agent_id, "default")
    }

    /// A new session in a lane.
    pub fn with_lane(context_id: Uuid, agent_id: &str, session_lane: &str) -> (r: Self)
        ensures
            is_random_id(r.id.bits),
            r.context_id == context_id,
            r.agent_id@ == agent_id@,
            r.session_lane@ == session_lane@,
            r.native_session_id is None,
            r.workspace is None,
            r.created_at == r.updated_at,
            rfc3339_text(r.created_at.seconds as int, r.created_at.nanos as int) is Some,
    {
        AgentSession::opened(Uuid::new_v4(), context_id, agent_id, session_lane, Timestamp::now())
    }

    /// A new session under a given identity, opened at a given time.
    pub fn opened(
        id: Uuid,
        context_id: Uuid,
        agent_id: &str,
        session_lane: &str,
        now: Timestamp,
    ) -> (r: Self)
        ensures
            r.id == id,
            r.context_id == context_id,
            r.agent_id@ == agent_id@,
            r.session_lane@ == session_lane@,
            r.native_session_id is None,
            r.workspace is None,
            r.created_at == now,
            r.updated_at == now,
    {
        AgentSession {
            id,
            context_id,
            agent_id: agent_id.to_owned(),
            session_lane: session_lane.to_owned(),
            native_session_id: None,
            workspace: None,
            created_at: now,
            updated_at: now,
        }
    }
}

/// A global conversation context spanning one or more agents.
///
/// The context is a stable identity; sessions and tasks link back to it.
#[derive(Clone, Copy, Debug, PartialEq, Eq, Structural)]
pub struct Context {
    pub id: Uuid,
    pub created_at: Timestamp,
    pub updated_at: Timestamp,
}

impl Context {
    /// A new context.
    pub fn new() -> (r: Self)
        ensures
            is_random_id(r.id.bits),
            r.id.bits != 0,
            r.created_at == r.updated_at,
            rfc3339_text(r.created_at.seconds as int, r.created_at.nanos as int) is Some,
    {
        Context::opened(Uuid::new_v4(), Timestamp::now())
    }

    /// A new context under a given identity, opened at a given time.
    pub fn opened(id: Uuid, now: Timestamp) -> (r: Self)
        ensures
            r == (Context { id, created_at: now, updated_at: now }),
    {
        Context { id, created_at: now, updated_at: now }
    }
}

impl Default for Context {
    fn default() -> (r: Self)
        ensures
            is_random_id(r.id.bits),
            r.id.bits != 0,
            r.created_at == r.updated_at,
            rfc3339_text(r.created_at.seconds as int, r.created_at.nanos as int) is Some,
    {
        Context::new()
    }
}

/// High-level intent of a task, used by the router to pick an agent.
#[derive(Clone, Copy, Debug, PartialEq, Eq, Structural)]
pub enum TaskIntent {
    Architecture,
    Implementation,
    Debug,
    Review,
    UIUX,
    Testing,
    General,
}

/// The stable key of an intent.
pub open spec fn intent_key(intent: TaskIntent) -> Seq<char> {
    match intent {
        TaskIntent::Architecture => "architecture"@,
        TaskIntent::Implementation => "implementation"@,
        TaskIntent::Debug => "debug"@,
        TaskIntent::Review => "review"@,
        TaskIntent::Testing => "testing"@,
        TaskIntent::UIUX => "uiux"@,
        TaskIntent::General => "general"@,
    }
}

/// Different intents have different keys.
pub proof fn intent_key_injective(a: TaskIntent, b: TaskIntent)
    requires
        intent_key(a) == intent_key(b),
    ensures
        a == b,
{
    reveal_strlit("architecture");
    reveal_strlit("implementation");
    reveal_strlit("debug");
    reveal_strlit("review");
    reveal_strlit("testing");
    reveal_strlit("uiux");
    reveal_strlit("general");
    assert("architecture"@[0] == 'a');
    assert("architecture"@.len() == 12);
    assert("implementation"@[0] == 'i');
    assert("implementation"@.len() == 14);
    assert("debug"@[0] == 'd');
    assert("debug"@.len() == 5);
    assert("review"@[0] == 'r');
    assert("review"@.len() == 6);
    assert("testing"@[0] == 't');
    assert("testing"@.len() == 7);
    assert("uiux"@[0] == 'u');
    assert("uiux"@.len() == 4);
    assert("general"@[0] == 'g');
    assert("general"@.len() == 7);
    assert(intent_key(a)[0] == intent_key(b)[0]);
}

/// The skill an intent maps to.
pub open spec fn intent_skill(intent: TaskIntent) -> Seq<char> {
    match intent {
        TaskIntent::Architecture => "architecture"@,
        TaskIntent::Implementation => "code"@,
        TaskIntent::Debug => "debug"@,
        TaskIntent::Review => "review"@,
        TaskIntent::Testing => "testing"@,
        TaskIntent::UIUX => "ui"@,
        TaskIntent::General => "code"@,
    }
}

impl TaskIntent {
    /// Stable snake_case key used in config (`[routing]`) and the CLI.
    pub fn key(&self) -> (r: &'static str)
        ensures
            r@ == intent_key(*self),
    {
        match self {
            TaskIntent::Architecture => "architecture",
            TaskIntent::Implementation => "implementation",
            TaskIntent::Debug => "debug",
            TaskIntent::Review => "review",
            TaskIntent::Testing => "testing",
            TaskIntent::UIUX => "uiux",
            TaskIntent::General => "general",
        }
    }

    /// The skill this intent maps to. The router filters agents by the skill
    /// their Agent Card declares, never by brand.
    pub fn skill(&self) -> (r: &'static str)
        ensures
            r@ == intent_skill(*self),
    {
        match self {
            TaskIntent::Architecture => "architecture",
            TaskIntent::Implementation => "code",
            TaskIntent::Debug => "debug",
            TaskIntent::Review => "review",
            TaskIntent::Testing => "testing",
            TaskIntent::UIUX => "ui",
            TaskIntent::General => "code",
        }
    }

    /// Parse a stable [`Self::key`]; `None` for unknown keys.
    pub fn from_key(value: &str) -> (r: Option<Self>)
        ensures
            forall|i: TaskIntent| r == Some(i) <==> value@ == #[trigger] intent_key(i),
    {
        proof {
            assert forall|a: TaskIntent, b: TaskIntent|
                #[trigger] intent_key(a) == #[trigger] intent_key(b) implies a == b by {
                intent_key_injective(a, b);
            }
            assert(intent_key(TaskIntent::Architecture) == "architecture"@);
            assert(intent_key(TaskIntent::Implementation) == "implementation"@);
            assert(intent_key(TaskIntent::Debug) == "debug"@);
            assert(intent_key(TaskIntent::Review) == "review"@);
            assert(intent_key(TaskIntent::Testing) == "testing"@);
            assert(intent_key(TaskIntent::UIUX) == "uiux"@);
            assert(intent_key(TaskIntent::General) == "general"@);
        }
        if same_text(value, "architecture") {
            Some(TaskIntent::Architecture)
        } else if same_text(value, "implementation") {
            Some(TaskIntent::Implementation)
        } else if same_text(value, "debug") {
            Some(TaskIntent::Debug)
        } else if same_text(value, "review") {
            Some(TaskIntent::Review)
        } else if same_text(value, "testing") {
            Some(TaskIntent::Testing)
        } else if same_text(value, "uiux") {
            Some(TaskIntent::UIUX)
        } else if same_text(value, "general") {
            Some(TaskIntent::General)
        } else {
            None
        }
    }
}

/// Unified streaming event emitted by an agent adapter while a task runs.
#[derive(Clone, Debug, PartialEq, Eq)]
pub enum AgentEvent {
    Started,
    StatusChanged(TaskStatus),
    Message(String),
    ArtifactUpdated(Artifact),
    Completed,
    Failed(String),
}

/// A task that is not over may always fail or be cancelled. Beside that a
/// submitted one may begin to work, a working one ask for input or complete, and
/// one that waits for input go on working; nothing else.
pub proof fn lifecycle_goes_forward(from: TaskStatus, to: TaskStatus)
    ensures
        terminal(from) <==> from == TaskStatus::Completed || from == TaskStatus::Failed || from
            == TaskStatus::Cancelled,
        may_follow(from, TaskStatus::Working) <==> from == TaskStatus::Submitted || from
            == TaskStatus::InputRequired,
        may_follow(from, TaskStatus::InputRequired) <==> from == TaskStatus::Working,
        may_follow(from, TaskStatus::Completed) <==> from == TaskStatus::Working,
        may_follow(from, TaskStatus::Failed) <==> !terminal(from),
        may_follow(from, TaskStatus::Cancelled) <==> !terminal(from),
        !may_follow(from, TaskStatus::Submitted),
        may_follow(from, to) ==> from != to,
{
}

/// The skill that an intent asks for: implementation and general work ask for
/// code, design for that of user interfaces, and every other intent for the skill
/// of its own name.
pub proof fn intents_ask_for_their_skill(intent: TaskIntent)
    ensures
        intent == TaskIntent::Implementation || intent == TaskIntent::General ==> intent_skill(
            intent,
        ) == "code"@,
        intent == TaskIntent::UIUX ==> intent_skill(intent) == "ui"@,
        intent != TaskIntent::Implementation && intent != TaskIntent::General && intent
            != TaskIntent::UIUX ==> intent_skill(intent) == intent_key(intent),
{
}

/// A fresh task is submitted, has no output, no error and no session, and has
/// neither started nor completed.
pub proof fn fresh_task_has_no_history(task: AgentTask)
    ensures
        task.is_fresh() <==> task.status == TaskStatus::Submitted && task.artifacts@.len() == 0
            && task.started_at is None && task.completed_at is None && task.error is None
            && task.agent_session_id is None,
{
}

/// A status is written under a text of its own, and read from no other.
pub proof fn task_statuses_have_their_texts(s: TaskStatus)
    ensures
        status_text(s) == "submitted"@ <==> s == TaskStatus::Submitted,
        status_text(s) == "working"@ <==> s == TaskStatus::Working,
        status_text(s) == "input_required"@ <==> s == TaskStatus::InputRequired,
        status_text(s) == "completed"@ <==> s == TaskStatus::Completed,
        status_text(s) == "failed"@ <==> s == TaskStatus::Failed,
        status_text(s) == "cancelled"@ <==> s == TaskStatus::Cancelled,
{
    if status_text(s) == status_text(TaskStatus::Submitted) {
        status_text_injective(s, TaskStatus::Submitted);
    }
    if status_text(s) == status_text(TaskStatus::Working) {
        status_text_injective(s, TaskStatus::Working);
    }
    if status_text(s) == status_text(TaskStatus::InputRequired) {
        status_text_injective(s, TaskStatus::InputRequired);
    }
    if status_text(s) == status_text(TaskStatus::Completed) {
        status_text_injective(s, TaskStatus::Completed);
    }
    if status_text(s) == status_text(TaskStatus::Failed) {
        status_text_injective(s, TaskStatus::Failed);
    }
    if status_text(s) == status_text(TaskStatus::Cancelled) {
        status_text_injective(s, TaskStatus::Cancelled);
    }
}

/// A kind of artifact is written under a text of its own, and read from no other.
pub proof fn artifact_kinds_have_their_keys(s: ArtifactKind)
    ensures
        kind_key(s) == "text"@ <==> s == ArtifactKind::Text,
        kind_key(s) == "file"@ <==> s == ArtifactKind::File,
        kind_key(s) == "patch"@ <==> s == ArtifactKind::Patch,
        kind_key(s) == "json"@ <==> s == ArtifactKind::Json,
        kind_key(s) == "log"@ <==> s == ArtifactKind::Log,
        kind_key(s) == "test_result"@ <==> s == ArtifactKind::TestResult,
{
    if kind_key(s) == kind_key(ArtifactKind::Text) {
        kind_key_injective(s, ArtifactKind::Text);
    }
    if kind_key(s) == kind_key(ArtifactKind::File) {
        kind_key_injective(s, ArtifactKind::File);
    }
    if kind_key(s) == kind_key(ArtifactKind::Patch) {
        kind_key_injective(s, ArtifactKind::Patch);
    }
    if kind_key(s) == kind_key(ArtifactKind::Json) {
        kind_key_injective(s, ArtifactKind::Json);
    }
    if kind_key(s) == kind_key(ArtifactKind::Log) {
        kind_key_injective(s, ArtifactKind::Log);
    }
    if kind_key(s) == kind_key(ArtifactKind::TestResult) {
        kind_key_injective(s, ArtifactKind::TestResult);
    }
}

/// An intent is written under a key of its own, and read from no other.
pub proof fn intents_have_their_keys(s: TaskIntent)
    ensures
        intent_key(s) == "architecture"@ <==> s == TaskIntent::Architecture,
        intent_key(s) == "implementation"@ <==> s == TaskIntent::Implementation,
        intent_key(s) == "debug"@ <==> s == TaskIntent::Debug,
        intent_key(s) == "review"@ <==> s == TaskIntent::Review,
        intent_key(s) == "testing"@ <==> s == TaskIntent::Testing,
        intent_key(s) == "uiux"@ <==> s == TaskIntent::UIUX,
        intent_key(s) == "general"@ <==> s == TaskIntent::General,
{
    if intent_key(s) == intent_key(TaskIntent::Architecture) {
        intent_key_injective(s, TaskIntent::Architecture);
    }
    if intent_key(s) == intent_key(TaskIntent::Implementation) {
        intent_key_injective(s, TaskIntent::Implementation);
    }
    if intent_key(s) == intent_key(TaskIntent::Debug) {
        intent_key_injective(s, TaskIntent::Debug);
    }
    if intent_key(s) == intent_key(TaskIntent::Review) {
        intent_key_injective(s, TaskIntent::Review);
    }
    if intent_key(s) == intent_key(TaskIntent::Testing) {
        intent_key_injective(s, TaskIntent::Testing);
    }
    if intent_key(s) == intent_key(TaskIntent::UIUX) {
        intent_key_injective(s, TaskIntent::UIUX);
    }
    if intent_key(s) == intent_key(TaskIntent::General) {
        intent_key_injective(s, TaskIntent::General);
    }
}

} // verus!
