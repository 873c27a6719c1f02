//! Safe removal of workspaces.
//!
//! Before anything is removed the daemon asserts that there is no live owner:
//! no live task, no leased session, no running or interrupted workflow that
//! depends on it. A workflow's workspaces are all checked before the first is
//! removed.

use vstd::prelude::*;
use vstd::string::*;

use crate::ids::{id_text, Uuid};
use crate::model::{terminal, TaskStatus};
use crate::workflow::types::{Decoded, WorkflowStatus};
use crate::text::{contains_text, parts_stand_where_they_are};
use crate::text::longer_texts_contain_the_same;

verus! {

/// What kind of error the workspace layer had, as far as it is told apart.
#[derive(Clone, Copy, Debug, PartialEq, Eq, Structural)]
pub enum WorkspaceFaultKind {
    NotFound,
    NotSafeToRemove,
    ChangedAfterApply,
    Removed,
    NotManagedBranch,
    Other,
}

/// An error of the workspace layer, with its message.
#[derive(Debug, PartialEq, Eq)]
pub struct WorkspaceFault {
    pub kind: WorkspaceFaultKind,
    pub message: String,
}

/// Errors produced by the cleanup layer. An error of another layer is carried
/// by its message.
#[derive(Debug, PartialEq, Eq)]
pub enum CleanupError {
    TaskNotFound(Uuid),
    TaskHasNoWorkspace(Uuid),
    WorkflowNotFound(Uuid),
    WorkflowStillActive(Uuid, String),
    Workspace(WorkspaceFault),
    Storage(String),
    Task(String),
    Internal(String),
}

/// The message of a cleanup error.
pub open spec fn cleanup_error_text(e: CleanupError) -> Seq<char> {
    match e {
        CleanupError::TaskNotFound(id) => "task `"@ + id_text(id.bits) + "` not found"@,
        CleanupError::TaskHasNoWorkspace(id) => "task `"@ + id_text(id.bits)
            + "` has no agent session / workspace to clean up"@,
        CleanupError::WorkflowNotFound(id) => "workflow `"@ + id_text(id.bits) + "` not found"@,
        CleanupError::WorkflowStillActive(id, status) => "workflow `"@ + id_text(id.bits)
            + "` is still active (status `"@ + status@ + "`); cancel or wait before cleanup"@,
        CleanupError::Workspace(fault) => "workspace error: "@ + fault.message@,
        CleanupError::Storage(message) => "storage error: "@ + message@,
        CleanupError::Task(message) => "task error: "@ + message@,
        CleanupError::Internal(message) => "internal error: "@ + message@,
    }
}

impl CleanupError {
    /// The message of the error.
    pub fn message(&self) -> (r: String)
        ensures
            r@ == cleanup_error_text(*self),
    {
        match self {
            CleanupError::TaskNotFound(id) => "task `".to_owned().concat(
                id.to_text().as_str(),
            ).concat("` not found"),
            CleanupError::TaskHasNoWorkspace(id) => "task `".to_owned().concat(
                id.to_text().as_str(),
            ).concat("` has no agent session / workspace to clean up"),
            CleanupError::WorkflowNotFound(id) => "workflow `".to_owned().concat(
                id.to_text().as_str(),
            ).concat("` not found"),
            CleanupError::WorkflowStillActive(id, status) => "workflow `".to_owned().concat(
                id.to_text().as_str(),
            ).concat("` is still active (status `").concat(status.as_str()).concat(
                "`); cancel or wait before cleanup",
            ),
            CleanupError::Workspace(fault) => "workspace error: ".to_owned().concat(
                fault.message.as_str(),
            ),
            CleanupError::Storage(message) => "storage error: ".to_owned().concat(message.as_str()),
            CleanupError::Task(message) => "task error: ".to_owned().concat(message.as_str()),
            CleanupError::Internal(message) => "internal error: ".to_owned().concat(
                message.as_str(),
            ),
        }
    }
}

/// The session of a task whose workspace is to be found. `task` is the session
/// of the task where the task exists.
pub fn session_of_task(task_id: Uuid, task: Option<Option<Uuid>>) -> (r: Result<Uuid, CleanupError>)
    ensures
        match task {
            None => r == Err::<Uuid, CleanupError>(CleanupError::TaskNotFound(task_id)),
            Some(None) => r == Err::<Uuid, CleanupError>(CleanupError::TaskHasNoWorkspace(task_id)),
            Some(Some(session)) => r == Ok::<Uuid, CleanupError>(session),
        },
        r is Ok <==> task is Some && task->0 is Some,
        r matches Ok(session) ==> task == Some(Some(session)),
{
    match task {
        None => Err(CleanupError::TaskNotFound(task_id)),
        Some(None) => Err(CleanupError::TaskHasNoWorkspace(task_id)),
        Some(Some(session)) => Ok(session),
    }
}

/// The error of a task whose workspace could not be found.
pub fn workspace_lookup_error(task_id: Uuid, fault: WorkspaceFault) -> (r: CleanupError)
    ensures
        r == (if fault.kind == WorkspaceFaultKind::NotFound {
            CleanupError::TaskHasNoWorkspace(task_id)
        } else {
            CleanupError::Workspace(fault)
        }),
{
    match fault.kind {
        WorkspaceFaultKind::NotFound => CleanupError::TaskHasNoWorkspace(task_id),
        _ => CleanupError::Workspace(fault),
    }
}

/// The facts that the daemon owns about a workspace: all required to be absent
/// before a cleanup.
#[derive(Clone, Copy, Debug, PartialEq, Eq, Structural)]
pub struct CleanupContext {
    pub has_live_task: bool,
    pub has_session_lease: bool,
    pub has_workflow_dependency: bool,
    pub archive_only: bool,
}

/// Whether a task that has not ended uses a session.
pub open spec fn session_in_use(live: Seq<(Uuid, String, Uuid, TaskStatus)>, session: Uuid) -> bool {
    exists|i: int|
        0 <= i < live.len() && (#[trigger] live[i]).2 == session && !terminal(live[i].3)
}

/// The facts about the workspace of a session, from the live tasks (id, agent,
/// session and status), the leases and the workflows.
pub fn build_cleanup_context(
    live: &[(Uuid, String, Uuid, TaskStatus)],
    session_id: Uuid,
    leased: bool,
    workflow_dependency: bool,
) -> (r: CleanupContext)
    ensures
        r == (CleanupContext {
            has_live_task: session_in_use(live@, session_id),
            has_session_lease: leased,
            has_workflow_dependency: workflow_dependency,
            archive_only: false,
        }),
{
    let mut has_live_task = false;
    let mut i: usize = 0;
    while i < live.len()
        invariant
            i <= live@.len(),
            has_live_task <==> exists|j: int|
                0 <= j < i && (#[trigger] live@[j]).2 == session_id && !terminal(live@[j].3),
        decreases live.len() - i,
    {
        if live[i].2 == session_id && !live[i].3.is_terminal() {
            has_live_task = true;
        }
        i += 1;
    }
    CleanupContext {
        has_live_task,
        has_session_lease: leased,
        has_workflow_dependency: workflow_dependency,
        archive_only: false,
    }
}

/// Only a workflow that has ended is cleaned up; one that is still running or
/// interrupted refuses. `row` is the status of the workflow where it exists.
pub fn workflow_cleanup_gate(workflow_id: Uuid, row: Option<Decoded<WorkflowStatus>>) -> (r: Result<
    (),
    CleanupError,
>)
    ensures
        match row {
            None => r == Err::<(), CleanupError>(CleanupError::WorkflowNotFound(workflow_id)),
            Some(status) => match status.value {
                None => r matches Err(CleanupError::Internal(text)) && text@
                    == "unknown workflow status `"@ + status.text@ + "`"@,
                Some(WorkflowStatus::Running) | Some(WorkflowStatus::Interrupted) => r == Err::<
                    (),
                    CleanupError,
                >(CleanupError::WorkflowStillActive(workflow_id, status.text)),
                Some(_) => r is Ok,
            },
        },
        r is Ok <==> row is Some && row->0.value is Some && row->0.value != Some(
            WorkflowStatus::Running,
        ) && row->0.value != Some(WorkflowStatus::Interrupted),
{
    match row {
        None => Err(CleanupError::WorkflowNotFound(workflow_id)),
        Some(status) => match status.value {
            None => Err(
                CleanupError::Internal(
                    "unknown workflow status `".to_owned().concat(status.text.as_str()).concat("`"),
                ),
            ),
            Some(WorkflowStatus::Running) | Some(WorkflowStatus::Interrupted) => Err(
                CleanupError::WorkflowStillActive(workflow_id, status.text),
            ),
            Some(_) => Ok(()),
        },
    }
}

/// The distinct sessions of a workflow's steps, each where it comes first.
/// Steps without one are left out.
pub open spec fn distinct_of(sessions: Seq<Option<Uuid>>) -> Seq<Uuid>
    decreases sessions.len(),
{
    if sessions.len() == 0 {
        Seq::empty()
    } else {
        let before = distinct_of(sessions.drop_last());
        match sessions.last() {
            Some(session) => if before.contains(session) {
                before
            } else {
                before.push(session)
            },
            None => before,
        }
    }
}

/// The distinct sessions of a workflow's steps, each where it comes first.
pub fn distinct_sessions(sessions: &[Option<Uuid>]) -> (r: Vec<Uuid>)
    ensures
        r@ == distinct_of(sessions@),
{
    let mut out: Vec<Uuid> = Vec::new();
    let mut i: usize = 0;
    while i < sessions.len()
        invariant
            i <= sessions@.len(),
            out@ == distinct_of(sessions@.take(i as int)),
        decreases sessions.len() - i,
    {
        proof {
            assert(sessions@.take(i + 1).drop_last() =~= sessions@.take(i as int));
            assert(sessions@.take(i + 1).last() == sessions@[i as int]);
        }
        if let Some(session) = sessions[i] {
            let mut seen = false;
            let mut j: usize = 0;
            while j < out.len()
                invariant
                    j <= out@.len(),
                    seen <==> exists|k: int| 0 <= k < j && #[trigger] out@[k] == session,
                decreases out.len() - j,
            {
                if out[j] == session {
                    seen = true;
                }
                j += 1;
            }
            assert(seen <==> out@.contains(session));
            if !seen {
                out.push(session);
            }
        }
        i += 1;
    }
    assert(sessions@.take(i as int) =~= sessions@);
    out
}

/// Every session of a workflow's steps is among the distinct ones, and no
/// session twice.
pub proof fn each_session_once(sessions: Seq<Option<Uuid>>)
    ensures
        distinct_of(sessions).no_duplicates(),
        forall|s: Uuid| #[trigger]
            distinct_of(sessions).contains(s) <==> sessions.contains(Some(s)),
    decreases sessions.len(),
{
    if sessions.len() > 0 {
        let rest = sessions.drop_last();
        let before = distinct_of(rest);
        let all = distinct_of(sessions);
        each_session_once(rest);
        assert(sessions =~= rest.push(sessions.last()));
        assert forall|s: Uuid| #[trigger] all.contains(s) <==> sessions.contains(Some(s)) by {
            if all.contains(s) {
                let i = choose|i: int| 0 <= i < all.len() && all[i] == s;
                if i < before.len() {
                    assert(before[i] == s);
                    assert(before.contains(s));
                    let j = choose|j: int| 0 <= j < rest.len() && rest[j] == Some(s);
                    assert(sessions[j] == Some(s));
                } else {
                    assert(sessions[sessions.len() - 1] == Some(s));
                }
            }
            if sessions.contains(Some(s)) {
                let j = choose|j: int| 0 <= j < sessions.len() && sessions[j] == Some(s);
                if j < rest.len() {
                    assert(rest[j] == Some(s));
                    assert(rest.contains(Some(s)));
                    assert(before.contains(s));
                    let i = choose|i: int| 0 <= i < before.len() && before[i] == s;
                    assert(all[i] == s);
                } else if before.contains(s) {
                    let i = choose|i: int| 0 <= i < before.len() && before[i] == s;
                    assert(all[i] == s);
                } else {
                    assert(all[before.len() as int] == s);
                }
            }
        }
    }
}

/// What comes next in a cleanup of several workspaces.
#[derive(Clone, Copy, Debug, PartialEq, Eq, Structural)]
pub enum SweepAction {
    /// Check the workspace at this position.
    Check(usize),
    /// Remove the workspace at this position.
    Remove(usize),
    /// All are removed.
    Finished,
    /// A check or a removal failed; nothing more is done.
    Aborted,
}

/// A cleanup of several workspaces: all are checked before the first is
/// removed, and the first failure ends it.
pub struct CleanupSweep {
    count: usize,
    checked: usize,
    removed: usize,
    failed: bool,
}

impl CleanupSweep {
    /// How many workspaces there are.
    pub closed spec fn total(self) -> nat {
        self.count as nat
    }

    /// How many were checked and found safe.
    pub closed spec fn safe(self) -> nat {
        self.checked as nat
    }

    /// How many were removed.
    pub closed spec fn gone(self) -> nat {
        self.removed as nat
    }

    /// Whether a check or a removal failed.
    pub closed spec fn aborted(self) -> bool {
        self.failed
    }

    /// What holds of every cleanup: nothing was removed unless all were found
    /// safe.
    pub open spec fn wf(self) -> bool {
        &&& self.gone() <= self.safe() <= self.total() <= usize::MAX
        &&& self.gone() > 0 ==> self.safe() == self.total()
    }

    /// What comes next.
    pub open spec fn upcoming(self) -> SweepAction {
        if self.aborted() {
            SweepAction::Aborted
        } else if self.safe() < self.total() {
            SweepAction::Check(self.safe() as usize)
        } else if self.gone() < self.total() {
            SweepAction::Remove(self.gone() as usize)
        } else {
            SweepAction::Finished
        }
    }

    /// A cleanup of so many workspaces, with nothing done yet.
    pub fn new(count: usize) -> (r: Self)
        ensures
            r.wf(),
            r.total() == count,
            r.safe() == 0,
            r.gone() == 0,
            !r.aborted(),
    {
        CleanupSweep { count, checked: 0, removed: 0, failed: false }
    }

    /// What comes next.
    pub fn next(&self) -> (r: SweepAction)
        requires
            self.wf(),
        ensures
            r == self.upcoming(),
    {
        if self.failed {
            SweepAction::Aborted
        } else if self.checked < self.count {
            SweepAction::Check(self.checked)
        } else if self.removed < self.count {
            SweepAction::Remove(self.removed)
        } else {
            SweepAction::Finished
        }
    }

    /// Takes the outcome of the action that came next.
    pub fn report(&mut self, ok: bool)
        requires
            old(self).wf(),
        ensures
            final(self).wf(),
            final(self).total() == old(self).total(),
            final(self).aborted() == (old(self).aborted() || (!ok && !(old(
                self,
            ).upcoming() is Finished))),
            final(self).safe() == old(self).safe() + (if ok && old(self).upcoming() is Check {
                1nat
            } else {
                0nat
            }),
            final(self).gone() == old(self).gone() + (if ok && old(self).upcoming() is Remove {
                1nat
            } else {
                0nat
            }),
    {
        match self.next() {
            SweepAction::Check(_) => if ok {
                self.checked = self.checked + 1;
            } else {
                self.failed = true;
            },
            SweepAction::Remove(_) => if ok {
                self.removed = self.removed + 1;
            } else {
                self.failed = true;
            },
            _ => {},
        }
    }
}

/// If any workspace is found unsafe, nothing is removed: a cleanup whose
/// checks did not all succeed has removed nothing, and asks for no removal.
pub proof fn nothing_removed_unless_all_safe(sweep: CleanupSweep)
    requires
        sweep.wf(),
        sweep.safe() < sweep.total(),
    ensures
        sweep.gone() == 0,
        !(sweep.upcoming() is Remove),
{
}

/// A session is in use exactly while a task of it is not over.
pub proof fn session_is_in_use_while_a_task_lives(
    live: Seq<(Uuid, String, Uuid, TaskStatus)>,
    session: Uuid,
)
    ensures
        session_in_use(live, session) <==> exists|i: int|
            0 <= i < live.len() && (#[trigger] live[i]).2 == session && live[i].3
                != TaskStatus::Completed && live[i].3 != TaskStatus::Failed && live[i].3
                != TaskStatus::Cancelled,
{
    if session_in_use(live, session) {
        let i = choose|i: int|
            0 <= i < live.len() && (#[trigger] live[i]).2 == session && !terminal(live[i].3);
        assert(live[i].2 == session && live[i].3 != TaskStatus::Completed);
    }
    if exists|i: int|
        0 <= i < live.len() && (#[trigger] live[i]).2 == session && live[i].3
            != TaskStatus::Completed && live[i].3 != TaskStatus::Failed && live[i].3
            != TaskStatus::Cancelled {
        let i = choose|i: int|
            0 <= i < live.len() && (#[trigger] live[i]).2 == session && live[i].3
                != TaskStatus::Completed && live[i].3 != TaskStatus::Failed && live[i].3
                != TaskStatus::Cancelled;
        assert(!terminal(live[i].3));
    }
}

/// One more step adds its session exactly when it has one that is not listed
/// yet, behind the others.
pub proof fn sessions_are_listed_in_order(sessions: Seq<Option<Uuid>>, next: Option<Uuid>)
    ensures
        distinct_of(Seq::empty()).len() == 0,
        next is None ==> distinct_of(sessions.push(next)) == distinct_of(sessions),
        next matches Some(s) ==> (distinct_of(sessions).contains(s) ==> distinct_of(
            sessions.push(next),
        ) == distinct_of(sessions)),
        next matches Some(s) ==> (!distinct_of(sessions).contains(s) ==> distinct_of(
            sessions.push(next),
        ) == distinct_of(sessions).push(s)),
{
    assert(sessions.push(next).drop_last() =~= sessions);
}

/// A sweep checks every workspace in turn, then removes each in turn, and is
/// finished when all are gone; once a step failed it does nothing more.
pub proof fn sweep_checks_all_and_then_removes(sweep: CleanupSweep)
    requires
        sweep.wf(),
    ensures
        sweep.upcoming() is Aborted <==> sweep.aborted(),
        sweep.upcoming() is Check <==> !sweep.aborted() && sweep.safe() < sweep.total(),
        sweep.upcoming() is Remove <==> !sweep.aborted() && sweep.safe() == sweep.total()
            && sweep.gone() < sweep.total(),
        sweep.upcoming() is Finished <==> !sweep.aborted() && sweep.gone() == sweep.total(),
        sweep.upcoming() matches SweepAction::Check(i) ==> i == sweep.safe(),
        sweep.upcoming() matches SweepAction::Remove(i) ==> i == sweep.gone(),
{
}

/// The message of an error names what the error is about: ids, statuses and
/// reasons.
#[verifier::rlimit(40)]
pub proof fn cleanup_messages_name_their_subject(e: CleanupError)
    ensures
        e matches CleanupError::TaskNotFound(id)
            ==> contains_text(cleanup_error_text(e), id_text(id.bits)),
        e matches CleanupError::TaskHasNoWorkspace(id)
            ==> contains_text(cleanup_error_text(e), id_text(id.bits)),
        e matches CleanupError::WorkflowNotFound(id)
            ==> contains_text(cleanup_error_text(e), id_text(id.bits)),
        e matches CleanupError::WorkflowStillActive(id, status)
            ==> contains_text(cleanup_error_text(e), id_text(id.bits))
            && contains_text(cleanup_error_text(e), status@),
        e matches CleanupError::Workspace(fault)
            ==> contains_text(cleanup_error_text(e), fault.message@),
        e matches CleanupError::Storage(message) ==> contains_text(cleanup_error_text(e), message@),
        e matches CleanupError::Task(message) ==> contains_text(cleanup_error_text(e), message@),
        e matches CleanupError::Internal(message)
            ==> contains_text(cleanup_error_text(e), message@),
{
    match e {
        CleanupError::TaskNotFound(id) => {
            let t0 = "task `"@;
            let t1 = t0 + id_text(id.bits);
            let t2 = t1 + "` not found"@;
            assert(cleanup_error_text(e) == t2);
            told_last(t0, id_text(id.bits));
            longer_texts_contain_the_same(t1, id_text(id.bits), "` not found"@);
        },
        CleanupError::TaskHasNoWorkspace(id) => {
            let t0 = "task `"@;
            let t1 = t0 + id_text(id.bits);
            let t2 = t1 + "` has no agent session / workspace to clean up"@;
            assert(cleanup_error_text(e) == t2);
            told_last(t0, id_text(id.bits));
            longer_texts_contain_the_same(
                t1,
                id_text(id.bits),
                "` has no agent session / workspace to clean up"@,
            );
        },
        CleanupError::WorkflowNotFound(id) => {
            let t0 = "workflow `"@;
            let t1 = t0 + id_text(id.bits);
            let t2 = t1 + "` not found"@;
            assert(cleanup_error_text(e) == t2);
            told_last(t0, id_text(id.bits));
            longer_texts_contain_the_same(t1, id_text(id.bits), "` not found"@);
        },
        CleanupError::WorkflowStillActive(id, status) => {
            let t0 = "workflow `"@;
            let t1 = t0 + id_text(id.bits);
            let t2 = t1 + "` is still active (status `"@;
            let t3 = t2 + status@;
            let t4 = t3 + "`); cancel or wait before cleanup"@;
            assert(cleanup_error_text(e) == t4);
            told_last(t0, id_text(id.bits));
            longer_texts_contain_the_same(t1, id_text(id.bits), "` is still active (status `"@);
            longer_texts_contain_the_same(t2, id_text(id.bits), status@);
            longer_texts_contain_the_same(
                t3,
                id_text(id.bits),
                "`); cancel or wait before cleanup"@,
            );
            told_last(t2, status@);
            longer_texts_contain_the_same(t3, status@, "`); cancel or wait before cleanup"@);
        },
        CleanupError::Workspace(fault) => {
            let t0 = "workspace error: "@;
            let t1 = t0 + fault.message@;
            assert(cleanup_error_text(e) == t1);
            told_last(t0, fault.message@);
        },
        CleanupError::Storage(message) => {
            let t0 = "storage error: "@;
            let t1 = t0 + message@;
            assert(cleanup_error_text(e) == t1);
            told_last(t0, message@);
        },
        CleanupError::Task(message) => {
            let t0 = "task error: "@;
            let t1 = t0 + message@;
            assert(cleanup_error_text(e) == t1);
            told_last(t0, message@);
        },
        CleanupError::Internal(message) => {
            let t0 = "internal error: "@;
            let t1 = t0 + message@;
            assert(cleanup_error_text(e) == t1);
            told_last(t0, message@);
        },
        _ => {},
    }
}

proof fn told_last(head: Seq<char>, part: Seq<char>)
    ensures
        contains_text(head + part, part),
{
    parts_stand_where_they_are(head, part, Seq::empty());
    assert(head + part + Seq::<char>::empty() =~= head + part);
}

} // verus!
