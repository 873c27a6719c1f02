//! One live task per agent session.

use std::collections::HashMap;

use vstd::prelude::*;
use vstd::string::*;

use crate::ids::{id_text, Uuid};

verus! {

broadcast use vstd::std_specs::hash::group_hash_axioms;

/// Why a lease was refused.
#[derive(Debug, PartialEq, Eq)]
pub enum LeaseError {
    SessionBusy { session_id: Uuid, active_task_id: Uuid },
}

impl LeaseError {
    /// The message of the error.
    pub fn message(&self) -> (r: String)
        ensures
            match *self {
                LeaseError::SessionBusy { session_id, active_task_id } => r@ == "agent session "@
                    + id_text(session_id.bits) + " is busy with task "@ + id_text(
                    active_task_id.bits,
                ),
            },
    {
        match self {
            LeaseError::SessionBusy { session_id, active_task_id } => "agent session ".to_owned().concat(
                session_id.to_text().as_str(),
            ).concat(" is busy with task ").concat(active_task_id.to_text().as_str()),
        }
    }
}

/// A lease on an agent session.
#[derive(Debug, PartialEq, Eq)]
pub struct SessionLease {
    session_id: Uuid,
}

impl SessionLease {
    /// The session that is leased.
    pub closed spec fn session(self) -> Uuid {
        self.session_id
    }

    /// The session that is leased.
    pub fn session_id(&self) -> (r: Uuid)
        ensures
            r == self.session(),
    {
        self.session_id
    }
}

/// Guards concurrent use of the same agent session (and therefore its
/// worktree and native session).
pub struct SessionLeaseManager {
    leases: HashMap<u128, u128>,
}

impl SessionLeaseManager {
    /// The task that holds each leased session, by the bits of their ids.
    pub closed spec fn held(self) -> Map<u128, u128> {
        self.leases@
    }

    /// No session is leased.
    pub fn new() -> (r: Self)
        ensures
            r.held() == Map::<u128, u128>::empty(),
    {
        SessionLeaseManager { leases: HashMap::new() }
    }

    /// Acquires the lease for a session, bound to a task. A session that is
    /// leased to another task is refused.
    pub fn acquire(&mut self, session_id: Uuid, task_id: Uuid) -> (r: Result<
        SessionLease,
        LeaseError,
    >)
        ensures
            r is Ok <==> grants(old(self).held(), session_id.bits, task_id.bits),
            match r {
                Ok(lease) => {
                    &&& lease.session() == session_id
                    &&& final(self).held() == old(self).held().insert(session_id.bits, task_id.bits)
                },
                Err(LeaseError::SessionBusy { session_id: busy, active_task_id }) => {
                    &&& busy == session_id
                    &&& active_task_id != task_id
                    &&& old(self).held().contains_key(session_id.bits)
                    &&& old(self).held()[session_id.bits] == active_task_id.bits
                    &&& final(self).held() == old(self).held()
                },
            },
    {
        match self.leases.get(&session_id.bits) {
            Some(active) => {
                if *active != task_id.bits {
                    return Err(
                        LeaseError::SessionBusy {
                            session_id,
                            active_task_id: Uuid { bits: *active },
                        },
                    );
                }
            },
            None => {},
        }
        self.leases.insert(session_id.bits, task_id.bits);
        Ok(SessionLease { session_id })
    }

    /// Releases the lease of a session.
    pub fn release(&mut self, session_id: Uuid)
        ensures
            final(self).held() == old(self).held().remove(session_id.bits),
    {
        let _ = self.leases.remove(&session_id.bits);
    }

    /// Whether a session currently holds an active lease.
    pub fn is_leased(&self, session_id: Uuid) -> (r: bool)
        ensures
            r == self.held().contains_key(session_id.bits),
    {
        self.leases.contains_key(&session_id.bits)
    }
}

/// Whether an acquisition by a task is granted where these sessions are held.
pub open spec fn grants(held: Map<u128, u128>, session: u128, task: u128) -> bool {
    !held.contains_key(session) || held[session] == task
}

/// A request that the manager takes.
pub enum LeaseRequest {
    /// To acquire a session for a task.
    Acquire { session: u128, task: u128 },
    /// To release a session.
    Release { session: u128 },
}

/// What is held after requests.
pub open spec fn held_after(held: Map<u128, u128>, requests: Seq<LeaseRequest>) -> Map<u128, u128>
    decreases requests.len(),
{
    if requests.len() == 0 {
        held
    } else {
        let before = held_after(held, requests.drop_last());
        match requests.last() {
            LeaseRequest::Acquire { session, task } => if grants(before, session, task) {
                before.insert(session, task)
            } else {
                before
            },
            LeaseRequest::Release { session } => before.remove(session),
        }
    }
}

/// One live task per session: from the acquisition of a session by a task
/// until its release, whatever else is requested, the task keeps it and no
/// other task is granted it.
pub proof fn lease_is_exclusive(
    held: Map<u128, u128>,
    session: u128,
    task: u128,
    requests: Seq<LeaseRequest>,
    other: u128,
)
    requires
        grants(held, session, task),
        forall|i: int|
            0 <= i < requests.len() ==> #[trigger] requests[i] != (LeaseRequest::Release { session }),
        other != task,
    ensures
        ({
            let now = held_after(held.insert(session, task), requests);
            &&& now.contains_key(session) && now[session] == task
            &&& !grants(now, session, other)
        }),
    decreases requests.len(),
{
    if requests.len() > 0 {
        lease_is_exclusive(held, session, task, requests.drop_last(), other);
        assert(requests.last() != (LeaseRequest::Release { session }));
    }
}

/// A session that was released is granted to any task.
pub proof fn released_session_is_free(held: Map<u128, u128>, session: u128, task: u128)
    ensures
        grants(held.remove(session), session, task),
{
}

/// Leases on different sessions do not disturb each other: what becomes of
/// one session changes neither who holds another nor who is granted it.
pub proof fn leases_are_independent(
    held: Map<u128, u128>,
    session: u128,
    task: u128,
    elsewhere: u128,
    other: u128,
)
    requires
        session != elsewhere,
    ensures
        grants(held.insert(session, task), elsewhere, other) == grants(held, elsewhere, other),
        grants(held.remove(session), elsewhere, other) == grants(held, elsewhere, other),
{
}

/// A session is granted exactly when it is free or held by the same task; the
/// task that holds it may ask again, and no other may.
pub proof fn only_a_free_session_is_granted(held: Map<u128, u128>, session: u128, task: u128)
    ensures
        !held.dom().contains(session) ==> grants(held, session, task),
        held.dom().contains(session) ==> (grants(held, session, task) <==> held[session] == task),
        grants(held.insert(session, task), session, task),
{
}

/// What a request does to the leases: a granted one holds its session for its
/// task, a refused one changes nothing, and a release frees its own session.
pub proof fn requests_change_their_session_alone(
    held: Map<u128, u128>,
    requests: Seq<LeaseRequest>,
    session: u128,
    task: u128,
    other: u128,
)
    requires
        other != session,
    ensures
        held_after(held, Seq::empty()) == held,
        ({
            let before = held_after(held, requests);
            let asked = held_after(
                held,
                requests.push(LeaseRequest::Acquire { session, task }),
            );
            let freed = held_after(held, requests.push(LeaseRequest::Release { session }));
            &&& before.dom().contains(session) && before[session] != task ==> asked == before
            &&& !before.dom().contains(session) ==> asked.dom().contains(session)
                && asked[session] == task
            &&& asked.dom().contains(other) == before.dom().contains(other)
            &&& before.dom().contains(other) ==> asked[other] == before[other]
            &&& !freed.dom().contains(session)
            &&& freed.dom().contains(other) == before.dom().contains(other)
            &&& before.dom().contains(other) ==> freed[other] == before[other]
        }),
{
    assert(requests.push(LeaseRequest::Acquire { session, task }).drop_last() =~= requests);
    assert(requests.push(LeaseRequest::Release { session }).drop_last() =~= requests);
}

} // verus!
