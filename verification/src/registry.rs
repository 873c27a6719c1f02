//! Live tasks of the daemon, each with a bounded replay of its events.

use std::collections::{HashMap, VecDeque};

use vstd::prelude::*;
use vstd::std_specs::iter::IteratorSpec;

use crate::ids::Uuid;
use crate::model::{terminal, AgentEvent, TaskStatus};
use crate::protocol::{DaemonStreamEvent, RunResponse};

verus! {

broadcast use vstd::std_specs::hash::group_hash_axioms;

/// A buffered event: its sequence number, the event, and its size when
/// written out.
#[derive(Debug, PartialEq, Eq)]
pub struct Slot {
    pub seq: u64,
    pub event: DaemonStreamEvent,
    pub size: usize,
}

/// The size of all events of a buffer.
pub open spec fn total_size(slots: Seq<Slot>) -> nat
    decreases slots.len(),
{
    if slots.len() == 0 {
        0
    } else {
        slots[0].size as nat + total_size(slots.drop_first())
    }
}

/// Whether events are within the limits of a buffer.
pub open spec fn within(slots: Seq<Slot>, max_events: nat, max_bytes: nat) -> bool {
    slots.len() <= max_events && total_size(slots) <= max_bytes
}

/// What is kept of events: as many of the newest as the limits let.
pub open spec fn retained(slots: Seq<Slot>, max_events: nat, max_bytes: nat) -> Seq<Slot>
    decreases slots.len(),
{
    if slots.len() == 0 || within(slots, max_events, max_bytes) {
        slots
    } else {
        retained(slots.drop_first(), max_events, max_bytes)
    }
}

/// Bounded replay buffer of stream events (daemon memory only).
pub struct ReplayBuffer {
    events: VecDeque<Slot>,
    next: u64,
    max_events: usize,
    max_bytes: usize,
    bytes: usize,
}

impl ReplayBuffer {
    /// The buffered events, oldest first.
    pub closed spec fn slots(self) -> Seq<Slot> {
        self.events@
    }

    /// The sequence number of the next event.
    pub closed spec fn following(self) -> u64 {
        self.next
    }

    /// How many events are kept at most.
    pub closed spec fn event_limit(self) -> usize {
        self.max_events
    }

    /// How many bytes of events are kept at most.
    pub closed spec fn byte_limit(self) -> usize {
        self.max_bytes
    }

    /// The bytes of the buffered events are counted.
    pub closed spec fn counts_bytes(self) -> bool {
        self.bytes == total_size(self.events@)
    }

    /// What holds of every buffer: it is within its limits, and its events are
    /// numbered one after the other up to the next number.
    pub open spec fn wf(self) -> bool {
        &&& self.counts_bytes()
        &&& within(self.slots(), self.event_limit() as nat, self.byte_limit() as nat)
        &&& 1 <= self.following()
        &&& self.slots().len() < self.following()
        &&& forall|i: int|
            0 <= i < self.slots().len() ==> (#[trigger] self.slots()[i]).seq == self.following()
                - self.slots().len() + i
    }

    /// An empty buffer; sequence numbers start at one.
    pub fn new(max_events: usize, max_bytes: usize) -> (r: Self)
        ensures
            r.wf(),
            r.slots() == Seq::<Slot>::empty(),
            r.following() == 1,
            r.event_limit() == max_events,
            r.byte_limit() == max_bytes,
    {
        ReplayBuffer { events: VecDeque::new(), next: 1, max_events, max_bytes, bytes: 0 }
    }

    /// Adds an event of the given size and gives its sequence number. The
    /// oldest events are dropped when the buffer is full.
    pub fn push(&mut self, event: DaemonStreamEvent, size: usize) -> (r: u64)
        requires
            old(self).wf(),
            old(self).following() < u64::MAX,
        ensures
            final(self).wf(),
            r == old(self).following(),
            final(self).following() == old(self).following() + 1,
            final(self).event_limit() == old(self).event_limit(),
            final(self).byte_limit() == old(self).byte_limit(),
            final(self).slots() == retained(
                old(self).slots().push(Slot { seq: r, event, size }),
                old(self).event_limit() as nat,
                old(self).byte_limit() as nat,
            ),
    {
        let seq = self.next;
        let ghost slot = Slot { seq, event, size };
        let ghost all = self.events@.push(slot);
        let ghost limit = (self.max_events, self.max_bytes);
        let fits: bool = self.max_events > 0 && size <= self.max_bytes;
        let ghost mut dropped: int = 0;
        assert(all.skip(0) =~= all);
        assert(self.events@.push(slot) =~= all.skip(0));
        while self.events.len() > 0 && (!fits || self.events.len() >= self.max_events || self.bytes
            > self.max_bytes - size)
            invariant
                0 <= dropped < all.len(),
                self.events@.push(slot) == all.skip(dropped),
                self.bytes == total_size(self.events@),
                self.next == seq,
                slot.size == size,
                limit == (self.max_events, self.max_bytes),
                fits == (limit.0 > 0 && size <= limit.1),
                retained(all, limit.0 as nat, limit.1 as nat) == retained(
                    all.skip(dropped),
                    limit.0 as nat,
                    limit.1 as nat,
                ),
            decreases self.events@.len(),
        {
            let ghost before = self.events@;
            proof {
                size_of_push(before, slot);
                assert(!within(all.skip(dropped), limit.0 as nat, limit.1 as nat));
                assert(all.skip(dropped).drop_first() =~= all.skip(dropped + 1));
                assert(before.push(slot).drop_first() =~= before.drop_first().push(slot));
            }
            if let Some(first) = self.events.pop_front() {
                assert(first == before[0]);
                assert(self.events@ =~= before.drop_first());
                self.bytes = self.bytes - first.size;
            }
            proof {
                dropped = dropped + 1;
            }
        }
        let ghost rest = self.events@;
        proof {
            size_of_push(rest, slot);
        }
        self.next = seq + 1;
        if fits {
            self.events.push_back(Slot { seq, event, size });
            self.bytes = self.bytes + size;
            assert(within(self.events@, limit.0 as nat, limit.1 as nat));
        } else {
            proof {
                assert(rest.len() == 0);
                assert(all.skip(dropped).len() == 1);
                assert(all.skip(dropped).drop_first() =~= Seq::<Slot>::empty());
                assert(rest =~= Seq::<Slot>::empty());
                assert(!within(all.skip(dropped), limit.0 as nat, limit.1 as nat));
                assert(retained(all.skip(dropped), limit.0 as nat, limit.1 as nat) == retained(
                    rest,
                    limit.0 as nat,
                    limit.1 as nat,
                ));
            }
        }
        assert forall|i: int| 0 <= i < self.events@.len() implies (
        #[trigger] self.events@[i]).seq == self.next - self.events@.len() + i by {
            assert(self.events@[i] == all.skip(dropped)[i]);
            if dropped + i < all.len() - 1 {
                assert(all[dropped + i] == old(self).slots()[dropped + i]);
            }
        }
        seq
    }

    /// The oldest available sequence number; the next one where nothing is
    /// buffered.
    pub fn oldest_available(&self) -> (r: u64)
        requires
            self.wf(),
        ensures
            r == self.following() - self.slots().len(),
            self.slots().len() > 0 ==> r == self.slots()[0].seq,
    {
        if self.events.len() > 0 {
            self.events[0].seq
        } else {
            self.next
        }
    }

    /// The buffered events numbered above `after`, in order.
    pub fn replay_after(&self, after: u64) -> (r: Vec<(u64, &DaemonStreamEvent)>)
        requires
            self.wf(),
        ensures
            is_replay(r@, later_slots(self.slots(), after)),
    {
        let mut out: Vec<(u64, &DaemonStreamEvent)> = Vec::new();
        let mut i: usize = 0;
        let ghost all = self.events@;
        assert(all.take(0) =~= Seq::<Slot>::empty());
        assert(later_slots(all.take(0), after) =~= Seq::<Slot>::empty());
        while i < self.events.len()
            invariant
                i <= all.len(),
                all == self.events@,
                is_replay(out@, later_slots(all.take(i as int), after)),
            decreases all.len() - i,
        {
            proof {
                assert(all.take(i + 1).drop_last() =~= all.take(i as int));
                assert(all.take(i + 1).last() == all[i as int]);
            }
            let slot = &self.events[i];
            if slot.seq > after {
                out.push((slot.seq, &slot.event));
            }
            i += 1;
        }
        assert(all.take(i as int) =~= all);
        out
    }

    /// The sequence number of the next event.
    pub fn next_seq(&self) -> (r: u64)
        ensures
            r == self.following(),
    {
        self.next
    }
}

/// The events numbered above `after`.
pub open spec fn later_slots(slots: Seq<Slot>, after: u64) -> Seq<Slot>
    decreases slots.len(),
{
    if slots.len() == 0 {
        Seq::empty()
    } else if slots.last().seq > after {
        later_slots(slots.drop_last(), after).push(slots.last())
    } else {
        later_slots(slots.drop_last(), after)
    }
}

/// Whether numbered events are those of buffered ones.
pub open spec fn is_replay(r: Seq<(u64, &DaemonStreamEvent)>, slots: Seq<Slot>) -> bool {
    &&& r.len() == slots.len()
    &&& forall|i: int|
        0 <= i < r.len() ==> (#[trigger] r[i]).0 == slots[i].seq && *r[i].1 == slots[i].event
}

proof fn size_of_push(slots: Seq<Slot>, slot: Slot)
    ensures
        total_size(slots.push(slot)) == total_size(slots) + slot.size,
    decreases slots.len(),
{
    if slots.len() > 0 {
        assert(slots.push(slot).drop_first() =~= slots.drop_first().push(slot));
        size_of_push(slots.drop_first(), slot);
    } else {
        assert(slots.push(slot).drop_first() =~= slots);
    }
}

/// What is kept are the newest events, within the limits, and one more would
/// be past them.
pub proof fn retained_is_longest(slots: Seq<Slot>, max_events: nat, max_bytes: nat)
    ensures
        ({
            let kept = retained(slots, max_events, max_bytes);
            &&& kept.len() <= slots.len()
            &&& kept == slots.skip(slots.len() - kept.len())
            &&& within(kept, max_events, max_bytes)
            &&& kept.len() < slots.len() ==> !within(
                slots.skip(slots.len() - kept.len() - 1),
                max_events,
                max_bytes,
            )
        }),
    decreases slots.len(),
{
    let kept = retained(slots, max_events, max_bytes);
    if slots.len() == 0 || within(slots, max_events, max_bytes) {
        assert(slots.skip(0) =~= slots);
    } else {
        let rest = slots.drop_first();
        retained_is_longest(rest, max_events, max_bytes);
        assert(rest.skip(rest.len() - kept.len()) =~= slots.skip(slots.len() - kept.len()));
        if kept.len() < rest.len() {
            assert(rest.skip(rest.len() - kept.len() - 1) =~= slots.skip(
                slots.len() - kept.len() - 1,
            ));
        } else {
            assert(slots.skip(0) =~= slots);
        }
    }
}

/// What a push leaves: the newest events, the new one among them, as many as the
/// limits let, and only the oldest are dropped. An event past the byte limit, or
/// a buffer for no events, leaves nothing, and the next number is then the oldest
/// one available.
pub proof fn push_keeps_the_newest(before: ReplayBuffer, after: ReplayBuffer, slot: Slot)
    requires
        before.wf(),
        after.wf(),
        after.following() == before.following() + 1,
        slot.seq == before.following(),
        after.slots() == retained(
            before.slots().push(slot),
            before.event_limit() as nat,
            before.byte_limit() as nat,
        ),
    ensures
        ({
            let all = before.slots().push(slot);
            let kept = after.slots();
            &&& kept.len() <= all.len()
            &&& kept == all.skip(all.len() - kept.len())
            &&& within(kept, before.event_limit() as nat, before.byte_limit() as nat)
            &&& kept.len() < all.len() ==> !within(
                all.skip(all.len() - kept.len() - 1),
                before.event_limit() as nat,
                before.byte_limit() as nat,
            )
            &&& slot.size > before.byte_limit() || before.event_limit() == 0 ==> kept.len() == 0
                && after.following() - kept.len() == slot.seq + 1
            &&& slot.size <= before.byte_limit() && before.event_limit() > 0 ==> kept.len() > 0
                && kept.last() == slot
        }),
{
    let all = before.slots().push(slot);
    let kept = after.slots();
    retained_is_longest(all, before.event_limit() as nat, before.byte_limit() as nat);
    if kept.len() > 0 {
        assert(kept.last() == slot);
        assert(kept =~= kept.drop_last().push(slot));
        size_of_push(kept.drop_last(), slot);
    } else {
        assert(all.skip(all.len() - 1) =~= seq![slot]);
        assert(seq![slot].drop_first() =~= Seq::<Slot>::empty());
        assert(total_size(seq![slot].drop_first()) == 0);
        assert(total_size(seq![slot]) == slot.size);
    }
}

/// A replay is lossless: where the events after a point are still buffered,
/// it gives every one of them, in order and without a gap.
pub proof fn replay_is_lossless(buffer: ReplayBuffer, after: u64)
    requires
        buffer.wf(),
        buffer.following() - buffer.slots().len() <= after + 1,
        after < buffer.following(),
    ensures
        ({
            let replayed = later_slots(buffer.slots(), after);
            &&& replayed.len() == buffer.following() - 1 - after
            &&& forall|i: int|
                0 <= i < replayed.len() ==> (#[trigger] replayed[i]).seq == after + 1 + i
        }),
{
    let slots = buffer.slots();
    let oldest = buffer.following() - slots.len();
    later_of_contiguous(slots, oldest, after);
}

proof fn later_of_contiguous(slots: Seq<Slot>, oldest: int, after: u64)
    requires
        forall|i: int| 0 <= i < slots.len() ==> (#[trigger] slots[i]).seq == oldest + i,
        oldest <= after + 1,
    ensures
        ({
            let replayed = later_slots(slots, after);
            let end = oldest + slots.len();
            &&& replayed.len() == (if end > after + 1 {
                end - 1 - after
            } else {
                0
            })
            &&& forall|i: int|
                0 <= i < replayed.len() ==> (#[trigger] replayed[i]).seq == after + 1 + i
        }),
    decreases slots.len(),
{
    if slots.len() > 0 {
        later_of_contiguous(slots.drop_last(), oldest, after);
        assert(slots.last().seq == oldest + slots.len() - 1);
    }
}

/// Where a stream of events stands: the number of the last event that was
/// delivered.
pub struct EventCursor {
    last: u64,
}

impl EventCursor {
    /// The number of the last event that was delivered.
    pub closed spec fn at(self) -> u64 {
        self.last
    }

    /// A cursor behind the event numbered `after`.
    pub fn new(after: u64) -> (r: Self)
        ensures
            r.at() == after,
    {
        EventCursor { last: after }
    }

    /// Whether an event is to be delivered: only one that is numbered above
    /// all that were delivered before.
    pub fn pass(&mut self, seq: u64) -> (r: bool)
        ensures
            r == (seq > old(self).at()),
            final(self).at() == (if r {
                seq
            } else {
                old(self).at()
            }),
    {
        if seq > self.last {
            self.last = seq;
            true
        } else {
            false
        }
    }
}

/// Where a cursor stands after it was shown events.
pub open spec fn cursor_after(at: u64, seqs: Seq<u64>) -> u64
    decreases seqs.len(),
{
    if seqs.len() == 0 {
        at
    } else {
        let before = cursor_after(at, seqs.drop_last());
        if seqs.last() > before {
            seqs.last()
        } else {
            before
        }
    }
}

/// The events that a cursor lets through.
pub open spec fn passed_through(at: u64, seqs: Seq<u64>) -> Seq<u64>
    decreases seqs.len(),
{
    if seqs.len() == 0 {
        Seq::empty()
    } else if seqs.last() > cursor_after(at, seqs.drop_last()) {
        passed_through(at, seqs.drop_last()).push(seqs.last())
    } else {
        passed_through(at, seqs.drop_last())
    }
}

/// A stream that joins a replay and live events delivers each event at most
/// once and in order: what is let through ascends strictly, from above the
/// starting point.
pub proof fn delivered_once_in_order(at: u64, seqs: Seq<u64>)
    ensures
        ({
            let passed = passed_through(at, seqs);
            &&& forall|i: int| 0 <= i < passed.len() ==> at < #[trigger] passed[i]
            &&& forall|i: int, j: int|
                0 <= i < j < passed.len() ==> #[trigger] passed[i] < #[trigger] passed[j]
        }),
{
    passed_ascend(at, seqs);
}

proof fn passed_ascend(at: u64, seqs: Seq<u64>)
    ensures
        ({
            let passed = passed_through(at, seqs);
            &&& forall|i: int|
                0 <= i < passed.len() ==> at < #[trigger] passed[i] <= cursor_after(at, seqs)
            &&& forall|i: int, j: int|
                0 <= i < j < passed.len() ==> #[trigger] passed[i] < #[trigger] passed[j]
            &&& at <= cursor_after(at, seqs)
        }),
    decreases seqs.len(),
{
    if seqs.len() > 0 {
        passed_ascend(at, seqs.drop_last());
        let before = passed_through(at, seqs.drop_last());
        let passed = passed_through(at, seqs);
        assert forall|i: int| 0 <= i < passed.len() implies at < #[trigger] passed[i]
            <= cursor_after(at, seqs) by {
            if i < before.len() {
                assert(passed[i] == before[i]);
            }
        }
        assert forall|i: int, j: int| 0 <= i < j < passed.len() implies #[trigger] passed[i]
            < #[trigger] passed[j] by {
            assert(passed[i] == before[i]);
            if j < before.len() {
                assert(passed[j] == before[j]);
            }
        }
    }
}

/// Whether a client must be told that events before those it gets are gone.
pub fn replay_gap(after: u64, oldest: u64) -> (r: Option<DaemonStreamEvent>)
    ensures
        r == (if after > 0 && oldest > after {
            Some(DaemonStreamEvent::ReplayGap { oldest_available: oldest })
        } else {
            None
        }),
        r is None <==> after == 0 || oldest <= after,
{
    if after > 0 && oldest > after {
        Some(DaemonStreamEvent::ReplayGap { oldest_available: oldest })
    } else {
        None
    }
}

/// A client that is not told of a gap misses nothing: every event after its
/// point is buffered.
pub proof fn no_gap_means_lossless(buffer: ReplayBuffer, after: u64)
    requires
        buffer.wf(),
        0 < after < buffer.following(),
        !(after > 0 && buffer.following() - buffer.slots().len() > after),
    ensures
        later_slots(buffer.slots(), after).len() == buffer.following() - 1 - after,
{
    replay_is_lossless(buffer, after);
}

/// The status that an event puts a live task in, if it says so.
pub open spec fn event_status(event: AgentEvent) -> Option<TaskStatus> {
    match event {
        AgentEvent::Started => Some(TaskStatus::Working),
        AgentEvent::StatusChanged(status) => Some(status),
        AgentEvent::Completed => Some(TaskStatus::Completed),
        AgentEvent::Failed(_) => Some(TaskStatus::Failed),
        _ => None,
    }
}

/// The status that an event puts a live task in, if it says so.
pub fn status_of_event(event: &AgentEvent) -> (r: Option<TaskStatus>)
    ensures
        r == event_status(*event),
{
    match event {
        AgentEvent::Started => Some(TaskStatus::Working),
        AgentEvent::StatusChanged(status) => Some(*status),
        AgentEvent::Completed => Some(TaskStatus::Completed),
        AgentEvent::Failed(_) => Some(TaskStatus::Failed),
        _ => None,
    }
}

/// How many events of a live task are kept for a replay.
pub const REPLAY_EVENTS: usize = 512;

/// How many bytes of events of a live task are kept for a replay.
pub const REPLAY_BYTES: usize = 2097152;

/// A live task owned by the daemon.
pub struct LiveTask {
    pub task_id: Uuid,
    pub context_id: Uuid,
    pub agent_session_id: Uuid,
    pub agent_id: String,
    pub run_id: Uuid,
    pub status: TaskStatus,
    pub replay: ReplayBuffer,
}

impl LiveTask {
    /// What holds of every live task.
    pub open spec fn wf(self) -> bool {
        self.replay.wf() && self.replay.event_limit() == REPLAY_EVENTS && self.replay.byte_limit()
            == REPLAY_BYTES
    }

    /// What the two tasks have in common beside their progress.
    pub open spec fn same_run(self, other: LiveTask) -> bool {
        self.task_id == other.task_id && self.context_id == other.context_id
            && self.agent_session_id == other.agent_session_id && self.agent_id == other.agent_id
            && self.run_id == other.run_id
    }

    /// A task that was just submitted, with nothing to replay.
    pub fn new(run: &RunResponse, run_id: Uuid) -> (r: Self)
        ensures
            r.wf(),
            r.task_id == run.task_id,
            r.context_id == run.context_id,
            r.agent_session_id == run.agent_session_id,
            r.agent_id == run.agent_id,
            r.run_id == run_id,
            r.status == TaskStatus::Submitted,
            r.replay.slots().len() == 0,
            r.replay.following() == 1,
    {
        LiveTask {
            task_id: run.task_id,
            context_id: run.context_id,
            agent_session_id: run.agent_session_id,
            agent_id: run.agent_id.clone(),
            run_id,
            status: TaskStatus::Submitted,
            replay: ReplayBuffer::new(REPLAY_EVENTS, REPLAY_BYTES),
        }
    }

    /// The metadata that every stream of the task starts with.
    pub fn info(&self) -> (r: DaemonStreamEvent)
        ensures
            r == (DaemonStreamEvent::TaskInfo {
                task_id: self.task_id,
                context_id: self.context_id,
                agent_session_id: self.agent_session_id,
                agent_id: self.agent_id,
            }),
    {
        DaemonStreamEvent::TaskInfo {
            task_id: self.task_id,
            context_id: self.context_id,
            agent_session_id: self.agent_session_id,
            agent_id: self.agent_id.clone(),
        }
    }

    /// Adds an event of the given size to the replay and gives its sequence
    /// number.
    pub fn push(&mut self, event: DaemonStreamEvent, size: usize) -> (r: u64)
        requires
            old(self).wf(),
            old(self).replay.following() < u64::MAX,
        ensures
            final(self).wf(),
            final(self).same_run(*old(self)),
            final(self).status == old(self).status,
            r == old(self).replay.following(),
            final(self).replay.following() == r + 1,
            final(self).replay.slots() == retained(
                old(self).replay.slots().push(Slot { seq: r, event, size }),
                REPLAY_EVENTS as nat,
                REPLAY_BYTES as nat,
            ),
    {
        self.replay.push(event, size)
    }

    /// Takes the status that an event says. Gives whether the task has thereby
    /// ended, so that its session is free again.
    pub fn observe(&mut self, event: &AgentEvent) -> (r: bool)
        requires
            old(self).wf(),
        ensures
            final(self).wf(),
            final(self).same_run(*old(self)),
            final(self).replay == old(self).replay,
            match event_status(*event) {
                Some(status) => final(self).status == status && r == terminal(status),
                None => final(self).status == old(self).status && !r,
            },
    {
        match status_of_event(event) {
            Some(status) => {
                self.status = status;
                status.is_terminal()
            },
            None => false,
        }
    }
}

/// What is told of a live task: its id, agent, session and status.
pub open spec fn live_row(task: LiveTask) -> (Uuid, String, Uuid, TaskStatus) {
    (task.task_id, task.agent_id, task.agent_session_id, task.status)
}

/// Daemon-memory registry of live tasks.
pub struct LiveTaskRegistry {
    tasks: HashMap<u128, LiveTask>,
}

impl LiveTaskRegistry {
    /// The live tasks, by the bits of their ids.
    pub closed spec fn tasks(self) -> Map<u128, LiveTask> {
        self.tasks@
    }

    /// What holds of every registry: each task stands under its own id.
    pub open spec fn wf(self) -> bool {
        &&& self.tasks().dom().finite()
        &&& forall|k: u128| #[trigger]
            self.tasks().contains_key(k) ==> self.tasks()[k].wf() && self.tasks()[k].task_id.bits
                == k
    }

    /// An empty registry.
    pub fn new() -> (r: Self)
        ensures
            r.wf(),
            r.tasks() == Map::<u128, LiveTask>::empty(),
    {
        LiveTaskRegistry { tasks: HashMap::new() }
    }

    /// Adds a task; one with the same id is replaced.
    pub fn insert(&mut self, task: LiveTask)
        requires
            old(self).wf(),
            task.wf(),
        ensures
            final(self).wf(),
            final(self).tasks() == old(self).tasks().insert(task.task_id.bits, task),
    {
        let _ = self.tasks.insert(task.task_id.bits, task);
    }

    /// The task with an id.
    pub fn get(&self, task_id: Uuid) -> (r: Option<&LiveTask>)
        ensures
            match r {
                Some(task) => self.tasks().contains_key(task_id.bits) && *task
                    == self.tasks()[task_id.bits],
                None => !self.tasks().contains_key(task_id.bits),
            },
    {
        self.tasks.get(&task_id.bits)
    }

    /// Removes the task with an id, if there is one.
    pub fn remove(&mut self, task_id: Uuid) -> (r: Option<LiveTask>)
        requires
            old(self).wf(),
        ensures
            final(self).wf(),
            final(self).tasks() == old(self).tasks().remove(task_id.bits),
            match r {
                Some(task) => old(self).tasks().contains_key(task_id.bits) && task == old(
                    self,
                ).tasks()[task_id.bits],
                None => !old(self).tasks().contains_key(task_id.bits),
            },
    {
        self.tasks.remove(&task_id.bits)
    }

    /// Live tasks with their current status, each once, in no fixed order: id,
    /// agent, session and status.
    pub fn list(&self) -> (r: Vec<(Uuid, String, Uuid, TaskStatus)>)
        requires
            self.wf(),
        ensures
            r@.len() == self.tasks().dom().len(),
            forall|i: int|
                0 <= i < r@.len() ==> self.tasks().contains_key((#[trigger] r@[i]).0.bits) && r@[i]
                    == live_row(self.tasks()[r@[i].0.bits]),
            forall|k: u128| #[trigger]
                self.tasks().contains_key(k) ==> r@.contains(live_row(self.tasks()[k])),
    {
        let mut out: Vec<(Uuid, String, Uuid, TaskStatus)> = Vec::new();
        let ghost all = self.tasks.iter().remaining();
        for entry in it: self.tasks.iter()
            invariant
                it.seq() == all,
                out@.len() == it.index(),
                forall|i: int| 0 <= i < it.index() ==> #[trigger] out@[i] == live_row(*all[i].1),
        {
            let task = entry.1;
            out.push((task.task_id, task.agent_id.clone(), task.agent_session_id, task.status));
        }
        proof {
            assert(out@.len() == all.len());
            assert forall|i: int| 0 <= i < out@.len() implies self.tasks().contains_key(
                (#[trigger] out@[i]).0.bits,
            ) && out@[i] == live_row(self.tasks()[out@[i].0.bits]) by {
                assert(self.tasks@.contains_key(*all[i].0));
                assert(self.tasks().contains_key(*all[i].0));
            }
            assert forall|k: u128| #[trigger] self.tasks().contains_key(k) implies out@.contains(
                live_row(self.tasks()[k]),
            ) by {
                assert(self.tasks@.contains_key(k));
                assert(all.contains((&k, &self.tasks@[k])));
                let i = choose|i: int| 0 <= i < all.len() && all[i] == (&k, &self.tasks@[k]);
                assert(out@[i] == live_row(self.tasks()[k]));
            }
        }
        out
    }

    /// How many tasks are live.
    pub fn live_count(&self) -> (r: usize)
        ensures
            r == self.tasks().dom().len(),
    {
        self.tasks.len()
    }
}

/// Events are within the limits exactly when they are no more than the buffer
/// may hold, in number and in bytes; each counts its own size once.
pub proof fn limits_bound_number_and_bytes(
    slots: Seq<Slot>,
    slot: Slot,
    max_events: nat,
    max_bytes: nat,
)
    ensures
        total_size(Seq::empty()) == 0,
        total_size(slots.push(slot)) == total_size(slots) + slot.size,
        within(slots, max_events, max_bytes) <==> slots.len() <= max_events && total_size(slots)
            <= max_bytes,
{
    size_of_push(slots, slot);
}

/// A replay gives exactly the buffered events after a point: one more event is
/// given exactly when its number is beyond that point, and after all others.
pub proof fn replay_gives_what_is_later(slots: Seq<Slot>, slot: Slot, after: u64)
    ensures
        later_slots(Seq::empty(), after).len() == 0,
        slot.seq > after ==> later_slots(slots.push(slot), after) == later_slots(slots, after).push(
            slot,
        ),
        slot.seq <= after ==> later_slots(slots.push(slot), after) == later_slots(slots, after),
{
    assert(slots.push(slot).drop_last() =~= slots);
}

/// An event that is beyond all events seen so far is delivered, and one that was
/// seen before is not.
pub proof fn new_events_are_delivered(at: u64, seqs: Seq<u64>, next: u64)
    ensures
        at < next && (forall|i: int| 0 <= i < seqs.len() ==> #[trigger] seqs[i] < next)
            ==> passed_through(at, seqs.push(next)) == passed_through(at, seqs).push(next),
        next <= at || seqs.contains(next) ==> passed_through(at, seqs.push(next))
            == passed_through(at, seqs),
{
    let more = seqs.push(next);
    assert(more.drop_last() =~= seqs);
    cursor_is_the_highest(at, seqs);
    if seqs.contains(next) {
        let i = choose|i: int| 0 <= i < seqs.len() && seqs[i] == next;
        assert(seqs[i] <= cursor_after(at, seqs));
    }
}

proof fn cursor_is_the_highest(at: u64, seqs: Seq<u64>)
    ensures
        at <= cursor_after(at, seqs),
        forall|i: int| 0 <= i < seqs.len() ==> #[trigger] seqs[i] <= cursor_after(at, seqs),
        cursor_after(at, seqs) == at || seqs.contains(cursor_after(at, seqs)),
    decreases seqs.len(),
{
    if seqs.len() > 0 {
        let rest = seqs.drop_last();
        cursor_is_the_highest(at, rest);
        assert forall|i: int| 0 <= i < seqs.len() implies #[trigger] seqs[i] <= cursor_after(
            at,
            seqs,
        ) by {
            if i < rest.len() {
                assert(rest[i] == seqs[i]);
            }
        }
        if cursor_after(at, seqs) == seqs.last() {
            assert(seqs[seqs.len() - 1] == seqs.last());
        } else if rest.contains(cursor_after(at, rest)) {
            let i = choose|i: int| 0 <= i < rest.len() && rest[i] == cursor_after(at, rest);
            assert(seqs[i] == rest[i]);
        }
    }
}

/// What an event makes of a task: a start makes it work, a completion complete
/// and a failure failed; a change of status makes it what it says, and a message
/// or an artifact changes nothing.
pub proof fn events_move_the_task(event: AgentEvent)
    ensures
        event is Started ==> event_status(event) == Some(TaskStatus::Working),
        event is Completed ==> event_status(event) == Some(TaskStatus::Completed),
        event is Failed ==> event_status(event) == Some(TaskStatus::Failed),
        event matches AgentEvent::StatusChanged(status) ==> event_status(event) == Some(status),
        event is Message || event is ArtifactUpdated <==> event_status(event) is None,
{
}

/// A listed task is shown under its own ids and status.
pub proof fn listed_task_is_itself(task: LiveTask)
    ensures
        live_row(task).0 == task.task_id,
        live_row(task).1 == task.agent_id,
        live_row(task).2 == task.agent_session_id,
        live_row(task).3 == task.status,
{
}

/// What is replayed are the buffered events themselves, under their numbers; a
/// task keeps its ids whatever is pushed or observed.
pub proof fn replayed_events_are_the_buffered_ones(
    r: Seq<(u64, &DaemonStreamEvent)>,
    slots: Seq<Slot>,
    i: int,
    task: LiveTask,
    other: LiveTask,
)
    requires
        is_replay(r, slots),
        0 <= i < slots.len(),
        task.same_run(other),
    ensures
        r.len() == slots.len(),
        r[i].0 == slots[i].seq,
        *r[i].1 == slots[i].event,
        task.task_id == other.task_id && task.context_id == other.context_id,
        task.agent_session_id == other.agent_session_id && task.agent_id == other.agent_id,
        task.run_id == other.run_id,
{
}

} // verus!
