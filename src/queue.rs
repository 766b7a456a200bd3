use vstd::prelude::*;

use std::collections::VecDeque;

use crate::model::{Card, Creature, Location, Scene, Story, TimelineEra, TimelineEvent};

verus! {

/// Which demo data set a scoped reset restores.
#[derive(Debug, Clone, Copy, PartialEq, Eq, Structural)]
pub enum DemoResetScope {
    All,
    Timeline,
    Locations,
    Bestiary,
    PmTools,
}

/// A write against the backing store. Each variant carries exactly what the
/// write needs; positions are key ticks.
#[derive(Debug, Clone, PartialEq)]
pub enum DbAction {
    CreateUniverse(String, String),
    DeleteUniverse(String),
    InjectDemoData(String),
    ResetDemoDataScoped(String, DemoResetScope),
    SnapshotCreate { universe_id: String, name: String },
    SnapshotDelete { snapshot_id: String },
    SnapshotRestore { snapshot_id: String },
    CreateBoard(String),
    DeleteBoard(String),
    SaveCreature(Creature, String),
    ArchiveCreature(String, bool),
    DeleteCreature(String),
    SaveLocation(Location),
    DeleteLocation(String),
    SaveEvent(TimelineEvent),
    DeleteEvent(String),
    SaveEra(TimelineEra),
    DeleteEra(String),
    SaveCard(Card),
    MoveCard(String, String, u64),
    RebalanceColumn(String),
    DeleteCard(String),
    CreateStory(String, String),
    UpdateStory(Story),
    DeleteStory(String),
    CreateScene(String, String),
    UpdateScene(Scene),
    DeleteScene(String),
    ReorderScene(String, i64),
}

/// The command in the single in-flight slot, as a sequence of zero or one.
pub open spec fn slot(in_flight: Option<DbAction>) -> Seq<DbAction> {
    match in_flight {
        Some(c) => seq![c],
        None => Seq::empty(),
    }
}

/// A FIFO backlog of writes with a single in-flight slot: at most one write
/// is outstanding against the store at any time.
///
/// `enqueued` and `completed` record, as ghost state, every command ever
/// enqueued and every command completed, in order.
pub struct MutationQueue {
    pub pending: VecDeque<DbAction>,
    pub in_flight: Option<DbAction>,
    pub enqueued: Ghost<Seq<DbAction>>,
    pub completed: Ghost<Seq<DbAction>>,
}

impl MutationQueue {
    /// Every enqueued command is completed, in flight or pending, in
    /// that order.
    pub open spec fn wf(&self) -> bool {
        self.enqueued@ == self.completed@ + slot(self.in_flight) + self.pending@
    }

    pub fn new() -> (r: MutationQueue)
        ensures
            r.wf(),
            r.pending@.len() == 0,
            r.in_flight is None,
            r.enqueued@.len() == 0,
            r.completed@.len() == 0,
    {
        MutationQueue {
            pending: VecDeque::new(),
            in_flight: None,
            enqueued: Ghost(Seq::empty()),
            completed: Ghost(Seq::empty()),
        }
    }

    /// Appends a command to the backlog. Never blocks and never fails.
    pub fn enqueue(&mut self, cmd: DbAction)
        requires
            old(self).wf(),
        ensures
            final(self).wf(),
            final(self).pending@ == old(self).pending@.push(cmd),
            final(self).in_flight == old(self).in_flight,
            final(self).enqueued@ == old(self).enqueued@.push(cmd),
            final(self).completed@ == old(self).completed@,
    {
        self.pending.push_back(cmd);
        self.enqueued = Ghost(self.enqueued@.push(cmd));
        assert(self.enqueued@ =~= self.completed@ + slot(self.in_flight) + self.pending@);
    }

    /// When no command is in flight and the backlog is not empty, promotes
    /// the front of the backlog to the in-flight slot and returns true: the
    /// caller then submits `in_flight` to the store. Otherwise changes nothing.
    pub fn drain_one(&mut self) -> (started: bool)
        requires
            old(self).wf(),
        ensures
            final(self).wf(),
            started == (old(self).in_flight is None && old(self).pending@.len() > 0),
            started ==> final(self).in_flight == Some(old(self).pending@[0])
                && final(self).pending@ == old(self).pending@.drop_first(),
            !started ==> final(self).in_flight == old(self).in_flight
                && final(self).pending@ == old(self).pending@,
            final(self).enqueued@ == old(self).enqueued@,
            final(self).completed@ == old(self).completed@,
    {
        if self.in_flight.is_some() {
            return false;
        }
        match self.pending.pop_front() {
            Some(cmd) => {
                self.in_flight = Some(cmd);
                assert(self.enqueued@ =~= self.completed@ + slot(self.in_flight) + self.pending@);
                true
            },
            None => false,
        }
    }

    /// Records the completion of the in-flight command, successful or not,
    /// and hands it back. With nothing in flight, changes nothing.
    pub fn complete(&mut self) -> (done: Option<DbAction>)
        requires
            old(self).wf(),
        ensures
            final(self).wf(),
            done == old(self).in_flight,
            final(self).in_flight is None,
            final(self).pending@ == old(self).pending@,
            final(self).enqueued@ == old(self).enqueued@,
            final(self).completed@ == old(self).completed@ + slot(old(self).in_flight),
    {
        let done = self.in_flight.take();
        self.completed = Ghost(self.completed@ + slot(done));
        assert(self.enqueued@ =~= self.completed@ + slot(self.in_flight) + self.pending@);
        done
    }

    /// Commands waiting behind the in-flight one.
    pub fn queue_depth(&self) -> (n: usize)
        ensures
            n == self.pending@.len(),
    {
        self.pending.len()
    }

    pub fn is_busy(&self) -> (b: bool)
        ensures
            b == self.in_flight is Some,
    {
        self.in_flight.is_some()
    }
}

/// Single flight: the backlog and the single in-flight slot together hold
/// exactly the commands enqueued and not yet completed.
pub proof fn lemma_single_flight(q: &MutationQueue)
    requires
        q.wf(),
    ensures
        q.pending@.len() + (if q.in_flight is Some { 1int } else { 0int })
            == q.enqueued@.len() - q.completed@.len(),
{
}

/// FIFO: the completed commands are always the first ones enqueued, in the
/// order they were enqueued; the in-flight command is the next one after them.
pub proof fn lemma_fifo(q: &MutationQueue)
    requires
        q.wf(),
    ensures
        q.completed@.len() <= q.enqueued@.len(),
        q.completed@ == q.enqueued@.subrange(0, q.completed@.len() as int),
        q.in_flight matches Some(c) ==> q.enqueued@[q.completed@.len() as int] == c,
        q.pending@ == q.enqueued@.subrange(q.enqueued@.len() - q.pending@.len(), q.enqueued@.len() as int),
{
    assert(q.completed@ =~= q.enqueued@.subrange(0, q.completed@.len() as int));
    assert(q.pending@ =~= q.enqueued@.subrange(q.enqueued@.len() - q.pending@.len(), q.enqueued@.len() as int));
}

} // verus!
