//! The order in which blocks of the data-availability layer reach the state:
//! the blocks of the past first, by ascending height, and the blocks that
//! arrive meanwhile only once the past has been replayed.

use vstd::prelude::*;

verus! {

/// What the replay of the past asks for next.
#[derive(Debug, Clone, Copy, PartialEq, Eq, Structural)]
pub enum ReplayStep {
    /// The network's head height is not known yet: ask for it.
    AwaitHead,
    /// Fetch the block at this height and replay it.
    Fetch(u64),
    /// Every height below the head has been replayed.
    Exhausted,
}

/// What is known of the synchronization, as plain values.
pub struct SyncView {
    /// The next height of the past to replay.
    pub next_height: u64,
    /// The network's head height, once known. Replay stops below it.
    pub head: Option<u64>,
    /// Whether the replay of the past has been declared complete.
    pub complete: bool,
    /// The live blocks that wait for the replay to complete, oldest first.
    /// A block is the list of its blobs.
    pub held: Seq<Seq<Seq<u8>>>,
}

impl SyncView {
    /// Once the replay is complete, no height of the past is left and no live
    /// block waits.
    pub open spec fn wf(self) -> bool {
        self.complete ==> self.held.len() == 0 && self.head is Some && self.next_height
            >= self.head->Some_0
    }

    /// Where synchronization starts.
    pub open spec fn start(start_height: u64) -> SyncView {
        SyncView { next_height: start_height, head: None, complete: false, held: Seq::empty() }
    }

    /// What the replay asks for next.
    pub open spec fn next_step(self) -> ReplayStep {
        match self.head {
            None => ReplayStep::AwaitHead,
            Some(head) => if self.next_height < head {
                ReplayStep::Fetch(self.next_height)
            } else {
                ReplayStep::Exhausted
            },
        }
    }

    /// The head height becomes known. A later report does not move it.
    pub open spec fn with_head(self, head: u64) -> SyncView {
        match self.head {
            None => SyncView { head: Some(head), ..self },
            Some(_) => self,
        }
    }

    /// The block at the next height has been replayed.
    pub open spec fn replayed(self) -> SyncView {
        match self.next_step() {
            ReplayStep::Fetch(height) => SyncView { next_height: (height + 1) as u64, ..self },
            _ => self,
        }
    }

    /// Whether the completion signal fires now: the past is exhausted and the
    /// signal has not fired before.
    pub open spec fn may_finish(self) -> bool {
        !self.complete && self.next_step() == ReplayStep::Exhausted
    }

    /// The state after the completion signal.
    pub open spec fn finished(self) -> SyncView {
        if self.may_finish() {
            SyncView { complete: true, held: Seq::empty(), ..self }
        } else {
            self
        }
    }

    /// The blocks that the completion signal releases, oldest first.
    pub open spec fn released(self) -> Option<Seq<Seq<Seq<u8>>>> {
        if self.may_finish() {
            Some(self.held)
        } else {
            None
        }
    }

    /// The state after a live block has arrived.
    pub open spec fn with_live_block(self, block: Seq<Seq<u8>>) -> SyncView {
        if self.complete {
            self
        } else {
            SyncView { held: self.held.push(block), ..self }
        }
    }

    /// The block to apply now that a live block has arrived: that block, once
    /// the replay is complete; none before.
    pub open spec fn live_block_due(self, block: Seq<Seq<u8>>) -> Option<Seq<Seq<u8>>> {
        if self.complete {
            Some(block)
        } else {
            None
        }
    }
}

/// The synchronization of a node with the data-availability layer.
pub struct SyncState {
    next_height: u64,
    head: Option<u64>,
    complete: bool,
    held: Vec<Vec<Vec<u8>>>,
}

impl View for SyncState {
    type V = SyncView;

    closed spec fn view(&self) -> SyncView {
        SyncView {
            next_height: self.next_height,
            head: self.head,
            complete: self.complete,
            held: self.held.deep_view(),
        }
    }
}

impl SyncState {
    /// Synchronization that will replay the past from `start_height` on.
    pub fn new(start_height: u64) -> (sync: Self)
        ensures
            sync@ == SyncView::start(start_height),
            sync@.wf(),
    {
        let sync = SyncState { next_height: start_height, head: None, complete: false, held: Vec::new() };
        assert(sync.held.deep_view() =~= Seq::<Seq<Seq<u8>>>::empty());
        sync
    }

    /// Whether the replay of the past has been declared complete.
    pub fn is_complete(&self) -> (complete: bool)
        ensures
            complete == self@.complete,
    {
        self.complete
    }

    /// The number of live blocks that wait.
    pub fn held_blocks(&self) -> (n: usize)
        ensures
            n == self@.held.len(),
    {
        self.held.len()
    }

    /// Records the network's head height. A later report does not move it.
    pub fn set_head(&mut self, head: u64)
        ensures
            final(self)@ == old(self)@.with_head(head),
            old(self)@.wf() ==> final(self)@.wf(),
    {
        if self.head.is_none() {
            self.head = Some(head);
        }
    }

    /// What the replay asks for next.
    pub fn next_step(&self) -> (step: ReplayStep)
        ensures
            step == self@.next_step(),
    {
        match self.head {
            None => ReplayStep::AwaitHead,
            Some(head) => if self.next_height < head {
                ReplayStep::Fetch(self.next_height)
            } else {
                ReplayStep::Exhausted
            },
        }
    }

    /// Records that the block at the next height has been replayed.
    pub fn block_replayed(&mut self)
        ensures
            final(self)@ == old(self)@.replayed(),
            old(self)@.wf() ==> final(self)@.wf(),
    {
        match self.next_step() {
            ReplayStep::Fetch(height) => {
                self.next_height = height + 1;
            },
            _ => {},
        }
    }

    /// Fires the completion signal where the past is exhausted and the signal
    /// has not fired before, and hands out the live blocks that waited, oldest
    /// first: they are to be applied now. Otherwise nothing changes.
    pub fn finish_replay(&mut self) -> (released: Option<Vec<Vec<Vec<u8>>>>)
        ensures
            final(self)@ == old(self)@.finished(),
            old(self)@.wf() ==> final(self)@.wf(),
            match old(self)@.released() {
                Some(blocks) => released is Some && released->Some_0.deep_view() == blocks,
                None => released is None,
            },
    {
        if self.complete {
            return None;
        }
        match self.next_step() {
            ReplayStep::Exhausted => {
                let mut blocks: Vec<Vec<Vec<u8>>> = Vec::new();
                std::mem::swap(&mut blocks, &mut self.held);
                self.complete = true;
                assert(self.held.deep_view() =~= Seq::<Seq<Seq<u8>>>::empty());
                Some(blocks)
            },
            _ => None,
        }
    }

    /// Takes a live block. Once the replay is complete the block is handed
    /// back to be applied now; before, it is kept behind those that wait.
    pub fn on_live_block(&mut self, block: Vec<Vec<u8>>) -> (due: Option<Vec<Vec<u8>>>)
        ensures
            final(self)@ == old(self)@.with_live_block(block.deep_view()),
            old(self)@.wf() ==> final(self)@.wf(),
            match old(self)@.live_block_due(block.deep_view()) {
                Some(now) => due is Some && due->Some_0.deep_view() == now,
                None => due is None,
            },
    {
        if self.complete {
            Some(block)
        } else {
            let ghost before = self.held.deep_view();
            self.held.push(block);
            assert(self.held.deep_view() =~= before.push(block.deep_view()));
            None
        }
    }
}

/// How one of the two synchronization tasks ended.
#[derive(Debug)]
pub enum TaskEnd {
    /// The task ran to its end.
    Finished,
    /// The task gave up, with this reason.
    Failed(String),
    /// The task was lost before it could end, with this reason.
    Lost(String),
}

/// Why synchronization as a whole failed.
#[derive(Debug)]
pub enum SyncFailure {
    /// A task was lost.
    Join(String),
    /// A task gave up.
    Task(String),
}

/// What the two ends amount to. Synchronization succeeded where both tasks ran
/// to their end. A lost task outweighs a task that gave up, and the replay of
/// the past outweighs the live subscription.
pub open spec fn spec_sync_outcome(historical: TaskEnd, live: TaskEnd) -> Result<(), SyncFailure> {
    match (historical, live) {
        (TaskEnd::Finished, TaskEnd::Finished) => Ok(()),
        (TaskEnd::Lost(reason), _) => Err(SyncFailure::Join(reason)),
        (_, TaskEnd::Lost(reason)) => Err(SyncFailure::Join(reason)),
        (TaskEnd::Failed(reason), _) => Err(SyncFailure::Task(reason)),
        (_, TaskEnd::Failed(reason)) => Err(SyncFailure::Task(reason)),
    }
}

/// Decides what the ends of the replay of the past and of the live
/// subscription amount to.
pub fn sync_outcome(historical: TaskEnd, live: TaskEnd) -> (r: Result<(), SyncFailure>)
    ensures
        r == spec_sync_outcome(historical, live),
{
    match (historical, live) {
        (TaskEnd::Finished, TaskEnd::Finished) => Ok(()),
        (TaskEnd::Lost(reason), _) => Err(SyncFailure::Join(reason)),
        (_, TaskEnd::Lost(reason)) => Err(SyncFailure::Join(reason)),
        (TaskEnd::Failed(reason), _) => Err(SyncFailure::Task(reason)),
        (_, TaskEnd::Failed(reason)) => Err(SyncFailure::Task(reason)),
    }
}

/// What the end of one synchronization task amounts to: a task that ran to
/// its end is no failure; a task that gave up or was lost fails the
/// synchronization at once, whatever the other task does.
pub open spec fn spec_task_end(end: TaskEnd) -> Result<(), SyncFailure> {
    match end {
        TaskEnd::Finished => Ok(()),
        TaskEnd::Failed(reason) => Err(SyncFailure::Task(reason)),
        TaskEnd::Lost(reason) => Err(SyncFailure::Join(reason)),
    }
}

/// Decides what the end of one synchronization task amounts to.
pub fn on_task_end(end: TaskEnd) -> (r: Result<(), SyncFailure>)
    ensures
        r == spec_task_end(end),
{
    match end {
        TaskEnd::Finished => Ok(()),
        TaskEnd::Failed(reason) => Err(SyncFailure::Task(reason)),
        TaskEnd::Lost(reason) => Err(SyncFailure::Join(reason)),
    }
}

/// Both tasks taken together succeed exactly where neither end is a failure.
pub proof fn sync_succeeds_where_no_task_fails(historical: TaskEnd, live: TaskEnd)
    ensures
        spec_sync_outcome(historical, live) is Ok <==> spec_task_end(historical) is Ok
            && spec_task_end(live) is Ok,
{
}

/// The replay goes through the heights in strictly ascending order: the height
/// asked for after a block has been replayed is the one just above it, and no
/// height is asked for once the head is reached.
pub proof fn replay_ascends(sync: SyncView, height: u64)
    requires
        sync.wf(),
        sync.next_step() == ReplayStep::Fetch(height),
    ensures
        sync.replayed().wf(),
        sync.replayed().next_step() == ReplayStep::Fetch((height + 1) as u64)
            || sync.replayed().next_step() == ReplayStep::Exhausted,
        sync.replayed().next_height == height + 1,
        height + 1 <= sync.head->Some_0,
{
}

/// A live block that arrives before the completion signal is not applied on
/// arrival: it waits behind those that arrived before it, stays there while the
/// past is replayed, and is handed out by the signal, in order of arrival.
pub proof fn live_block_waits_for_replay(sync: SyncView, block: Seq<Seq<u8>>)
    requires
        sync.wf(),
        !sync.complete,
    ensures
        sync.live_block_due(block) is None,
        sync.with_live_block(block).held == sync.held.push(block),
        sync.with_live_block(block).replayed().held == sync.held.push(block),
        sync.with_live_block(block).may_finish() ==> sync.with_live_block(block).released()
            == Some(sync.held.push(block)),
        !sync.with_live_block(block).may_finish() ==> sync.with_live_block(block).released()
            is None,
{
}

/// The completion signal fires once: after it has fired, firing it again
/// releases nothing and changes nothing, and every live block is due on
/// arrival.
pub proof fn completion_fires_once(sync: SyncView, block: Seq<Seq<u8>>)
    requires
        sync.wf(),
        sync.may_finish(),
    ensures
        sync.finished().wf(),
        sync.finished().complete,
        sync.finished().released() is None,
        sync.finished().finished() == sync.finished(),
        sync.finished().live_block_due(block) == Some(block),
        sync.finished().with_live_block(block) == sync.finished(),
{
}

} // verus!
