//! The node's own state and the decisions it takes: which transactions wait to
//! be posted, what a block of the data-availability layer does to the
//! directory, and when a block may be applied.

use crate::codec::{spec_decode_blob, spec_encode_batch};
use crate::config::Config;
use crate::digest::Digest;
use crate::error::NodeError;
use crate::state::{
    spec_batch_applied, spec_batch_decided, spec_staged, validation_can_answer, Account,
    BatchOutcome, State,
};
use crate::sync::{ReplayStep, SyncState, SyncView};
use crate::tree::DirectoryState;
use crate::tx::{spec_verify, views_of, Batch, Transaction, TransactionView};
use jmt::storage::{TreeReader, TreeWriter};
use std::sync::Arc;
use vstd::prelude::*;

verus! {

/// Whether `outcome` is what a blob comes to: an unreadable blob is refused as
/// such and decides nothing; a readable one gets the decisions of its batch.
pub open spec fn spec_blob_outcome(blob: Seq<u8>, outcome: BatchOutcome) -> bool {
    match spec_decode_blob(blob) {
        None => outcome.decisions@.len() == 0 && outcome.committed == Err::<(), NodeError>(
            NodeError::Decode,
        ),
        Some(txs) => spec_batch_decided(txs, outcome.decisions@),
    }
}

/// What the batch of a blob has left to be flushed, and whether the flush
/// succeeded: the staged accounts of a readable blob whose commit succeeded;
/// nothing otherwise.
pub open spec fn spec_blob_flushed(blob: Seq<u8>, outcome: BatchOutcome) -> Seq<(Seq<u8>, Seq<u8>)> {
    match spec_decode_blob(blob) {
        Some(txs) => if outcome.committed is Ok {
            spec_staged(txs, outcome.decisions@)
        } else {
            Seq::empty()
        },
        None => Seq::empty(),
    }
}

/// The directory after the blobs of a block came to `outcomes`, blob after
/// blob: every batch that left something and was committed moved it one epoch
/// on, with what the batch left flushed at that epoch.
pub open spec fn spec_block_applied(
    before: DirectoryState,
    blobs: Seq<Seq<u8>>,
    outcomes: Seq<BatchOutcome>,
) -> DirectoryState
    decreases blobs.len(),
{
    if blobs.len() == 0 || outcomes.len() != blobs.len() {
        before
    } else {
        let earlier = spec_block_applied(before, blobs.drop_last(), outcomes.drop_last());
        let flushed = spec_blob_flushed(blobs.last(), outcomes.last());
        if flushed.len() > 0 {
            spec_batch_applied(earlier, flushed)
        } else {
            earlier
        }
    }
}

/// What the posting task does after a batch was handed to the
/// data-availability layer.
#[derive(Debug, Clone, Copy, PartialEq, Eq, Structural)]
pub enum PostingStep {
    /// Wait for the next interval and post again.
    Sleep,
    /// End the task: the submission failed, which is fatal.
    Stop,
}

/// Decides what the posting task does next. `posted` says whether the
/// submission succeeded; an empty batch, for which nothing is submitted,
/// counts as posted.
pub fn after_post(posted: bool) -> (next: PostingStep)
    ensures
        next == (if posted {
            PostingStep::Sleep
        } else {
            PostingStep::Stop
        }),
{
    if posted {
        PostingStep::Sleep
    } else {
        PostingStep::Stop
    }
}

/// What the node keeps, as plain values.
pub struct NodeView {
    /// The directory's epoch, and whether writes wait to be flushed.
    pub directory: DirectoryState,
    /// The transactions that wait to be posted, oldest first.
    pub pending: Seq<TransactionView>,
    /// Where the synchronization stands.
    pub sync: SyncView,
}

/// A rollup node without its connections: the state that transactions change,
/// the transactions that wait to be posted, and the synchronization.
pub struct Node<S> {
    cfg: Config,
    state: State<S>,
    pending_transactions: Vec<Transaction>,
    sync: SyncState,
}

impl<S> View for Node<S> {
    type V = NodeView;

    closed spec fn view(&self) -> NodeView {
        NodeView {
            directory: self.state@,
            pending: views_of(self.pending_transactions@),
            sync: self.sync@,
        }
    }
}

impl<S: TreeReader + TreeWriter> Node<S> {
    /// A node over a new directory in `store`, with nothing waiting and the
    /// replay of the past still to begin at the configured height.
    pub fn new(cfg: Config, store: Arc<S>) -> (r: Result<Self, NodeError>)
        ensures
            r matches Ok(node) ==> node@ == (NodeView {
                directory: DirectoryState::created(),
                pending: Seq::empty(),
                sync: SyncView::start(cfg.start_height),
            }) && node@.sync.wf() && node.spec_config() == cfg,
            r matches Err(e) ==> e == NodeError::Store,
    {
        let sync = SyncState::new(cfg.start_height);
        match State::new(store) {
            Ok(state) => {
                let node = Node { cfg, state, pending_transactions: Vec::new(), sync };
                assert(node@.pending =~= Seq::<TransactionView>::empty());
                Ok(node)
            },
            Err(e) => Err(e),
        }
    }

    /// What the node was told when it started.
    pub closed spec fn spec_config(&self) -> Config {
        self.cfg
    }

    /// What the node was told when it started.
    pub fn config(&self) -> (cfg: &Config)
        ensures
            *cfg == self.spec_config(),
    {
        &self.cfg
    }

    /// The directory's current epoch.
    pub fn epoch(&self) -> (epoch: u64)
        ensures
            epoch == self@.directory.epoch,
    {
        self.state.epoch()
    }

    /// The root hash that commits to the accounts at the current epoch.
    pub fn get_commitment(&self) -> (r: Result<Digest, NodeError>)
        ensures
            r matches Err(e) ==> e == NodeError::MissingRoot,
    {
        self.state.get_commitment()
    }

    /// The account of the holder of `vk` at the current epoch.
    pub fn account(&self, vk: &[u8]) -> (r: Result<Account, NodeError>)
        ensures
            r matches Err(e) ==> e == NodeError::Store || e == NodeError::CorruptAccount,
    {
        self.state.account(vk)
    }

    /// The number of transactions that wait to be posted.
    pub fn pending_count(&self) -> (n: usize)
        ensures
            n == self@.pending.len(),
    {
        self.pending_transactions.len()
    }

    /// Validates `tx` against the current state and, where it is valid, puts
    /// it behind the transactions that wait to be posted. A transaction that
    /// is refused is not queued.
    pub fn queue_transaction(&mut self, tx: Transaction) -> (r: Result<(), NodeError>)
        ensures
            r is Ok ==> final(self)@ == (NodeView {
                pending: old(self)@.pending.push(tx@),
                ..old(self)@
            }),
            r is Err ==> final(self)@ == old(self)@,
            spec_verify(tx@) is Err ==> r == spec_verify(tx@),
            validation_can_answer(tx@, r),
            r matches Err(e) ==> e == NodeError::InvalidSignature || e == NodeError::InvalidNonce
                || e == NodeError::NonceExhausted || e == NodeError::Store || e
                == NodeError::CorruptAccount,
            final(self).spec_config() == old(self).spec_config(),
    {
        match self.state.validate_tx(&tx) {
            Ok(()) => {},
            Err(e) => {
                return Err(e);
            },
        }
        assert(views_of(self.pending_transactions@.push(tx)) =~= views_of(
            self.pending_transactions@,
        ).push(tx@));
        self.pending_transactions.push(tx);
        Ok(())
    }

    /// Takes every transaction that waits, in order of arrival, as one batch,
    /// and leaves none waiting. With the batch comes the blob to submit for
    /// it; an empty batch has none. Whatever becomes of the blob, the
    /// transactions do not return to the queue.
    pub fn post_pending_batch(&mut self) -> (posted: (Batch, Option<Vec<u8>>))
        ensures
            posted.0@ == old(self)@.pending,
            final(self)@ == (NodeView { pending: Seq::empty(), ..old(self)@ }),
            old(self)@.pending.len() == 0 ==> posted.1 is None,
            old(self)@.pending.len() > 0 ==> posted.1 is Some && posted.1->Some_0@
                == spec_encode_batch(old(self)@.pending) && spec_decode_blob(posted.1->Some_0@)
                == Some(old(self)@.pending),
            final(self).spec_config() == old(self).spec_config(),
    {
        let mut txs: Vec<Transaction> = Vec::new();
        std::mem::swap(&mut txs, &mut self.pending_transactions);
        assert(views_of(self.pending_transactions@) =~= Seq::<TransactionView>::empty());
        let batch = Batch::new(txs);
        if batch.len() == 0 {
            return (batch, None);
        }
        let blob = batch.encode();
        (batch, Some(blob))
    }

    /// Applies the blobs of one block to the state, blob after blob. Each
    /// readable blob is one batch: its transactions are decided in order and
    /// what the accepted ones leave is committed in one flush, so the epoch
    /// advances by one for every batch that left something. A transaction
    /// that is refused is skipped, and so is a blob that cannot be read; a
    /// batch that cannot be committed leaves the directory as it was. The
    /// outcomes come back in the blobs' order.
    pub fn process_l1_block(&mut self, blobs: &Vec<Vec<u8>>) -> (outcomes: Vec<BatchOutcome>)
        ensures
            outcomes@.len() == blobs@.len(),
            forall|i: int|
                0 <= i < blobs@.len() ==> spec_blob_outcome(blobs@[i]@, #[trigger] outcomes@[i]),
            final(self)@.directory == spec_block_applied(
                old(self)@.directory,
                blobs.deep_view(),
                outcomes@,
            ),
            final(self)@.pending == old(self)@.pending,
            final(self)@.sync == old(self)@.sync,
            final(self).spec_config() == old(self).spec_config(),
    {
        let mut outcomes: Vec<BatchOutcome> = Vec::new();
        let mut i: usize = 0;
        let ghost before = self@.directory;
        assert(blobs.deep_view().take(0) =~= Seq::<Seq<u8>>::empty());
        while i < blobs.len()
            invariant
                i <= blobs.len(),
                outcomes@.len() == i,
                before == old(self)@.directory,
                forall|j: int| 0 <= j < i ==> spec_blob_outcome(blobs@[j]@, #[trigger] outcomes@[j]),
                self@.directory == spec_block_applied(
                    before,
                    blobs.deep_view().take(i as int),
                    outcomes@,
                ),
                self@.pending == old(self)@.pending,
                self@.sync == old(self)@.sync,
                self.spec_config() == old(self).spec_config(),
            decreases blobs.len() - i,
        {
            let ghost here = self@.directory;
            let outcome = match Batch::try_from(blobs[i].as_slice()) {
                Ok(batch) => {
                    let txs = batch.get_transactions();
                    self.state.process_batch(&txs)
                },
                Err(e) => BatchOutcome { decisions: Vec::new(), committed: Err(e) },
            };
            proof {
                let upto = blobs.deep_view().take(i + 1);
                assert(upto.drop_last() =~= blobs.deep_view().take(i as int));
                assert(upto.last() == blobs@[i as int]@);
                assert(outcomes@.push(outcome).drop_last() =~= outcomes@);
                let flushed = spec_blob_flushed(blobs@[i as int]@, outcome);
                if flushed.len() > 0 {
                    assert(self@.directory == spec_batch_applied(here, flushed));
                } else {
                    assert(self@.directory == here);
                }
            }
            outcomes.push(outcome);
            i += 1;
        }
        assert(blobs.deep_view().take(i as int) =~= blobs.deep_view());
        outcomes
    }

    /// Records the network's head height, below which the past is replayed.
    pub fn set_network_head(&mut self, head: u64)
        ensures
            final(self)@ == (NodeView { sync: old(self)@.sync.with_head(head), ..old(self)@ }),
            final(self).spec_config() == old(self).spec_config(),
    {
        self.sync.set_head(head);
    }

    /// What the replay of the past asks for next.
    pub fn next_replay_step(&self) -> (step: ReplayStep)
        ensures
            step == self@.sync.next_step(),
    {
        self.sync.next_step()
    }

    /// Records that the block at the next height of the past has been
    /// replayed.
    pub fn block_replayed(&mut self)
        ensures
            final(self)@ == (NodeView { sync: old(self)@.sync.replayed(), ..old(self)@ }),
            final(self).spec_config() == old(self).spec_config(),
    {
        self.sync.block_replayed();
    }

    /// Fires the completion signal where the past is exhausted and the signal
    /// has not fired before, and hands out the live blocks that waited, oldest
    /// first: they are to be applied now.
    pub fn finish_replay(&mut self) -> (released: Option<Vec<Vec<Vec<u8>>>>)
        ensures
            final(self)@ == (NodeView { sync: old(self)@.sync.finished(), ..old(self)@ }),
            match old(self)@.sync.released() {
                Some(blocks) => released is Some && released->Some_0.deep_view() == blocks,
                None => released is None,
            },
            final(self).spec_config() == old(self).spec_config(),
    {
        self.sync.finish_replay()
    }

    /// Takes a live block. Once the replay is complete the block is handed
    /// back to be applied now; before, it is kept behind those that wait.
    pub fn on_live_block(&mut self, block: Vec<Vec<u8>>) -> (due: Option<Vec<Vec<u8>>>)
        ensures
            final(self)@ == (NodeView {
                sync: old(self)@.sync.with_live_block(block.deep_view()),
                ..old(self)@
            }),
            match old(self)@.sync.live_block_due(block.deep_view()) {
                Some(now) => due is Some && due->Some_0.deep_view() == now,
                None => due is None,
            },
            final(self).spec_config() == old(self).spec_config(),
    {
        self.sync.on_live_block(block)
    }
}

} // verus!
