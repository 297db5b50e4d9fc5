use jmt::storage::{LeafNode, Node as TreeNode, NodeBatch, NodeKey, TreeReader, TreeWriter};
use jmt::{KeyHash, OwnedValue, Version};
use rollup_node::config::Config;
use rollup_node::error::NodeError;
use rollup_node::node::{after_post, Node, PostingStep};
use rollup_node::state::BatchOutcome;
use rollup_node::sync::{on_task_end, sync_outcome, ReplayStep, SyncFailure, SyncState, TaskEnd};
use rollup_node::tx::{Batch, Transaction, TransactionType};
use std::collections::HashMap;
use std::sync::{Arc, Mutex};

#[derive(Default)]
struct Shelves {
    nodes: HashMap<NodeKey, TreeNode>,
    values: HashMap<KeyHash, Vec<(Version, Option<OwnedValue>)>>,
}

/// A node store in memory. Writes can be switched off to play a broken store.
#[derive(Default)]
struct MemoryStore {
    shelves: Mutex<Shelves>,
    broken: Mutex<bool>,
}

impl MemoryStore {
    fn set_broken(&self, broken: bool) {
        *self.broken.lock().unwrap() = broken;
    }
}

impl TreeReader for MemoryStore {
    fn get_node_option(&self, node_key: &NodeKey) -> anyhow::Result<Option<TreeNode>> {
        Ok(self.shelves.lock().unwrap().nodes.get(node_key).cloned())
    }

    fn get_value_option(
        &self,
        max_version: Version,
        key_hash: KeyHash,
    ) -> anyhow::Result<Option<OwnedValue>> {
        let shelves = self.shelves.lock().unwrap();
        let mut found: Option<OwnedValue> = None;
        if let Some(history) = shelves.values.get(&key_hash) {
            for (version, value) in history.iter() {
                if *version <= max_version {
                    found = value.clone();
                }
            }
        }
        Ok(found)
    }

    fn get_rightmost_leaf(&self) -> anyhow::Result<Option<(NodeKey, LeafNode)>> {
        Ok(None)
    }
}

impl TreeWriter for MemoryStore {
    fn write_node_batch(&self, node_batch: &NodeBatch) -> anyhow::Result<()> {
        if *self.broken.lock().unwrap() {
            return Err(anyhow::Error::msg("the store is broken"));
        }
        let mut shelves = self.shelves.lock().unwrap();
        for (node_key, node) in node_batch.nodes() {
            shelves.nodes.insert(node_key.clone(), node.clone());
        }
        for ((version, key_hash), value) in node_batch.values() {
            shelves.values.entry(*key_hash).or_default().push((*version, value.clone()));
        }
        Ok(())
    }
}

fn tx_of(vk: &[u8], nonce: u64) -> Transaction {
    Transaction { signature: Vec::new(), vk: vk.to_vec(), nonce, tx_type: TransactionType::Noop }
}

fn new_node() -> (Arc<MemoryStore>, Node<MemoryStore>) {
    let store = Arc::new(MemoryStore::default());
    let node = Node::new(Config::default(), store.clone()).unwrap();
    (store, node)
}

#[test]
fn new_node_has_nothing_waiting() {
    let (_, node) = new_node();
    assert_eq!(node.pending_count(), 0);
    assert_eq!(node.epoch(), 0);
    assert_eq!(node.next_replay_step(), ReplayStep::AwaitHead);
    assert_eq!(node.config().start_height, 1);
}

#[test]
fn node_keeps_its_configuration() {
    let store = Arc::new(MemoryStore::default());
    let mut cfg = Config::default();
    cfg.start_height = 40;
    cfg.listen_addr = "127.0.0.1:1".to_string();
    let mut node = Node::new(cfg, store).unwrap();
    assert_eq!(node.config().start_height, 40);
    assert_eq!(node.config().listen_addr, "127.0.0.1:1");
    node.set_network_head(42);
    assert_eq!(node.next_replay_step(), ReplayStep::Fetch(40));
}

#[test]
fn new_node_over_a_broken_store_fails() {
    let store = Arc::new(MemoryStore::default());
    store.set_broken(true);
    assert_eq!(Node::new(Config::default(), store).err(), Some(NodeError::Store));
}

#[test]
fn transaction_with_nonce_five_for_a_fresh_account_is_not_queued() {
    let (_, mut node) = new_node();
    assert_eq!(node.queue_transaction(tx_of(b"K", 5)), Err(NodeError::InvalidNonce));
    assert_eq!(node.pending_count(), 0);
    let (batch, blob) = node.post_pending_batch();
    assert_eq!(batch.len(), 0);
    assert_eq!(blob, None);
}

#[test]
fn two_queued_transactions_are_posted_in_order_and_leave_the_queue() {
    let (_, mut node) = new_node();
    let first = tx_of(b"alice", 0);
    let second = tx_of(b"bob", 0);
    assert_eq!(node.queue_transaction(first.clone()), Ok(()));
    assert_eq!(node.queue_transaction(second.clone()), Ok(()));
    assert_eq!(node.pending_count(), 2);

    let (batch, blob) = node.post_pending_batch();
    assert_eq!(batch.get_transactions(), vec![first.clone(), second.clone()]);
    assert_eq!(node.pending_count(), 0);
    let blob = blob.unwrap();
    assert_eq!(blob, Batch::new(vec![first.clone(), second.clone()]).encode());
    assert_eq!(Batch::try_from(&blob).unwrap().get_transactions(), vec![first, second]);

    let (again, nothing) = node.post_pending_batch();
    assert_eq!(again.len(), 0);
    assert_eq!(nothing, None);
}

#[test]
fn queueing_does_not_touch_the_directory() {
    let (_, mut node) = new_node();
    let root = node.get_commitment().unwrap();
    node.queue_transaction(tx_of(b"alice", 0)).unwrap();
    node.queue_transaction(tx_of(b"alice", 0)).unwrap();
    assert_eq!(node.pending_count(), 2);
    assert_eq!(node.epoch(), 0);
    assert_eq!(node.get_commitment(), Ok(root));
    assert_eq!(node.account(b"alice").unwrap().nonce(), 0);
}

#[test]
fn refused_transaction_leaves_the_queue_as_it_was() {
    let (_, mut node) = new_node();
    node.queue_transaction(tx_of(b"alice", 0)).unwrap();
    assert_eq!(node.queue_transaction(tx_of(b"alice", 3)), Err(NodeError::InvalidNonce));
    assert_eq!(node.pending_count(), 1);
    let (batch, _) = node.post_pending_batch();
    assert_eq!(batch.get_transactions(), vec![tx_of(b"alice", 0)]);
}

#[test]
fn transaction_queued_after_a_drain_lands_in_the_next_batch() {
    let (_, mut node) = new_node();
    node.queue_transaction(tx_of(b"a", 0)).unwrap();
    let (first, _) = node.post_pending_batch();
    node.queue_transaction(tx_of(b"b", 0)).unwrap();
    let (second, _) = node.post_pending_batch();
    assert_eq!(first.get_transactions(), vec![tx_of(b"a", 0)]);
    assert_eq!(second.get_transactions(), vec![tx_of(b"b", 0)]);
}

fn committed(decisions: Vec<Result<(), NodeError>>) -> BatchOutcome {
    BatchOutcome { decisions, committed: Ok(()) }
}

fn unreadable() -> BatchOutcome {
    BatchOutcome { decisions: Vec::new(), committed: Err(NodeError::Decode) }
}

#[test]
fn block_applies_what_applies_and_skips_the_rest() {
    let (_, mut node) = new_node();
    node.queue_transaction(tx_of(b"z", 0)).unwrap();
    let blobs = vec![
        Batch::new(vec![tx_of(b"K", 0), tx_of(b"K", 5)]).encode(),
        b"unreadable".to_vec(),
        tx_of(b"K", 1).encode(),
        Batch::new(vec![tx_of(b"L", 0), tx_of(b"K", 1)]).encode(),
    ];
    let outcomes = node.process_l1_block(&blobs);
    assert_eq!(
        outcomes,
        vec![
            committed(vec![Ok(()), Err(NodeError::InvalidNonce)]),
            unreadable(),
            committed(vec![Ok(())]),
            committed(vec![Ok(()), Err(NodeError::InvalidNonce)]),
        ]
    );
    assert_eq!(node.epoch(), 3);
    assert_eq!(node.account(b"K").unwrap().nonce(), 2);
    assert_eq!(node.account(b"L").unwrap().nonce(), 1);
    assert_eq!(node.pending_count(), 1);
}

#[test]
fn replay_of_two_blocks_for_one_key() {
    let (_, mut node) = new_node();
    let b1 = vec![Batch::new(vec![tx_of(b"K", 0)]).encode()];
    let b2 = vec![Batch::new(vec![tx_of(b"K", 1)]).encode()];
    let outcomes = node.process_l1_block(&b1);
    assert_eq!(outcomes, vec![committed(vec![Ok(())])]);
    let after_first = node.get_commitment().unwrap();
    let outcomes = node.process_l1_block(&b2);
    assert_eq!(outcomes, vec![committed(vec![Ok(())])]);
    assert_eq!(node.epoch(), 2);
    assert_eq!(node.account(b"K").unwrap().nonce(), 2);
    assert_ne!(node.get_commitment().unwrap(), after_first);
}

#[test]
fn empty_block_changes_nothing() {
    let (_, mut node) = new_node();
    let root = node.get_commitment().unwrap();
    assert_eq!(node.process_l1_block(&Vec::new()), Vec::new());
    assert_eq!(
        node.process_l1_block(&vec![b"unreadable".to_vec(), Vec::new()]),
        vec![unreadable(), unreadable()]
    );
    assert_eq!(node.process_l1_block(&vec![vec![0u8; 8]]), vec![committed(Vec::new())]);
    let refused = Batch::new(vec![tx_of(b"K", 4), tx_of(b"L", 1)]).encode();
    assert_eq!(
        node.process_l1_block(&vec![refused]),
        vec![committed(vec![Err(NodeError::InvalidNonce), Err(NodeError::InvalidNonce)])]
    );
    assert_eq!(node.epoch(), 0);
    assert_eq!(node.get_commitment(), Ok(root));
}

#[test]
fn replay_asks_for_heights_in_ascending_order() {
    let mut sync = SyncState::new(3);
    assert_eq!(sync.next_step(), ReplayStep::AwaitHead);
    sync.block_replayed();
    assert_eq!(sync.next_step(), ReplayStep::AwaitHead);
    sync.set_head(6);
    let mut asked = Vec::new();
    while let ReplayStep::Fetch(height) = sync.next_step() {
        asked.push(height);
        sync.block_replayed();
    }
    assert_eq!(asked, vec![3, 4, 5]);
    assert_eq!(sync.next_step(), ReplayStep::Exhausted);
    sync.block_replayed();
    assert_eq!(sync.next_step(), ReplayStep::Exhausted);
}

#[test]
fn head_at_or_below_the_start_leaves_nothing_to_replay() {
    let mut sync = SyncState::new(5);
    sync.set_head(5);
    assert_eq!(sync.next_step(), ReplayStep::Exhausted);
    let mut sync = SyncState::new(5);
    sync.set_head(2);
    assert_eq!(sync.next_step(), ReplayStep::Exhausted);
    assert_eq!(sync.finish_replay(), Some(Vec::new()));
}

#[test]
fn later_head_reports_do_not_move_the_head() {
    let mut sync = SyncState::new(0);
    sync.set_head(1);
    sync.set_head(10);
    assert_eq!(sync.next_step(), ReplayStep::Fetch(0));
    sync.block_replayed();
    assert_eq!(sync.next_step(), ReplayStep::Exhausted);
}

#[test]
fn live_block_before_the_signal_waits_and_is_released_by_it() {
    let mut sync = SyncState::new(1);
    let early = vec![b"early".to_vec()];
    let earlier_still = vec![b"first".to_vec(), b"second".to_vec()];
    assert_eq!(sync.on_live_block(earlier_still.clone()), None);
    sync.set_head(3);
    assert_eq!(sync.on_live_block(early.clone()), None);
    assert_eq!(sync.held_blocks(), 2);
    assert!(!sync.is_complete());

    assert_eq!(sync.finish_replay(), None);
    assert_eq!(sync.next_step(), ReplayStep::Fetch(1));
    sync.block_replayed();
    assert_eq!(sync.finish_replay(), None);
    assert_eq!(sync.on_live_block(Vec::new()), None);
    assert_eq!(sync.next_step(), ReplayStep::Fetch(2));
    sync.block_replayed();
    assert_eq!(sync.held_blocks(), 3);

    assert_eq!(sync.finish_replay(), Some(vec![earlier_still, early, Vec::new()]));
    assert!(sync.is_complete());
    assert_eq!(sync.held_blocks(), 0);
}

#[test]
fn live_block_after_the_signal_is_due_at_once() {
    let mut sync = SyncState::new(1);
    sync.set_head(1);
    assert_eq!(sync.finish_replay(), Some(Vec::new()));
    let block = vec![b"late".to_vec()];
    assert_eq!(sync.on_live_block(block.clone()), Some(block));
    assert_eq!(sync.held_blocks(), 0);
}

#[test]
fn signal_fires_once() {
    let mut sync = SyncState::new(1);
    assert_eq!(sync.finish_replay(), None);
    assert!(!sync.is_complete());
    sync.set_head(1);
    assert_eq!(sync.finish_replay(), Some(Vec::new()));
    assert_eq!(sync.finish_replay(), None);
    assert!(sync.is_complete());
}

#[test]
fn node_replays_the_past_before_it_applies_live_blocks() {
    let (_, mut node) = new_node();
    let live = vec![Batch::new(vec![tx_of(b"K", 1)]).encode()];
    assert_eq!(node.on_live_block(live.clone()), None);
    assert_eq!(node.epoch(), 0);

    node.set_network_head(2);
    assert_eq!(node.next_replay_step(), ReplayStep::Fetch(1));
    let past = vec![tx_of(b"K", 0).encode()];
    assert_eq!(node.process_l1_block(&past), vec![committed(vec![Ok(())])]);
    node.block_replayed();
    assert_eq!(node.next_replay_step(), ReplayStep::Exhausted);

    let released = node.finish_replay().unwrap();
    assert_eq!(released, vec![live]);
    for block in released.iter() {
        assert_eq!(node.process_l1_block(block), vec![committed(vec![Ok(())])]);
    }
    assert_eq!(node.account(b"K").unwrap().nonce(), 2);
    assert_eq!(node.finish_replay(), None);

    let next = vec![tx_of(b"K", 2).encode()];
    let due = node.on_live_block(next.clone()).unwrap();
    assert_eq!(due, next);
    assert_eq!(node.process_l1_block(&due), vec![committed(vec![Ok(())])]);
    assert_eq!(node.account(b"K").unwrap().nonce(), 3);
    assert_eq!(node.epoch(), 3);
}

fn outcome(historical: TaskEnd, live: TaskEnd) -> String {
    match sync_outcome(historical, live) {
        Ok(()) => "ok".to_string(),
        Err(SyncFailure::Join(reason)) => format!("join: {}", reason),
        Err(SyncFailure::Task(reason)) => format!("task: {}", reason),
    }
}

fn failed(reason: &str) -> TaskEnd {
    TaskEnd::Failed(reason.to_string())
}

fn lost(reason: &str) -> TaskEnd {
    TaskEnd::Lost(reason.to_string())
}

#[test]
fn synchronization_succeeds_where_both_tasks_finish() {
    assert_eq!(outcome(TaskEnd::Finished, TaskEnd::Finished), "ok");
}

#[test]
fn a_task_that_gave_up_fails_the_synchronization() {
    assert_eq!(outcome(failed("a"), TaskEnd::Finished), "task: a");
    assert_eq!(outcome(TaskEnd::Finished, failed("b")), "task: b");
    assert_eq!(outcome(failed("a"), failed("b")), "task: a");
}

#[test]
fn a_lost_task_outweighs_one_that_gave_up() {
    assert_eq!(outcome(lost("a"), TaskEnd::Finished), "join: a");
    assert_eq!(outcome(TaskEnd::Finished, lost("b")), "join: b");
    assert_eq!(outcome(lost("a"), lost("b")), "join: a");
    assert_eq!(outcome(failed("a"), lost("b")), "join: b");
    assert_eq!(outcome(lost("a"), failed("b")), "join: a");
}

#[test]
fn a_failed_post_stops_the_posting_task() {
    assert_eq!(after_post(true), PostingStep::Sleep);
    assert_eq!(after_post(false), PostingStep::Stop);
}

fn single(end: TaskEnd) -> String {
    match on_task_end(end) {
        Ok(()) => "ok".to_string(),
        Err(SyncFailure::Join(reason)) => format!("join: {}", reason),
        Err(SyncFailure::Task(reason)) => format!("task: {}", reason),
    }
}

#[test]
fn a_task_that_ends_badly_fails_the_synchronization_at_once() {
    assert_eq!(single(TaskEnd::Finished), "ok");
    assert_eq!(single(failed("replay broke")), "task: replay broke");
    assert_eq!(single(lost("panicked")), "join: panicked");
}

#[test]
fn a_batch_is_one_epoch_however_many_transactions_it_applies() {
    let (_, mut node) = new_node();
    let batch = Batch::new(vec![
        tx_of(b"K", 0),
        tx_of(b"L", 0),
        tx_of(b"K", 1),
        tx_of(b"K", 1),
        tx_of(b"K", 2),
        tx_of(b"L", 5),
    ]);
    let outcomes = node.process_l1_block(&vec![batch.encode()]);
    assert_eq!(
        outcomes,
        vec![committed(vec![
            Ok(()),
            Ok(()),
            Ok(()),
            Err(NodeError::InvalidNonce),
            Ok(()),
            Err(NodeError::InvalidNonce),
        ])]
    );
    assert_eq!(node.epoch(), 1);
    assert_eq!(node.account(b"K").unwrap().nonce(), 3);
    assert_eq!(node.account(b"L").unwrap().nonce(), 1);
}

#[test]
fn a_batch_whose_flush_fails_applies_nothing() {
    let (store, mut node) = new_node();
    node.process_l1_block(&vec![tx_of(b"K", 0).encode()]);
    let root = node.get_commitment().unwrap();
    store.set_broken(true);
    let batch = Batch::new(vec![tx_of(b"K", 1), tx_of(b"K", 7)]).encode();
    let outcomes = node.process_l1_block(&vec![batch.clone()]);
    assert_eq!(
        outcomes,
        vec![BatchOutcome {
            decisions: vec![Ok(()), Err(NodeError::InvalidNonce)],
            committed: Err(NodeError::Store),
        }]
    );
    assert_eq!(node.epoch(), 1);
    assert_eq!(node.account(b"K").unwrap().nonce(), 1);
    assert_eq!(node.get_commitment(), Ok(root));
    store.set_broken(false);
    let outcomes = node.process_l1_block(&vec![batch]);
    assert_eq!(outcomes, vec![committed(vec![Ok(()), Err(NodeError::InvalidNonce)])]);
    assert_eq!(node.epoch(), 2);
    assert_eq!(node.account(b"K").unwrap().nonce(), 2);
}
