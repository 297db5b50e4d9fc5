//! The authenticated directory: a versioned sparse Merkle tree over a node
//! store, with writes that are queued in memory and flushed epoch by epoch.

use crate::digest::{Digest, SPARSE_MERKLE_PLACEHOLDER_BYTES};
use crate::error::NodeError;
use jmt::storage::{NodeBatch, TreeReader, TreeWriter};
use std::sync::Arc;
use vstd::prelude::*;

verus! {

#[verifier::external_type_specification]
#[verifier::external_body]
pub struct ExNodeBatch(NodeBatch);

#[verifier::external_type_specification]
#[verifier::external_body]
pub struct ExAnyhowError(anyhow::Error);

/// The last epoch that a write can lead to. A write is computed at the version
/// after the current epoch, and the tree keeps the largest version there is to
/// itself: at the epoch before it, and after, no write is computed.
pub const LAST_EPOCH: u64 = 0xffff_ffff_ffff_fffe;

/// The value entries of a node batch: for a version and a key, what the key
/// holds from that version on, or that it holds nothing.
pub uninterp spec fn batch_values(batch: NodeBatch) -> Map<(u64, Seq<u8>), Option<Seq<u8>>>;

/// The node entries of a node batch: each tree node under its key, both in
/// their serialized form.
pub uninterp spec fn batch_nodes(batch: NodeBatch) -> Map<Seq<u8>, Seq<u8>>;

/// The bytes of an optional value.
pub open spec fn value_view(value: Option<Vec<u8>>) -> Option<Seq<u8>> {
    match value {
        None => None,
        Some(bytes) => Some(bytes@),
    }
}

/// The value entries that writing `entries` at `version` makes: each key with
/// its value, a later entry over an earlier one for the same key.
pub open spec fn spec_value_entries(version: u64, entries: Seq<([u8; 32], Option<Vec<u8>>)>) -> Map<
    (u64, Seq<u8>),
    Option<Seq<u8>>,
>
    decreases entries.len(),
{
    if entries.len() == 0 {
        Map::empty()
    } else {
        spec_value_entries(version, entries.drop_last()).insert(
            (version, entries.last().0@),
            value_view(entries.last().1),
        )
    }
}

/// The value entries that writing `writes` at `version` makes: each key with
/// its value, a later write over an earlier one for the same key.
pub open spec fn spec_writes(version: u64, writes: Seq<(Seq<u8>, Seq<u8>)>) -> Map<
    (u64, Seq<u8>),
    Option<Seq<u8>>,
>
    decreases writes.len(),
{
    if writes.len() == 0 {
        Map::empty()
    } else {
        spec_writes(version, writes.drop_last()).insert(
            (version, writes.last().0),
            Some(writes.last().1),
        )
    }
}

/// A list of writes, each key and value by its bytes.
pub open spec fn writes_view(writes: Seq<(Digest, Vec<u8>)>) -> Seq<(Seq<u8>, Seq<u8>)> {
    Seq::new(writes.len(), |i: int| (writes[i].0@, writes[i].1@))
}

/// Calls `jmt::JellyfishMerkleTree::put_value_set` over SHA-256, and hands
/// back the new root's bytes and the batch of node changes. Whether the call
/// succeeds, and which root and nodes come back, depends on what the store
/// holds. The contract claims only that the batch's value entries are the
/// entries handed in, at the version handed in. The largest version is left
/// out: the tree counts one version on after the writes.
#[verifier::external_body]
fn tree_put<S: TreeReader + TreeWriter>(
    db: &Arc<S>,
    entries: Vec<([u8; 32], Option<Vec<u8>>)>,
    version: u64,
) -> (r: Result<([u8; 32], NodeBatch), anyhow::Error>)
    requires
        version < u64::MAX,
    ensures
        r matches Ok(put) ==> batch_values(put.1) == spec_value_entries(version, entries@),
{
    jmt::JellyfishMerkleTree::<S, sha2::Sha256>::new(db.as_ref())
        .put_value_set(entries.into_iter().map(|(key, value)| (jmt::KeyHash(key), value)), version)
        .map(|(root, batch)| (root.0, batch.node_batch))
}

/// Calls `jmt::JellyfishMerkleTree::get` over SHA-256. What comes back
/// depends on what the store holds, so nothing is claimed.
#[verifier::external_body]
fn tree_get<S: TreeReader + TreeWriter>(db: &Arc<S>, key: &[u8; 32], version: u64) -> Result<
    Option<Vec<u8>>,
    anyhow::Error,
> {
    jmt::JellyfishMerkleTree::<S, sha2::Sha256>::new(db.as_ref()).get(jmt::KeyHash(*key), version)
}

/// Calls `jmt::JellyfishMerkleTree::get_root_hash` over SHA-256. What comes
/// back depends on what the store holds, so nothing is claimed.
#[verifier::external_body]
fn tree_root<S: TreeReader + TreeWriter>(db: &Arc<S>, version: u64) -> Result<
    [u8; 32],
    anyhow::Error,
> {
    jmt::JellyfishMerkleTree::<S, sha2::Sha256>::new(db.as_ref()).get_root_hash(version).map(
        |root| root.0,
    )
}

/// Calls the store's `jmt::storage::TreeWriter::write_node_batch`. Whether the
/// write succeeds is the store's affair, so nothing is claimed.
#[verifier::external_body]
fn store_write<S: TreeReader + TreeWriter>(db: &Arc<S>, batch: &NodeBatch) -> Result<
    (),
    anyhow::Error,
> {
    db.write_node_batch(batch)
}

/// Calls `jmt::storage::NodeBatch::merge`. The contract claims that `pending`
/// then holds its own entries and those of `incoming`, and the entry of
/// `incoming` wherever both have one.
#[verifier::external_body]
fn merge_batches(pending: &mut NodeBatch, incoming: NodeBatch)
    ensures
        batch_values(*final(pending)) == batch_values(*old(pending)).union_prefer_right(
            batch_values(incoming),
        ),
        batch_nodes(*final(pending)) == batch_nodes(*old(pending)).union_prefer_right(
            batch_nodes(incoming),
        ),
{
    pending.merge(incoming)
}

/// What is known of a directory: its epoch, what waits to be flushed, and what
/// the store has taken from it.
#[verifier::ext_equal]
pub struct DirectoryState {
    /// The current epoch.
    pub epoch: u64,
    /// Whether writes wait to be flushed.
    pub pending: bool,
    /// The value entries that wait; none where nothing waits.
    pub waiting_values: Map<(u64, Seq<u8>), Option<Seq<u8>>>,
    /// The node entries that wait; none where nothing waits.
    pub waiting_nodes: Map<Seq<u8>, Seq<u8>>,
    /// The value entries that the store has taken from this directory, a later
    /// batch over an earlier one.
    pub flushed_values: Map<(u64, Seq<u8>), Option<Seq<u8>>>,
}

impl DirectoryState {
    /// A directory that was opened at `epoch`: nothing waits, and the store
    /// has taken nothing from it yet.
    pub open spec fn opened(epoch: u64) -> DirectoryState {
        DirectoryState {
            epoch,
            pending: false,
            waiting_values: Map::empty(),
            waiting_nodes: Map::empty(),
            flushed_values: Map::empty(),
        }
    }

    /// A new directory: at epoch 0, with the placeholder entry flushed.
    pub open spec fn created() -> DirectoryState {
        DirectoryState {
            flushed_values: Map::empty().insert(
                (0u64, SPARSE_MERKLE_PLACEHOLDER_BYTES@),
                None::<Seq<u8>>,
            ),
            ..Self::opened(0)
        }
    }

    /// The directory after `values` and `nodes` were queued behind what waits:
    /// where both hold an entry, the one queued last counts.
    pub open spec fn queued(
        self,
        values: Map<(u64, Seq<u8>), Option<Seq<u8>>>,
        nodes: Map<Seq<u8>, Seq<u8>>,
    ) -> DirectoryState {
        DirectoryState {
            pending: true,
            waiting_values: self.waiting_values.union_prefer_right(values),
            waiting_nodes: self.waiting_nodes.union_prefer_right(nodes),
            ..self
        }
    }

    /// Nothing waits where no batch is pending.
    pub open spec fn wf(self) -> bool {
        !self.pending ==> self.waiting_values == Map::<(u64, Seq<u8>), Option<Seq<u8>>>::empty()
            && self.waiting_nodes == Map::<Seq<u8>, Seq<u8>>::empty()
    }
}

/// The state after a commit. `written` says whether the store took the batch;
/// it matters only where a batch is pending and the epoch can still advance.
/// A batch that the store took counts as flushed; one that it refused is
/// dropped.
pub open spec fn spec_commit(before: DirectoryState, written: bool) -> DirectoryState {
    if !before.pending || before.epoch == u64::MAX {
        before
    } else if written {
        DirectoryState {
            epoch: (before.epoch + 1) as u64,
            pending: false,
            waiting_values: Map::empty(),
            waiting_nodes: Map::empty(),
            flushed_values: before.flushed_values.union_prefer_right(before.waiting_values),
        }
    } else {
        DirectoryState {
            pending: false,
            waiting_values: Map::empty(),
            waiting_nodes: Map::empty(),
            ..before
        }
    }
}

/// What a commit answers.
pub open spec fn spec_commit_result(before: DirectoryState, written: bool) -> Result<(), NodeError> {
    if !before.pending {
        Ok(())
    } else if before.epoch == u64::MAX {
        Err(NodeError::EpochOverflow)
    } else if written {
        Ok(())
    } else {
        Err(NodeError::Store)
    }
}

/// A key-value store of serialized accounts that is committed to by a single
/// root hash per epoch.
pub struct KeyDirectoryTree<S> {
    db: Arc<S>,
    epoch: u64,
    pending_batch: Option<NodeBatch>,
    flushed: Ghost<Map<(u64, Seq<u8>), Option<Seq<u8>>>>,
}

impl<S> View for KeyDirectoryTree<S> {
    type V = DirectoryState;

    closed spec fn view(&self) -> DirectoryState {
        DirectoryState {
            epoch: self.epoch,
            pending: self.pending_batch is Some,
            waiting_values: match self.pending_batch {
                Some(batch) => batch_values(batch),
                None => Map::empty(),
            },
            waiting_nodes: match self.pending_batch {
                Some(batch) => batch_nodes(batch),
                None => Map::empty(),
            },
            flushed_values: self.flushed@,
        }
    }
}

impl<S> KeyDirectoryTree<S> {
    /// In every directory, nothing waits where no batch is pending.
    pub proof fn well_formed(&self)
        ensures
            self@.wf(),
    {
    }
}

impl<S: TreeReader + TreeWriter> KeyDirectoryTree<S> {
    /// A directory at epoch 0 over `store`, into which the placeholder entry
    /// has been written. Fails where the store refuses the write.
    pub fn new(store: Arc<S>) -> (r: Result<Self, NodeError>)
        ensures
            r matches Ok(tree) ==> tree@ == DirectoryState::created(),
            r matches Err(e) ==> e == NodeError::Store,
    {
        let placeholder = Digest::placeholder();
        let mut entries: Vec<([u8; 32], Option<Vec<u8>>)> = Vec::new();
        entries.push((placeholder.0, None));
        proof {
            assert(entries@.drop_last() == Seq::<([u8; 32], Option<Vec<u8>>)>::empty());
            assert(spec_value_entries(0, entries@.drop_last()) == Map::<
                (u64, Seq<u8>),
                Option<Seq<u8>>,
            >::empty());
            assert(entries@.last().0@ == SPARSE_MERKLE_PLACEHOLDER_BYTES@);
            assert(spec_value_entries(0, entries@) == Map::<
                (u64, Seq<u8>),
                Option<Seq<u8>>,
            >::empty().insert((0u64, SPARSE_MERKLE_PLACEHOLDER_BYTES@), None::<Seq<u8>>));
        }
        match tree_put(&store, entries, 0) {
            Ok((_, batch)) => match store_write(&store, &batch) {
                Ok(()) => {
                    let tree = KeyDirectoryTree {
                        db: store,
                        epoch: 0,
                        pending_batch: None,
                        flushed: Ghost(batch_values(batch)),
                    };
                    assert(tree@ =~= DirectoryState::created());
                    Ok(tree)
                },
                Err(_) => Err(NodeError::Store),
            },
            Err(_) => Err(NodeError::Store),
        }
    }

    /// The directory over `store` as it stood at `epoch`. Epoch 0 is a new
    /// directory.
    pub fn load(store: Arc<S>, epoch: u64) -> (r: Result<Self, NodeError>)
        ensures
            r matches Ok(tree) ==> tree@ == (if epoch == 0 {
                DirectoryState::created()
            } else {
                DirectoryState::opened(epoch)
            }),
            r matches Err(e) ==> e == NodeError::Store,
            epoch != 0 ==> r is Ok,
    {
        if epoch == 0 {
            return KeyDirectoryTree::new(store);
        }
        let tree = KeyDirectoryTree {
            db: store,
            epoch,
            pending_batch: None,
            flushed: Ghost(Map::empty()),
        };
        assert(tree@ =~= DirectoryState::opened(epoch));
        Ok(tree)
    }

    /// The current epoch.
    pub fn epoch(&self) -> (epoch: u64)
        ensures
            epoch == self@.epoch,
    {
        self.epoch
    }

    /// Whether writes wait to be flushed.
    pub fn has_pending(&self) -> (pending: bool)
        ensures
            pending == self@.pending,
    {
        self.pending_batch.is_some()
    }

    /// The root hash at the current epoch. Fails where the store cannot
    /// resolve it.
    pub fn get_commitment(&self) -> (r: Result<Digest, NodeError>)
        ensures
            r matches Err(e) ==> e == NodeError::MissingRoot,
    {
        match self.get_current_root() {
            Ok(root) => Ok(Digest::new(root)),
            Err(e) => Err(e),
        }
    }

    /// The bytes of the root hash at the current epoch.
    pub fn get_current_root(&self) -> (r: Result<[u8; 32], NodeError>)
        ensures
            r matches Err(e) ==> e == NodeError::MissingRoot,
    {
        let version = self.epoch;
        let read = tree_root(&self.db, version);
        let answer = root_outcome(read);
        answer
    }

    /// Adds node changes behind those that wait to be flushed: afterwards what
    /// waited and what came in wait together, and where both hold an entry
    /// the one that came in counts. Nothing is written to the store and the
    /// epoch stays.
    pub fn queue_batch(&mut self, batch: NodeBatch)
        ensures
            final(self)@ == old(self)@.queued(batch_values(batch), batch_nodes(batch)),
    {
        let pending = self.pending_batch.take();
        match pending {
            Some(mut waiting) => {
                merge_batches(&mut waiting, batch);
                self.pending_batch = Some(waiting);
            },
            None => {
                self.pending_batch = Some(batch);
            },
        }
        assert(self@ =~= old(self)@.queued(batch_values(batch), batch_nodes(batch)));
    }

    /// Flushes what waits and advances the epoch by one. With nothing waiting
    /// it does nothing and succeeds. Where the store refuses the write, what
    /// waited is dropped and the epoch stays.
    pub fn write_batch(&mut self) -> (r: Result<(), NodeError>)
        ensures
            final(self)@ == spec_commit(old(self)@, r is Ok),
            r == spec_commit_result(old(self)@, r is Ok),
    {
        if self.pending_batch.is_some() && self.epoch == u64::MAX {
            return Err(NodeError::EpochOverflow);
        }
        let pending = self.pending_batch.take();
        match pending {
            Some(batch) => match store_write(&self.db, &batch) {
                Ok(()) => {
                    self.epoch = self.epoch + 1;
                    self.flushed = Ghost(self.flushed@.union_prefer_right(batch_values(batch)));
                    assert(self@ =~= spec_commit(old(self)@, true));
                    Ok(())
                },
                Err(_) => {
                    assert(self@ =~= spec_commit(old(self)@, false));
                    Err(NodeError::Store)
                },
            },
            None => {
                assert(self@ =~= old(self)@);
                Ok(())
            },
        }
    }

    /// The value that `key` holds at the current epoch, if it holds one.
    pub fn get(&self, key: &Digest) -> (r: Result<Option<Vec<u8>>, NodeError>)
        ensures
            r matches Err(e) ==> e == NodeError::Store,
    {
        let version = self.epoch;
        let read = tree_get(&self.db, &key.0, version);
        let answer = read_outcome(read);
        answer
    }

    /// Computes the tree in which `key` holds `value` at the next epoch and
    /// queues its node changes; gives the root that the next epoch will have.
    /// Refused while writes wait: the tree is computed over what the store
    /// holds, and would leave out what waits. Refused from the epoch before
    /// the last one on. Otherwise it fails only where the store does. Nothing
    /// is queued where the write is refused or fails.
    pub fn put(&mut self, key: &Digest, value: Vec<u8>) -> (r: Result<Digest, NodeError>)
        ensures
            old(self)@.pending ==> r is Err && r->Err_0 == NodeError::WritesPending,
            !old(self)@.pending && old(self)@.epoch >= LAST_EPOCH ==> r is Err && r->Err_0
                == NodeError::EpochOverflow,
            !old(self)@.pending && old(self)@.epoch < LAST_EPOCH && r is Err ==> r->Err_0
                == NodeError::Store,
            r is Ok ==> !old(self)@.pending && old(self)@.epoch < LAST_EPOCH && final(self)@.pending
                && final(self)@.epoch == old(self)@.epoch && final(self)@.flushed_values == old(
                self,
            )@.flushed_values && final(self)@.waiting_values == Map::<
                (u64, Seq<u8>),
                Option<Seq<u8>>,
            >::empty().insert(((old(self)@.epoch + 1) as u64, key@), Some(value@)),
            r is Err ==> final(self)@ == old(self)@,
    {
        let ghost written = value@;
        let mut writes: Vec<(Digest, Vec<u8>)> = Vec::new();
        writes.push((*key, value));
        proof {
            let view = writes_view(writes@);
            let version = (old(self)@.epoch + 1) as u64;
            assert(view.drop_last() == Seq::<(Seq<u8>, Seq<u8>)>::empty());
            assert(spec_writes(version, view.drop_last()) == Map::<
                (u64, Seq<u8>),
                Option<Seq<u8>>,
            >::empty());
            assert(view.last() == (key@, written));
        }
        self.put_all(&writes)
    }

    /// Computes the tree in which every key of `writes` holds its value at the
    /// next epoch, a later write over an earlier one, and queues its node
    /// changes; gives the root that the next epoch will have. Refused while
    /// writes wait, and from the epoch before the last one on. Otherwise it
    /// fails only where the store does. Nothing is queued where the writes
    /// are refused or fail.
    pub fn put_all(&mut self, writes: &Vec<(Digest, Vec<u8>)>) -> (r: Result<Digest, NodeError>)
        ensures
            old(self)@.pending ==> r is Err && r->Err_0 == NodeError::WritesPending,
            !old(self)@.pending && old(self)@.epoch >= LAST_EPOCH ==> r is Err && r->Err_0
                == NodeError::EpochOverflow,
            !old(self)@.pending && old(self)@.epoch < LAST_EPOCH && r is Err ==> r->Err_0
                == NodeError::Store,
            r is Ok ==> !old(self)@.pending && old(self)@.epoch < LAST_EPOCH && final(self)@.pending
                && final(self)@.epoch == old(self)@.epoch && final(self)@.flushed_values == old(
                self,
            )@.flushed_values && final(self)@.waiting_values == spec_writes(
                (old(self)@.epoch + 1) as u64,
                writes_view(writes@),
            ),
            r is Err ==> final(self)@ == old(self)@,
    {
        if self.pending_batch.is_some() {
            return Err(NodeError::WritesPending);
        }
        if self.epoch >= LAST_EPOCH {
            return Err(NodeError::EpochOverflow);
        }
        let version = self.epoch + 1;
        let mut entries: Vec<([u8; 32], Option<Vec<u8>>)> = Vec::new();
        let mut i: usize = 0;
        assert(writes_view(writes@).take(0) == Seq::<(Seq<u8>, Seq<u8>)>::empty());
        while i < writes.len()
            invariant
                i <= writes.len(),
                entries.len() == i,
                spec_value_entries(version, entries@) == spec_writes(
                    version,
                    writes_view(writes@).take(i as int),
                ),
            decreases writes.len() - i,
        {
            let value = writes[i].1.clone();
            proof {
                let next = writes_view(writes@).take(i + 1);
                assert(next.drop_last() == writes_view(writes@).take(i as int));
                assert(next.last() == (writes@[i as int].0@, writes@[i as int].1@));
                assert(value@ == writes@[i as int].1@);
                assert(entries@.push((writes@[i as int].0.0, Some(value))).drop_last()
                    == entries@);
            }
            entries.push((writes[i].0.0, Some(value)));
            i += 1;
        }
        assert(writes_view(writes@).take(i as int) == writes_view(writes@));
        match tree_put(&self.db, entries, version) {
            Ok((root, batch)) => {
                self.queue_batch(batch);
                assert(self@.waiting_values =~= batch_values(batch));
                Ok(Digest::new(root))
            },
            Err(_) => Err(NodeError::Store),
        }
    }
}

/// After a commit nothing waits, unless the epoch has run out; a second commit
/// right after it changes nothing and succeeds; and the first commit advances
/// the epoch by exactly one where a batch waited and was written, and not at
/// all otherwise.
pub proof fn commit_is_idempotent(before: DirectoryState, first_written: bool, second_written: bool)
    requires
        before.epoch < u64::MAX,
    ensures
        !spec_commit(before, first_written).pending,
        spec_commit(spec_commit(before, first_written), second_written) == spec_commit(
            before,
            first_written,
        ),
        spec_commit_result(spec_commit(before, first_written), second_written) == Ok::<(), NodeError>(
            (),
        ),
        spec_commit(before, first_written).epoch == before.epoch + (if before.pending
            && first_written {
            1int
        } else {
            0int
        }),
{
}

/// What was queued stays as it is until the commit: queueing a second batch
/// keeps every entry of the first that the second does not replace, and adds
/// every entry of the second.
pub proof fn queued_entries_wait_together(
    before: DirectoryState,
    values: Map<(u64, Seq<u8>), Option<Seq<u8>>>,
    nodes: Map<Seq<u8>, Seq<u8>>,
)
    ensures
        before.queued(values, nodes).epoch == before.epoch,
        before.queued(values, nodes).flushed_values == before.flushed_values,
        forall|k: (u64, Seq<u8>)| #[trigger]
            values.contains_key(k) ==> before.queued(values, nodes).waiting_values.contains_key(k)
                && before.queued(values, nodes).waiting_values[k] == values[k],
        forall|k: (u64, Seq<u8>)| #[trigger]
            before.waiting_values.contains_key(k) && !values.contains_key(k) ==> before.queued(
                values,
                nodes,
            ).waiting_values.contains_key(k) && before.queued(values, nodes).waiting_values[k]
                == before.waiting_values[k],
        spec_commit(before.queued(values, nodes), true).flushed_values
            == before.flushed_values.union_prefer_right(
            before.waiting_values.union_prefer_right(values),
        ) || before.epoch == u64::MAX,
{
}

/// What asking for the root answers, given what the tree gave: the root's
/// bytes, or that no root can be resolved.
pub fn root_outcome(read: Result<[u8; 32], anyhow::Error>) -> (r: Result<[u8; 32], NodeError>)
    ensures
        match read {
            Ok(root) => r == Ok::<[u8; 32], NodeError>(root),
            Err(_) => r == Err::<[u8; 32], NodeError>(NodeError::MissingRoot),
        },
{
    match read {
        Ok(root) => Ok(root),
        Err(_) => Err(NodeError::MissingRoot),
    }
}

/// What asking for a key's value answers, given what the tree gave: the
/// value, if the key holds one, or that the store failed.
pub fn read_outcome(read: Result<Option<Vec<u8>>, anyhow::Error>) -> (r: Result<
    Option<Vec<u8>>,
    NodeError,
>)
    ensures
        match read {
            Ok(value) => r == Ok::<Option<Vec<u8>>, NodeError>(value),
            Err(_) => r == Err::<Option<Vec<u8>>, NodeError>(NodeError::Store),
        },
{
    match read {
        Ok(value) => Ok(value),
        Err(_) => Err(NodeError::Store),
    }
}

} // verus!
