use jmt::storage::{LeafNode, Node, NodeBatch, NodeKey, TreeReader, TreeWriter};
use jmt::{JellyfishMerkleTree, KeyHash, OwnedValue, Version};
use rollup_node::digest::Digest;
use rollup_node::error::NodeError;
use rollup_node::proofs::{Batch, InsertProof, Proof, UpdateProof};
use rollup_node::state::{Account, State};
use rollup_node::tx::{Transaction, TransactionType};
use std::collections::HashMap;
use std::sync::{Arc, Mutex};

#[derive(Default)]
struct Shelves {
    nodes: HashMap<NodeKey, Node>,
    values: HashMap<KeyHash, Vec<(Version, Option<OwnedValue>)>>,
}

/// A node store in memory. Writes can be switched off to play a broken store.
#[derive(Default)]
struct MemoryStore {
    shelves: Mutex<Shelves>,
    broken: Mutex<bool>,
}

impl MemoryStore {
    fn set_broken(&self, broken: bool) {
        *self.broken.lock().unwrap() = broken;
    }
}

impl TreeReader for MemoryStore {
    fn get_node_option(&self, node_key: &NodeKey) -> anyhow::Result<Option<Node>> {
        Ok(self.shelves.lock().unwrap().nodes.get(node_key).cloned())
    }

    fn get_value_option(
        &self,
        max_version: Version,
        key_hash: KeyHash,
    ) -> anyhow::Result<Option<OwnedValue>> {
        let shelves = self.shelves.lock().unwrap();
        let mut found: Option<OwnedValue> = None;
        if let Some(history) = shelves.values.get(&key_hash) {
            for (version, value) in history.iter() {
                if *version <= max_version {
                    found = value.clone();
                }
            }
        }
        Ok(found)
    }

    fn get_rightmost_leaf(&self) -> anyhow::Result<Option<(NodeKey, LeafNode)>> {
        Ok(None)
    }
}

impl TreeWriter for MemoryStore {
    fn write_node_batch(&self, node_batch: &NodeBatch) -> anyhow::Result<()> {
        if *self.broken.lock().unwrap() {
            return Err(anyhow::Error::msg("the store is broken"));
        }
        let mut shelves = self.shelves.lock().unwrap();
        for (node_key, node) in node_batch.nodes() {
            shelves.nodes.insert(node_key.clone(), node.clone());
        }
        for ((version, key_hash), value) in node_batch.values() {
            shelves.values.entry(*key_hash).or_default().push((*version, value.clone()));
        }
        Ok(())
    }
}

fn tx_of(vk: &[u8], nonce: u64) -> Transaction {
    Transaction { signature: Vec::new(), vk: vk.to_vec(), nonce, tx_type: TransactionType::Noop }
}

/// The serialized witness for `vk` at `epoch`, and the root at that epoch.
fn witness(store: &Arc<MemoryStore>, vk: &[u8], epoch: u64) -> (Vec<u8>, Digest) {
    let tree = JellyfishMerkleTree::<MemoryStore, sha2::Sha256>::new(store.as_ref());
    let key = KeyHash(Digest::hash(vk).0);
    let (_, proof) = tree.get_with_proof(key, epoch).unwrap();
    let root = tree.get_root_hash(epoch).unwrap();
    (bincode::serialize(&proof).unwrap(), Digest::new(root.0))
}

/// A state in which `other` has an account, and an insertion proof for the
/// first transaction of `vk`.
fn insertion(vk: &[u8]) -> (Arc<MemoryStore>, State<MemoryStore>, InsertProof) {
    let store = Arc::new(MemoryStore::default());
    let mut state = State::new(store.clone()).unwrap();
    state.process_tx(&tx_of(b"other", 0)).unwrap();
    let tx = tx_of(vk, 0);
    let (non_membership_proof, old_root) = witness(&store, vk, state.epoch());
    state.process_tx(&tx).unwrap();
    let (membership_proof, new_root) = witness(&store, vk, state.epoch());
    let proof = InsertProof { non_membership_proof, old_root, membership_proof, new_root, tx };
    (store, state, proof)
}

/// An update proof for the second transaction of `vk`.
fn update(vk: &[u8]) -> UpdateProof {
    let (store, mut state, _) = insertion(vk);
    let old_account = state.account(vk).unwrap();
    let tx = tx_of(vk, 1);
    let (old_membership_proof, old_root) = witness(&store, vk, state.epoch());
    state.process_tx(&tx).unwrap();
    let (membership_proof, new_root) = witness(&store, vk, state.epoch());
    UpdateProof { old_membership_proof, old_root, old_account, membership_proof, new_root, tx }
}

fn flip(bytes: &mut [u8], at: usize) {
    bytes[at] ^= 1;
}

#[test]
fn insert_proof_of_a_first_transaction_verifies() {
    let (_, _, proof) = insertion(b"alice");
    assert_ne!(proof.old_root, proof.new_root);
    assert_eq!(proof.verify(), Ok(()));
}

#[test]
fn insert_proof_into_an_empty_directory_verifies() {
    let store = Arc::new(MemoryStore::default());
    let mut state = State::new(store.clone()).unwrap();
    let tx = tx_of(b"alice", 0);
    let (non_membership_proof, old_root) = witness(&store, b"alice", 0);
    state.process_tx(&tx).unwrap();
    let (membership_proof, new_root) = witness(&store, b"alice", 1);
    let proof = InsertProof { non_membership_proof, old_root, membership_proof, new_root, tx };
    assert_eq!(proof.verify(), Ok(()));
}

#[test]
fn insert_proof_with_tampered_old_root_fails() {
    let (_, _, mut proof) = insertion(b"alice");
    flip(&mut proof.old_root.0, 0);
    assert_eq!(proof.verify(), Err(NodeError::InvalidNonMembershipProof));
}

#[test]
fn insert_proof_with_tampered_new_root_fails() {
    let (_, _, mut proof) = insertion(b"alice");
    flip(&mut proof.new_root.0, 31);
    assert_eq!(proof.verify(), Err(NodeError::InvalidMembershipProof));
}

#[test]
fn insert_proof_with_swapped_roots_fails() {
    let (_, _, mut proof) = insertion(b"alice");
    std::mem::swap(&mut proof.old_root, &mut proof.new_root);
    assert_eq!(proof.verify(), Err(NodeError::InvalidNonMembershipProof));
}

#[test]
fn insert_proof_with_wrong_nonce_fails() {
    let (_, _, mut proof) = insertion(b"alice");
    proof.tx.nonce = 1;
    assert_eq!(proof.verify(), Err(NodeError::TxApplication));
}

#[test]
fn insert_proof_for_another_key_fails() {
    let (_, _, mut proof) = insertion(b"alice");
    proof.tx.vk = b"mallory".to_vec();
    assert!(proof.verify().is_err());
}

#[test]
fn insert_proof_for_a_key_that_was_present_fails() {
    let (store, _, mut proof) = insertion(b"alice");
    let (present, root) = witness(&store, b"other", 1);
    proof.non_membership_proof = present;
    proof.old_root = root;
    proof.tx.vk = b"other".to_vec();
    assert_eq!(proof.verify(), Err(NodeError::InvalidNonMembershipProof));
}

#[test]
fn insert_proof_with_tampered_witnesses_fails() {
    let (_, _, proof) = insertion(b"alice");
    for at in 0..proof.non_membership_proof.len() {
        let mut tampered = InsertProof {
            non_membership_proof: proof.non_membership_proof.clone(),
            old_root: proof.old_root,
            membership_proof: proof.membership_proof.clone(),
            new_root: proof.new_root,
            tx: proof.tx.clone(),
        };
        flip(&mut tampered.non_membership_proof, at);
        assert!(tampered.verify().is_err());
    }
    for at in 0..proof.membership_proof.len() {
        let mut tampered = InsertProof {
            non_membership_proof: proof.non_membership_proof.clone(),
            old_root: proof.old_root,
            membership_proof: proof.membership_proof.clone(),
            new_root: proof.new_root,
            tx: proof.tx.clone(),
        };
        flip(&mut tampered.membership_proof, at);
        assert!(tampered.verify().is_err());
    }
}

#[test]
fn insert_proof_with_unreadable_witness_fails() {
    let (_, _, mut proof) = insertion(b"alice");
    proof.non_membership_proof = vec![1, 2, 3];
    assert_eq!(proof.verify(), Err(NodeError::InvalidNonMembershipProof));
    let (_, _, mut proof) = insertion(b"alice");
    proof.membership_proof = Vec::new();
    assert_eq!(proof.verify(), Err(NodeError::InvalidMembershipProof));
}

#[test]
fn update_proof_of_a_second_transaction_verifies() {
    let proof = update(b"alice");
    assert_eq!(proof.old_account.nonce(), 1);
    assert_ne!(proof.old_root, proof.new_root);
    assert_eq!(proof.verify(), Ok(()));
}

#[test]
fn update_proof_with_tampered_old_root_fails() {
    let mut proof = update(b"alice");
    flip(&mut proof.old_root.0, 5);
    assert_eq!(proof.verify(), Err(NodeError::InvalidOldMembershipProof));
}

#[test]
fn update_proof_with_tampered_new_root_fails() {
    let mut proof = update(b"alice");
    flip(&mut proof.new_root.0, 5);
    assert_eq!(proof.verify(), Err(NodeError::InvalidMembershipProof));
}

#[test]
fn update_proof_with_wrong_nonce_fails() {
    let mut proof = update(b"alice");
    proof.tx.nonce = 0;
    assert_eq!(proof.verify(), Err(NodeError::TxApplication));
    proof.tx.nonce = 2;
    assert_eq!(proof.verify(), Err(NodeError::TxApplication));
}

#[test]
fn update_proof_with_wrong_old_account_fails() {
    let mut proof = update(b"alice");
    proof.old_account = Account::default();
    assert_eq!(proof.verify(), Err(NodeError::InvalidOldMembershipProof));
}

#[test]
fn update_proof_with_tampered_witnesses_fails() {
    let proof = update(b"alice");
    for at in 0..proof.old_membership_proof.len() {
        let mut tampered = update(b"alice");
        flip(&mut tampered.old_membership_proof, at);
        assert!(tampered.verify().is_err());
    }
    for at in 0..proof.membership_proof.len() {
        let mut tampered = update(b"alice");
        flip(&mut tampered.membership_proof, at);
        assert!(tampered.verify().is_err());
    }
}

#[test]
fn update_proof_with_the_old_witness_for_the_new_state_fails() {
    let mut proof = update(b"alice");
    proof.membership_proof = proof.old_membership_proof.clone();
    proof.new_root = proof.old_root;
    assert_eq!(proof.verify(), Err(NodeError::InvalidMembershipProof));
}

#[test]
fn proofs_gather_in_a_batch() {
    let (_, _, insert) = insertion(b"alice");
    let update = update(b"alice");
    let batch = Batch {
        prev_root: insert.old_root,
        new_root: update.new_root,
        proofs: vec![Proof::Insert(insert), Proof::Update(update)],
    };
    assert_eq!(batch.proofs.len(), 2);
    for proof in batch.proofs.iter() {
        let outcome = match proof {
            Proof::Insert(insert) => insert.verify(),
            Proof::Update(update) => update.verify(),
        };
        assert_eq!(outcome, Ok(()));
    }
    assert_ne!(batch.prev_root, batch.new_root);
}
