//! Self-contained evidence that one transaction moved the directory from one
//! root to the next.

use crate::digest::{sha256, Digest};
use crate::error::NodeError;
use crate::state::{spec_account_bytes, spec_apply_tx, Account};
use crate::tx::{Transaction, TransactionView};
use vstd::prelude::*;

verus! {

/// Whether `witness`, read as a serialized `jmt` sparse Merkle proof over
/// SHA-256, shows that `key` holds `value` in the tree whose root is `root`.
pub uninterp spec fn witness_shows_member(
    witness: Seq<u8>,
    root: Seq<u8>,
    key: Seq<u8>,
    value: Seq<u8>,
) -> bool;

/// Whether `witness`, read as a serialized `jmt` sparse Merkle proof over
/// SHA-256, shows that `key` holds nothing in the tree whose root is `root`.
pub uninterp spec fn witness_shows_absent(witness: Seq<u8>, root: Seq<u8>, key: Seq<u8>) -> bool;

/// Reads `witness` with `bincode::deserialize` as a
/// `jmt::proof::SparseMerkleProof` over `sha2::Sha256` and calls its
/// `verify_existence`. The contract gives the answer a name: true where the
/// bytes are such a proof and the call accepts it, false otherwise.
#[verifier::external_body]
fn verify_existence(witness: &[u8], root: &[u8; 32], key: &[u8; 32], value: &[u8]) -> (ok: bool)
    ensures
        ok == witness_shows_member(witness@, root@, key@, value@),
{
    match bincode::deserialize::<jmt::proof::SparseMerkleProof<sha2::Sha256>>(witness) {
        Ok(proof) => proof.verify_existence(jmt::RootHash(*root), jmt::KeyHash(*key), value).is_ok(),
        Err(_) => false,
    }
}

/// Reads `witness` with `bincode::deserialize` as a
/// `jmt::proof::SparseMerkleProof` over `sha2::Sha256` and calls its
/// `verify_nonexistence`. The contract gives the answer a name: true where the
/// bytes are such a proof and the call accepts it, false otherwise.
#[verifier::external_body]
fn verify_nonexistence(witness: &[u8], root: &[u8; 32], key: &[u8; 32]) -> (ok: bool)
    ensures
        ok == witness_shows_absent(witness@, root@, key@),
{
    match bincode::deserialize::<jmt::proof::SparseMerkleProof<sha2::Sha256>>(witness) {
        Ok(proof) => proof.verify_nonexistence(jmt::RootHash(*root), jmt::KeyHash(*key)).is_ok(),
        Err(_) => false,
    }
}

/// Evidence that a transaction created an account.
pub struct InsertProof {
    /// Serialized witness that the key is not in the tree under `old_root`.
    pub non_membership_proof: Vec<u8>,
    pub old_root: Digest,
    /// Serialized witness that the new account is in the tree under `new_root`.
    pub membership_proof: Vec<u8>,
    pub new_root: Digest,
    /// The transaction that created the account; its verifying key gives the key.
    pub tx: Transaction,
}

/// An insertion proof, apart from where its bytes are kept.
pub struct InsertProofView {
    pub non_membership_proof: Seq<u8>,
    pub old_root: Seq<u8>,
    pub membership_proof: Seq<u8>,
    pub new_root: Seq<u8>,
    pub tx: TransactionView,
}

impl View for InsertProof {
    type V = InsertProofView;

    open spec fn view(&self) -> InsertProofView {
        InsertProofView {
            non_membership_proof: self.non_membership_proof@,
            old_root: self.old_root@,
            membership_proof: self.membership_proof@,
            new_root: self.new_root@,
            tx: self.tx@,
        }
    }
}

/// What checking an insertion proof gives. It is accepted exactly when the key
/// is absent under the old root, the transaction applies to a fresh account,
/// and the account so derived is present under the new root.
pub open spec fn spec_verify_insert(proof: InsertProofView) -> Result<(), NodeError> {
    let key = sha256(proof.tx.vk);
    if !witness_shows_absent(proof.non_membership_proof, proof.old_root, key) {
        Err(NodeError::InvalidNonMembershipProof)
    } else {
        match spec_apply_tx(0, proof.tx) {
            Err(_) => Err(NodeError::TxApplication),
            Ok(nonce) => if witness_shows_member(
                proof.membership_proof,
                proof.new_root,
                key,
                spec_account_bytes(nonce),
            ) {
                Ok(())
            } else {
                Err(NodeError::InvalidMembershipProof)
            },
        }
    }
}

impl InsertProof {
    /// Checks the proof against nothing but itself.
    pub fn verify(&self) -> (r: Result<(), NodeError>)
        ensures
            r == spec_verify_insert(self@),
    {
        let key = Digest::hash(self.tx.vk.as_slice());
        if !verify_nonexistence(self.non_membership_proof.as_slice(), &self.old_root.0, &key.0) {
            return Err(NodeError::InvalidNonMembershipProof);
        }
        let mut new_account = Account::default();
        match new_account.apply_tx(&self.tx) {
            Ok(()) => {},
            Err(_) => {
                return Err(NodeError::TxApplication);
            },
        }
        let value = new_account.to_bytes();
        if !verify_existence(
            self.membership_proof.as_slice(),
            &self.new_root.0,
            &key.0,
            value.as_slice(),
        ) {
            return Err(NodeError::InvalidMembershipProof);
        }
        Ok(())
    }
}

/// Evidence that a transaction changed an existing account.
pub struct UpdateProof {
    /// Serialized witness that `old_account` is in the tree under `old_root`.
    pub old_membership_proof: Vec<u8>,
    pub old_root: Digest,
    pub old_account: Account,
    /// Serialized witness that the new account is in the tree under `new_root`.
    pub membership_proof: Vec<u8>,
    pub new_root: Digest,
    /// The transaction that justifies the transition from `old_account`.
    pub tx: Transaction,
}

/// An update proof, apart from where its bytes are kept.
pub struct UpdateProofView {
    pub old_membership_proof: Seq<u8>,
    pub old_root: Seq<u8>,
    pub old_account: u64,
    pub membership_proof: Seq<u8>,
    pub new_root: Seq<u8>,
    pub tx: TransactionView,
}

impl View for UpdateProof {
    type V = UpdateProofView;

    open spec fn view(&self) -> UpdateProofView {
        UpdateProofView {
            old_membership_proof: self.old_membership_proof@,
            old_root: self.old_root@,
            old_account: self.old_account@,
            membership_proof: self.membership_proof@,
            new_root: self.new_root@,
            tx: self.tx@,
        }
    }
}

/// What checking an update proof gives. It is accepted exactly when the old
/// account is present under the old root, the transaction applies to it, and
/// the account so derived is present under the new root.
pub open spec fn spec_verify_update(proof: UpdateProofView) -> Result<(), NodeError> {
    let key = sha256(proof.tx.vk);
    if !witness_shows_member(
        proof.old_membership_proof,
        proof.old_root,
        key,
        spec_account_bytes(proof.old_account),
    ) {
        Err(NodeError::InvalidOldMembershipProof)
    } else {
        match spec_apply_tx(proof.old_account, proof.tx) {
            Err(_) => Err(NodeError::TxApplication),
            Ok(nonce) => if witness_shows_member(
                proof.membership_proof,
                proof.new_root,
                key,
                spec_account_bytes(nonce),
            ) {
                Ok(())
            } else {
                Err(NodeError::InvalidMembershipProof)
            },
        }
    }
}

impl UpdateProof {
    /// Checks the proof against nothing but itself.
    pub fn verify(&self) -> (r: Result<(), NodeError>)
        ensures
            r == spec_verify_update(self@),
    {
        let key = Digest::hash(self.tx.vk.as_slice());
        let old_value = self.old_account.to_bytes();
        if !verify_existence(
            self.old_membership_proof.as_slice(),
            &self.old_root.0,
            &key.0,
            old_value.as_slice(),
        ) {
            return Err(NodeError::InvalidOldMembershipProof);
        }
        let mut new_account = self.old_account;
        match new_account.apply_tx(&self.tx) {
            Ok(()) => {},
            Err(_) => {
                return Err(NodeError::TxApplication);
            },
        }
        let new_value = new_account.to_bytes();
        if !verify_existence(
            self.membership_proof.as_slice(),
            &self.new_root.0,
            &key.0,
            new_value.as_slice(),
        ) {
            return Err(NodeError::InvalidMembershipProof);
        }
        Ok(())
    }
}

/// An insertion proof is accepted exactly when its first witness shows the key
/// of the transaction absent under the old root, the transaction is the first
/// of its account, and its second witness shows, under the new root, that key
/// with the account that the transaction makes of a fresh one.
pub proof fn insert_proof_accepted_iff(proof: InsertProofView)
    ensures
        spec_verify_insert(proof) is Ok <==> witness_shows_absent(
            proof.non_membership_proof,
            proof.old_root,
            sha256(proof.tx.vk),
        ) && proof.tx.nonce == 0 && witness_shows_member(
            proof.membership_proof,
            proof.new_root,
            sha256(proof.tx.vk),
            spec_account_bytes(1),
        ),
        spec_apply_tx(0, proof.tx) is Ok ==> spec_apply_tx(0, proof.tx) == Ok::<u64, NodeError>(1),
{
}

/// An update proof is accepted exactly when its first witness shows the old
/// account under the old root, the transaction carries the old account's
/// nonce, and its second witness shows, under the new root, the account with
/// the next nonce.
pub proof fn update_proof_accepted_iff(proof: UpdateProofView)
    ensures
        spec_verify_update(proof) is Ok <==> witness_shows_member(
            proof.old_membership_proof,
            proof.old_root,
            sha256(proof.tx.vk),
            spec_account_bytes(proof.old_account),
        ) && proof.tx.nonce == proof.old_account && proof.old_account < u64::MAX
            && witness_shows_member(
            proof.membership_proof,
            proof.new_root,
            sha256(proof.tx.vk),
            spec_account_bytes((proof.old_account + 1) as u64),
        ),
{
}

/// An insertion proof is refused with the error of the first step that fails:
/// a rejected first witness, whatever was changed to make the verifier reject
/// it; then a transaction that is not the first of its account; then a
/// rejected second witness.
pub proof fn insert_proof_refused_at_the_first_failing_step(proof: InsertProofView)
    ensures
        !witness_shows_absent(proof.non_membership_proof, proof.old_root, sha256(proof.tx.vk))
            ==> spec_verify_insert(proof) == Err::<(), NodeError>(
            NodeError::InvalidNonMembershipProof,
        ),
        witness_shows_absent(proof.non_membership_proof, proof.old_root, sha256(proof.tx.vk))
            && proof.tx.nonce != 0 ==> spec_verify_insert(proof) == Err::<(), NodeError>(
            NodeError::TxApplication,
        ),
        witness_shows_absent(proof.non_membership_proof, proof.old_root, sha256(proof.tx.vk))
            && proof.tx.nonce == 0 && !witness_shows_member(
            proof.membership_proof,
            proof.new_root,
            sha256(proof.tx.vk),
            spec_account_bytes(1),
        ) ==> spec_verify_insert(proof) == Err::<(), NodeError>(NodeError::InvalidMembershipProof),
{
}

/// An update proof is refused with the error of the first step that fails: a
/// rejected first witness, whatever was changed to make the verifier reject
/// it; then a transaction that does not apply to the old account; then a
/// rejected second witness.
pub proof fn update_proof_refused_at_the_first_failing_step(proof: UpdateProofView)
    ensures
        !witness_shows_member(
            proof.old_membership_proof,
            proof.old_root,
            sha256(proof.tx.vk),
            spec_account_bytes(proof.old_account),
        ) ==> spec_verify_update(proof) == Err::<(), NodeError>(
            NodeError::InvalidOldMembershipProof,
        ),
        witness_shows_member(
            proof.old_membership_proof,
            proof.old_root,
            sha256(proof.tx.vk),
            spec_account_bytes(proof.old_account),
        ) && (proof.tx.nonce != proof.old_account || proof.old_account == u64::MAX)
            ==> spec_verify_update(proof) == Err::<(), NodeError>(NodeError::TxApplication),
        witness_shows_member(
            proof.old_membership_proof,
            proof.old_root,
            sha256(proof.tx.vk),
            spec_account_bytes(proof.old_account),
        ) && proof.tx.nonce == proof.old_account && proof.old_account < u64::MAX
            && !witness_shows_member(
            proof.membership_proof,
            proof.new_root,
            sha256(proof.tx.vk),
            spec_account_bytes((proof.old_account + 1) as u64),
        ) ==> spec_verify_update(proof) == Err::<(), NodeError>(NodeError::InvalidMembershipProof),
{
}

/// An accepted insertion proof in which a root is replaced is refused where
/// the verifier rejects the witness under the other root: for the old root as
/// an invalid non-membership proof, for the new root as an invalid membership
/// proof.
pub proof fn insert_proof_fails_under_another_root(accepted: InsertProofView, root: Seq<u8>)
    requires
        spec_verify_insert(accepted) is Ok,
    ensures
        !witness_shows_absent(accepted.non_membership_proof, root, sha256(accepted.tx.vk))
            ==> spec_verify_insert(InsertProofView { old_root: root, ..accepted }) == Err::<
            (),
            NodeError,
        >(NodeError::InvalidNonMembershipProof),
        !witness_shows_member(
            accepted.membership_proof,
            root,
            sha256(accepted.tx.vk),
            spec_account_bytes(1),
        ) ==> spec_verify_insert(InsertProofView { new_root: root, ..accepted }) == Err::<
            (),
            NodeError,
        >(NodeError::InvalidMembershipProof),
{
}

/// An accepted insertion proof in which the verifying key is replaced is
/// refused where the verifier rejects one of the witnesses for the hash of the
/// other key.
pub proof fn insert_proof_fails_for_another_key(accepted: InsertProofView, vk: Seq<u8>)
    requires
        spec_verify_insert(accepted) is Ok,
        !witness_shows_absent(accepted.non_membership_proof, accepted.old_root, sha256(vk))
            || !witness_shows_member(
            accepted.membership_proof,
            accepted.new_root,
            sha256(vk),
            spec_account_bytes(1),
        ),
    ensures
        spec_verify_insert(
            InsertProofView { tx: TransactionView { vk, ..accepted.tx }, ..accepted },
        ) is Err,
{
}

/// An accepted update proof in which a root is replaced is refused where the
/// verifier rejects the witness under the other root: for the old root as an
/// invalid old-membership proof, for the new root as an invalid membership
/// proof.
pub proof fn update_proof_fails_under_another_root(accepted: UpdateProofView, root: Seq<u8>)
    requires
        spec_verify_update(accepted) is Ok,
    ensures
        !witness_shows_member(
            accepted.old_membership_proof,
            root,
            sha256(accepted.tx.vk),
            spec_account_bytes(accepted.old_account),
        ) ==> spec_verify_update(UpdateProofView { old_root: root, ..accepted }) == Err::<
            (),
            NodeError,
        >(NodeError::InvalidOldMembershipProof),
        !witness_shows_member(
            accepted.membership_proof,
            root,
            sha256(accepted.tx.vk),
            spec_account_bytes((accepted.old_account + 1) as u64),
        ) ==> spec_verify_update(UpdateProofView { new_root: root, ..accepted }) == Err::<
            (),
            NodeError,
        >(NodeError::InvalidMembershipProof),
{
}

/// An accepted update proof in which the witnesses are replaced, by each
/// other or by any others, is refused where the verifier rejects one of them
/// in its place; and a transaction with another nonce is refused as one that
/// does not apply.
pub proof fn update_proof_fails_with_other_parts(
    accepted: UpdateProofView,
    old_witness: Seq<u8>,
    new_witness: Seq<u8>,
    nonce: u64,
)
    requires
        spec_verify_update(accepted) is Ok,
    ensures
        !witness_shows_member(
            old_witness,
            accepted.old_root,
            sha256(accepted.tx.vk),
            spec_account_bytes(accepted.old_account),
        ) || !witness_shows_member(
            new_witness,
            accepted.new_root,
            sha256(accepted.tx.vk),
            spec_account_bytes((accepted.old_account + 1) as u64),
        ) ==> spec_verify_update(
            UpdateProofView {
                old_membership_proof: old_witness,
                membership_proof: new_witness,
                ..accepted
            },
        ) is Err,
        nonce != accepted.tx.nonce ==> spec_verify_update(
            UpdateProofView { tx: TransactionView { nonce, ..accepted.tx }, ..accepted },
        ) == Err::<(), NodeError>(NodeError::TxApplication),
{
}

/// One state transition, proved.
pub enum Proof {
    Insert(InsertProof),
    Update(UpdateProof),
}

/// A contiguous run of proofs that leads from `prev_root` to `new_root`.
pub struct Batch {
    pub prev_root: Digest,
    pub new_root: Digest,
    pub proofs: Vec<Proof>,
}

} // verus!
