//! Transactions and the batches in which they travel.

use crate::codec::{
    decode_batch, decode_transaction, encode_batch, encode_transaction, spec_decode_blob,
    spec_encode_batch, spec_encode_transaction,
};
use crate::error::NodeError;
use crate::keys::{sign_message, signature_by, signature_valid, verify_signature};
use crate::wire::{u32_bytes, u64_bytes};
use vstd::bytes::*;
use vstd::prelude::*;

verus! {

/// If true, the signature of a transaction is checked before the transaction
/// is accepted. If false, signatures are ignored.
pub const SIGNATURE_VERIFICATION_ENABLED: bool = false;

/// The full set of transaction types supported by the system.
#[derive(Clone, Copy, Debug, PartialEq, Eq, Structural)]
pub enum TransactionType {
    Noop,
}

impl TransactionType {
    /// The number that stands for this type on the wire.
    pub open spec fn spec_index(&self) -> u32 {
        match self {
            TransactionType::Noop => 0,
        }
    }

    /// The number that stands for this type on the wire.
    pub fn index(&self) -> (i: u32)
        ensures
            i == self.spec_index(),
    {
        match self {
            TransactionType::Noop => 0,
        }
    }

    /// The type that `index` stands for, if there is one.
    pub open spec fn spec_from_index(index: u32) -> Option<TransactionType> {
        if index == 0 {
            Some(TransactionType::Noop)
        } else {
            None
        }
    }

    /// The type that `index` stands for, if there is one.
    pub fn from_index(index: u32) -> (t: Option<TransactionType>)
        ensures
            t == Self::spec_from_index(index),
    {
        if index == 0 {
            Some(TransactionType::Noop)
        } else {
            None
        }
    }
}

/// A request to change the state of one account.
#[derive(Debug, PartialEq, Eq)]
pub struct Transaction {
    /// Signature over `signature_msg()`. Empty where no signature is given.
    pub signature: Vec<u8>,
    /// The bytes of the account's verifying key.
    pub vk: Vec<u8>,
    /// The nonce that the account must have for the transaction to apply.
    pub nonce: u64,
    /// Transaction variant.
    pub tx_type: TransactionType,
}

/// What a transaction is, apart from where its bytes are kept.
pub struct TransactionView {
    pub signature: Seq<u8>,
    pub vk: Seq<u8>,
    pub nonce: u64,
    pub tx_type: TransactionType,
}

impl View for Transaction {
    type V = TransactionView;

    open spec fn view(&self) -> TransactionView {
        TransactionView {
            signature: self.signature@,
            vk: self.vk@,
            nonce: self.nonce,
            tx_type: self.tx_type,
        }
    }
}

impl Clone for Transaction {
    fn clone(&self) -> (copy: Self)
        ensures
            copy@ == self@,
    {
        Transaction {
            signature: self.signature.clone(),
            vk: self.vk.clone(),
            nonce: self.nonce,
            tx_type: self.tx_type,
        }
    }
}

/// The bytes that a signature of the transaction covers: the type's index in
/// four bytes, then the nonce in eight.
pub open spec fn spec_signature_msg(tx: TransactionView) -> Seq<u8> {
    spec_u32_to_le_bytes(tx.tx_type.spec_index()) + spec_u64_to_le_bytes(tx.nonce)
}

/// Whether a transaction carries a valid signature of its own message under
/// its own verifying key.
pub open spec fn spec_signed(tx: TransactionView) -> bool {
    signature_valid(tx.vk, spec_signature_msg(tx), tx.signature)
}

/// What verifying a transaction gives: its signature counts only where
/// signatures are checked.
pub open spec fn spec_verify(tx: TransactionView) -> Result<(), NodeError> {
    if SIGNATURE_VERIFICATION_ENABLED && !spec_signed(tx) {
        Err(NodeError::InvalidSignature)
    } else {
        Ok(())
    }
}

impl Transaction {
    /// Whether the transaction carries a valid signature of its message under
    /// its verifying key, whether or not signatures are checked.
    pub fn has_valid_signature(&self) -> (ok: bool)
        ensures
            ok == spec_signed(self@),
    {
        let msg = self.signature_msg();
        verify_signature(self.vk.as_slice(), msg.as_slice(), self.signature.as_slice())
    }

    /// Accepts the transaction or says why not: where signatures are checked,
    /// the signature has to be valid.
    pub fn verify(&self) -> (r: Result<(), NodeError>)
        ensures
            r == spec_verify(self@),
    {
        if SIGNATURE_VERIFICATION_ENABLED {
            if !self.has_valid_signature() {
                return Err(NodeError::InvalidSignature);
            }
        }
        match self.tx_type {
            TransactionType::Noop => Ok(()),
        }
    }

    /// The signature that `key` makes of this transaction's message.
    pub fn signature_with(&self, key: &[u8; 32]) -> (signature: Vec<u8>)
        ensures
            signature@ == signature_by(key@, spec_signature_msg(self@)),
    {
        let msg = self.signature_msg();
        sign_message(key, msg.as_slice())
    }

    /// Signs the transaction with `key`. Refused, with the transaction
    /// unchanged, where signatures are not checked.
    pub fn sign(&mut self, key: &[u8; 32]) -> (r: Result<(), NodeError>)
        ensures
            SIGNATURE_VERIFICATION_ENABLED ==> r is Ok && final(self)@ == (TransactionView {
                signature: signature_by(key@, spec_signature_msg(old(self)@)),
                ..old(self)@
            }),
            !SIGNATURE_VERIFICATION_ENABLED ==> r == Err::<(), NodeError>(
                NodeError::SigningDisabled,
            ) && final(self)@ == old(self)@,
    {
        if SIGNATURE_VERIFICATION_ENABLED {
            let signature = self.signature_with(key);
            self.signature = signature;
            return Ok(());
        }
        Err(NodeError::SigningDisabled)
    }

    /// The blob that carries this transaction alone. It reads back as a batch
    /// of this one transaction.
    pub fn encode(&self) -> (blob: Vec<u8>)
        ensures
            blob@ == spec_encode_transaction(self@),
            spec_decode_blob(blob@) == Some(seq![self@]),
    {
        encode_transaction(self)
    }

    /// The bytes that a signature of this transaction covers.
    pub fn signature_msg(&self) -> (msg: Vec<u8>)
        ensures
            msg@ == spec_signature_msg(self@),
    {
        let mut msg = u32_bytes(self.tx_type.index());
        let mut nonce = u64_bytes(self.nonce);
        msg.append(&mut nonce);
        msg
    }
}

/// An ordered group of transactions bundled into one submission.
#[derive(Debug, PartialEq, Eq)]
pub struct Batch(Vec<Transaction>);

impl View for Batch {
    type V = Seq<TransactionView>;

    closed spec fn view(&self) -> Seq<TransactionView> {
        views_of(self.0@)
    }
}

/// The transactions of a list, each by its view.
pub open spec fn views_of(txs: Seq<Transaction>) -> Seq<TransactionView> {
    Seq::new(txs.len(), |i: int| txs[i]@)
}

/// A copy of `txs`, transaction by transaction.
pub fn clone_transactions(txs: &Vec<Transaction>) -> (copy: Vec<Transaction>)
    ensures
        views_of(copy@) == views_of(txs@),
{
    let mut copy: Vec<Transaction> = Vec::new();
    let mut i: usize = 0;
    while i < txs.len()
        invariant
            i <= txs.len(),
            copy.len() == i,
            forall|j: int| 0 <= j < i ==> copy@[j]@ == txs@[j]@,
        decreases txs.len() - i,
    {
        copy.push(txs[i].clone());
        i += 1;
    }
    assert(views_of(copy@) =~= views_of(txs@));
    copy
}

impl Batch {
    /// The batch that holds `txs` in their order.
    pub fn new(txs: Vec<Transaction>) -> (batch: Self)
        ensures
            batch@ == views_of(txs@),
    {
        Batch(txs)
    }

    /// The blob that carries the batch. It reads back as the same
    /// transactions in the same order.
    pub fn encode(&self) -> (blob: Vec<u8>)
        ensures
            blob@ == spec_encode_batch(self@),
            spec_decode_blob(blob@) == Some(self@),
    {
        encode_batch(&self.0)
    }

    /// Reads a blob: as a batch, or, where it holds no batch, as a single
    /// transaction, which gives a batch of one.
    pub fn try_from(blob: &[u8]) -> (r: Result<Batch, NodeError>)
        ensures
            match spec_decode_blob(blob@) {
                Some(txs) => r is Ok && r->Ok_0@ == txs,
                None => r is Err && r->Err_0 == NodeError::Decode,
            },
    {
        match decode_batch(blob) {
            Some(txs) => Ok(Batch(txs)),
            None => match decode_transaction(blob) {
                Some(tx) => {
                    let mut txs: Vec<Transaction> = Vec::new();
                    txs.push(tx);
                    assert(views_of(txs@) == seq![tx@]);
                    Ok(Batch(txs))
                },
                None => Err(NodeError::Decode),
            },
        }
    }

    /// The number of transactions in the batch.
    pub fn len(&self) -> (n: usize)
        ensures
            n == self@.len(),
    {
        self.0.len()
    }

    /// The transactions of the batch, in their order.
    pub fn get_transactions(&self) -> (txs: Vec<Transaction>)
        ensures
            views_of(txs@) == self@,
    {
        clone_transactions(&self.0)
    }
}

} // verus!
