//! Accounts, and the state that a node keeps of them.

use crate::digest::{sha256, Digest};
use crate::error::NodeError;
use crate::tree::{spec_writes, writes_view, DirectoryState, KeyDirectoryTree, LAST_EPOCH};
use crate::tx::{spec_verify, views_of, Transaction, TransactionType, TransactionView};
use jmt::storage::{TreeReader, TreeWriter};
use std::sync::Arc;
use crate::wire::{read_u64, spec_read_u64, u64_bytes};
use vstd::bytes::*;
use vstd::prelude::*;

verus! {

/// The state of one account: the nonce that its next transaction must carry.
#[derive(Debug, Clone, Copy, PartialEq, Eq, Structural)]
pub struct Account {
    nonce: u64,
}

impl View for Account {
    type V = u64;

    /// The account's nonce.
    closed spec fn view(&self) -> u64 {
        self.nonce
    }
}

impl Default for Account {
    /// The account that has applied no transaction.
    fn default() -> (account: Self)
        ensures
            account@ == 0,
    {
        Account { nonce: 0 }
    }
}

/// What applying `tx` does to an account whose nonce is `nonce`: the new nonce,
/// or the reason for which the transaction does not apply.
pub open spec fn spec_apply_tx(nonce: u64, tx: TransactionView) -> Result<u64, NodeError> {
    if tx.nonce != nonce {
        Err(NodeError::InvalidNonce)
    } else if nonce == u64::MAX {
        Err(NodeError::NonceExhausted)
    } else {
        Ok((nonce + 1) as u64)
    }
}

/// The leaf value that stands for an account with this nonce.
pub open spec fn spec_account_bytes(nonce: u64) -> Seq<u8> {
    spec_u64_to_le_bytes(nonce)
}

/// The nonce of the account that a leaf value stands for, if it stands for one.
pub open spec fn spec_account_from_bytes(bytes: Seq<u8>) -> Option<u64> {
    if bytes.len() == 8 {
        Some(spec_u64_from_le_bytes(bytes))
    } else {
        None
    }
}

impl Account {
    /// The account's nonce.
    pub fn nonce(&self) -> (n: u64)
        ensures
            n == self@,
    {
        self.nonce
    }

    /// Applies `tx`: the nonce goes up by one where the transaction carries the
    /// account's nonce; otherwise the account stays as it is.
    pub fn apply_tx(&mut self, tx: &Transaction) -> (r: Result<(), NodeError>)
        ensures
            match spec_apply_tx(old(self)@, tx@) {
                Ok(nonce) => r is Ok && final(self)@ == nonce,
                Err(e) => r == Err::<(), NodeError>(e) && final(self)@ == old(self)@,
            },
    {
        if tx.nonce != self.nonce {
            return Err(NodeError::InvalidNonce);
        }
        match tx.tx_type {
            TransactionType::Noop => {},
        }
        if self.nonce == u64::MAX {
            return Err(NodeError::NonceExhausted);
        }
        self.nonce = self.nonce + 1;
        Ok(())
    }

    /// The leaf value that stands for the account.
    pub fn to_bytes(&self) -> (bytes: Vec<u8>)
        ensures
            bytes@ == spec_account_bytes(self@),
    {
        u64_bytes(self.nonce)
    }

    /// The account that a leaf value stands for.
    pub fn from_bytes(bytes: &[u8]) -> (r: Result<Account, NodeError>)
        ensures
            match spec_account_from_bytes(bytes@) {
                Some(nonce) => r is Ok && r->Ok_0@ == nonce,
                None => r == Err::<Account, NodeError>(NodeError::CorruptAccount),
            },
    {
        if bytes.len() != 8 {
            return Err(NodeError::CorruptAccount);
        }
        assert(bytes@.subrange(0, 8) == bytes@);
        match read_u64(bytes, 0) {
            Some(nonce) => Ok(Account { nonce }),
            None => Err(NodeError::CorruptAccount),
        }
    }
}

/// The account that a directory entry stands for: a fresh account where the key
/// holds nothing.
pub open spec fn spec_resolve_account(stored: Option<Seq<u8>>) -> Result<u64, NodeError> {
    match stored {
        None => Ok(0),
        Some(bytes) => match spec_account_from_bytes(bytes) {
            Some(nonce) => Ok(nonce),
            None => Err(NodeError::CorruptAccount),
        },
    }
}

/// Whether `tx` may be applied to an account whose nonce is `nonce`: it has to
/// verify, and to carry that nonce.
pub open spec fn spec_validate_tx(nonce: u64, tx: TransactionView) -> Result<(), NodeError> {
    match spec_verify(tx) {
        Err(e) => Err(e),
        Ok(_) => match spec_apply_tx(nonce, tx) {
            Ok(_) => Ok(()),
            Err(e) => Err(e),
        },
    }
}

/// The leaf value that the key of `tx` holds once `tx` has been applied to
/// what it held before, or the reason for which `tx` is refused.
pub open spec fn spec_next_leaf(stored: Option<Seq<u8>>, tx: TransactionView) -> Result<
    Seq<u8>,
    NodeError,
> {
    match spec_verify(tx) {
        Err(e) => Err(e),
        Ok(_) => match spec_resolve_account(stored) {
            Err(e) => Err(e),
            Ok(nonce) => match spec_apply_tx(nonce, tx) {
                Err(e) => Err(e),
                Ok(next) => Ok(spec_account_bytes(next)),
            },
        },
    }
}

/// The bytes of an optional value.
pub open spec fn stored_view(stored: Option<Vec<u8>>) -> Option<Seq<u8>> {
    match stored {
        None => None,
        Some(bytes) => Some(bytes@),
    }
}

/// The account that a directory entry stands for.
pub fn resolve_account(stored: &Option<Vec<u8>>) -> (r: Result<Account, NodeError>)
    ensures
        match spec_resolve_account(stored_view(*stored)) {
            Ok(nonce) => r is Ok && r->Ok_0@ == nonce,
            Err(e) => r == Err::<Account, NodeError>(e),
        },
{
    match stored {
        None => Ok(Account::default()),
        Some(bytes) => Account::from_bytes(bytes.as_slice()),
    }
}

/// Decides whether `tx` may be applied to `account`.
pub fn validate_against(account: &Account, tx: &Transaction) -> (r: Result<(), NodeError>)
    ensures
        r == spec_validate_tx(account@, tx@),
{
    match tx.verify() {
        Ok(()) => {},
        Err(e) => {
            return Err(e);
        },
    }
    let mut trial = *account;
    match trial.apply_tx(tx) {
        Ok(()) => Ok(()),
        Err(e) => Err(e),
    }
}

/// Decides what the key of `tx` holds once `tx` has been applied to what it
/// held before.
pub fn next_leaf(stored: &Option<Vec<u8>>, tx: &Transaction) -> (r: Result<Vec<u8>, NodeError>)
    ensures
        match spec_next_leaf(stored_view(*stored), tx@) {
            Ok(bytes) => r is Ok && r->Ok_0@ == bytes,
            Err(e) => r == Err::<Vec<u8>, NodeError>(e),
        },
{
    match tx.verify() {
        Ok(()) => {},
        Err(e) => {
            return Err(e);
        },
    }
    let mut account = match resolve_account(stored) {
        Ok(account) => account,
        Err(e) => {
            return Err(e);
        },
    };
    match account.apply_tx(tx) {
        Ok(()) => Ok(account.to_bytes()),
        Err(e) => Err(e),
    }
}

/// The rollup state that transactions change: the directory of accounts.
pub struct State<S> {
    jmt: KeyDirectoryTree<S>,
}

impl<S> View for State<S> {
    type V = DirectoryState;

    /// The directory's epoch, and whether writes wait to be flushed.
    closed spec fn view(&self) -> DirectoryState {
        self.jmt@
    }
}

impl<S: TreeReader + TreeWriter> State<S> {
    /// The state over a new directory in `store`.
    pub fn new(store: Arc<S>) -> (r: Result<Self, NodeError>)
        ensures
            r matches Ok(state) ==> state@ == DirectoryState::created(),
            r matches Err(e) ==> e == NodeError::Store,
    {
        match KeyDirectoryTree::new(store) {
            Ok(jmt) => Ok(State { jmt }),
            Err(e) => Err(e),
        }
    }

    /// The directory's current epoch.
    pub fn epoch(&self) -> (epoch: u64)
        ensures
            epoch == self@.epoch,
    {
        self.jmt.epoch()
    }

    /// The root hash that commits to the accounts at the current epoch.
    pub fn get_commitment(&self) -> (r: Result<Digest, NodeError>)
        ensures
            r matches Err(e) ==> e == NodeError::MissingRoot,
    {
        self.jmt.get_commitment()
    }

    /// The account of the holder of `vk` at the current epoch; a fresh account
    /// where the directory holds none.
    pub fn account(&self, vk: &[u8]) -> (r: Result<Account, NodeError>)
        ensures
            r matches Err(e) ==> e == NodeError::Store || e == NodeError::CorruptAccount,
    {
        let key = Digest::hash(vk);
        match self.jmt.get(&key) {
            Ok(stored) => resolve_account(&stored),
            Err(e) => Err(e),
        }
    }

    /// Validates a transaction against the current state: its signature, where
    /// signatures are checked, and its nonce against the account's.
    pub fn validate_tx(&self, tx: &Transaction) -> (r: Result<(), NodeError>)
        ensures
            spec_verify(tx@) is Err ==> r == spec_verify(tx@),
            validation_can_answer(tx@, r),
            r matches Err(e) ==> e == NodeError::InvalidSignature || e == NodeError::InvalidNonce
                || e == NodeError::NonceExhausted || e == NodeError::Store || e
                == NodeError::CorruptAccount,
    {
        match tx.verify() {
            Ok(()) => {},
            Err(e) => {
                return Err(e);
            },
        }
        match self.account(tx.vk.as_slice()) {
            Ok(account) => validate_against(&account, tx),
            Err(e) => Err(e),
        }
    }

    /// Validates a transaction, applies it to its account and commits the new
    /// account: the epoch advances by one, and the store has taken the new
    /// account under the hash of the transaction's verifying key. A
    /// transaction that does not verify is refused for that; one that
    /// verifies is refused while writes wait, and from the epoch before the
    /// last one on; otherwise the answer is that of validation, or that the
    /// store failed. A transaction that is refused leaves the directory as it
    /// was.
    pub fn process_tx(&mut self, tx: &Transaction) -> (r: Result<(), NodeError>)
        ensures
            spec_verify(tx@) is Err ==> r == spec_verify(tx@),
            spec_verify(tx@) is Ok && old(self)@.pending ==> r == Err::<(), NodeError>(
                NodeError::WritesPending,
            ),
            spec_verify(tx@) is Ok && !old(self)@.pending && old(self)@.epoch >= LAST_EPOCH ==> r
                == Err::<(), NodeError>(NodeError::EpochOverflow),
            spec_verify(tx@) is Ok && !old(self)@.pending && old(self)@.epoch < LAST_EPOCH
                ==> validation_can_answer(tx@, r),
            r is Ok ==> spec_validate_tx(tx@.nonce, tx@) is Ok && final(self)@ == spec_applied(
                old(self)@,
                tx@,
            ) && old(self)@.epoch < LAST_EPOCH && !old(self)@.pending,
            r is Err ==> final(self)@ == old(self)@,
    {
        match tx.verify() {
            Ok(()) => {},
            Err(e) => {
                return Err(e);
            },
        }
        proof {
            self.jmt.well_formed();
        }
        if self.jmt.has_pending() {
            return Err(NodeError::WritesPending);
        }
        if self.jmt.epoch() >= LAST_EPOCH {
            return Err(NodeError::EpochOverflow);
        }
        let key = Digest::hash(tx.vk.as_slice());
        let stored = match self.jmt.get(&key) {
            Ok(stored) => stored,
            Err(e) => {
                return Err(e);
            },
        };
        proof {
            decision_is_an_answer(stored_view(stored), tx@);
        }
        let leaf = match next_leaf(&stored, tx) {
            Ok(leaf) => leaf,
            Err(e) => {
                return Err(e);
            },
        };
        assert(leaf@ == spec_account_bytes((tx@.nonce + 1) as u64));
        assert(spec_validate_tx(tx@.nonce, tx@) is Ok);
        match self.jmt.put(&key, leaf) {
            Ok(_) => {},
            Err(e) => {
                return Err(e);
            },
        }
        let r = self.jmt.write_batch();
        proof {
            if r is Ok {
                assert(self@ =~= spec_applied(old(self)@, tx@));
                assert(r == spec_validate_tx(tx@.nonce, tx@));
            } else {
                assert(self@ =~= old(self)@);
            }
        }
        r
    }

    /// Decides one transaction of a batch over what the batch has staged so
    /// far: where the batch has staged an account for the transaction's key,
    /// the decision is made on that account; otherwise on what the directory
    /// holds. A transaction that is accepted stages the account it leaves.
    fn stage(&self, staged: &mut Vec<(Digest, Vec<u8>)>, tx: &Transaction) -> (decision: Result<
        (),
        NodeError,
    >)
        ensures
            match spec_staged_leaf(writes_view(old(staged)@), sha256(tx@.vk)) {
                Some(leaf) => decision == spec_decide(Some(leaf), tx@),
                None => validation_can_answer(tx@, decision),
            },
            decision is Ok ==> writes_view(final(staged)@) == writes_view(old(staged)@).push(
                (sha256(tx@.vk), spec_account_bytes((tx@.nonce + 1) as u64)),
            ),
            decision is Err ==> writes_view(final(staged)@) == writes_view(old(staged)@),
    {
        proof {
            decision_is_an_answer(None, tx@);
        }
        match tx.verify() {
            Ok(()) => {},
            Err(e) => {
                return Err(e);
            },
        }
        let key = Digest::hash(tx.vk.as_slice());
        let stored = match find_staged(staged, &key) {
            Some(leaf) => Some(leaf),
            None => match self.jmt.get(&key) {
                Ok(stored) => stored,
                Err(e) => {
                    return Err(e);
                },
            },
        };
        proof {
            decision_is_an_answer(stored_view(stored), tx@);
        }
        match next_leaf(&stored, tx) {
            Ok(leaf) => {
                assert(writes_view(staged@.push((key, leaf))) =~= writes_view(staged@).push(
                    (key@, leaf@),
                ));
                staged.push((key, leaf));
                Ok(())
            },
            Err(e) => Err(e),
        }
    }

    /// Applies the transactions of one batch, in order, and commits what they
    /// leave in one flush: the epoch advances by one where at least one
    /// transaction was accepted and the store took the flush. A transaction
    /// sees what the accepted ones before it in the batch have left. The
    /// decisions come back in the transactions' order; they take effect
    /// where `committed` is `Ok`. A batch in which nothing is accepted changes
    /// nothing.
    pub fn process_batch(&mut self, txs: &Vec<Transaction>) -> (outcome: BatchOutcome)
        ensures
            spec_batch_decided(views_of(txs@), outcome.decisions@),
            outcome.committed == spec_batch_committed(
                old(self)@,
                spec_staged(views_of(txs@), outcome.decisions@),
                outcome.committed is Ok,
            ),
            outcome.committed is Ok && spec_staged(views_of(txs@), outcome.decisions@).len() > 0
                ==> final(self)@ == spec_batch_applied(
                old(self)@,
                spec_staged(views_of(txs@), outcome.decisions@),
            ),
            outcome.committed is Err || spec_staged(views_of(txs@), outcome.decisions@).len() == 0
                ==> final(self)@ == old(self)@,
    {
        proof {
            self.jmt.well_formed();
        }
        let mut staged: Vec<(Digest, Vec<u8>)> = Vec::new();
        let mut decisions: Vec<Result<(), NodeError>> = Vec::new();
        let mut i: usize = 0;
        let ghost all = views_of(txs@);
        assert(writes_view(staged@) =~= Seq::<(Seq<u8>, Seq<u8>)>::empty());
        assert(all.take(0) =~= Seq::<TransactionView>::empty());
        while i < txs.len()
            invariant
                i <= txs.len(),
                all == views_of(txs@),
                decisions@.len() == i,
                self@ == old(self)@,
                writes_view(staged@) == spec_staged(all.take(i as int), decisions@),
                spec_batch_decided(all.take(i as int), decisions@),
            decreases txs.len() - i,
        {
            let decision = self.stage(&mut staged, &txs[i]);
            proof {
                let next = all.take(i + 1);
                assert(next.drop_last() =~= all.take(i as int));
                assert(next.last() == txs@[i as int]@);
                assert(decisions@.push(decision).drop_last() =~= decisions@);
            }
            decisions.push(decision);
            i += 1;
        }
        assert(all.take(i as int) =~= all);
        if staged.len() == 0 {
            return BatchOutcome { decisions, committed: Ok(()) };
        }
        match self.jmt.put_all(&staged) {
            Ok(_) => {},
            Err(e) => {
                return BatchOutcome { decisions, committed: Err(e) };
            },
        }
        let committed = self.jmt.write_batch();
        proof {
            if committed is Ok {
                assert(self@ =~= spec_batch_applied(old(self)@, writes_view(staged@)));
            } else {
                assert(self@ =~= old(self)@);
            }
        }
        BatchOutcome { decisions, committed }
    }
}

/// The directory after `tx` was applied and committed: one epoch on, with the
/// account that the transaction leaves flushed under the hash of its
/// verifying key, and nothing waiting.
pub open spec fn spec_applied(before: DirectoryState, tx: TransactionView) -> DirectoryState {
    DirectoryState {
        epoch: (before.epoch + 1) as u64,
        pending: false,
        waiting_values: Map::empty(),
        waiting_nodes: Map::empty(),
        flushed_values: before.flushed_values.insert(
            ((before.epoch + 1) as u64, sha256(tx.vk)),
            Some(spec_account_bytes((tx.nonce + 1) as u64)),
        ),
    }
}

/// Applying a transaction that carries the account's nonce succeeds and raises
/// the nonce by exactly one, unless the nonce is already the largest there is;
/// a transaction with any other nonce is refused as an invalid nonce.
pub proof fn apply_tx_follows_nonce(nonce: u64, tx: TransactionView)
    ensures
        tx.nonce == nonce && nonce < u64::MAX ==> spec_apply_tx(nonce, tx) == Ok::<u64, NodeError>(
            (nonce + 1) as u64,
        ),
        tx.nonce != nonce ==> spec_apply_tx(nonce, tx) == Err::<u64, NodeError>(NodeError::InvalidNonce),
{
}

/// A leaf value written for an account reads back as that account.
pub proof fn account_bytes_round_trip(nonce: u64)
    ensures
        spec_account_from_bytes(spec_account_bytes(nonce)) == Some(nonce),
{
    lemma_auto_spec_u64_to_from_le_bytes();
}

/// What a batch comes to: the decision on each of its transactions, and
/// whether what the accepted ones leave was committed.
#[derive(Debug, PartialEq, Eq)]
pub struct BatchOutcome {
    /// The decision on each transaction, in the batch's order.
    pub decisions: Vec<Result<(), NodeError>>,
    /// Whether the flush of what the accepted transactions leave succeeded.
    /// The decisions take effect only where it did.
    pub committed: Result<(), NodeError>,
}

/// The decision on `tx` over the leaf that its key holds.
pub open spec fn spec_decide(stored: Option<Seq<u8>>, tx: TransactionView) -> Result<(), NodeError> {
    match spec_next_leaf(stored, tx) {
        Ok(_) => Ok(()),
        Err(e) => Err(e),
    }
}

/// What a batch has staged once `decisions` were taken on `txs`: for each
/// accepted transaction, in order, the account that it leaves under the hash
/// of its verifying key.
pub open spec fn spec_staged(
    txs: Seq<TransactionView>,
    decisions: Seq<Result<(), NodeError>>,
) -> Seq<(Seq<u8>, Seq<u8>)>
    decreases txs.len(),
{
    if txs.len() == 0 || decisions.len() != txs.len() {
        Seq::empty()
    } else {
        let before = spec_staged(txs.drop_last(), decisions.drop_last());
        if decisions.last() is Ok {
            before.push(
                (sha256(txs.last().vk), spec_account_bytes((txs.last().nonce + 1) as u64)),
            )
        } else {
            before
        }
    }
}

/// The leaf that was staged last for `key`, if one was.
pub open spec fn spec_staged_leaf(staged: Seq<(Seq<u8>, Seq<u8>)>, key: Seq<u8>) -> Option<Seq<u8>>
    decreases staged.len(),
{
    if staged.len() == 0 {
        None
    } else if staged.last().0 == key {
        Some(staged.last().1)
    } else {
        spec_staged_leaf(staged.drop_last(), key)
    }
}

/// Whether `decisions` are what the transactions of a batch get, in order:
/// each is decided on the account that the accepted transactions before it
/// have staged for its key, or, where none has, it is an answer that
/// validation against the directory can give.
pub open spec fn spec_batch_decided(
    txs: Seq<TransactionView>,
    decisions: Seq<Result<(), NodeError>>,
) -> bool
    decreases txs.len(),
{
    decisions.len() == txs.len() && (txs.len() > 0 ==> {
        &&& spec_batch_decided(txs.drop_last(), decisions.drop_last())
        &&& match spec_staged_leaf(
            spec_staged(txs.drop_last(), decisions.drop_last()),
            sha256(txs.last().vk),
        ) {
            Some(leaf) => decisions.last() == spec_decide(Some(leaf), txs.last()),
            None => validation_can_answer(txs.last(), decisions.last()),
        }
    })
}

/// What the commit of a batch answers. A batch that staged nothing has
/// nothing to commit and succeeds. One that staged something is refused
/// while writes wait, and from the epoch before the last one on; otherwise it
/// fails only where the store does. `written` says whether the store took
/// the flush.
pub open spec fn spec_batch_committed(
    before: DirectoryState,
    staged: Seq<(Seq<u8>, Seq<u8>)>,
    written: bool,
) -> Result<(), NodeError> {
    if staged.len() == 0 {
        Ok(())
    } else if before.pending {
        Err(NodeError::WritesPending)
    } else if before.epoch >= LAST_EPOCH {
        Err(NodeError::EpochOverflow)
    } else if written {
        Ok(())
    } else {
        Err(NodeError::Store)
    }
}

/// The directory after a batch that staged `staged` was committed: one epoch
/// on, with what was staged flushed at that epoch, and nothing waiting.
pub open spec fn spec_batch_applied(
    before: DirectoryState,
    staged: Seq<(Seq<u8>, Seq<u8>)>,
) -> DirectoryState {
    DirectoryState {
        epoch: (before.epoch + 1) as u64,
        pending: false,
        waiting_values: Map::empty(),
        waiting_nodes: Map::empty(),
        flushed_values: before.flushed_values.union_prefer_right(
            spec_writes((before.epoch + 1) as u64, staged),
        ),
    }
}

/// The leaf that was staged last for `key`, if one was.
fn find_staged(staged: &Vec<(Digest, Vec<u8>)>, key: &Digest) -> (leaf: Option<Vec<u8>>)
    ensures
        stored_view(leaf) == spec_staged_leaf(writes_view(staged@), key@),
{
    let mut i: usize = staged.len();
    assert(writes_view(staged@).take(i as int) =~= writes_view(staged@));
    while i > 0
        invariant
            i <= staged.len(),
            spec_staged_leaf(writes_view(staged@), key@) == spec_staged_leaf(
                writes_view(staged@).take(i as int),
                key@,
            ),
        decreases i,
    {
        let ghost upto = writes_view(staged@).take(i as int);
        proof {
            assert(upto.last() == (staged@[i - 1].0@, staged@[i - 1].1@));
            assert(upto.drop_last() =~= writes_view(staged@).take(i - 1));
        }
        if staged[i - 1].0 == *key {
            let leaf = staged[i - 1].1.clone();
            assert(leaf@ == staged@[i - 1].1@);
            return Some(leaf);
        }
        i -= 1;
    }
    assert(writes_view(staged@).take(0) =~= Seq::<(Seq<u8>, Seq<u8>)>::empty());
    None
}

/// The decision on a transaction over any leaf is an answer that validation
/// against the directory can give.
pub proof fn decision_is_an_answer(stored: Option<Seq<u8>>, tx: TransactionView)
    ensures
        validation_can_answer(tx, spec_decide(stored, tx)),
        spec_verify(tx) is Err ==> validation_can_answer(tx, spec_verify(tx)),
{
    if spec_verify(tx) is Err {
        assert(spec_validate_tx(0, tx) == spec_verify(tx));
        assert(spec_decide(stored, tx) == spec_validate_tx(0, tx));
    } else {
        match spec_resolve_account(stored) {
            Err(_) => {},
            Ok(nonce) => {
                assert(spec_decide(stored, tx) == spec_validate_tx(nonce, tx));
            },
        }
    }
}

/// A transaction that follows an accepted one of the same key in a batch is
/// decided on the account which that one left: it is accepted exactly where
/// it carries the next nonce.
pub proof fn staged_account_decides(previous: u64, tx: TransactionView)
    requires
        previous < u64::MAX,
    ensures
        spec_decide(Some(spec_account_bytes((previous + 1) as u64)), tx) == spec_validate_tx(
            (previous + 1) as u64,
            tx,
        ),
{
    lemma_auto_spec_u64_to_from_le_bytes();
}

/// Whether `answer` is one that validating `tx` against a directory can give:
/// the decision for the nonce of the account that the directory holds for the
/// transaction's key, whichever nonce that is, or the finding that the
/// directory could not be read or holds no account there.
pub open spec fn validation_can_answer(tx: TransactionView, answer: Result<(), NodeError>) -> bool {
    ||| answer == Err::<(), NodeError>(NodeError::Store)
    ||| answer == Err::<(), NodeError>(NodeError::CorruptAccount)
    ||| exists|nonce: u64| answer == #[trigger] spec_validate_tx(nonce, tx)
}

/// A transaction that validation accepts verifies, and carries the nonce of
/// the account that the directory holds for it, which can still advance. A
/// transaction is refused for an exhausted nonce only where it carries the
/// largest nonce there is, and for its signature only where it does not
/// verify.
pub proof fn validation_answers_follow_the_account(tx: TransactionView, answer: Result<(), NodeError>)
    requires
        validation_can_answer(tx, answer),
    ensures
        answer is Ok ==> spec_verify(tx) is Ok && spec_validate_tx(tx.nonce, tx) is Ok && tx.nonce
            < u64::MAX,
        answer == Err::<(), NodeError>(NodeError::NonceExhausted) ==> tx.nonce == u64::MAX,
        answer == Err::<(), NodeError>(NodeError::InvalidSignature) ==> spec_verify(tx) is Err,
        spec_verify(tx) is Err ==> answer is Err,
{
}

} // verus!
