//! The wire form of transactions and batches.
//!
//! A batch is the number of its transactions in eight bytes, and the
//! transactions one after the other. A transaction is its signature and its
//! verifying key, each behind its length in eight bytes, then the nonce in
//! eight bytes and the index of its type in four. Integers are little-endian.
//! A blob that holds a single transaction starts with eight bytes that no
//! batch can start with: the largest count there is, which no blob can fill.
//! Bytes that follow what was read are ignored.

use crate::tx::{Transaction, TransactionType, TransactionView, views_of};
use crate::wire::{read_u32, read_u64, spec_read_u32, spec_read_u64, u32_bytes, u64_bytes};
use vstd::bytes::*;
use vstd::prelude::*;
use vstd::slice::*;

verus! {

/// The count that stands at the head of a blob which holds a single
/// transaction. Read as a batch, such a blob would have to hold more
/// transactions than it has bytes.
pub const LONE_TRANSACTION_MARK: u64 = 0xffff_ffff_ffff_ffff;

/// A byte string behind its length.
pub open spec fn spec_encode_bytes(bytes: Seq<u8>) -> Seq<u8> {
    spec_u64_to_le_bytes(bytes.len() as u64) + bytes
}

/// The fields of a transaction, one after the other.
pub open spec fn spec_encode_body(tx: TransactionView) -> Seq<u8> {
    spec_encode_bytes(tx.signature) + spec_encode_bytes(tx.vk) + spec_u64_to_le_bytes(tx.nonce)
        + spec_u32_to_le_bytes(tx.tx_type.spec_index())
}

/// The fields of each transaction of a list, in the list's order.
pub open spec fn spec_encode_bodies(txs: Seq<TransactionView>) -> Seq<u8>
    decreases txs.len(),
{
    if txs.len() == 0 {
        Seq::<u8>::empty()
    } else {
        spec_encode_body(txs.first()) + spec_encode_bodies(txs.drop_first())
    }
}

/// The blob that holds one transaction.
pub open spec fn spec_encode_transaction(tx: TransactionView) -> Seq<u8> {
    spec_u64_to_le_bytes(LONE_TRANSACTION_MARK) + spec_encode_body(tx)
}

/// The blob that holds a batch.
pub open spec fn spec_encode_batch(txs: Seq<TransactionView>) -> Seq<u8> {
    spec_u64_to_le_bytes(txs.len() as u64) + spec_encode_bodies(txs)
}

/// Whether the lengths of a transaction's fields fit their eight bytes.
pub open spec fn encodable(tx: TransactionView) -> bool {
    tx.signature.len() <= u64::MAX && tx.vk.len() <= u64::MAX
}

/// Whether a list of transactions can be written as a batch.
pub open spec fn all_encodable(txs: Seq<TransactionView>) -> bool {
    txs.len() <= u64::MAX && forall|i: int| 0 <= i < txs.len() ==> encodable(#[trigger] txs[i])
}

/// The byte string that starts at `pos` behind its length, and where it ends.
pub open spec fn spec_parse_bytes(input: Seq<u8>, pos: int) -> Option<(Seq<u8>, int)> {
    match spec_read_u64(input, pos) {
        None => None,
        Some(len) => if pos + 8 + len <= input.len() {
            Some((input.subrange(pos + 8, pos + 8 + len), pos + 8 + len))
        } else {
            None
        },
    }
}

/// The transaction whose fields start at `pos`, and where they end.
pub open spec fn spec_parse_body(input: Seq<u8>, pos: int) -> Option<(TransactionView, int)> {
    match spec_parse_bytes(input, pos) {
        None => None,
        Some((signature, after_signature)) => match spec_parse_bytes(input, after_signature) {
            None => None,
            Some((vk, after_vk)) => match spec_read_u64(input, after_vk) {
                None => None,
                Some(nonce) => match spec_read_u32(input, after_vk + 8) {
                    None => None,
                    Some(index) => match TransactionType::spec_from_index(index) {
                        None => None,
                        Some(tx_type) => Some(
                            (TransactionView { signature, vk, nonce, tx_type }, after_vk + 12),
                        ),
                    },
                },
            },
        },
    }
}

/// `found` followed by the `count` transactions that start at `pos`, and where
/// the last one ends.
pub open spec fn spec_parse_bodies(
    input: Seq<u8>,
    pos: int,
    count: nat,
    found: Seq<TransactionView>,
) -> Option<(Seq<TransactionView>, int)>
    decreases count,
{
    if count == 0 {
        Some((found, pos))
    } else {
        match spec_parse_body(input, pos) {
            None => None,
            Some((tx, next)) => spec_parse_bodies(input, next, (count - 1) as nat, found.push(tx)),
        }
    }
}

/// The transactions of a blob that starts with a batch.
pub open spec fn spec_decode_batch(input: Seq<u8>) -> Option<Seq<TransactionView>> {
    match spec_read_u64(input, 0) {
        None => None,
        Some(count) => match spec_parse_bodies(input, 8, count as nat, Seq::empty()) {
            None => None,
            Some((txs, _)) => Some(txs),
        },
    }
}

/// The transaction of a blob that starts with the mark of a single
/// transaction and that transaction.
pub open spec fn spec_decode_transaction(input: Seq<u8>) -> Option<TransactionView> {
    if spec_read_u64(input, 0) == Some(LONE_TRANSACTION_MARK) {
        match spec_parse_body(input, 8) {
            None => None,
            Some((tx, _)) => Some(tx),
        }
    } else {
        None
    }
}

/// The transactions that a blob carries: those of the batch it holds, or,
/// where it holds no batch, the single transaction it holds.
pub open spec fn spec_decode_blob(input: Seq<u8>) -> Option<Seq<TransactionView>> {
    match spec_decode_batch(input) {
        Some(txs) => Some(txs),
        None => match spec_decode_transaction(input) {
            Some(tx) => Some(seq![tx]),
            None => None,
        },
    }
}

/// Appends a byte string behind its length.
fn put_bytes(out: &mut Vec<u8>, bytes: &Vec<u8>)
    ensures
        final(out)@ == old(out)@ + spec_encode_bytes(bytes@),
        bytes@.len() <= u64::MAX,
{
    let mut len = u64_bytes(bytes.len() as u64);
    out.append(&mut len);
    out.extend_from_slice(bytes.as_slice());
    assert(out@ == old(out)@ + spec_encode_bytes(bytes@));
}

/// Appends the fields of a transaction.
fn put_body(out: &mut Vec<u8>, tx: &Transaction)
    ensures
        final(out)@ == old(out)@ + spec_encode_body(tx@),
        encodable(tx@),
{
    put_bytes(out, &tx.signature);
    put_bytes(out, &tx.vk);
    let mut nonce = u64_bytes(tx.nonce);
    out.append(&mut nonce);
    let mut index = u32_bytes(tx.tx_type.index());
    out.append(&mut index);
    assert(out@ == old(out)@ + spec_encode_body(tx@));
}

/// The blob that holds `tx` alone. It reads back as a batch of that one
/// transaction.
pub fn encode_transaction(tx: &Transaction) -> (blob: Vec<u8>)
    ensures
        blob@ == spec_encode_transaction(tx@),
        spec_decode_blob(blob@) == Some(seq![tx@]),
{
    let mut blob = u64_bytes(LONE_TRANSACTION_MARK);
    put_body(&mut blob, tx);
    proof {
        transaction_round_trip(tx@);
    }
    blob
}

/// Writing one more transaction appends its fields to those written before.
pub proof fn encode_bodies_push(txs: Seq<TransactionView>, tx: TransactionView)
    ensures
        spec_encode_bodies(txs.push(tx)) == spec_encode_bodies(txs) + spec_encode_body(tx),
    decreases txs.len(),
{
    if txs.len() == 0 {
        let one = txs.push(tx);
        assert(one.first() == tx);
        assert(one.drop_first() == Seq::<TransactionView>::empty());
        assert(spec_encode_bodies(one.drop_first()) == Seq::<u8>::empty());
        assert(spec_encode_bodies(one) == spec_encode_body(tx) + Seq::<u8>::empty());
        assert(spec_encode_bodies(txs) == Seq::<u8>::empty());
    } else {
        assert(txs.push(tx).drop_first() == txs.drop_first().push(tx));
        encode_bodies_push(txs.drop_first(), tx);
        assert(spec_encode_bodies(txs.push(tx)) == spec_encode_body(txs.first()) + (
        spec_encode_bodies(txs.drop_first()) + spec_encode_body(tx)));
    }
}

/// The blob that holds the transactions of `txs` as a batch. It reads back as
/// the same transactions in the same order.
pub fn encode_batch(txs: &Vec<Transaction>) -> (blob: Vec<u8>)
    ensures
        blob@ == spec_encode_batch(views_of(txs@)),
        spec_decode_blob(blob@) == Some(views_of(txs@)),
{
    let mut blob = u64_bytes(txs.len() as u64);
    let ghost head = blob@;
    let mut i: usize = 0;
    while i < txs.len()
        invariant
            i <= txs.len(),
            blob@ == head + spec_encode_bodies(views_of(txs@.take(i as int))),
            forall|j: int| 0 <= j < i ==> encodable(#[trigger] views_of(txs@)[j]),
        decreases txs.len() - i,
    {
        proof {
            encode_bodies_push(views_of(txs@.take(i as int)), txs@[i as int]@);
            assert(views_of(txs@.take(i + 1)) == views_of(txs@.take(i as int)).push(
                txs@[i as int]@,
            ));
        }
        put_body(&mut blob, &txs[i]);
        i += 1;
    }
    assert(txs@.take(i as int) == txs@);
    proof {
        batch_round_trip(views_of(txs@));
    }
    blob
}

/// Reads the byte string that starts at `pos` behind its length.
fn parse_bytes(input: &[u8], pos: usize) -> (r: Option<(Vec<u8>, usize)>)
    ensures
        match spec_parse_bytes(input@, pos as int) {
            None => r is None,
            Some((bytes, end)) => r is Some && r->Some_0.0@ == bytes && r->Some_0.1 == end && end
                <= input@.len(),
        },
{
    let len = match read_u64(input, pos) {
        Some(len) => len,
        None => {
            return None;
        },
    };
    let total = input.len();
    assert(pos + 8 <= total);
    let start = pos + 8;
    if len > (input.len() - start) as u64 {
        return None;
    }
    let end = start + len as usize;
    let bytes = slice_to_vec(slice_subrange(input, start, end));
    Some((bytes, end))
}

/// Reads the transaction whose fields start at `pos`.
fn parse_body(input: &[u8], pos: usize) -> (r: Option<(Transaction, usize)>)
    ensures
        match spec_parse_body(input@, pos as int) {
            None => r is None,
            Some((tx, end)) => r is Some && r->Some_0.0@ == tx && r->Some_0.1 == end && end
                <= input@.len(),
        },
{
    let (signature, after_signature) = match parse_bytes(input, pos) {
        Some(found) => found,
        None => {
            return None;
        },
    };
    let (vk, after_vk) = match parse_bytes(input, after_signature) {
        Some(found) => found,
        None => {
            return None;
        },
    };
    let nonce = match read_u64(input, after_vk) {
        Some(nonce) => nonce,
        None => {
            return None;
        },
    };
    let total = input.len();
    assert(after_vk + 8 <= total);
    let index = match read_u32(input, after_vk + 8) {
        Some(index) => index,
        None => {
            return None;
        },
    };
    let tx_type = match TransactionType::from_index(index) {
        Some(tx_type) => tx_type,
        None => {
            return None;
        },
    };
    assert(after_vk + 12 <= total);
    Some((Transaction { signature, vk, nonce, tx_type }, after_vk + 12))
}

/// The transactions of a blob that starts with a batch.
pub fn decode_batch(input: &[u8]) -> (r: Option<Vec<Transaction>>)
    ensures
        match spec_decode_batch(input@) {
            None => r is None,
            Some(txs) => r is Some && views_of(r->Some_0@) == txs,
        },
{
    let count = match read_u64(input, 0) {
        Some(count) => count,
        None => {
            return None;
        },
    };
    let mut txs: Vec<Transaction> = Vec::new();
    let mut pos: usize = 8;
    let mut done: u64 = 0;
    assert(views_of(txs@) == Seq::<TransactionView>::empty());
    while done < count
        invariant
            done <= count,
            pos <= input.len(),
            spec_read_u64(input@, 0) == Some(count),
            spec_parse_bodies(input@, 8, count as nat, Seq::empty()) == spec_parse_bodies(
                input@,
                pos as int,
                (count - done) as nat,
                views_of(txs@),
            ),
        decreases count - done,
    {
        match parse_body(input, pos) {
            None => {
                assert(spec_parse_bodies(
                    input@,
                    pos as int,
                    (count - done) as nat,
                    views_of(txs@),
                ) is None);
                return None;
            },
            Some((tx, next)) => {
                assert(views_of(txs@.push(tx)) == views_of(txs@).push(tx@));
                assert(spec_parse_bodies(input@, pos as int, (count - done) as nat, views_of(txs@))
                    == spec_parse_bodies(
                    input@,
                    next as int,
                    (count - done - 1) as nat,
                    views_of(txs@).push(tx@),
                ));
                txs.push(tx);
                pos = next;
                done += 1;
            },
        }
    }
    Some(txs)
}

/// The transaction of a blob that starts with the mark of a single
/// transaction and that transaction.
pub fn decode_transaction(input: &[u8]) -> (r: Option<Transaction>)
    ensures
        match spec_decode_transaction(input@) {
            None => r is None,
            Some(tx) => r is Some && r->Some_0@ == tx,
        },
{
    match read_u64(input, 0) {
        Some(mark) => {
            if mark != LONE_TRANSACTION_MARK {
                return None;
            }
        },
        None => {
            return None;
        },
    }
    match parse_body(input, 8) {
        None => None,
        Some((tx, _)) => Some(tx),
    }
}

/// Whether `chunk` stands in `input` from `pos` on.
pub open spec fn occurs_at(input: Seq<u8>, pos: int, chunk: Seq<u8>) -> bool {
    0 <= pos && pos + chunk.len() <= input.len() && input.subrange(pos, pos + chunk.len()) == chunk
}

/// Where two chunks stand one behind the other, each of them stands there.
proof fn occurs_at_split(input: Seq<u8>, pos: int, a: Seq<u8>, b: Seq<u8>)
    requires
        occurs_at(input, pos, a + b),
    ensures
        occurs_at(input, pos, a),
        occurs_at(input, pos + a.len(), b),
{
    let whole = input.subrange(pos, pos + (a + b).len());
    assert(input.subrange(pos, pos + a.len()) =~= whole.subrange(0, a.len() as int));
    assert(whole.subrange(0, a.len() as int) =~= a);
    assert(input.subrange(pos + a.len(), pos + a.len() + b.len()) =~= whole.subrange(
        a.len() as int,
        (a + b).len() as int,
    ));
    assert(whole.subrange(a.len() as int, (a + b).len() as int) =~= b);
}

/// A byte string that was written behind its length is read back whole.
proof fn parse_bytes_of_encoding(input: Seq<u8>, pos: int, bytes: Seq<u8>)
    requires
        bytes.len() <= u64::MAX,
        occurs_at(input, pos, spec_encode_bytes(bytes)),
    ensures
        spec_parse_bytes(input, pos) == Some((bytes, pos + 8 + bytes.len())),
        spec_encode_bytes(bytes).len() == 8 + bytes.len(),
{
    lemma_auto_spec_u64_to_from_le_bytes();
    occurs_at_split(input, pos, spec_u64_to_le_bytes(bytes.len() as u64), bytes);
}

/// The fields of a transaction that were written are read back as that
/// transaction.
proof fn parse_body_of_encoding(input: Seq<u8>, pos: int, tx: TransactionView)
    requires
        encodable(tx),
        occurs_at(input, pos, spec_encode_body(tx)),
    ensures
        spec_parse_body(input, pos) == Some((tx, pos + spec_encode_body(tx).len())),
        spec_encode_body(tx).len() == 28 + tx.signature.len() + tx.vk.len(),
{
    lemma_auto_spec_u64_to_from_le_bytes();
    lemma_auto_spec_u32_to_from_le_bytes();
    let signature = spec_encode_bytes(tx.signature);
    let vk = spec_encode_bytes(tx.vk);
    let nonce = spec_u64_to_le_bytes(tx.nonce);
    let index = spec_u32_to_le_bytes(tx.tx_type.spec_index());
    occurs_at_split(input, pos, signature + vk + nonce, index);
    occurs_at_split(input, pos, signature + vk, nonce);
    occurs_at_split(input, pos, signature, vk);
    parse_bytes_of_encoding(input, pos, tx.signature);
    parse_bytes_of_encoding(input, pos + signature.len(), tx.vk);
}

/// The transactions of a list that were written one after the other are read
/// back in their order, behind what was found before them.
proof fn parse_bodies_of_encoding(
    input: Seq<u8>,
    pos: int,
    txs: Seq<TransactionView>,
    found: Seq<TransactionView>,
)
    requires
        all_encodable(txs),
        occurs_at(input, pos, spec_encode_bodies(txs)),
    ensures
        spec_parse_bodies(input, pos, txs.len(), found) == Some(
            (found + txs, pos + spec_encode_bodies(txs).len()),
        ),
    decreases txs.len(),
{
    if txs.len() == 0 {
        assert(found + txs == found);
    } else {
        let first = txs.first();
        let rest = txs.drop_first();
        assert(encodable(txs[0]));
        assert forall|i: int| 0 <= i < rest.len() implies encodable(#[trigger] rest[i]) by {
            assert(rest[i] == txs[i + 1]);
        }
        occurs_at_split(input, pos, spec_encode_body(first), spec_encode_bodies(rest));
        parse_body_of_encoding(input, pos, first);
        parse_bodies_of_encoding(
            input,
            pos + spec_encode_body(first).len(),
            rest,
            found.push(first),
        );
        assert(found.push(first) + rest == found + txs);
    }
}

/// The transactions that are read take at least 28 bytes each.
proof fn parsed_bodies_advance(input: Seq<u8>, pos: int, count: nat, found: Seq<TransactionView>)
    requires
        spec_parse_bodies(input, pos, count, found) is Some,
        count > 0,
    ensures
        pos + 28 * count <= spec_parse_bodies(input, pos, count, found)->Some_0.1 <= input.len(),
    decreases count,
{
    let (tx, next) = spec_parse_body(input, pos)->Some_0;
    assert(pos + 28 <= next <= input.len());
    if count > 1 {
        parsed_bodies_advance(input, next, (count - 1) as nat, found.push(tx));
    }
}

/// A batch that was written as a blob is read back as the same transactions in
/// the same order.
pub proof fn batch_round_trip(txs: Seq<TransactionView>)
    requires
        all_encodable(txs),
    ensures
        spec_decode_batch(spec_encode_batch(txs)) == Some(txs),
        spec_decode_blob(spec_encode_batch(txs)) == Some(txs),
{
    lemma_auto_spec_u64_to_from_le_bytes();
    let blob = spec_encode_batch(txs);
    let count = spec_u64_to_le_bytes(txs.len() as u64);
    let bodies = spec_encode_bodies(txs);
    assert(blob.subrange(0, blob.len() as int) == blob);
    assert(occurs_at(blob, 0, count + bodies));
    occurs_at_split(blob, 0, count, bodies);
    parse_bodies_of_encoding(blob, 8, txs, Seq::empty());
    assert(Seq::<TransactionView>::empty() + txs == txs);
}

/// A single transaction that was written as a blob is not read as a batch; it
/// is read, on the second attempt, as a batch of that one transaction.
pub proof fn transaction_round_trip(tx: TransactionView)
    requires
        encodable(tx),
    ensures
        spec_decode_batch(spec_encode_transaction(tx)) is None,
        spec_decode_transaction(spec_encode_transaction(tx)) == Some(tx),
        spec_decode_blob(spec_encode_transaction(tx)) == Some(seq![tx]),
{
    lemma_auto_spec_u64_to_from_le_bytes();
    let blob = spec_encode_transaction(tx);
    let mark = spec_u64_to_le_bytes(LONE_TRANSACTION_MARK);
    let body = spec_encode_body(tx);
    assert(blob.subrange(0, blob.len() as int) == blob);
    assert(occurs_at(blob, 0, mark + body));
    occurs_at_split(blob, 0, mark, body);
    parse_body_of_encoding(blob, 8, tx);
    assert(spec_read_u64(blob, 0) == Some(LONE_TRANSACTION_MARK));
    if spec_parse_bodies(blob, 8, LONE_TRANSACTION_MARK as nat, Seq::empty()) is Some {
        parsed_bodies_advance(blob, 8, LONE_TRANSACTION_MARK as nat, Seq::empty());
        assert(blob.len() == 36 + tx.signature.len() + tx.vk.len());
        assert(false);
    }
}

/// Eight zero bytes are the empty batch, and eight bytes of `0xff` are the
/// mark of a single transaction.
pub proof fn head_bytes_of_the_two_forms()
    ensures
        spec_encode_batch(Seq::empty()) == seq![0u8, 0u8, 0u8, 0u8, 0u8, 0u8, 0u8, 0u8],
        spec_decode_blob(seq![0u8, 0u8, 0u8, 0u8, 0u8, 0u8, 0u8, 0u8]) == Some(
            Seq::<TransactionView>::empty(),
        ),
        spec_u64_to_le_bytes(LONE_TRANSACTION_MARK) == seq![
            0xffu8,
            0xffu8,
            0xffu8,
            0xffu8,
            0xffu8,
            0xffu8,
            0xffu8,
            0xffu8,
        ],
{
    lemma_auto_spec_u64_to_from_le_bytes();
    spec_u64_to_le_bytes_to_open(0);
    spec_u64_to_le_bytes_to_open(LONE_TRANSACTION_MARK);
    let zeros = seq![0u8, 0u8, 0u8, 0u8, 0u8, 0u8, 0u8, 0u8];
    assert(spec_u64_to_le_bytes_open(0) =~= zeros) by {
        assert(0u64 & 0xff == 0 && (0u64 >> 8) & 0xff == 0 && (0u64 >> 16) & 0xff == 0 && (0u64
            >> 24) & 0xff == 0 && (0u64 >> 32) & 0xff == 0 && (0u64 >> 40) & 0xff == 0 && (0u64
            >> 48) & 0xff == 0 && (0u64 >> 56) & 0xff == 0) by (bit_vector);
    }
    assert(spec_u64_to_le_bytes_open(LONE_TRANSACTION_MARK) =~= seq![
        0xffu8,
        0xffu8,
        0xffu8,
        0xffu8,
        0xffu8,
        0xffu8,
        0xffu8,
        0xffu8,
    ]) by {
        let m: u64 = 0xffff_ffff_ffff_ffff;
        assert(m & 0xff == 0xff && (m >> 8) & 0xff == 0xff && (m >> 16) & 0xff == 0xff && (m
            >> 24) & 0xff == 0xff && (m >> 32) & 0xff == 0xff && (m >> 40) & 0xff == 0xff && (m
            >> 48) & 0xff == 0xff && (m >> 56) & 0xff == 0xff) by (bit_vector)
            requires
                m == 0xffff_ffff_ffff_ffffu64,
        ;
    }
    let txs = Seq::<TransactionView>::empty();
    assert(spec_encode_bodies(txs) == Seq::<u8>::empty());
    assert(spec_encode_batch(txs) =~= spec_u64_to_le_bytes(0));
    batch_round_trip(txs);
}

} // verus!
