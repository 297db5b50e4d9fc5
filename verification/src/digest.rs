//! 32-byte digests and the SHA-256 hasher that produces them.

use vstd::prelude::*;

verus! {

/// The SHA-256 digest of `data`, as computed by the `sha2` crate.
pub uninterp spec fn sha256(data: Seq<u8>) -> Seq<u8>;

/// Calls `sha2::Sha256::digest`. The contract claims that the 32 bytes returned
/// are the SHA-256 digest of exactly the bytes handed in.
#[verifier::external_body]
fn sha256_digest(data: &[u8]) -> (out: [u8; 32])
    ensures
        out@ == sha256(data@),
{
    <sha2::Sha256 as sha2::Digest>::digest(data).into()
}

/// Incremental SHA-256 hasher: it remembers what it was fed and hashes it all
/// when it is finalized.
#[derive(Debug)]
pub struct Hasher {
    absorbed: Vec<u8>,
}

impl View for Hasher {
    type V = Seq<u8>;

    /// The bytes fed so far, in order.
    closed spec fn view(&self) -> Seq<u8> {
        self.absorbed@
    }
}

impl Hasher {
    /// A hasher that has been fed nothing.
    pub fn new() -> (h: Self)
        ensures
            h@ == Seq::<u8>::empty(),
    {
        Hasher { absorbed: Vec::new() }
    }

    /// Feeds `data` after everything fed before.
    pub fn update(&mut self, data: &[u8])
        ensures
            final(self)@ == old(self)@ + data@,
    {
        self.absorbed.extend_from_slice(data);
    }

    /// The SHA-256 digest of everything fed.
    pub fn finalize(self) -> (out: [u8; 32])
        ensures
            out@ == sha256(self@),
    {
        sha256_digest(self.absorbed.as_slice())
    }
}

impl Clone for Hasher {
    fn clone(&self) -> (copy: Self)
        ensures
            copy@ == self@,
    {
        Hasher { absorbed: self.absorbed.clone() }
    }
}

impl Default for Hasher {
    fn default() -> (h: Self)
        ensures
            h@ == Seq::<u8>::empty(),
    {
        Hasher::new()
    }
}

/// Concatenation of byte strings, first to last.
pub open spec fn concat_all(items: Seq<Seq<u8>>) -> Seq<u8>
    decreases items.len(),
{
    if items.len() == 0 {
        Seq::<u8>::empty()
    } else {
        concat_all(items.drop_last()) + items.last()
    }
}

/// The byte strings that a list of items holds, in order.
pub open spec fn item_bytes(items: Seq<Vec<u8>>) -> Seq<Seq<u8>> {
    Seq::new(items.len(), |i: int| items[i]@)
}

/// A 32-byte hash value: node identity, root commitment or key hash.
#[derive(Debug, Clone, Copy, Eq)]
pub struct Digest(pub [u8; 32]);

impl PartialEq for Digest {
    fn eq(&self, other: &Self) -> (r: bool) {
        let mut i: usize = 0;
        while i < 32
            invariant
                i <= 32,
                forall|j: int| 0 <= j < i ==> self.0@[j] == other.0@[j],
            decreases 32 - i,
        {
            if self.0[i] != other.0[i] {
                return false;
            }
            i += 1;
        }
        assert(self.0@ =~= other.0@);
        true
    }
}

impl vstd::std_specs::cmp::PartialEqSpecImpl for Digest {
    open spec fn obeys_eq_spec() -> bool {
        true
    }

    open spec fn eq_spec(&self, other: &Self) -> bool {
        self@ == other@
    }
}

impl View for Digest {
    type V = Seq<u8>;

    open spec fn view(&self) -> Seq<u8> {
        self.0@
    }
}

/// The bytes of the key under which the directory writes its placeholder entry
/// at epoch 0: the ASCII text `SPARSE_MERKLE_PLACEHOLDER_HASH__`.
pub const SPARSE_MERKLE_PLACEHOLDER_BYTES: [u8; 32] = [
    83, 80, 65, 82, 83, 69, 95, 77, 69, 82, 75, 76, 69, 95, 80, 76, 65, 67, 69, 72, 79, 76, 68, 69,
    82, 95, 72, 65, 83, 72, 95, 95,
];

impl Digest {
    /// The digest made of exactly these bytes.
    pub fn new(bytes: [u8; 32]) -> (d: Self)
        ensures
            d.0 == bytes,
    {
        Digest(bytes)
    }

    /// The SHA-256 digest of `data`.
    pub fn hash(data: &[u8]) -> (d: Self)
        ensures
            d@ == sha256(data@),
    {
        let mut hasher = Hasher::new();
        hasher.update(data);
        assert(hasher@ == data@);
        Digest(hasher.finalize())
    }

    /// The SHA-256 digest of the items' bytes joined end to end.
    pub fn hash_items(items: &[Vec<u8>]) -> (d: Self)
        ensures
            d@ == sha256(concat_all(item_bytes(items@))),
    {
        let mut hasher = Hasher::new();
        let mut i: usize = 0;
        while i < items.len()
            invariant
                i <= items.len(),
                hasher@ == concat_all(item_bytes(items@.take(i as int))),
            decreases items.len() - i,
        {
            proof {
                let next = item_bytes(items@.take(i + 1));
                assert(next.drop_last() == item_bytes(items@.take(i as int)));
                assert(next.last() == items@[i as int]@);
            }
            hasher.update(items[i].as_slice());
            i += 1;
        }
        assert(items@.take(i as int) == items@);
        Digest(hasher.finalize())
    }

    /// The sentinel key that fixes the directory's shape at epoch 0.
    pub fn placeholder() -> (d: Self)
        ensures
            d.0 == SPARSE_MERKLE_PLACEHOLDER_BYTES,
    {
        Digest(SPARSE_MERKLE_PLACEHOLDER_BYTES)
    }

    /// The digest whose bytes are all zero.
    pub fn zero() -> (d: Self)
        ensures
            d@ == Seq::new(32, |i: int| 0u8),
    {
        let d = Digest([0u8; 32]);
        assert(d@ =~= Seq::new(32, |i: int| 0u8));
        d
    }
}

} // verus!
