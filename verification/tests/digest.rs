use rollup_node::digest::{Digest, Hasher, SPARSE_MERKLE_PLACEHOLDER_BYTES};

fn hex(bytes: &[u8]) -> String {
    let mut text = String::new();
    for byte in bytes {
        text.push_str(&format!("{:02x}", byte));
    }
    text
}

#[test]
fn hash_of_empty_input_is_the_known_sha256() {
    let digest = Digest::hash(b"");
    assert_eq!(
        hex(&digest.0),
        "e3b0c44298fc1c149afbf4c8996fb92427ae41e4649b934ca495991b7852b855"
    );
}

#[test]
fn hash_of_abc_is_the_known_sha256() {
    let digest = Digest::hash(b"abc");
    assert_eq!(
        hex(&digest.0),
        "ba7816bf8f01cfea414140de5dae2223b00361a396177a9cb410ff61f20015ad"
    );
}

#[test]
fn hash_is_not_the_input() {
    let input = [7u8; 32];
    assert_ne!(Digest::hash(&input).0, input);
}

#[test]
fn hash_items_hashes_the_concatenation() {
    let items = vec![b"a".to_vec(), b"bc".to_vec()];
    assert_eq!(Digest::hash_items(&items), Digest::hash(b"abc"));
    let split_elsewhere = vec![b"ab".to_vec(), Vec::new(), b"c".to_vec()];
    assert_eq!(Digest::hash_items(&split_elsewhere), Digest::hash(b"abc"));
}

#[test]
fn hash_items_of_nothing_is_the_hash_of_nothing() {
    let items: Vec<Vec<u8>> = Vec::new();
    assert_eq!(Digest::hash_items(&items), Digest::hash(b""));
}

#[test]
fn hasher_fed_in_pieces_hashes_the_whole() {
    let mut hasher = Hasher::new();
    hasher.update(b"hello ");
    hasher.update(b"");
    hasher.update(b"world");
    assert_eq!(hasher.finalize(), Digest::hash(b"hello world").0);
}

#[test]
fn a_cloned_hasher_goes_its_own_way() {
    let mut first = Hasher::new();
    first.update(b"ab");
    let mut second = first.clone();
    first.update(b"c");
    second.update(b"d");
    assert_eq!(first.finalize(), Digest::hash(b"abc").0);
    assert_eq!(second.finalize(), Digest::hash(b"abd").0);
}

#[test]
fn default_hasher_is_a_new_hasher() {
    assert_eq!(Hasher::default().finalize(), Hasher::new().finalize());
}

#[test]
fn new_keeps_the_bytes() {
    let mut bytes = [0u8; 32];
    bytes[0] = 1;
    bytes[31] = 255;
    assert_eq!(Digest::new(bytes).0, bytes);
}

#[test]
fn zero_is_all_zero() {
    assert_eq!(Digest::zero().0, [0u8; 32]);
}

#[test]
fn digests_compare_by_their_bytes() {
    let mut bytes = [9u8; 32];
    let a = Digest::new(bytes);
    let b = Digest::new(bytes);
    bytes[31] = 8;
    let c = Digest::new(bytes);
    assert!(a == b);
    assert!(a != c);
    assert!(Digest::zero() != a);
}

#[test]
fn placeholder_is_the_sentinel_text() {
    assert_eq!(&SPARSE_MERKLE_PLACEHOLDER_BYTES, b"SPARSE_MERKLE_PLACEHOLDER_HASH__");
    assert_eq!(Digest::placeholder().0, *b"SPARSE_MERKLE_PLACEHOLDER_HASH__");
}
