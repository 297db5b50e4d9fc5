use rollup_node::config::{config_from_args, Config, DEFAULT_BATCH_INTERVAL, NAMESPACE_SIZE};
use rollup_node::error::NodeError;

fn from_namespace(text: &str) -> Result<Config, NodeError> {
    config_from_args(text, 7, "ws://node:1".to_string(), "127.0.0.1:8080".to_string(), None, 9)
}

fn padded(tail: &[u8]) -> Vec<u8> {
    let mut bytes = vec![0u8; NAMESPACE_SIZE - tail.len()];
    bytes.extend_from_slice(tail);
    bytes
}

#[test]
fn default_config_is_as_documented() {
    let cfg = Config::default();
    assert_eq!(cfg.namespace, padded(&[42, 42, 42, 42]));
    assert_eq!(cfg.namespace.len(), 29);
    assert_eq!(cfg.start_height, 1);
    assert_eq!(cfg.listen_addr, "0.0.0.0:3000");
    assert_eq!(cfg.celestia_url, "ws://0.0.0.0:26658");
    assert_eq!(cfg.auth_token, None);
    assert_eq!(cfg.batch_interval, 3);
    assert_eq!(DEFAULT_BATCH_INTERVAL, 3);
}

#[test]
fn default_namespace_in_hex_gives_the_default_namespace() {
    let cfg = from_namespace("2a2a2a2a").unwrap();
    assert_eq!(cfg.namespace, Config::default().namespace);
}

#[test]
fn arguments_are_carried_over() {
    let cfg = config_from_args(
        "00ff",
        12,
        "ws://example:26658".to_string(),
        "0.0.0.0:4000".to_string(),
        Some("token".to_string()),
        30,
    )
    .unwrap();
    assert_eq!(cfg.namespace, padded(&[0x00, 0xff]));
    assert_eq!(cfg.start_height, 12);
    assert_eq!(cfg.celestia_url, "ws://example:26658");
    assert_eq!(cfg.listen_addr, "0.0.0.0:4000");
    assert_eq!(cfg.auth_token, Some("token".to_string()));
    assert_eq!(cfg.batch_interval, 30);
}

#[test]
fn hex_is_read_in_either_case() {
    assert_eq!(from_namespace("AbCdEf09").unwrap().namespace, padded(&[0xab, 0xcd, 0xef, 0x09]));
    assert_eq!(from_namespace("abcdef09").unwrap().namespace, padded(&[0xab, 0xcd, 0xef, 0x09]));
}

#[test]
fn empty_namespace_is_all_zero() {
    assert_eq!(from_namespace("").unwrap().namespace, vec![0u8; 29]);
}

#[test]
fn ten_bytes_fill_the_tail() {
    let cfg = from_namespace("0102030405060708090a").unwrap();
    assert_eq!(cfg.namespace, padded(&[1, 2, 3, 4, 5, 6, 7, 8, 9, 10]));
}

#[test]
fn full_identifier_with_zero_prefix_is_taken() {
    let text = format!("{}{}", "00".repeat(18), "0102030405060708090a");
    let cfg = from_namespace(&text).unwrap();
    assert_eq!(cfg.namespace, padded(&[1, 2, 3, 4, 5, 6, 7, 8, 9, 10]));
}

#[test]
fn bad_hex_is_refused() {
    assert_eq!(from_namespace("zz").unwrap_err(), NodeError::InvalidNamespaceHex);
    assert_eq!(from_namespace("2a2").unwrap_err(), NodeError::InvalidNamespaceHex);
    assert_eq!(from_namespace("2a 2a").unwrap_err(), NodeError::InvalidNamespaceHex);
    assert_eq!(from_namespace("0x2a").unwrap_err(), NodeError::InvalidNamespaceHex);
    assert_eq!(from_namespace("é").unwrap_err(), NodeError::InvalidNamespaceHex);
}

#[test]
fn bad_namespace_is_refused() {
    assert_eq!(from_namespace(&"2a".repeat(11)).unwrap_err(), NodeError::InvalidNamespace);
    assert_eq!(from_namespace(&"2a".repeat(27)).unwrap_err(), NodeError::InvalidNamespace);
    assert_eq!(from_namespace(&"2a".repeat(29)).unwrap_err(), NodeError::InvalidNamespace);
    let nonzero_prefix = format!("01{}{}", "00".repeat(17), "2a".repeat(10));
    assert_eq!(from_namespace(&nonzero_prefix).unwrap_err(), NodeError::InvalidNamespace);
    assert_eq!(from_namespace(&"2a".repeat(28)).unwrap_err(), NodeError::InvalidNamespace);
}

#[test]
fn cloned_config_is_equal_field_by_field() {
    let cfg = config_from_args(
        "2a",
        2,
        "ws://a".to_string(),
        "b:1".to_string(),
        Some("secret".to_string()),
        4,
    )
    .unwrap();
    let copy = cfg.clone();
    assert_eq!(copy.namespace, cfg.namespace);
    assert_eq!(copy.start_height, cfg.start_height);
    assert_eq!(copy.celestia_url, cfg.celestia_url);
    assert_eq!(copy.listen_addr, cfg.listen_addr);
    assert_eq!(copy.auth_token, cfg.auth_token);
    assert_eq!(copy.batch_interval, cfg.batch_interval);
}
