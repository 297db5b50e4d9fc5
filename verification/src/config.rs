//! What a node is told once, when it starts.

use crate::error::NodeError;
use vstd::prelude::*;

verus! {

#[verifier::external_type_specification]
#[verifier::external_body]
pub struct ExFromHexError(hex::FromHexError);

#[verifier::external_type_specification]
#[verifier::external_body]
pub struct ExCelestiaError(celestia_types::Error);

/// Seconds between two batch submissions, unless the node is told otherwise.
pub const DEFAULT_BATCH_INTERVAL: u64 = 3;

/// Length of a namespace in bytes: a version byte and an identifier of 28.
pub const NAMESPACE_SIZE: usize = 29;

/// The value of a hexadecimal digit, in either case.
pub open spec fn spec_hex_digit(c: char) -> Option<u8> {
    let n = c as u32;
    if 48 <= n <= 57 {
        Some((n - 48) as u8)
    } else if 97 <= n <= 102 {
        Some((n - 87) as u8)
    } else if 65 <= n <= 70 {
        Some((n - 55) as u8)
    } else {
        None
    }
}

/// The bytes that a hexadecimal text stands for, two digits to the byte, or
/// nothing where the text has an odd length or holds anything but digits.
pub open spec fn spec_hex_decode(text: Seq<char>) -> Option<Seq<u8>>
    decreases text.len(),
{
    if text.len() == 0 {
        Some(Seq::<u8>::empty())
    } else if text.len() % 2 != 0 {
        None
    } else {
        match (spec_hex_digit(text[0]), spec_hex_digit(text[1]), spec_hex_decode(text.skip(2))) {
            (Some(high), Some(low), Some(rest)) => Some(seq![(high * 16 + low) as u8] + rest),
            _ => None,
        }
    }
}

/// The version-0 namespace with the given identifier: the identifier's last
/// ten bytes at the end of 29 bytes that are zero otherwise. The identifier
/// has at most ten bytes, or 28 of which the first 18 are zero.
pub open spec fn spec_namespace_v0(id: Seq<u8>) -> Option<Seq<u8>> {
    if id.len() <= 10 {
        Some(Seq::new((NAMESPACE_SIZE - id.len()) as nat, |i: int| 0u8) + id)
    } else if id.len() == 28 && forall|i: int| 0 <= i < 18 ==> id[i] == 0 {
        Some(Seq::new(19, |i: int| 0u8) + id.skip(18))
    } else {
        None
    }
}

/// Calls `hex::decode`. The contract claims that the call gives the bytes that
/// the text stands for, two digits to the byte and in either case, and fails
/// on a text of odd length or with anything but hexadecimal digits in it.
#[verifier::external_body]
fn hex_decode(text: &str) -> (r: Result<Vec<u8>, hex::FromHexError>)
    ensures
        match spec_hex_decode(text@) {
            Some(bytes) => r is Ok && r->Ok_0@ == bytes,
            None => r is Err,
        },
{
    hex::decode(text)
}

/// Calls `celestia_types::nmt::Namespace::new_v0` and takes the namespace's
/// bytes. The contract claims that an identifier of at most ten bytes, or of
/// 28 bytes that start with 18 zeros, gives 29 bytes that end with the
/// identifier's last ten and are zero before them, and that any other
/// identifier is refused.
#[verifier::external_body]
fn namespace_v0(id: &[u8]) -> (r: Result<Vec<u8>, celestia_types::Error>)
    ensures
        match spec_namespace_v0(id@) {
            Some(bytes) => r is Ok && r->Ok_0@ == bytes,
            None => r is Err,
        },
{
    celestia_types::nmt::Namespace::new_v0(id).map(|namespace| namespace.as_bytes().to_vec())
}

/// What a node is told once, when it starts.
#[derive(Debug)]
pub struct Config {
    /// The bytes of the namespace used by this rollup.
    pub namespace: Vec<u8>,
    /// The height from which to start syncing.
    pub start_height: u64,
    /// The address to listen on for the node's webserver.
    pub listen_addr: String,
    /// The URL of the data-availability node to connect to.
    pub celestia_url: String,
    /// The auth token to use when connecting to the data-availability node.
    pub auth_token: Option<String>,
    /// The interval, in seconds, at which to post batches of transactions.
    pub batch_interval: u64,
}

impl Clone for Config {
    fn clone(&self) -> (copy: Self)
        ensures
            copy.namespace@ == self.namespace@,
            copy.start_height == self.start_height,
            copy.listen_addr@ == self.listen_addr@,
            copy.celestia_url@ == self.celestia_url@,
            copy.batch_interval == self.batch_interval,
            copy.auth_token is Some <==> self.auth_token is Some,
            copy.auth_token is Some ==> copy.auth_token->Some_0@ == self.auth_token->Some_0@,
    {
        let auth_token = match &self.auth_token {
            Some(token) => Some(token.clone()),
            None => None,
        };
        Config {
            namespace: self.namespace.clone(),
            start_height: self.start_height,
            listen_addr: self.listen_addr.clone(),
            celestia_url: self.celestia_url.clone(),
            auth_token,
            batch_interval: self.batch_interval,
        }
    }
}

/// The identifier of the namespace that a node uses unless told otherwise.
pub open spec fn default_namespace_id() -> Seq<u8> {
    seq![42u8, 42u8, 42u8, 42u8]
}

impl Default for Config {
    fn default() -> (cfg: Self)
        ensures
            Some(cfg.namespace@) == spec_namespace_v0(default_namespace_id()),
            cfg.start_height == 1,
            cfg.listen_addr@ == "0.0.0.0:3000"@,
            cfg.celestia_url@ == "ws://0.0.0.0:26658"@,
            cfg.auth_token is None,
            cfg.batch_interval == DEFAULT_BATCH_INTERVAL,
    {
        let id: [u8; 4] = [42, 42, 42, 42];
        assert(id@ == default_namespace_id());
        let namespace = match namespace_v0(id.as_slice()) {
            Ok(namespace) => namespace,
            Err(_) => Vec::new(),
        };
        Config {
            namespace,
            start_height: 1,
            listen_addr: "0.0.0.0:3000".to_owned(),
            celestia_url: "ws://0.0.0.0:26658".to_owned(),
            auth_token: None,
            batch_interval: DEFAULT_BATCH_INTERVAL,
        }
    }
}

/// The namespace that a hexadecimal text names, or the reason for which it
/// names none.
pub open spec fn spec_namespace_from_hex(text: Seq<char>) -> Result<Seq<u8>, NodeError> {
    match spec_hex_decode(text) {
        None => Err(NodeError::InvalidNamespaceHex),
        Some(id) => match spec_namespace_v0(id) {
            None => Err(NodeError::InvalidNamespace),
            Some(namespace) => Ok(namespace),
        },
    }
}

/// Builds the configuration from what was given on the command line. The
/// namespace is given in hexadecimal; the batch interval in seconds.
pub fn config_from_args(
    namespace: &str,
    start_height: u64,
    celestia_url: String,
    listen_addr: String,
    auth_token: Option<String>,
    batch_interval: u64,
) -> (r: Result<Config, NodeError>)
    ensures
        match spec_namespace_from_hex(namespace@) {
            Err(e) => r is Err && r->Err_0 == e,
            Ok(bytes) => r is Ok && r->Ok_0.namespace@ == bytes && r->Ok_0.start_height
                == start_height && r->Ok_0.celestia_url == celestia_url && r->Ok_0.listen_addr
                == listen_addr && r->Ok_0.auth_token == auth_token && r->Ok_0.batch_interval
                == batch_interval,
        },
{
    let id = match hex_decode(namespace) {
        Ok(id) => id,
        Err(_) => {
            return Err(NodeError::InvalidNamespaceHex);
        },
    };
    let namespace = match namespace_v0(id.as_slice()) {
        Ok(namespace) => namespace,
        Err(_) => {
            return Err(NodeError::InvalidNamespace);
        },
    };
    Ok(Config { namespace, start_height, listen_addr, celestia_url, auth_token, batch_interval })
}

} // verus!
