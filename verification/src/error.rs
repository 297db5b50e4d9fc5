//! The reasons for which an operation of this crate is refused.

use vstd::prelude::*;

verus! {

/// Why an operation was refused.
#[derive(Debug, Clone, Copy, PartialEq, Eq, Structural)]
pub enum NodeError {
    /// The transaction's nonce is not the account's current nonce.
    InvalidNonce,
    /// Signatures are checked and the transaction's signature is not valid.
    InvalidSignature,
    /// A signature was offered while signatures are not checked.
    SigningDisabled,
    /// The witness does not show the key to be absent under the old root.
    InvalidNonMembershipProof,
    /// The witness does not show the old account under the old root.
    InvalidOldMembershipProof,
    /// The witness does not show the new account under the new root.
    InvalidMembershipProof,
    /// The justifying transaction cannot be applied to the account.
    TxApplication,
    /// The blob is neither a batch nor a single transaction.
    Decode,
    /// The stored leaf is not a serialized account.
    CorruptAccount,
    /// The node store refused a read or a write.
    Store,
    /// No root can be resolved at the current epoch.
    MissingRoot,
    /// The account's nonce cannot advance any further.
    NonceExhausted,
    /// The epoch counter cannot advance any further.
    EpochOverflow,
    /// Writes already wait to be committed.
    WritesPending,
    /// The namespace is not written in hexadecimal.
    InvalidNamespaceHex,
    /// The namespace identifier is not acceptable to the data-availability layer.
    InvalidNamespace,
}

impl NodeError {
    /// The text shown to a caller for this error.
    pub fn message(&self) -> (text: String)
        ensures
            text@ == self.spec_message(),
    {
        match self {
            NodeError::InvalidNonce => "Invalid nonce".to_owned(),
            NodeError::InvalidSignature => "Invalid signature".to_owned(),
            NodeError::SigningDisabled => "Signature verification is disabled".to_owned(),
            NodeError::InvalidNonMembershipProof => "Invalid NonMembershipProof".to_owned(),
            NodeError::InvalidOldMembershipProof => "Invalid OldMembershipProof".to_owned(),
            NodeError::InvalidMembershipProof => "Invalid MembershipProof".to_owned(),
            NodeError::TxApplication => "Transaction could not be applied to account".to_owned(),
            NodeError::Decode => "Failed to decode blob into Transaction".to_owned(),
            NodeError::CorruptAccount => "Stored account is malformed".to_owned(),
            NodeError::Store => "Node store failure".to_owned(),
            NodeError::MissingRoot => "Failed to get root hash".to_owned(),
            NodeError::NonceExhausted => "Nonce counter exhausted".to_owned(),
            NodeError::EpochOverflow => "Epoch counter exhausted".to_owned(),
            NodeError::WritesPending => "Writes wait to be committed".to_owned(),
            NodeError::InvalidNamespaceHex => "Invalid namespace hex".to_owned(),
            NodeError::InvalidNamespace => "Failed to create namespace".to_owned(),
        }
    }

    /// The text of each error.
    pub open spec fn spec_message(&self) -> Seq<char> {
        match self {
            NodeError::InvalidNonce => "Invalid nonce"@,
            NodeError::InvalidSignature => "Invalid signature"@,
            NodeError::SigningDisabled => "Signature verification is disabled"@,
            NodeError::InvalidNonMembershipProof => "Invalid NonMembershipProof"@,
            NodeError::InvalidOldMembershipProof => "Invalid OldMembershipProof"@,
            NodeError::InvalidMembershipProof => "Invalid MembershipProof"@,
            NodeError::TxApplication => "Transaction could not be applied to account"@,
            NodeError::Decode => "Failed to decode blob into Transaction"@,
            NodeError::CorruptAccount => "Stored account is malformed"@,
            NodeError::Store => "Node store failure"@,
            NodeError::MissingRoot => "Failed to get root hash"@,
            NodeError::NonceExhausted => "Nonce counter exhausted"@,
            NodeError::EpochOverflow => "Epoch counter exhausted"@,
            NodeError::WritesPending => "Writes wait to be committed"@,
            NodeError::InvalidNamespaceHex => "Invalid namespace hex"@,
            NodeError::InvalidNamespace => "Failed to create namespace"@,
        }
    }
}

} // verus!
