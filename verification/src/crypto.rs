//! Hashing, signing and signer recovery.
//!
//! The primitives themselves are computed by `alloy_primitives` and
//! `alloy_signer_local`. Their results are named here by uninterpreted
//! functions of the bytes that go in, and everything below the first
//! section is verified against those names alone.

use alloy_primitives::B256;
use alloy_signer::SignerSync;
use alloy_signer_local::PrivateKeySigner;
use vstd::prelude::*;

verus! {

/// Length of a Keccak-256 digest.
pub const HASH_SIZE: usize = 32;

/// Length of a chain address.
pub const ADDRESS_SIZE: usize = 20;

/// Length of a secp256k1 secret key.
pub const KEY_SIZE: usize = 32;

/// Length of a recoverable signature: `r`, `s` and the recovery byte.
pub const SIGNATURE_SIZE: usize = 65;

/// A chain address: the last twenty bytes of the Keccak-256 digest of a
/// public key.
pub type Address = [u8; ADDRESS_SIZE];

/// A recoverable signature in its wire form.
pub type Signature = [u8; SIGNATURE_SIZE];

/// Error of `alloy_signer`, carried through unread.
#[verifier::external_type_specification]
#[verifier::external_body]
pub struct ExSignerError(alloy_signer::Error);

/// Error of `alloy_primitives` on signatures, carried through unread.
#[verifier::external_type_specification]
#[verifier::external_body]
pub struct ExSignatureError(alloy_primitives::SignatureError);

/// The Keccak-256 digest of `data`: what `alloy_primitives::keccak256`
/// returns for these bytes.
pub uninterp spec fn keccak256_digest(data: Seq<u8>) -> [u8; HASH_SIZE];

/// The chain address that belongs to the secret key `key`, or `None` where
/// the 32 bytes are no secret key: what
/// `alloy_signer_local::PrivateKeySigner::from_bytes` followed by `address`
/// returns for these bytes.
pub uninterp spec fn signer_address(key: Seq<u8>) -> Option<[u8; ADDRESS_SIZE]>;

/// The 65 bytes of the EIP-191 signature of `message` under the secret key
/// `key`, or `None` where the signer reports an error: what
/// `SignerSync::sign_message_sync` of the signer made from these key bytes
/// returns, read through `Signature::as_bytes`.
pub uninterp spec fn message_signature(key: Seq<u8>, message: Seq<u8>) -> Option<
    [u8; SIGNATURE_SIZE],
>;

/// The chain address recovered from `signature` over the EIP-191 hash of
/// `message`, or `None` where the bytes are no signature or recovery
/// fails: what `alloy_primitives::Signature::try_from` followed by
/// `recover_address_from_msg` returns.
pub uninterp spec fn recovered_signer(message: Seq<u8>, signature: Seq<u8>) -> Option<
    [u8; ADDRESS_SIZE],
>;

/// Calls `alloy_primitives::keccak256`. The contract names the digest and
/// says nothing of its content.
#[verifier::external_body]
pub(crate) fn keccak256(data: &[u8]) -> (digest: [u8; HASH_SIZE])
    ensures
        digest == keccak256_digest(data@),
{
    alloy_primitives::keccak256(data).0
}

/// Builds a `PrivateKeySigner` from the key bytes with `from_bytes` and
/// reads its address. The constructor rejects bytes that are no secret key;
/// the contract says no more than that the outcome is a function of the
/// bytes.
#[verifier::external_body]
pub(crate) fn derive_address(key: &[u8; KEY_SIZE]) -> (res: Result<Address, alloy_signer::Error>)
    ensures
        match res {
            Ok(address) => signer_address(key@) == Some(address),
            Err(_) => signer_address(key@) is None,
        },
{
    let signer = PrivateKeySigner::from_bytes(&B256::new(*key))?;
    Ok(signer.address().0 .0)
}

/// Builds a `PrivateKeySigner` from the key bytes with `from_bytes`, calls
/// `sign_message_sync` and reads the signature with `as_bytes`. The signer
/// hashes the message as EIP-191 prescribes and signs the hash with a nonce
/// derived from key and hash alone (RFC 6979), so the outcome is a function
/// of key and message, and that is all the contract says: it promises
/// neither success nor that the signature verifies.
#[verifier::external_body]
pub(crate) fn sign_message(key: &[u8; KEY_SIZE], message: &[u8]) -> (res: Result<
    Signature,
    alloy_signer::Error,
>)
    ensures
        match res {
            Ok(signature) => message_signature(key@, message@) == Some(signature),
            Err(_) => message_signature(key@, message@) is None,
        },
{
    let signer = PrivateKeySigner::from_bytes(&B256::new(*key))?;
    let signature = signer.sign_message_sync(message)?;
    Ok(signature.as_bytes())
}

/// Reads the bytes with `alloy_primitives::Signature::try_from`, which
/// rejects any length but 65, and calls `recover_address_from_msg`. The
/// contract says that the outcome is a function of message and signature
/// bytes.
#[verifier::external_body]
pub(crate) fn recover_address(message: &[u8], signature: &[u8]) -> (res: Result<
    Address,
    alloy_primitives::SignatureError,
>)
    ensures
        match res {
            Ok(address) => recovered_signer(message@, signature@) == Some(address),
            Err(_) => recovered_signer(message@, signature@) is None,
        },
{
    let parsed = alloy_primitives::Signature::try_from(signature)?;
    let address = parsed.recover_address_from_msg(message)?;
    Ok(address.0 .0)
}

/// The bytes of an optional array.
pub open spec fn bytes_of<const N: usize>(value: Option<[u8; N]>) -> Option<Seq<u8>> {
    match value {
        Some(bytes) => Some(bytes@),
        None => None,
    }
}

/// The chain address of a secret key, if the bytes are one.
pub fn key_address(key: &[u8; KEY_SIZE]) -> (res: Option<Address>)
    ensures
        res == signer_address(key@),
{
    match derive_address(key) {
        Ok(address) => Some(address),
        Err(_) => None,
    }
}

/// Signs `message` under `key`, if the signer does.
pub fn sign(key: &[u8; KEY_SIZE], message: &[u8]) -> (res: Option<Signature>)
    ensures
        res == message_signature(key@, message@),
{
    match sign_message(key, message) {
        Ok(signature) => Some(signature),
        Err(_) => None,
    }
}

/// The signer of `message` according to `signature`, if one can be
/// recovered.
pub fn recover_signer(message: &[u8], signature: &[u8]) -> (res: Option<Address>)
    ensures
        res == recovered_signer(message@, signature@),
{
    match recover_address(message, signature) {
        Ok(address) => Some(address),
        Err(_) => None,
    }
}

} // verus!
