//! Derivation of overlay addresses.
//!
//! An overlay address is the Keccak-256 digest of the chain address, the
//! network id as eight little-endian bytes, and a 32-byte nonce. It is never
//! chosen: whoever knows the three inputs can recompute it.

use crate::crypto::bytes_of;
use crate::crypto::keccak256;
use crate::crypto::keccak256_digest;
use crate::crypto::Address;
use crate::crypto::{ADDRESS_SIZE, HASH_SIZE};
use crate::encoding::copy_into;
use crate::encoding::le_bytes;
use crate::encoding::lemma_le_bytes_injective;
use crate::encoding::u64_to_le_bytes;
use crate::wallet::Wallet;
use vstd::prelude::*;

verus! {

/// A point of the overlay's address space.
pub type DistAddr = [u8; HASH_SIZE];

/// The overlay address of a node.
pub type OverlayAddress = DistAddr;

/// A value the owner of a chain address picks to obtain one overlay address
/// among many.
pub type Nonce = [u8; HASH_SIZE];

/// Length of the hashed buffer: address, network id, nonce.
pub const PREIMAGE_SIZE: usize = 60;

/// The overlay address that stands for "none".
pub const ZERO_ADDRESS: DistAddr = [
    0, 0, 0, 0, 0, 0, 0, 0, 0, 0, 0, 0, 0, 0, 0, 0, 0, 0, 0, 0, 0, 0, 0, 0, 0, 0, 0, 0, 0, 0, 0, 0,
];

/// Thirty-two zero bytes: the nonce of a node that picked none.
pub open spec fn zero_nonce() -> Seq<u8> {
    Seq::new(HASH_SIZE as nat, |i: int| 0u8)
}

/// The nonce bytes that enter the hash.
pub open spec fn nonce_or_zero(nonce: Option<Seq<u8>>) -> Seq<u8> {
    match nonce {
        Some(bytes) => bytes,
        None => zero_nonce(),
    }
}

/// The buffer that is hashed: chain address, network id least significant
/// byte first, nonce.
pub open spec fn overlay_preimage(address: Seq<u8>, network_id: u64, nonce: Option<Seq<u8>>) -> Seq<
    u8,
> {
    address + le_bytes(network_id) + nonce_or_zero(nonce)
}

/// The overlay address of `address` on network `network_id` under `nonce`.
pub open spec fn overlay_of(address: Seq<u8>, network_id: u64, nonce: Option<Seq<u8>>) -> Seq<u8> {
    keccak256_digest(overlay_preimage(address, network_id, nonce))@
}

/// Something that has a chain address and therefore an overlay address on
/// every network.
pub trait Overlay {
    /// The chain address that the overlay is derived from.
    spec fn chain_address(&self) -> Seq<u8>;

    /// The overlay address on network `network_id` under `nonce`.
    fn overlay(&self, network_id: u64, nonce: Option<Nonce>) -> (overlay: OverlayAddress)
        ensures
            overlay@ == overlay_of(self.chain_address(), network_id, bytes_of(nonce)),
    ;
}

impl Overlay for Wallet {
    open spec fn chain_address(&self) -> Seq<u8> {
        self@.address
    }

    fn overlay(&self, network_id: u64, nonce: Option<Nonce>) -> (overlay: OverlayAddress) {
        calc_overlay(self.address(), network_id, nonce)
    }
}

impl Overlay for Address {
    open spec fn chain_address(&self) -> Seq<u8> {
        self@
    }

    fn overlay(&self, network_id: u64, nonce: Option<Nonce>) -> (overlay: OverlayAddress) {
        calc_overlay(*self, network_id, nonce)
    }
}

/// Lays out the buffer that `calc_overlay` hashes.
pub fn preimage(address: Address, network_id: u64, nonce: Option<Nonce>) -> (data: [u8;
    PREIMAGE_SIZE])
    ensures
        data@ == overlay_preimage(address@, network_id, bytes_of(nonce)),
{
    let mut data = [0u8; PREIMAGE_SIZE];
    copy_into(&mut data, 0, address.as_slice());
    let id = u64_to_le_bytes(network_id);
    copy_into(&mut data, ADDRESS_SIZE, id.as_slice());
    if let Some(bytes) = nonce {
        copy_into(&mut data, ADDRESS_SIZE + 8, bytes.as_slice());
    }
    assert(data@ =~= overlay_preimage(address@, network_id, bytes_of(nonce)));
    data
}

/// Derives the overlay address of `address` on network `network_id`. An
/// absent nonce counts as thirty-two zero bytes.
pub fn calc_overlay(address: Address, network_id: u64, nonce: Option<Nonce>) -> (overlay:
    OverlayAddress)
    ensures
        overlay@ == overlay_of(address@, network_id, bytes_of(nonce)),
{
    let data = preimage(address, network_id, nonce);
    keccak256(data.as_slice())
}

/// An absent nonce and the all-zero nonce enter the hash alike.
pub proof fn lemma_absent_nonce_is_zero(address: Seq<u8>, network_id: u64)
    ensures
        overlay_of(address, network_id, None) == overlay_of(
            address,
            network_id,
            Some(zero_nonce()),
        ),
{
}

/// The hashed buffer tells its three inputs apart: two derivations hash the
/// same bytes only if chain address, network id and nonce bytes agree.
pub proof fn lemma_preimage_injective(
    address1: Seq<u8>,
    network1: u64,
    nonce1: Option<Seq<u8>>,
    address2: Seq<u8>,
    network2: u64,
    nonce2: Option<Seq<u8>>,
)
    requires
        address1.len() == ADDRESS_SIZE,
        address2.len() == ADDRESS_SIZE,
        overlay_preimage(address1, network1, nonce1) == overlay_preimage(
            address2,
            network2,
            nonce2,
        ),
    ensures
        address1 == address2,
        network1 == network2,
        nonce_or_zero(nonce1) == nonce_or_zero(nonce2),
{
    let left = overlay_preimage(address1, network1, nonce1);
    let right = overlay_preimage(address2, network2, nonce2);
    assert(address1 =~= left.subrange(0, 20));
    assert(address2 =~= right.subrange(0, 20));
    assert(le_bytes(network1) =~= left.subrange(20, 28));
    assert(le_bytes(network2) =~= right.subrange(20, 28));
    lemma_le_bytes_injective(network1, network2);
    assert(nonce_or_zero(nonce1) =~= left.subrange(28, left.len() as int));
    assert(nonce_or_zero(nonce2) =~= right.subrange(28, right.len() as int));
}

} // verus!
