//! A chain identity held locally: a secret key and the address it signs for.

use crate::crypto::{key_address, sign};
use crate::crypto::{message_signature, signer_address};
use crate::crypto::{Address, Signature, KEY_SIZE};
use crate::crypto::bytes_of;
use vstd::prelude::*;

verus! {

/// A secret key together with its chain address.
///
/// The address is computed from the key when the wallet is made and never
/// changes, so a wallet always signs for the address it reports.
#[derive(Clone, Copy)]
pub struct Wallet {
    key: [u8; KEY_SIZE],
    address: Address,
}

/// What a wallet stands for in contracts.
pub struct WalletView {
    pub key: Seq<u8>,
    pub address: Seq<u8>,
}

impl View for Wallet {
    type V = WalletView;

    closed spec fn view(&self) -> WalletView {
        WalletView { key: self.key@, address: self.address@ }
    }
}

impl Wallet {
    #[verifier::type_invariant]
    spec fn well_formed(self) -> bool {
        signer_address(self.key@) == Some(self.address)
    }

    /// Makes the wallet of a secret key. `None` where the bytes are no
    /// secret key.
    pub fn from_bytes(key: [u8; KEY_SIZE]) -> (res: Option<Wallet>)
        ensures
            match res {
                Some(wallet) => wallet@.key == key@ && bytes_of(signer_address(key@)) == Some(
                    wallet@.address,
                ),
                None => signer_address(key@) is None,
            },
    {
        match key_address(&key) {
            Some(address) => Some(Wallet { key, address }),
            None => None,
        }
    }

    /// The chain address that this wallet signs for.
    pub fn address(&self) -> (address: Address)
        ensures
            address@ == self@.address,
            signer_address(self@.key) == Some(address),
    {
        proof {
            use_type_invariant(self);
        }
        self.address
    }

    /// Signs `message` as EIP-191 prescribes. `None` where the signer
    /// reports an error.
    pub fn sign_message(&self, message: &[u8]) -> (res: Option<Signature>)
        ensures
            res == message_signature(self@.key, message@),
    {
        sign(&self.key, message)
    }
}

} // verus!
