//! Node addresses: the claim a node makes about itself, and how a peer's
//! claim is checked.
//!
//! A node address ties an underlay (where the node is reached) to an overlay
//! (where it sits in the network) and to the chain address that vouches for
//! both. The owner signs underlay, overlay and network id; whoever receives
//! the claim recovers the signer from that signature and, unless told
//! otherwise, recomputes the overlay from the signer.

use crate::crypto::bytes_of;
use crate::crypto::recover_signer;
use crate::crypto::{message_signature, recovered_signer};
use crate::crypto::{Address, Signature};
use crate::crypto::{HASH_SIZE, SIGNATURE_SIZE};
use crate::encoding::{append, bytes_equal, to_array};
use crate::encoding::be_bytes;
use crate::encoding::lemma_be_bytes_injective;
use crate::encoding::u64_to_be_bytes;
use crate::overlay::overlay_of;
use crate::overlay::{DistAddr, Nonce, Overlay, OverlayAddress};
use crate::underlay::is_multiaddr;
use crate::underlay::Underlay;
use crate::wallet::{Wallet, WalletView};
use vstd::prelude::*;

verus! {

/// Domain separation prefix of every signed payload: ASCII
/// `bee-handshake-`.
pub const SIGN_PREFIX: [u8; 14] = [
    0x62, 0x65, 0x65, 0x2d, 0x68, 0x61, 0x6e, 0x64, 0x73, 0x68, 0x61, 0x6b, 0x65, 0x2d,
];

/// Chain address of the owner of replica chunks.
pub const REPLICAS_OWNER: Address = [
    0xdc, 0x5b, 0x20, 0x84, 0x7f, 0x43, 0xd6, 0x79, 0x28, 0xf4, 0x9c, 0xd4, 0xf8, 0x5d, 0x69, 0x6b,
    0x5a, 0x76, 0x17, 0xb5,
];

/// The address of a node: underlay, overlay and the chain address that
/// signed for both.
#[derive(Clone, Debug, PartialEq, Eq)]
pub struct NodeAddress {
    underlay: Underlay,
    overlay: DistAddr,
    chain: Address,
}

/// What a node address stands for in contracts.
pub struct NodeAddressView {
    pub underlay: Seq<u8>,
    pub overlay: Seq<u8>,
    pub chain: Seq<u8>,
}

/// Why a peer's claim was turned down.
#[derive(Clone, Copy, Debug, PartialEq, Eq, Structural)]
pub enum NodeAddressError {
    /// The signature does not have the length of a recoverable signature.
    SignatureLengthMismatch,
    /// The claimed overlay is not the one derived from the signer.
    OverlayMismatch,
    /// No signer can be recovered from the signature.
    SignatureMismatch,
    /// The underlay is not the binary form of a transport address.
    UnderlayDecodeFailed,
}

/// Why a node could not produce its own claim.
#[derive(Clone, Copy, Debug, PartialEq, Eq, Structural)]
pub enum AnnounceError {
    /// The signer reported an error.
    SigningFailed,
    /// The signer returned a signature that does not recover to its own
    /// address.
    SignatureUnverified,
}

impl NodeAddressError {
    /// The error in words.
    pub open spec fn text(self) -> Seq<char> {
        match self {
            NodeAddressError::SignatureLengthMismatch => "signature length mismatch"@,
            NodeAddressError::OverlayMismatch => "overlay mismatch"@,
            NodeAddressError::SignatureMismatch => "signature mismatch"@,
            NodeAddressError::UnderlayDecodeFailed => "underlay decode failed"@,
        }
    }

    /// The error in words.
    pub fn message(&self) -> (message: String)
        ensures
            message@ == self.text(),
    {
        match self {
            NodeAddressError::SignatureLengthMismatch => "signature length mismatch".to_owned(),
            NodeAddressError::OverlayMismatch => "overlay mismatch".to_owned(),
            NodeAddressError::SignatureMismatch => "signature mismatch".to_owned(),
            NodeAddressError::UnderlayDecodeFailed => "underlay decode failed".to_owned(),
        }
    }
}

impl View for NodeAddress {
    type V = NodeAddressView;

    closed spec fn view(&self) -> NodeAddressView {
        NodeAddressView { underlay: self.underlay@, overlay: self.overlay@, chain: self.chain@ }
    }
}

/// The payload that is signed: prefix, underlay, overlay, network id most
/// significant byte first.
pub open spec fn sign_data(underlay: Seq<u8>, overlay: Seq<u8>, network_id: u64) -> Seq<u8> {
    SIGN_PREFIX@ + underlay + overlay + be_bytes(network_id)
}

/// What `NodeAddress::accept` answers to the outcome of the single checks.
pub open spec fn verdict(
    signature_len: nat,
    recovered: Option<Seq<u8>>,
    overlay: Seq<u8>,
    validate_overlay: bool,
    expected: Option<Seq<u8>>,
    underlay: Option<Seq<u8>>,
) -> Result<NodeAddressView, NodeAddressError> {
    if signature_len != SIGNATURE_SIZE {
        Err(NodeAddressError::SignatureLengthMismatch)
    } else {
        match recovered {
            None => Err(NodeAddressError::SignatureMismatch),
            Some(chain) => {
                if overlay.len() != HASH_SIZE || (validate_overlay && expected != Some(overlay)) {
                    Err(NodeAddressError::OverlayMismatch)
                } else {
                    match underlay {
                        None => Err(NodeAddressError::UnderlayDecodeFailed),
                        Some(binary) => Ok(
                            NodeAddressView { underlay: binary, overlay: overlay, chain: chain },
                        ),
                    }
                }
            },
        }
    }
}

/// What `NodeAddress::parse` answers to a claim.
///
/// The checks come in a fixed order and the first that fails names the
/// error: the signature's length; recovery of the signer from the payload
/// rebuilt with the claimed overlay; the overlay, which has to be 32 bytes
/// and, where validation is asked for, the one derived from the recovered
/// signer under a 32-byte nonce; the underlay's form. The chain address of
/// an accepted claim is the recovered one.
pub open spec fn parse_outcome(
    underlay: Seq<u8>,
    overlay: Seq<u8>,
    signature: Seq<u8>,
    nonce: Seq<u8>,
    validate_overlay: bool,
    network_id: u64,
) -> Result<NodeAddressView, NodeAddressError> {
    if signature.len() != SIGNATURE_SIZE {
        Err(NodeAddressError::SignatureLengthMismatch)
    } else {
        match recovered_signer(sign_data(underlay, overlay, network_id), signature) {
            None => Err(NodeAddressError::SignatureMismatch),
            Some(chain) => {
                if overlay.len() != HASH_SIZE || (validate_overlay && (nonce.len() != HASH_SIZE
                    || overlay_of(chain@, network_id, Some(nonce)) != overlay)) {
                    Err(NodeAddressError::OverlayMismatch)
                } else if !is_multiaddr(underlay) {
                    Err(NodeAddressError::UnderlayDecodeFailed)
                } else {
                    Ok(NodeAddressView { underlay: underlay, overlay: overlay, chain: chain@ })
                }
            },
        }
    }
}

/// What `NodeAddress::seal` answers to the outcome of signing and of the
/// check on the signature.
pub open spec fn sealed(
    chain: Seq<u8>,
    overlay: Seq<u8>,
    underlay: Seq<u8>,
    signed: Option<Seq<u8>>,
    recovered: Option<Seq<u8>>,
) -> Result<(NodeAddressView, Seq<u8>), AnnounceError> {
    match signed {
        None => Err(AnnounceError::SigningFailed),
        Some(signature) => {
            if recovered == Some(chain) {
                Ok(
                    (
                        NodeAddressView { underlay: underlay, overlay: overlay, chain: chain },
                        signature,
                    ),
                )
            } else {
                Err(AnnounceError::SignatureUnverified)
            }
        },
    }
}

/// What `NodeAddress::new` answers.
///
/// The overlay is derived from the wallet's address, the payload is signed
/// with the wallet's key, and the claim is handed out only if the signature
/// recovers to the wallet's address.
pub open spec fn announce_outcome(
    wallet: WalletView,
    network_id: u64,
    nonce: Seq<u8>,
    underlay: Seq<u8>,
) -> Result<(NodeAddressView, Seq<u8>), AnnounceError> {
    let overlay = overlay_of(wallet.address, network_id, Some(nonce));
    let payload = sign_data(underlay, overlay, network_id);
    let signed = message_signature(wallet.key, payload);
    let recovered = match signed {
        Some(signature) => recovered_signer(payload, signature@),
        None => None,
    };
    sealed(wallet.address, overlay, underlay, bytes_of(signed), bytes_of(recovered))
}

/// A parsed claim as it appears in contracts.
pub open spec fn parsed_view(res: Result<NodeAddress, NodeAddressError>) -> Result<
    NodeAddressView,
    NodeAddressError,
> {
    match res {
        Ok(address) => Ok(address@),
        Err(error) => Err(error),
    }
}

/// An announced claim as it appears in contracts.
pub open spec fn announced_view(res: Result<(NodeAddress, Signature), AnnounceError>) -> Result<
    (NodeAddressView, Seq<u8>),
    AnnounceError,
> {
    match res {
        Ok((address, signature)) => Ok((address@, signature@)),
        Err(error) => Err(error),
    }
}

/// Lays out the payload that is signed for a claim.
pub fn generate_sign_data(underlay: &[u8], overlay: &[u8], network_id: u64) -> (data: Vec<u8>)
    ensures
        data@ == sign_data(underlay@, overlay@, network_id),
{
    let mut data: Vec<u8> = Vec::new();
    append(&mut data, SIGN_PREFIX.as_slice());
    append(&mut data, underlay);
    append(&mut data, overlay);
    let id = u64_to_be_bytes(network_id);
    append(&mut data, id.as_slice());
    assert(data@ =~= sign_data(underlay@, overlay@, network_id));
    data
}

impl NodeAddress {
    /// Makes and signs the claim of the node that holds `signer`.
    pub fn new(signer: Wallet, network_id: u64, nonce: Nonce, underlay: Underlay) -> (res: Result<
        (Self, Signature),
        AnnounceError,
    >)
        ensures
            announced_view(res) == announce_outcome(signer@, network_id, nonce@, underlay@),
    {
        let chain = signer.address();
        let overlay = signer.overlay(network_id, Some(nonce));
        let message = generate_sign_data(underlay.as_bytes(), overlay.as_slice(), network_id);
        let signed = signer.sign_message(message.as_slice());
        let recovered = match &signed {
            Some(signature) => recover_signer(message.as_slice(), signature.as_slice()),
            None => None,
        };
        Self::seal(chain, overlay, underlay, signed, recovered)
    }

    /// Decides on a claim of one's own from what signing gave and from the
    /// signer that the signature recovers to (`None` where nothing was
    /// signed or nothing recovered).
    pub fn seal(
        chain: Address,
        overlay: OverlayAddress,
        underlay: Underlay,
        signed: Option<Signature>,
        recovered: Option<Address>,
    ) -> (res: Result<(Self, Signature), AnnounceError>)
        ensures
            announced_view(res) == sealed(
                chain@,
                overlay@,
                underlay@,
                bytes_of(signed),
                bytes_of(recovered),
            ),
    {
        match signed {
            None => Err(AnnounceError::SigningFailed),
            Some(signature) => {
                let verified = match recovered {
                    Some(signer) => bytes_equal(signer.as_slice(), chain.as_slice()),
                    None => false,
                };
                if verified {
                    Ok((NodeAddress { underlay, overlay, chain }, signature))
                } else {
                    Err(AnnounceError::SignatureUnverified)
                }
            },
        }
    }

    /// Checks the claim of a peer and, where it holds, returns the peer's
    /// address with the recovered signer as its chain address.
    ///
    /// With `validate_overlay` unset the overlay is taken as claimed: the
    /// caller then accepts an overlay that the signer may not own. The
    /// signature is checked all the same.
    pub fn parse(
        underlay: &[u8],
        overlay: &[u8],
        signature: &[u8],
        nonce: &[u8],
        validate_overlay: bool,
        network_id: u64,
    ) -> (res: Result<Self, NodeAddressError>)
        ensures
            parsed_view(res) == parse_outcome(
                underlay@,
                overlay@,
                signature@,
                nonce@,
                validate_overlay,
                network_id,
            ),
    {
        let recovered = if signature.len() == SIGNATURE_SIZE {
            let message = generate_sign_data(underlay, overlay, network_id);
            recover_signer(message.as_slice(), signature)
        } else {
            None
        };
        let expected = match (&recovered, to_array::<HASH_SIZE>(nonce)) {
            (Some(chain), Some(nonce)) if validate_overlay => Some(
                chain.overlay(network_id, Some(nonce)),
            ),
            _ => None,
        };
        let decoded = Underlay::decode(underlay);
        Self::accept(signature.len(), recovered, overlay, validate_overlay, expected, decoded)
    }

    /// Decides on a peer's claim from the outcome of the single checks: the
    /// signature's length, the signer recovered from it, the overlay that
    /// the signer derives (`None` where none was derived), and the underlay
    /// as far as it could be read.
    pub fn accept(
        signature_len: usize,
        recovered: Option<Address>,
        overlay: &[u8],
        validate_overlay: bool,
        expected: Option<OverlayAddress>,
        underlay: Option<Underlay>,
    ) -> (res: Result<Self, NodeAddressError>)
        ensures
            parsed_view(res) == verdict(
                signature_len as nat,
                bytes_of(recovered),
                overlay@,
                validate_overlay,
                bytes_of(expected),
                match underlay {
                    Some(binary) => Some(binary@),
                    None => None,
                },
            ),
    {
        if signature_len != SIGNATURE_SIZE {
            return Err(NodeAddressError::SignatureLengthMismatch);
        }
        let chain = match recovered {
            Some(chain) => chain,
            None => {
                return Err(NodeAddressError::SignatureMismatch);
            },
        };
        let claimed = match to_array::<HASH_SIZE>(overlay) {
            Some(claimed) => claimed,
            None => {
                return Err(NodeAddressError::OverlayMismatch);
            },
        };
        if validate_overlay {
            let matches = match expected {
                Some(derived) => bytes_equal(derived.as_slice(), overlay),
                None => false,
            };
            if !matches {
                return Err(NodeAddressError::OverlayMismatch);
            }
        }
        match underlay {
            Some(underlay) => Ok(NodeAddress { underlay, overlay: claimed, chain }),
            None => Err(NodeAddressError::UnderlayDecodeFailed),
        }
    }

    /// Where the node is reached.
    pub fn underlay(&self) -> (underlay: &Underlay)
        ensures
            underlay@ == self@.underlay,
    {
        &self.underlay
    }

    /// Where the node sits in the overlay.
    pub fn overlay(&self) -> (overlay: &DistAddr)
        ensures
            overlay@ == self@.overlay,
    {
        &self.overlay
    }

    /// The chain address that signed for this node.
    pub fn chain(&self) -> (chain: &Address)
        ensures
            chain@ == self@.chain,
    {
        &self.chain
    }
}

/// A claim that a node made of itself is accepted by whoever checks it
/// under the network id and nonce it was made with, overlay validation
/// included, and the accepted address is the announced one: its chain
/// address is the signer's, its overlay the derived one, its underlay the
/// announced bytes.
pub proof fn lemma_announced_claim_is_accepted(
    signer: WalletView,
    network_id: u64,
    nonce: Seq<u8>,
    underlay: Seq<u8>,
    node: NodeAddressView,
    signature: Seq<u8>,
)
    requires
        nonce.len() == HASH_SIZE,
        is_multiaddr(underlay),
        announce_outcome(signer, network_id, nonce, underlay) == Ok::<
            (NodeAddressView, Seq<u8>),
            AnnounceError,
        >((node, signature)),
    ensures
        parse_outcome(underlay, node.overlay, signature, nonce, true, network_id) == Ok::<
            NodeAddressView,
            NodeAddressError,
        >(node),
        node.chain == signer.address,
        node.overlay == overlay_of(signer.address, network_id, Some(nonce)),
        node.underlay == underlay,
{
}

/// The signed payload tells its fields apart: two payloads over overlays of
/// one length are the same bytes only if underlay, overlay and network id
/// agree. A signature over one claim is therefore a signature over no
/// other.
pub proof fn lemma_sign_data_injective(
    underlay1: Seq<u8>,
    overlay1: Seq<u8>,
    network1: u64,
    underlay2: Seq<u8>,
    overlay2: Seq<u8>,
    network2: u64,
)
    requires
        overlay1.len() == overlay2.len(),
        sign_data(underlay1, overlay1, network1) == sign_data(underlay2, overlay2, network2),
    ensures
        underlay1 == underlay2,
        overlay1 == overlay2,
        network1 == network2,
{
    let left = sign_data(underlay1, overlay1, network1);
    let right = sign_data(underlay2, overlay2, network2);
    let n = underlay1.len() as int;
    let m = overlay1.len() as int;
    assert(left.len() == 14 + n + m + 8);
    assert(right.len() == 14 + underlay2.len() + m + 8);
    assert(underlay1 =~= left.subrange(14, 14 + n));
    assert(underlay2 =~= right.subrange(14, 14 + n));
    assert(overlay1 =~= left.subrange(14 + n, 14 + n + m));
    assert(overlay2 =~= right.subrange(14 + n, 14 + n + m));
    assert(be_bytes(network1) =~= left.subrange(14 + n + m, 14 + n + m + 8));
    assert(be_bytes(network2) =~= right.subrange(14 + n + m, 14 + n + m + 8));
    lemma_be_bytes_injective(network1, network2);
}

/// No claim is accepted without its checks: an accepted address carries the
/// claimed underlay and overlay unchanged, its chain address is the signer
/// recovered from the signature over exactly these bytes and this network
/// id, and with overlay validation its overlay is the one that this signer
/// derives under the given nonce.
pub proof fn lemma_accepted_claim_is_bound(
    underlay: Seq<u8>,
    overlay: Seq<u8>,
    signature: Seq<u8>,
    nonce: Seq<u8>,
    validate_overlay: bool,
    network_id: u64,
    node: NodeAddressView,
)
    requires
        parse_outcome(underlay, overlay, signature, nonce, validate_overlay, network_id) == Ok::<
            NodeAddressView,
            NodeAddressError,
        >(node),
    ensures
        signature.len() == SIGNATURE_SIZE,
        bytes_of(recovered_signer(sign_data(underlay, overlay, network_id), signature)) == Some(
            node.chain,
        ),
        node.underlay == underlay,
        node.overlay == overlay,
        overlay.len() == HASH_SIZE,
        is_multiaddr(underlay),
        validate_overlay ==> overlay == overlay_of(node.chain, network_id, Some(nonce)),
{
}

/// With overlay validation, a claim whose signature recovers to a signer
/// that does not derive the claimed overlay is turned down as an overlay
/// mismatch, however well it is signed.
pub proof fn lemma_foreign_overlay_is_rejected(
    underlay: Seq<u8>,
    overlay: Seq<u8>,
    signature: Seq<u8>,
    nonce: Seq<u8>,
    network_id: u64,
    signer: Address,
)
    requires
        signature.len() == SIGNATURE_SIZE,
        recovered_signer(sign_data(underlay, overlay, network_id), signature) == Some(signer),
        overlay != overlay_of(signer@, network_id, Some(nonce)),
    ensures
        parse_outcome(underlay, overlay, signature, nonce, true, network_id) == Err::<
            NodeAddressView,
            NodeAddressError,
        >(NodeAddressError::OverlayMismatch),
{
}

/// Without overlay validation the derived overlay plays no part: a signed
/// claim with a 32-byte overlay and a well-formed underlay is accepted
/// whatever overlay it names and whatever the nonce, while a claim whose
/// signature recovers to no signer is turned down as before.
pub proof fn lemma_unvalidated_overlay_is_taken_as_claimed(
    underlay: Seq<u8>,
    overlay: Seq<u8>,
    signature: Seq<u8>,
    nonce: Seq<u8>,
    network_id: u64,
)
    requires
        signature.len() == SIGNATURE_SIZE,
        overlay.len() == HASH_SIZE,
        is_multiaddr(underlay),
    ensures
        match recovered_signer(sign_data(underlay, overlay, network_id), signature) {
            Some(signer) => parse_outcome(underlay, overlay, signature, nonce, false, network_id)
                == Ok::<NodeAddressView, NodeAddressError>(
                NodeAddressView { underlay: underlay, overlay: overlay, chain: signer@ },
            ),
            None => parse_outcome(underlay, overlay, signature, nonce, false, network_id) == Err::<
                NodeAddressView,
                NodeAddressError,
            >(NodeAddressError::SignatureMismatch),
        },
{
}

/// Switching overlay validation off never turns an accepted claim into a
/// rejected one, and never changes the error of a claim that fails on its
/// signature.
pub proof fn lemma_validation_only_adds_the_overlay_check(
    underlay: Seq<u8>,
    overlay: Seq<u8>,
    signature: Seq<u8>,
    nonce: Seq<u8>,
    network_id: u64,
)
    ensures
        ({
            let strict = parse_outcome(underlay, overlay, signature, nonce, true, network_id);
            let lax = parse_outcome(underlay, overlay, signature, nonce, false, network_id);
            strict == lax || strict == Err::<NodeAddressView, NodeAddressError>(
                NodeAddressError::OverlayMismatch,
            )
        }),
{
}

/// A signature of any length but 65 bytes is a length mismatch, whatever
/// else the claim holds.
pub proof fn lemma_wrong_signature_length_is_rejected(
    underlay: Seq<u8>,
    overlay: Seq<u8>,
    signature: Seq<u8>,
    nonce: Seq<u8>,
    validate_overlay: bool,
    network_id: u64,
)
    requires
        signature.len() != SIGNATURE_SIZE,
    ensures
        parse_outcome(underlay, overlay, signature, nonce, validate_overlay, network_id) == Err::<
            NodeAddressView,
            NodeAddressError,
        >(NodeAddressError::SignatureLengthMismatch),
{
}

/// A claim that passes the checks on signature and overlay but whose
/// underlay is not the binary form of a transport address fails on the
/// underlay.
pub proof fn lemma_malformed_underlay_is_rejected(
    underlay: Seq<u8>,
    overlay: Seq<u8>,
    signature: Seq<u8>,
    nonce: Seq<u8>,
    validate_overlay: bool,
    network_id: u64,
    signer: Address,
)
    requires
        signature.len() == SIGNATURE_SIZE,
        recovered_signer(sign_data(underlay, overlay, network_id), signature) == Some(signer),
        overlay.len() == HASH_SIZE,
        validate_overlay ==> nonce.len() == HASH_SIZE && overlay == overlay_of(
            signer@,
            network_id,
            Some(nonce),
        ),
        !is_multiaddr(underlay),
    ensures
        parse_outcome(underlay, overlay, signature, nonce, validate_overlay, network_id) == Err::<
            NodeAddressView,
            NodeAddressError,
        >(NodeAddressError::UnderlayDecodeFailed),
{
}

} // verus!
