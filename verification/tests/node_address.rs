use alloy_signer_local::PrivateKeySigner;
use multiaddr::Multiaddr;
use swarm_handshake::crypto::Signature;
use swarm_handshake::overlay::{calc_overlay, Overlay};
use swarm_handshake::types::generate_sign_data;
use swarm_handshake::types::{AnnounceError, NodeAddress, NodeAddressError};
use swarm_handshake::types::{REPLICAS_OWNER, SIGN_PREFIX};
use swarm_handshake::underlay::Underlay;
use swarm_handshake::wallet::Wallet;

const ZERO_NONCE: [u8; 32] = [0; 32];

fn unhex(text: &str) -> Vec<u8> {
    let digits: Vec<u8> = text
        .bytes()
        .map(|c| match c {
            b'0'..=b'9' => c - b'0',
            b'a'..=b'f' => c - b'a' + 10,
            _ => panic!("not a lower-case hex digit"),
        })
        .collect();
    digits.chunks(2).map(|pair| pair[0] * 16 + pair[1]).collect()
}

/// `/ip4/127.0.0.1/tcp/1111` in binary.
fn local_underlay() -> Vec<u8> {
    vec![0x04, 127, 0, 0, 1, 0x06, 0x04, 0x57]
}

fn wallet(fill: u8) -> Wallet {
    Wallet::from_bytes([fill; 32]).unwrap()
}

fn announce(fill: u8, network_id: u64, nonce: [u8; 32]) -> (NodeAddress, Signature) {
    let underlay = Underlay::decode(&local_underlay()).unwrap();
    NodeAddress::new(wallet(fill), network_id, nonce, underlay).unwrap()
}

/// A claim over `underlay` and `overlay` that `signer` really signed.
fn signed_claim(signer: &Wallet, underlay: &[u8], overlay: &[u8], network_id: u64) -> Vec<u8> {
    let message = generate_sign_data(underlay, overlay, network_id);
    signer.sign_message(&message).unwrap().to_vec()
}

#[test]
fn prefix_is_the_ascii_tag() {
    assert_eq!(&SIGN_PREFIX[..], b"bee-handshake-");
}

#[test]
fn replicas_owner_is_the_checksummed_address() {
    let parsed = alloy_primitives::Address::parse_checksummed(
        "0xDC5b20847F43d67928F49Cd4f85D696b5A7617B5",
        None,
    )
    .unwrap();
    assert_eq!(REPLICAS_OWNER, parsed.0 .0);
}

#[test]
fn sign_data_is_prefix_underlay_overlay_network() {
    let underlay = local_underlay();
    let overlay = [0xc3u8; 32];
    let data = generate_sign_data(&underlay, &overlay, 0x0102_0304_0506_0708);
    let mut expected = b"bee-handshake-".to_vec();
    expected.extend_from_slice(&underlay);
    expected.extend_from_slice(&overlay);
    expected.extend_from_slice(&[1, 2, 3, 4, 5, 6, 7, 8]);
    assert_eq!(data, expected);
    assert_eq!(data.len(), 14 + 8 + 32 + 8);
}

#[test]
fn sign_data_of_a_known_claim() {
    let overlay = unhex("6ab6ca26f192b1467281bc44f42aa0c841c818612f146962fd7b470516438472");
    assert_eq!(
        generate_sign_data(&local_underlay(), &overlay, 1),
        unhex(
            "6265652d68616e647368616b652d047f000001060457\
             6ab6ca26f192b1467281bc44f42aa0c841c818612f146962fd7b470516438472\
             0000000000000001"
        )
    );
}

#[test]
fn sign_data_carries_the_network_id_high_byte_first() {
    let data = generate_sign_data(&[], &[0; 32], 1);
    assert_eq!(data[data.len() - 8..], [0, 0, 0, 0, 0, 0, 0, 1]);
    assert_ne!(generate_sign_data(&[], &[0; 32], 1), generate_sign_data(&[], &[0; 32], 1 << 56));
}

#[test]
fn announce_derives_and_signs() {
    let (address, signature) = announce(0x11, 1, ZERO_NONCE);
    assert_eq!(address.chain().to_vec(), unhex("19e7e376e7c213b7e7e7e46cc70a5dd086daff2a"));
    assert_eq!(
        address.overlay().to_vec(),
        unhex("6ab6ca26f192b1467281bc44f42aa0c841c818612f146962fd7b470516438472")
    );
    assert_eq!(address.underlay().as_bytes(), &local_underlay()[..]);
    assert_eq!(
        signature.to_vec(),
        unhex(
            "ca424699fa2b0783ccd68da57695e6682c40a2e9d444b0b89c50f0df19499c44\
             268cf0b28c7c1b21d760d27e4fae1c6f09d296cd1fc5a572a82d1073d885a3451b"
        )
    );
}

#[test]
fn announce_then_parse_round_trip() {
    let (address, signature) = announce(0x11, 1, ZERO_NONCE);
    let parsed = NodeAddress::parse(
        &local_underlay(),
        address.overlay(),
        &signature,
        &ZERO_NONCE,
        true,
        1,
    )
    .unwrap();
    assert_eq!(parsed, address);
    assert_eq!(*parsed.chain(), wallet(0x11).address());
    assert_eq!(*parsed.overlay(), calc_overlay(wallet(0x11).address(), 1, Some(ZERO_NONCE)));
    assert_eq!(parsed.underlay().to_vec(), local_underlay());
    let decoded = Multiaddr::try_from(parsed.underlay().to_vec()).unwrap();
    assert_eq!(decoded, "/ip4/127.0.0.1/tcp/1111".parse::<Multiaddr>().unwrap());
}

#[test]
fn round_trip_for_a_generated_identity() {
    let signer = PrivateKeySigner::random();
    let identity = Wallet::from_bytes(signer.to_bytes().0).unwrap();
    let text: Multiaddr = "/ip4/10.1.2.3/tcp/1634".parse().unwrap();
    let underlay = Underlay::decode(&text.to_vec()).unwrap();
    let nonce = [0x5a; 32];
    let (address, signature) = NodeAddress::new(identity, 1, nonce, underlay).unwrap();
    let parsed =
        NodeAddress::parse(&text.to_vec(), address.overlay(), &signature, &nonce, true, 1)
            .unwrap();
    assert_eq!(*parsed.chain(), signer.address().0 .0);
    assert_eq!(*parsed.overlay(), identity.overlay(1, Some(nonce)));
    assert_eq!(Multiaddr::try_from(parsed.underlay().to_vec()).unwrap(), text);
    assert_eq!(parsed, address);
}

#[test]
fn a_flipped_signature_byte_is_detected() {
    let (address, signature) = announce(0x11, 1, ZERO_NONCE);
    for position in [0usize, 13, 31, 32, 47, 63] {
        let mut tampered = signature;
        tampered[position] ^= 0x01;
        let outcome = NodeAddress::parse(
            &local_underlay(),
            address.overlay(),
            &tampered,
            &ZERO_NONCE,
            true,
            1,
        );
        assert!(matches!(
            outcome,
            Err(NodeAddressError::SignatureMismatch) | Err(NodeAddressError::OverlayMismatch)
        ));
    }
}

#[test]
fn a_flipped_recovery_byte_is_detected() {
    let (address, signature) = announce(0x11, 1, ZERO_NONCE);
    let mut tampered = signature;
    tampered[64] = if signature[64] == 27 { 28 } else { 27 };
    let outcome =
        NodeAddress::parse(&local_underlay(), address.overlay(), &tampered, &ZERO_NONCE, true, 1);
    assert!(matches!(
        outcome,
        Err(NodeAddressError::SignatureMismatch) | Err(NodeAddressError::OverlayMismatch)
    ));
    tampered[64] = 29;
    let outcome =
        NodeAddress::parse(&local_underlay(), address.overlay(), &tampered, &ZERO_NONCE, true, 1);
    assert_eq!(outcome, Err(NodeAddressError::SignatureMismatch));
}

#[test]
fn the_recovery_byte_has_more_than_one_notation() {
    let (address, signature) = announce(0x11, 1, ZERO_NONCE);
    let parity = signature[64] - 27;
    for notation in [parity, 35 + parity, 37 + parity] {
        let mut rewritten = signature;
        rewritten[64] = notation;
        let parsed = NodeAddress::parse(
            &local_underlay(),
            address.overlay(),
            &rewritten,
            &ZERO_NONCE,
            true,
            1,
        );
        assert_eq!(parsed, Ok(address.clone()));
    }
}

#[test]
fn a_flipped_overlay_byte_is_detected() {
    let (address, signature) = announce(0x11, 1, ZERO_NONCE);
    for position in [0usize, 15, 31] {
        let mut tampered = *address.overlay();
        tampered[position] ^= 0x80;
        let outcome =
            NodeAddress::parse(&local_underlay(), &tampered, &signature, &ZERO_NONCE, true, 1);
        assert!(matches!(
            outcome,
            Err(NodeAddressError::SignatureMismatch) | Err(NodeAddressError::OverlayMismatch)
        ));
    }
}

#[test]
fn another_network_id_is_detected() {
    let (address, signature) = announce(0x11, 1, ZERO_NONCE);
    for network_id in [0u64, 2, 257, 1 << 56, u64::MAX] {
        let outcome = NodeAddress::parse(
            &local_underlay(),
            address.overlay(),
            &signature,
            &ZERO_NONCE,
            true,
            network_id,
        );
        assert!(matches!(
            outcome,
            Err(NodeAddressError::SignatureMismatch) | Err(NodeAddressError::OverlayMismatch)
        ));
    }
}

#[test]
fn another_nonce_is_an_overlay_mismatch() {
    let (address, signature) = announce(0x11, 1, ZERO_NONCE);
    let outcome =
        NodeAddress::parse(&local_underlay(), address.overlay(), &signature, &[1; 32], true, 1);
    assert_eq!(outcome, Err(NodeAddressError::OverlayMismatch));
}

#[test]
fn another_underlay_is_detected() {
    let (address, signature) = announce(0x11, 1, ZERO_NONCE);
    let moved = vec![0x04, 127, 0, 0, 1, 0x06, 0x04, 0x58];
    let outcome =
        NodeAddress::parse(&moved, address.overlay(), &signature, &ZERO_NONCE, true, 1);
    assert!(matches!(
        outcome,
        Err(NodeAddressError::SignatureMismatch) | Err(NodeAddressError::OverlayMismatch)
    ));
}

#[test]
fn a_well_signed_foreign_overlay_is_rejected() {
    let signer = wallet(0x11);
    let foreign = wallet(0x22).overlay(1, Some(ZERO_NONCE));
    let signature = signed_claim(&signer, &local_underlay(), &foreign, 1);
    let outcome =
        NodeAddress::parse(&local_underlay(), &foreign, &signature, &ZERO_NONCE, true, 1);
    assert_eq!(outcome, Err(NodeAddressError::OverlayMismatch));
}

#[test]
fn without_validation_a_foreign_overlay_is_taken_as_claimed() {
    let signer = wallet(0x11);
    let foreign = wallet(0x22).overlay(1, Some(ZERO_NONCE));
    let signature = signed_claim(&signer, &local_underlay(), &foreign, 1);
    let parsed =
        NodeAddress::parse(&local_underlay(), &foreign, &signature, &ZERO_NONCE, false, 1)
            .unwrap();
    assert_eq!(*parsed.chain(), signer.address());
    assert_eq!(*parsed.overlay(), foreign);
    assert_eq!(parsed.underlay().to_vec(), local_underlay());
}

#[test]
fn without_validation_the_nonce_is_not_read() {
    let (address, signature) = announce(0x11, 1, ZERO_NONCE);
    let parsed =
        NodeAddress::parse(&local_underlay(), address.overlay(), &signature, &[], false, 1)
            .unwrap();
    assert_eq!(parsed, address);
}

#[test]
fn without_validation_a_bad_signature_still_fails() {
    let (address, signature) = announce(0x11, 1, ZERO_NONCE);
    let mut no_signature = signature;
    for byte in no_signature[..32].iter_mut() {
        *byte = 0;
    }
    let outcome = NodeAddress::parse(
        &local_underlay(),
        address.overlay(),
        &no_signature,
        &ZERO_NONCE,
        false,
        1,
    );
    assert_eq!(outcome, Err(NodeAddressError::SignatureMismatch));
    let outcome = NodeAddress::parse(
        &local_underlay(),
        address.overlay(),
        &signature[..64],
        &ZERO_NONCE,
        false,
        1,
    );
    assert_eq!(outcome, Err(NodeAddressError::SignatureLengthMismatch));
}

#[test]
fn a_signature_of_another_length_is_a_length_mismatch() {
    let (address, signature) = announce(0x11, 1, ZERO_NONCE);
    let mut longer = signature.to_vec();
    longer.push(0);
    for candidate in [&signature[..0], &signature[..1], &signature[..64], &longer[..]] {
        for validate in [true, false] {
            let outcome = NodeAddress::parse(
                &local_underlay(),
                address.overlay(),
                candidate,
                &ZERO_NONCE,
                validate,
                1,
            );
            assert_eq!(outcome, Err(NodeAddressError::SignatureLengthMismatch));
        }
    }
}

#[test]
fn the_signature_length_is_checked_first() {
    let outcome = NodeAddress::parse(&[0xff], &[1, 2, 3], &[0; 64], &[], true, 1);
    assert_eq!(outcome, Err(NodeAddressError::SignatureLengthMismatch));
}

#[test]
fn an_underlay_that_is_no_address_fails_to_decode() {
    let signer = wallet(0x11);
    let overlay = signer.overlay(1, Some(ZERO_NONCE));
    for garbage in [vec![0x04u8, 127, 0], vec![0xff, 0xff, 0xff, 0xff, 0xff, 0x0f], vec![0x06, 1]]
    {
        let signature = signed_claim(&signer, &garbage, &overlay, 1);
        for validate in [true, false] {
            let outcome =
                NodeAddress::parse(&garbage, &overlay, &signature, &ZERO_NONCE, validate, 1);
            assert_eq!(outcome, Err(NodeAddressError::UnderlayDecodeFailed));
        }
    }
}

#[test]
fn an_overlay_of_another_length_is_an_overlay_mismatch() {
    let signer = wallet(0x11);
    let overlay = signer.overlay(1, Some(ZERO_NONCE));
    let mut longer = overlay.to_vec();
    longer.push(0);
    for claimed in [&overlay[..31], &longer[..], &overlay[..0]] {
        let signature = signed_claim(&signer, &local_underlay(), claimed, 1);
        for validate in [true, false] {
            let outcome = NodeAddress::parse(
                &local_underlay(),
                claimed,
                &signature,
                &ZERO_NONCE,
                validate,
                1,
            );
            assert_eq!(outcome, Err(NodeAddressError::OverlayMismatch));
        }
    }
}

#[test]
fn a_nonce_of_another_length_is_an_overlay_mismatch() {
    let (address, signature) = announce(0x11, 1, ZERO_NONCE);
    for nonce in [&ZERO_NONCE[..31], &[0u8; 33][..], &[][..]] {
        let outcome = NodeAddress::parse(
            &local_underlay(),
            address.overlay(),
            &signature,
            nonce,
            true,
            1,
        );
        assert_eq!(outcome, Err(NodeAddressError::OverlayMismatch));
    }
}

#[test]
fn the_recovered_signer_is_the_chain_address() {
    let first = announce(0x11, 1, ZERO_NONCE);
    let second = announce(0x22, 1, ZERO_NONCE);
    assert_ne!(first.0.chain(), second.0.chain());
    assert_ne!(first.0.overlay(), second.0.overlay());
    let parsed = NodeAddress::parse(
        &local_underlay(),
        second.0.overlay(),
        &second.1,
        &ZERO_NONCE,
        true,
        1,
    )
    .unwrap();
    assert_eq!(*parsed.chain(), wallet(0x22).address());
    let crossed = NodeAddress::parse(
        &local_underlay(),
        first.0.overlay(),
        &second.1,
        &ZERO_NONCE,
        true,
        1,
    );
    assert!(matches!(
        crossed,
        Err(NodeAddressError::SignatureMismatch) | Err(NodeAddressError::OverlayMismatch)
    ));
}

#[test]
fn accept_decides_in_order() {
    let chain = [0x0c; 20];
    let overlay = [0x0e; 32];
    let underlay = || Underlay::decode(&local_underlay());
    assert_eq!(
        NodeAddress::accept(64, None, &[], true, None, None),
        Err(NodeAddressError::SignatureLengthMismatch)
    );
    assert_eq!(
        NodeAddress::accept(66, Some(chain), &overlay, true, Some(overlay), underlay()),
        Err(NodeAddressError::SignatureLengthMismatch)
    );
    assert_eq!(
        NodeAddress::accept(65, None, &overlay[..3], true, None, None),
        Err(NodeAddressError::SignatureMismatch)
    );
    assert_eq!(
        NodeAddress::accept(65, Some(chain), &overlay[..31], false, None, None),
        Err(NodeAddressError::OverlayMismatch)
    );
    assert_eq!(
        NodeAddress::accept(65, Some(chain), &overlay, true, None, None),
        Err(NodeAddressError::OverlayMismatch)
    );
    assert_eq!(
        NodeAddress::accept(65, Some(chain), &overlay, true, Some([0x0f; 32]), underlay()),
        Err(NodeAddressError::OverlayMismatch)
    );
    assert_eq!(
        NodeAddress::accept(65, Some(chain), &overlay, true, Some(overlay), None),
        Err(NodeAddressError::UnderlayDecodeFailed)
    );
    assert_eq!(
        NodeAddress::accept(65, Some(chain), &overlay, false, None, None),
        Err(NodeAddressError::UnderlayDecodeFailed)
    );
    let strict =
        NodeAddress::accept(65, Some(chain), &overlay, true, Some(overlay), underlay()).unwrap();
    assert_eq!(*strict.chain(), chain);
    assert_eq!(*strict.overlay(), overlay);
    assert_eq!(strict.underlay().to_vec(), local_underlay());
    let lax = NodeAddress::accept(65, Some(chain), &overlay, false, Some([0x0f; 32]), underlay())
        .unwrap();
    assert_eq!(lax, strict);
}

#[test]
fn seal_hands_out_only_verified_claims() {
    let chain = [0x0c; 20];
    let overlay = [0x0e; 32];
    let signature = [0x05; 65];
    let underlay = || Underlay::decode(&local_underlay()).unwrap();
    assert_eq!(
        NodeAddress::seal(chain, overlay, underlay(), None, None),
        Err(AnnounceError::SigningFailed)
    );
    assert_eq!(
        NodeAddress::seal(chain, overlay, underlay(), None, Some(chain)),
        Err(AnnounceError::SigningFailed)
    );
    assert_eq!(
        NodeAddress::seal(chain, overlay, underlay(), Some(signature), None),
        Err(AnnounceError::SignatureUnverified)
    );
    assert_eq!(
        NodeAddress::seal(chain, overlay, underlay(), Some(signature), Some([0x0d; 20])),
        Err(AnnounceError::SignatureUnverified)
    );
    let (address, sealed) =
        NodeAddress::seal(chain, overlay, underlay(), Some(signature), Some(chain)).unwrap();
    assert_eq!(sealed, signature);
    assert_eq!(*address.chain(), chain);
    assert_eq!(*address.overlay(), overlay);
    assert_eq!(address.underlay().to_vec(), local_underlay());
}

#[test]
fn errors_in_words() {
    assert_eq!(
        NodeAddressError::SignatureLengthMismatch.message(),
        "signature length mismatch"
    );
    assert_eq!(NodeAddressError::OverlayMismatch.message(), "overlay mismatch");
    assert_eq!(NodeAddressError::SignatureMismatch.message(), "signature mismatch");
    assert_eq!(NodeAddressError::UnderlayDecodeFailed.message(), "underlay decode failed");
}

#[test]
fn underlay_keeps_the_bytes_of_a_multiaddress() {
    let text: Multiaddr = "/ip4/127.0.0.1/tcp/1111".parse().unwrap();
    assert_eq!(text.to_vec(), local_underlay());
    let underlay = Underlay::decode(&local_underlay()).unwrap();
    assert_eq!(underlay.as_bytes(), &local_underlay()[..]);
    assert_eq!(underlay.to_vec(), local_underlay());
    assert_eq!(underlay.clone(), underlay);
    assert!(Underlay::decode(&[]).is_some());
}

#[test]
fn underlay_rejects_what_is_no_multiaddress() {
    assert!(Underlay::decode(&[0x04, 127, 0]).is_none());
    assert!(Underlay::decode(&[0x06, 1]).is_none());
    assert!(Underlay::decode(&[0xff, 0xff, 0xff, 0xff, 0xff, 0x0f]).is_none());
    assert!(Underlay::decode(&[0x04, 127, 0, 0, 1, 0x06]).is_none());
}
