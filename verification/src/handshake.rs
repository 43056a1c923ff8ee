//! The handshake: three messages over a fresh stream, after which each side
//! holds the other's verified node address.
//!
//! The initiator sends a `Syn`, the responder answers with a `SynAck` that
//! carries its signed claim, and the initiator closes with an `Ack` that
//! carries its own. Streams, framing and timers are the caller's; this
//! module decides. `step` takes the state of one handshake and what just
//! happened on its stream, and returns the next state and what to do.

use crate::crypto::bytes_of;
use crate::crypto::HASH_SIZE;
use crate::overlay::nonce_or_zero;
use crate::overlay::overlay_of;
use crate::overlay::Nonce;
use crate::types::announce_outcome;
use crate::types::lemma_announced_claim_is_accepted;
use crate::types::lemma_validation_only_adds_the_overlay_check;
use crate::types::parse_outcome;
use crate::types::{AnnounceError, NodeAddress, NodeAddressError, NodeAddressView};
use crate::underlay::is_multiaddr;
use crate::underlay::Underlay;
use crate::wallet::{Wallet, WalletView};
use vstd::prelude::*;
use vstd::slice::slice_to_vec;

verus! {

/// Name under which the handshake is negotiated on a connection.
pub const HANDSHAKE_PROTOCOL: &'static str = "/swarm/handshake/11.0.0/handshake";

/// Most bytes that a side reads for one message.
pub const MAX_MESSAGE_SIZE: usize = 4096;

/// A signed claim as it travels: underlay, signature and overlay as bytes.
#[derive(Clone, Debug, PartialEq, Eq)]
pub struct BzzAddress {
    pub underlay: Vec<u8>,
    pub signature: Vec<u8>,
    pub overlay: Vec<u8>,
}

/// First message: the underlay at which the initiator reached the
/// responder.
#[derive(Clone, Debug, PartialEq, Eq)]
pub struct Syn {
    pub observed_underlay: Vec<u8>,
}

/// Last message, and the second half of a `SynAck`: the sender's claim with
/// the parameters it was made under, and what the sender says of itself.
#[derive(Clone, Debug, PartialEq, Eq)]
pub struct Ack {
    pub address: Option<BzzAddress>,
    pub network_id: u64,
    pub full_node: bool,
    pub nonce: Vec<u8>,
    pub welcome_message: String,
}

/// Second message: the underlay at which the responder saw the initiator,
/// and the responder's own claim.
#[derive(Clone, Debug, PartialEq, Eq)]
pub struct SynAck {
    pub observed_underlay: Vec<u8>,
    pub ack: Ack,
}

/// A peer whose claim was accepted.
#[derive(Clone, Debug, PartialEq, Eq)]
pub struct Peer {
    pub address: NodeAddress,
    pub full_node: bool,
    pub welcome_message: String,
}

/// What a node brings to every handshake: its identity, the network it is
/// on, and how it checks peers.
#[derive(Clone)]
pub struct Config {
    /// The identity that signs the node's claim.
    pub wallet: Wallet,
    /// The network the node is on; claims are made and checked under it.
    pub network_id: u64,
    /// The nonce of the node's overlay address.
    pub nonce: Nonce,
    /// Where the node listens.
    pub underlay: Underlay,
    /// Whether the node says of itself that it is a full node.
    pub full_node: bool,
    /// The greeting the node sends along.
    pub welcome_message: String,
    /// Whether a peer's overlay has to be the one its signer derives. A
    /// node that unsets this accepts overlays that their claimants may not
    /// own; signatures are checked all the same.
    pub validate_overlay: bool,
}

/// Where one handshake stands.
#[derive(Clone, Copy, Debug, PartialEq, Eq, Structural)]
pub enum State {
    /// Nothing sent or received yet.
    Idle,
    /// Initiator: `Syn` sent, `SynAck` awaited.
    SynSent,
    /// Responder: `Syn` received and answered, `Ack` awaited.
    SynReceived,
    /// The peer's claim is accepted and one's own is on its way.
    AckExchanged,
    /// The stream is closed after a completed exchange.
    Closed,
    /// The attempt is abandoned.
    Failed,
}

/// Why a handshake was abandoned.
#[derive(Clone, Copy, Debug, PartialEq, Eq, Structural)]
pub enum Failure {
    /// The stream could not be opened, read or written.
    Transport,
    /// The peer does not speak this protocol.
    UnsupportedProtocol,
    /// A message could not be decoded, or lacks the claim.
    Decode,
    /// The peer's claim was turned down.
    Verification(NodeAddressError),
    /// One's own claim could not be signed.
    Signing(AnnounceError),
    /// Something happened that the state does not allow.
    Unexpected,
}

/// What happened on the stream.
#[derive(Clone, Debug, PartialEq, Eq)]
pub enum Event {
    /// Initiator: a stream to the peer dialed at this underlay is open.
    Dialed { peer_underlay: Vec<u8> },
    /// Responder: a `Syn` arrived from a peer seen at this underlay.
    SynReceived { syn: Syn, observed_underlay: Vec<u8> },
    /// Initiator: the `SynAck` arrived.
    SynAckReceived { syn_ack: SynAck },
    /// Responder: the `Ack` arrived.
    AckReceived { ack: Ack },
    /// The stream was closed in good order.
    StreamClosed,
    /// The caller gave up on the stream.
    Aborted { failure: Failure },
}

/// What the caller is to do next.
#[derive(Clone, Debug, PartialEq, Eq)]
pub enum Action {
    /// Send the `Syn`, flush, and read the answer.
    SendSyn { syn: Syn },
    /// Send the `SynAck`, flush, and read the answer.
    SendSynAck { syn_ack: SynAck },
    /// Send the `Ack`, flush and close; `peer` is accepted.
    SendAck { ack: Ack, peer: Peer },
    /// Close the stream; `peer` is accepted.
    Accept { peer: Peer },
    /// Nothing.
    Idle,
    /// Drop the stream and report the failure; no peer is accepted.
    Abandon { failure: Failure },
}

/// Next state and what to do.
#[derive(Clone, Debug, PartialEq, Eq)]
pub struct Transition {
    pub state: State,
    pub action: Action,
}

/// A `BzzAddress` in contracts.
pub struct BzzAddressView {
    pub underlay: Seq<u8>,
    pub signature: Seq<u8>,
    pub overlay: Seq<u8>,
}

/// An `Ack` in contracts.
pub struct AckView {
    pub address: Option<BzzAddressView>,
    pub network_id: u64,
    pub full_node: bool,
    pub nonce: Seq<u8>,
    pub welcome_message: Seq<char>,
}

/// A `SynAck` in contracts.
pub struct SynAckView {
    pub observed_underlay: Seq<u8>,
    pub ack: AckView,
}

/// A `Peer` in contracts.
pub struct PeerView {
    pub address: NodeAddressView,
    pub full_node: bool,
    pub welcome_message: Seq<char>,
}

/// A `Config` in contracts.
pub struct ConfigView {
    pub wallet: WalletView,
    pub network_id: u64,
    pub nonce: Seq<u8>,
    pub underlay: Seq<u8>,
    pub full_node: bool,
    pub welcome_message: Seq<char>,
    pub validate_overlay: bool,
}

/// An `Event` in contracts; a `Syn` is its observed underlay.
pub enum EventView {
    Dialed { peer_underlay: Seq<u8> },
    SynReceived { syn: Seq<u8>, observed_underlay: Seq<u8> },
    SynAckReceived { syn_ack: SynAckView },
    AckReceived { ack: AckView },
    StreamClosed,
    Aborted { failure: Failure },
}

/// An `Action` in contracts; a `Syn` is its observed underlay.
pub enum ActionView {
    SendSyn { syn: Seq<u8> },
    SendSynAck { syn_ack: SynAckView },
    SendAck { ack: AckView, peer: PeerView },
    Accept { peer: PeerView },
    Idle,
    Abandon { failure: Failure },
}

/// A `Transition` in contracts.
pub struct TransitionView {
    pub state: State,
    pub action: ActionView,
}

impl View for BzzAddress {
    type V = BzzAddressView;

    open spec fn view(&self) -> BzzAddressView {
        BzzAddressView {
            underlay: self.underlay@,
            signature: self.signature@,
            overlay: self.overlay@,
        }
    }
}

impl View for Syn {
    type V = Seq<u8>;

    open spec fn view(&self) -> Seq<u8> {
        self.observed_underlay@
    }
}

impl View for Ack {
    type V = AckView;

    open spec fn view(&self) -> AckView {
        AckView {
            address: match self.address {
                Some(address) => Some(address@),
                None => None,
            },
            network_id: self.network_id,
            full_node: self.full_node,
            nonce: self.nonce@,
            welcome_message: self.welcome_message@,
        }
    }
}

impl View for SynAck {
    type V = SynAckView;

    open spec fn view(&self) -> SynAckView {
        SynAckView { observed_underlay: self.observed_underlay@, ack: self.ack@ }
    }
}

impl View for Peer {
    type V = PeerView;

    open spec fn view(&self) -> PeerView {
        PeerView {
            address: self.address@,
            full_node: self.full_node,
            welcome_message: self.welcome_message@,
        }
    }
}

impl View for Config {
    type V = ConfigView;

    open spec fn view(&self) -> ConfigView {
        ConfigView {
            wallet: self.wallet@,
            network_id: self.network_id,
            nonce: self.nonce@,
            underlay: self.underlay@,
            full_node: self.full_node,
            welcome_message: self.welcome_message@,
            validate_overlay: self.validate_overlay,
        }
    }
}

impl View for Event {
    type V = EventView;

    open spec fn view(&self) -> EventView {
        match *self {
            Event::Dialed { peer_underlay } => EventView::Dialed { peer_underlay: peer_underlay@ },
            Event::SynReceived { syn, observed_underlay } => EventView::SynReceived {
                syn: syn@,
                observed_underlay: observed_underlay@,
            },
            Event::SynAckReceived { syn_ack } => EventView::SynAckReceived { syn_ack: syn_ack@ },
            Event::AckReceived { ack } => EventView::AckReceived { ack: ack@ },
            Event::StreamClosed => EventView::StreamClosed,
            Event::Aborted { failure } => EventView::Aborted { failure: failure },
        }
    }
}

impl View for Action {
    type V = ActionView;

    open spec fn view(&self) -> ActionView {
        match *self {
            Action::SendSyn { syn } => ActionView::SendSyn { syn: syn@ },
            Action::SendSynAck { syn_ack } => ActionView::SendSynAck { syn_ack: syn_ack@ },
            Action::SendAck { ack, peer } => ActionView::SendAck { ack: ack@, peer: peer@ },
            Action::Accept { peer } => ActionView::Accept { peer: peer@ },
            Action::Idle => ActionView::Idle,
            Action::Abandon { failure } => ActionView::Abandon { failure: failure },
        }
    }
}

impl View for Transition {
    type V = TransitionView;

    open spec fn view(&self) -> TransitionView {
        TransitionView { state: self.state, action: self.action@ }
    }
}

/// A result with its success seen through the view.
pub open spec fn viewed<T: View, E>(res: Result<T, E>) -> Result<T::V, E> {
    match res {
        Ok(value) => Ok(value@),
        Err(error) => Err(error),
    }
}

/// The transition that abandons the handshake.
pub open spec fn abandoned(failure: Failure) -> TransitionView {
    TransitionView { state: State::Failed, action: ActionView::Abandon { failure: failure } }
}

/// The claim message that a node with this configuration sends: its
/// address as announced, with the parameters it was announced under.
pub open spec fn own_ack(config: ConfigView) -> Result<AckView, Failure> {
    match announce_outcome(config.wallet, config.network_id, config.nonce, config.underlay) {
        Ok((node, signature)) => Ok(
            AckView {
                address: Some(
                    BzzAddressView {
                        underlay: node.underlay,
                        signature: signature,
                        overlay: node.overlay,
                    },
                ),
                network_id: config.network_id,
                full_node: config.full_node,
                nonce: config.nonce,
                welcome_message: config.welcome_message,
            },
        ),
        Err(error) => Err(Failure::Signing(error)),
    }
}

/// What a node with this configuration makes of a peer's claim message:
/// the claim is parsed under the node's own network id and the nonce the
/// message carries.
pub open spec fn peer_of(config: ConfigView, ack: AckView) -> Result<PeerView, Failure> {
    match ack.address {
        None => Err(Failure::Decode),
        Some(claim) => match parse_outcome(
            claim.underlay,
            claim.overlay,
            claim.signature,
            ack.nonce,
            config.validate_overlay,
            config.network_id,
        ) {
            Ok(node) => Ok(
                PeerView {
                    address: node,
                    full_node: ack.full_node,
                    welcome_message: ack.welcome_message,
                },
            ),
            Err(error) => Err(Failure::Verification(error)),
        },
    }
}

/// Responder, on a `Syn`: answer with one's own claim, or give up where it
/// cannot be signed.
pub open spec fn after_syn(observed_underlay: Seq<u8>, own: Result<AckView, Failure>)
    -> TransitionView {
    match own {
        Ok(ack) => TransitionView {
            state: State::SynReceived,
            action: ActionView::SendSynAck {
                syn_ack: SynAckView { observed_underlay: observed_underlay, ack: ack },
            },
        },
        Err(failure) => abandoned(failure),
    }
}

/// Initiator, on an accepted `SynAck`: close with one's own claim, or give
/// up where it cannot be signed.
pub open spec fn after_syn_ack(peer: PeerView, own: Result<AckView, Failure>) -> TransitionView {
    match own {
        Ok(ack) => TransitionView {
            state: State::AckExchanged,
            action: ActionView::SendAck { ack: ack, peer: peer },
        },
        Err(failure) => abandoned(failure),
    }
}

/// Responder, on an `Ack`: accept the peer or give up.
pub open spec fn after_ack(peer: Result<PeerView, Failure>) -> TransitionView {
    match peer {
        Ok(peer) => TransitionView {
            state: State::AckExchanged,
            action: ActionView::Accept { peer: peer },
        },
        Err(failure) => abandoned(failure),
    }
}

/// The handshake as a transition function.
///
/// `Closed` and `Failed` are final. Anywhere else an abort fails the
/// handshake with the reported failure, and an event that the state does
/// not expect fails it as unexpected.
pub open spec fn next(config: ConfigView, state: State, event: EventView) -> TransitionView {
    match state {
        State::Closed => TransitionView { state: State::Closed, action: ActionView::Idle },
        State::Failed => TransitionView { state: State::Failed, action: ActionView::Idle },
        _ => match event {
            EventView::Aborted { failure } => abandoned(failure),
            EventView::Dialed { peer_underlay } => if state == State::Idle {
                TransitionView {
                    state: State::SynSent,
                    action: ActionView::SendSyn { syn: peer_underlay },
                }
            } else {
                abandoned(Failure::Unexpected)
            },
            EventView::SynReceived { syn, observed_underlay } => if state == State::Idle {
                after_syn(observed_underlay, own_ack(config))
            } else {
                abandoned(Failure::Unexpected)
            },
            EventView::SynAckReceived { syn_ack } => if state == State::SynSent {
                match peer_of(config, syn_ack.ack) {
                    Ok(peer) => after_syn_ack(peer, own_ack(config)),
                    Err(failure) => abandoned(failure),
                }
            } else {
                abandoned(Failure::Unexpected)
            },
            EventView::AckReceived { ack } => if state == State::SynReceived {
                after_ack(peer_of(config, ack))
            } else {
                abandoned(Failure::Unexpected)
            },
            EventView::StreamClosed => if state == State::AckExchanged {
                TransitionView { state: State::Closed, action: ActionView::Idle }
            } else {
                abandoned(Failure::Unexpected)
            },
        },
    }
}

impl Config {
    /// The configuration of a light node that greets with nothing and
    /// validates overlays. A node without a standing nonce uses thirty-two
    /// zero bytes.
    pub fn new(wallet: Wallet, network_id: u64, nonce: Option<Nonce>, underlay: Underlay) -> (config:
        Config)
        ensures
            config@ == (ConfigView {
                wallet: wallet@,
                network_id: network_id,
                nonce: nonce_or_zero(bytes_of(nonce)),
                underlay: underlay@,
                full_node: false,
                welcome_message: Seq::<char>::empty(),
                validate_overlay: true,
            }),
    {
        let chosen = match nonce {
            Some(standing) => standing,
            None => [0u8; HASH_SIZE],
        };
        assert(chosen@ =~= nonce_or_zero(bytes_of(nonce)));
        let welcome_message = String::new();
        assert(welcome_message@ =~= Seq::<char>::empty());
        Config {
            wallet,
            network_id,
            nonce: chosen,
            underlay,
            full_node: false,
            welcome_message,
            validate_overlay: true,
        }
    }
}

impl Failure {
    /// Whether the caller may try the peer again later: only where the
    /// transport failed. A peer that does not speak the protocol, a message
    /// that cannot be read and a claim that does not hold stay as they are.
    pub fn is_transient(&self) -> (transient: bool)
        ensures
            transient == (*self == Failure::Transport),
    {
        match self {
            Failure::Transport => true,
            _ => false,
        }
    }
}

impl Transition {
    fn abandon(failure: Failure) -> (transition: Transition)
        ensures
            transition@ == abandoned(failure),
    {
        Transition { state: State::Failed, action: Action::Abandon { failure } }
    }
}

/// Makes and signs the claim message of the node with this configuration.
pub fn make_ack(config: &Config) -> (res: Result<Ack, Failure>)
    ensures
        viewed(res) == own_ack(config@),
{
    let underlay = config.underlay.clone();
    match NodeAddress::new(config.wallet, config.network_id, config.nonce, underlay) {
        Ok((address, signature)) => {
            let claim = BzzAddress {
                underlay: address.underlay().to_vec(),
                signature: slice_to_vec(signature.as_slice()),
                overlay: slice_to_vec(address.overlay().as_slice()),
            };
            Ok(
                Ack {
                    address: Some(claim),
                    network_id: config.network_id,
                    full_node: config.full_node,
                    nonce: slice_to_vec(config.nonce.as_slice()),
                    welcome_message: config.welcome_message.clone(),
                },
            )
        },
        Err(error) => Err(Failure::Signing(error)),
    }
}

/// Checks the claim message of a peer.
pub fn verify_ack(config: &Config, ack: Ack) -> (res: Result<Peer, Failure>)
    ensures
        viewed(res) == peer_of(config@, ack@),
{
    match ack.address {
        None => Err(Failure::Decode),
        Some(claim) => {
            match NodeAddress::parse(
                claim.underlay.as_slice(),
                claim.overlay.as_slice(),
                claim.signature.as_slice(),
                ack.nonce.as_slice(),
                config.validate_overlay,
                config.network_id,
            ) {
                Ok(address) => Ok(
                    Peer {
                        address,
                        full_node: ack.full_node,
                        welcome_message: ack.welcome_message,
                    },
                ),
                Err(error) => Err(Failure::Verification(error)),
            }
        },
    }
}

/// Responder's answer to a `Syn`, given the outcome of making its claim.
pub fn on_syn(observed_underlay: Vec<u8>, own: Result<Ack, Failure>) -> (transition: Transition)
    ensures
        transition@ == after_syn(observed_underlay@, viewed(own)),
{
    match own {
        Ok(ack) => Transition {
            state: State::SynReceived,
            action: Action::SendSynAck { syn_ack: SynAck { observed_underlay, ack } },
        },
        Err(failure) => Transition::abandon(failure),
    }
}

/// Initiator's answer to an accepted `SynAck`, given the outcome of making
/// its claim.
pub fn on_syn_ack(peer: Peer, own: Result<Ack, Failure>) -> (transition: Transition)
    ensures
        transition@ == after_syn_ack(peer@, viewed(own)),
{
    match own {
        Ok(ack) => Transition { state: State::AckExchanged, action: Action::SendAck { ack, peer } },
        Err(failure) => Transition::abandon(failure),
    }
}

/// Responder's answer to an `Ack`, given the outcome of checking it.
pub fn on_ack(peer: Result<Peer, Failure>) -> (transition: Transition)
    ensures
        transition@ == after_ack(viewed(peer)),
{
    match peer {
        Ok(peer) => Transition { state: State::AckExchanged, action: Action::Accept { peer } },
        Err(failure) => Transition::abandon(failure),
    }
}

/// Advances one handshake by one event.
pub fn step(config: &Config, state: State, event: Event) -> (transition: Transition)
    ensures
        transition@ == next(config@, state, event@),
{
    match state {
        State::Closed => {
            return Transition { state: State::Closed, action: Action::Idle };
        },
        State::Failed => {
            return Transition { state: State::Failed, action: Action::Idle };
        },
        _ => {},
    }
    match event {
        Event::Aborted { failure } => Transition::abandon(failure),
        Event::Dialed { peer_underlay } => {
            if state == State::Idle {
                Transition {
                    state: State::SynSent,
                    action: Action::SendSyn { syn: Syn { observed_underlay: peer_underlay } },
                }
            } else {
                Transition::abandon(Failure::Unexpected)
            }
        },
        Event::SynReceived { syn: _, observed_underlay } => {
            if state == State::Idle {
                on_syn(observed_underlay, make_ack(config))
            } else {
                Transition::abandon(Failure::Unexpected)
            }
        },
        Event::SynAckReceived { syn_ack } => {
            if state == State::SynSent {
                match verify_ack(config, syn_ack.ack) {
                    Ok(peer) => on_syn_ack(peer, make_ack(config)),
                    Err(failure) => Transition::abandon(failure),
                }
            } else {
                Transition::abandon(Failure::Unexpected)
            }
        },
        Event::AckReceived { ack } => {
            if state == State::SynReceived {
                on_ack(verify_ack(config, ack))
            } else {
                Transition::abandon(Failure::Unexpected)
            }
        },
        Event::StreamClosed => {
            if state == State::AckExchanged {
                Transition { state: State::Closed, action: Action::Idle }
            } else {
                Transition::abandon(Failure::Unexpected)
            }
        },
    }
}

/// `Closed` and `Failed` are final: no event leads out of them, and none
/// asks anything of the caller.
pub proof fn lemma_final_states_are_final(config: ConfigView, state: State, event: EventView)
    requires
        state == State::Closed || state == State::Failed,
    ensures
        next(config, state, event) == (TransitionView { state: state, action: ActionView::Idle }),
{
}

/// From every state that is not final, an abort leads to `Failed` with the
/// reported failure.
pub proof fn lemma_abort_fails(config: ConfigView, state: State, failure: Failure)
    requires
        state != State::Closed,
        state != State::Failed,
    ensures
        next(config, state, EventView::Aborted { failure: failure }) == abandoned(failure),
{
}

/// A peer is handed to the caller only together with the step into
/// `AckExchanged`, and only a peer whose claim message was checked in that
/// very step: the initiator's on the `SynAck`, the responder's on the `Ack`.
/// Every other step hands out no peer.
pub proof fn lemma_peer_only_by_verification(config: ConfigView, state: State, event: EventView)
    ensures
        match next(config, state, event).action {
            ActionView::SendAck { ack, peer } => {
                &&& next(config, state, event).state == State::AckExchanged
                &&& state == State::SynSent
                &&& event matches EventView::SynAckReceived { syn_ack }
                &&& peer_of(config, syn_ack.ack) == Ok::<PeerView, Failure>(peer)
                &&& own_ack(config) == Ok::<AckView, Failure>(ack)
            },
            ActionView::Accept { peer } => {
                &&& next(config, state, event).state == State::AckExchanged
                &&& state == State::SynReceived
                &&& event matches EventView::AckReceived { ack }
                &&& peer_of(config, ack) == Ok::<PeerView, Failure>(peer)
            },
            _ => next(config, state, event).state != State::AckExchanged,
        },
{
}

/// A node accepts the claim message of every node on its own network that
/// could sign one, and learns from it what the sender announced: the
/// sender's chain address, its derived overlay, its underlay, and what it
/// says of itself.
pub proof fn lemma_own_ack_is_accepted(sender: ConfigView, receiver: ConfigView, ack: AckView)
    requires
        sender.nonce.len() == HASH_SIZE,
        is_multiaddr(sender.underlay),
        sender.network_id == receiver.network_id,
        own_ack(sender) == Ok::<AckView, Failure>(ack),
    ensures
        peer_of(receiver, ack) == Ok::<PeerView, Failure>(
            PeerView {
                address: NodeAddressView {
                    underlay: sender.underlay,
                    overlay: overlay_of(
                        sender.wallet.address,
                        sender.network_id,
                        Some(sender.nonce),
                    ),
                    chain: sender.wallet.address,
                },
                full_node: sender.full_node,
                welcome_message: sender.welcome_message,
            },
        ),
{
    let announced = announce_outcome(
        sender.wallet,
        sender.network_id,
        sender.nonce,
        sender.underlay,
    );
    let (node, signature) = announced->Ok_0;
    lemma_announced_claim_is_accepted(
        sender.wallet,
        sender.network_id,
        sender.nonce,
        sender.underlay,
        node,
        signature,
    );
    let claim = ack.address->Some_0;
    let strict = parse_outcome(
        claim.underlay,
        claim.overlay,
        claim.signature,
        ack.nonce,
        true,
        receiver.network_id,
    );
    lemma_validation_only_adds_the_overlay_check(
        claim.underlay,
        claim.overlay,
        claim.signature,
        ack.nonce,
        receiver.network_id,
    );
}

/// Two nodes on one network that can both sign complete the handshake: the
/// four steps below lead both sides to `AckExchanged`, and each side is
/// handed the other's address with the other's chain address in it.
pub proof fn lemma_handshake_completes(
    initiator: ConfigView,
    responder: ConfigView,
    dialed: Seq<u8>,
    observed: Seq<u8>,
)
    requires
        initiator.nonce.len() == HASH_SIZE,
        responder.nonce.len() == HASH_SIZE,
        is_multiaddr(initiator.underlay),
        is_multiaddr(responder.underlay),
        initiator.network_id == responder.network_id,
        own_ack(initiator) is Ok,
        own_ack(responder) is Ok,
    ensures
        ({
            let syn = next(initiator, State::Idle, EventView::Dialed { peer_underlay: dialed });
            let syn_ack = next(
                responder,
                State::Idle,
                EventView::SynReceived { syn: dialed, observed_underlay: observed },
            );
            &&& syn.state == State::SynSent
            &&& syn.action == ActionView::SendSyn { syn: dialed }
            &&& syn_ack.state == State::SynReceived
            &&& syn_ack.action matches ActionView::SendSynAck { syn_ack: second }
            &&& second.observed_underlay == observed
            &&& next(
                initiator,
                State::SynSent,
                EventView::SynAckReceived { syn_ack: second },
            ).state == State::AckExchanged
            &&& next(
                initiator,
                State::SynSent,
                EventView::SynAckReceived { syn_ack: second },
            ).action matches ActionView::SendAck { ack: third, peer: seen_by_initiator }
            &&& seen_by_initiator.address.chain == responder.wallet.address
            &&& seen_by_initiator.address.underlay == responder.underlay
            &&& next(
                responder,
                State::SynReceived,
                EventView::AckReceived { ack: third },
            ).state == State::AckExchanged
            &&& next(
                responder,
                State::SynReceived,
                EventView::AckReceived { ack: third },
            ).action matches ActionView::Accept { peer: seen_by_responder }
            &&& seen_by_responder.address.chain == initiator.wallet.address
            &&& seen_by_responder.address.underlay == initiator.underlay
        }),
{
    lemma_own_ack_is_accepted(responder, initiator, own_ack(responder)->Ok_0);
    lemma_own_ack_is_accepted(initiator, responder, own_ack(initiator)->Ok_0);
}

} // verus!
