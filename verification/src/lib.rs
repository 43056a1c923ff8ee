//! Identity and handshake layer of a peer-to-peer overlay network.
//!
//! A node derives its overlay address from its chain address, signs the
//! binding between that overlay and its underlay address, and checks the
//! same binding on the claims that peers present during the handshake.

pub mod crypto;
pub mod encoding;
pub mod handshake;
pub mod overlay;
pub mod types;
pub mod underlay;
pub mod wallet;
