//! Underlay addresses: where a node can be reached on the transport.
//!
//! An underlay travels as the binary form of a multiaddress. Whether bytes
//! are such a form is decided by the `multiaddr` crate; the library keeps
//! the bytes and the fact that they were accepted.

use vstd::prelude::*;

verus! {

/// Error of `multiaddr`, carried through unread.
#[verifier::external_type_specification]
#[verifier::external_body]
pub struct ExMultiaddrError(multiaddr::Error);

/// Whether `bytes` are the binary form of a multiaddress: whether
/// `multiaddr::Multiaddr::try_from` accepts a vector of these bytes.
pub uninterp spec fn is_multiaddr(bytes: Seq<u8>) -> bool;

/// Calls `Multiaddr::try_from` on a copy of the bytes and, where it
/// accepts them, `to_vec` on the multiaddress. The conversion reads the
/// bytes protocol by protocol and keeps the vector as it is, so the bytes
/// that come back are those that went in.
#[verifier::external_body]
fn decode_multiaddr(bytes: &[u8]) -> (res: Result<Vec<u8>, multiaddr::Error>)
    ensures
        res is Ok <==> is_multiaddr(bytes@),
        res matches Ok(binary) ==> binary@ == bytes@,
{
    let address = multiaddr::Multiaddr::try_from(bytes.to_vec())?;
    Ok(address.to_vec())
}

/// A transport address in its binary form.
#[derive(Debug, PartialEq, Eq)]
pub struct Underlay {
    bytes: Vec<u8>,
}

impl View for Underlay {
    type V = Seq<u8>;

    closed spec fn view(&self) -> Seq<u8> {
        self.bytes@
    }
}

impl Clone for Underlay {
    fn clone(&self) -> (copy: Self)
        ensures
            copy@ == self@,
    {
        proof {
            use_type_invariant(self);
        }
        Underlay { bytes: self.bytes.clone() }
    }
}

impl Underlay {
    #[verifier::type_invariant]
    spec fn well_formed(self) -> bool {
        is_multiaddr(self.bytes@)
    }

    /// Reads an underlay from its binary form. `None` where the bytes are
    /// not the binary form of a multiaddress.
    pub fn decode(bytes: &[u8]) -> (res: Option<Underlay>)
        ensures
            res is Some <==> is_multiaddr(bytes@),
            res matches Some(underlay) ==> underlay@ == bytes@,
    {
        match decode_multiaddr(bytes) {
            Ok(binary) => Some(Underlay { bytes: binary }),
            Err(_) => None,
        }
    }

    /// The binary form.
    pub fn as_bytes(&self) -> (bytes: &[u8])
        ensures
            bytes@ == self@,
            is_multiaddr(self@),
    {
        proof {
            use_type_invariant(self);
        }
        self.bytes.as_slice()
    }

    /// A copy of the binary form.
    pub fn to_vec(&self) -> (bytes: Vec<u8>)
        ensures
            bytes@ == self@,
    {
        self.bytes.clone()
    }
}

} // verus!
