//! The peer id that a keypair stands for.
use vstd::prelude::*;
use libp2p::identity::{Keypair, PublicKey};
use libp2p::PeerId;

verus! {

/// A libp2p identity keypair; the library carries it without looking inside.
#[verifier::external_type_specification]
#[verifier::external_body]
pub struct ExKeypair(Keypair);

/// A libp2p public key; the library carries it without looking inside.
#[verifier::external_type_specification]
#[verifier::external_body]
pub struct ExPublicKey(PublicKey);

/// The public half of a keypair.
pub uninterp spec fn keypair_public_key(keypair: Keypair) -> PublicKey;

/// The peer id that a public key stands for.
pub uninterp spec fn public_key_peer_id(key: PublicKey) -> PeerId;

/// `Keypair::public`: the keypair's public key.
#[verifier::external_body]
fn public_key_of(keypair: &Keypair) -> (key: PublicKey)
    ensures
        key == keypair_public_key(*keypair),
{
    keypair.public()
}

/// `PublicKey::to_peer_id`: the peer id of a public key.
#[verifier::external_body]
fn peer_id_of(key: &PublicKey) -> (peer_id: PeerId)
    ensures
        peer_id == public_key_peer_id(*key),
{
    key.to_peer_id()
}

/// The peer id of the node that holds `keypair`: that of its public key.
pub fn derive_peer_id(keypair: &Keypair) -> (peer_id: PeerId)
    ensures
        peer_id == public_key_peer_id(keypair_public_key(*keypair)),
{
    let key = public_key_of(keypair);
    peer_id_of(&key)
}

} // verus!
