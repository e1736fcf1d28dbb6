//! The node's keypair as it is kept between runs: protobuf bytes.
use vstd::prelude::*;
use libp2p::identity::{DecodingError, Keypair};
use libp2p::PeerId;
use crate::identity::peer_id::{keypair_public_key, public_key_peer_id};
use crate::types::peer_id_eq;

verus! {

/// The error libp2p gives when key bytes cannot be read or written.
#[verifier::external_type_specification]
#[verifier::external_body]
pub struct ExDecodingError(DecodingError);

/// What `Keypair::from_protobuf_encoding` makes of a byte string: the keypair, or the
/// reason the bytes are no keypair.
pub uninterp spec fn keypair_from_protobuf(bytes: Seq<u8>) -> Result<Keypair, DecodingError>;

/// What `Keypair::to_protobuf_encoding` makes of a keypair: its bytes, or the reason the
/// kind of key cannot be written.
pub uninterp spec fn keypair_protobuf(keypair: Keypair) -> Result<Seq<u8>, DecodingError>;

/// `Keypair::from_protobuf_encoding`: reads a keypair from protobuf bytes.
#[verifier::external_body]
fn decode_keypair(bytes: &[u8]) -> (decoded: Result<Keypair, DecodingError>)
    ensures
        decoded == keypair_from_protobuf(bytes@),
{
    Keypair::from_protobuf_encoding(bytes)
}

/// The peer id of the node that holds `keypair`.
pub open spec fn keypair_peer_id(keypair: Keypair) -> PeerId {
    public_key_peer_id(keypair_public_key(keypair))
}

/// `Keypair::to_protobuf_encoding`: writes a keypair as protobuf bytes. Bytes it
/// writes are read back by `Keypair::from_protobuf_encoding` as a keypair whose
/// peer id is `==` to that of the keypair written (every kind of key that it
/// writes is written whole; RSA keys it refuses).
#[verifier::external_body]
fn encode_keypair(keypair: &Keypair) -> (encoded: Result<Vec<u8>, DecodingError>)
    ensures
        match encoded {
            Ok(bytes) => keypair_protobuf(*keypair) == Ok::<Seq<u8>, DecodingError>(bytes@),
            Err(e) => keypair_protobuf(*keypair) == Err::<Seq<u8>, DecodingError>(e),
        },
        encoded matches Ok(bytes) ==> (keypair_from_protobuf(bytes@) matches Ok(back)
            && peer_id_eq(keypair_peer_id(back), keypair_peer_id(*keypair))),
{
    keypair.to_protobuf_encoding()
}

/// The node's identity, given the bytes kept from an earlier run (if any) and a freshly
/// generated keypair.
///
/// Kept bytes are read back as the keypair, and nothing new is to be kept. Without kept
/// bytes, the fresh keypair is the identity and its encoding is what is to be kept;
/// those bytes read back as a keypair with the same peer id, so that the next run,
/// given them, has the identity of this one.
/// The pair returned is the identity and the bytes to keep, if any.
pub fn identity_from_store(stored: Option<Vec<u8>>, fresh: Keypair) -> (identity: Result<
    (Keypair, Option<Vec<u8>>),
    DecodingError,
>)
    ensures
        stored matches Some(bytes) ==> match identity {
            Ok((keypair, keep)) => keypair_from_protobuf(bytes@) == Ok::<Keypair, DecodingError>(
                keypair,
            ) && keep is None,
            Err(e) => keypair_from_protobuf(bytes@) == Err::<Keypair, DecodingError>(e),
        },
        stored is None ==> match identity {
            Ok((keypair, keep)) => keypair == fresh && (keep matches Some(kept)
                && keypair_protobuf(fresh) == Ok::<Seq<u8>, DecodingError>(kept@)
                && (keypair_from_protobuf(kept@) matches Ok(back)
                && peer_id_eq(keypair_peer_id(back), keypair_peer_id(fresh)))),
            Err(e) => keypair_protobuf(fresh) == Err::<Seq<u8>, DecodingError>(e),
        },
{
    match stored {
        Some(bytes) => match decode_keypair(bytes.as_slice()) {
            Ok(keypair) => Ok((keypair, None)),
            Err(e) => Err(e),
        },
        None => match encode_keypair(&fresh) {
            Ok(kept) => Ok((fresh, Some(kept))),
            Err(e) => Err(e),
        },
    }
}

} // verus!
