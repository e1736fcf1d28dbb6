//! The libp2p identifiers that flow through the node, and the few libp2p
//! functions that the node's logic calls on them.
use vstd::prelude::*;
use libp2p::multiaddr::Protocol;
use libp2p::{Multiaddr, PeerId};
use std::path::PathBuf;
use std::time::Instant;

verus! {

/// A peer identifier of libp2p; the library carries it without looking inside.
#[verifier::external_type_specification]
#[verifier::external_body]
pub struct ExPeerId(PeerId);

/// A libp2p multiaddress; the library carries it without looking inside.
#[verifier::external_type_specification]
#[verifier::external_body]
pub struct ExMultiaddr(Multiaddr);

/// The error of multiaddress parsing; the library carries it without looking inside.
#[verifier::external_type_specification]
#[verifier::external_body]
pub struct ExMultiaddrError(libp2p::multiaddr::Error);

/// A point in time of the monotonic clock, as std gives it.
#[verifier::external_type_specification]
#[verifier::external_body]
pub struct ExInstant(Instant);

/// A std path on the local file system.
#[verifier::external_type_specification]
#[verifier::external_body]
pub struct ExPathBuf(PathBuf);

/// The text that `Display` gives for a peer id (its base-58 form).
pub uninterp spec fn peer_id_text(peer_id: PeerId) -> Seq<char>;

/// The peer id that `PeerId`'s `FromStr` reads from a text, if it reads one.
pub uninterp spec fn peer_id_from_text(text: Seq<char>) -> Option<PeerId>;

/// What `PeerId`'s `==` says of two peer ids: equal multihash code and equal
/// digest bytes (the derived `==` of `PeerId` calls the hand-written `==` of
/// its multihash, which compares these and nothing else).
pub uninterp spec fn peer_id_eq(a: PeerId, b: PeerId) -> bool;

/// A character of the Bitcoin base-58 alphabet, in which peer ids are written.
pub open spec fn is_base58_char(c: char) -> bool {
    ('1' <= c <= '9') || ('A' <= c <= 'Z' && c != 'I' && c != 'O') || ('a' <= c <= 'z' && c != 'l')
}

/// `PeerId`'s `to_string`: the base-58 text (Bitcoin alphabet) of the peer
/// id's multihash bytes. `FromStr` reads that text back as a peer id that is
/// `==` to it: the same code and digest bytes (the unused part of its digest
/// buffer, which `==` does not look at, may differ).
#[verifier::external_body]
pub(crate) fn peer_id_to_string(peer_id: &PeerId) -> (text: String)
    ensures
        text@ == peer_id_text(*peer_id),
        forall|i: int| 0 <= i < text@.len() ==> is_base58_char(#[trigger] text@[i]),
        peer_id_from_text(text@) is Some,
        peer_id_eq(peer_id_from_text(text@)->0, *peer_id),
{
    peer_id.to_string()
}

/// `PeerId`'s `FromStr`: the peer id written in `text`, or `None` where the
/// text is not one (the parse error itself is dropped).
#[verifier::external_body]
pub(crate) fn parse_peer_id(text: &str) -> (peer_id: Option<PeerId>)
    ensures
        peer_id == peer_id_from_text(text@),
{
    text.parse::<PeerId>().ok()
}

/// `PeerId`'s derived `==`: equal multihash code and digest bytes. Identical
/// peer ids are always `==`.
#[verifier::external_body]
pub(crate) fn peer_ids_equal(a: &PeerId, b: &PeerId) -> (equal: bool)
    ensures
        equal == peer_id_eq(*a, *b),
        *a == *b ==> equal,
{
    a == b
}

/// The order of peer ids that `PeerId`'s derived `Ord` defines.
pub uninterp spec fn peer_id_precedes(a: PeerId, b: PeerId) -> bool;

/// `PeerId`'s derived `<`: whether `a` comes before `b`. The derived order
/// compares every field of the multihash (code, size, whole digest buffer), so
/// it is a strict total order on the values themselves: `a < b` excludes
/// `b < a` and `a` being the same value as `b`, and where neither `a < b` nor
/// `a` is the same value as `b`, then `b < a`.
#[verifier::external_body]
pub(crate) fn peer_id_less(a: &PeerId, b: &PeerId) -> (less: bool)
    ensures
        less == peer_id_precedes(*a, *b),
        less ==> *a != *b && !peer_id_precedes(*b, *a),
        !less && *a != *b ==> peer_id_precedes(*b, *a),
{
    a < b
}

/// `PeerId`'s derived `Clone` (it is `Copy`): the same value.
pub assume_specification[ <PeerId as Clone>::clone ](peer_id: &PeerId) -> (copy: PeerId)
    ensures
        copy == *peer_id,
;

/// The text that `Debug` gives for a list of strings, such as `["a", "b"]`.
pub uninterp spec fn debug_list_text(items: Seq<Seq<char>>) -> Seq<char>;

/// `Vec<String>`'s `Debug` formatting: the list in brackets, each string quoted
/// and escaped.
#[verifier::external_body]
pub(crate) fn debug_list(items: &Vec<String>) -> (text: String)
    ensures
        text@ == debug_list_text(items@.map_values(|s: String| s@)),
{
    format!("{items:?}")
}

/// The text that `String::from_utf8_lossy` reads from bytes: each valid
/// UTF-8 sequence decoded, each invalid one replaced by U+FFFD.
pub uninterp spec fn utf8_lossy_text(bytes: Seq<u8>) -> Seq<char>;

/// std's `String::from_utf8_lossy`, made an owned string.
#[verifier::external_body]
pub(crate) fn utf8_lossy(bytes: &[u8]) -> (text: String)
    ensures
        text@ == utf8_lossy_text(bytes@),
{
    String::from_utf8_lossy(bytes).into_owned()
}

/// One protocol component of a multiaddress, as far as the node reads it:
/// a `/p2p/<peer id>` component, or any other protocol.
#[derive(Debug, Clone, Copy)]
pub enum AddrComponent {
    P2p(PeerId),
    Other,
}

/// The text that `Display` gives for a multiaddress.
pub uninterp spec fn multiaddr_text(addr: Multiaddr) -> Seq<char>;

/// The protocol components of a multiaddress, in order.
pub uninterp spec fn multiaddr_parts(addr: Multiaddr) -> Seq<AddrComponent>;

/// What `Multiaddr`'s `FromStr` makes of a text: the address written in it, or
/// the error it reports where there is none.
pub uninterp spec fn multiaddr_from_text(text: Seq<char>) -> Result<Multiaddr, libp2p::multiaddr::Error>;

/// `Multiaddr`'s `to_string`: each component written `/<protocol>/<value>`.
#[verifier::external_body]
pub(crate) fn multiaddr_to_string(addr: &Multiaddr) -> (text: String)
    ensures
        text@ == multiaddr_text(*addr),
{
    addr.to_string()
}

/// `Multiaddr::iter`, each protocol told apart only as `/p2p/<peer id>` or not.
#[verifier::external_body]
pub(crate) fn multiaddr_components(addr: &Multiaddr) -> (parts: Vec<AddrComponent>)
    ensures
        parts@ == multiaddr_parts(*addr),
{
    addr.iter().map(|p| match p {
        Protocol::P2p(peer_id) => AddrComponent::P2p(peer_id),
        _ => AddrComponent::Other,
    }).collect()
}

/// `Multiaddr`'s `FromStr`: the address written in `text`, or the error it
/// reports where there is none.
#[verifier::external_body]
pub(crate) fn parse_multiaddr(text: &str) -> (addr: Result<Multiaddr, libp2p::multiaddr::Error>)
    ensures
        addr == multiaddr_from_text(text@),
{
    text.parse::<Multiaddr>()
}

/// `Multiaddr`'s derived `Clone`: an equal address.
#[verifier::external_body]
pub(crate) fn clone_multiaddr(addr: &Multiaddr) -> (copy: Multiaddr)
    ensures
        copy == *addr,
{
    addr.clone()
}

} // verus!
