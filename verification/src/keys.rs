//! Public keys, signatures and digests.

use bitcoin::hashes::{sha256, Hash as _};
use vstd::prelude::*;

verus! {

/// Whether `bytes` is the compressed form of a point of the secp256k1 curve, as
/// `secp256k1::PublicKey::from_slice` judges it.
pub uninterp spec fn is_public_key(bytes: Seq<u8>) -> bool;

/// The SHA-256 digest of `data`.
pub uninterp spec fn sha256_digest(data: Seq<u8>) -> Seq<u8>;

/// The compressed form of the generator of the secp256k1 group: the tag of an even
/// ordinate, and the abscissa.
pub open spec fn generator() -> Seq<u8> {
    seq![
        0x02u8, 0x79, 0xbe, 0x66, 0x7e, 0xf9, 0xdc, 0xbb, 0xac, 0x55, 0xa0,
        0x62, 0x95, 0xce, 0x87, 0x0b, 0x07, 0x02, 0x9b, 0xfc, 0xdb, 0x2d,
        0xce, 0x28, 0xd9, 0x59, 0xf2, 0x81, 0x5b, 0x16, 0xf8, 0x17, 0x98,
    ]
}

/// Calls `secp256k1::PublicKey::from_slice`. The contract claims only that the
/// answer, whether the call succeeds, is a function of the bytes, which it names
/// `is_public_key`.
#[verifier::external_body]
fn parses_as_public_key(bytes: &[u8; 33]) -> (r: bool)
    ensures
        r == is_public_key(bytes@),
{
    bitcoin::secp256k1::PublicKey::from_slice(bytes).is_ok()
}

/// Calls `secp256k1::PublicKey::from_secret_key` on the secret key one. The contract
/// claims that the result, in compressed form, is the generator of the group, and that
/// `secp256k1::PublicKey::from_slice` accepts that form.
#[verifier::external_body]
fn point_of_one() -> (r: [u8; 33])
    ensures
        r@ == generator(),
        is_public_key(r@),
{
    let secp = bitcoin::secp256k1::Secp256k1::new();
    bitcoin::secp256k1::PublicKey::from_secret_key(&secp, &bitcoin::secp256k1::ONE_KEY).serialize()
}

/// Calls `sha256::Hash::hash` of `bitcoin_hashes`. The contract claims only that the
/// digest is a function of the data, which it names `sha256_digest`.
#[verifier::external_body]
pub(crate) fn sha256_hash(data: &[u8]) -> (r: [u8; 32])
    ensures
        r@ == sha256_digest(data@),
{
    sha256::Hash::hash(data).into_inner()
}

/// A point of the secp256k1 curve, held in compressed form.
#[derive(Clone, Copy, Debug, PartialEq, Eq, Hash)]
pub struct PublicKey {
    bytes: [u8; 33],
}

impl View for PublicKey {
    type V = Seq<u8>;

    closed spec fn view(&self) -> Seq<u8> {
        self.bytes@
    }
}

impl PublicKey {
    #[verifier::type_invariant]
    spec fn well_formed(self) -> bool {
        is_public_key(self.bytes@)
    }

    /// The key whose compressed form is `bytes`, where there is one.
    pub fn from_compressed(bytes: [u8; 33]) -> (r: Option<PublicKey>)
        ensures
            r is Some <==> is_public_key(bytes@),
            r matches Some(key) ==> key@ == bytes@,
    {
        if parses_as_public_key(&bytes) {
            Some(PublicKey { bytes })
        } else {
            None
        }
    }

    /// The public key of the secret key one: a stand-in for keys that are not known.
    pub fn dumb() -> (r: PublicKey)
        ensures
            r@ == generator(),
    {
        let bytes: [u8; 33] = point_of_one();
        PublicKey { bytes }
    }

    /// The compressed form of the key.
    pub fn serialize(&self) -> (r: [u8; 33])
        ensures
            r@ == self@,
            is_public_key(r@),
    {
        proof {
            use_type_invariant(self);
        }
        self.bytes
    }
}

/// An ECDSA signature in compact form.
#[derive(Clone, Copy, Debug, PartialEq, Eq, Hash)]
pub struct Signature {
    pub bytes: [u8; 64],
}

} // verus!
