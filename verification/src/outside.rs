use vstd::prelude::*;
use fuels::crypto::Hasher;
use fuels::crypto::PublicKey;
use fuels::crypto::SecretKey;

verus! {

#[verifier::external_type_specification]
#[verifier::external_body]
pub struct ExSecretKey(SecretKey);

#[verifier::external_type_specification]
#[verifier::external_body]
pub struct ExPublicKey(PublicKey);

/// Whether 32 bytes encode a valid secp256k1 secret key; decided by the
/// curve alone, so a function of the bytes.
pub uninterp spec fn is_valid_secret_key(b: Seq<u8>) -> bool;

/// The sha256 digest of a byte string.
pub uninterp spec fn sha256_of(b: Seq<u8>) -> Seq<u8>;

/// Relies on fuel-crypto's `SecretKey::try_from(&[u8])`: it accepts exactly
/// the 32-byte encodings of valid secp256k1 scalars and rejects every other
/// slice, deciding by the bytes alone.
#[verifier::external_body]
pub(crate) fn secret_key_from_bytes(b: &Vec<u8>) -> (r: Option<SecretKey>)
    ensures
        r.is_some() == is_valid_secret_key(b@),
        b@.len() != 32 ==> r.is_none(),
{
    SecretKey::try_from(b.as_slice()).ok()
}

/// Relies on fuel-crypto's `SecretKey::public_key`: the secp256k1 curve
/// point of the secret key.
#[verifier::external_body]
pub(crate) fn public_key_of(k: &SecretKey) -> PublicKey {
    k.public_key()
}

/// Relies on fuel-crypto's `PublicKey::hash`: the 32-byte cryptographic
/// hash of the public key, used as the key's account address.
#[verifier::external_body]
pub(crate) fn public_key_hash(k: &PublicKey) -> (r: Vec<u8>)
    ensures
        r@.len() == 32,
{
    (*k.hash()).to_vec()
}

/// Relies on fuel-crypto's `Hasher::hash`: the 32-byte sha256 digest of the
/// data, a function of the data alone.
#[verifier::external_body]
pub(crate) fn sha256(data: &Vec<u8>) -> (r: Vec<u8>)
    ensures
        r@ == sha256_of(data@),
        r@.len() == 32,
{
    (*Hasher::hash(data.as_slice())).to_vec()
}

} // verus!
