//! Hashing and Schnorr signatures over secp256k1.
//!
//! Keys, digests and signatures travel as plain bytes: a secret key is 32
//! bytes, a public key the 32-byte x-only form, a signature 64 bytes.
//! BIP-340 verification takes the x-only key, so the 33- and 65-byte SEC
//! encodings of a public key are not accepted.
use secp256k1::schnorr::Signature;
use secp256k1::{Keypair, Message, Secp256k1, XOnlyPublicKey};
use sha2::{Digest, Sha256};
use crate::transactions::TxError;
use vstd::prelude::*;

verus! {

/// The SHA-256 digest of a byte sequence.
pub uninterp spec fn sha256_of(data: Seq<u8>) -> Seq<u8>;

/// Relies on sha2::Sha256::digest: a 32-byte digest that depends on the input alone.
#[verifier::external_body]
pub(crate) fn sha256(data: &[u8]) -> (r: Vec<u8>)
    ensures
        r@ == sha256_of(data@),
        r@.len() == 32,
{
    Sha256::digest(data).to_vec()
}

/// Whether `Keypair::from_seckey_slice` accepts these bytes as a secret key.
pub uninterp spec fn keypair_valid(secret_key: Seq<u8>) -> bool;

/// The serialized x-only public key of a secret key.
pub uninterp spec fn xonly_key_of(secret_key: Seq<u8>) -> Seq<u8>;

/// Whether `XOnlyPublicKey::from_slice` accepts these bytes.
pub uninterp spec fn xonly_valid(public_key: Seq<u8>) -> bool;

/// The BIP-340 signature without auxiliary randomness of a digest.
pub uninterp spec fn schnorr_sig_of(secret_key: Seq<u8>, digest: Seq<u8>) -> Seq<u8>;

/// Whether `verify_schnorr` accepts a signature of a digest under a public key.
pub uninterp spec fn schnorr_accepts(signature: Seq<u8>, digest: Seq<u8>, public_key: Seq<u8>) -> bool;

/// Relies on secp256k1's Keypair::from_seckey_slice and
/// Keypair::x_only_public_key: the x-only public key of a valid secret key,
/// whose serialization XOnlyPublicKey::from_slice accepts.
#[verifier::external_body]
pub(crate) fn xonly_public_key(secret_key: &[u8]) -> (r: Option<Vec<u8>>)
    ensures
        r is Some <==> keypair_valid(secret_key@),
        r matches Some(p) ==> p@ == xonly_key_of(secret_key@) && p@.len() == 32 && xonly_valid(
            p@,
        ),
{
    let secp = Secp256k1::signing_only();
    let kp = Keypair::from_seckey_slice(&secp, secret_key).ok()?;
    Some(kp.x_only_public_key().0.serialize().to_vec())
}

/// Relies on secp256k1's Secp256k1::sign_schnorr_no_aux_rand: a
/// deterministic 64-byte BIP-340 signature that verify_schnorr accepts under
/// the signer's x-only public key. Keypair::from_seckey_slice decides whether
/// the secret key is usable.
#[verifier::external_body]
pub(crate) fn schnorr_sign(digest: &[u8], secret_key: &[u8]) -> (r: Option<Vec<u8>>)
    requires
        digest@.len() == 32,
    ensures
        r is Some <==> keypair_valid(secret_key@),
        r matches Some(s) ==> s@ == schnorr_sig_of(secret_key@, digest@) && s@.len() == 64,
        r matches Some(s) ==> schnorr_accepts(s@, digest@, xonly_key_of(secret_key@)) && xonly_valid(
            xonly_key_of(secret_key@),
        ) && xonly_key_of(secret_key@).len() == 32,
{
    let secp = Secp256k1::signing_only();
    let kp = Keypair::from_seckey_slice(&secp, secret_key).ok()?;
    let mut d = [0u8; 32];
    d.copy_from_slice(digest);
    Some(secp.sign_schnorr_no_aux_rand(&Message::from_digest(d), &kp).serialize().to_vec())
}

/// Relies on secp256k1's Secp256k1::verify_schnorr. Signature::from_slice
/// takes exactly 64 bytes; XOnlyPublicKey::from_slice takes exactly 32 bytes
/// that are the x coordinate of a curve point. `None` where either does not.
#[verifier::external_body]
pub(crate) fn schnorr_verify(signature: &[u8], digest: &[u8], public_key: &[u8]) -> (r: Option<
    bool,
>)
    requires
        digest@.len() == 32,
    ensures
        r is None <==> signature@.len() != 64 || public_key@.len() != 32 || !xonly_valid(
            public_key@,
        ),
        r matches Some(b) ==> b == schnorr_accepts(signature@, digest@, public_key@),
{
    let sig = Signature::from_slice(signature).ok()?;
    let pk = XOnlyPublicKey::from_slice(public_key).ok()?;
    let mut d = [0u8; 32];
    d.copy_from_slice(digest);
    let secp = Secp256k1::verification_only();
    Some(secp.verify_schnorr(&sig, &Message::from_digest(d), &pk).is_ok())
}

/// The x-only public key that belongs to a secret key.
pub fn public_key_of(secret_key: &Vec<u8>) -> (r: Result<Vec<u8>, TxError>)
    ensures
        keypair_valid(secret_key@) ==> (r matches Ok(p) && p@ == xonly_key_of(secret_key@)
            && p@.len() == 32),
        !keypair_valid(secret_key@) ==> r == Err::<Vec<u8>, TxError>(TxError::SigningError),
{
    match xonly_public_key(secret_key.as_slice()) {
        Some(p) => Ok(p),
        None => Err(TxError::SigningError),
    }
}

/// Relies on std::time::SystemTime::now: seconds since the Unix epoch, or
/// zero for a clock set before it. Nothing is known of the value.
#[verifier::external_body]
pub(crate) fn current_timestamp() -> (r: i64) {
    match std::time::SystemTime::now().duration_since(std::time::UNIX_EPOCH) {
        Ok(d) => d.as_secs() as i64,
        Err(_) => 0,
    }
}

} // verus!
