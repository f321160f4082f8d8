//! Randomness, key derivation, hashing and Schnorr signing.
//!
//! Every item here draws on the secp256k1, rand and bitcoin libraries.
//! Nothing is promised of a random value; keys and signatures are opaque,
//! and what each deterministic call returns is named.

use vstd::prelude::*;
use bitcoin::bip32::{ChildNumber, Xpriv};
use bitcoin::Network;
use secp256k1_zkp::rand::rngs::OsRng;
use secp256k1_zkp::rand::RngCore;
use secp256k1_zkp::schnorr::Signature;
use secp256k1_zkp::{Keypair, Message, SecretKey, XOnlyPublicKey, SECP256K1};

verus! {

/// `XOnlyPublicKey`, declared opaque: values of it are only carried through.
#[verifier::external_type_specification]
#[verifier::external_body]
pub struct ExXOnlyPublicKey(XOnlyPublicKey);

/// `Signature`, declared opaque: values of it are only carried through.
#[verifier::external_type_specification]
#[verifier::external_body]
pub struct ExSignature(Signature);

/// `SecretKey`, declared opaque: values of it are only carried through.
#[verifier::external_type_specification]
#[verifier::external_body]
pub struct ExSecretKey(SecretKey);

/// `Keypair`, declared opaque: values of it are only carried through.
#[verifier::external_type_specification]
#[verifier::external_body]
pub struct ExKeypair(Keypair);

/// `Xpriv`, declared opaque: values of it are only carried through.
#[verifier::external_type_specification]
#[verifier::external_body]
pub struct ExXpriv(Xpriv);

/// `bitcoin::bip32::Error`, declared opaque: values of it are only carried through.
#[verifier::external_type_specification]
#[verifier::external_body]
pub struct ExBip32Error(bitcoin::bip32::Error);

/// `secp256k1_zkp::UpstreamError`, declared opaque: values of it are only carried through.
#[verifier::external_type_specification]
#[verifier::external_body]
pub struct ExSecpError(secp256k1_zkp::UpstreamError);

/// `secp256k1_zkp::rand::Error`, declared opaque: values of it are only carried through.
#[verifier::external_type_specification]
#[verifier::external_body]
pub struct ExRandError(secp256k1_zkp::rand::Error);

/// Relies on the `Clone` of secp256k1's `XOnlyPublicKey`, a `Copy` type:
/// the copy equals the value copied.
pub assume_specification[ <XOnlyPublicKey as Clone>::clone ](k: &XOnlyPublicKey) -> (r: XOnlyPublicKey)
    ensures
        r == *k,
;

/// Relies on the `Clone` of secp256k1's `schnorr::Signature`, a `Copy` type:
/// the copy equals the value copied.
pub assume_specification[ <Signature as Clone>::clone ](s: &Signature) -> (r: Signature)
    ensures
        r == *s,
;

/// The SHA-256 digest of some bytes.
pub uninterp spec fn sha256_of(b: Seq<u8>) -> Seq<u8>;

/// The BIP-32 main-network master key of a seed, if it makes one.
pub uninterp spec fn master_key_of(seed: Seq<u8>) -> Option<Xpriv>;

/// The normal child of an extended key at an index, if it can be derived.
pub uninterp spec fn normal_child_of(key: Xpriv, index: u32) -> Option<Xpriv>;

/// The secret key that an extended private key holds.
pub uninterp spec fn xpriv_secret_of(key: Xpriv) -> SecretKey;

/// The x-only public half of a secret key.
pub uninterp spec fn x_only_of(key: SecretKey) -> XOnlyPublicKey;

/// The secret key that 32 bytes denote, if they are a valid scalar.
pub uninterp spec fn secret_key_of(b: Seq<u8>) -> Option<SecretKey>;

/// The keypair of a secret key.
pub uninterp spec fn keypair_of(key: SecretKey) -> Keypair;

/// The x-only public half of a keypair.
pub uninterp spec fn keypair_x_only_of(key: Keypair) -> XOnlyPublicKey;

/// The BIP-340 signature of a 32-byte digest by a keypair, with given
/// auxiliary bytes.
pub uninterp spec fn schnorr_signature_of(digest: Seq<u8>, key: Keypair, aux: Seq<u8>) -> Signature;

/// Relies on rand's `OsRng` through `RngCore::try_fill_bytes`: 32 bytes from
/// the operating system's source, or its error.
#[verifier::external_body]
pub(crate) fn random_seed() -> (r: Result<[u8; 32], secp256k1_zkp::rand::Error>) {
    let mut seed = [0u8; 32];
    OsRng.try_fill_bytes(&mut seed).map(|_| seed)
}

/// Relies on bitcoin's `Xpriv::new_master`: the BIP-32 master key of a seed
/// on the main network, or its error.
#[verifier::external_body]
pub(crate) fn master_key(seed: &[u8; 32]) -> (r: Result<Xpriv, bitcoin::bip32::Error>)
    ensures
        match master_key_of(seed@) {
            Some(k) => r == Ok::<Xpriv, bitcoin::bip32::Error>(k),
            None => r is Err,
        },
{
    Xpriv::new_master(Network::Bitcoin, seed)
}

/// Relies on bitcoin's `Xpriv::derive_priv`: the normal child at `index`,
/// or the error of `ChildNumber::from_normal_idx` or of the derivation.
#[verifier::external_body]
pub(crate) fn derive_normal_child(key: &Xpriv, index: u32) -> (r: Result<Xpriv, bitcoin::bip32::Error>)
    ensures
        match normal_child_of(*key, index) {
            Some(k) => r == Ok::<Xpriv, bitcoin::bip32::Error>(k),
            None => r is Err,
        },
{
    ChildNumber::from_normal_idx(index).and_then(|c| key.derive_priv(SECP256K1, &[c]))
}

/// Relies on bitcoin's `Xpriv`: its `private_key` field.
#[verifier::external_body]
pub(crate) fn xpriv_secret(key: &Xpriv) -> (r: SecretKey)
    ensures
        r == xpriv_secret_of(*key),
{
    key.private_key
}

/// Relies on `SecretKey::x_only_public_key`: the x-only public half.
#[verifier::external_body]
pub(crate) fn secret_x_only(key: &SecretKey) -> (r: XOnlyPublicKey)
    ensures
        r == x_only_of(*key),
{
    key.x_only_public_key(SECP256K1).0
}

/// Relies on `SecretKey::from_slice`: the secret key of 32 bytes, or an
/// error when they are zero or not below the curve order.
#[verifier::external_body]
pub(crate) fn secret_from_bytes(b: &[u8; 32]) -> (r: Result<SecretKey, secp256k1_zkp::UpstreamError>)
    ensures
        match secret_key_of(b@) {
            Some(k) => r == Ok::<SecretKey, secp256k1_zkp::UpstreamError>(k),
            None => r is Err,
        },
{
    SecretKey::from_slice(b)
}

/// Relies on `Keypair::from_secret_key`: the keypair of a secret key, whose
/// x-only public half is the secret key's own.
#[verifier::external_body]
pub(crate) fn keypair_of_secret(key: &SecretKey) -> (r: Keypair)
    ensures
        r == keypair_of(*key),
        keypair_x_only_of(r) == x_only_of(*key),
{
    Keypair::from_secret_key(SECP256K1, key)
}

/// Relies on `XOnlyPublicKey::from_keypair`: the x-only public half.
#[verifier::external_body]
pub(crate) fn keypair_x_only(key: &Keypair) -> (r: XOnlyPublicKey)
    ensures
        r == keypair_x_only_of(*key),
{
    XOnlyPublicKey::from_keypair(key).0
}

/// Relies on bitcoin's `sha256::Hash::hash`: the SHA-256 digest of the bytes.
#[verifier::external_body]
pub(crate) fn sha256_digest(b: &[u8]) -> (r: [u8; 32])
    ensures
        r@ == sha256_of(b@),
{
    bitcoin::hashes::Hash::to_byte_array(<bitcoin::hashes::sha256::Hash as bitcoin::hashes::Hash>::hash(b))
}

/// Relies on `Secp256k1::sign_schnorr_with_aux_rand` (with
/// `Message::from_digest`): a BIP-340 signature of a 32-byte digest.
#[verifier::external_body]
pub(crate) fn sign_digest(digest: &[u8; 32], key: &Keypair, aux: &[u8; 32]) -> (r: Signature)
    ensures
        r == schnorr_signature_of(digest@, *key, aux@),
{
    SECP256K1.sign_schnorr_with_aux_rand(&Message::from_digest(*digest), key, aux)
}

} // verus!
