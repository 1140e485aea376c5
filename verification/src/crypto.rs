//! SHA-256 and RSA PKCS#1 v1.5, computed by the `sha2` and `rsa` crates.
//!
//! Nothing in this module is proved. Keys cross it as PKCS#1 DER bytes, so
//! that every result is a function of byte strings and can be named.
//!
//! The RSA library reads a key with an ASN.1 reader that follows nested
//! elements as deep as they go, it divides by each prime less one while it
//! reads a private key, and while it signs it adds the first prime, round
//! by round, to a number that may lie as far below zero as the second
//! prime is large. So every function here that reads a key asks for bytes
//! in the plain layout of a key, with primes of at least two that are of
//! about one size, which `crate::der` checks.
//!
//! Signing and making a key draw random numbers from the operating system.
//! On a machine whose random source fails, the draw stops the program.

use crate::der::{private_key_layout, public_key_layout};
use crate::text::bytes_view;
use rand::rngs::OsRng;
use rsa::{
    PaddingScheme, PrivateKeyEncoding, PublicKey, PublicKeyEncoding, RSAPrivateKey, RSAPublicKey,
};
use sha2::{Digest, Sha256};
use vstd::prelude::*;

verus! {

/// The SHA-256 digest of a byte string: what `Sha256::digest` returns.
pub uninterp spec fn sha256_of(data: Seq<u8>) -> Seq<u8>;

/// Whether `RSAPublicKey::from_pkcs1` reads a key from the bytes.
pub uninterp spec fn rsa_public_key_parses(key: Seq<u8>) -> bool;

/// Whether `key` is the PKCS#1 encoding of a public key whose `verify`
/// accepts `signature` for `digest`, under PKCS#1 v1.5 padding with SHA-256
/// as the digest identifier.
pub uninterp spec fn rsa_accepts(key: Seq<u8>, digest: Seq<u8>, signature: Seq<u8>) -> bool;

/// The PKCS#1 encoding of the public half of a private key: what `to_pkcs1`
/// returns for the `RSAPublicKey` made from what `RSAPrivateKey::from_pkcs1`
/// reads. `None` where the bytes are no private key.
pub uninterp spec fn rsa_public_of(private: Seq<u8>) -> Option<Seq<u8>>;

/// Calls `Sha256::digest` and copies the digest out. The digest of SHA-256
/// is 32 bytes long.
#[verifier::external_body]
pub(crate) fn sha256(data: &[u8]) -> (r: Vec<u8>)
    ensures
        r@ == sha256_of(data@),
        r@.len() == 32,
{
    Sha256::digest(data).to_vec()
}

/// Calls `RSAPublicKey::from_pkcs1` and says whether it returned a key.
#[verifier::external_body]
pub(crate) fn public_key_parses(key: &[u8]) -> (r: bool)
    requires
        public_key_layout(key@),
    ensures
        r == rsa_public_key_parses(key@),
{
    RSAPublicKey::from_pkcs1(key).is_ok()
}

/// Reads the key with `RSAPublicKey::from_pkcs1` and calls its `verify` with
/// `PaddingScheme::new_pkcs1v15_sign(Some(Hash::SHA2_256))`. The result is
/// `true` where `verify` returns `Ok`, and `false` where it returns an error
/// or the bytes are no key.
#[verifier::external_body]
pub(crate) fn verify_signature(key: &[u8], digest: &[u8], signature: &[u8]) -> (r: bool)
    requires
        public_key_layout(key@),
    ensures
        r == rsa_accepts(key@, digest@, signature@),
{
    match RSAPublicKey::from_pkcs1(key) {
        Ok(public_key) => {
            let padding = PaddingScheme::new_pkcs1v15_sign(Some(rsa::Hash::SHA2_256));
            public_key.verify(padding, digest, signature).is_ok()
        },
        Err(_) => false,
    }
}

/// Reads the key with `RSAPrivateKey::from_pkcs1`, takes its public half
/// with `RSAPublicKey::from` and encodes that with `to_pkcs1`. The result is
/// `None` where one of the calls fails.
#[verifier::external_body]
pub(crate) fn public_half(private: &[u8]) -> (r: Option<Vec<u8>>)
    requires
        private_key_layout(private@),
    ensures
        bytes_view(r) == rsa_public_of(private@),
{
    let key = RSAPrivateKey::from_pkcs1(private).ok()?;
    RSAPublicKey::from(&key).to_pkcs1().ok()
}

/// Reads the key with `RSAPrivateKey::from_pkcs1` and calls its
/// `sign_blinded` with the random numbers of the operating system and
/// `PaddingScheme::new_pkcs1v15_sign(Some(Hash::SHA2_256))`. The result is
/// `None` where a call fails. `sign_blinded` adds the first prime in
/// rounds; with the second prime at most eight bits longer than the first
/// there are a few hundred rounds at most. It returns a signature only
/// after it has raised it to the public exponent and found the padded
/// digest again, which is the test that `verify` makes; so the public half
/// of the key, where it encodes to bytes that read as a key, accepts the
/// signature.
#[verifier::external_body]
pub(crate) fn sign_digest(private: &[u8], digest: &[u8]) -> (r: Option<Vec<u8>>)
    requires
        private_key_layout(private@),
    ensures
        match (r, rsa_public_of(private@)) {
            (Some(signature), Some(public)) => rsa_public_key_parses(public) ==> rsa_accepts(
                public,
                digest@,
                signature@,
            ),
            _ => true,
        },
{
    let key = RSAPrivateKey::from_pkcs1(private).ok()?;
    let padding = PaddingScheme::new_pkcs1v15_sign(Some(rsa::Hash::SHA2_256));
    key.sign_blinded(&mut OsRng, padding, digest).ok()
}

/// Calls `RSAPrivateKey::new` with the random numbers of the operating
/// system and encodes the key with `to_pkcs1`. The result is `None` where a
/// call fails. Nothing is claimed of the key: it is random. Very small
/// sizes leave `new` without primes to choose from, and very large ones
/// keep it searching, so both are left out.
#[verifier::external_body]
pub(crate) fn generate_private_key(bits: usize) -> Option<Vec<u8>>
    requires
        64 <= bits <= 16_384,
{
    RSAPrivateKey::new(&mut OsRng, bits).ok()?.to_pkcs1().ok()
}

} // verus!
