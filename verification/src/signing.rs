//! The signing service: from a license and a private key to a signed
//! license.

use crate::crypto::{rsa_accepts, sha256, sha256_of};
use crate::error::SigningError;
use crate::keys::PrivateKey;
use crate::license::{canonical_bytes, License, SignedLicense, SignedLicenseView};
use vstd::prelude::*;

verus! {

/// Whether a key accepts the signature of a signed license for the SHA-256
/// digest of the canonical bytes of its license.
pub open spec fn signed_by(signed: SignedLicenseView, key: Seq<u8>) -> bool {
    match canonical_bytes(signed.license) {
        Some(bytes) => rsa_accepts(key, sha256_of(bytes), signed.signature),
        None => false,
    }
}

/// Pairs a license with what the RSA primitive returned for it: a signed
/// license where it returned a signature, a failure where it did not.
pub fn seal(license: &License, signature: Option<Vec<u8>>) -> (r: Result<
    SignedLicense,
    SigningError,
>)
    ensures
        match (signature, r) {
            (Some(s), Ok(signed)) => signed@ == (SignedLicenseView {
                license: license@,
                signature: s@,
            }),
            (None, Err(e)) => e == SigningError::PrimitiveFailure,
            _ => false,
        },
{
    match signature {
        Some(signature) => Ok(SignedLicense { license: license.clone(), signature }),
        None => Err(SigningError::PrimitiveFailure),
    }
}

/// Signs a license: the canonical bytes of the license are hashed with
/// SHA-256, and the digest is signed with RSA PKCS#1 v1.5.
///
/// A license without canonical bytes is turned away as unrepresentable.
/// For any other license the RSA primitive decides; where it returns a
/// signature, the signed license holds the license as it was given, and the
/// public half of the key accepts its signature.
pub fn sign(license: &License, private_key: &PrivateKey) -> (r: Result<SignedLicense, SigningError>)
    ensures
        match r {
            Ok(signed) => signed@.license == license@ && signed_by(
                signed@,
                private_key.public_der(),
            ),
            Err(e) => (e == SigningError::UnrepresentableLicense) <==> canonical_bytes(license@)
                is None,
        },
{
    let text = match license.to_json() {
        Some(text) => text,
        None => {
            return Err(SigningError::UnrepresentableLicense);
        },
    };
    let digest = sha256(text.as_str().as_bytes());
    seal(license, private_key.sign_digest(digest.as_slice()))
}

} // verus!
