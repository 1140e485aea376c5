//! Offline license signing and entitlement evaluation.
//!
//! An issuer signs a small license record with an RSA private key. A product
//! that embeds the matching public keys then answers entitlement questions
//! (features, seats, prebuild time) from the license key alone, without
//! asking a server.
//!
//! The way of a license: [`License`] to canonical JSON text, to its SHA-256
//! digest, to an RSA signature, to a [`SignedLicense`], to the base64 text
//! of its JSON, which is the license key. An [`Evaluator`] goes the way
//! back, checks the signature against a [`KeyStore`], and answers.
//!
//! JSON, base64, PEM, SHA-256 and RSA are the work of other crates. The
//! modules [`json`], [`armor`] and [`crypto`] call them and name what they
//! return; everything else is stated over these names and proved. The
//! modules [`der`] and [`scan`] look at bytes before those crates do, and
//! turn away what they would not handle as the library needs it.

pub mod armor;
pub mod cli;
pub mod crypto;
pub mod der;
pub mod error;
pub mod evaluator;
pub mod json;
pub mod keys;
pub mod laws;
pub mod level;
pub mod license;
pub mod scan;
pub mod signing;
pub mod text;
pub mod time;

pub use crate::error::{
    DecodeError, EncodeError, KeyFormatError, ParameterError, SigningError, VerificationError,
};
pub use crate::evaluator::{Evaluator, EvaluatorView};
pub use crate::keys::{KeyStore, PrivateKey, PublicKey};
pub use crate::level::{Allowance, Feature, LicenseLevel};
pub use crate::license::{License, LicenseView, SignedLicense, SignedLicenseView};
pub use crate::signing::sign;
pub use crate::time::{Duration, Timestamp};

use crate::evaluator::{evaluator_of_key, license_of, made_view};
use crate::license::license_json;
use vstd::prelude::*;
use vstd::utf8::encode_utf8;

verus! {

/// The evaluator for a license key as a caller hands it over: the default
/// license for an empty key, and the signed license that the key holds for
/// any other.
pub open spec fn evaluator_of_text(key: Seq<char>, domain: Seq<char>) -> Result<
    EvaluatorView,
    DecodeError,
> {
    if key.len() == 0 {
        Ok(EvaluatorView::DefaultLicense)
    } else {
        evaluator_of_key(encode_utf8(key), domain)
    }
}

/// Makes an evaluator from a license key and the domain to validate it
/// against. An empty key stands for no license: it gives the default
/// license.
pub fn from_license_key_bytes(key: String, domain: String) -> (r: Result<Evaluator, DecodeError>)
    ensures
        made_view(r) == evaluator_of_text(key@, domain@),
{
    if key.as_str().is_empty() {
        return Ok(Evaluator::with_default_license());
    }
    Evaluator::from_license_key_bytes(key.as_str().as_bytes(), domain.as_str())
}

/// Writes the license of an evaluator as JSON text, for display.
pub fn inspect_str(evaluator: &Evaluator) -> (r: Result<String, EncodeError>)
    ensures
        match r {
            Ok(text) => license_json(license_of(evaluator@)) == Some(text@),
            Err(e) => license_json(license_of(evaluator@)) is None && e
                == EncodeError::Unrepresentable,
        },
{
    match evaluator.inspect().to_json() {
        Some(text) => Ok(text),
        None => Err(EncodeError::Unrepresentable),
    }
}

} // verus!
