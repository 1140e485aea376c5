//! What the command-line tool computes: a new key pair as PEM text, a
//! license key for the parameters of a license, and the license that a
//! license key holds. Reading files and printing is left to the caller.

use crate::armor::pem_text_of;
use crate::der::private_key_bits;
use crate::error::{
    DecodeError, EncodeError, KeyFormatError, ParameterError, SigningError, VerificationError,
};
use crate::evaluator::{evaluator_of_key, license_of, validation, Evaluator};
use crate::keys::{private_key_of_pem, private_key_of_pkcs1, KeyStore, PrivateKey, KEY_BITS};
use crate::level::{level_of_token, LicenseLevel};
use crate::license::{canonical_bytes, license_key, License, LicenseView, SignedLicenseView};
use crate::signing::{sign as sign_license, signed_by};
use crate::time::{Duration, Timestamp};
use vstd::prelude::*;
use vstd::utf8::encode_utf8;

verus! {

/// Why a command failed.
#[derive(Clone, Copy, Debug, PartialEq, Eq, Structural)]
pub enum CliError {
    /// No key pair could be made.
    KeyGeneration,
    Key(KeyFormatError),
    Parameter(ParameterError),
    /// The end of validity lies beyond the instants that can be written.
    ValidUntilOutOfRange,
    Signing(SigningError),
    Encode(EncodeError),
    Decode(DecodeError),
    Verification(VerificationError),
}

impl CliError {
    /// The description of this error.
    pub open spec fn text(self) -> Seq<char> {
        match self {
            CliError::KeyGeneration => "cannot generate key"@,
            CliError::Key(e) => e.text(),
            CliError::Parameter(e) => e.text(),
            CliError::ValidUntilOutOfRange => "error calculating valid_until"@,
            CliError::Signing(e) => e.text(),
            CliError::Encode(e) => e.text(),
            CliError::Decode(e) => e.text(),
            CliError::Verification(e) => e.text(),
        }
    }

    /// A short description for display.
    pub fn message(&self) -> (r: &'static str)
        ensures
            r@ == self.text(),
    {
        match self {
            CliError::KeyGeneration => "cannot generate key",
            CliError::Key(e) => e.message(),
            CliError::Parameter(e) => e.message(),
            CliError::ValidUntilOutOfRange => "error calculating valid_until",
            CliError::Signing(e) => e.message(),
            CliError::Encode(e) => e.message(),
            CliError::Decode(e) => e.message(),
            CliError::Verification(e) => e.message(),
        }
    }
}

/// A key pair as two PEM texts.
#[derive(Debug, PartialEq, Eq)]
pub struct KeyPairPem {
    pub private_key: String,
    pub public_key: String,
}

/// The parameters of a license to sign.
#[derive(Debug)]
pub struct SignParams {
    /// The domain that the license is valid for.
    pub domain: String,
    /// The id of the license.
    pub id: String,
    /// The level of the license, `team` or `enterprise`.
    pub level: String,
    /// The number of seats that the license is valid for.
    pub seats: i32,
    /// The private key to sign the license with, as PEM text.
    pub key: String,
    /// How long the license is valid, counted from the time of signing.
    pub valid_for: Duration,
}

/// The parameters of a license key to validate.
#[derive(Debug)]
pub struct ValidateParams {
    /// The license key; where it is missing, the key is read from the
    /// input.
    pub license: Option<String>,
    /// The domain to validate the license against.
    pub domain: String,
}

/// Whether `pair` holds the PEM texts of a private key with the encoding
/// `der` and of its public half `public`. The private key is tagged
/// `PRIVATE KEY` and the public key `PUBLIC KEY`; both hold PKCS#1.
pub open spec fn is_key_pair(pair: KeyPairPem, der: Seq<u8>, public: Seq<u8>) -> bool {
    &&& private_key_of_pkcs1(der) == Some(public)
    &&& pair.private_key@ == pem_text_of("PRIVATE KEY"@, der)
    &&& pair.public_key@ == pem_text_of("PUBLIC KEY"@, public)
}

/// The license that `params` describes when signed at the instant `now`.
pub open spec fn license_to_sign(params: SignParams, now: Timestamp) -> Result<
    LicenseView,
    CliError,
> {
    match level_of_token(params.level@) {
        Err(e) => Err(CliError::Parameter(e)),
        Ok(level) => match Timestamp::from_parts(now.plus(params.valid_for)) {
            None => Err(CliError::ValidUntilOutOfRange),
            Some(valid_until) => Ok(
                LicenseView {
                    id: params.id@,
                    level,
                    domain: params.domain@,
                    valid_until,
                    seats: Some(params.seats),
                },
            ),
        },
    }
}

/// The license key that the `validate` command looks at.
pub open spec fn key_to_validate(params: ValidateParams, input: Seq<char>) -> Seq<char> {
    match params.license {
        Some(license) => license@,
        None => input,
    }
}

/// The outcome of the `validate` command at the instant `now`: the license
/// that the key holds, where the key decodes and the license is valid.
pub open spec fn validated_license(
    params: ValidateParams,
    input: Seq<char>,
    keys: Seq<Seq<u8>>,
    now: Timestamp,
) -> Result<LicenseView, CliError> {
    match evaluator_of_key(encode_utf8(key_to_validate(params, input)), params.domain@) {
        Err(e) => Err(CliError::Decode(e)),
        Ok(evaluator) => match validation(evaluator, keys, now) {
            Err(e) => Err(CliError::Verification(e)),
            Ok(_) => Ok(license_of(evaluator)),
        },
    }
}

/// The view of the outcome of a command that gives a license.
pub open spec fn outcome_view(outcome: Result<License, CliError>) -> Result<LicenseView, CliError> {
    match outcome {
        Ok(license) => Ok(license@),
        Err(e) => Err(e),
    }
}

/// Writes a private key and its public half as PEM texts.
pub fn key_pair_pem(key: &PrivateKey) -> (r: KeyPairPem)
    ensures
        r.private_key@ == pem_text_of("PRIVATE KEY"@, key.der()),
        r.public_key@ == pem_text_of("PUBLIC KEY"@, key.public_der()),
{
    KeyPairPem { private_key: key.to_pem(), public_key: key.public_key().to_pem() }
}

/// Makes a new RSA key pair of `bits` bits and writes both keys as PEM
/// texts. The private key of a pair that comes back has a modulus of
/// exactly `bits` bits. No pair is made for a size that
/// `PrivateKey::generate` does not offer.
pub fn genkey_of_size(bits: usize) -> (r: Result<KeyPairPem, CliError>)
    ensures
        match r {
            Ok(pair) => 512 <= bits <= 16_384 && exists|der: Seq<u8>, public: Seq<u8>|
                #[trigger] is_key_pair(pair, der, public) && private_key_bits(der) == bits,
            Err(e) => e == CliError::KeyGeneration,
        },
{
    match PrivateKey::generate(bits) {
        None => Err(CliError::KeyGeneration),
        Some(key) => {
            let r = Ok(key_pair_pem(&key));
            assert(r matches Ok(pair) && is_key_pair(pair, key.der(), key.public_der())
                && private_key_bits(key.der()) == bits);
            r
        },
    }
}

/// Makes a new RSA key pair of 2048 bits and writes both keys as PEM texts.
pub fn genkey() -> (r: Result<KeyPairPem, CliError>)
    ensures
        match r {
            Ok(pair) => exists|der: Seq<u8>, public: Seq<u8>|
                #[trigger] is_key_pair(pair, der, public) && private_key_bits(der) == 2048,
            Err(e) => e == CliError::KeyGeneration,
        },
{
    genkey_of_size(KEY_BITS)
}

/// Builds the license that `params` describes, valid from `now` on.
pub fn build_license(params: &SignParams, now: Timestamp) -> (r: Result<License, CliError>)
    ensures
        outcome_view(r) == license_to_sign(*params, now),
{
    let level = match LicenseLevel::try_from(params.level.as_str()) {
        Ok(level) => level,
        Err(e) => {
            return Err(CliError::Parameter(e));
        },
    };
    let valid_until = match now.checked_add_signed(&params.valid_for) {
        Some(valid_until) => valid_until,
        None => {
            return Err(CliError::ValidUntilOutOfRange);
        },
    };
    Ok(
        License {
            id: params.id.clone(),
            level,
            domain: params.domain.clone(),
            valid_until,
            seats: Some(params.seats),
        },
    )
}

/// Signs the license that `params` describes and writes its license key.
///
/// The private key is read first, then the license is built; each failure
/// is reported as it comes. A license without canonical bytes is not
/// signed. For any other license the RSA primitive decides; where a license
/// key comes back, it is the key of a signed license that holds the license
/// built and that the public half of the private key accepts.
pub fn sign(params: &SignParams, now: Timestamp) -> (r: Result<String, CliError>)
    ensures
        match (private_key_of_pem(params.key@), license_to_sign(*params, now)) {
            (Err(e), _) => r == Err::<String, CliError>(CliError::Key(e)),
            (Ok(_), Err(e)) => r == Err::<String, CliError>(e),
            (Ok(der), Ok(license)) => match r {
                Ok(key) => exists|signed: SignedLicenseView|
                    {
                        &&& signed.license == license
                        &&& private_key_of_pkcs1(der) matches Some(public)
                        &&& signed_by(signed, public)
                        &&& license_key(signed) == Some(key@)
                    },
                Err(e) => if canonical_bytes(license) is None {
                    e == CliError::Signing(SigningError::UnrepresentableLicense)
                } else {
                    e == CliError::Signing(SigningError::PrimitiveFailure) || e == CliError::Encode(
                        EncodeError::Unrepresentable,
                    )
                },
            },
        },
{
    let private_key = match PrivateKey::from_pem(params.key.as_str()) {
        Ok(key) => key,
        Err(e) => {
            return Err(CliError::Key(e));
        },
    };
    let license = build_license(params, now)?;
    let public = private_key.public_key();
    let signed = match sign_license(&license, &private_key) {
        Ok(signed) => signed,
        Err(e) => {
            return Err(CliError::Signing(e));
        },
    };
    match signed.serialize() {
        Ok(key) => {
            assert(signed@.license == license@ && signed_by(signed@, public@) && license_key(
                signed@,
            ) == Some(key@));
            Ok(key)
        },
        Err(e) => Err(CliError::Encode(e)),
    }
}

/// Decodes a license key and validates its license at the instant `now`.
pub fn validate_at(params: &ValidateParams, input: &str, keys: &KeyStore, now: Timestamp) -> (r:
    Result<License, CliError>)
    ensures
        outcome_view(r) == validated_license(*params, input@, keys@, now),
{
    let key: &str = match &params.license {
        Some(license) => license.as_str(),
        None => input,
    };
    let evaluator = match Evaluator::from_license_key_bytes(key.as_bytes(), params.domain.as_str()) {
        Ok(evaluator) => evaluator,
        Err(e) => {
            return Err(CliError::Decode(e));
        },
    };
    match evaluator.validate_at(keys, now) {
        Ok(_) => Ok(evaluator.inspect()),
        Err(e) => Err(CliError::Verification(e)),
    }
}

/// Decodes a license key and validates its license at the time of the
/// system clock.
pub fn validate(params: &ValidateParams, input: &str, keys: &KeyStore) -> (r: Result<
    License,
    CliError,
>)
    ensures
        exists|now: Timestamp| outcome_view(r) == validated_license(*params, input@, keys@, now),
{
    let now = Timestamp::now();
    let r = validate_at(params, input, keys, now);
    assert(outcome_view(r) == validated_license(*params, input@, keys@, now));
    r
}

} // verus!
