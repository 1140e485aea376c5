//! The typed failures that the library reports.

use vstd::prelude::*;

verus! {

/// A license key string that cannot be turned back into a signed license.
#[derive(Clone, Copy, Debug, PartialEq, Eq, Structural)]
pub enum DecodeError {
    /// The key is not base64.
    MalformedBase64,
    /// The decoded bytes are not the JSON of a signed license.
    MalformedJson,
}

/// A license that has no canonical JSON text.
#[derive(Clone, Copy, Debug, PartialEq, Eq, Structural)]
pub enum EncodeError {
    /// A field of the license cannot be written as JSON, or what was
    /// written does not read back as the license.
    Unrepresentable,
}

/// Key material that is not a PEM block of the expected kind.
#[derive(Clone, Copy, Debug, PartialEq, Eq, Structural)]
pub enum KeyFormatError {
    /// The text holds no PEM block.
    MalformedPem,
    /// The PEM block carries another tag than the one asked for.
    WrongTag,
    /// The content of the block is not a PKCS#1 RSA key.
    InvalidPkcs1,
}

/// A failure to produce a signature.
#[derive(Clone, Copy, Debug, PartialEq, Eq, Structural)]
pub enum SigningError {
    /// The license has no canonical JSON text to sign.
    UnrepresentableLicense,
    /// The RSA primitive refused the key or failed.
    PrimitiveFailure,
}

/// Why a license did not validate. The checks run in the order of the
/// variants, and the first failure is the one reported.
#[derive(Clone, Copy, Debug, PartialEq, Eq, Structural)]
pub enum VerificationError {
    /// No trusted key accepts the signature.
    SignatureMismatch,
    /// The license was issued for another domain.
    DomainMismatch,
    /// The license is past its `valid_until`.
    Expired,
}

/// A parameter that names no known value.
#[derive(Clone, Copy, Debug, PartialEq, Eq, Structural)]
pub enum ParameterError {
    /// The string is not the token of a license level.
    UnknownLicenseLevel,
    /// The string is not the identifier of a feature.
    UnknownFeature,
}

impl EncodeError {
    /// The description of this error.
    pub open spec fn text(self) -> Seq<char> {
        "cannot marshal key"@
    }

    /// A short description for display.
    pub fn message(&self) -> (r: &'static str)
        ensures
            r@ == self.text(),
    {
        "cannot marshal key"
    }
}

impl KeyFormatError {
    /// The description of this error.
    pub open spec fn text(self) -> Seq<char> {
        match self {
            KeyFormatError::MalformedPem => "cannot read PEM block"@,
            KeyFormatError::WrongTag => "unknown PEM block type"@,
            KeyFormatError::InvalidPkcs1 => "cannot read PKCS#1 key"@,
        }
    }

    /// A short description for display.
    pub fn message(&self) -> (r: &'static str)
        ensures
            r@ == self.text(),
    {
        match self {
            KeyFormatError::MalformedPem => "cannot read PEM block",
            KeyFormatError::WrongTag => "unknown PEM block type",
            KeyFormatError::InvalidPkcs1 => "cannot read PKCS#1 key",
        }
    }
}

impl SigningError {
    /// The description of this error.
    pub open spec fn text(self) -> Seq<char> {
        match self {
            SigningError::UnrepresentableLicense => "cannot marshal license"@,
            SigningError::PrimitiveFailure => "cannot sign license"@,
        }
    }

    /// A short description for display.
    pub fn message(&self) -> (r: &'static str)
        ensures
            r@ == self.text(),
    {
        match self {
            SigningError::UnrepresentableLicense => "cannot marshal license",
            SigningError::PrimitiveFailure => "cannot sign license",
        }
    }
}

impl ParameterError {
    /// The description of this error.
    pub open spec fn text(self) -> Seq<char> {
        match self {
            ParameterError::UnknownLicenseLevel => "unknown LicenseLevel type"@,
            ParameterError::UnknownFeature => "unknown Feature"@,
        }
    }

    /// A short description for display.
    pub fn message(&self) -> (r: &'static str)
        ensures
            r@ == self.text(),
    {
        match self {
            ParameterError::UnknownLicenseLevel => "unknown LicenseLevel type",
            ParameterError::UnknownFeature => "unknown Feature",
        }
    }
}

impl VerificationError {
    /// The description of this error.
    pub open spec fn text(self) -> Seq<char> {
        match self {
            VerificationError::SignatureMismatch => "cannot verify key"@,
            VerificationError::DomainMismatch => "wrong domain"@,
            VerificationError::Expired => "not valid anymore"@,
        }
    }

    /// A short description for display.
    pub fn message(&self) -> (r: &'static str)
        ensures
            r@ == self.text(),
    {
        match self {
            VerificationError::SignatureMismatch => "cannot verify key",
            VerificationError::DomainMismatch => "wrong domain",
            VerificationError::Expired => "not valid anymore",
        }
    }
}

impl DecodeError {
    /// The description of this error.
    pub open spec fn text(self) -> Seq<char> {
        match self {
            DecodeError::MalformedBase64 => "cannot decode key"@,
            DecodeError::MalformedJson => "cannot unmarshal key"@,
        }
    }

    /// A short description for display.
    pub fn message(&self) -> (r: &'static str)
        ensures
            r@ == self.text(),
    {
        match self {
            DecodeError::MalformedBase64 => "cannot decode key",
            DecodeError::MalformedJson => "cannot unmarshal key",
        }
    }
}

} // verus!
