//! The evaluator: validation of a license and the entitlement queries that
//! rest on it.
//!
//! An evaluator never changes after it was made. Every query validates the
//! license anew, against the key store and the time it is given, so a key
//! that left the store or a clock that moved on shows at the next call.

use crate::crypto::{sha256, sha256_of};
use crate::error::{DecodeError, VerificationError};
use crate::keys::{some_key_accepts, KeyStore};
use crate::level::{feature_of_token, level_allows, prebuild_limit, Feature, LicenseLevel};
use crate::license::{
    canonical_bytes, default_license, signed_license_of_key, License, LicenseView, SignedLicense,
    SignedLicenseView,
};
use crate::text::str_eq;
use crate::time::{Duration, Timestamp};
use vstd::prelude::*;

verus! {

/// A signed license that waits to be validated against a domain.
#[derive(Debug)]
struct Pending {
    signed_license: SignedLicense,
    domain: String,
}

/// Answers what a license allows. It holds either the built-in default
/// license or a signed license with the domain to validate it against.
#[derive(Debug)]
pub struct Evaluator {
    pending: Option<Pending>,
}

/// An evaluator as a mathematical value.
pub enum EvaluatorView {
    DefaultLicense,
    SignedLicensePending { signed_license: SignedLicenseView, domain: Seq<char> },
}

impl View for Evaluator {
    type V = EvaluatorView;

    closed spec fn view(&self) -> EvaluatorView {
        match self.pending {
            None => EvaluatorView::DefaultLicense,
            Some(p) => EvaluatorView::SignedLicensePending {
                signed_license: p.signed_license@,
                domain: p.domain@,
            },
        }
    }
}

/// The license that an evaluator answers for.
pub open spec fn license_of(evaluator: EvaluatorView) -> LicenseView {
    match evaluator {
        EvaluatorView::DefaultLicense => default_license(),
        EvaluatorView::SignedLicensePending { signed_license, .. } => signed_license.license,
    }
}

/// Whether some key of the store accepts the signature of a signed license.
pub open spec fn signature_trusted(signed: SignedLicenseView, keys: Seq<Seq<u8>>) -> bool {
    match canonical_bytes(signed.license) {
        Some(bytes) => some_key_accepts(keys, sha256_of(bytes), signed.signature),
        None => false,
    }
}

/// The verdict on a signed license, from the three checks made of it. The
/// signature is looked at first, then the domain, then the expiry, and the
/// first check that failed is the one reported.
pub open spec fn verdict_of(trusted: bool, domain_matches: bool, expired: bool) -> Result<
    (),
    VerificationError,
> {
    if !trusted {
        Err(VerificationError::SignatureMismatch)
    } else if !domain_matches {
        Err(VerificationError::DomainMismatch)
    } else if expired {
        Err(VerificationError::Expired)
    } else {
        Ok(())
    }
}

/// The outcome of validation at the instant `now`. The default license is
/// always valid. A signed license is valid where a trusted key accepts its
/// signature, its domain is letter for letter the domain asked for, and
/// `valid_until` does not lie before `now`.
pub open spec fn validation(evaluator: EvaluatorView, keys: Seq<Seq<u8>>, now: Timestamp) -> Result<
    (),
    VerificationError,
> {
    match evaluator {
        EvaluatorView::DefaultLicense => Ok(()),
        EvaluatorView::SignedLicensePending { signed_license, domain } => verdict_of(
            signature_trusted(signed_license, keys),
            signed_license.license.domain == domain,
            signed_license.license.valid_until.precedes(now),
        ),
    }
}

/// Whether a feature is enabled at the instant `now`: the license is valid
/// and the allowance of its level holds the feature.
pub open spec fn feature_enabled(
    evaluator: EvaluatorView,
    keys: Seq<Seq<u8>>,
    now: Timestamp,
    feature: Feature,
) -> bool {
    validation(evaluator, keys, now) is Ok && level_allows(license_of(evaluator).level, feature)
}

/// Whether the feature that an identifier names is enabled at the instant
/// `now`. An identifier that names no feature is not an error: it stands
/// for a feature that is not enabled.
pub open spec fn named_feature_enabled(
    evaluator: EvaluatorView,
    keys: Seq<Seq<u8>>,
    now: Timestamp,
    name: Seq<char>,
) -> bool {
    match feature_of_token(name) {
        Ok(feature) => feature_enabled(evaluator, keys, now, feature),
        Err(_) => false,
    }
}

/// The view of an evaluator that may have failed to be made.
pub open spec fn made_view(made: Result<Evaluator, DecodeError>) -> Result<
    EvaluatorView,
    DecodeError,
> {
    match made {
        Ok(evaluator) => Ok(evaluator@),
        Err(e) => Err(e),
    }
}

/// The evaluator for a license key and a domain.
pub open spec fn evaluator_of_key(key: Seq<u8>, domain: Seq<char>) -> Result<
    EvaluatorView,
    DecodeError,
> {
    match signed_license_of_key(key) {
        Ok(signed_license) => Ok(EvaluatorView::SignedLicensePending { signed_license, domain }),
        Err(e) => Err(e),
    }
}

/// Whether a license with `seats` covers `requested` seats. No number and
/// zero both stand for no limit.
pub open spec fn seats_cover(seats: Option<i32>, requested: i32) -> bool {
    match seats {
        None => true,
        Some(s) => s == 0 || requested <= s,
    }
}

/// Whether the license covers `requested` seats at the instant `now`.
pub open spec fn seats_suffice(
    evaluator: EvaluatorView,
    keys: Seq<Seq<u8>>,
    now: Timestamp,
    requested: i32,
) -> bool {
    validation(evaluator, keys, now) is Ok && seats_cover(license_of(evaluator).seats, requested)
}

/// Whether `spent` lies within the prebuild time of a level.
pub open spec fn within_prebuild_limit(level: LicenseLevel, spent: Duration) -> bool {
    match prebuild_limit(level) {
        None => true,
        Some(limit) => spent.total_nanos() <= limit.total_nanos(),
    }
}

/// Whether a prebuild may run at the instant `now`, after `spent` prebuild
/// time was used: prebuilds are enabled and `spent` is within the limit.
pub open spec fn prebuild_allowed(
    evaluator: EvaluatorView,
    keys: Seq<Seq<u8>>,
    now: Timestamp,
    spent: Duration,
) -> bool {
    feature_enabled(evaluator, keys, now, Feature::Prebuild) && within_prebuild_limit(
        license_of(evaluator).level,
        spent,
    )
}

/// Gives the verdict on a signed license from the three checks made of it.
pub fn verdict(trusted: bool, domain_matches: bool, expired: bool) -> (r: Result<
    (),
    VerificationError,
>)
    ensures
        r == verdict_of(trusted, domain_matches, expired),
{
    if !trusted {
        Err(VerificationError::SignatureMismatch)
    } else if !domain_matches {
        Err(VerificationError::DomainMismatch)
    } else if expired {
        Err(VerificationError::Expired)
    } else {
        Ok(())
    }
}

/// Whether a license with `seats` covers `requested` seats.
pub fn covers_seats(seats: Option<i32>, requested: i32) -> (r: bool)
    ensures
        r == seats_cover(seats, requested),
{
    match seats {
        None => true,
        Some(s) => s == 0 || requested <= s,
    }
}

/// Whether `spent` lies within the prebuild time of a level.
pub fn is_within_prebuild_limit(level: LicenseLevel, spent: &Duration) -> (r: bool)
    ensures
        r == within_prebuild_limit(level, *spent),
{
    match level.allowance().prebuild_time {
        None => true,
        Some(limit) => spent.le(&limit),
    }
}

impl Evaluator {
    /// An evaluator for the default license.
    pub fn with_default_license() -> (r: Evaluator)
        ensures
            r@ == EvaluatorView::DefaultLicense,
    {
        Evaluator { pending: None }
    }

    /// An evaluator for a signed license, to be validated against `domain`.
    pub fn from_signed_license(signed_license: SignedLicense, domain: &str) -> (r: Evaluator)
        ensures
            r@ == (EvaluatorView::SignedLicensePending {
                signed_license: signed_license@,
                domain: domain@,
            }),
    {
        Evaluator { pending: Some(Pending { signed_license, domain: domain.to_string() }) }
    }

    /// An evaluator for the signed license that a license key holds, to be
    /// validated against `domain`. Nothing is made where the key does not
    /// decode.
    pub fn from_license_key_bytes(key_bytes: &[u8], domain: &str) -> (r: Result<
        Evaluator,
        DecodeError,
    >)
        ensures
            made_view(r) == evaluator_of_key(key_bytes@, domain@),
    {
        match SignedLicense::deserialize(key_bytes) {
            Ok(signed_license) => Ok(Evaluator::from_signed_license(signed_license, domain)),
            Err(e) => Err(e),
        }
    }

    /// Whether this evaluator holds the default license.
    pub fn is_default_license(&self) -> (r: bool)
        ensures
            r == (self@ is DefaultLicense),
    {
        self.pending.is_none()
    }

    /// Validates the license at the instant `now`.
    pub fn validate_at(&self, keys: &KeyStore, now: Timestamp) -> (r: Result<(), VerificationError>)
        ensures
            r == validation(self@, keys@, now),
    {
        match &self.pending {
            None => Ok(()),
            Some(p) => {
                let license = &p.signed_license.license;
                let trusted = match license.to_json() {
                    None => false,
                    Some(text) => {
                        let digest = sha256(text.as_str().as_bytes());
                        keys.accepts(digest.as_slice(), p.signed_license.signature.as_slice())
                    },
                };
                let domain_matches = str_eq(license.domain.as_str(), p.domain.as_str());
                let expired = license.valid_until.is_before(&now);
                verdict(trusted, domain_matches, expired)
            },
        }
    }

    /// Validates the license at the time of the system clock.
    pub fn validate(&self, keys: &KeyStore) -> (r: Result<(), VerificationError>)
        ensures
            exists|now: Timestamp| r == validation(self@, keys@, now),
    {
        let now = Timestamp::now();
        let r = self.validate_at(keys, now);
        assert(r == validation(self@, keys@, now));
        r
    }

    /// Whether `feature` is enabled at the instant `now`.
    pub fn enabled_at(&self, keys: &KeyStore, now: Timestamp, feature: &Feature) -> (r: bool)
        ensures
            r == feature_enabled(self@, keys@, now, *feature),
    {
        if self.validate_at(keys, now).is_err() {
            return false;
        }
        self.level().allowance().is_allowed(feature)
    }

    /// Whether `feature` is enabled at the time of the system clock.
    pub fn enabled(&self, keys: &KeyStore, feature: &Feature) -> (r: bool)
        ensures
            exists|now: Timestamp| r == feature_enabled(self@, keys@, now, *feature),
    {
        let now = Timestamp::now();
        let r = self.enabled_at(keys, now, feature);
        assert(r == feature_enabled(self@, keys@, now, *feature));
        r
    }

    /// Whether the feature called `name` is enabled at the instant `now`.
    pub fn enabled_by_name_at(&self, keys: &KeyStore, now: Timestamp, name: &str) -> (r: bool)
        ensures
            r == named_feature_enabled(self@, keys@, now, name@),
    {
        match Feature::try_from(name) {
            Ok(feature) => self.enabled_at(keys, now, &feature),
            Err(_) => false,
        }
    }

    /// Whether the feature called `name` is enabled at the time of the
    /// system clock.
    pub fn enabled_by_name(&self, keys: &KeyStore, name: &str) -> (r: bool)
        ensures
            exists|now: Timestamp| r == named_feature_enabled(self@, keys@, now, name@),
    {
        let now = Timestamp::now();
        let r = self.enabled_by_name_at(keys, now, name);
        assert(r == named_feature_enabled(self@, keys@, now, name@));
        r
    }

    /// Whether the license covers `seats` seats at the instant `now`.
    pub fn has_enough_seats_at(&self, keys: &KeyStore, now: Timestamp, seats: i32) -> (r: bool)
        ensures
            r == seats_suffice(self@, keys@, now, seats),
    {
        if self.validate_at(keys, now).is_err() {
            return false;
        }
        match &self.pending {
            None => covers_seats(None, seats),
            Some(p) => covers_seats(p.signed_license.license.seats, seats),
        }
    }

    /// Whether the license covers `seats` seats at the time of the system
    /// clock.
    pub fn has_enough_seats(&self, keys: &KeyStore, seats: i32) -> (r: bool)
        ensures
            exists|now: Timestamp| r == seats_suffice(self@, keys@, now, seats),
    {
        let now = Timestamp::now();
        let r = self.has_enough_seats_at(keys, now, seats);
        assert(r == seats_suffice(self@, keys@, now, seats));
        r
    }

    /// Whether a prebuild may run at the instant `now`, given the total
    /// prebuild time spent so far.
    pub fn can_use_prebuild_at(
        &self,
        keys: &KeyStore,
        now: Timestamp,
        total_prebuild_time_spent: &Duration,
    ) -> (r: bool)
        ensures
            r == prebuild_allowed(self@, keys@, now, *total_prebuild_time_spent),
    {
        if !self.enabled_at(keys, now, &Feature::Prebuild) {
            return false;
        }
        is_within_prebuild_limit(self.level(), total_prebuild_time_spent)
    }

    /// Whether a prebuild may run at the time of the system clock, given the
    /// total prebuild time spent so far.
    pub fn can_use_prebuild(&self, keys: &KeyStore, total_prebuild_time_spent: &Duration) -> (r:
        bool)
        ensures
            exists|now: Timestamp| r == prebuild_allowed(self@, keys@, now, *total_prebuild_time_spent),
    {
        let now = Timestamp::now();
        let r = self.can_use_prebuild_at(keys, now, total_prebuild_time_spent);
        assert(r == prebuild_allowed(self@, keys@, now, *total_prebuild_time_spent));
        r
    }

    /// A copy of the license, for display. It says nothing of whether the
    /// license is valid.
    pub fn inspect(&self) -> (r: License)
        ensures
            r@ == license_of(self@),
    {
        match &self.pending {
            None => License::default_license(),
            Some(p) => p.signed_license.license.clone(),
        }
    }

    /// The level of the license.
    fn level(&self) -> (r: LicenseLevel)
        ensures
            r == license_of(self@).level,
    {
        match &self.pending {
            None => LicenseLevel::Team,
            Some(p) => p.signed_license.license.level,
        }
    }
}

} // verus!
