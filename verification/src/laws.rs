//! What holds of validation and of the entitlement queries, for every
//! license, key store and instant.

use crate::error::VerificationError;
use crate::evaluator::{
    evaluator_of_key, feature_enabled, license_of, prebuild_allowed, seats_suffice,
    signature_trusted, validation, EvaluatorView,
};
use crate::level::{law_level_allows, Feature, LicenseLevel};
use crate::license::{law_license_key_reads_back, license_key, SignedLicenseView};
use crate::signing::signed_by;
use crate::time::{Duration, Timestamp};
use vstd::prelude::*;
use vstd::utf8::encode_utf8;

verus! {

/// A signed license validates where one of the trusted keys accepts its
/// signature, the domain asked for is the domain of the license, and the
/// license is not past its `valid_until`. The last instant at which it
/// validates is `valid_until` itself.
pub proof fn law_signed_license_validates(
    signed: SignedLicenseView,
    key: Seq<u8>,
    keys: Seq<Seq<u8>>,
    now: Timestamp,
)
    requires
        signed_by(signed, key),
        keys.contains(key),
        !signed.license.valid_until.precedes(now),
    ensures
        validation(
            EvaluatorView::SignedLicensePending {
                signed_license: signed,
                domain: signed.license.domain,
            },
            keys,
            now,
        ) is Ok,
{
    let i = choose|i: int| 0 <= i < keys.len() && keys[i] == key;
    assert(keys[i] == key);
}

/// The round trip. Take a signed license that one of the trusted keys
/// accepts, as `sign` makes it with the private half of that key, and the
/// license key that `serialize` hands out for it. The evaluator made from
/// that license key and the domain of the license answers for the same
/// license, and it validates at every instant up to `valid_until`.
pub proof fn law_round_trip_validates(
    signed: SignedLicenseView,
    license_key_text: Seq<char>,
    key: Seq<u8>,
    keys: Seq<Seq<u8>>,
    now: Timestamp,
)
    requires
        license_key(signed) == Some(license_key_text),
        signed_by(signed, key),
        keys.contains(key),
        !signed.license.valid_until.precedes(now),
    ensures
        match evaluator_of_key(encode_utf8(license_key_text), signed.license.domain) {
            Ok(evaluator) => license_of(evaluator) == signed.license && validation(
                evaluator,
                keys,
                now,
            ) is Ok,
            Err(_) => false,
        },
{
    law_license_key_reads_back(signed, license_key_text);
    law_signed_license_validates(signed, key, keys, now);
}

/// The round trip past the end of validity. The evaluator made from the
/// license key of a signed license with a trusted signature, and from the
/// domain of the license, fails with `Expired` at every instant behind
/// `valid_until`.
pub proof fn law_round_trip_expires(
    signed: SignedLicenseView,
    license_key_text: Seq<char>,
    keys: Seq<Seq<u8>>,
    now: Timestamp,
)
    requires
        license_key(signed) == Some(license_key_text),
        signature_trusted(signed, keys),
        signed.license.valid_until.precedes(now),
    ensures
        evaluator_of_key(encode_utf8(license_key_text), signed.license.domain) matches Ok(
            evaluator,
        ) && validation(evaluator, keys, now) == Err::<(), VerificationError>(
            VerificationError::Expired,
        ),
{
    law_license_key_reads_back(signed, license_key_text);
    law_expiry(signed, keys, now);
}

/// The round trip under another domain. The evaluator made from the license
/// key of a signed license and from a domain that is not the domain of the
/// license fails to validate, so it enables no feature.
pub proof fn law_round_trip_other_domain(
    signed: SignedLicenseView,
    license_key_text: Seq<char>,
    domain: Seq<char>,
    keys: Seq<Seq<u8>>,
    now: Timestamp,
    feature: Feature,
)
    requires
        license_key(signed) == Some(license_key_text),
        domain != signed.license.domain,
    ensures
        evaluator_of_key(encode_utf8(license_key_text), domain) matches Ok(evaluator)
            && validation(evaluator, keys, now) is Err && !feature_enabled(
            evaluator,
            keys,
            now,
            feature,
        ),
{
    law_license_key_reads_back(signed, license_key_text);
}

/// The round trip of a signed license that no trusted key accepts, such as
/// one whose signature was changed on the way. The evaluator made from its
/// license key fails with `SignatureMismatch`, whatever the domain and the
/// instant.
pub proof fn law_round_trip_untrusted(
    signed: SignedLicenseView,
    license_key_text: Seq<char>,
    domain: Seq<char>,
    keys: Seq<Seq<u8>>,
    now: Timestamp,
)
    requires
        license_key(signed) == Some(license_key_text),
        !signature_trusted(signed, keys),
    ensures
        evaluator_of_key(encode_utf8(license_key_text), domain) matches Ok(evaluator)
            && validation(evaluator, keys, now) == Err::<(), VerificationError>(
            VerificationError::SignatureMismatch,
        ),
{
    law_license_key_reads_back(signed, license_key_text);
}

/// Validation fails with `SignatureMismatch` exactly where no trusted key
/// accepts the signature; the domain and the expiry are not looked at then.
pub proof fn law_untrusted_signature_is_mismatch(
    signed: SignedLicenseView,
    domain: Seq<char>,
    keys: Seq<Seq<u8>>,
    now: Timestamp,
)
    ensures
        !signature_trusted(signed, keys) <==> validation(
            EvaluatorView::SignedLicensePending { signed_license: signed, domain },
            keys,
            now,
        ) == Err::<(), VerificationError>(VerificationError::SignatureMismatch),
        keys.len() == 0 ==> !signature_trusted(signed, keys),
{
}

/// A license with a trusted signature, asked for under its own domain,
/// fails with `Expired` exactly where `valid_until` lies before `now`.
pub proof fn law_expiry(signed: SignedLicenseView, keys: Seq<Seq<u8>>, now: Timestamp)
    requires
        signature_trusted(signed, keys),
    ensures
        signed.license.valid_until.precedes(now) <==> validation(
            EvaluatorView::SignedLicensePending {
                signed_license: signed,
                domain: signed.license.domain,
            },
            keys,
            now,
        ) == Err::<(), VerificationError>(VerificationError::Expired),
{
}

/// Where validation fails, no feature is enabled, no number of seats is
/// covered and no prebuild may run, whatever the level of the license.
pub proof fn law_invalid_license_grants_nothing(
    evaluator: EvaluatorView,
    keys: Seq<Seq<u8>>,
    now: Timestamp,
    feature: Feature,
    seats: i32,
    spent: Duration,
)
    requires
        validation(evaluator, keys, now) is Err,
    ensures
        !feature_enabled(evaluator, keys, now, feature),
        !seats_suffice(evaluator, keys, now, seats),
        !prebuild_allowed(evaluator, keys, now, spent),
{
}

/// A valid license without a seat count, or with a seat count of zero,
/// covers every number of seats.
pub proof fn law_unlimited_seats(
    evaluator: EvaluatorView,
    keys: Seq<Seq<u8>>,
    now: Timestamp,
    requested: i32,
)
    requires
        validation(evaluator, keys, now) is Ok,
        license_of(evaluator).seats is None || license_of(evaluator).seats == Some(0i32),
    ensures
        seats_suffice(evaluator, keys, now, requested),
{
}

/// A valid license with a positive seat count covers the requests up to
/// that count and no others.
pub proof fn law_limited_seats(
    evaluator: EvaluatorView,
    keys: Seq<Seq<u8>>,
    now: Timestamp,
    limit: i32,
    requested: i32,
)
    requires
        validation(evaluator, keys, now) is Ok,
        license_of(evaluator).seats == Some(limit),
        limit != 0,
    ensures
        seats_suffice(evaluator, keys, now, requested) <==> requested <= limit,
{
}

/// A valid enterprise license allows prebuilds after any time spent.
pub proof fn law_enterprise_prebuild_unlimited(
    evaluator: EvaluatorView,
    keys: Seq<Seq<u8>>,
    now: Timestamp,
    spent: Duration,
)
    requires
        validation(evaluator, keys, now) is Ok,
        license_of(evaluator).level == LicenseLevel::Enterprise,
    ensures
        prebuild_allowed(evaluator, keys, now, spent),
{
    law_level_allows(LicenseLevel::Enterprise, Feature::Prebuild);
}

/// A valid team license allows prebuilds up to fifty hours spent, the
/// fiftieth hour included.
pub proof fn law_team_prebuild_budget(
    evaluator: EvaluatorView,
    keys: Seq<Seq<u8>>,
    now: Timestamp,
    spent: Duration,
)
    requires
        validation(evaluator, keys, now) is Ok,
        license_of(evaluator).level == LicenseLevel::Team,
    ensures
        prebuild_allowed(evaluator, keys, now, spent) <==> spent.total_nanos() <= 50 * 3_600
            * 1_000_000_000,
{
    law_level_allows(LicenseLevel::Team, Feature::Prebuild);
}

/// The default license is valid against every key store and at every
/// instant. It enables prebuilds, within the fifty hours of the team level,
/// and no other feature, and it covers every number of seats.
pub proof fn law_default_license(
    keys: Seq<Seq<u8>>,
    now: Timestamp,
    feature: Feature,
    requested: i32,
    spent: Duration,
)
    ensures
        validation(EvaluatorView::DefaultLicense, keys, now) is Ok,
        feature_enabled(EvaluatorView::DefaultLicense, keys, now, feature) <==> feature
            == Feature::Prebuild,
        seats_suffice(EvaluatorView::DefaultLicense, keys, now, requested),
        prebuild_allowed(EvaluatorView::DefaultLicense, keys, now, spent) <==> spent.total_nanos()
            <= 50 * 3_600 * 1_000_000_000,
{
    law_level_allows(LicenseLevel::Team, feature);
    law_level_allows(LicenseLevel::Team, Feature::Prebuild);
}

} // verus!
