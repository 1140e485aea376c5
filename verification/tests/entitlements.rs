use licensor::{
    sign, Duration, Evaluator, Feature, KeyStore, License, LicenseLevel, PrivateKey, PublicKey,
    SignedLicense, SigningError, Timestamp, VerificationError,
};

/// The public half of a key whose private half is not kept here.
const PUB_A: &str = "-----BEGIN PUBLIC KEY-----\n\
MIIBCgKCAQEA0GqTBPBT/5xDO2ZsHDGEkzJnaQ8w178Rsi9Mbcsm1DEyhpKplUsH\n\
E89SXBTQ/bdl+3DKQedE0P06QEFmwA5QFLQSXYmd+bupqMzsvc8o/grGX4XzfDei\n\
mPG3TrbnAUlnHkQjITYr310Ecu/62/kmlVncJ5Xa27zTDnjMApPEeu6XhjKs2P3t\n\
ENS0yiA5HTid8fgH2XMTi1yeJZxn55NqxsZeIT3es1zYEIAB14tQkSywQPgTVYyM\n\
0peM+4zBbHg5G5HMCfGGBgd9/7fGo2a3EE/3FtrpyW4gfVxvekjCo2JYmBXq30WW\n\
+qgc5OJTFlrbT+/M8quaCQhbTM/BpHXNawIDAQAB\n\
-----END PUBLIC KEY-----\n";

/// A signature over the canonical JSON text of `issued_license`, made by
/// another RSA implementation with the private half of the key above.
const FOREIGN_SIGNATURE: [u8; 256] = [
    72, 91, 178, 48, 109, 101, 182, 179, 161, 133, 152, 201, 70, 202, 43, 250,
    199, 58, 169, 107, 252, 248, 168, 230, 205, 213, 246, 212, 43, 174, 128, 239,
    152, 28, 165, 148, 135, 96, 227, 212, 91, 199, 8, 45, 14, 180, 120, 149,
    189, 208, 104, 182, 218, 13, 152, 253, 136, 112, 88, 243, 83, 22, 77, 68,
    145, 105, 99, 76, 54, 61, 6, 247, 198, 107, 78, 60, 112, 189, 18, 15,
    187, 123, 146, 238, 174, 211, 112, 13, 243, 148, 222, 19, 122, 49, 99, 173,
    15, 121, 211, 162, 86, 167, 79, 106, 65, 170, 152, 61, 49, 86, 124, 158,
    61, 118, 34, 175, 82, 182, 96, 188, 100, 103, 162, 228, 202, 119, 251, 91,
    160, 24, 225, 147, 248, 184, 4, 150, 142, 84, 202, 217, 42, 205, 73, 142,
    96, 15, 59, 102, 121, 93, 21, 105, 254, 92, 34, 99, 17, 170, 230, 205,
    115, 117, 233, 119, 165, 83, 115, 205, 179, 76, 170, 66, 252, 209, 0, 44,
    123, 219, 5, 133, 154, 75, 202, 177, 81, 254, 75, 205, 252, 230, 5, 200,
    116, 79, 95, 39, 71, 179, 228, 118, 60, 224, 93, 154, 154, 166, 110, 36,
    192, 139, 30, 1, 69, 109, 39, 113, 105, 208, 223, 215, 98, 3, 217, 3,
    64, 137, 78, 25, 242, 214, 131, 199, 35, 161, 86, 144, 71, 27, 123, 230,
    214, 230, 118, 114, 113, 69, 186, 9, 88, 250, 219, 227, 201, 212, 66, 246,
];

const DOMAIN: &str = "foobar.com";

const ALL_FEATURES: [Feature; 5] = [
    Feature::AdminDashboard,
    Feature::Prebuild,
    Feature::SetTimeout,
    Feature::Snapshot,
    Feature::WorkspaceSharing,
];

fn issued_license() -> License {
    License {
        id: "730d5134-768c-4a05-b7cd-ecf3757cada9".to_string(),
        level: LicenseLevel::Team,
        domain: DOMAIN.to_string(),
        valid_until: Timestamp::new(1_700_000_000, 0),
        seats: Some(50),
    }
}

fn license_with(level: LicenseLevel, seats: Option<i32>) -> License {
    License { level, seats, ..issued_license() }
}

fn before_expiry() -> Timestamp {
    Timestamp::new(1_600_000_000, 0)
}

fn after_expiry() -> Timestamp {
    Timestamp::new(1_700_000_001, 0)
}

/// The size of the keys that the tests make. Keys of this size are made
/// quickly, and the evaluator treats keys of every size alike.
const KEY_BITS: usize = 512;

/// An issuer with a key pair of its own, made anew for each test.
struct Issuer {
    key: PrivateKey,
}

impl Issuer {
    fn new() -> Issuer {
        Issuer { key: PrivateKey::generate(KEY_BITS).unwrap() }
    }

    /// A store that trusts this issuer and nobody else.
    fn keys(&self) -> KeyStore {
        let mut keys = KeyStore::new();
        keys.add(self.key.public_key());
        keys
    }

    fn sign(&self, license: &License) -> SignedLicense {
        sign(license, &self.key).unwrap()
    }

    fn evaluator_for(&self, license: &License, domain: &str) -> Evaluator {
        let key = self.sign(license).serialize().unwrap();
        Evaluator::from_license_key_bytes(key.as_bytes(), domain).unwrap()
    }
}

/// A store that trusts the key of the foreign signature and nobody else.
fn foreign_keys() -> KeyStore {
    let mut keys = KeyStore::new();
    keys.add(PublicKey::from_pem(PUB_A).unwrap());
    keys
}

fn foreign_signed_license() -> SignedLicense {
    SignedLicense { license: issued_license(), signature: FOREIGN_SIGNATURE.to_vec() }
}

#[test]
fn a_signed_license_holds_the_license_and_a_signature() {
    let issuer = Issuer::new();
    let license = issued_license();
    let signed = issuer.sign(&license);
    assert_eq!(signed.license, license);
    assert_eq!(signed.signature.len(), KEY_BITS / 8);
    assert_ne!(signed.signature, FOREIGN_SIGNATURE.to_vec());
}

#[test]
fn a_foreign_signature_validates() {
    let signed = foreign_signed_license();
    let evaluator = Evaluator::from_signed_license(signed, DOMAIN);
    assert_eq!(evaluator.validate_at(&foreign_keys(), before_expiry()), Ok(()));
}

#[test]
fn a_foreign_signed_license_validates_after_the_wire() {
    let key = foreign_signed_license().serialize().unwrap();
    let evaluator = Evaluator::from_license_key_bytes(key.as_bytes(), DOMAIN).unwrap();
    assert_eq!(evaluator.validate_at(&foreign_keys(), before_expiry()), Ok(()));
    assert_eq!(
        evaluator.validate_at(&foreign_keys(), after_expiry()),
        Err(VerificationError::Expired)
    );
    assert_eq!(
        evaluator.validate_at(&Issuer::new().keys(), before_expiry()),
        Err(VerificationError::SignatureMismatch)
    );
    assert!(evaluator.has_enough_seats_at(&foreign_keys(), before_expiry(), 50));
    assert!(!evaluator.has_enough_seats_at(&foreign_keys(), before_expiry(), 51));
}

#[test]
fn round_trip_validates() {
    let issuer = Issuer::new();
    let license = issued_license();
    let signed = issuer.sign(&license);
    let key = signed.serialize().unwrap();
    let decoded = SignedLicense::deserialize(key.as_bytes()).unwrap();
    assert_eq!(decoded, signed);
    let keys = issuer.keys();
    let evaluator = Evaluator::from_signed_license(decoded, &license.domain);
    assert_eq!(evaluator.validate_at(&keys, before_expiry()), Ok(()));
    assert_eq!(evaluator.validate_at(&keys, license.valid_until), Ok(()));
    assert_eq!(evaluator.inspect(), license);
}

#[test]
fn round_trip_validates_against_the_clock() {
    let issuer = Issuer::new();
    let license = License {
        valid_until: Timestamp::now().checked_add_signed(&Duration::hours(6)).unwrap(),
        ..issued_license()
    };
    let evaluator = issuer.evaluator_for(&license, DOMAIN);
    assert_eq!(evaluator.validate(&issuer.keys()), Ok(()));
}

#[test]
fn round_trip_validates_with_odd_strings() {
    let issuer = Issuer::new();
    let license = License {
        id: "\"quoted\" \\ \n \u{1F600}".to_string(),
        domain: "b\u{fc}cher.example".to_string(),
        valid_until: Timestamp::new(1_700_000_000, 123_456_789),
        ..issued_license()
    };
    let evaluator = issuer.evaluator_for(&license, "b\u{fc}cher.example");
    assert_eq!(evaluator.validate_at(&issuer.keys(), before_expiry()), Ok(()));
    assert_eq!(evaluator.inspect(), license);
}

#[test]
fn validation_fails_without_a_trusted_key() {
    let issuer = Issuer::new();
    let evaluator = issuer.evaluator_for(&issued_license(), DOMAIN);
    assert_eq!(
        evaluator.validate_at(&KeyStore::new(), before_expiry()),
        Err(VerificationError::SignatureMismatch)
    );
    let mut others = KeyStore::new();
    others.add(Issuer::new().key.public_key());
    assert_eq!(
        evaluator.validate_at(&others, before_expiry()),
        Err(VerificationError::SignatureMismatch)
    );
    assert_eq!(
        evaluator.validate_at(&KeyStore::embedded(), before_expiry()),
        Err(VerificationError::SignatureMismatch)
    );
}

#[test]
fn validation_tries_every_trusted_key() {
    let issuer = Issuer::new();
    let evaluator = issuer.evaluator_for(&issued_license(), DOMAIN);
    let mut keys = KeyStore::embedded();
    keys.add(Issuer::new().key.public_key());
    keys.add(PublicKey::from_pem(PUB_A).unwrap());
    assert_eq!(
        evaluator.validate_at(&keys, before_expiry()),
        Err(VerificationError::SignatureMismatch)
    );
    keys.add(issuer.key.public_key());
    assert_eq!(keys.len(), 4);
    assert_eq!(evaluator.validate_at(&keys, before_expiry()), Ok(()));
    let foreign = Evaluator::from_signed_license(foreign_signed_license(), DOMAIN);
    assert_eq!(foreign.validate_at(&keys, before_expiry()), Ok(()));
}

#[test]
fn a_flipped_signature_byte_is_a_signature_mismatch() {
    let signed = foreign_signed_license();
    let mut keys = foreign_keys();
    keys.add(Issuer::new().key.public_key());
    let untouched = Evaluator::from_signed_license(signed.clone(), DOMAIN);
    assert_eq!(untouched.validate_at(&keys, before_expiry()), Ok(()));
    for position in 0..signed.signature.len() {
        let mask = [0x01u8, 0x80, 0xff, 0x10][position % 4];
        let mut tampered = signed.clone();
        tampered.signature[position] ^= mask;
        let evaluator = Evaluator::from_signed_license(tampered, DOMAIN);
        assert_eq!(
            evaluator.validate_at(&keys, before_expiry()),
            Err(VerificationError::SignatureMismatch),
            "byte {}",
            position
        );
    }
}

#[test]
fn a_cut_or_lengthened_signature_is_a_signature_mismatch() {
    let signed = foreign_signed_license();
    let mut cut = signed.clone();
    cut.signature.pop();
    let mut longer = signed.clone();
    longer.signature.push(0);
    let mut empty = signed.clone();
    empty.signature.clear();
    for tampered in [cut, longer, empty] {
        let evaluator = Evaluator::from_signed_license(tampered, DOMAIN);
        assert_eq!(
            evaluator.validate_at(&foreign_keys(), before_expiry()),
            Err(VerificationError::SignatureMismatch)
        );
    }
}

#[test]
fn a_changed_license_is_a_signature_mismatch() {
    let signed = foreign_signed_license();
    let changes: Vec<Box<dyn Fn(&mut License)>> = vec![
        Box::new(|l| l.id.push('x')),
        Box::new(|l| l.level = LicenseLevel::Enterprise),
        Box::new(|l| l.domain = "FOOBAR.com".to_string()),
        Box::new(|l| l.valid_until = Timestamp::new(1_700_000_001, 0)),
        Box::new(|l| l.valid_until = Timestamp::new(1_700_000_000, 1)),
        Box::new(|l| l.seats = Some(51)),
        Box::new(|l| l.seats = None),
    ];
    for change in changes {
        let mut tampered = signed.clone();
        change(&mut tampered.license);
        let domain = tampered.license.domain.clone();
        let evaluator = Evaluator::from_signed_license(tampered, &domain);
        assert_eq!(
            evaluator.validate_at(&foreign_keys(), before_expiry()),
            Err(VerificationError::SignatureMismatch)
        );
    }
}

#[test]
fn a_license_without_canonical_text_is_a_signature_mismatch() {
    let license = License { valid_until: Timestamp::new(i64::MAX, 0), ..issued_license() };
    let signed = SignedLicense { license, signature: FOREIGN_SIGNATURE.to_vec() };
    let evaluator = Evaluator::from_signed_license(signed, DOMAIN);
    assert_eq!(
        evaluator.validate_at(&foreign_keys(), before_expiry()),
        Err(VerificationError::SignatureMismatch)
    );
}

#[test]
fn validation_fails_for_another_domain() {
    let issuer = Issuer::new();
    for domain in ["example.com", "", "Foobar.com", "foobar.com ", "foobar.co", "www.foobar.com"] {
        let evaluator = issuer.evaluator_for(&issued_license(), domain);
        assert_eq!(
            evaluator.validate_at(&issuer.keys(), before_expiry()),
            Err(VerificationError::DomainMismatch),
            "{:?}",
            domain
        );
    }
}

#[test]
fn a_license_for_any_domain_is_still_compared_letter_by_letter() {
    let issuer = Issuer::new();
    let license = License { domain: "".to_string(), ..issued_license() };
    let asked_with_domain = issuer.evaluator_for(&license, DOMAIN);
    assert_eq!(
        asked_with_domain.validate_at(&issuer.keys(), before_expiry()),
        Err(VerificationError::DomainMismatch)
    );
    let asked_without = issuer.evaluator_for(&license, "");
    assert_eq!(asked_without.validate_at(&issuer.keys(), before_expiry()), Ok(()));
}

#[test]
fn validation_fails_past_valid_until() {
    let issuer = Issuer::new();
    let evaluator = issuer.evaluator_for(&issued_license(), DOMAIN);
    let keys = issuer.keys();
    assert_eq!(evaluator.validate_at(&keys, Timestamp::new(1_699_999_999, 999_999_999)), Ok(()));
    assert_eq!(evaluator.validate_at(&keys, Timestamp::new(1_700_000_000, 0)), Ok(()));
    assert_eq!(
        evaluator.validate_at(&keys, Timestamp::new(1_700_000_000, 1)),
        Err(VerificationError::Expired)
    );
    assert_eq!(evaluator.validate_at(&keys, after_expiry()), Err(VerificationError::Expired));
}

#[test]
fn an_expired_license_fails_against_the_clock() {
    let issuer = Issuer::new();
    let license = License {
        valid_until: Timestamp::now().checked_sub_signed(&Duration::hours(6)).unwrap(),
        ..issued_license()
    };
    let evaluator = issuer.evaluator_for(&license, DOMAIN);
    let keys = issuer.keys();
    assert_eq!(evaluator.validate(&keys), Err(VerificationError::Expired));
    assert!(!evaluator.enabled(&keys, &Feature::Prebuild));
    assert!(!evaluator.enabled_by_name(&keys, "prebuild"));
    assert!(!evaluator.has_enough_seats(&keys, 1));
    assert!(!evaluator.can_use_prebuild(&keys, &Duration::seconds(0)));
}

#[test]
fn the_first_failed_check_is_reported() {
    let issuer = Issuer::new();
    let keys = issuer.keys();
    let wrong_domain_and_expired = issuer.evaluator_for(&issued_license(), "example.com");
    assert_eq!(
        wrong_domain_and_expired.validate_at(&keys, after_expiry()),
        Err(VerificationError::DomainMismatch)
    );
    assert_eq!(
        wrong_domain_and_expired.validate_at(&KeyStore::new(), after_expiry()),
        Err(VerificationError::SignatureMismatch)
    );
    let expired = issuer.evaluator_for(&issued_license(), DOMAIN);
    assert_eq!(
        expired.validate_at(&KeyStore::new(), after_expiry()),
        Err(VerificationError::SignatureMismatch)
    );
}

#[test]
fn nothing_is_enabled_where_validation_fails() {
    let issuer = Issuer::new();
    let keys = issuer.keys();
    for level in [LicenseLevel::Team, LicenseLevel::Enterprise] {
        let license = license_with(level, None);
        let cases = vec![
            (issuer.evaluator_for(&license, "example.com"), issuer.keys(), before_expiry()),
            (issuer.evaluator_for(&license, DOMAIN), KeyStore::new(), before_expiry()),
            (issuer.evaluator_for(&license, DOMAIN), issuer.keys(), after_expiry()),
        ];
        for (evaluator, store, now) in cases {
            assert!(evaluator.validate_at(&store, now).is_err());
            for feature in ALL_FEATURES {
                assert!(!evaluator.enabled_at(&store, now, &feature));
                assert!(!evaluator.enabled_by_name_at(&store, now, &feature.to_string()));
            }
            assert!(!evaluator.has_enough_seats_at(&store, now, 0));
            assert!(!evaluator.has_enough_seats_at(&store, now, 1));
            assert!(!evaluator.can_use_prebuild_at(&store, now, &Duration::seconds(0)));
        }
        let valid = issuer.evaluator_for(&license, DOMAIN);
        assert!(valid.enabled_at(&keys, before_expiry(), &Feature::Prebuild));
    }
}

#[test]
fn features_by_level() {
    let issuer = Issuer::new();
    let keys = issuer.keys();
    let team = issuer.evaluator_for(&license_with(LicenseLevel::Team, Some(5)), DOMAIN);
    let enterprise = issuer.evaluator_for(&license_with(LicenseLevel::Enterprise, Some(5)), DOMAIN);
    for feature in ALL_FEATURES {
        assert_eq!(team.enabled_at(&keys, before_expiry(), &feature), feature == Feature::Prebuild);
        assert!(enterprise.enabled_at(&keys, before_expiry(), &feature));
    }
}

#[test]
fn features_by_name() {
    let issuer = Issuer::new();
    let keys = issuer.keys();
    let team = issuer.evaluator_for(&license_with(LicenseLevel::Team, Some(5)), DOMAIN);
    let enterprise = issuer.evaluator_for(&license_with(LicenseLevel::Enterprise, Some(5)), DOMAIN);
    assert!(team.enabled_by_name_at(&keys, before_expiry(), "prebuild"));
    assert!(!team.enabled_by_name_at(&keys, before_expiry(), "snapshot"));
    assert!(enterprise.enabled_by_name_at(&keys, before_expiry(), "snapshot"));
    assert!(enterprise.enabled_by_name_at(&keys, before_expiry(), "workspace-sharing"));
    for unknown in ["", "Prebuild", "teleport", "snapshot "] {
        assert!(!team.enabled_by_name_at(&keys, before_expiry(), unknown));
        assert!(!enterprise.enabled_by_name_at(&keys, before_expiry(), unknown));
        assert!(!Evaluator::with_default_license().enabled_by_name(&keys, unknown));
    }
}

#[test]
fn no_seat_count_and_zero_cover_every_number_of_seats() {
    let issuer = Issuer::new();
    let keys = issuer.keys();
    for seats in [None, Some(0)] {
        let evaluator = issuer.evaluator_for(&license_with(LicenseLevel::Team, seats), DOMAIN);
        for requested in [0, 1, 50, 1000, i32::MAX] {
            assert!(evaluator.has_enough_seats_at(&keys, before_expiry(), requested));
        }
    }
}

#[test]
fn fifty_seats_cover_fifty_and_not_fifty_one() {
    let issuer = Issuer::new();
    let keys = issuer.keys();
    let evaluator = issuer.evaluator_for(&license_with(LicenseLevel::Team, Some(50)), DOMAIN);
    assert!(evaluator.has_enough_seats_at(&keys, before_expiry(), 0));
    assert!(evaluator.has_enough_seats_at(&keys, before_expiry(), 49));
    assert!(evaluator.has_enough_seats_at(&keys, before_expiry(), 50));
    assert!(!evaluator.has_enough_seats_at(&keys, before_expiry(), 51));
    assert!(!evaluator.has_enough_seats_at(&keys, before_expiry(), i32::MAX));
    assert!(evaluator.has_enough_seats_at(&keys, before_expiry(), -1));
}

#[test]
fn an_enterprise_license_allows_prebuilds_without_limit() {
    let issuer = Issuer::new();
    let keys = issuer.keys();
    let evaluator = issuer.evaluator_for(&license_with(LicenseLevel::Enterprise, None), DOMAIN);
    let spans = [
        Duration::seconds(0),
        Duration::hours(50),
        Duration { secs: 180_000, nanos: 1 },
        Duration::hours(500),
        Duration::seconds(i64::MAX),
        Duration::seconds(-1),
    ];
    for spent in spans {
        assert!(evaluator.can_use_prebuild_at(&keys, before_expiry(), &spent));
    }
}

#[test]
fn a_team_license_allows_fifty_hours_of_prebuilds() {
    let issuer = Issuer::new();
    let keys = issuer.keys();
    let evaluator = issuer.evaluator_for(&license_with(LicenseLevel::Team, None), DOMAIN);
    assert!(evaluator.can_use_prebuild_at(&keys, before_expiry(), &Duration::seconds(0)));
    assert!(evaluator.can_use_prebuild_at(&keys, before_expiry(), &Duration::hours(49)));
    assert!(evaluator.can_use_prebuild_at(&keys, before_expiry(), &Duration::hours(50)));
    assert!(!evaluator.can_use_prebuild_at(&keys, before_expiry(), &Duration::seconds(180_001)));
    assert!(!evaluator.can_use_prebuild_at(
        &keys,
        before_expiry(),
        &Duration { secs: 180_000, nanos: 1 }
    ));
    assert!(!evaluator.can_use_prebuild_at(&keys, before_expiry(), &Duration::hours(250)));
}

#[test]
fn the_default_license_is_always_valid() {
    let evaluator = Evaluator::with_default_license();
    assert!(evaluator.is_default_license());
    let instants = [
        Timestamp::new(i64::MIN, 0),
        Timestamp::new(0, 0),
        before_expiry(),
        Timestamp::end_of_time(),
        Timestamp::new(253_402_300_800, 0),
        Timestamp::new(i64::MAX, u32::MAX),
    ];
    for store in [KeyStore::new(), foreign_keys(), KeyStore::embedded()] {
        assert_eq!(evaluator.validate(&store), Ok(()));
        for now in instants {
            assert_eq!(evaluator.validate_at(&store, now), Ok(()));
        }
    }
}

#[test]
fn the_default_license_grants_the_team_allowance() {
    let evaluator = Evaluator::with_default_license();
    let keys = KeyStore::new();
    let now = Timestamp::new(i64::MAX, 0);
    for feature in ALL_FEATURES {
        assert_eq!(evaluator.enabled_at(&keys, now, &feature), feature == Feature::Prebuild);
        assert_eq!(evaluator.enabled(&keys, &feature), feature == Feature::Prebuild);
    }
    assert!(evaluator.enabled(&keys, &Feature::Prebuild));
    assert!(!evaluator.enabled(&keys, &Feature::AdminDashboard));
    assert!(evaluator.enabled_by_name(&keys, "prebuild"));
    assert!(!evaluator.enabled_by_name(&keys, "admin-dashboard"));
    for requested in [0, 1, 1000, i32::MAX] {
        assert!(evaluator.has_enough_seats_at(&keys, now, requested));
        assert!(evaluator.has_enough_seats(&keys, requested));
    }
    assert!(evaluator.can_use_prebuild_at(&keys, now, &Duration::hours(50)));
    assert!(!evaluator.can_use_prebuild_at(&keys, now, &Duration::seconds(180_001)));
    assert!(evaluator.can_use_prebuild(&keys, &Duration::hours(50)));
    assert!(!evaluator.can_use_prebuild(&keys, &Duration::seconds(180_001)));
}

#[test]
fn inspect_gives_the_license_whether_valid_or_not() {
    let issuer = Issuer::new();
    let evaluator = issuer.evaluator_for(&issued_license(), "example.com");
    assert!(evaluator.validate_at(&KeyStore::new(), after_expiry()).is_err());
    assert_eq!(evaluator.inspect(), issued_license());
    assert!(!evaluator.is_default_license());
}

#[test]
fn a_license_without_canonical_text_is_not_signed() {
    let issuer = Issuer::new();
    let license = License { valid_until: Timestamp::new(i64::MAX, 0), ..issued_license() };
    assert_eq!(sign(&license, &issuer.key), Err(SigningError::UnrepresentableLicense));
}

#[test]
fn a_key_too_small_fails_in_the_primitive() {
    let toy = vec![
        0x30, 27, 2, 1, 0, 2, 1, 15, 2, 1, 3, 2, 1, 3, 2, 1, 3, 2, 1, 5, 2, 1, 1, 2, 1, 3, 2, 1, 2,
    ];
    let key = PrivateKey::from_pkcs1(toy).unwrap();
    assert_eq!(sign(&issued_license(), &key), Err(SigningError::PrimitiveFailure));
}

#[test]
fn verification_errors_describe_themselves() {
    assert_eq!(VerificationError::SignatureMismatch.message(), "cannot verify key");
    assert_eq!(VerificationError::DomainMismatch.message(), "wrong domain");
    assert_eq!(VerificationError::Expired.message(), "not valid anymore");
}
