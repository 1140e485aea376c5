use licensor::{
    sign, Duration, Evaluator, Feature, KeyStore, License, LicenseLevel, PrivateKey, Timestamp,
};

const SOME_SEATS: i32 = 5;
const SOME_DOMAIN: &str = "foobar.com";
const SOME_ID: &str = "730d5134-768c-4a05-b7cd-ecf3757cada9";

/// The size of the keys that the cases sign with.
const KEY_BITS: usize = 2048;

/// The key pair that the cases of one test sign with, and the store that
/// trusts it. A key of this size takes seconds to make, so one is made for
/// all the cases of a test.
struct Issuer {
    private_key: PrivateKey,
    keys: KeyStore,
}

impl Issuer {
    fn new() -> Result<Issuer, String> {
        let private_key =
            PrivateKey::generate(KEY_BITS).ok_or_else(|| "cannot generate key".to_string())?;

        // store the public key in a place where it is picked up during validation
        let mut keys = KeyStore::new();
        keys.add(private_key.public_key());

        Ok(Issuer { private_key, keys })
    }
}

struct LicenseTest {
    name: String,
    license: Option<License>,
    validate: Box<dyn FnOnce(Evaluator, &KeyStore) -> Result<(), String>>,
}

impl LicenseTest {
    fn run(self, issuer: &Issuer) -> Result<(), String> {
        let name = self.name.clone();
        println!("=== \"{}\" running...", name);
        let result = self.do_run(issuer);
        if result.is_err() {
            println!("=== \"{}\" FAILED", name);
        } else {
            println!("=== \"{}\" done.", name);
        }
        result
    }

    fn do_run(self, issuer: &Issuer) -> Result<(), String> {
        let evaluator = match &self.license {
            None => Evaluator::with_default_license(),
            Some(license) => {
                let signed_license = sign(license, &issuer.private_key)
                    .map_err(|e| format!("cannot sign license: {:?}", e))?;
                let serialized =
                    signed_license.serialize().map_err(|e| format!("cannot serialize: {:?}", e))?;

                Evaluator::from_license_key_bytes(serialized.as_bytes(), SOME_DOMAIN)
                    .map_err(|e| format!("cannot decode: {:?}", e))?
            },
        };

        (self.validate)(evaluator, &issuer.keys)
    }
}

#[test]
pub fn seats() -> Result<(), String> {
    let issuer = Issuer::new()?;
    struct Test {
        name: String,
        licensed: Option<i32>,
        probe: i32,
        within_limits: bool,
        #[allow(dead_code)]
        default_license: bool,
        invalid_license: bool,
    }
    let tests: Vec<Test> = vec![
        ("unlimited seats", Some(0), 1000, true, false, false),
        ("unlimited seats", None, 1000, true, false, false),
        ("within limited seats", Some(50), 40, true, false, false),
        ("within limited seats (edge)", Some(50), 50, true, false, false),
        ("beyond limited seats", Some(50), 150, false, false, false),
        ("beyond limited seats (edge)", Some(50), 51, false, false, false),
        ("invalid license", Some(50), 50, false, false, true),
    ]
    .into_iter()
    .map(|t| Test {
        name: t.0.to_string(),
        licensed: t.1,
        probe: t.2,
        within_limits: t.3,
        default_license: t.4,
        invalid_license: t.5,
    })
    .collect();

    for test in tests.into_iter() {
        let valid_until = match test.invalid_license {
            true => Timestamp::now().checked_sub_signed(&Duration::hours(6)),
            false => Timestamp::now().checked_add_signed(&Duration::hours(6)),
        }
        .ok_or_else(|| "error calculating 'valid_until': out of bounds".to_string())?;

        let license_test = LicenseTest {
            name: test.name.clone(),
            license: Some(License {
                id: SOME_ID.to_string(),
                domain: SOME_DOMAIN.to_string(),
                level: LicenseLevel::Team,
                seats: test.licensed,
                valid_until,
            }),
            validate: Box::new(move |evaluator, keys| {
                let within_limits = evaluator.has_enough_seats(keys, test.probe);
                if within_limits != test.within_limits {
                    return Err(format!(
                        "'{}': has_enough_seats did not behave as expected: lic={:?} probe={} expected={} actual={}",
                        test.name, test.licensed, test.probe, test.within_limits, within_limits
                    ));
                }
                Ok(())
            }),
        };
        license_test.run(&issuer)?;
    }

    Ok(())
}

#[test]
pub fn features() -> Result<(), String> {
    let issuer = Issuer::new()?;
    struct Test {
        name: String,
        default_license: bool,
        level: LicenseLevel,
        features: Vec<Feature>,
    }
    let tests = vec![
        Test {
            name: "no license".to_string(),
            default_license: true,
            level: LicenseLevel::Team,
            features: vec![Feature::Prebuild],
        },
        Test {
            name: "enterprise license".to_string(),
            default_license: false,
            level: LicenseLevel::Enterprise,
            features: vec![
                Feature::AdminDashboard,
                Feature::SetTimeout,
                Feature::WorkspaceSharing,
                Feature::Snapshot,
                Feature::Prebuild,
            ],
        },
    ];

    for test in tests.into_iter() {
        let license = if test.default_license {
            None
        } else {
            Some(License {
                id: SOME_ID.to_string(),
                domain: SOME_DOMAIN.to_string(),
                level: test.level.clone(),
                seats: Some(SOME_SEATS),
                valid_until: Timestamp::now().checked_add_signed(&Duration::hours(6)).unwrap(),
            })
        };
        let license_test = LicenseTest {
            name: test.name.clone(),
            license,
            validate: Box::new(move |evaluator, keys| {
                let allowance = LicenseLevel::Enterprise.allowance();
                let expected_features = allowance.features.clone();

                for feature in test.features.iter() {
                    if !evaluator.enabled(keys, feature) {
                        return Err(format!(
                            "license does not enable {}, but should",
                            feature.to_string()
                        ));
                    }
                }

                let unavailable_features: Vec<&Feature> = expected_features
                    .iter()
                    .filter(|ef| !test.features.iter().any(|af| af == *ef))
                    .collect();
                for feature in unavailable_features.iter() {
                    if evaluator.enabled(keys, feature) {
                        return Err(format!(
                            "license does enable {}, but shouldn't",
                            feature.to_string()
                        ));
                    }
                }

                Ok(())
            }),
        };
        license_test.run(&issuer)?;
    }

    Ok(())
}

#[test]
pub fn can_use_prebuild() -> Result<(), String> {
    let issuer = Issuer::new()?;
    struct Test {
        name: String,
        license: Option<License>,
        used_time: Duration,
        expected: bool,
    }

    let broken_license = License {
        id: "".to_string(),
        domain: "".to_string(),
        level: LicenseLevel::Enterprise,
        seats: None,
        valid_until: Timestamp::now().checked_add_signed(&Duration::seconds(0)).unwrap(),
    };
    let enterprise_license = License {
        id: SOME_ID.to_string(),
        domain: SOME_DOMAIN.to_string(),
        level: LicenseLevel::Enterprise,
        seats: None,
        valid_until: Timestamp::now().checked_add_signed(&Duration::hours(6)).unwrap(),
    };
    let tests: Vec<Test> = vec![
        ("default license ok", None, Duration::seconds(0), true),
        ("default license not ok", None, Duration::hours(250), false),
        ("enterprise license a", Some(enterprise_license.clone()), Duration::hours(1), true),
        ("enterprise license b", Some(enterprise_license), Duration::hours(500), true),
        ("broken license", Some(broken_license), Duration::seconds(0), false),
    ]
    .into_iter()
    .map(|t| Test { name: t.0.to_string(), license: t.1, used_time: t.2, expected: t.3 })
    .collect();

    for test in tests {
        let license_test = LicenseTest {
            name: test.name.clone(),
            license: test.license.clone(),
            validate: Box::new(move |evaluator, keys| {
                let actual = evaluator.can_use_prebuild(keys, &test.used_time);
                if test.expected != actual {
                    return Err(format!(
                        "can_use_prebuild returned unexpected value: expected {}, got {}",
                        test.expected, actual
                    ));
                }
                Ok(())
            }),
        };
        license_test.run(&issuer)?;
    }
    Ok(())
}
