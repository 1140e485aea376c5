//! License levels, gated features and the allowance each level grants.

use crate::error::ParameterError;
use crate::text::str_eq;
use crate::time::Duration;
use vstd::prelude::*;

verus! {

/// The level a license was issued at; it selects the allowance.
#[derive(Clone, Copy, Debug, PartialEq, Eq, Hash, Structural)]
pub enum LicenseLevel {
    Team,
    Enterprise,
}

/// A capability that a license may unlock.
#[derive(Clone, Copy, Debug, PartialEq, Eq, Hash, Structural)]
pub enum Feature {
    AdminDashboard,
    Prebuild,
    SetTimeout,
    Snapshot,
    WorkspaceSharing,
}

/// What a license level grants: the features it unlocks, and the total
/// prebuild time it allows, where `None` means that the time is not limited.
#[derive(Debug)]
pub struct Allowance {
    pub features: Vec<Feature>,
    pub prebuild_time: Option<Duration>,
}

/// Hours of prebuild time that the team level allows.
pub const TEAM_PREBUILD_HOURS: i64 = 50;

/// The level that a lower-case token names.
pub open spec fn level_of_token(token: Seq<char>) -> Result<LicenseLevel, ParameterError> {
    if token == "team"@ {
        Ok(LicenseLevel::Team)
    } else if token == "enterprise"@ {
        Ok(LicenseLevel::Enterprise)
    } else {
        Err(ParameterError::UnknownLicenseLevel)
    }
}

/// The identifier under which a feature crosses a boundary.
pub open spec fn feature_token(feature: Feature) -> Seq<char> {
    match feature {
        Feature::AdminDashboard => "admin-dashboard"@,
        Feature::Prebuild => "prebuild"@,
        Feature::SetTimeout => "set-timeout"@,
        Feature::Snapshot => "snapshot"@,
        Feature::WorkspaceSharing => "workspace-sharing"@,
    }
}

/// The feature that an identifier names.
pub open spec fn feature_of_token(token: Seq<char>) -> Result<Feature, ParameterError> {
    if token == "admin-dashboard"@ {
        Ok(Feature::AdminDashboard)
    } else if token == "prebuild"@ {
        Ok(Feature::Prebuild)
    } else if token == "set-timeout"@ {
        Ok(Feature::SetTimeout)
    } else if token == "snapshot"@ {
        Ok(Feature::Snapshot)
    } else if token == "workspace-sharing"@ {
        Ok(Feature::WorkspaceSharing)
    } else {
        Err(ParameterError::UnknownFeature)
    }
}

/// The features of a level, in the order of its allowance.
pub open spec fn level_features(level: LicenseLevel) -> Seq<Feature> {
    match level {
        LicenseLevel::Team => seq![Feature::Prebuild],
        LicenseLevel::Enterprise => seq![
            Feature::Prebuild,
            Feature::AdminDashboard,
            Feature::SetTimeout,
            Feature::Snapshot,
            Feature::WorkspaceSharing,
        ],
    }
}

/// Whether the allowance of `level` holds `feature`.
pub open spec fn level_allows(level: LicenseLevel, feature: Feature) -> bool {
    level_features(level).contains(feature)
}

/// The prebuild time that a level allows; `None` where it is not limited.
pub open spec fn prebuild_limit(level: LicenseLevel) -> Option<Duration> {
    match level {
        LicenseLevel::Team => Some(Duration { secs: 180_000, nanos: 0 }),
        LicenseLevel::Enterprise => None,
    }
}

impl LicenseLevel {
    /// Reads a level from its lower-case token, `team` or `enterprise`.
    pub fn try_from(s: &str) -> (r: Result<LicenseLevel, ParameterError>)
        ensures
            r == level_of_token(s@),
    {
        if str_eq(s, "team") {
            Ok(LicenseLevel::Team)
        } else if str_eq(s, "enterprise") {
            Ok(LicenseLevel::Enterprise)
        } else {
            Err(ParameterError::UnknownLicenseLevel)
        }
    }

    /// The allowance of this level.
    pub fn allowance(&self) -> (r: Allowance)
        ensures
            r.features@ == level_features(*self),
            r.prebuild_time == prebuild_limit(*self),
    {
        let mut features: Vec<Feature> = Vec::new();
        features.push(Feature::Prebuild);
        match self {
            LicenseLevel::Team => {
                assert(features@ =~= level_features(*self));
                Allowance { features, prebuild_time: Some(Duration::hours(TEAM_PREBUILD_HOURS)) }
            },
            LicenseLevel::Enterprise => {
                features.push(Feature::AdminDashboard);
                features.push(Feature::SetTimeout);
                features.push(Feature::Snapshot);
                features.push(Feature::WorkspaceSharing);
                assert(features@ =~= level_features(*self));
                Allowance { features, prebuild_time: None }
            },
        }
    }
}

impl Feature {
    /// Reads a feature from its identifier.
    pub fn try_from(s: &str) -> (r: Result<Feature, ParameterError>)
        ensures
            r == feature_of_token(s@),
    {
        if str_eq(s, "admin-dashboard") {
            Ok(Feature::AdminDashboard)
        } else if str_eq(s, "prebuild") {
            Ok(Feature::Prebuild)
        } else if str_eq(s, "set-timeout") {
            Ok(Feature::SetTimeout)
        } else if str_eq(s, "snapshot") {
            Ok(Feature::Snapshot)
        } else if str_eq(s, "workspace-sharing") {
            Ok(Feature::WorkspaceSharing)
        } else {
            Err(ParameterError::UnknownFeature)
        }
    }

    /// The identifier of this feature.
    pub fn to_string(&self) -> (r: String)
        ensures
            r@ == feature_token(*self),
    {
        match self {
            Feature::AdminDashboard => "admin-dashboard".to_string(),
            Feature::Prebuild => "prebuild".to_string(),
            Feature::SetTimeout => "set-timeout".to_string(),
            Feature::Snapshot => "snapshot".to_string(),
            Feature::WorkspaceSharing => "workspace-sharing".to_string(),
        }
    }
}

impl Allowance {
    /// Whether this allowance holds `feature`.
    pub fn is_allowed(&self, feature: &Feature) -> (r: bool)
        ensures
            r == self.features@.contains(*feature),
    {
        let mut i: usize = 0;
        while i < self.features.len()
            invariant
                i <= self.features@.len(),
                forall|j: int| 0 <= j < i ==> self.features@[j] != *feature,
            decreases self.features@.len() - i,
        {
            if self.features[i] == *feature {
                return true;
            }
            i += 1;
        }
        false
    }
}

/// The team level allows prebuilds and nothing else; the enterprise level
/// allows every feature.
pub proof fn law_level_allows(level: LicenseLevel, feature: Feature)
    ensures
        level_allows(LicenseLevel::Team, feature) <==> feature == Feature::Prebuild,
        level_allows(LicenseLevel::Enterprise, feature),
        level_allows(LicenseLevel::Team, feature) ==> level_allows(level, feature),
{
    let team = level_features(LicenseLevel::Team);
    let enterprise = level_features(LicenseLevel::Enterprise);
    assert(team[0] == Feature::Prebuild);
    assert(enterprise[0] == Feature::Prebuild);
    assert(enterprise[1] == Feature::AdminDashboard);
    assert(enterprise[2] == Feature::SetTimeout);
    assert(enterprise[3] == Feature::Snapshot);
    assert(enterprise[4] == Feature::WorkspaceSharing);
}

/// The two tokens of the levels are told apart.
pub proof fn law_level_tokens()
    ensures
        level_of_token("team"@) == Ok::<LicenseLevel, ParameterError>(LicenseLevel::Team),
        level_of_token("enterprise"@) == Ok::<LicenseLevel, ParameterError>(
            LicenseLevel::Enterprise,
        ),
{
    reveal_strlit("team");
    reveal_strlit("enterprise");
    assert("team"@.len() == 4);
    assert("enterprise"@.len() == 10);
}

/// Reading the identifier of a feature gives the feature back.
pub proof fn law_feature_token_round_trip(feature: Feature)
    ensures
        feature_of_token(feature_token(feature)) == Ok::<Feature, ParameterError>(feature),
{
    reveal_strlit("admin-dashboard");
    reveal_strlit("prebuild");
    reveal_strlit("set-timeout");
    reveal_strlit("snapshot");
    reveal_strlit("workspace-sharing");
    assert("admin-dashboard"@.len() == 15);
    assert("prebuild"@.len() == 8);
    assert("set-timeout"@.len() == 11);
    assert("snapshot"@.len() == 8);
    assert("workspace-sharing"@.len() == 17);
    assert("prebuild"@[0] == 'p' && "snapshot"@[0] == 's');
}

} // verus!
