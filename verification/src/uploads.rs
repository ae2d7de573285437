//! The plan and upload gating rules: which recordings a free plan may
//! upload, and how an account's upgrade status is decided before and after
//! the plan service answers.  The network calls stay with the caller.

use vstd::prelude::*;

verus! {

/// Free plans may upload recordings up to five minutes long.
pub const FREE_UPLOAD_LIMIT_MS: u64 = 300_000;

/// Whether an upload must be refused pending an upgrade: the account is not
/// upgraded and the recording runs longer than the free limit.
pub fn upload_requires_upgrade(duration_ms: u64, is_upgraded: bool) -> (r: bool)
    ensures
        r == (!is_upgraded && duration_ms > FREE_UPLOAD_LIMIT_MS),
{
    !is_upgraded && duration_ms > FREE_UPLOAD_LIMIT_MS
}

/// What the upgrade check decides before asking the plan service.
#[derive(Clone, Copy, Debug, PartialEq, Eq, Structural)]
pub enum UpgradeCheckStep {
    /// A commercial license counts as upgraded without any lookup.
    AlreadyCommercial,
    /// A manually upgraded plan counts as upgraded without any lookup.
    ManualPlan,
    /// Without stored credentials the account cannot be upgraded.
    NotAuthenticated,
    /// The plan service must be asked.
    FetchPlan,
}

/// Decide the upgrade check's next step from the locally stored state: a
/// commercial license wins, then missing credentials, then a manual plan;
/// only otherwise is the plan service consulted.
pub fn upgrade_check_step(
    has_commercial_license: bool,
    has_auth: bool,
    plan_manual: Option<bool>,
) -> (r: UpgradeCheckStep)
    ensures
        has_commercial_license ==> r == UpgradeCheckStep::AlreadyCommercial,
        !has_commercial_license && !has_auth ==> r == UpgradeCheckStep::NotAuthenticated,
        !has_commercial_license && has_auth && plan_manual == Some(true) ==> r
            == UpgradeCheckStep::ManualPlan,
        !has_commercial_license && has_auth && plan_manual != Some(true) ==> r
            == UpgradeCheckStep::FetchPlan,
{
    if has_commercial_license {
        UpgradeCheckStep::AlreadyCommercial
    } else if !has_auth {
        UpgradeCheckStep::NotAuthenticated
    } else if matches!(plan_manual, Some(true)) {
        UpgradeCheckStep::ManualPlan
    } else {
        UpgradeCheckStep::FetchPlan
    }
}

/// Read the plan service's answer: an account is pro exactly when the
/// answer carries an explicit true; a missing or malformed field reads as
/// not upgraded.
pub fn plan_is_pro(upgraded_field: Option<bool>) -> (r: bool)
    ensures
        r == (upgraded_field == Some(true)),
{
    match upgraded_field {
        Some(v) => v,
        None => false,
    }
}

} // verus!
