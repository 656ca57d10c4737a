use vstd::prelude::*;

use crate::persistent_storage::StickyValues;

verus! {

/// Values persisted for one user, by config name (the first entry of a name counts).
pub type UserPersistedValues = Vec<(String, StickyValues)>;

/// Options of a feature gate check.
#[derive(Debug, Clone, Copy)]
pub struct FeatureGateEvaluationOptions {
    pub disable_exposure_logging: bool,
}

/// Options of a dynamic config read.
#[derive(Debug, Clone, Copy)]
pub struct DynamicConfigEvaluationOptions {
    pub disable_exposure_logging: bool,
}

/// Options of an experiment read, with the user's persisted (sticky) values and whether
/// overrides and targeting may overrule them.
pub struct ExperimentEvaluationOptions {
    pub disable_exposure_logging: bool,
    pub user_persisted_values: Option<UserPersistedValues>,
    pub enforce_overrides: bool,
    pub enforce_targeting: bool,
}

/// Options of a layer read, with the user's persisted (sticky) values and whether overrides
/// and targeting may overrule them.
pub struct LayerEvaluationOptions {
    pub disable_exposure_logging: bool,
    pub user_persisted_values: Option<UserPersistedValues>,
    pub enforce_overrides: bool,
    pub enforce_targeting: bool,
}

/// Options of a parameter store read.
#[derive(Debug, Clone, Copy)]
pub struct ParameterStoreEvaluationOptions {
    pub disable_exposure_logging: bool,
}

/// The options of any kind of evaluation.
pub enum AnyEvaluationOptions {
    FeatureGateEvaluationOptions(FeatureGateEvaluationOptions),
    DynamicConfigEvaluationOptions(DynamicConfigEvaluationOptions),
    ExperimentEvaluationOptions(ExperimentEvaluationOptions),
    LayerEvaluationOptions(LayerEvaluationOptions),
    ParameterStoreEvaluationOptions(ParameterStoreEvaluationOptions),
}

impl Default for FeatureGateEvaluationOptions {
    fn default() -> (r: Self)
        ensures
            !r.disable_exposure_logging,
    {
        FeatureGateEvaluationOptions { disable_exposure_logging: false }
    }
}

impl Default for DynamicConfigEvaluationOptions {
    fn default() -> (r: Self)
        ensures
            !r.disable_exposure_logging,
    {
        DynamicConfigEvaluationOptions { disable_exposure_logging: false }
    }
}

impl Default for ExperimentEvaluationOptions {
    fn default() -> (r: Self)
        ensures
            !r.disable_exposure_logging,
            r.user_persisted_values is None,
            !r.enforce_overrides,
            !r.enforce_targeting,
    {
        ExperimentEvaluationOptions {
            disable_exposure_logging: false,
            user_persisted_values: None,
            enforce_overrides: false,
            enforce_targeting: false,
        }
    }
}

impl Default for LayerEvaluationOptions {
    fn default() -> (r: Self)
        ensures
            !r.disable_exposure_logging,
            r.user_persisted_values is None,
            !r.enforce_overrides,
            !r.enforce_targeting,
    {
        LayerEvaluationOptions {
            disable_exposure_logging: false,
            user_persisted_values: None,
            enforce_overrides: false,
            enforce_targeting: false,
        }
    }
}

impl Default for ParameterStoreEvaluationOptions {
    fn default() -> (r: Self)
        ensures
            !r.disable_exposure_logging,
    {
        ParameterStoreEvaluationOptions { disable_exposure_logging: false }
    }
}

impl From<ParameterStoreEvaluationOptions> for FeatureGateEvaluationOptions {
    /// Keeps whether exposure logging is disabled; everything else takes its default.
    fn from(opts: ParameterStoreEvaluationOptions) -> (r: Self) {
        FeatureGateEvaluationOptions { disable_exposure_logging: opts.disable_exposure_logging }
    }
}

impl vstd::std_specs::convert::FromSpecImpl<ParameterStoreEvaluationOptions> for FeatureGateEvaluationOptions {
    open spec fn obeys_from_spec() -> bool {
        true
    }

    open spec fn from_spec(opts: ParameterStoreEvaluationOptions) -> Self {
        FeatureGateEvaluationOptions { disable_exposure_logging: opts.disable_exposure_logging }
    }
}

impl From<ParameterStoreEvaluationOptions> for DynamicConfigEvaluationOptions {
    /// Keeps whether exposure logging is disabled; everything else takes its default.
    fn from(opts: ParameterStoreEvaluationOptions) -> (r: Self) {
        DynamicConfigEvaluationOptions { disable_exposure_logging: opts.disable_exposure_logging }
    }
}

impl vstd::std_specs::convert::FromSpecImpl<ParameterStoreEvaluationOptions> for DynamicConfigEvaluationOptions {
    open spec fn obeys_from_spec() -> bool {
        true
    }

    open spec fn from_spec(opts: ParameterStoreEvaluationOptions) -> Self {
        DynamicConfigEvaluationOptions { disable_exposure_logging: opts.disable_exposure_logging }
    }
}

impl From<ParameterStoreEvaluationOptions> for ExperimentEvaluationOptions {
    /// Keeps whether exposure logging is disabled; everything else takes its default.
    fn from(opts: ParameterStoreEvaluationOptions) -> (r: Self) {
        ExperimentEvaluationOptions {
            disable_exposure_logging: opts.disable_exposure_logging,
            user_persisted_values: None,
            enforce_overrides: false,
            enforce_targeting: false,
        }
    }
}

impl vstd::std_specs::convert::FromSpecImpl<ParameterStoreEvaluationOptions> for ExperimentEvaluationOptions {
    open spec fn obeys_from_spec() -> bool {
        true
    }

    open spec fn from_spec(opts: ParameterStoreEvaluationOptions) -> Self {
        ExperimentEvaluationOptions {
            disable_exposure_logging: opts.disable_exposure_logging,
            user_persisted_values: None,
            enforce_overrides: false,
            enforce_targeting: false,
        }
    }
}

impl From<ParameterStoreEvaluationOptions> for LayerEvaluationOptions {
    /// Keeps whether exposure logging is disabled; everything else takes its default.
    fn from(opts: ParameterStoreEvaluationOptions) -> (r: Self) {
        LayerEvaluationOptions {
            disable_exposure_logging: opts.disable_exposure_logging,
            user_persisted_values: None,
            enforce_overrides: false,
            enforce_targeting: false,
        }
    }
}

impl vstd::std_specs::convert::FromSpecImpl<ParameterStoreEvaluationOptions> for LayerEvaluationOptions {
    open spec fn obeys_from_spec() -> bool {
        true
    }

    open spec fn from_spec(opts: ParameterStoreEvaluationOptions) -> Self {
        LayerEvaluationOptions {
            disable_exposure_logging: opts.disable_exposure_logging,
            user_persisted_values: None,
            enforce_overrides: false,
            enforce_targeting: false,
        }
    }
}

} // verus!
