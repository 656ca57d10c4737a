use vstd::prelude::*;
use vstd::string::StringExecFns;

use crate::clock::now_millis;
use crate::evaluation_options::{
    ExperimentEvaluationOptions, LayerEvaluationOptions, UserPersistedValues,
};
use crate::evaluation_types::{
    copy_exposures, copy_opt_exposures, copy_opt_params, copy_opt_string, copy_opt_value,
    opt_param_names, DynamicReturnable, EvaluationDetails, EvaluatorResult, SecondaryExposure,
};
use crate::explicit_params::ExplicitParameters;
use crate::text::{chars_to_string, extend_str, str_eq_chars, str_to_chars};

verus! {

/// What is persisted of an experiment or layer result so that a user keeps seeing it.
pub struct StickyValues {
    pub value: bool,
    pub json_value: Option<DynamicReturnable>,
    pub rule_id: Option<String>,
    pub group_name: Option<String>,
    pub secondary_exposures: Vec<SecondaryExposure>,
    pub undelegated_secondary_exposures: Option<Vec<SecondaryExposure>>,
    pub config_delegate: Option<String>,
    pub explicit_parameters: Option<ExplicitParameters>,
    pub time: Option<u64>,
    pub config_version: Option<u32>,
}

impl Default for StickyValues {
    fn default() -> (r: Self)
        ensures
            !r.value,
            r.json_value is None,
            r.rule_id is None,
            r.group_name is None,
            r.secondary_exposures@.len() == 0,
            r.undelegated_secondary_exposures is None,
            r.config_delegate is None,
            r.explicit_parameters is None,
            r.time is None,
            r.config_version is None,
    {
        StickyValues {
            value: false,
            json_value: None,
            rule_id: None,
            group_name: None,
            secondary_exposures: Vec::new(),
            undelegated_secondary_exposures: None,
            config_delegate: None,
            explicit_parameters: None,
            time: None,
            config_version: None,
        }
    }
}

/// The kind of config an evaluation is for.
#[derive(Debug, Clone, Copy, PartialEq, Eq, Structural)]
pub enum SpecType {
    Gate,
    DynamicConfig,
    Experiment,
    Layer,
    ParameterStore,
}

/// Which rules of a config a re-evaluation looks at when deciding whether a persisted value
/// still holds.
#[derive(Clone, Copy, Debug, PartialEq, Eq, Structural)]
pub enum StickyRuleFilter {
    Targeting,
    Overrides,
}

/// Stores the values persisted for users. Implemented by the SDK's users.
pub trait PersistentStorage {
    /// The values stored under a key.
    fn load(&self, key: String) -> Option<UserPersistedValues>;

    /// Stores the value of one config under a key.
    fn save(&self, key: &str, config_name: &str, data: StickyValues);

    /// Removes the value of one config under a key.
    fn delete(&self, key: &str, config_name: &str);
}

/// The storage key of a user's unit: `<id>:<id_type>`, when the user has a unit of that
/// type.
pub open spec fn spec_persistent_storage_key(unit_id: Option<Seq<char>>, id_type: Seq<char>) -> Option<
    Seq<char>,
> {
    match unit_id {
        None => None,
        Some(id) => Some(id + seq![':'] + id_type),
    }
}

/// An optional string slice as characters.
pub open spec fn opt_str_view(o: Option<&str>) -> Option<Seq<char>> {
    match o {
        None => None,
        Some(s) => Some(s@),
    }
}

/// The storage key of a user's unit. `unit_id` is the user's ID of type `id_type` (empty when
/// the ID is not a string), `None` when the user has none.
pub fn get_persistent_storage_key(unit_id: Option<&str>, id_type: &str) -> (r: Option<String>)
    ensures
        opt_str_view(unit_id) is None ==> r is None,
        r matches Some(k) ==> spec_persistent_storage_key(opt_str_view(unit_id), id_type@) == Some(
            k@,
        ),
        unit_id is Some ==> r is Some,
{
    match unit_id {
        None => None,
        Some(id) => {
            let mut out = str_to_chars(id);
            out.push(':');
            extend_str(&mut out, id_type);
            Some(chars_to_string(&out))
        },
    }
}

/// The values persisted for the user's unit.
pub fn get_values_for_user<S: PersistentStorage>(
    storage: &S,
    unit_id: Option<&str>,
    id_type: &str,
) -> (r: Option<UserPersistedValues>)
    ensures
        unit_id is None ==> r is None,
{
    let key = match get_persistent_storage_key(unit_id, id_type) {
        Some(k) => k,
        None => return None,
    };
    storage.load(key)
}

/// The re-evaluation of the config named `name` as an experiment, restricted to `filter`,
/// may return `value`.
pub open spec fn reeval_may_return<F: Fn(&str, &SpecType, StickyRuleFilter) -> bool>(
    reeval: F,
    name: Seq<char>,
    filter: StickyRuleFilter,
    value: bool,
) -> bool {
    exists|n: &str|
        n@ == name && #[trigger] call_ensures(reeval, (n, &SpecType::Experiment, filter), value)
}

/// The re-evaluation can be called on any config and filter.
pub open spec fn reeval_callable<F: Fn(&str, &SpecType, StickyRuleFilter) -> bool>(reeval: F) -> bool {
    forall|n: &str, t: &SpecType, f: StickyRuleFilter| call_requires(reeval, (n, t, f))
}

/// Whether keeping (`kept`) or dropping a persisted value agrees with the enforced
/// re-evaluations of the config named `name`: without enforcement it is kept; it is kept
/// only where each enforced re-evaluation may return `false`; it is dropped only where an
/// enforced re-evaluation may return `true`.
pub open spec fn enforced_choice<F: Fn(&str, &SpecType, StickyRuleFilter) -> bool>(
    kept: bool,
    enforce_overrides: bool,
    enforce_targeting: bool,
    reeval: F,
    name: Seq<char>,
) -> bool {
    &&& !enforce_overrides && !enforce_targeting ==> kept
    &&& kept ==> (enforce_targeting ==> reeval_may_return(
        reeval,
        name,
        StickyRuleFilter::Targeting,
        false,
    )) && (enforce_overrides ==> reeval_may_return(reeval, name, StickyRuleFilter::Overrides, false))
    &&& !kept ==> (enforce_targeting && reeval_may_return(
        reeval,
        name,
        StickyRuleFilter::Targeting,
        true,
    )) || (enforce_overrides && reeval_may_return(reeval, name, StickyRuleFilter::Overrides, true))
}

/// The layer form of `enforced_choice`: the experiment a persisted layer value was allocated
/// to is what is re-evaluated; a value that names none is always kept.
pub open spec fn layer_enforced_choice<F: Fn(&str, &SpecType, StickyRuleFilter) -> bool>(
    kept: bool,
    enforce_overrides: bool,
    enforce_targeting: bool,
    delegate: Option<String>,
    reeval: F,
) -> bool {
    match delegate {
        None => kept,
        Some(d) => enforced_choice(kept, enforce_overrides, enforce_targeting, reeval, d@),
    }
}

/// Decides whether a persisted value still wins over the live evaluation. With targeting
/// enforced, a re-evaluation of the targeting rules that returns `true` (the user is no
/// longer targeted) drops it, and the override rules are then not looked at; with overrides
/// enforced, a re-evaluation of the override rules that returns `true` (an override applies)
/// drops it.
pub fn should_return_sticky_value<F: Fn(&str, &SpecType, StickyRuleFilter) -> bool>(
    enforce_overrides: bool,
    enforce_targeting: bool,
    reeval_spec_name: &str,
    reeval: &F,
) -> (r: bool)
    requires
        reeval_callable(*reeval),
    ensures
        enforced_choice(r, enforce_overrides, enforce_targeting, *reeval, reeval_spec_name@),
{
    if enforce_targeting {
        let t = SpecType::Experiment;
        let excluded_by_targeting = reeval(reeval_spec_name, &t, StickyRuleFilter::Targeting);
        if excluded_by_targeting {
            return false;
        }
    }
    if enforce_overrides {
        let t = SpecType::Experiment;
        let is_overridden = reeval(reeval_spec_name, &t, StickyRuleFilter::Overrides);
        if is_overridden {
            return false;
        }
    }
    true
}

/// Layer form of `should_return_sticky_value`: the experiment a layer's persisted value was
/// allocated to is re-evaluated; without enforcement, or without such an experiment, the
/// persisted value wins.
pub fn layer_should_return_sticky_value<F: Fn(&str, &SpecType, StickyRuleFilter) -> bool>(
    options: &LayerEvaluationOptions,
    sticky_value: &StickyValues,
    reeval: &F,
) -> (r: bool)
    requires
        reeval_callable(*reeval),
    ensures
        layer_enforced_choice(
            r,
            options.enforce_overrides,
            options.enforce_targeting,
            sticky_value.config_delegate,
            *reeval,
        ),
{
    if !(options.enforce_overrides || options.enforce_targeting) {
        return true;
    }
    let delegate = match &sticky_value.config_delegate {
        Some(d) => d,
        None => return true,
    };
    should_return_sticky_value(
        options.enforce_overrides,
        options.enforce_targeting,
        delegate.as_str(),
        reeval,
    )
}

/// Position of the first persisted value named `name`, from position `i` on.
pub open spec fn find_persisted(values: Seq<(String, StickyValues)>, name: Seq<char>, i: int) -> Option<int>
    decreases values.len() - i,
{
    if i < 0 || i >= values.len() {
        None
    } else if values[i].0@ == name {
        Some(i)
    } else {
        find_persisted(values, name, i + 1)
    }
}

/// The persisted value named `name`, if the options carry one.
pub open spec fn persisted_value(values: Option<UserPersistedValues>, name: Seq<char>) -> Option<
    StickyValues,
> {
    match values {
        None => None,
        Some(v) => match find_persisted(v@, name, 0) {
            Some(i) => Some(v@[i].1),
            None => None,
        },
    }
}

/// Looks up the persisted value named `name`.
pub fn find_persisted_value<'a>(values: &'a Option<UserPersistedValues>, name: &str) -> (r: Option<
    &'a StickyValues,
>)
    ensures
        r is None <==> persisted_value(*values, name@) is None,
        r matches Some(v) ==> persisted_value(*values, name@) == Some(*v),
{
    let vs = match values {
        None => return None,
        Some(v) => v,
    };
    let n = str_to_chars(name);
    let mut i: usize = 0;
    while i < vs.len()
        invariant
            i <= vs.len(),
            n@ == name@,
            *values == Some(*vs),
            find_persisted(vs@, name@, 0) == find_persisted(vs@, name@, i as int),
        decreases vs.len() - i,
    {
        if str_eq_chars(vs[i].0.as_str(), &n) {
            return Some(&vs[i].1);
        }
        i = i + 1;
    }
    None
}

/// `r` is the evaluation result rebuilt from a persisted value: name, ID type and exposure
/// sampling settings from the live result; value, rule, group, JSON value, version, delegate,
/// parameters and exposures from the persisted value; active and in the experiment group;
/// not in a layer, unsupported or overridden.
pub open spec fn is_sticky_evaluator_result(
    r: EvaluatorResult,
    curr: EvaluatorResult,
    s: StickyValues,
) -> bool {
    &&& r.name == curr.name
    &&& r.id_type == curr.id_type
    &&& r.bool_value == s.value
    &&& r.rule_id == s.rule_id
    &&& r.group_name == s.group_name
    &&& r.json_value == s.json_value
    &&& r.version == s.config_version
    &&& r.config_delegate == s.config_delegate
    &&& opt_param_names(r.explicit_parameters) == opt_param_names(s.explicit_parameters)
    &&& r.secondary_exposures@ == s.secondary_exposures@
    &&& (r.undelegated_secondary_exposures is Some) == (s.undelegated_secondary_exposures is Some)
    &&& r.undelegated_secondary_exposures matches Some(u) ==> u@
        == s.undelegated_secondary_exposures->0@
    &&& r.is_experiment_active
    &&& r.is_experiment_group
    &&& !r.unsupported
    &&& !r.is_in_layer
    &&& r.rule_id_suffix is None
    &&& r.override_reason is None
    &&& r.sampling_rate == curr.sampling_rate
    &&& r.forward_all_exposures == curr.forward_all_exposures
    &&& r.override_config_name == curr.override_config_name
    &&& r.has_seen_analytical_gates == curr.has_seen_analytical_gates
}

/// `d` describes a persisted value: reason `Persisted`, its time and version, and a receive
/// time.
pub open spec fn is_sticky_details(d: EvaluationDetails, s: StickyValues) -> bool {
    &&& d.reason@ == "Persisted"@
    &&& d.lcut == s.time
    &&& d.received_at is Some
    &&& d.version == s.config_version
}

/// `v` is the value persisted for a live result received at config time `lcut`.
pub open spec fn is_sticky_from_result(v: StickyValues, r: EvaluatorResult, lcut: Option<u64>) -> bool {
    &&& v.value == r.bool_value
    &&& v.json_value == r.json_value
    &&& v.rule_id == r.rule_id
    &&& v.group_name == r.group_name
    &&& v.secondary_exposures@ == r.secondary_exposures@
    &&& (v.undelegated_secondary_exposures is Some) == (r.undelegated_secondary_exposures is Some)
    &&& v.undelegated_secondary_exposures matches Some(u) ==> u@
        == r.undelegated_secondary_exposures->0@
    &&& v.config_delegate == r.config_delegate
    &&& opt_param_names(v.explicit_parameters) == opt_param_names(r.explicit_parameters)
    &&& v.time == lcut
    &&& v.config_version == r.version
}

/// What a sticky-value decision asks of the storage.
pub enum StickyStorageAction {
    Nothing,
    Delete { key: String, config_name: String },
    Save { key: String, config_name: String, value: StickyValues },
}

/// A sticky-value decision: the result and details to report, what to store, and whether
/// the persisted value was used.
pub struct StickyDecision {
    pub result: EvaluatorResult,
    pub details: EvaluationDetails,
    pub action: StickyStorageAction,
    pub used_sticky: bool,
}

/// The reported result and details: rebuilt from the persisted value when it was used, the
/// live ones otherwise.
pub open spec fn sticky_outcome(
    curr_result: EvaluatorResult,
    curr_details: EvaluationDetails,
    s: StickyValues,
    used: bool,
    r_result: EvaluatorResult,
    r_details: EvaluationDetails,
) -> bool {
    if used {
        is_sticky_evaluator_result(r_result, curr_result, s) && is_sticky_details(r_details, s)
    } else {
        r_result == curr_result && r_details == curr_details
    }
}

/// What a live experiment result and its details become: with a target, persisted values
/// given, an active experiment and a value persisted for it, the persisted value when it is
/// kept and the live result when it is dropped, as the enforced re-evaluations allow;
/// otherwise the live result and details unchanged.
pub open spec fn raw_experiment_outcome<F: Fn(&str, &SpecType, StickyRuleFilter) -> bool>(
    unit_id: Option<Seq<char>>,
    options: ExperimentEvaluationOptions,
    curr_details: EvaluationDetails,
    curr_result: EvaluatorResult,
    reeval: F,
    r_result: EvaluatorResult,
    r_details: EvaluationDetails,
) -> bool {
    match raw_target(unit_id, curr_result) {
        Some((_, name)) if options.user_persisted_values is Some && curr_result.is_experiment_active
            && persisted_value(options.user_persisted_values, name) is Some => {
            let s = persisted_value(options.user_persisted_values, name)->0;
            ||| enforced_choice(true, options.enforce_overrides, options.enforce_targeting, reeval, name)
                && sticky_outcome(curr_result, curr_details, s, true, r_result, r_details)
            ||| enforced_choice(false, options.enforce_overrides, options.enforce_targeting, reeval, name)
                && sticky_outcome(curr_result, curr_details, s, false, r_result, r_details)
        },
        _ => r_result == curr_result && r_details == curr_details,
    }
}

/// What a live layer result and its details become: as for experiments, with the
/// experiment's activity seen through the persisted value and its allocated experiment
/// re-evaluated under enforcement.
pub open spec fn raw_layer_outcome<F: Fn(&str, &SpecType, StickyRuleFilter) -> bool>(
    unit_id: Option<Seq<char>>,
    options: LayerEvaluationOptions,
    spec_store_data: SpecActivity,
    curr_details: EvaluationDetails,
    curr_result: EvaluatorResult,
    reeval: F,
    r_result: EvaluatorResult,
    r_details: EvaluationDetails,
) -> bool {
    match raw_target(unit_id, curr_result) {
        Some((_, name)) if options.user_persisted_values is Some
            && persisted_value(options.user_persisted_values, name) is Some
            && spec_sticky_aware_is_experiment_active(
            curr_result.is_experiment_active,
            spec_store_data.dynamic_configs@,
            persisted_value(options.user_persisted_values, name),
        ) => {
            let s = persisted_value(options.user_persisted_values, name)->0;
            ||| layer_enforced_choice(
                true,
                options.enforce_overrides,
                options.enforce_targeting,
                s.config_delegate,
                reeval,
            ) && sticky_outcome(curr_result, curr_details, s, true, r_result, r_details)
            ||| layer_enforced_choice(
                false,
                options.enforce_overrides,
                options.enforce_targeting,
                s.config_delegate,
                reeval,
            ) && sticky_outcome(curr_result, curr_details, s, false, r_result, r_details)
        },
        _ => r_result == curr_result && r_details == curr_details,
    }
}

/// Details describing a persisted value.
fn make_evaluation_details_from_sticky_value(sticky_value: &StickyValues) -> (r: EvaluationDetails)
    ensures
        is_sticky_details(r, *sticky_value),
{
    EvaluationDetails {
        reason: String::from_str("Persisted"),
        lcut: sticky_value.time,
        received_at: Some(now_millis()),
        version: sticky_value.config_version,
    }
}

/// The evaluation result rebuilt from a persisted value.
fn make_evaluation_result_from_sticky_value(curr_result: EvaluatorResult, sticky_value: &StickyValues) -> (r:
    EvaluatorResult)
    ensures
        is_sticky_evaluator_result(r, curr_result, *sticky_value),
{
    EvaluatorResult {
        name: curr_result.name,
        id_type: curr_result.id_type,
        bool_value: sticky_value.value,
        rule_id: copy_opt_string(&sticky_value.rule_id),
        group_name: copy_opt_string(&sticky_value.group_name),
        json_value: copy_opt_value(&sticky_value.json_value),
        version: sticky_value.config_version,
        config_delegate: copy_opt_string(&sticky_value.config_delegate),
        explicit_parameters: copy_opt_params(&sticky_value.explicit_parameters),
        secondary_exposures: copy_exposures(&sticky_value.secondary_exposures),
        undelegated_secondary_exposures: copy_opt_exposures(
            &sticky_value.undelegated_secondary_exposures,
        ),
        is_experiment_active: true,
        is_experiment_group: true,
        unsupported: false,
        is_in_layer: false,
        rule_id_suffix: None,
        override_reason: None,
        sampling_rate: curr_result.sampling_rate,
        forward_all_exposures: curr_result.forward_all_exposures,
        override_config_name: curr_result.override_config_name,
        has_seen_analytical_gates: curr_result.has_seen_analytical_gates,
    }
}

/// The value to persist for a live result.
fn make_sticky_value_from_evaluation_result(curr_result: &EvaluatorResult, lcut: Option<u64>) -> (r:
    StickyValues)
    ensures
        is_sticky_from_result(r, *curr_result, lcut),
{
    StickyValues {
        value: curr_result.bool_value,
        json_value: copy_opt_value(&curr_result.json_value),
        rule_id: copy_opt_string(&curr_result.rule_id),
        group_name: copy_opt_string(&curr_result.group_name),
        secondary_exposures: copy_exposures(&curr_result.secondary_exposures),
        undelegated_secondary_exposures: copy_opt_exposures(
            &curr_result.undelegated_secondary_exposures,
        ),
        config_delegate: copy_opt_string(&curr_result.config_delegate),
        explicit_parameters: copy_opt_params(&curr_result.explicit_parameters),
        time: lcut,
        config_version: curr_result.version,
    }
}

/// The storage key and config name of a live result, when its ID type, its name and the
/// user's unit are all known.
pub open spec fn raw_target(unit_id: Option<Seq<char>>, curr: EvaluatorResult) -> Option<(Seq<char>, Seq<char>)> {
    match (curr.id_type, curr.name) {
        (Some(t), Some(n)) => match spec_persistent_storage_key(unit_id, t@) {
            Some(k) => Some((k, n@)),
            None => None,
        },
        _ => None,
    }
}

/// The action names the given storage key and config.
pub open spec fn action_targets(a: StickyStorageAction, key: Seq<char>, name: Seq<char>) -> bool {
    match a {
        StickyStorageAction::Nothing => true,
        StickyStorageAction::Delete { key: k, config_name: n } => k@ == key && n@ == name,
        StickyStorageAction::Save { key: k, config_name: n, value: _ } => k@ == key && n@ == name,
    }
}

/// Applies the user's persisted value to a live experiment result. Without an ID type, name
/// or unit nothing happens. When the caller passes no persisted values or the experiment is
/// not active, the persisted value is deleted and the live result stands. A persisted value
/// is used unless enforced targeting or overrides say the live result wins. Otherwise, a
/// live result in an active experiment group is persisted.
pub fn decide_raw_experiment<F: Fn(&str, &SpecType, StickyRuleFilter) -> bool>(
    unit_id: Option<&str>,
    options: &ExperimentEvaluationOptions,
    curr_details: EvaluationDetails,
    curr_result: EvaluatorResult,
    reeval: &F,
) -> (r: StickyDecision)
    requires
        reeval_callable(*reeval),
    ensures
        raw_target(opt_str_view(unit_id), curr_result) is None ==> !r.used_sticky && r.result
            == curr_result && r.details == curr_details && r.action is Nothing,
        raw_target(opt_str_view(unit_id), curr_result) matches Some((key, name)) ==> {
            let found = persisted_value(options.user_persisted_values, name);
            &&& action_targets(r.action, key, name)
            &&& (options.user_persisted_values is None || !curr_result.is_experiment_active)
                ==> !r.used_sticky && r.result == curr_result && r.details == curr_details
                && r.action is Delete
            &&& (options.user_persisted_values is Some && curr_result.is_experiment_active
                && found is Some) ==> {
                let s = found->0;
                &&& r.action is Nothing
                &&& sticky_outcome(curr_result, curr_details, s, r.used_sticky, r.result, r.details)
                &&& enforced_choice(
                    r.used_sticky,
                    options.enforce_overrides,
                    options.enforce_targeting,
                    *reeval,
                    name,
                )
            }
            &&& (options.user_persisted_values is Some && curr_result.is_experiment_active
                && found is None) ==> {
                &&& !r.used_sticky && r.result == curr_result && r.details == curr_details
                &&& (curr_result.is_experiment_group) ==> (r.action matches StickyStorageAction::Save {
                    key: _,
                    config_name: _,
                    value: v,
                } && is_sticky_from_result(v, curr_result, curr_details.lcut))
                &&& !curr_result.is_experiment_group ==> r.action is Nothing
            }
        },
{
    let id_type = match &curr_result.id_type {
        Some(t) => t.clone(),
        None => {
            return StickyDecision {
                result: curr_result,
                details: curr_details,
                action: StickyStorageAction::Nothing,
                used_sticky: false,
            };
        },
    };
    let config_name = match &curr_result.name {
        Some(n) => n.clone(),
        None => {
            return StickyDecision {
                result: curr_result,
                details: curr_details,
                action: StickyStorageAction::Nothing,
                used_sticky: false,
            };
        },
    };
    let storage_key = match get_persistent_storage_key(unit_id, id_type.as_str()) {
        Some(k) => k,
        None => {
            return StickyDecision {
                result: curr_result,
                details: curr_details,
                action: StickyStorageAction::Nothing,
                used_sticky: false,
            };
        },
    };
    if options.user_persisted_values.is_none() || !curr_result.is_experiment_active {
        return StickyDecision {
            result: curr_result,
            details: curr_details,
            action: StickyStorageAction::Delete { key: storage_key, config_name },
            used_sticky: false,
        };
    }
    match find_persisted_value(&options.user_persisted_values, config_name.as_str()) {
        Some(found) => {
            let keep_sticky = !(options.enforce_overrides || options.enforce_targeting)
                || should_return_sticky_value(
                options.enforce_overrides,
                options.enforce_targeting,
                config_name.as_str(),
                reeval,
            );
            if keep_sticky {
                let details = make_evaluation_details_from_sticky_value(found);
                let result = make_evaluation_result_from_sticky_value(curr_result, found);
                return StickyDecision {
                    result,
                    details,
                    action: StickyStorageAction::Nothing,
                    used_sticky: true,
                };
            }
            StickyDecision {
                result: curr_result,
                details: curr_details,
                action: StickyStorageAction::Nothing,
                used_sticky: false,
            }
        },
        None => {
            if curr_result.is_experiment_active && curr_result.is_experiment_group {
                let value = make_sticky_value_from_evaluation_result(&curr_result, curr_details.lcut);
                return StickyDecision {
                    result: curr_result,
                    details: curr_details,
                    action: StickyStorageAction::Save { key: storage_key, config_name, value },
                    used_sticky: false,
                };
            }
            StickyDecision {
                result: curr_result,
                details: curr_details,
                action: StickyStorageAction::Nothing,
                used_sticky: false,
            }
        },
    }
}

/// The activity flags (`is_active`) of the dynamic configs the spec store holds, by name.
pub struct SpecActivity {
    pub dynamic_configs: Vec<(String, Option<bool>)>,
}

/// The activity flag of the first config named `name`, from position `i` on.
pub open spec fn find_activity(entries: Seq<(String, Option<bool>)>, name: Seq<char>, i: int) -> Option<
    Option<bool>,
>
    decreases entries.len() - i,
{
    if i < 0 || i >= entries.len() {
        None
    } else if entries[i].0@ == name {
        Some(entries[i].1)
    } else {
        find_activity(entries, name, i + 1)
    }
}

/// Whether a layer's experiment is active, seen through its persisted value: the activity of
/// the experiment the persisted value was allocated to when the store knows it, the layer's
/// own flag otherwise.
pub open spec fn spec_sticky_aware_is_experiment_active(
    layer_is_active: bool,
    specs: Seq<(String, Option<bool>)>,
    sticky: Option<StickyValues>,
) -> bool {
    match sticky {
        None => layer_is_active,
        Some(s) => match s.config_delegate {
            None => layer_is_active,
            Some(d) => match find_activity(specs, d@, 0) {
                Some(Some(a)) => a,
                _ => layer_is_active,
            },
        },
    }
}

/// Whether a layer's experiment is active, seen through its persisted value.
pub fn get_sticky_aware_is_experiment_active(
    layer_is_active: bool,
    spec_store_data: &SpecActivity,
    sticky_value: Option<&StickyValues>,
) -> (r: bool)
    ensures
        r == spec_sticky_aware_is_experiment_active(
            layer_is_active,
            spec_store_data.dynamic_configs@,
            match sticky_value {
                None => None,
                Some(s) => Some(*s),
            },
        ),
{
    let sticky = match sticky_value {
        Some(s) => s,
        None => return layer_is_active,
    };
    let delegate = match &sticky.config_delegate {
        Some(d) => d,
        None => return layer_is_active,
    };
    let d = str_to_chars(delegate.as_str());
    let entries = &spec_store_data.dynamic_configs;
    let mut i: usize = 0;
    while i < entries.len()
        invariant
            i <= entries.len(),
            d@ == delegate@,
            sticky_value == Some(sticky),
            sticky.config_delegate == Some(*delegate),
            entries@ == spec_store_data.dynamic_configs@,
            find_activity(entries@, delegate@, 0) == find_activity(entries@, delegate@, i as int),
        decreases entries.len() - i,
    {
        if str_eq_chars(entries[i].0.as_str(), &d) {
            return match entries[i].1 {
                Some(a) => a,
                None => layer_is_active,
            };
        }
        i = i + 1;
    }
    layer_is_active
}

/// Applies the user's persisted value to a live layer result. As for experiments, except
/// that the experiment's activity is seen through the persisted value, and the persisted
/// value's allocated experiment is what enforced targeting and overrides re-evaluate.
pub fn decide_raw_layer<F: Fn(&str, &SpecType, StickyRuleFilter) -> bool>(
    unit_id: Option<&str>,
    options: &LayerEvaluationOptions,
    spec_store_data: &SpecActivity,
    curr_details: EvaluationDetails,
    curr_result: EvaluatorResult,
    reeval: &F,
) -> (r: StickyDecision)
    requires
        reeval_callable(*reeval),
    ensures
        raw_target(opt_str_view(unit_id), curr_result) is None ==> !r.used_sticky && r.result
            == curr_result && r.details == curr_details && r.action is Nothing,
        raw_target(opt_str_view(unit_id), curr_result) matches Some((key, name)) ==> {
            let found = persisted_value(options.user_persisted_values, name);
            let active = spec_sticky_aware_is_experiment_active(
                curr_result.is_experiment_active,
                spec_store_data.dynamic_configs@,
                found,
            );
            &&& action_targets(r.action, key, name)
            &&& (options.user_persisted_values is None || !active) ==> !r.used_sticky && r.result
                == curr_result && r.details == curr_details && r.action is Delete
            &&& (options.user_persisted_values is Some && active && found is Some) ==> {
                let s = found->0;
                &&& r.action is Nothing
                &&& sticky_outcome(curr_result, curr_details, s, r.used_sticky, r.result, r.details)
                &&& layer_enforced_choice(
                    r.used_sticky,
                    options.enforce_overrides,
                    options.enforce_targeting,
                    s.config_delegate,
                    *reeval,
                )
            }
            &&& (options.user_persisted_values is Some && active && found is None) ==> {
                &&& !r.used_sticky && r.result == curr_result && r.details == curr_details
                &&& (curr_result.is_experiment_active && curr_result.is_experiment_group) ==> (
                r.action matches StickyStorageAction::Save { key: _, config_name: _, value: v }
                    && is_sticky_from_result(v, curr_result, curr_details.lcut))
                &&& !(curr_result.is_experiment_active && curr_result.is_experiment_group)
                    ==> r.action is Nothing
            }
        },
{
    let id_type = match &curr_result.id_type {
        Some(t) => t.clone(),
        None => {
            return StickyDecision {
                result: curr_result,
                details: curr_details,
                action: StickyStorageAction::Nothing,
                used_sticky: false,
            };
        },
    };
    let config_name = match &curr_result.name {
        Some(n) => n.clone(),
        None => {
            return StickyDecision {
                result: curr_result,
                details: curr_details,
                action: StickyStorageAction::Nothing,
                used_sticky: false,
            };
        },
    };
    let storage_key = match get_persistent_storage_key(unit_id, id_type.as_str()) {
        Some(k) => k,
        None => {
            return StickyDecision {
                result: curr_result,
                details: curr_details,
                action: StickyStorageAction::Nothing,
                used_sticky: false,
            };
        },
    };
    let sticky_value = find_persisted_value(&options.user_persisted_values, config_name.as_str());
    let is_experiment_active = get_sticky_aware_is_experiment_active(
        curr_result.is_experiment_active,
        spec_store_data,
        sticky_value,
    );
    if options.user_persisted_values.is_none() || !is_experiment_active {
        return StickyDecision {
            result: curr_result,
            details: curr_details,
            action: StickyStorageAction::Delete { key: storage_key, config_name },
            used_sticky: false,
        };
    }
    match sticky_value {
        Some(found) => {
            if !layer_should_return_sticky_value(options, found, reeval) {
                return StickyDecision {
                    result: curr_result,
                    details: curr_details,
                    action: StickyStorageAction::Nothing,
                    used_sticky: false,
                };
            }
            let details = make_evaluation_details_from_sticky_value(found);
            let result = make_evaluation_result_from_sticky_value(curr_result, found);
            StickyDecision { result, details, action: StickyStorageAction::Nothing, used_sticky: true }
        },
        None => {
            if curr_result.is_experiment_active && curr_result.is_experiment_group {
                let value = make_sticky_value_from_evaluation_result(&curr_result, curr_details.lcut);
                return StickyDecision {
                    result: curr_result,
                    details: curr_details,
                    action: StickyStorageAction::Save { key: storage_key, config_name, value },
                    used_sticky: false,
                };
            }
            StickyDecision {
                result: curr_result,
                details: curr_details,
                action: StickyStorageAction::Nothing,
                used_sticky: false,
            }
        },
    }
}

/// `delete` of the named config under the key was called on the storage.
pub open spec fn storage_deleted<S: PersistentStorage>(storage: S, key: Seq<char>, name: Seq<char>) -> bool {
    exists|k: &str, n: &str|
        k@ == key && n@ == name && #[trigger] call_ensures(S::delete, (&storage, k, n), ())
}

/// `save` of the value for the named config under the key was called on the storage.
pub open spec fn storage_saved<S: PersistentStorage>(
    storage: S,
    key: Seq<char>,
    name: Seq<char>,
    value: StickyValues,
) -> bool {
    exists|k: &str, n: &str|
        k@ == key && n@ == name && #[trigger] call_ensures(S::save, (&storage, k, n, value), ())
}

/// The storage was asked for the action: a delete or a save of the named config under the
/// key (with the value, for a save); nothing is claimed for no action.
pub open spec fn storage_performed<S: PersistentStorage>(storage: S, action: StickyStorageAction) -> bool {
    match action {
        StickyStorageAction::Nothing => true,
        StickyStorageAction::Delete { key, config_name } => storage_deleted(storage, key@, config_name@),
        StickyStorageAction::Save { key, config_name, value } => storage_saved(
            storage,
            key@,
            config_name@,
            value,
        ),
    }
}

/// What the storage is asked for when a live experiment result is applied: with a target,
/// the persisted value is deleted when the caller passes no persisted values or the
/// experiment is inactive; a live result in an active experiment group with nothing
/// persisted for it is saved.
pub open spec fn raw_experiment_storage<S: PersistentStorage>(
    storage: S,
    unit_id: Option<Seq<char>>,
    options: ExperimentEvaluationOptions,
    curr_details: EvaluationDetails,
    curr_result: EvaluatorResult,
) -> bool {
    match raw_target(unit_id, curr_result) {
        None => true,
        Some((key, name)) => if options.user_persisted_values is None || !curr_result.is_experiment_active {
            storage_deleted(storage, key, name)
        } else if persisted_value(options.user_persisted_values, name) is None
            && curr_result.is_experiment_group {
            exists|v: StickyValues|
                is_sticky_from_result(v, curr_result, curr_details.lcut) && #[trigger] storage_saved(
                    storage,
                    key,
                    name,
                    v,
                )
        } else {
            true
        },
    }
}

/// What the storage is asked for when a live layer result is applied: as for experiments,
/// with the experiment's activity seen through the persisted value.
pub open spec fn raw_layer_storage<S: PersistentStorage>(
    storage: S,
    unit_id: Option<Seq<char>>,
    options: LayerEvaluationOptions,
    spec_store_data: SpecActivity,
    curr_details: EvaluationDetails,
    curr_result: EvaluatorResult,
) -> bool {
    match raw_target(unit_id, curr_result) {
        None => true,
        Some((key, name)) => {
            let found = persisted_value(options.user_persisted_values, name);
            let active = spec_sticky_aware_is_experiment_active(
                curr_result.is_experiment_active,
                spec_store_data.dynamic_configs@,
                found,
            );
            if options.user_persisted_values is None || !active {
                storage_deleted(storage, key, name)
            } else if found is None && curr_result.is_experiment_active
                && curr_result.is_experiment_group {
                exists|v: StickyValues|
                    is_sticky_from_result(v, curr_result, curr_details.lcut) && #[trigger] storage_saved(
                        storage,
                        key,
                        name,
                        v,
                    )
            } else {
                true
            }
        },
    }
}

/// Applies users' persisted values to evaluations, reading and writing them through a
/// storage.
pub struct PersistentValuesManager<S: PersistentStorage> {
    pub persistent_storage: S,
}

impl<S: PersistentStorage> PersistentValuesManager<S> {
    /// Carries out a storage action.
    pub fn perform(&self, action: StickyStorageAction)
        ensures
            storage_performed(self.persistent_storage, action),
    {
        match action {
            StickyStorageAction::Nothing => {},
            StickyStorageAction::Delete { key, config_name } => {
                let delete = S::delete;
                let k = key.as_str();
                let n = config_name.as_str();
                delete(&self.persistent_storage, k, n);
            },
            StickyStorageAction::Save { key, config_name, value } => {
                let save = S::save;
                let k = key.as_str();
                let n = config_name.as_str();
                save(&self.persistent_storage, k, n, value);
            },
        }
    }

    /// Applies the persisted value to a live experiment result and stores what the decision
    /// asks for.
    pub fn try_apply_sticky_value_to_raw_experiment_impl<F: Fn(&str, &SpecType, StickyRuleFilter) -> bool>(
        &self,
        unit_id: Option<&str>,
        options: &ExperimentEvaluationOptions,
        curr_details: EvaluationDetails,
        curr_result: EvaluatorResult,
        reeval: &F,
    ) -> (r: (EvaluatorResult, EvaluationDetails))
        requires
            reeval_callable(*reeval),
        ensures
            raw_experiment_outcome(
                opt_str_view(unit_id),
                *options,
                curr_details,
                curr_result,
                *reeval,
                r.0,
                r.1,
            ),
            raw_experiment_storage(
                self.persistent_storage,
                opt_str_view(unit_id),
                *options,
                curr_details,
                curr_result,
            ),
    {
        let d = decide_raw_experiment(unit_id, options, curr_details, curr_result, reeval);
        let StickyDecision { result, details, action, used_sticky: _ } = d;
        self.perform(action);
        (result, details)
    }

    /// Applies the persisted value to a live layer result and stores what the decision asks
    /// for.
    pub fn try_apply_sticky_value_to_raw_layer_impl<F: Fn(&str, &SpecType, StickyRuleFilter) -> bool>(
        &self,
        unit_id: Option<&str>,
        options: &LayerEvaluationOptions,
        spec_store_data: &SpecActivity,
        curr_details: EvaluationDetails,
        curr_result: EvaluatorResult,
        reeval: &F,
    ) -> (r: (EvaluatorResult, EvaluationDetails))
        requires
            reeval_callable(*reeval),
        ensures
            raw_layer_outcome(
                opt_str_view(unit_id),
                *options,
                *spec_store_data,
                curr_details,
                curr_result,
                *reeval,
                r.0,
                r.1,
            ),
            raw_layer_storage(
                self.persistent_storage,
                opt_str_view(unit_id),
                *options,
                *spec_store_data,
                curr_details,
                curr_result,
            ),
    {
        let d = decide_raw_layer(unit_id, options, spec_store_data, curr_details, curr_result, reeval);
        let StickyDecision { result, details, action, used_sticky: _ } = d;
        self.perform(action);
        (result, details)
    }

    /// Applies persisted values to an optional live experiment result, when there is a
    /// manager.
    pub fn try_apply_sticky_value_to_raw_experiment<F: Fn(&str, &SpecType, StickyRuleFilter) -> bool>(
        manager: &Option<Self>,
        unit_id: Option<&str>,
        options: &ExperimentEvaluationOptions,
        details: EvaluationDetails,
        result: Option<EvaluatorResult>,
        reeval: &F,
    ) -> (r: (Option<EvaluatorResult>, EvaluationDetails))
        requires
            reeval_callable(*reeval),
        ensures
            manager is None ==> r.0 == result && r.1 == details,
            result is None ==> r.0 is None && r.1 == details,
            manager is Some && result is Some ==> (r.0 matches Some(x) && raw_experiment_outcome(
                opt_str_view(unit_id),
                *options,
                details,
                result->0,
                *reeval,
                x,
                r.1,
            )),
            manager matches Some(m) ==> result is Some ==> raw_experiment_storage(
                m.persistent_storage,
                opt_str_view(unit_id),
                *options,
                details,
                result->0,
            ),
    {
        let m = match manager {
            Some(m) => m,
            None => return (result, details),
        };
        let res = match result {
            Some(res) => res,
            None => return (None, details),
        };
        let (res, details) = m.try_apply_sticky_value_to_raw_experiment_impl(
            unit_id,
            options,
            details,
            res,
            reeval,
        );
        (Some(res), details)
    }

    /// Applies persisted values to an optional live layer result, when there is a manager.
    pub fn try_apply_sticky_value_to_raw_layer<F: Fn(&str, &SpecType, StickyRuleFilter) -> bool>(
        manager: &Option<Self>,
        unit_id: Option<&str>,
        options: &LayerEvaluationOptions,
        spec_store_data: &SpecActivity,
        details: EvaluationDetails,
        result: Option<EvaluatorResult>,
        reeval: &F,
    ) -> (r: (Option<EvaluatorResult>, EvaluationDetails))
        requires
            reeval_callable(*reeval),
        ensures
            manager is None ==> r.0 == result && r.1 == details,
            result is None ==> r.0 is None && r.1 == details,
            manager is Some && result is Some ==> (r.0 matches Some(x) && raw_layer_outcome(
                opt_str_view(unit_id),
                *options,
                *spec_store_data,
                details,
                result->0,
                *reeval,
                x,
                r.1,
            )),
            manager matches Some(m) ==> result is Some ==> raw_layer_storage(
                m.persistent_storage,
                opt_str_view(unit_id),
                *options,
                *spec_store_data,
                details,
                result->0,
            ),
    {
        let m = match manager {
            Some(m) => m,
            None => return (result, details),
        };
        let res = match result {
            Some(res) => res,
            None => return (None, details),
        };
        let (res, details) = m.try_apply_sticky_value_to_raw_layer_impl(
            unit_id,
            options,
            spec_store_data,
            details,
            res,
            reeval,
        );
        (Some(res), details)
    }
}

} // verus!
