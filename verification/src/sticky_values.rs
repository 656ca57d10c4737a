use vstd::prelude::*;
use vstd::string::StringExecFns;

use crate::evaluation_options::{ExperimentEvaluationOptions, LayerEvaluationOptions};
use crate::evaluation_types::{
    copy_exposures, copy_opt_exposures, copy_opt_info, copy_opt_params, copy_opt_string,
    opt_param_names, DynamicReturnable, EvaluationDetails, Experiment,
    ExperimentEvaluation, ExtraExposureInfo, Layer, LayerEvaluation,
};
use crate::explicit_params::{names_view, ExplicitParameters};
use crate::persistent_storage::{
    action_targets, storage_deleted, storage_saved, enforced_choice, find_persisted_value, get_persistent_storage_key,
    get_sticky_aware_is_experiment_active, is_sticky_details, layer_enforced_choice,
    layer_should_return_sticky_value, opt_str_view, persisted_value, reeval_callable,
    should_return_sticky_value, spec_persistent_storage_key, spec_sticky_aware_is_experiment_active,
    PersistentStorage, PersistentValuesManager, SpecActivity, SpecType, StickyRuleFilter,
    StickyStorageAction, StickyValues,
};
use crate::clock::now_millis;

verus! {

/// The config version recorded in exposure data.
pub open spec fn spec_config_version(info: Option<ExtraExposureInfo>) -> Option<u32> {
    match info {
        Some(i) => i.version,
        None => None,
    }
}

/// The config version recorded in exposure data.
pub fn extract_config_version(info: &Option<ExtraExposureInfo>) -> (r: Option<u32>)
    ensures
        r == spec_config_version(*info),
{
    match info {
        Some(i) => i.version,
        None => None,
    }
}

/// `v` is what is persisted for an experiment read with evaluation `e`.
pub open spec fn is_sticky_from_experiment(v: StickyValues, e: ExperimentEvaluation, lcut: Option<u64>) -> bool {
    &&& v.value
    &&& v.json_value == Some(e.value)
    &&& v.rule_id == Some(e.rule_id)
    &&& v.group_name == e.group_name
    &&& v.secondary_exposures@ == e.secondary_exposures@
    &&& (v.undelegated_secondary_exposures is Some) == (e.undelegated_secondary_exposures is Some)
    &&& v.undelegated_secondary_exposures matches Some(u) ==> u@
        == e.undelegated_secondary_exposures->0@
    &&& v.config_delegate is None
    &&& opt_param_names(v.explicit_parameters) == opt_param_names(e.explicit_parameters)
    &&& v.time == lcut
    &&& v.config_version == spec_config_version(e.exposure_info)
}

/// What to persist for an experiment read; nothing without its evaluation.
pub fn make_sticky_value_from_experiment(experiment: &Experiment) -> (r: Option<StickyValues>)
    ensures
        r is None <==> experiment.__evaluation is None,
        r matches Some(v) ==> is_sticky_from_experiment(
            v,
            experiment.__evaluation->0,
            experiment.details.lcut,
        ),
{
    let evaluation = match &experiment.__evaluation {
        Some(e) => e,
        None => return None,
    };
    Some(
        StickyValues {
            value: true,
            json_value: Some(evaluation.value.copy_value()),
            rule_id: Some(evaluation.rule_id.clone()),
            group_name: copy_opt_string(&evaluation.group_name),
            secondary_exposures: copy_exposures(&evaluation.secondary_exposures),
            undelegated_secondary_exposures: copy_opt_exposures(
                &evaluation.undelegated_secondary_exposures,
            ),
            config_delegate: None,
            explicit_parameters: copy_opt_params(&evaluation.explicit_parameters),
            time: experiment.details.lcut,
            config_version: extract_config_version(&evaluation.exposure_info),
        },
    )
}

/// `v` is what is persisted for a layer read with evaluation `e`.
pub open spec fn is_sticky_from_layer(v: StickyValues, e: LayerEvaluation, lcut: Option<u64>) -> bool {
    &&& v.value
    &&& v.json_value == Some(e.value)
    &&& v.rule_id == Some(e.rule_id)
    &&& v.group_name == e.group_name
    &&& v.secondary_exposures@ == e.secondary_exposures@
    &&& (v.undelegated_secondary_exposures is Some) == (e.undelegated_secondary_exposures is Some)
    &&& v.undelegated_secondary_exposures matches Some(u) ==> u@
        == e.undelegated_secondary_exposures->0@
    &&& v.config_delegate == e.allocated_experiment_name
    &&& opt_param_names(v.explicit_parameters) == Some(e.explicit_parameters.names())
    &&& v.time == lcut
    &&& v.config_version == spec_config_version(e.exposure_info)
}

/// What to persist for a layer read; nothing without its evaluation.
pub fn make_sticky_value_from_layer(layer: &Layer) -> (r: Option<StickyValues>)
    ensures
        r is None <==> layer.__evaluation is None,
        r matches Some(v) ==> is_sticky_from_layer(v, layer.__evaluation->0, layer.details.lcut),
{
    let evaluation = match &layer.__evaluation {
        Some(e) => e,
        None => return None,
    };
    Some(
        StickyValues {
            value: true,
            json_value: Some(evaluation.value.copy_value()),
            rule_id: Some(evaluation.rule_id.clone()),
            group_name: copy_opt_string(&evaluation.group_name),
            secondary_exposures: copy_exposures(&evaluation.secondary_exposures),
            undelegated_secondary_exposures: copy_opt_exposures(
                &evaluation.undelegated_secondary_exposures,
            ),
            config_delegate: copy_opt_string(&evaluation.allocated_experiment_name),
            explicit_parameters: Some(evaluation.explicit_parameters.copy_params()),
            time: layer.details.lcut,
            config_version: extract_config_version(&evaluation.exposure_info),
        },
    )
}

/// The rule of a persisted value as text (empty when it has none).
pub open spec fn sticky_rule_text(s: StickyValues) -> Seq<char> {
    match s.rule_id {
        Some(r) => r@,
        None => Seq::empty(),
    }
}

/// The rule of a persisted value as text.
fn prep_sticky_rule_id(sticky_value: &StickyValues) -> (r: String)
    ensures
        r@ == sticky_rule_text(*sticky_value),
{
    match &sticky_value.rule_id {
        Some(rule_id) => rule_id.clone(),
        None => String::new(),
    }
}

/// The JSON object text of an optional value.
pub open spec fn json_of(v: Option<DynamicReturnable>) -> Option<String> {
    match v {
        Some(d) => d.json,
        None => None,
    }
}

/// `e` is the experiment evaluation rebuilt from a persisted value.
pub open spec fn is_sticky_experiment_evaluation(e: ExperimentEvaluation, curr: Experiment, s: StickyValues) -> bool {
    &&& e.name == curr.name
    &&& e.id_type == Some(curr.id_type)
    &&& e.rule_id@ == sticky_rule_text(s)
    &&& e.secondary_exposures@ == s.secondary_exposures@
    &&& e.exposure_info == (match curr.__evaluation {
        Some(ev) => ev.exposure_info,
        None => None,
    })
    &&& e.value.json == json_of(s.json_value)
    &&& opt_param_names(e.explicit_parameters) == opt_param_names(s.explicit_parameters)
    &&& e.group_name == s.group_name
    &&& e.is_device_based == (match curr.__evaluation {
        Some(ev) => ev.is_device_based,
        None => false,
    })
    &&& e.is_in_layer == (match curr.__evaluation {
        Some(ev) => ev.is_in_layer,
        None => false,
    })
    &&& e.is_experiment_active == Some(true)
    &&& e.is_user_in_experiment == Some(true)
}

/// The experiment evaluation rebuilt from a persisted value.
fn sticky_value_to_experiment_evaluation(curr_experiment: &Experiment, sticky_value: &StickyValues) -> (r:
    ExperimentEvaluation)
    ensures
        is_sticky_experiment_evaluation(r, *curr_experiment, *sticky_value),
{
    let (is_device_based, is_in_layer, exposure_info) = match &curr_experiment.__evaluation {
        Some(e) => (e.is_device_based, e.is_in_layer, copy_opt_info(&e.exposure_info)),
        None => (false, false, None),
    };
    ExperimentEvaluation {
        name: curr_experiment.name.clone(),
        rule_id: prep_sticky_rule_id(sticky_value),
        secondary_exposures: copy_exposures(&sticky_value.secondary_exposures),
        exposure_info,
        id_type: Some(curr_experiment.id_type.clone()),
        value: match &sticky_value.json_value {
            Some(v) => v.copy_value(),
            None => DynamicReturnable::empty(),
        },
        explicit_parameters: copy_opt_params(&sticky_value.explicit_parameters),
        group_name: copy_opt_string(&sticky_value.group_name),
        undelegated_secondary_exposures: copy_opt_exposures(
            &sticky_value.undelegated_secondary_exposures,
        ),
        is_device_based,
        is_in_layer,
        is_experiment_active: Some(true),
        is_user_in_experiment: Some(true),
    }
}

/// `r` is the experiment rebuilt from a persisted value: name and ID type from the live one;
/// parameters, rule and group from the persisted value; persisted details; active.
pub open spec fn is_sticky_experiment(r: Experiment, curr: Experiment, s: StickyValues) -> bool {
    &&& r.name == curr.name
    &&& r.id_type == curr.id_type
    &&& r.value == json_of(s.json_value)
    &&& r.rule_id@ == sticky_rule_text(s)
    &&& r.group_name == s.group_name
    &&& is_sticky_details(r.details, s)
    &&& r.is_experiment_active
    &&& r.__evaluation matches Some(e) && is_sticky_experiment_evaluation(e, curr, s)
}

/// Details describing a persisted value.
fn sticky_details(sticky_value: &StickyValues) -> (r: EvaluationDetails)
    ensures
        is_sticky_details(r, *sticky_value),
{
    EvaluationDetails {
        reason: String::from_str("Persisted"),
        lcut: sticky_value.time,
        received_at: Some(now_millis()),
        version: sticky_value.config_version,
    }
}

/// The JSON object text of a persisted value.
fn sticky_json(sticky_value: &StickyValues) -> (r: Option<String>)
    ensures
        r == json_of(sticky_value.json_value),
{
    match &sticky_value.json_value {
        Some(v) => copy_opt_string(&v.json),
        None => None,
    }
}

/// The experiment rebuilt from a persisted value.
pub fn make_experiment_from_sticky_value(curr_experiment: Experiment, sticky_value: &StickyValues) -> (r:
    Experiment)
    ensures
        is_sticky_experiment(r, curr_experiment, *sticky_value),
{
    let details = sticky_details(sticky_value);
    let evaluation = sticky_value_to_experiment_evaluation(&curr_experiment, sticky_value);
    Experiment {
        name: curr_experiment.name,
        id_type: curr_experiment.id_type,
        value: sticky_json(sticky_value),
        rule_id: prep_sticky_rule_id(sticky_value),
        group_name: copy_opt_string(&sticky_value.group_name),
        details,
        is_experiment_active: true,
        __evaluation: Some(evaluation),
    }
}

/// The exposure data of a layer: that of its evaluation when it has some, else its own.
pub open spec fn spec_current_layer_exposure_info(l: Layer) -> Option<ExtraExposureInfo> {
    match l.__evaluation {
        Some(e) => match e.exposure_info {
            Some(i) => Some(i),
            None => l.__exposure_info,
        },
        None => l.__exposure_info,
    }
}

/// The exposure data of a layer.
pub fn get_current_layer_exposure_info(curr_layer: &Layer) -> (r: Option<ExtraExposureInfo>)
    ensures
        r == spec_current_layer_exposure_info(*curr_layer),
{
    match &curr_layer.__evaluation {
        Some(e) => match &e.exposure_info {
            Some(i) => Some(i.copy_info()),
            None => copy_opt_info(&curr_layer.__exposure_info),
        },
        None => copy_opt_info(&curr_layer.__exposure_info),
    }
}

/// The parameter names of optional explicit parameters, empty when absent.
pub open spec fn names_or_empty(o: Option<ExplicitParameters>) -> Seq<Seq<char>> {
    match o {
        Some(p) => p.names(),
        None => Seq::empty(),
    }
}

/// `e` is the layer evaluation rebuilt from a persisted value.
pub open spec fn is_sticky_layer_evaluation(e: LayerEvaluation, curr: Layer, s: StickyValues) -> bool {
    &&& e.name == curr.name
    &&& e.id_type == Some(curr.id_type)
    &&& e.rule_id@ == sticky_rule_text(s)
    &&& e.secondary_exposures@ == s.secondary_exposures@
    &&& e.exposure_info == spec_current_layer_exposure_info(curr)
    &&& e.value.json == json_of(s.json_value)
    &&& e.explicit_parameters.names() == names_or_empty(s.explicit_parameters)
    &&& e.group_name == s.group_name
    &&& e.allocated_experiment_name == s.config_delegate
    &&& e.is_device_based == (match curr.__evaluation {
        Some(ev) => ev.is_device_based,
        None => false,
    })
    &&& e.is_experiment_active == Some(true)
    &&& e.is_user_in_experiment == Some(true)
}

/// The layer evaluation rebuilt from a persisted value.
fn sticky_value_to_layer_evaluation(curr_layer: &Layer, sticky_value: &StickyValues) -> (r: LayerEvaluation)
    ensures
        is_sticky_layer_evaluation(r, *curr_layer, *sticky_value),
{
    let is_device_based = match &curr_layer.__evaluation {
        Some(e) => e.is_device_based,
        None => false,
    };
    let explicit_parameters = match &sticky_value.explicit_parameters {
        Some(p) => p.copy_params(),
        None => {
            let p = ExplicitParameters::from_vec(Vec::new());
            assert(names_view(Seq::<String>::empty()) =~= Seq::<Seq<char>>::empty());
            p
        },
    };
    LayerEvaluation {
        name: curr_layer.name.clone(),
        rule_id: prep_sticky_rule_id(sticky_value),
        secondary_exposures: copy_exposures(&sticky_value.secondary_exposures),
        exposure_info: get_current_layer_exposure_info(curr_layer),
        id_type: Some(curr_layer.id_type.clone()),
        value: match &sticky_value.json_value {
            Some(v) => v.copy_value(),
            None => DynamicReturnable::empty(),
        },
        explicit_parameters,
        group_name: copy_opt_string(&sticky_value.group_name),
        undelegated_secondary_exposures: copy_opt_exposures(
            &sticky_value.undelegated_secondary_exposures,
        ),
        allocated_experiment_name: copy_opt_string(&sticky_value.config_delegate),
        is_device_based,
        is_experiment_active: Some(true),
        is_user_in_experiment: Some(true),
    }
}

/// `r` is the layer rebuilt from a persisted value.
pub open spec fn is_sticky_layer(r: Layer, curr: Layer, s: StickyValues) -> bool {
    &&& r.name == curr.name
    &&& r.id_type == curr.id_type
    &&& r.__disable_exposure == curr.__disable_exposure
    &&& r.rule_id@ == sticky_rule_text(s)
    &&& r.group_name == s.group_name
    &&& r.allocated_experiment_name == s.config_delegate
    &&& r.__version == s.config_version
    &&& r.__exposure_info == spec_current_layer_exposure_info(curr)
    &&& is_sticky_details(r.details, s)
    &&& r.is_experiment_active
    &&& r.__value == json_of(s.json_value)
    &&& r.__evaluation matches Some(e) && is_sticky_layer_evaluation(e, curr, s)
}

/// The layer rebuilt from a persisted value.
pub fn make_layer_from_sticky_value(curr_layer: Layer, sticky_value: &StickyValues) -> (r: Layer)
    ensures
        is_sticky_layer(r, curr_layer, *sticky_value),
{
    let details = sticky_details(sticky_value);
    let evaluation = sticky_value_to_layer_evaluation(&curr_layer, sticky_value);
    let exposure_info = get_current_layer_exposure_info(&curr_layer);
    Layer {
        name: curr_layer.name,
        id_type: curr_layer.id_type,
        __disable_exposure: curr_layer.__disable_exposure,
        rule_id: prep_sticky_rule_id(sticky_value),
        group_name: copy_opt_string(&sticky_value.group_name),
        allocated_experiment_name: copy_opt_string(&sticky_value.config_delegate),
        __version: sticky_value.config_version,
        __exposure_info: exposure_info,
        details,
        is_experiment_active: true,
        __value: sticky_json(sticky_value),
        __evaluation: Some(evaluation),
    }
}

/// Whether the evaluation says the user is in the experiment (`false` when unknown).
pub open spec fn experiment_user_in(e: Option<ExperimentEvaluation>) -> bool {
    match e {
        Some(ev) => ev.is_user_in_experiment == Some(true),
        None => false,
    }
}

/// Whether the layer evaluation says the user is in its experiment (`false` when unknown).
pub open spec fn layer_user_in(e: Option<LayerEvaluation>) -> bool {
    match e {
        Some(ev) => ev.is_user_in_experiment == Some(true),
        None => false,
    }
}

/// Applies the user's persisted value to an experiment read, returning the experiment to
/// report, the storage action and whether the persisted value was used. Without a unit
/// nothing happens; without persisted values or when inactive, the persisted value is
/// deleted; a persisted value is used unless enforced targeting or overrides say the live
/// read wins; otherwise a live read of a user in the active experiment is persisted.
pub fn decide_experiment<F: Fn(&str, &SpecType, StickyRuleFilter) -> bool>(
    unit_id: Option<&str>,
    options: &ExperimentEvaluationOptions,
    curr_experiment: Experiment,
    reeval: &F,
) -> (r: (Experiment, StickyStorageAction, bool))
    requires
        reeval_callable(*reeval),
    ensures
        spec_persistent_storage_key(opt_str_view(unit_id), curr_experiment.id_type@) is None
            ==> r.0 == curr_experiment && r.1 is Nothing && !r.2,
        spec_persistent_storage_key(opt_str_view(unit_id), curr_experiment.id_type@) is Some ==> {
            let name = curr_experiment.name@;
            let found = persisted_value(options.user_persisted_values, name);
            &&& action_targets(
                r.1,
                spec_persistent_storage_key(opt_str_view(unit_id), curr_experiment.id_type@)->0,
                name,
            )
            &&& (options.user_persisted_values is None || !curr_experiment.is_experiment_active)
                ==> r.0 == curr_experiment && !r.2 && (r.1 matches StickyStorageAction::Delete {
                key: k,
                config_name: n,
            } && Some(k@) == spec_persistent_storage_key(
                opt_str_view(unit_id),
                curr_experiment.id_type@,
            ) && n@ == name)
            &&& (options.user_persisted_values is Some && curr_experiment.is_experiment_active
                && found is Some) ==> {
                &&& r.1 is Nothing
                &&& r.2 ==> is_sticky_experiment(r.0, curr_experiment, found->0)
                &&& !r.2 ==> r.0 == curr_experiment
                &&& enforced_choice(r.2, options.enforce_overrides, options.enforce_targeting, *reeval, name)
            }
            &&& (options.user_persisted_values is Some && curr_experiment.is_experiment_active
                && found is None) ==> {
                &&& r.0 == curr_experiment && !r.2
                &&& (experiment_user_in(curr_experiment.__evaluation) && curr_experiment.__evaluation is Some)
                    ==> (r.1 matches StickyStorageAction::Save { key: _, config_name: n, value: v }
                    && n@ == name && is_sticky_from_experiment(
                    v,
                    curr_experiment.__evaluation->0,
                    curr_experiment.details.lcut,
                ))
                &&& !experiment_user_in(curr_experiment.__evaluation) ==> r.1 is Nothing
            }
        },
{
    let storage_key = match get_persistent_storage_key(unit_id, curr_experiment.id_type.as_str()) {
        Some(k) => k,
        None => return (curr_experiment, StickyStorageAction::Nothing, false),
    };
    let config_name = curr_experiment.name.clone();
    if options.user_persisted_values.is_none() || !curr_experiment.is_experiment_active {
        return (curr_experiment, StickyStorageAction::Delete { key: storage_key, config_name }, false);
    }
    match find_persisted_value(&options.user_persisted_values, config_name.as_str()) {
        Some(found) => {
            let keep_sticky = !(options.enforce_overrides || options.enforce_targeting)
                || should_return_sticky_value(
                options.enforce_overrides,
                options.enforce_targeting,
                config_name.as_str(),
                reeval,
            );
            if keep_sticky {
                return (
                    make_experiment_from_sticky_value(curr_experiment, found),
                    StickyStorageAction::Nothing,
                    true,
                );
            }
            (curr_experiment, StickyStorageAction::Nothing, false)
        },
        None => {
            let is_in_experiment = match &curr_experiment.__evaluation {
                Some(e) => e.is_user_in_experiment == Some(true),
                None => false,
            };
            if is_in_experiment {
                match make_sticky_value_from_experiment(&curr_experiment) {
                    Some(value) => {
                        return (
                            curr_experiment,
                            StickyStorageAction::Save { key: storage_key, config_name, value },
                            false,
                        );
                    },
                    None => {},
                }
            }
            (curr_experiment, StickyStorageAction::Nothing, false)
        },
    }
}

/// Applies the user's persisted value to a layer read, as for experiments, with the
/// experiment's activity seen through the persisted value and its allocated experiment
/// re-evaluated for enforcement.
pub fn decide_layer<F: Fn(&str, &SpecType, StickyRuleFilter) -> bool>(
    unit_id: Option<&str>,
    options: &LayerEvaluationOptions,
    spec_store_data: &SpecActivity,
    curr_layer: Layer,
    reeval: &F,
) -> (r: (Layer, StickyStorageAction, bool))
    requires
        reeval_callable(*reeval),
    ensures
        spec_persistent_storage_key(opt_str_view(unit_id), curr_layer.id_type@) is None ==> r.0
            == curr_layer && r.1 is Nothing && !r.2,
        spec_persistent_storage_key(opt_str_view(unit_id), curr_layer.id_type@) is Some ==> {
            let name = curr_layer.name@;
            let found = persisted_value(options.user_persisted_values, name);
            let active = spec_sticky_aware_is_experiment_active(
                curr_layer.is_experiment_active,
                spec_store_data.dynamic_configs@,
                found,
            );
            &&& action_targets(
                r.1,
                spec_persistent_storage_key(opt_str_view(unit_id), curr_layer.id_type@)->0,
                name,
            )
            &&& (options.user_persisted_values is None || !active) ==> r.0 == curr_layer && !r.2
                && (r.1 matches StickyStorageAction::Delete { key: k, config_name: n } && Some(k@)
                == spec_persistent_storage_key(opt_str_view(unit_id), curr_layer.id_type@) && n@
                == name)
            &&& (options.user_persisted_values is Some && active && found is Some) ==> {
                &&& r.1 is Nothing
                &&& r.2 ==> is_sticky_layer(r.0, curr_layer, found->0)
                &&& !r.2 ==> r.0 == curr_layer
                &&& layer_enforced_choice(
                    r.2,
                    options.enforce_overrides,
                    options.enforce_targeting,
                    found->0.config_delegate,
                    *reeval,
                )
            }
            &&& (options.user_persisted_values is Some && active && found is None) ==> {
                &&& r.0 == curr_layer && !r.2
                &&& (layer_user_in(curr_layer.__evaluation)) ==> (r.1 matches StickyStorageAction::Save {
                    key: _,
                    config_name: n,
                    value: v,
                } && n@ == name && is_sticky_from_layer(
                    v,
                    curr_layer.__evaluation->0,
                    curr_layer.details.lcut,
                ))
                &&& !layer_user_in(curr_layer.__evaluation) ==> r.1 is Nothing
            }
        },
{
    let storage_key = match get_persistent_storage_key(unit_id, curr_layer.id_type.as_str()) {
        Some(k) => k,
        None => return (curr_layer, StickyStorageAction::Nothing, false),
    };
    let config_name = curr_layer.name.clone();
    let sticky_value = find_persisted_value(&options.user_persisted_values, config_name.as_str());
    let is_experiment_active = get_sticky_aware_is_experiment_active(
        curr_layer.is_experiment_active,
        spec_store_data,
        sticky_value,
    );
    if options.user_persisted_values.is_none() || !is_experiment_active {
        return (curr_layer, StickyStorageAction::Delete { key: storage_key, config_name }, false);
    }
    match sticky_value {
        Some(found) => {
            if !layer_should_return_sticky_value(options, found, reeval) {
                return (curr_layer, StickyStorageAction::Nothing, false);
            }
            (make_layer_from_sticky_value(curr_layer, found), StickyStorageAction::Nothing, true)
        },
        None => {
            let is_in_experiment = match &curr_layer.__evaluation {
                Some(e) => e.is_user_in_experiment == Some(true),
                None => false,
            };
            if is_in_experiment && is_experiment_active {
                match make_sticky_value_from_layer(&curr_layer) {
                    Some(value) => {
                        return (
                            curr_layer,
                            StickyStorageAction::Save { key: storage_key, config_name, value },
                            false,
                        );
                    },
                    None => {},
                }
            }
            (curr_layer, StickyStorageAction::Nothing, false)
        },
    }
}

/// The persisted value an experiment read may be replaced by: the one stored for the
/// experiment, when the user has a unit, persisted values are given and the experiment is
/// active; `None` otherwise (the read is then reported as it is).
pub open spec fn experiment_sticky_candidate(
    unit_id: Option<&str>,
    options: ExperimentEvaluationOptions,
    curr: Experiment,
) -> Option<StickyValues> {
    if spec_persistent_storage_key(opt_str_view(unit_id), curr.id_type@) is Some
        && options.user_persisted_values is Some && curr.is_experiment_active {
        persisted_value(options.user_persisted_values, curr.name@)
    } else {
        None
    }
}

/// What an experiment read becomes: kept without a candidate; otherwise the persisted value
/// when it is kept and the read as it is when it is dropped, as the enforced re-evaluations
/// of the experiment allow.
pub open spec fn experiment_sticky_result<F: Fn(&str, &SpecType, StickyRuleFilter) -> bool>(
    r: Experiment,
    unit_id: Option<&str>,
    options: ExperimentEvaluationOptions,
    curr: Experiment,
    reeval: F,
) -> bool {
    match experiment_sticky_candidate(unit_id, options, curr) {
        None => r == curr,
        Some(s) => {
            ||| enforced_choice(true, options.enforce_overrides, options.enforce_targeting, reeval, curr.name@)
                && is_sticky_experiment(r, curr, s)
            ||| enforced_choice(false, options.enforce_overrides, options.enforce_targeting, reeval, curr.name@)
                && r == curr
        },
    }
}

/// The persisted value a layer read may be replaced by: the one stored for the layer, when
/// the user has a unit, persisted values are given and the experiment is active as seen
/// through that value; `None` otherwise.
pub open spec fn layer_sticky_candidate(
    unit_id: Option<&str>,
    options: LayerEvaluationOptions,
    spec_store_data: SpecActivity,
    curr: Layer,
) -> Option<StickyValues> {
    let found = persisted_value(options.user_persisted_values, curr.name@);
    if spec_persistent_storage_key(opt_str_view(unit_id), curr.id_type@) is Some
        && options.user_persisted_values is Some && spec_sticky_aware_is_experiment_active(
        curr.is_experiment_active,
        spec_store_data.dynamic_configs@,
        found,
    ) {
        found
    } else {
        None
    }
}

/// What a layer read becomes: kept without a candidate; otherwise the persisted value when
/// it is kept and the read as it is when it is dropped, as the enforced re-evaluations of the
/// experiment it was allocated to allow.
pub open spec fn layer_sticky_result<F: Fn(&str, &SpecType, StickyRuleFilter) -> bool>(
    r: Layer,
    unit_id: Option<&str>,
    options: LayerEvaluationOptions,
    spec_store_data: SpecActivity,
    curr: Layer,
    reeval: F,
) -> bool {
    match layer_sticky_candidate(unit_id, options, spec_store_data, curr) {
        None => r == curr,
        Some(s) => {
            ||| layer_enforced_choice(
                true,
                options.enforce_overrides,
                options.enforce_targeting,
                s.config_delegate,
                reeval,
            ) && is_sticky_layer(r, curr, s)
            ||| layer_enforced_choice(
                false,
                options.enforce_overrides,
                options.enforce_targeting,
                s.config_delegate,
                reeval,
            ) && r == curr
        },
    }
}

/// What the storage is asked for when an experiment read is applied: with a unit, the
/// persisted value is deleted when no persisted values are given or the experiment is
/// inactive; a read of a user in the experiment with nothing persisted for it is saved.
pub open spec fn experiment_storage<S: PersistentStorage>(
    storage: S,
    unit_id: Option<&str>,
    options: ExperimentEvaluationOptions,
    curr: Experiment,
) -> bool {
    match spec_persistent_storage_key(opt_str_view(unit_id), curr.id_type@) {
        None => true,
        Some(key) => if options.user_persisted_values is None || !curr.is_experiment_active {
            storage_deleted(storage, key, curr.name@)
        } else if persisted_value(options.user_persisted_values, curr.name@) is None
            && experiment_user_in(curr.__evaluation) {
            exists|v: StickyValues|
                is_sticky_from_experiment(v, curr.__evaluation->0, curr.details.lcut)
                    && #[trigger] storage_saved(storage, key, curr.name@, v)
        } else {
            true
        },
    }
}

/// What the storage is asked for when a layer read is applied: as for experiments, with
/// the experiment's activity seen through the persisted value.
pub open spec fn layer_storage<S: PersistentStorage>(
    storage: S,
    unit_id: Option<&str>,
    options: LayerEvaluationOptions,
    spec_store_data: SpecActivity,
    curr: Layer,
) -> bool {
    match spec_persistent_storage_key(opt_str_view(unit_id), curr.id_type@) {
        None => true,
        Some(key) => {
            let found = persisted_value(options.user_persisted_values, curr.name@);
            let active = spec_sticky_aware_is_experiment_active(
                curr.is_experiment_active,
                spec_store_data.dynamic_configs@,
                found,
            );
            if options.user_persisted_values is None || !active {
                storage_deleted(storage, key, curr.name@)
            } else if found is None && layer_user_in(curr.__evaluation) {
                exists|v: StickyValues|
                    is_sticky_from_layer(v, curr.__evaluation->0, curr.details.lcut)
                        && #[trigger] storage_saved(storage, key, curr.name@, v)
            } else {
                true
            }
        },
    }
}

impl<S: PersistentStorage> PersistentValuesManager<S> {
    /// Applies the user's persisted value to an experiment read and stores what the
    /// decision asks for.
    pub fn try_apply_sticky_value_to_experiment_impl<F: Fn(&str, &SpecType, StickyRuleFilter) -> bool>(
        &self,
        unit_id: Option<&str>,
        options: &ExperimentEvaluationOptions,
        curr_experiment: Experiment,
        reeval: &F,
    ) -> (r: Experiment)
        requires
            reeval_callable(*reeval),
        ensures
            experiment_sticky_result(
                r,
                unit_id,
                *options,
                curr_experiment,
                *reeval,
            ),
            experiment_storage(self.persistent_storage, unit_id, *options, curr_experiment),
    {
        let (experiment, action, _) = decide_experiment(unit_id, options, curr_experiment, reeval);
        self.perform(action);
        experiment
    }

    /// Applies the user's persisted value to a layer read and stores what the decision asks
    /// for.
    pub fn try_apply_sticky_value_to_layer_impl<F: Fn(&str, &SpecType, StickyRuleFilter) -> bool>(
        &self,
        unit_id: Option<&str>,
        options: &LayerEvaluationOptions,
        spec_store_data: &SpecActivity,
        curr_layer: Layer,
        reeval: &F,
    ) -> (r: Layer)
        requires
            reeval_callable(*reeval),
        ensures
            layer_sticky_result(r, unit_id, *options, *spec_store_data, curr_layer, *reeval),
            layer_storage(self.persistent_storage, unit_id, *options, *spec_store_data, curr_layer),
    {
        let (layer, action, _) = decide_layer(unit_id, options, spec_store_data, curr_layer, reeval);
        self.perform(action);
        layer
    }

    /// Applies persisted values to an experiment read, when there is a manager.
    pub fn try_apply_sticky_value_to_experiment<F: Fn(&str, &SpecType, StickyRuleFilter) -> bool>(
        manager: &Option<Self>,
        unit_id: Option<&str>,
        options: &ExperimentEvaluationOptions,
        curr_experiment: Experiment,
        reeval: &F,
    ) -> (r: Experiment)
        requires
            reeval_callable(*reeval),
        ensures
            manager is None ==> r == curr_experiment,
            manager is Some ==> experiment_sticky_result(
                r,
                unit_id,
                *options,
                curr_experiment,
                *reeval,
            ),
            manager matches Some(m) ==> experiment_storage(
                m.persistent_storage,
                unit_id,
                *options,
                curr_experiment,
            ),
    {
        match manager {
            None => curr_experiment,
            Some(m) => m.try_apply_sticky_value_to_experiment_impl(
                unit_id,
                options,
                curr_experiment,
                reeval,
            ),
        }
    }

    /// Applies persisted values to a layer read, when there is a manager.
    pub fn try_apply_sticky_value_to_layer<F: Fn(&str, &SpecType, StickyRuleFilter) -> bool>(
        manager: &Option<Self>,
        unit_id: Option<&str>,
        options: &LayerEvaluationOptions,
        spec_store_data: &SpecActivity,
        curr_layer: Layer,
        reeval: &F,
    ) -> (r: Layer)
        requires
            reeval_callable(*reeval),
        ensures
            manager is None ==> r == curr_layer,
            manager is Some ==> layer_sticky_result(r, unit_id, *options, *spec_store_data, curr_layer, *reeval),
            manager matches Some(m) ==> layer_storage(
                m.persistent_storage,
                unit_id,
                *options,
                *spec_store_data,
                curr_layer,
            ),
    {
        match manager {
            None => curr_layer,
            Some(m) => m.try_apply_sticky_value_to_layer_impl(
                unit_id,
                options,
                spec_store_data,
                curr_layer,
                reeval,
            ),
        }
    }
}

} // verus!
