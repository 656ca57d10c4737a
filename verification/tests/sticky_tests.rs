use statsig_rust::evaluation_options::{ExperimentEvaluationOptions, LayerEvaluationOptions};
use statsig_rust::evaluation_types::{
    DynamicReturnable, EvaluationDetails, EvaluatorResult, Experiment, ExperimentEvaluation,
};
use statsig_rust::evaluation_options::UserPersistedValues;
use statsig_rust::persistent_storage::{
    decide_raw_experiment, get_persistent_storage_key, layer_should_return_sticky_value,
    should_return_sticky_value, PersistentStorage, PersistentValuesManager, StickyRuleFilter,
    StickyStorageAction, StickyValues,
};
use std::cell::RefCell;

#[test]
fn test_no_enforcement_keeps_sticky() {
    let reeval = |_: &str, _: &_, _: StickyRuleFilter| panic!("should not re-evaluate");
    assert!(should_return_sticky_value(false, false, "exp", &reeval));
}

#[test]
fn test_enforce_overrides_override_matches_drops_sticky() {
    let reeval =
        |_: &str, _: &_, filter: StickyRuleFilter| filter == StickyRuleFilter::Overrides;
    assert!(!should_return_sticky_value(true, false, "exp", &reeval));
}

#[test]
fn test_enforce_overrides_no_override_keeps_sticky() {
    let reeval = |_: &str, _: &_, _: StickyRuleFilter| false;
    assert!(should_return_sticky_value(true, false, "exp", &reeval));
}

#[test]
fn test_enforce_targeting_not_targeted_drops_sticky() {
    let reeval =
        |_: &str, _: &_, filter: StickyRuleFilter| filter == StickyRuleFilter::Targeting;
    assert!(!should_return_sticky_value(false, true, "exp", &reeval));
}

#[test]
fn test_enforce_targeting_still_targeted_keeps_sticky() {
    let reeval = |_: &str, _: &_, _: StickyRuleFilter| false;
    assert!(should_return_sticky_value(false, true, "exp", &reeval));
}

#[test]
fn test_enforce_targeting_short_circuits_before_overrides() {
    let seen = RefCell::new(Vec::new());
    let reeval = |_: &str, _: &_, filter: StickyRuleFilter| {
        seen.borrow_mut().push(filter);
        filter == StickyRuleFilter::Targeting
    };
    assert!(!should_return_sticky_value(true, true, "exp", &reeval));
    assert_eq!(*seen.borrow(), vec![StickyRuleFilter::Targeting]);
}

#[test]
fn test_layer_without_delegate_keeps_sticky() {
    let options = LayerEvaluationOptions {
        enforce_overrides: true,
        enforce_targeting: true,
        ..Default::default()
    };
    let sticky = StickyValues {
        config_delegate: None,
        ..Default::default()
    };
    let reeval = |_: &str, _: &_, _: StickyRuleFilter| panic!("no delegate to re-evaluate");
    assert!(layer_should_return_sticky_value(&options, &sticky, &reeval));
}

#[test]
fn test_layer_with_delegate_defers_to_gate() {
    let options = LayerEvaluationOptions {
        enforce_overrides: true,
        ..Default::default()
    };
    let sticky = StickyValues {
        config_delegate: Some("allocated_experiment".to_string()),
        ..Default::default()
    };
    let seen = RefCell::new(None);
    let reeval = |name: &str, _: &_, _: StickyRuleFilter| {
        *seen.borrow_mut() = Some(name.to_string());
        true
    };
    assert!(!layer_should_return_sticky_value(&options, &sticky, &reeval));
    assert_eq!(seen.borrow().as_deref(), Some("allocated_experiment"));
}

fn live_result(active: bool, group: bool) -> EvaluatorResult {
    EvaluatorResult {
        name: Some("exp".to_string()),
        id_type: Some("userID".to_string()),
        bool_value: false,
        rule_id: Some("live_rule".to_string()),
        group_name: Some("control".to_string()),
        json_value: None,
        version: Some(3),
        config_delegate: None,
        explicit_parameters: None,
        secondary_exposures: vec![],
        undelegated_secondary_exposures: None,
        is_experiment_active: active,
        is_experiment_group: group,
        unsupported: false,
        is_in_layer: false,
        rule_id_suffix: None,
        override_reason: None,
        sampling_rate: Some(10),
        forward_all_exposures: None,
        override_config_name: None,
        has_seen_analytical_gates: None,
    }
}

fn details() -> EvaluationDetails {
    EvaluationDetails { reason: "Network".to_string(), lcut: Some(77), received_at: None, version: None }
}

#[test]
fn storage_key_joins_id_and_type() {
    assert_eq!(get_persistent_storage_key(Some("u1"), "userID"), Some("u1:userID".to_string()));
    assert_eq!(get_persistent_storage_key(None, "userID"), None);
}

#[test]
fn raw_experiment_uses_persisted_value() {
    let sticky = StickyValues {
        value: true,
        rule_id: Some("sticky_rule".to_string()),
        time: Some(5),
        config_version: Some(1),
        ..Default::default()
    };
    let options = ExperimentEvaluationOptions {
        user_persisted_values: Some(vec![("exp".to_string(), sticky)]),
        ..Default::default()
    };
    let reeval = |_: &str, _: &_, _: StickyRuleFilter| false;
    let d = decide_raw_experiment(Some("u1"), &options, details(), live_result(true, true), &reeval);
    assert!(d.used_sticky);
    assert_eq!(d.result.rule_id.as_deref(), Some("sticky_rule"));
    assert!(d.result.bool_value);
    assert_eq!(d.result.sampling_rate, Some(10));
    assert_eq!(d.details.reason, "Persisted");
    assert_eq!(d.details.lcut, Some(5));
    assert!(matches!(d.action, StickyStorageAction::Nothing));
}

#[test]
fn raw_experiment_saves_new_group_assignment() {
    let options = ExperimentEvaluationOptions {
        user_persisted_values: Some(vec![]),
        ..Default::default()
    };
    let reeval = |_: &str, _: &_, _: StickyRuleFilter| false;
    let d = decide_raw_experiment(Some("u1"), &options, details(), live_result(true, true), &reeval);
    assert!(!d.used_sticky);
    match d.action {
        StickyStorageAction::Save { key, config_name, value } => {
            assert_eq!(key, "u1:userID");
            assert_eq!(config_name, "exp");
            assert_eq!(value.rule_id.as_deref(), Some("live_rule"));
            assert_eq!(value.time, Some(77));
        }
        _ => panic!("expected save"),
    }
}

#[test]
fn raw_experiment_deletes_when_inactive_or_unrequested() {
    let reeval = |_: &str, _: &_, _: StickyRuleFilter| false;
    let options = ExperimentEvaluationOptions::default();
    let d = decide_raw_experiment(Some("u1"), &options, details(), live_result(true, true), &reeval);
    assert!(matches!(d.action, StickyStorageAction::Delete { .. }));
    let options = ExperimentEvaluationOptions {
        user_persisted_values: Some(vec![]),
        ..Default::default()
    };
    let d = decide_raw_experiment(Some("u1"), &options, details(), live_result(false, true), &reeval);
    assert!(matches!(d.action, StickyStorageAction::Delete { .. }));
    let d = decide_raw_experiment(None, &options, details(), live_result(true, true), &reeval);
    assert!(matches!(d.action, StickyStorageAction::Nothing));
}

/// A storage that records the calls it receives.
struct RecordingStorage {
    calls: RefCell<Vec<String>>,
}

impl PersistentStorage for RecordingStorage {
    fn load(&self, _key: String) -> Option<UserPersistedValues> {
        None
    }

    fn save(&self, key: &str, config_name: &str, _data: StickyValues) {
        self.calls.borrow_mut().push(format!("save {key} {config_name}"));
    }

    fn delete(&self, key: &str, config_name: &str) {
        self.calls.borrow_mut().push(format!("delete {key} {config_name}"));
    }
}

fn recording_manager() -> Option<PersistentValuesManager<RecordingStorage>> {
    Some(PersistentValuesManager { persistent_storage: RecordingStorage { calls: RefCell::new(vec![]) } })
}

fn calls(m: &Option<PersistentValuesManager<RecordingStorage>>) -> Vec<String> {
    m.as_ref().unwrap().persistent_storage.calls.borrow().clone()
}

#[test]
fn manager_deletes_once_without_persisted_values() {
    let m = recording_manager();
    let reeval = |_: &str, _: &_, _: StickyRuleFilter| false;
    let options = ExperimentEvaluationOptions::default();
    let (r, d) = PersistentValuesManager::try_apply_sticky_value_to_raw_experiment(
        &m,
        Some("u1"),
        &options,
        details(),
        Some(live_result(true, true)),
        &reeval,
    );
    assert_eq!(r.unwrap().rule_id.as_deref(), Some("live_rule"));
    assert_eq!(d.reason, "Network");
    assert_eq!(calls(&m), vec!["delete u1:userID exp".to_string()]);
}

#[test]
fn manager_saves_once_for_a_new_assignment() {
    let m = recording_manager();
    let reeval = |_: &str, _: &_, _: StickyRuleFilter| false;
    let options = ExperimentEvaluationOptions { user_persisted_values: Some(vec![]), ..Default::default() };
    let (r, _) = PersistentValuesManager::try_apply_sticky_value_to_raw_experiment(
        &m,
        Some("u1"),
        &options,
        details(),
        Some(live_result(true, true)),
        &reeval,
    );
    assert_eq!(r.unwrap().rule_id.as_deref(), Some("live_rule"));
    assert_eq!(calls(&m), vec!["save u1:userID exp".to_string()]);
}

#[test]
fn manager_enforced_targeting_drops_persisted_value_without_storage_calls() {
    let m = recording_manager();
    let sticky = StickyValues { value: true, rule_id: Some("sticky_rule".to_string()), ..Default::default() };
    let options = ExperimentEvaluationOptions {
        user_persisted_values: Some(vec![("exp".to_string(), sticky)]),
        enforce_targeting: true,
        ..Default::default()
    };
    let reeval = |_: &str, _: &_, f: StickyRuleFilter| f == StickyRuleFilter::Targeting;
    let (r, d) = PersistentValuesManager::try_apply_sticky_value_to_raw_experiment(
        &m,
        Some("u1"),
        &options,
        details(),
        Some(live_result(true, true)),
        &reeval,
    );
    assert_eq!(r.unwrap().rule_id.as_deref(), Some("live_rule"));
    assert_eq!(d.reason, "Network");
    assert!(calls(&m).is_empty());
    let keep = |_: &str, _: &_, _: StickyRuleFilter| false;
    let (r, d) = PersistentValuesManager::try_apply_sticky_value_to_raw_experiment(
        &m,
        Some("u1"),
        &options,
        details(),
        Some(live_result(true, true)),
        &keep,
    );
    assert_eq!(r.unwrap().rule_id.as_deref(), Some("sticky_rule"));
    assert_eq!(d.reason, "Persisted");
    assert!(calls(&m).is_empty());
}

fn live_experiment(in_experiment: bool) -> Experiment {
    Experiment {
        name: "exp".to_string(),
        rule_id: "live_rule".to_string(),
        id_type: "userID".to_string(),
        group_name: Some("control".to_string()),
        value: None,
        details: details(),
        is_experiment_active: true,
        __evaluation: Some(ExperimentEvaluation {
            name: "exp".to_string(),
            rule_id: "live_rule".to_string(),
            secondary_exposures: vec![],
            exposure_info: None,
            id_type: Some("userID".to_string()),
            value: DynamicReturnable { json: None },
            explicit_parameters: None,
            group_name: Some("control".to_string()),
            undelegated_secondary_exposures: None,
            is_device_based: false,
            is_in_layer: false,
            is_experiment_active: Some(true),
            is_user_in_experiment: Some(in_experiment),
        }),
    }
}

#[test]
fn experiment_saves_under_the_users_storage_key() {
    let m = recording_manager();
    let reeval = |_: &str, _: &_, _: StickyRuleFilter| false;
    let options = ExperimentEvaluationOptions { user_persisted_values: Some(vec![]), ..Default::default() };
    let r = PersistentValuesManager::try_apply_sticky_value_to_experiment(
        &m,
        Some("u1"),
        &options,
        live_experiment(true),
        &reeval,
    );
    assert_eq!(r.rule_id, "live_rule");
    assert_eq!(calls(&m), vec!["save u1:userID exp".to_string()]);
    let m = recording_manager();
    PersistentValuesManager::try_apply_sticky_value_to_experiment(
        &m,
        Some("u1"),
        &options,
        live_experiment(false),
        &reeval,
    );
    assert!(calls(&m).is_empty());
}
