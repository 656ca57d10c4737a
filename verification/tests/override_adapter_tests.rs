use statsig_rust::evaluation_types::{DynamicReturnable, EvaluatorResult};
use statsig_rust::override_adapter::{OverrideUser, RuleGroup, StatsigLocalOverrideAdapter};

fn blank_result() -> EvaluatorResult {
    EvaluatorResult {
        name: Some("cfg".to_string()),
        id_type: None,
        bool_value: false,
        rule_id: Some("rule".to_string()),
        group_name: None,
        json_value: None,
        version: None,
        config_delegate: None,
        explicit_parameters: None,
        secondary_exposures: vec![],
        undelegated_secondary_exposures: None,
        is_experiment_active: false,
        is_experiment_group: false,
        unsupported: false,
        is_in_layer: false,
        rule_id_suffix: None,
        override_reason: None,
        sampling_rate: None,
        forward_all_exposures: None,
        override_config_name: None,
        has_seen_analytical_gates: None,
    }
}

fn user(id: Option<&str>, custom: Vec<Option<&str>>) -> OverrideUser {
    OverrideUser {
        user_id: id.map(|s| s.to_string()),
        custom_ids: custom.into_iter().map(|c| c.map(|s| s.to_string())).collect(),
    }
}

fn json(s: &str) -> DynamicReturnable {
    DynamicReturnable { json: Some(s.to_string()) }
}

#[test]
fn gate_override_is_read_back_for_its_user() {
    let mut adapter = StatsigLocalOverrideAdapter::new();
    adapter.override_gate("g", true, Some("u1"));
    let mut result = blank_result();
    assert!(adapter.get_gate_override(&user(Some("u1"), vec![]), "g", &mut result));
    assert!(result.bool_value);
    assert_eq!(result.override_reason.as_deref(), Some("LocalOverride"));
    assert_eq!(result.rule_id.as_deref(), Some("override"));

    let mut other = blank_result();
    assert!(!adapter.get_gate_override(&user(Some("u2"), vec![]), "g", &mut other));
    assert_eq!(other.rule_id.as_deref(), Some("rule"));
    assert!(!adapter.get_gate_override(&user(Some("u1"), vec![]), "h", &mut other));
}

#[test]
fn user_id_beats_custom_id_beats_default() {
    let mut adapter = StatsigLocalOverrideAdapter::new();
    adapter.override_gate("g", false, None);
    adapter.override_gate("g", true, Some("company"));
    let mut r = blank_result();
    assert!(adapter.get_gate_override(&user(Some("nobody"), vec![None, Some("company")]), "g", &mut r));
    assert!(r.bool_value);
    let mut r = blank_result();
    r.bool_value = true;
    assert!(adapter.get_gate_override(&user(Some("nobody"), vec![]), "g", &mut r));
    assert!(!r.bool_value);
    adapter.override_gate("g", false, Some("me"));
    let mut r = blank_result();
    assert!(adapter.get_gate_override(&user(Some("me"), vec![Some("company")]), "g", &mut r));
    assert!(!r.bool_value);
}

#[test]
fn removing_an_id_override_keeps_the_others() {
    let mut adapter = StatsigLocalOverrideAdapter::new();
    adapter.override_dynamic_config("c", json("{\"a\":1}"), Some("u1"));
    adapter.override_dynamic_config("c", json("{\"a\":2}"), None);
    adapter.remove_dynamic_config_override("c", Some("u1"));
    let mut r = blank_result();
    assert!(adapter.get_dynamic_config_override(&user(Some("u1"), vec![]), "c", &mut r));
    assert_eq!(r.json_value.unwrap().json.as_deref(), Some("{\"a\":2}"));
    adapter.remove_dynamic_config_override("c", None);
    let mut r = blank_result();
    assert!(!adapter.get_dynamic_config_override(&user(Some("u1"), vec![]), "c", &mut r));
}

#[test]
fn experiment_group_override_uses_the_group_value() {
    let mut adapter = StatsigLocalOverrideAdapter::new();
    adapter.override_experiment_by_group_name("exp", "Test", Some("u1"));
    let rules = vec![
        RuleGroup { group_name: Some("Control".to_string()), return_value: json("{\"v\":0}") },
        RuleGroup { group_name: Some("Test".to_string()), return_value: json("{\"v\":1}") },
    ];
    let mut r = blank_result();
    assert!(adapter.get_experiment_override(&user(Some("u1"), vec![]), "exp", &mut r, Some(&rules)));
    assert_eq!(r.json_value.unwrap().json.as_deref(), Some("{\"v\":1}"));
    let mut r = blank_result();
    r.json_value = Some(json("{\"v\":9}"));
    assert!(adapter.get_experiment_override(&user(Some("u1"), vec![]), "exp", &mut r, None));
    assert!(r.json_value.is_none());
}

#[test]
fn layer_and_all_overrides_can_be_removed() {
    let mut adapter = StatsigLocalOverrideAdapter::new();
    adapter.override_layer("l", json("{}"), None);
    adapter.override_experiment("e", json("{\"x\":true}"), None);
    let mut r = blank_result();
    assert!(adapter.get_layer_override(&user(None, vec![]), "l", &mut r));
    adapter.remove_layer_override("l", None);
    let mut r = blank_result();
    assert!(!adapter.get_layer_override(&user(None, vec![]), "l", &mut r));
    let mut r = blank_result();
    assert!(adapter.get_experiment_override(&user(None, vec![]), "e", &mut r, None));
    adapter.remove_experiment_override("e", Some("someone"));
    let mut r = blank_result();
    assert!(adapter.get_experiment_override(&user(None, vec![]), "e", &mut r, None));
    adapter.override_gate("g", true, None);
    adapter.remove_all_overrides();
    let mut r = blank_result();
    assert!(!adapter.get_gate_override(&user(None, vec![]), "g", &mut r));
    assert!(!adapter.get_experiment_override(&user(None, vec![]), "e", &mut r, None));
    adapter.override_gate("g", true, None);
    adapter.remove_gate_override("g", None);
    assert!(!adapter.get_gate_override(&user(None, vec![]), "g", &mut r));
}
