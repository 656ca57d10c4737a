use vstd::prelude::*;

use crate::explicit_params::ExplicitParameters;

verus! {

/// Why and when an evaluation produced its value.
#[derive(Debug, Clone, PartialEq, Eq)]
pub struct EvaluationDetails {
    pub reason: String,
    pub lcut: Option<u64>,
    pub received_at: Option<u64>,
    pub version: Option<u32>,
}

/// A gate evaluated on the way to a result, reported with its exposure.
#[derive(Debug, Clone, PartialEq, Eq)]
pub struct SecondaryExposure {
    pub gate: String,
    pub gate_value: String,
    pub rule_id: String,
}

/// Extra exposure data attached to an evaluation.
#[derive(Debug, Clone, PartialEq, Eq)]
pub struct ExtraExposureInfo {
    pub sampling_rate: Option<u64>,
    pub forward_all_exposures: Option<bool>,
    pub has_seen_analytical_gates: Option<bool>,
    pub override_config_name: Option<String>,
    pub version: Option<u32>,
}

/// A copy of an optional string.
pub fn copy_opt_string(o: &Option<String>) -> (r: Option<String>)
    ensures
        r == *o,
{
    match o {
        None => None,
        Some(s) => Some(s.clone()),
    }
}

impl SecondaryExposure {
    /// A field-by-field copy.
    pub fn copy_exposure(&self) -> (r: Self)
        ensures
            r == *self,
    {
        SecondaryExposure {
            gate: self.gate.clone(),
            gate_value: self.gate_value.clone(),
            rule_id: self.rule_id.clone(),
        }
    }
}

/// A copy of a list of exposures.
pub fn copy_exposures(v: &Vec<SecondaryExposure>) -> (r: Vec<SecondaryExposure>)
    ensures
        r@ == v@,
{
    let mut r: Vec<SecondaryExposure> = Vec::new();
    let mut i: usize = 0;
    while i < v.len()
        invariant
            i <= v.len(),
            r@ == v@.take(i as int),
        decreases v.len() - i,
    {
        r.push(v[i].copy_exposure());
        assert(v@.take(i + 1) =~= v@.take(i as int).push(v@[i as int]));
        i = i + 1;
    }
    assert(v@.take(v.len() as int) =~= v@);
    r
}

/// A copy of an optional list of exposures.
pub fn copy_opt_exposures(o: &Option<Vec<SecondaryExposure>>) -> (r: Option<Vec<SecondaryExposure>>)
    ensures
        (r is Some) == (o is Some),
        r matches Some(v) ==> v@ == o->0@,
{
    match o {
        None => None,
        Some(v) => Some(copy_exposures(v)),
    }
}

/// The value an evaluation returns, as JSON text (`None` for the empty value).
#[derive(Debug)]
pub struct DynamicReturnable {
    pub json: Option<String>,
}

impl DynamicReturnable {
    /// The empty value.
    pub fn empty() -> (r: Self)
        ensures
            r.json is None,
    {
        DynamicReturnable { json: None }
    }

    /// A copy of the value.
    pub fn copy_value(&self) -> (r: Self)
        ensures
            r == *self,
    {
        DynamicReturnable { json: copy_opt_string(&self.json) }
    }
}

/// A copy of an optional value.
pub fn copy_opt_value(o: &Option<DynamicReturnable>) -> (r: Option<DynamicReturnable>)
    ensures
        r == *o,
{
    match o {
        None => None,
        Some(v) => Some(v.copy_value()),
    }
}

/// The names of optional explicit parameters.
pub open spec fn opt_param_names(o: Option<ExplicitParameters>) -> Option<Seq<Seq<char>>> {
    match o {
        None => None,
        Some(p) => Some(p.names()),
    }
}

/// A copy of optional explicit parameters.
pub fn copy_opt_params(o: &Option<ExplicitParameters>) -> (r: Option<ExplicitParameters>)
    ensures
        opt_param_names(r) == opt_param_names(*o),
{
    match o {
        None => None,
        Some(p) => Some(p.copy_params()),
    }
}

/// The outcome of evaluating a config for a user, as the evaluator reports it.
pub struct EvaluatorResult {
    pub name: Option<String>,
    pub id_type: Option<String>,
    pub bool_value: bool,
    pub rule_id: Option<String>,
    pub group_name: Option<String>,
    pub json_value: Option<DynamicReturnable>,
    pub version: Option<u32>,
    pub config_delegate: Option<String>,
    pub explicit_parameters: Option<ExplicitParameters>,
    pub secondary_exposures: Vec<SecondaryExposure>,
    pub undelegated_secondary_exposures: Option<Vec<SecondaryExposure>>,
    pub is_experiment_active: bool,
    pub is_experiment_group: bool,
    pub unsupported: bool,
    pub is_in_layer: bool,
    pub rule_id_suffix: Option<String>,
    pub override_reason: Option<String>,
    pub sampling_rate: Option<u64>,
    pub forward_all_exposures: Option<bool>,
    pub override_config_name: Option<String>,
    pub has_seen_analytical_gates: Option<bool>,
}

impl ExtraExposureInfo {
    /// A field-by-field copy.
    pub fn copy_info(&self) -> (r: Self)
        ensures
            r == *self,
    {
        ExtraExposureInfo {
            sampling_rate: self.sampling_rate,
            forward_all_exposures: self.forward_all_exposures,
            has_seen_analytical_gates: self.has_seen_analytical_gates,
            override_config_name: copy_opt_string(&self.override_config_name),
            version: self.version,
        }
    }
}

/// A copy of optional exposure data.
pub fn copy_opt_info(o: &Option<ExtraExposureInfo>) -> (r: Option<ExtraExposureInfo>)
    ensures
        r == *o,
{
    match o {
        None => None,
        Some(i) => Some(i.copy_info()),
    }
}

/// The evaluation behind an experiment read.
pub struct ExperimentEvaluation {
    pub name: String,
    pub rule_id: String,
    pub secondary_exposures: Vec<SecondaryExposure>,
    pub exposure_info: Option<ExtraExposureInfo>,
    pub id_type: Option<String>,
    pub value: DynamicReturnable,
    pub explicit_parameters: Option<ExplicitParameters>,
    pub group_name: Option<String>,
    pub undelegated_secondary_exposures: Option<Vec<SecondaryExposure>>,
    pub is_device_based: bool,
    pub is_in_layer: bool,
    pub is_experiment_active: Option<bool>,
    pub is_user_in_experiment: Option<bool>,
}

/// The evaluation behind a layer read.
pub struct LayerEvaluation {
    pub name: String,
    pub rule_id: String,
    pub secondary_exposures: Vec<SecondaryExposure>,
    pub exposure_info: Option<ExtraExposureInfo>,
    pub id_type: Option<String>,
    pub value: DynamicReturnable,
    pub explicit_parameters: ExplicitParameters,
    pub group_name: Option<String>,
    pub undelegated_secondary_exposures: Option<Vec<SecondaryExposure>>,
    pub allocated_experiment_name: Option<String>,
    pub is_device_based: bool,
    pub is_experiment_active: Option<bool>,
    pub is_user_in_experiment: Option<bool>,
}

/// An experiment as handed to the SDK's user; `value` is the JSON object of its parameters
/// (`None` for an empty one).
pub struct Experiment {
    pub name: String,
    pub rule_id: String,
    pub id_type: String,
    pub group_name: Option<String>,
    pub value: Option<String>,
    pub details: EvaluationDetails,
    pub is_experiment_active: bool,
    pub __evaluation: Option<ExperimentEvaluation>,
}

/// A layer as handed to the SDK's user; `__value` is the JSON object of its parameters
/// (`None` for an empty one).
pub struct Layer {
    pub name: String,
    pub rule_id: String,
    pub id_type: String,
    pub group_name: Option<String>,
    pub allocated_experiment_name: Option<String>,
    pub details: EvaluationDetails,
    pub is_experiment_active: bool,
    pub __value: Option<String>,
    pub __evaluation: Option<LayerEvaluation>,
    pub __version: Option<u32>,
    pub __exposure_info: Option<ExtraExposureInfo>,
    pub __disable_exposure: bool,
}

} // verus!
