use vstd::prelude::*;
use vstd::string::StringExecFns;

use crate::evaluation_types::DynamicReturnable;
use crate::statsig_err::StatsigErr;
use crate::text::{
    chars_to_string, extend_str, parse_unsigned, spec_parse_unsigned, str_eq_chars, str_to_chars,
};

verus! {

/// The key of a condition in the config-specs response: its text, and its value as a `u64`
/// when the text is one (keys are usually decimal hashes, which makes lookups cheap).
#[derive(PartialEq, Eq, Debug)]
pub struct ConditionKey {
    pub u64_value: Option<u64>,
    pub string_value: String,
}

/// The number a key's text parses to, as `str::parse::<u64>` reads it.
pub open spec fn spec_condition_key_number(s: Seq<char>) -> Option<u64> {
    match spec_parse_unsigned(s, u64::MAX as nat) {
        Some(v) => Some(v as u64),
        None => None,
    }
}

impl ConditionKey {
    /// The key for a text, as read from a response.
    pub fn from_string(string_value: String) -> (r: Self)
        ensures
            r.string_value == string_value,
            r.u64_value == spec_condition_key_number(string_value@),
    {
        let chars = str_to_chars(string_value.as_str());
        let u64_value = parse_unsigned(&chars, u64::MAX);
        ConditionKey { u64_value, string_value }
    }

    /// Whether two keys land on the same lookup entry: equal numbers when the first is
    /// numeric, equal texts otherwise (what its hash is taken from).
    pub fn same_lookup_key(&self, other: &ConditionKey) -> (r: bool)
        ensures
            r == match self.u64_value {
                Some(v) => other.u64_value == Some(v),
                None => other.u64_value is None && self.string_value@ == other.string_value@,
            },
    {
        match self.u64_value {
            Some(v) => other.u64_value == Some(v),
            None => {
                if other.u64_value.is_some() {
                    return false;
                }
                let o = str_to_chars(other.string_value.as_str());
                str_eq_chars(self.string_value.as_str(), &o)
            },
        }
    }
}

/// A condition of a rule, with its target value as JSON text.
pub struct Condition {
    pub condition_type: String,
    pub target_value: Option<String>,
    pub operator: Option<String>,
    pub field: Option<String>,
    pub additional_values: Option<Vec<(String, String)>>,
    pub id_type: String,
}

/// A rule of an override of a config, active from `start_time` on.
#[derive(PartialEq, Eq, Debug)]
pub struct OverrideRule {
    pub rule_name: String,
    pub start_time: Option<i64>,
}

/// Maps a config to another one under the given rules.
#[derive(PartialEq, Eq, Debug)]
pub struct ConfigMapping {
    pub new_config_name: String,
    pub rules: Vec<OverrideRule>,
}

/// A parameter whose value is a parameter of a dynamic config.
#[derive(Clone, PartialEq, Eq, Debug)]
pub struct DynamicConfigParameter {
    pub ref_type: String,
    pub param_type: String,
    pub config_name: String,
    pub param_name: String,
}

/// A parameter whose value is a parameter of an experiment.
#[derive(Clone, PartialEq, Eq, Debug)]
pub struct ExperimentParameter {
    pub ref_type: String,
    pub param_type: String,
    pub experiment_name: String,
    pub param_name: String,
}

/// A parameter whose value is a parameter of a layer.
#[derive(Clone, PartialEq, Eq, Debug)]
pub struct LayerParameter {
    pub ref_type: String,
    pub param_type: String,
    pub layer_name: String,
    pub param_name: String,
}

/// A group of a contextual multi-armed bandit config.
pub struct CMABGroup {
    pub name: String,
    pub parameter_values: DynamicReturnable,
    pub id: String,
}

/// A zstd dictionary a specs response may be compressed with, known by its identifier.
pub struct DictionaryDecoder {
    pub dict_id: String,
    pub dict_buff: Vec<u8>,
}

impl DictionaryDecoder {
    /// A decoder for the dictionary with the given identifier and contents.
    pub fn new(dict_id: String, dict_buff: &Vec<u8>) -> (r: Self)
        ensures
            r.dict_id == dict_id,
            r.dict_buff@ == dict_buff@,
    {
        DictionaryDecoder { dict_id, dict_buff: dict_buff.clone() }
    }

    /// The identifier of the dictionary.
    pub fn get_dict_id(&self) -> (r: &String)
        ensures
            *r == self.dict_id,
    {
        &self.dict_id
    }

    /// A copy of the decoder.
    pub fn copy_decoder(&self) -> (r: Self)
        ensures
            r.dict_id == self.dict_id,
            r.dict_buff@ == self.dict_buff@,
    {
        DictionaryDecoder::new(self.dict_id.clone(), &self.dict_buff)
    }
}

/// A specs response decoded from its possibly dictionary-compressed form.
pub struct DecodedSpecsResponse;

/// The dictionary to decompress a response with: none when the response names none; the
/// cached one when it has the named identifier; else the dictionary the response carries;
/// else an error, as the response cannot be read.
pub fn select_decompression_dict_for_response(
    response_dict_id: Option<String>,
    response_dict_buff: Option<Vec<u8>>,
    cached_dict: Option<&DictionaryDecoder>,
) -> (r: Result<Option<DictionaryDecoder>, StatsigErr>)
    ensures
        response_dict_id is None ==> r matches Ok(None),
        response_dict_id matches Some(id) ==> {
            let cached_matches = cached_dict matches Some(c) && c.dict_id@ == id@;
            &&& cached_matches ==> (r matches Ok(Some(d)) && d.dict_id@ == id@ && d.dict_buff@
                == cached_dict->0.dict_buff@)
            &&& (!cached_matches && response_dict_buff is Some) ==> (r matches Ok(Some(d))
                && d.dict_id@ == id@ && d.dict_buff@ == response_dict_buff->0@)
            &&& (!cached_matches && response_dict_buff is None) ==> (r matches Err(
                StatsigErr::ZstdDictCompressionError(m),
            ) && m@ == "Cannot decompress response compressed with dict_id: "@ + id@
                + ", because the appropriate dictionary is not cached and the response does not contain one."@)
        },
{
    let response_dict_id = match response_dict_id {
        Some(id) => id,
        None => return Ok(None),
    };
    match cached_dict {
        Some(cached) => {
            let id_chars = str_to_chars(response_dict_id.as_str());
            if str_eq_chars(cached.get_dict_id().as_str(), &id_chars) {
                return Ok(Some(cached.copy_decoder()));
            }
        },
        None => {},
    }
    match response_dict_buff {
        Some(buff) => Ok(Some(DictionaryDecoder::new(response_dict_id, &buff))),
        None => {
            let mut m: Vec<char> = Vec::new();
            extend_str(&mut m, "Cannot decompress response compressed with dict_id: ");
            extend_str(&mut m, response_dict_id.as_str());
            extend_str(
                &mut m,
                ", because the appropriate dictionary is not cached and the response does not contain one.",
            );
            Err(StatsigErr::ZstdDictCompressionError(chars_to_string(&m)))
        },
    }
}

} // verus!
