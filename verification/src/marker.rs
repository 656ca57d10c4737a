use vstd::prelude::*;

use crate::clock::now_millis;
use crate::evaluation_types::EvaluationDetails;

verus! {

/// What a diagnostics marker measures.
#[derive(Debug, Clone, Copy, PartialEq, Eq, Structural)]
pub enum KeyType {
    Initialize,
    Overall,
    DownloadConfigSpecs,
    GetIDList,
    GetIDListSources,
}

/// The step of an operation a marker belongs to.
#[derive(Debug, Clone, Copy, PartialEq, Eq, Structural)]
pub enum StepType {
    Process,
    NetworkRequest,
}

/// Whether a marker opens or closes a step.
#[derive(Debug, Clone, Copy, PartialEq, Eq, Structural)]
pub enum ActionType {
    Start,
    End,
}

/// A timestamped diagnostics record of one step of an SDK operation.
#[derive(Debug, Clone, PartialEq, Eq)]
pub struct Marker {
    pub key: KeyType,
    pub action: ActionType,
    pub timestamp: u64,
    pub attempt: Option<u32>,
    pub config_name: Option<String>,
    pub error: Option<Vec<(String, String)>>,
    pub id_list_count: Option<u32>,
    pub marker_id: Option<String>,
    pub message: Option<String>,
    pub sdk_region: Option<String>,
    pub status_code: Option<u16>,
    pub step: Option<StepType>,
    pub success: Option<bool>,
    pub url: Option<String>,
    pub evaluation_details: Option<EvaluationDetails>,
    pub config_spec_ready: Option<bool>,
    pub source: Option<String>,
    pub content_type: Option<String>,
}

impl Marker {
    /// A marker with the given key, action and step, stamped with the current time and with
    /// every optional field empty.
    pub fn new(key: KeyType, action: ActionType, step: Option<StepType>) -> (m: Self)
        ensures
            m.key == key,
            m.action == action,
            m.step == step,
            m.attempt is None,
            m.config_name is None,
            m.error is None,
            m.id_list_count is None,
            m.marker_id is None,
            m.message is None,
            m.sdk_region is None,
            m.status_code is None,
            m.success is None,
            m.url is None,
            m.evaluation_details is None,
            m.config_spec_ready is None,
            m.source is None,
            m.content_type is None,
    {
        Marker {
            key,
            action,
            step,
            success: None,
            timestamp: now_millis(),
            status_code: None,
            url: None,
            id_list_count: None,
            sdk_region: None,
            marker_id: None,
            attempt: None,
            config_name: None,
            message: None,
            error: None,
            evaluation_details: None,
            config_spec_ready: None,
            source: None,
            content_type: None,
        }
    }

    /// Records whether the step succeeded.
    pub fn with_is_success(self, success: bool) -> (m: Self)
        ensures
            m == (Marker { success: Some(success), ..self }),
    {
        Marker { success: Some(success), ..self }
    }

    /// Records the HTTP status code.
    pub fn with_status_code(self, status_code: u16) -> (m: Self)
        ensures
            m == (Marker { status_code: Some(status_code), ..self }),
    {
        Marker { status_code: Some(status_code), ..self }
    }

    /// Records the attempt number.
    pub fn with_attempt(self, attempt: u32) -> (m: Self)
        ensures
            m == (Marker { attempt: Some(attempt), ..self }),
    {
        Marker { attempt: Some(attempt), ..self }
    }

    /// Records the request URL.
    pub fn with_url(self, url: String) -> (m: Self)
        ensures
            m == (Marker { url: Some(url), ..self }),
    {
        Marker { url: Some(url), ..self }
    }

    /// Records a message.
    pub fn with_message(self, message: String) -> (m: Self)
        ensures
            m == (Marker { message: Some(message), ..self }),
    {
        Marker { message: Some(message), ..self }
    }

    /// Records the evaluation details.
    pub fn with_eval_details(self, details: EvaluationDetails) -> (m: Self)
        ensures
            m == (Marker { evaluation_details: Some(details), ..self }),
    {
        Marker { evaluation_details: Some(details), ..self }
    }

    /// Records whether the config specs were ready.
    pub fn with_config_spec_ready(self, ready: bool) -> (m: Self)
        ensures
            m == (Marker { config_spec_ready: Some(ready), ..self }),
    {
        Marker { config_spec_ready: Some(ready), ..self }
    }

    /// Records the source of the data.
    pub fn with_source(self, source: String) -> (m: Self)
        ensures
            m == (Marker { source: Some(source), ..self }),
    {
        Marker { source: Some(source), ..self }
    }

    /// Records the SDK region reported by the server, or clears it.
    pub fn with_sdk_region(self, region: Option<String>) -> (m: Self)
        ensures
            m == (Marker { sdk_region: region, ..self }),
    {
        Marker { sdk_region: region, ..self }
    }

    /// Records the response content type, or clears it.
    pub fn with_content_type(self, content_type: Option<String>) -> (m: Self)
        ensures
            m == (Marker { content_type: content_type, ..self }),
    {
        Marker { content_type: content_type, ..self }
    }

    /// Records the number of ID lists when it fits in 32 bits; otherwise leaves the marker as
    /// it was.
    pub fn with_id_list_count(self, count: usize) -> (m: Self)
        ensures
            count <= u32::MAX ==> m == (Marker { id_list_count: Some(count as u32), ..self }),
            count > u32::MAX ==> m == self,
    {
        if count <= u32::MAX as usize {
            Marker { id_list_count: Some(count as u32), ..self }
        } else {
            self
        }
    }

    /// Records an error, as name/value pairs.
    pub fn with_error(self, error: Vec<(String, String)>) -> (m: Self)
        ensures
            m == (Marker { error: Some(error), ..self }),
    {
        Marker { error: Some(error), ..self }
    }
}

} // verus!
