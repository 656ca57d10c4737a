use vstd::prelude::*;
use vstd::string::StringExecFns;

use crate::http_types::pairs_view;

verus! {

/// The SDK version reported to the servers.
pub open spec fn sdk_version() -> Seq<char> {
    "0.15.2-rc.2602030137"@
}

/// The SDK type reported by default.
pub open spec fn default_sdk_type() -> Seq<char> {
    "statsig-server-core"@
}

/// What the SDK reports about itself with each request and event batch.
#[derive(Clone)]
pub struct StatsigMetadata {
    pub sdk_type: String,
    pub sdk_version: String,
    pub session_id: String,
    pub os: Option<String>,
    pub arch: Option<String>,
    pub language_version: Option<String>,
    pub service_name: Option<String>,
}

/// The metadata together with the event-logging settings.
#[derive(Clone)]
pub struct StatsigMetadataWithLogEventExtras {
    pub base: StatsigMetadata,
    pub flushing_interval_ms: u64,
    pub batch_size: usize,
    pub max_pending_batches: usize,
    pub flush_type: String,
}

/// `uuid::Uuid::new_v4().to_string()`: a random session identifier. Nothing is claimed of the
/// value, which is drawn at random.
#[verifier::external_body]
fn new_session_id() -> String {
    uuid::Uuid::new_v4().to_string()
}

/// An optional string copied field by field.
fn copy_opt(o: &Option<String>) -> (r: Option<String>)
    ensures
        r == *o,
{
    match o {
        None => None,
        Some(s) => Some(s.clone()),
    }
}

impl StatsigMetadata {
    /// Metadata of this SDK build with a fresh random session identifier.
    pub fn new() -> (r: Self)
        ensures
            r.sdk_type@ == default_sdk_type(),
            r.sdk_version@ == sdk_version(),
            r.os is None,
            r.arch is None,
            r.language_version is None,
            r.service_name is None,
    {
        StatsigMetadata {
            sdk_version: String::from_str("0.15.2-rc.2602030137"),
            sdk_type: String::from_str("statsig-server-core"),
            session_id: new_session_id(),
            os: None,
            arch: None,
            language_version: None,
            service_name: None,
        }
    }

    /// Records the SDK type and the platform it runs on.
    pub fn update_values(&mut self, sdk_type: String, os: String, arch: String, language_version: String)
        ensures
            final(self).sdk_type == sdk_type,
            final(self).os == Some(os),
            final(self).arch == Some(arch),
            final(self).language_version == Some(language_version),
            final(self).sdk_version == old(self).sdk_version,
            final(self).session_id == old(self).session_id,
            final(self).service_name == old(self).service_name,
    {
        self.sdk_type = sdk_type;
        self.os = Some(os);
        self.arch = Some(arch);
        self.language_version = Some(language_version);
    }

    /// Records the name of the service using the SDK.
    pub fn update_service_name(&mut self, service_name: Option<String>)
        ensures
            final(self).service_name == service_name,
            final(self).sdk_type == old(self).sdk_type,
            final(self).sdk_version == old(self).sdk_version,
            final(self).session_id == old(self).session_id,
            final(self).os == old(self).os,
            final(self).arch == old(self).arch,
            final(self).language_version == old(self).language_version,
    {
        self.service_name = service_name;
    }

    /// A copy of the metadata.
    pub fn get_metadata(&self) -> (r: StatsigMetadata)
        ensures
            r == *self,
    {
        StatsigMetadata {
            sdk_type: self.sdk_type.clone(),
            sdk_version: self.sdk_version.clone(),
            session_id: self.session_id.clone(),
            os: copy_opt(&self.os),
            arch: copy_opt(&self.arch),
            language_version: copy_opt(&self.language_version),
            service_name: copy_opt(&self.service_name),
        }
    }

    /// The headers every request of an SDK key carries: key, SDK type, SDK version and
    /// session identifier.
    pub fn get_constant_request_headers(&self, sdk_key: &str) -> (r: Vec<(String, String)>)
        ensures
            pairs_view(r@) == seq![
                ("STATSIG-API-KEY"@, sdk_key@),
                ("STATSIG-SDK-TYPE"@, self.sdk_type@),
                ("STATSIG-SDK-VERSION"@, self.sdk_version@),
                ("STATSIG-SERVER-SESSION-ID"@, self.session_id@),
            ],
    {
        let mut r: Vec<(String, String)> = Vec::new();
        r.push((String::from_str("STATSIG-API-KEY"), String::from_str(sdk_key)));
        r.push((String::from_str("STATSIG-SDK-TYPE"), self.sdk_type.clone()));
        r.push((String::from_str("STATSIG-SDK-VERSION"), self.sdk_version.clone()));
        r.push((String::from_str("STATSIG-SERVER-SESSION-ID"), self.session_id.clone()));
        assert(pairs_view(r@) =~= seq![
            ("STATSIG-API-KEY"@, sdk_key@),
            ("STATSIG-SDK-TYPE"@, self.sdk_type@),
            ("STATSIG-SDK-VERSION"@, self.sdk_version@),
            ("STATSIG-SERVER-SESSION-ID"@, self.session_id@),
        ]);
        r
    }

    /// The metadata with the event-logging settings attached.
    pub fn get_with_log_event_extras(
        &self,
        flushing_interval_ms: u64,
        batch_size: usize,
        max_pending_batches: usize,
        flush_type: String,
    ) -> (r: StatsigMetadataWithLogEventExtras)
        ensures
            r.base == *self,
            r.flushing_interval_ms == flushing_interval_ms,
            r.batch_size == batch_size,
            r.max_pending_batches == max_pending_batches,
            r.flush_type == flush_type,
    {
        StatsigMetadataWithLogEventExtras {
            base: self.get_metadata(),
            flushing_interval_ms,
            batch_size,
            max_pending_batches,
            flush_type,
        }
    }
}

} // verus!
