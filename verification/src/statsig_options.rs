use vstd::prelude::*;
use vstd::string::StringExecFns;

use crate::http_types::ProxyConfig;

verus! {

/// The SDK options that shape networking and config syncing; every option is optional and
/// an absent one takes its documented default.
pub struct StatsigOptions {
    /// Disable all outgoing network traffic.
    pub disable_network: Option<bool>,
    /// Never write downloaded files to disk.
    pub disable_disk_access: Option<bool>,
    /// Retry a failed config sync against the default endpoint.
    pub fallback_to_statsig_api: Option<bool>,
    /// Time allowed for the first config sync.
    pub init_timeout_ms: Option<u64>,
    /// Time between background config syncs.
    pub specs_sync_interval_ms: Option<u32>,
    /// Where to download config specs from.
    pub specs_url: Option<String>,
    /// Name of the service using the SDK.
    pub service_name: Option<String>,
    /// Ask for delta updates of the config specs.
    pub enable_dcs_deltas: Option<bool>,
    /// Consecutive stalled delta syncs that force a full resync (`Some(0)` turns the
    /// recovery off).
    pub dcs_delta_no_progress_threshold: Option<u32>,
    /// Proxy for outgoing requests.
    pub proxy_config: Option<ProxyConfig>,
    /// The environment tier evaluations run in.
    pub environment: Option<String>,
}

impl Default for StatsigOptions {
    fn default() -> (r: Self)
        ensures
            r.disable_network is None,
            r.disable_disk_access is None,
            r.fallback_to_statsig_api is None,
            r.init_timeout_ms is None,
            r.specs_sync_interval_ms is None,
            r.specs_url is None,
            r.service_name is None,
            r.enable_dcs_deltas is None,
            r.dcs_delta_no_progress_threshold is None,
            r.proxy_config is None,
            r.environment is None,
    {
        StatsigOptions {
            disable_network: None,
            disable_disk_access: None,
            fallback_to_statsig_api: None,
            init_timeout_ms: None,
            specs_sync_interval_ms: None,
            specs_url: None,
            service_name: None,
            enable_dcs_deltas: None,
            dcs_delta_no_progress_threshold: None,
            proxy_config: None,
            environment: None,
        }
    }
}

impl StatsigOptions {
    /// Options with every value absent.
    pub fn new() -> (r: Self)
        ensures
            r.disable_network is None,
            r.disable_disk_access is None,
            r.fallback_to_statsig_api is None,
            r.init_timeout_ms is None,
            r.specs_sync_interval_ms is None,
            r.specs_url is None,
            r.service_name is None,
            r.enable_dcs_deltas is None,
            r.dcs_delta_no_progress_threshold is None,
            r.proxy_config is None,
            r.environment is None,
    {
        Self::default()
    }

    /// The environment evaluations see: `tier` set to the configured environment, when one
    /// is configured.
    pub fn environment_tier(&self) -> (r: Option<Vec<(String, String)>>)
        ensures
            self.environment is None ==> r is None,
            self.environment matches Some(env) ==> (r matches Some(m) && m@.len() == 1 && m@[0].0@
                == "tier"@ && m@[0].1@ == env@),
    {
        match &self.environment {
            None => None,
            Some(env) => {
                let mut m: Vec<(String, String)> = Vec::new();
                m.push((String::from_str("tier"), env.clone()));
                Some(m)
            },
        }
    }
}

} // verus!
