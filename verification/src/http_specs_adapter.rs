use vstd::prelude::*;
use vstd::string::StringExecFns;

use crate::clock::now_millis;
use crate::http_types::{keys_unique, pairs_view, RequestArgs, Response};
use crate::marker::KeyType;
use crate::network_client::{get_api_from_url, spec_api_from_url, NetworkClient};
use crate::network_error::NetworkError;
use crate::specs_adapter::{
    construct_specs_url, default_specs_url, forced_resync_due, get_specs_response_format,
    percent_encode_non_alphanumeric, percent_encoded, spec_construct_specs_url,
    spec_forced_resync_due, spec_specs_response_format, NetworkResponse, SpecsInfo, SpecsSource,
    NetworkSyncOutcome, SpecsResponseFormat, SpecsResponseNoUpdates, SpecsSyncTrigger, SpecsUpdate,
    SpecsUpdateListener, DEFAULT_DCS_DELTA_NO_PROGRESS_THRESHOLD, DEFAULT_INIT_TIMEOUT_MS,
    DEFAULT_SYNC_INTERVAL_MS, MIN_FORCED_FULL_RESYNC_INTERVAL_MS,
    STATSIG_NETWORK_FALLBACK_THRESHOLD,
};
use crate::specs_sync::{lcut_advanced, spec_lcut_advanced};
use crate::statsig_err::StatsigErr;
use crate::statsig_metadata::StatsigMetadata;
use crate::statsig_options::StatsigOptions;
use crate::text::{decimal, decimal_string, str_eq_chars, str_to_chars};

verus! {

/// The default config-specs endpoint.
pub fn default_specs_url_string() -> (r: String)
    ensures
        r@ == default_specs_url(),
{
    String::from_str("https://api.statsigcdn.com/v2/download_config_specs")
}

/// The query parameters of a config-specs request: protobuf support; the last config update
/// time when positive; the percent-encoded checksum when known; and delta support when
/// deltas are asked for.
pub open spec fn spec_specs_query_params(
    lcut: Option<u64>,
    checksum: Option<Seq<char>>,
    use_deltas: bool,
) -> Seq<(Seq<char>, Seq<char>)> {
    let p0 = seq![("supports_proto"@, "true"@)];
    let p1 = match lcut {
        Some(l) => if l > 0 {
            p0.push(("sinceTime"@, decimal(l as nat)))
        } else {
            p0
        },
        None => p0,
    };
    let p2 = match checksum {
        Some(cs) => p1.push(("checksum"@, percent_encoded(vstd::utf8::encode_utf8(cs)))),
        None => p1,
    };
    if use_deltas {
        p2.push(("accept_deltas"@, "true"@))
    } else {
        p2
    }
}

/// The headers of a config-specs request.
pub open spec fn spec_specs_request_headers() -> Seq<(Seq<char>, Seq<char>)> {
    seq![
        ("statsig-supports-proto"@, "true"@),
        ("accept-encoding"@, "statsig-br, gzip, deflate, br"@),
    ]
}

/// The query parameters and the headers of a config-specs request each name every entry
/// once.
pub proof fn lemma_specs_request_names_unique(lcut: Option<u64>, checksum: Option<Seq<char>>, use_deltas: bool)
    ensures
        keys_unique(spec_specs_query_params(lcut, checksum, use_deltas)),
        keys_unique(spec_specs_request_headers()),
{
    reveal_strlit("supports_proto");
    reveal_strlit("sinceTime");
    reveal_strlit("checksum");
    reveal_strlit("accept_deltas");
    reveal_strlit("statsig-supports-proto");
    reveal_strlit("accept-encoding");
    assert("supports_proto"@[1] != "sinceTime"@[1]);
    assert("supports_proto"@[0] != "checksum"@[0]);
    assert("supports_proto"@[0] != "accept_deltas"@[0]);
    assert("sinceTime"@[0] != "checksum"@[0]);
    assert("sinceTime"@[0] != "accept_deltas"@[0]);
    assert("checksum"@[0] != "accept_deltas"@[0]);
    assert("statsig-supports-proto"@[0] != "accept-encoding"@[0]);
    let ps = spec_specs_query_params(lcut, checksum, use_deltas);
    assert forall|i: int, j: int| 0 <= i < j < ps.len() implies (#[trigger] ps[i]).0 != (
    #[trigger] ps[j]).0 by {
        let names = seq!["supports_proto"@, "sinceTime"@, "checksum"@, "accept_deltas"@];
        assert(exists|a: int, b: int| 0 <= a < b < 4 && ps[i].0 == names[a] && ps[j].0 == names[b]);
    }
}

/// Retries allowed for a sync: none for the first and manual syncs, three in the background.
pub open spec fn spec_sync_retries(trigger: SpecsSyncTrigger) -> u32 {
    match trigger {
        SpecsSyncTrigger::Background => 3,
        _ => 0,
    }
}

/// An optional string as characters.
pub open spec fn opt_view(o: Option<String>) -> Option<Seq<char>> {
    match o {
        Some(s) => Some(s@),
        None => None,
    }
}

/// How a sync's apply step ended, as far as the stall detection cares.
pub open spec fn is_network_err(result: Result<(), StatsigErr>) -> bool {
    result matches Err(StatsigErr::NetworkError(_))
}

/// Outcome of applying a fetched payload: the result, and whether the payload carried updates.
pub struct ProcessSpecDataOutcome {
    pub result: Result<(), StatsigErr>,
    pub had_updates: bool,
}

/// Downloads config specs over HTTP and keeps the state that decides how: the endpoint and
/// its fallback, and the delta-sync bookkeeping (whether the next request asks for deltas,
/// the background failure count that paces fallbacks, and the streak of delta syncs that made
/// no progress).
pub struct StatsigHttpSpecsAdapter<L: SpecsUpdateListener> {
    pub listener: Option<L>,
    pub network: NetworkClient,
    pub sdk_key: String,
    pub specs_url: String,
    pub fallback_url: Option<String>,
    pub init_timeout_ms: u64,
    pub sync_interval_ms: u64,
    pub allow_dcs_deltas: bool,
    pub use_deltas_next_request: bool,
    pub background_sync_failure_count: u32,
    pub delta_no_progress_count: u32,
    pub delta_no_progress_threshold: u32,
    pub last_forced_full_resync_at_ms: u64,
}

/// An option's value, or `d` when it is absent.
pub open spec fn or_default<T>(o: Option<T>, d: T) -> T {
    match o {
        Some(v) => v,
        None => d,
    }
}

/// The options in effect: the given ones, or the defaults when none are given.
pub open spec fn opt_field<T>(options: Option<&StatsigOptions>, f: spec_fn(StatsigOptions) -> Option<T>) -> Option<T> {
    match options {
        Some(o) => f(*o),
        None => None,
    }
}

impl<L: SpecsUpdateListener> StatsigHttpSpecsAdapter<L> {
    /// An adapter for an SDK key. The endpoint is `override_url`, else the configured specs
    /// URL, else the default one; the default endpoint is the fallback when the options ask
    /// for it and the endpoint differs from it. Deltas are asked for when the options enable
    /// them; the stall threshold defaults to `DEFAULT_DCS_DELTA_NO_PROGRESS_THRESHOLD`.
    pub fn new(
        sdk_key: &str,
        options: Option<&StatsigOptions>,
        override_url: Option<String>,
        metadata: &StatsigMetadata,
    ) -> (r: Self)
        ensures
            r.listener is None,
            r.sdk_key@ == sdk_key@,
            r.specs_url@ == (match override_url {
                Some(u) => u@,
                None => match opt_field(options, |o: StatsigOptions| o.specs_url) {
                    Some(u) => u@,
                    None => default_specs_url(),
                },
            }),
            (r.fallback_url is Some) == (opt_field(options, |o: StatsigOptions| o.fallback_to_statsig_api)
                == Some(true) && r.specs_url@ != default_specs_url()),
            r.fallback_url matches Some(f) ==> f@ == default_specs_url(),
            r.init_timeout_ms == or_default(
                opt_field(options, |o: StatsigOptions| o.init_timeout_ms),
                DEFAULT_INIT_TIMEOUT_MS,
            ),
            r.sync_interval_ms == or_default(
                opt_field(options, |o: StatsigOptions| o.specs_sync_interval_ms),
                DEFAULT_SYNC_INTERVAL_MS,
            ),
            r.allow_dcs_deltas == (opt_field(options, |o: StatsigOptions| o.enable_dcs_deltas)
                == Some(true)),
            r.use_deltas_next_request == r.allow_dcs_deltas,
            r.background_sync_failure_count == 0,
            r.delta_no_progress_count == 0,
            r.delta_no_progress_threshold == or_default(
                opt_field(options, |o: StatsigOptions| o.dcs_delta_no_progress_threshold),
                DEFAULT_DCS_DELTA_NO_PROGRESS_THRESHOLD,
            ),
            r.last_forced_full_resync_at_ms == 0,
    {
        let specs_url = match override_url {
            Some(url) => url,
            None => {
                let configured = match options {
                    Some(o) => match &o.specs_url {
                        Some(u) => Some(u.clone()),
                        None => None,
                    },
                    None => None,
                };
                match configured {
                    Some(u) => u,
                    None => default_specs_url_string(),
                }
            },
        };
        let fallback_enabled = match options {
            Some(o) => o.fallback_to_statsig_api == Some(true),
            None => false,
        };
        let url_chars = str_to_chars(specs_url.as_str());
        let is_default = str_eq_chars("https://api.statsigcdn.com/v2/download_config_specs", &url_chars);
        let fallback_url = if fallback_enabled && !is_default {
            Some(default_specs_url_string())
        } else {
            None
        };
        let init_timeout_ms = match options {
            Some(o) => match o.init_timeout_ms {
                Some(t) => t,
                None => DEFAULT_INIT_TIMEOUT_MS,
            },
            None => DEFAULT_INIT_TIMEOUT_MS,
        };
        let sync_interval_ms: u64 = match options {
            Some(o) => match o.specs_sync_interval_ms {
                Some(t) => t as u64,
                None => DEFAULT_SYNC_INTERVAL_MS as u64,
            },
            None => DEFAULT_SYNC_INTERVAL_MS as u64,
        };
        let enable_dcs_deltas = match options {
            Some(o) => o.enable_dcs_deltas == Some(true),
            None => false,
        };
        let delta_no_progress_threshold = match options {
            Some(o) => match o.dcs_delta_no_progress_threshold {
                Some(t) => t,
                None => DEFAULT_DCS_DELTA_NO_PROGRESS_THRESHOLD,
            },
            None => DEFAULT_DCS_DELTA_NO_PROGRESS_THRESHOLD,
        };
        let headers = metadata.get_constant_request_headers(sdk_key);
        let (disable_network, proxy_config, disable_disk_access) = match options {
            Some(o) => (
                o.disable_network,
                match &o.proxy_config {
                    Some(p) => Some(p.copy_config()),
                    None => None,
                },
                o.disable_disk_access,
            ),
            None => (None, None, None),
        };
        StatsigHttpSpecsAdapter {
            listener: None,
            network: NetworkClient::new(
                sdk_key,
                Some(headers),
                disable_network,
                proxy_config,
                disable_disk_access,
            ),
            sdk_key: String::from_str(sdk_key),
            specs_url,
            fallback_url,
            init_timeout_ms,
            sync_interval_ms,
            allow_dcs_deltas: enable_dcs_deltas,
            use_deltas_next_request: enable_dcs_deltas,
            background_sync_failure_count: 0,
            delta_no_progress_count: 0,
            delta_no_progress_threshold,
            last_forced_full_resync_at_ms: 0,
        }
    }

    /// Sets the listener that receives updates.
    pub fn initialize(&mut self, listener: L)
        ensures
            final(self).listener == Some(listener),
            final(self).use_deltas_next_request == old(self).use_deltas_next_request,
            final(self).delta_no_progress_count == old(self).delta_no_progress_count,
            final(self).background_sync_failure_count == old(self).background_sync_failure_count,
            final(self).last_forced_full_resync_at_ms == old(self).last_forced_full_resync_at_ms,
            final(self).allow_dcs_deltas == old(self).allow_dcs_deltas,
            final(self).delta_no_progress_threshold == old(self).delta_no_progress_threshold,
            final(self).specs_url == old(self).specs_url,
            final(self).sdk_key == old(self).sdk_key,
            final(self).fallback_url == old(self).fallback_url,
            final(self).init_timeout_ms == old(self).init_timeout_ms,
    {
        self.listener = Some(listener);
    }

    /// The request that fetches config specs for a sync.
    pub fn get_request_args(&self, current_specs_info: &SpecsInfo, trigger: SpecsSyncTrigger) -> (r:
        RequestArgs)
        ensures
            is_specs_request(
                r,
                self.specs_url@,
                self.sdk_key@,
                self.use_deltas_next_request,
                self.init_timeout_ms,
                *current_specs_info,
                trigger,
            ),
    {
        proof {
            lemma_specs_request_names_unique(
                current_specs_info.lcut,
                opt_view(current_specs_info.checksum),
                self.use_deltas_next_request,
            );
        }
        let mut params: Vec<(String, String)> = Vec::new();
        params.push((String::from_str("supports_proto"), String::from_str("true")));
        let ghost p0 = pairs_view(params@);
        match current_specs_info.lcut {
            Some(lcut) => {
                if lcut > 0 {
                    params.push((String::from_str("sinceTime"), decimal_string(lcut)));
                    assert(pairs_view(params@) =~= p0.push(("sinceTime"@, decimal(lcut as nat))));
                }
            },
            None => {},
        }
        let ghost p1 = pairs_view(params@);
        match &current_specs_info.checksum {
            Some(cs) => {
                let encoded = percent_encode_non_alphanumeric(cs.as_str().as_bytes());
                params.push((String::from_str("checksum"), encoded));
                assert(pairs_view(params@) =~= p1.push(
                    ("checksum"@, percent_encoded(vstd::utf8::encode_utf8(cs@))),
                ));
            },
            None => {},
        }
        let ghost p2 = pairs_view(params@);
        if self.use_deltas_next_request {
            params.push((String::from_str("accept_deltas"), String::from_str("true")));
            assert(pairs_view(params@) =~= p2.push(("accept_deltas"@, "true"@)));
        }
        assert(p0 =~= seq![("supports_proto"@, "true"@)]);
        let mut headers: Vec<(String, String)> = Vec::new();
        headers.push((String::from_str("statsig-supports-proto"), String::from_str("true")));
        headers.push(
            (String::from_str("accept-encoding"), String::from_str("statsig-br, gzip, deflate, br")),
        );
        assert(pairs_view(headers@) =~= spec_specs_request_headers());
        let is_init_request = trigger == SpecsSyncTrigger::Initial;
        let timeout_ms = if is_init_request && self.init_timeout_ms > 0 {
            self.init_timeout_ms
        } else {
            0
        };
        let retries: u32 = match trigger {
            SpecsSyncTrigger::Initial | SpecsSyncTrigger::Manual => 0,
            SpecsSyncTrigger::Background => 3,
        };
        let mut args = RequestArgs::new();
        args.url = construct_specs_url(self.specs_url.as_str(), self.sdk_key.as_str());
        args.retries = retries;
        args.query_params = Some(params);
        args.deltas_enabled = self.use_deltas_next_request;
        args.accept_gzip_response = true;
        args.diagnostics_key = Some(KeyType::DownloadConfigSpecs);
        args.timeout_ms = timeout_ms;
        args.headers = Some(headers);
        args
    }
}

/// Whether a payload carried updates: a protobuf payload always does; any other carries
/// updates unless it reads as `{"has_updates": false}`.
pub open spec fn spec_had_updates(
    format: SpecsResponseFormat,
    no_updates: Option<SpecsResponseNoUpdates>,
) -> bool {
    if format == SpecsResponseFormat::Protobuf {
        true
    } else {
        match no_updates {
            Some(p) => p.has_updates,
            None => true,
        }
    }
}

/// Whether the next request asks for deltas after an apply: never after a checksum failure;
/// again after a successful full update when deltas are allowed; otherwise as before.
pub open spec fn spec_deltas_after_apply(
    use_before: bool,
    allow_dcs_deltas: bool,
    requested_deltas: bool,
    result: Result<(), StatsigErr>,
) -> bool {
    if result matches Err(StatsigErr::ChecksumFailure(_)) {
        false
    } else if result is Ok && !requested_deltas && allow_dcs_deltas {
        true
    } else {
        use_before
    }
}

/// Delta bookkeeping: whether the next request asks for deltas, the stall streak, and when
/// a full resync was last forced.
pub open spec fn spec_delta_state<L: SpecsUpdateListener>(a: StatsigHttpSpecsAdapter<L>) -> (bool, u32, u64) {
    (a.use_deltas_next_request, a.delta_no_progress_count, a.last_forced_full_resync_at_ms)
}

/// Whether a sync's stall check may count it, as far as the inputs known before the
/// listener's update time is read tell: a background delta sync, with deltas allowed and a
/// threshold set, that did not fail on the network and carried updates.
pub open spec fn stall_may_count(
    trigger: SpecsSyncTrigger,
    allow_dcs_deltas: bool,
    threshold: u32,
    requested_deltas: bool,
    had_updates: bool,
    result: Result<(), StatsigErr>,
) -> bool {
    &&& trigger == SpecsSyncTrigger::Background
    &&& allow_dcs_deltas
    &&& threshold != 0
    &&& requested_deltas
    &&& !is_network_err(result)
    &&& had_updates
}

/// The stall check reaches the point where it counts a stalled delta sync.
pub open spec fn stall_counted(
    trigger: SpecsSyncTrigger,
    allow_dcs_deltas: bool,
    threshold: u32,
    pre_lcut: Option<u64>,
    requested_deltas: bool,
    had_updates: bool,
    result: Result<(), StatsigErr>,
    post_lcut: Option<u64>,
) -> bool {
    &&& trigger == SpecsSyncTrigger::Background
    &&& allow_dcs_deltas
    &&& threshold != 0
    &&& requested_deltas
    &&& !is_network_err(result)
    &&& had_updates
    &&& !(result is Ok && spec_lcut_advanced(pre_lcut, post_lcut))
}

/// The delta bookkeeping after a background sync. Only background syncs with deltas allowed
/// and a non-zero threshold are looked at. A successful full sync clears the streak; a
/// network failure leaves it; a reply with no updates, or a successful apply that advanced
/// the last update time, clears it; anything else extends it, and when a forced resync is
/// then due, deltas are turned off for the next request, the time is recorded and the streak
/// cleared.
pub open spec fn spec_stall_step(
    state: (bool, u32, u64),
    trigger: SpecsSyncTrigger,
    allow_dcs_deltas: bool,
    threshold: u32,
    pre_lcut: Option<u64>,
    requested_deltas: bool,
    had_updates: bool,
    result: Result<(), StatsigErr>,
    post_lcut: Option<u64>,
    now_ms: u64,
) -> (bool, u32, u64) {
    let (use_deltas, count, last_forced) = state;
    if trigger != SpecsSyncTrigger::Background || !allow_dcs_deltas || threshold == 0 {
        state
    } else if !requested_deltas {
        if result is Ok {
            (use_deltas, 0, last_forced)
        } else {
            state
        }
    } else if is_network_err(result) {
        state
    } else if !had_updates {
        (use_deltas, 0, last_forced)
    } else if result is Ok && spec_lcut_advanced(pre_lcut, post_lcut) {
        (use_deltas, 0, last_forced)
    } else {
        let c = (count + 1) as u32;
        if spec_forced_resync_due(c, threshold, last_forced, now_ms, MIN_FORCED_FULL_RESYNC_INTERVAL_MS) {
            (false, 0, now_ms)
        } else {
            (use_deltas, c, last_forced)
        }
    }
}

/// `r` is the request that fetches config specs from the endpoint at `base_url`: the
/// endpoint's specs URL for the key, the sync's retries, the query parameters and headers
/// of a specs request for what is held, deltas as asked, compressed responses accepted,
/// tagged for diagnostics, the first sync's timeout, and nothing else.
pub open spec fn is_specs_request(
    r: RequestArgs,
    base_url: Seq<char>,
    sdk_key: Seq<char>,
    use_deltas: bool,
    init_timeout_ms: u64,
    current_specs_info: SpecsInfo,
    trigger: SpecsSyncTrigger,
) -> bool {
    &&& r.url@ == spec_construct_specs_url(base_url, sdk_key)
    &&& r.retries == spec_sync_retries(trigger)
    &&& r.query_params is Some
    &&& pairs_view(r.query_params->0@) == spec_specs_query_params(
        current_specs_info.lcut,
        opt_view(current_specs_info.checksum),
        use_deltas,
    )
    &&& keys_unique(pairs_view(r.query_params->0@))
    &&& r.headers is Some
    &&& pairs_view(r.headers->0@) == spec_specs_request_headers()
    &&& keys_unique(pairs_view(r.headers->0@))
    &&& r.deltas_enabled == use_deltas
    &&& r.accept_gzip_response
    &&& r.diagnostics_key == Some(KeyType::DownloadConfigSpecs)
    &&& r.timeout_ms == (if trigger == SpecsSyncTrigger::Initial && init_timeout_ms > 0 {
        init_timeout_ms
    } else {
        0
    })
    &&& r.body is None
    &&& r.is_shutdown is None
    &&& r.proxy_config is None
    &&& r.disable_file_streaming is None
    &&& r.id_list_file_id is None
}

/// The update a fetched response makes: its body, from the network, received at `now`,
/// naming the API it came from.
pub fn network_specs_update(resp: NetworkResponse, now: u64) -> (u: SpecsUpdate)
    ensures
        u.data == resp.data,
        u.source == SpecsSource::Network,
        u.received_at == now,
        u.source_api == Some(resp.loggable_api),
{
    SpecsUpdate { data: resp.data, source: SpecsSource::Network, received_at: now, source_api: Some(resp.loggable_api) }
}

/// The settings and the listener of two adapter states agree.
pub open spec fn same_settings<L: SpecsUpdateListener>(
    a: StatsigHttpSpecsAdapter<L>,
    b: StatsigHttpSpecsAdapter<L>,
) -> bool {
    &&& a.listener == b.listener
    &&& a.sdk_key == b.sdk_key
    &&& a.specs_url == b.specs_url
    &&& a.fallback_url == b.fallback_url
    &&& a.init_timeout_ms == b.init_timeout_ms
    &&& a.sync_interval_ms == b.sync_interval_ms
    &&& a.allow_dcs_deltas == b.allow_dcs_deltas
    &&& a.delta_no_progress_threshold == b.delta_no_progress_threshold
}

impl<L: SpecsUpdateListener> StatsigHttpSpecsAdapter<L> {
    /// What the listener holds: nothing when no listener is set.
    pub fn read_current_specs_info(&self) -> (r: SpecsInfo)
        ensures
            self.listener is None ==> r.lcut is None && r.checksum is None && r.source
                == SpecsSource::NoValues && r.source_api is None,
    {
        match &self.listener {
            Some(l) => l.get_current_specs_info(),
            None => SpecsInfo::empty(),
        }
    }

    /// The last config update time the listener holds.
    pub fn get_listener_lcut(&self) -> (r: Option<u64>)
        ensures
            self.listener is None ==> r is None,
    {
        self.read_current_specs_info().lcut
    }

    /// What follows the listener's answer to a fetched update: a checksum failure makes the
    /// next request a full one; a success of a full request, with deltas allowed, makes the
    /// next one ask for deltas; the answer is the result.
    pub fn after_listener_apply(&mut self, requested_deltas: bool, applied: Result<(), StatsigErr>) -> (r:
        Result<(), StatsigErr>)
        ensures
            r == applied,
            final(self).use_deltas_next_request == spec_deltas_after_apply(
                old(self).use_deltas_next_request,
                old(self).allow_dcs_deltas,
                requested_deltas,
                applied,
            ),
            same_settings(*final(self), *old(self)),
            final(self).delta_no_progress_count == old(self).delta_no_progress_count,
            final(self).last_forced_full_resync_at_ms == old(self).last_forced_full_resync_at_ms,
            final(self).background_sync_failure_count == old(self).background_sync_failure_count,
    {
        let checksum_failed = match &applied {
            Err(StatsigErr::ChecksumFailure(_)) => true,
            _ => false,
        };
        if checksum_failed {
            self.use_deltas_next_request = false;
        } else if applied.is_ok() && !requested_deltas && self.allow_dcs_deltas {
            self.use_deltas_next_request = true;
        }
        applied
    }

    /// Applies a fetched payload (or the failure to fetch one) and updates whether the next
    /// request asks for deltas. `no_updates` is the body read as `{"has_updates": ...}`, when
    /// it reads so; it is not looked at for protobuf payloads.
    pub fn process_spec_data(
        &mut self,
        response: Result<NetworkResponse, NetworkError>,
        no_updates: Option<SpecsResponseNoUpdates>,
    ) -> (r: ProcessSpecDataOutcome)
        ensures
            same_settings(*final(self), *old(self)),
            final(self).delta_no_progress_count == old(self).delta_no_progress_count,
            final(self).last_forced_full_resync_at_ms == old(self).last_forced_full_resync_at_ms,
            final(self).background_sync_failure_count == old(self).background_sync_failure_count,
            response matches Err(e) ==> r.result == Err::<(), StatsigErr>(StatsigErr::NetworkError(e))
                && !r.had_updates && final(self).use_deltas_next_request == old(
                self,
            ).use_deltas_next_request,
            response matches Ok(resp) ==> {
                &&& r.had_updates == spec_had_updates(
                    spec_specs_response_format(resp.data.header_pairs()),
                    no_updates,
                )
                &&& old(self).listener is None ==> (r.result matches Err(
                    StatsigErr::UnstartedAdapter(m),
                ) && m@ == "Listener not set"@)
                &&& final(self).use_deltas_next_request == spec_deltas_after_apply(
                    old(self).use_deltas_next_request,
                    old(self).allow_dcs_deltas,
                    resp.requested_deltas,
                    r.result,
                )
            },
    {
        let resp = match response {
            Ok(resp) => resp,
            Err(e) => {
                return ProcessSpecDataOutcome {
                    result: Err(StatsigErr::NetworkError(e)),
                    had_updates: false,
                };
            },
        };
        let requested_deltas = resp.requested_deltas;
        let format = get_specs_response_format(&resp.data);
        let had_updates = if format == SpecsResponseFormat::Protobuf {
            true
        } else {
            match no_updates {
                Some(p) => p.has_updates,
                None => true,
            }
        };
        let update = network_specs_update(resp, now_millis());
        let applied = match &self.listener {
            Some(listener) => listener.did_receive_specs_update(update),
            None => Err(StatsigErr::UnstartedAdapter(String::from_str("Listener not set"))),
        };
        let result = self.after_listener_apply(requested_deltas, applied);
        ProcessSpecDataOutcome { result, had_updates }
    }

    /// Whether to retry a failed sync against the fallback endpoint: never after a success
    /// or without a fallback; always for a first or manual sync; for a background sync, on
    /// every `STATSIG_NETWORK_FALLBACK_THRESHOLD`-th failure, counting this one.
    pub fn should_attempt_fallback(&mut self, trigger: SpecsSyncTrigger, result: &Result<(), StatsigErr>) -> (r: bool)
        requires
            (result is Err && old(self).fallback_url is Some && trigger
                == SpecsSyncTrigger::Background) ==> old(self).background_sync_failure_count < u32::MAX,
        ensures
            same_settings(*final(self), *old(self)),
            spec_delta_state(*final(self)) == spec_delta_state(*old(self)),
            (result is Ok || old(self).fallback_url is None) ==> !r
                && final(self).background_sync_failure_count == old(self).background_sync_failure_count,
            (result is Err && old(self).fallback_url is Some && trigger != SpecsSyncTrigger::Background)
                ==> r && final(self).background_sync_failure_count == old(self).background_sync_failure_count,
            (result is Err && old(self).fallback_url is Some && trigger == SpecsSyncTrigger::Background)
                ==> final(self).background_sync_failure_count == old(self).background_sync_failure_count + 1
                && r == (final(self).background_sync_failure_count % STATSIG_NETWORK_FALLBACK_THRESHOLD == 0),
    {
        if result.is_ok() || self.fallback_url.is_none() {
            return false;
        }
        if trigger != SpecsSyncTrigger::Background {
            return true;
        }
        let failure_count = self.background_sync_failure_count + 1;
        self.background_sync_failure_count = failure_count;
        failure_count % STATSIG_NETWORK_FALLBACK_THRESHOLD == 0
    }

    /// The stall check of a sync, given the listener's update time after the sync and the
    /// current time.
    pub fn maybe_force_full_resync_at(
        &mut self,
        trigger: SpecsSyncTrigger,
        pre_lcut: Option<u64>,
        requested_deltas: bool,
        had_updates: bool,
        result: &Result<(), StatsigErr>,
        post_lcut: Option<u64>,
        now_ms: u64,
    )
        requires
            stall_counted(
                trigger,
                old(self).allow_dcs_deltas,
                old(self).delta_no_progress_threshold,
                pre_lcut,
                requested_deltas,
                had_updates,
                *result,
                post_lcut,
            ) ==> old(self).delta_no_progress_count < u32::MAX,
        ensures
            same_settings(*final(self), *old(self)),
            final(self).background_sync_failure_count == old(self).background_sync_failure_count,
            spec_delta_state(*final(self)) == spec_stall_step(
                spec_delta_state(*old(self)),
                trigger,
                old(self).allow_dcs_deltas,
                old(self).delta_no_progress_threshold,
                pre_lcut,
                requested_deltas,
                had_updates,
                *result,
                post_lcut,
                now_ms,
            ),
    {
        if trigger != SpecsSyncTrigger::Background || !self.allow_dcs_deltas
            || self.delta_no_progress_threshold == 0 {
            return ;
        }
        if !requested_deltas {
            if result.is_ok() {
                self.delta_no_progress_count = 0;
            }
            return ;
        }
        let network_failed = match result {
            Err(StatsigErr::NetworkError(_)) => true,
            _ => false,
        };
        if network_failed {
            return ;
        }
        if !had_updates {
            self.delta_no_progress_count = 0;
            return ;
        }
        if result.is_ok() && lcut_advanced(pre_lcut, post_lcut) {
            self.delta_no_progress_count = 0;
            return ;
        }
        let count = self.delta_no_progress_count + 1;
        self.delta_no_progress_count = count;
        if !forced_resync_due(
            count,
            self.delta_no_progress_threshold,
            self.last_forced_full_resync_at_ms,
            now_ms,
            MIN_FORCED_FULL_RESYNC_INTERVAL_MS,
        ) {
            return ;
        }
        self.use_deltas_next_request = false;
        self.last_forced_full_resync_at_ms = now_ms;
        self.delta_no_progress_count = 0;
    }

    /// Recovers from a stalled delta stream: counts background delta syncs that carried
    /// updates but did not advance the listener's update time, and once the streak reaches
    /// the threshold (and no forced resync happened within `MIN_FORCED_FULL_RESYNC_INTERVAL_MS`)
    /// makes the next request a full one. The listener's update time and the clock are read
    /// here.
    pub fn maybe_force_full_resync_on_stalled_deltas(
        &mut self,
        trigger: SpecsSyncTrigger,
        pre_lcut: Option<u64>,
        requested_deltas: bool,
        had_updates: bool,
        result: &Result<(), StatsigErr>,
    )
        requires
            stall_may_count(
                trigger,
                old(self).allow_dcs_deltas,
                old(self).delta_no_progress_threshold,
                requested_deltas,
                had_updates,
                *result,
            ) ==> old(self).delta_no_progress_count < u32::MAX,
        ensures
            same_settings(*final(self), *old(self)),
            final(self).background_sync_failure_count == old(self).background_sync_failure_count,
            exists|post_lcut: Option<u64>, now_ms: u64|
                spec_delta_state(*final(self)) == spec_stall_step(
                    spec_delta_state(*old(self)),
                    trigger,
                    old(self).allow_dcs_deltas,
                    old(self).delta_no_progress_threshold,
                    pre_lcut,
                    requested_deltas,
                    had_updates,
                    *result,
                    post_lcut,
                    now_ms,
                ),
    {
        let needs_lcut = trigger == SpecsSyncTrigger::Background && self.allow_dcs_deltas
            && self.delta_no_progress_threshold != 0 && requested_deltas && had_updates
            && result.is_ok();
        let post_lcut = if needs_lcut {
            self.get_listener_lcut()
        } else {
            None
        };
        let now_ms = now_millis();
        self.maybe_force_full_resync_at(
            trigger,
            pre_lcut,
            requested_deltas,
            had_updates,
            result,
            post_lcut,
            now_ms,
        );
    }
}

/// The response to a config-specs request as the adapter uses it: a response without a body
/// is a `RequestFailed` carrying the provider's error (or `No data in response`).
pub fn network_response_from(
    url: String,
    requested_deltas: bool,
    response: Result<Response, NetworkError>,
) -> (r: Result<NetworkResponse, NetworkError>)
    ensures
        response matches Err(e) ==> r == Err::<NetworkResponse, NetworkError>(e),
        response matches Ok(resp) ==> match resp.data {
            None => r matches Err(NetworkError::RequestFailed(u, s, m)) && u == url && s is None
                && m@ == (match resp.error {
                Some(e) => e@,
                None => "No data in response"@,
            }),
            Some(d) => r matches Ok(n) && n.data == d && n.requested_deltas == requested_deltas
                && n.loggable_api@ == spec_api_from_url(url@),
        },
{
    match response {
        Err(e) => Err(e),
        Ok(resp) => match resp.data {
            Some(data) => {
                let loggable_api = get_api_from_url(url.as_str());
                Ok(NetworkResponse { data, loggable_api, requested_deltas })
            },
            None => {
                let message = match resp.error {
                    Some(e) => e,
                    None => String::from_str("No data in response"),
                };
                Err(NetworkError::RequestFailed(url, None, message))
            },
        },
    }
}

/// What a sync did so far, for its result and its latency metric.
pub struct SyncReport {
    pub source_api: String,
    pub response_format: SpecsResponseFormat,
    pub network_success: NetworkSyncOutcome,
    pub deltas_used: bool,
    pub result: Result<(), StatsigErr>,
    pub had_updates: bool,
}

/// Whether the payload was applied without a network failure.
pub fn process_success(result: &Result<(), StatsigErr>) -> (r: bool)
    ensures
        r == !is_network_err(*result),
{
    match result {
        Err(StatsigErr::NetworkError(_)) => false,
        _ => true,
    }
}

impl<L: SpecsUpdateListener> StatsigHttpSpecsAdapter<L> {
    /// Starts a sync: refused with `UnstartedAdapter` when no listener is set, otherwise the
    /// request to send.
    pub fn begin_sync(&self, current_specs_info: &SpecsInfo, trigger: SpecsSyncTrigger) -> (r: Result<
        RequestArgs,
        StatsigErr,
    >)
        ensures
            self.listener is None <==> r is Err,
            r matches Err(e) ==> e matches StatsigErr::UnstartedAdapter(m) && m@
                == "Listener not set"@,
            r matches Ok(a) ==> is_specs_request(
                a,
                self.specs_url@,
                self.sdk_key@,
                self.use_deltas_next_request,
                self.init_timeout_ms,
                *current_specs_info,
                trigger,
            ),
    {
        if self.listener.is_none() {
            return Err(StatsigErr::UnstartedAdapter(String::from_str("Listener not set")));
        }
        Ok(self.get_request_args(current_specs_info, trigger))
    }

    /// Handles the response to a sync's first request: applies it and decides whether to
    /// try the fallback endpoint, returning the report so far and the fallback request.
    pub fn after_primary_fetch(
        &mut self,
        trigger: SpecsSyncTrigger,
        current_specs_info: &SpecsInfo,
        response: Result<NetworkResponse, NetworkError>,
        no_updates: Option<SpecsResponseNoUpdates>,
    ) -> (r: (SyncReport, Option<RequestArgs>))
        requires
            (old(self).fallback_url is Some && trigger == SpecsSyncTrigger::Background)
                ==> old(self).background_sync_failure_count < u32::MAX,
        ensures
            final(self).use_deltas_next_request == (match response {
                Ok(resp) => spec_deltas_after_apply(
                    old(self).use_deltas_next_request,
                    old(self).allow_dcs_deltas,
                    resp.requested_deltas,
                    r.0.result,
                ),
                Err(_) => old(self).use_deltas_next_request,
            }),
            response matches Ok(resp) ==> r.0.had_updates == spec_had_updates(
                spec_specs_response_format(resp.data.header_pairs()),
                no_updates,
            ),
            (response is Ok && old(self).listener is None) ==> (r.0.result matches Err(
                StatsigErr::UnstartedAdapter(m),
            ) && m@ == "Listener not set"@),
            !(r.0.result is Err && old(self).fallback_url is Some && trigger
                == SpecsSyncTrigger::Background) ==> final(self).background_sync_failure_count
                == old(self).background_sync_failure_count,
            (r.0.result is Err && old(self).fallback_url is Some && trigger
                == SpecsSyncTrigger::Background) ==> final(self).background_sync_failure_count
                == old(self).background_sync_failure_count + 1 && (r.1 is Some <==> (final(self).background_sync_failure_count
                % STATSIG_NETWORK_FALLBACK_THRESHOLD == 0)),
            same_settings(*final(self), *old(self)),
            final(self).delta_no_progress_count == old(self).delta_no_progress_count,
            final(self).last_forced_full_resync_at_ms == old(self).last_forced_full_resync_at_ms,
            response is Err ==> r.0.network_success == NetworkSyncOutcome::Failure
                && r.0.response_format == SpecsResponseFormat::Unknown && r.0.source_api@
                == spec_api_from_url(spec_construct_specs_url(old(self).specs_url@, old(self).sdk_key@))
                && r.0.result is Err && !r.0.had_updates,
            response matches Ok(resp) ==> r.0.network_success == NetworkSyncOutcome::Success
                && r.0.response_format == spec_specs_response_format(resp.data.header_pairs())
                && r.0.source_api == resp.loggable_api,
            r.1 is None ==> r.0.deltas_used == (match response {
                Ok(resp) => resp.requested_deltas,
                Err(_) => old(self).use_deltas_next_request,
            }),
            r.1 is Some ==> {
                &&& r.0.result is Err
                &&& old(self).fallback_url is Some
                &&& is_specs_request(
                    r.1->0,
                    old(self).fallback_url->0@,
                    old(self).sdk_key@,
                    final(self).use_deltas_next_request,
                    old(self).init_timeout_ms,
                    *current_specs_info,
                    trigger,
                )
                &&& r.0.deltas_used == final(self).use_deltas_next_request
            },
            (r.0.result is Err && old(self).fallback_url is Some && trigger
                != SpecsSyncTrigger::Background) ==> r.1 is Some,
            (r.0.result is Ok || old(self).fallback_url is None) ==> r.1 is None,
    {
        let mut deltas_used = self.use_deltas_next_request;
        let (source_api, response_format, network_success) = match &response {
            Ok(resp) => (
                resp.loggable_api.clone(),
                get_specs_response_format(&resp.data),
                NetworkSyncOutcome::Success,
            ),
            Err(_) => {
                let url = construct_specs_url(self.specs_url.as_str(), self.sdk_key.as_str());
                (get_api_from_url(url.as_str()), SpecsResponseFormat::Unknown, NetworkSyncOutcome::Failure)
            },
        };
        match &response {
            Ok(resp) => {
                deltas_used = resp.requested_deltas;
            },
            Err(_) => {},
        }
        let outcome = self.process_spec_data(response, no_updates);
        let fallback = if self.should_attempt_fallback(trigger, &outcome.result) {
            let mut args = self.get_request_args(current_specs_info, trigger);
            deltas_used = args.deltas_enabled;
            match &self.fallback_url {
                Some(url) => {
                    args.url = construct_specs_url(url.as_str(), self.sdk_key.as_str());
                },
                None => {},
            }
            Some(args)
        } else {
            None
        };
        (
            SyncReport {
                source_api,
                response_format,
                network_success,
                deltas_used,
                result: outcome.result,
                had_updates: outcome.had_updates,
            },
            fallback,
        )
    }

    /// Handles the response to the fallback request of a sync.
    pub fn after_fallback_fetch(
        &mut self,
        report: SyncReport,
        response: Result<NetworkResponse, NetworkError>,
        no_updates: Option<SpecsResponseNoUpdates>,
    ) -> (r: SyncReport)
        ensures
            final(self).use_deltas_next_request == (match response {
                Ok(resp) => spec_deltas_after_apply(
                    old(self).use_deltas_next_request,
                    old(self).allow_dcs_deltas,
                    resp.requested_deltas,
                    r.result,
                ),
                Err(_) => old(self).use_deltas_next_request,
            }),
            response matches Ok(resp) ==> r.had_updates == spec_had_updates(
                spec_specs_response_format(resp.data.header_pairs()),
                no_updates,
            ),
            (response is Ok && old(self).listener is None) ==> (r.result matches Err(
                StatsigErr::UnstartedAdapter(m),
            ) && m@ == "Listener not set"@),
            same_settings(*final(self), *old(self)),
            final(self).delta_no_progress_count == old(self).delta_no_progress_count,
            final(self).last_forced_full_resync_at_ms == old(self).last_forced_full_resync_at_ms,
            final(self).background_sync_failure_count == old(self).background_sync_failure_count,
            response matches Ok(resp) ==> r.network_success == NetworkSyncOutcome::Success
                && r.response_format == spec_specs_response_format(resp.data.header_pairs())
                && r.source_api == resp.loggable_api && r.deltas_used == resp.requested_deltas,
            response is Err ==> r.network_success == NetworkSyncOutcome::Failure
                && r.response_format == report.response_format && r.deltas_used
                == report.deltas_used && r.result is Err && !r.had_updates && r.source_api@
                == (match old(self).fallback_url {
                Some(f) => spec_api_from_url(spec_construct_specs_url(f@, old(self).sdk_key@)),
                None => report.source_api@,
            }),
    {
        let mut report = report;
        match &response {
            Ok(resp) => {
                report.source_api = resp.loggable_api.clone();
                report.response_format = get_specs_response_format(&resp.data);
                report.network_success = NetworkSyncOutcome::Success;
                report.deltas_used = resp.requested_deltas;
            },
            Err(_) => {
                match &self.fallback_url {
                    Some(f) => {
                        let url = construct_specs_url(f.as_str(), self.sdk_key.as_str());
                        report.source_api = get_api_from_url(url.as_str());
                    },
                    None => {},
                }
                report.network_success = NetworkSyncOutcome::Failure;
            },
        }
        let outcome = self.process_spec_data(response, no_updates);
        report.result = outcome.result;
        report.had_updates = outcome.had_updates;
        report
    }

    /// Ends a sync: runs the stall check on what the sync did and returns its result.
    pub fn finish_sync(
        &mut self,
        trigger: SpecsSyncTrigger,
        current_specs_info: &SpecsInfo,
        report: &SyncReport,
    ) -> (r: Result<(), StatsigErr>)
        requires
            stall_may_count(
                trigger,
                old(self).allow_dcs_deltas,
                old(self).delta_no_progress_threshold,
                report.deltas_used,
                report.had_updates,
                report.result,
            ) ==> old(self).delta_no_progress_count < u32::MAX,
        ensures
            r == report.result,
            same_settings(*final(self), *old(self)),
            final(self).background_sync_failure_count == old(self).background_sync_failure_count,
            exists|post_lcut: Option<u64>, now_ms: u64|
                spec_delta_state(*final(self)) == spec_stall_step(
                    spec_delta_state(*old(self)),
                    trigger,
                    old(self).allow_dcs_deltas,
                    old(self).delta_no_progress_threshold,
                    current_specs_info.lcut,
                    report.deltas_used,
                    report.had_updates,
                    report.result,
                    post_lcut,
                    now_ms,
                ),
    {
        self.maybe_force_full_resync_on_stalled_deltas(
            trigger,
            current_specs_info.lcut,
            report.deltas_used,
            report.had_updates,
            &report.result,
        );
        copy_result(&report.result)
    }
}

/// A copy of a sync result.
fn copy_result(r: &Result<(), StatsigErr>) -> (c: Result<(), StatsigErr>)
    ensures
        c == *r,
{
    match r {
        Ok(u) => Ok(*u),
        Err(e) => Err(e.copy_err()),
    }
}

} // verus!
