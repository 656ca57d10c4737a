use statsig_rust::http_specs_adapter::{network_response_from, StatsigHttpSpecsAdapter};
use statsig_rust::http_types::{Response, ResponseData};
use statsig_rust::network_error::NetworkError;
use statsig_rust::specs_adapter::{
    construct_specs_url, forced_resync_due, get_specs_response_format, NetworkResponse,
    SpecsInfo, SpecsResponseFormat, SpecsSource, SpecsSyncTrigger, SpecsUpdate,
    SpecsUpdateListener, DEFAULT_DCS_DELTA_NO_PROGRESS_THRESHOLD,
};
use statsig_rust::specs_sync::lcut_advanced;
use statsig_rust::statsig_err::StatsigErr;
use statsig_rust::statsig_metadata::StatsigMetadata;
use statsig_rust::statsig_options::StatsigOptions;
use std::cell::Cell;

#[test]
fn test_forced_resync_due_time_throttle() {
    let threshold = 10;
    let window = 300_000;
    assert!(!forced_resync_due(threshold - 1, threshold, 0, 1_000_000, window));
    assert!(forced_resync_due(threshold, threshold, 0, 1_000_000, window));
    assert!(!forced_resync_due(
        threshold,
        threshold,
        1_000_000,
        1_000_000 + window - 1,
        window
    ));
    assert!(forced_resync_due(
        threshold,
        threshold,
        1_000_000,
        1_000_000 + window,
        window
    ));
}

#[test]
fn test_forced_resync_due_backward_clock() {
    let threshold = 10;
    let window = 300_000;
    assert!(forced_resync_due(threshold, threshold, 1_000_000, 999_999, window));
}

#[test]
fn test_lcut_advanced_semantics() {
    assert!(lcut_advanced(Some(1), Some(2)));
    assert!(lcut_advanced(None, Some(1)));
    assert!(!lcut_advanced(Some(2), Some(2)));
    assert!(!lcut_advanced(Some(2), Some(1)));
    assert!(!lcut_advanced(Some(1), None));
}

fn with_headers(pairs: &[(&str, &str)]) -> ResponseData {
    let headers = pairs.iter().map(|(k, v)| (k.to_string(), v.to_string())).collect();
    ResponseData::from_bytes_with_headers(vec![], Some(headers))
}

#[test]
fn test_get_response_format_json() {
    let data = with_headers(&[("content-type", "application/json")]);
    assert!(matches!(get_specs_response_format(&data), SpecsResponseFormat::Json));
}

#[test]
fn test_get_response_format_plain_text() {
    let data = with_headers(&[("content-type", "text/plain; charset=utf-8")]);
    assert!(matches!(get_specs_response_format(&data), SpecsResponseFormat::PlainText));
}

#[test]
fn test_get_response_format_protobuf() {
    let data = with_headers(&[
        ("content-type", "application/octet-stream"),
        ("content-encoding", "statsig-br"),
    ]);
    assert!(matches!(get_specs_response_format(&data), SpecsResponseFormat::Protobuf));
}

#[test]
fn test_get_response_format_unknown_without_content_type() {
    let data = ResponseData::from_bytes(vec![]);
    assert!(matches!(get_specs_response_format(&data), SpecsResponseFormat::Unknown));
}

#[test]
fn response_format_is_case_insensitive() {
    let data = with_headers(&[("content-type", "Application/Vnd.Api+JSON")]);
    assert_eq!(get_specs_response_format(&data), SpecsResponseFormat::Json);
    assert_eq!(SpecsResponseFormat::PlainText.as_str(), "plain_text");
}

struct StalledLcutListener {
    lcut: u64,
}

impl SpecsUpdateListener for StalledLcutListener {
    fn did_receive_specs_update(&self, _update: SpecsUpdate) -> Result<(), StatsigErr> {
        Ok(())
    }

    fn get_current_specs_info(&self) -> SpecsInfo {
        SpecsInfo {
            lcut: Some(self.lcut),
            checksum: None,
            zstd_dict_id: None,
            source: SpecsSource::Network,
            source_api: None,
        }
    }
}

struct ChecksumFailingThenSuccessListener {
    calls: Cell<usize>,
}

impl SpecsUpdateListener for ChecksumFailingThenSuccessListener {
    fn did_receive_specs_update(&self, _update: SpecsUpdate) -> Result<(), StatsigErr> {
        let curr = self.calls.get();
        self.calls.set(curr + 1);
        if curr == 0 {
            Err(StatsigErr::ChecksumFailure("simulated checksum failure".to_string()))
        } else {
            Ok(())
        }
    }

    fn get_current_specs_info(&self) -> SpecsInfo {
        SpecsInfo::empty()
    }
}

fn delta_adapter<L: SpecsUpdateListener>(threshold: Option<u32>) -> StatsigHttpSpecsAdapter<L> {
    let options = StatsigOptions {
        enable_dcs_deltas: Some(true),
        dcs_delta_no_progress_threshold: threshold,
        ..StatsigOptions::default()
    };
    StatsigHttpSpecsAdapter::new(
        "secret-key",
        Some(&options),
        Some("https://example.com/v2/download_config_specs".to_string()),
        &StatsigMetadata::new(),
    )
}

fn accept_deltas_enabled<L: SpecsUpdateListener>(adapter: &StatsigHttpSpecsAdapter<L>) -> bool {
    adapter
        .get_request_args(&SpecsInfo::empty(), SpecsSyncTrigger::Manual)
        .query_params
        .as_ref()
        .is_some_and(|p| p.iter().any(|(k, _)| k == "accept_deltas"))
}

fn network_response(requested_deltas: bool) -> Result<NetworkResponse, NetworkError> {
    Ok(NetworkResponse {
        data: ResponseData::from_bytes(vec![]),
        loggable_api: "test-api".to_string(),
        requested_deltas,
    })
}

#[test]
fn test_force_full_resync_after_stalled_delta_syncs() {
    let mut adapter = delta_adapter(None);
    adapter.initialize(StalledLcutListener { lcut: 100 });
    assert!(accept_deltas_enabled(&adapter));
    for _ in 0..DEFAULT_DCS_DELTA_NO_PROGRESS_THRESHOLD {
        adapter.maybe_force_full_resync_on_stalled_deltas(
            SpecsSyncTrigger::Background,
            Some(100),
            true,
            true,
            &Ok(()),
        );
    }
    assert!(!accept_deltas_enabled(&adapter));
}

#[test]
fn test_no_force_when_delta_syncs_progress() {
    let mut adapter = delta_adapter(None);
    adapter.initialize(StalledLcutListener { lcut: 100 });
    for _ in 0..(DEFAULT_DCS_DELTA_NO_PROGRESS_THRESHOLD * 2) {
        adapter.maybe_force_full_resync_on_stalled_deltas(
            SpecsSyncTrigger::Background,
            Some(50),
            true,
            true,
            &Ok(()),
        );
    }
    assert!(accept_deltas_enabled(&adapter));
}

#[test]
fn test_network_error_does_not_count_as_stall() {
    let mut adapter = delta_adapter(None);
    adapter.initialize(StalledLcutListener { lcut: 100 });
    for _ in 0..(DEFAULT_DCS_DELTA_NO_PROGRESS_THRESHOLD * 3) {
        adapter.maybe_force_full_resync_on_stalled_deltas(
            SpecsSyncTrigger::Background,
            Some(100),
            true,
            true,
            &Err(StatsigErr::NetworkError(NetworkError::DisableNetworkOn("offline".to_string()))),
        );
    }
    assert_eq!(adapter.delta_no_progress_count, 0);
    assert!(accept_deltas_enabled(&adapter));
}

#[test]
fn test_zero_threshold_disables_recovery() {
    let mut adapter = delta_adapter(Some(0));
    adapter.initialize(StalledLcutListener { lcut: 100 });
    assert_eq!(adapter.delta_no_progress_threshold, 0);
    for _ in 0..(DEFAULT_DCS_DELTA_NO_PROGRESS_THRESHOLD * 3) {
        adapter.maybe_force_full_resync_on_stalled_deltas(
            SpecsSyncTrigger::Background,
            Some(100),
            true,
            true,
            &Ok(()),
        );
    }
    assert_eq!(adapter.delta_no_progress_count, 0);
    assert!(accept_deltas_enabled(&adapter));
}

#[test]
fn test_reenable_accept_deltas_after_successful_non_delta_update() {
    let mut adapter = delta_adapter(None);
    adapter.initialize(ChecksumFailingThenSuccessListener { calls: Cell::new(0) });
    let first = adapter.process_spec_data(network_response(true), None).result;
    assert!(matches!(first, Err(StatsigErr::ChecksumFailure(_))));
    assert!(!accept_deltas_enabled(&adapter));
    let second = adapter.process_spec_data(network_response(false), None).result;
    assert!(second.is_ok());
    assert!(accept_deltas_enabled(&adapter));
}

#[test]
fn request_args_carry_sync_parameters() {
    let adapter: StatsigHttpSpecsAdapter<StalledLcutListener> = delta_adapter(None);
    let info = SpecsInfo {
        lcut: Some(123),
        checksum: Some("a b/c".to_string()),
        zstd_dict_id: None,
        source: SpecsSource::Network,
        source_api: None,
    };
    let args = adapter.get_request_args(&info, SpecsSyncTrigger::Initial);
    assert_eq!(args.url, "https://example.com/v2/download_config_specs/secret-key.json");
    assert_eq!(args.timeout_ms, 3000);
    assert_eq!(args.retries, 0);
    let params = args.query_params.unwrap();
    assert!(params.contains(&("sinceTime".to_string(), "123".to_string())));
    assert!(params.contains(&("checksum".to_string(), "a%20b%2Fc".to_string())));
    let bg = adapter.get_request_args(&SpecsInfo::empty(), SpecsSyncTrigger::Background);
    assert_eq!(bg.retries, 3);
    assert_eq!(bg.timeout_ms, 0);
}

#[test]
fn fallback_is_paced_on_background_failures() {
    let options = StatsigOptions {
        fallback_to_statsig_api: Some(true),
        ..StatsigOptions::default()
    };
    let mut adapter: StatsigHttpSpecsAdapter<StalledLcutListener> = StatsigHttpSpecsAdapter::new(
        "secret-key",
        Some(&options),
        Some("https://example.com/v2/download_config_specs".to_string()),
        &StatsigMetadata::new(),
    );
    let err: Result<(), StatsigErr> = Err(StatsigErr::LockFailure("x".to_string()));
    assert!(adapter.should_attempt_fallback(SpecsSyncTrigger::Manual, &err));
    let mut fallbacks = 0;
    for _ in 0..10 {
        if adapter.should_attempt_fallback(SpecsSyncTrigger::Background, &err) {
            fallbacks += 1;
        }
    }
    assert_eq!(fallbacks, 2);
    assert!(!adapter.should_attempt_fallback(SpecsSyncTrigger::Manual, &Ok(())));
}

#[test]
fn missing_body_becomes_request_failed() {
    let resp = Response { status_code: Some(500), data: None, error: None };
    match network_response_from("https://x".to_string(), false, Ok(resp)) {
        Err(NetworkError::RequestFailed(u, None, m)) => {
            assert_eq!(u, "https://x");
            assert_eq!(m, "No data in response");
        }
        _ => panic!("expected request failure"),
    }
}

#[test]
fn specs_url_construction() {
    assert_eq!(construct_specs_url("https://a/b", "k"), "https://a/b/k.json");
}

#[test]
fn specs_source_round_trips_through_text() {
    for source in [
        SpecsSource::Uninitialized,
        SpecsSource::NoValues,
        SpecsSource::Error,
        SpecsSource::Loading,
        SpecsSource::Network,
        SpecsSource::Bootstrap,
        SpecsSource::Adapter("Redis".to_string()),
    ] {
        let text = source.to_display_string();
        assert_eq!(SpecsSource::new_from_string(&text), source);
    }
    assert_eq!(SpecsSource::new_from_string("Adapter(x"), SpecsSource::Adapter(String::new()));
    assert_eq!(SpecsSource::new_from_string("bogus"), SpecsSource::Error);
}

struct ChecksumFailingListener;

impl SpecsUpdateListener for ChecksumFailingListener {
    fn did_receive_specs_update(&self, _update: SpecsUpdate) -> Result<(), StatsigErr> {
        Err(StatsigErr::ChecksumFailure("simulated checksum failure".to_string()))
    }

    fn get_current_specs_info(&self) -> SpecsInfo {
        SpecsInfo::empty()
    }
}

fn stall<L: SpecsUpdateListener>(adapter: &mut StatsigHttpSpecsAdapter<L>, times: u32, lcut: u64, deltas: bool, had_updates: bool, result: &Result<(), StatsigErr>) {
    for _ in 0..times {
        adapter.maybe_force_full_resync_on_stalled_deltas(SpecsSyncTrigger::Background, Some(lcut), deltas, had_updates, result);
    }
}

#[test]
fn test_disable_accept_deltas_after_checksum_failure() {
    let mut adapter = delta_adapter(None);
    let specs_info = SpecsInfo::empty();
    let request_before = adapter.get_request_args(&specs_info, SpecsSyncTrigger::Manual);
    assert_eq!(
        request_before
            .query_params
            .as_ref()
            .and_then(|p| p.iter().find(|(k, _)| k == "accept_deltas").map(|(_, v)| v.clone()))
            .as_deref(),
        Some("true")
    );
    adapter.initialize(ChecksumFailingListener);
    let result = adapter.process_spec_data(network_response(true), None).result;
    assert!(matches!(result, Err(StatsigErr::ChecksumFailure(_))));
    let request_after = adapter.get_request_args(&specs_info, SpecsSyncTrigger::Manual);
    assert!(request_after
        .query_params
        .as_ref()
        .is_none_or(|p| !p.iter().any(|(k, _)| k == "accept_deltas")));
}

#[test]
fn test_does_not_repeat_full_resync_within_throttle_window() {
    let mut adapter = delta_adapter(None);
    adapter.initialize(StalledLcutListener { lcut: 100 });
    stall(&mut adapter, DEFAULT_DCS_DELTA_NO_PROGRESS_THRESHOLD, 100, true, true, &Ok(()));
    assert!(!accept_deltas_enabled(&adapter));
    let reenable = adapter.process_spec_data(network_response(false), None).result;
    assert!(reenable.is_ok());
    assert!(accept_deltas_enabled(&adapter));
    stall(&mut adapter, DEFAULT_DCS_DELTA_NO_PROGRESS_THRESHOLD * 2, 100, true, true, &Ok(()));
    assert!(accept_deltas_enabled(&adapter));
}

#[test]
fn test_counts_non_network_apply_failures_as_no_progress() {
    let mut adapter = delta_adapter(None);
    adapter.initialize(StalledLcutListener { lcut: 100 });
    let failed = Err(StatsigErr::LockFailure("apply failed".to_string()));
    stall(&mut adapter, DEFAULT_DCS_DELTA_NO_PROGRESS_THRESHOLD, 100, true, true, &failed);
    assert!(!accept_deltas_enabled(&adapter));
}

#[test]
fn test_resets_count_on_successful_non_delta_sync() {
    let mut adapter = delta_adapter(None);
    adapter.initialize(StalledLcutListener { lcut: 100 });
    stall(&mut adapter, DEFAULT_DCS_DELTA_NO_PROGRESS_THRESHOLD - 1, 100, true, true, &Ok(()));
    assert_eq!(adapter.delta_no_progress_count, DEFAULT_DCS_DELTA_NO_PROGRESS_THRESHOLD - 1);
    adapter.maybe_force_full_resync_on_stalled_deltas(SpecsSyncTrigger::Background, Some(100), false, true, &Ok(()));
    assert_eq!(adapter.delta_no_progress_count, 0);
}

#[test]
fn test_no_update_response_not_counted_as_stall() {
    let mut adapter = delta_adapter(None);
    adapter.initialize(StalledLcutListener { lcut: 100 });
    stall(&mut adapter, DEFAULT_DCS_DELTA_NO_PROGRESS_THRESHOLD * 3, 100, true, false, &Ok(()));
    assert_eq!(adapter.delta_no_progress_count, 0);
    assert!(accept_deltas_enabled(&adapter));
    let failed = Err(StatsigErr::LockFailure("boom".to_string()));
    stall(&mut adapter, DEFAULT_DCS_DELTA_NO_PROGRESS_THRESHOLD * 3, 100, true, false, &failed);
    assert_eq!(adapter.delta_no_progress_count, 0);
    assert!(accept_deltas_enabled(&adapter));
}

#[test]
fn test_configurable_no_progress_threshold() {
    let custom_threshold = 3;
    let mut adapter = delta_adapter(Some(custom_threshold));
    adapter.initialize(StalledLcutListener { lcut: 100 });
    stall(&mut adapter, custom_threshold - 1, 100, true, true, &Ok(()));
    assert!(accept_deltas_enabled(&adapter));
    adapter.maybe_force_full_resync_on_stalled_deltas(SpecsSyncTrigger::Background, Some(100), true, true, &Ok(()));
    assert!(!accept_deltas_enabled(&adapter));
}

#[test]
fn network_update_carries_body_source_time_and_api() {
    let resp = NetworkResponse {
        data: ResponseData::from_bytes(b"{}".to_vec()),
        loggable_api: "api.example".to_string(),
        requested_deltas: false,
    };
    let u = statsig_rust::http_specs_adapter::network_specs_update(resp, 42);
    assert_eq!(u.source, SpecsSource::Network);
    assert_eq!(u.received_at, 42);
    assert_eq!(u.source_api.as_deref(), Some("api.example"));
    assert_eq!(u.data.get_stream_ref(), &b"{}".to_vec());
}

#[test]
fn listener_answer_sets_the_deltas_flag() {
    let mut adapter: StatsigHttpSpecsAdapter<StalledLcutListener> = delta_adapter(None);
    adapter.use_deltas_next_request = false;
    assert!(adapter.after_listener_apply(false, Ok(())).is_ok());
    assert!(adapter.use_deltas_next_request);
    let r = adapter.after_listener_apply(true, Err(StatsigErr::ChecksumFailure("x".to_string())));
    assert!(matches!(r, Err(StatsigErr::ChecksumFailure(_))));
    assert!(!adapter.use_deltas_next_request);
    assert!(adapter.after_listener_apply(true, Ok(())).is_ok());
    assert!(!adapter.use_deltas_next_request);
}

#[test]
fn begin_sync_request_carries_query_parameters() {
    let mut adapter: StatsigHttpSpecsAdapter<StalledLcutListener> = delta_adapter(None);
    adapter.initialize(StalledLcutListener { lcut: 5 });
    let info = SpecsInfo {
        lcut: Some(7),
        checksum: None,
        zstd_dict_id: None,
        source: SpecsSource::Network,
        source_api: None,
    };
    let args = adapter.begin_sync(&info, SpecsSyncTrigger::Background).unwrap();
    let params = args.query_params.unwrap();
    assert!(params.iter().any(|(k, v)| k == "supports_proto" && v == "true"));
    assert!(params.iter().any(|(k, v)| k == "sinceTime" && v == "7"));
    assert_eq!(args.retries, 3);
}
