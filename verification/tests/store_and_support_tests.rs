use statsig_rust::http_types::{ProxyConfig, RequestArgs};
use statsig_rust::marker::{ActionType, KeyType, Marker};
use statsig_rust::net_provider::{
    proxy_url, request_timeout_ms, split_credentials, transport_error_message, NetworkProviderNoop,
};
use statsig_rust::observability::{
    sampling_rate_key, ContextType, DiagnosticsMarkers, ErrorBoundaryEvent, ErrorsAggregator, OpsStatsEvent,
};
use statsig_rust::persistent_storage::SpecType;
use statsig_rust::spec_store::{
    SetValuesOutcome, are_current_values_newer, config_propagation_delay, should_log_config_propagation_diff,
    should_update_data_store, specs_update_prep, PrepResult, SpecEntry, SpecStoreData, SpecsFormat,
    SpecsIndex, SpecsVersion,
};
use statsig_rust::specs_adapter::SpecsSource;
use statsig_rust::statsig_err::StatsigErr;
use statsig_rust::statsig_metadata::StatsigMetadata;
use statsig_rust::sync_metrics::{config_sync_overall_tags, sync_latency_ms};

fn version(time: u64, checksum: Option<&str>, has_updates: bool) -> SpecsVersion {
    SpecsVersion { time, checksum: checksum.map(|s| s.to_string()), has_updates }
}

#[test]
fn newer_or_same_checksum_specs_are_kept() {
    assert!(are_current_values_newer(&version(10, None, true), &version(5, None, true)));
    assert!(!are_current_values_newer(&version(5, None, true), &version(10, None, true)));
    assert!(are_current_values_newer(&version(5, Some("abc"), true), &version(10, Some("abc"), true)));
    assert!(!are_current_values_newer(&version(5, Some(""), true), &version(10, Some(""), true)));
    assert!(!are_current_values_newer(&version(0, None, true), &version(0, None, true)));
}

#[test]
fn update_prep_picks_the_action() {
    let current = version(10, Some("a"), true);
    let r = specs_update_prep(&current, SpecsFormat::Json, Ok(version(20, Some("b"), true)), Ok(true));
    assert!(matches!(r, Ok(PrepResult::HasUpdates(v, SpecsFormat::Json)) if v.time == 20));
    let r = specs_update_prep(&current, SpecsFormat::Json, Ok(version(5, Some("b"), true)), Ok(true));
    assert!(matches!(r, Ok(PrepResult::CurrentValuesNewer)));
    let r = specs_update_prep(
        &current,
        SpecsFormat::Json,
        Err(StatsigErr::JsonParseError("a".to_string(), "b".to_string())),
        Ok(false),
    );
    assert!(matches!(r, Ok(PrepResult::NoUpdates)));
    let r = specs_update_prep(
        &current,
        SpecsFormat::Json,
        Err(StatsigErr::CustomError("first".to_string())),
        Err(StatsigErr::CustomError("second".to_string())),
    );
    assert!(matches!(r, Err(StatsigErr::CustomError(m)) if m == "first"));
    let r = specs_update_prep(&current, SpecsFormat::Json, Ok(version(20, Some("b"), false)), Ok(true));
    assert!(matches!(r, Err(StatsigErr::JsonParseError(t, m)) if t == "SpecsResponse" && m == "Unknown error"));
}

#[test]
fn store_bookkeeping() {
    assert!(!should_log_config_propagation_diff(&SpecsSource::Loading));
    assert!(should_log_config_propagation_diff(&SpecsSource::Network));
    assert_eq!(config_propagation_delay(1000, 400), 600);
    assert_eq!(config_propagation_delay(400, 1000), 0);
    assert!(should_update_data_store(&SpecsSource::Network, true));
    assert!(!should_update_data_store(&SpecsSource::Bootstrap, true));
    assert!(!should_update_data_store(&SpecsSource::Network, false));

    let mut store = SpecStoreData::new();
    let applied = store.apply(version(77, Some("c"), true), SpecsSource::Network, Some("api".to_string()), 123);
    assert_eq!(applied.prev_source, SpecsSource::Uninitialized);
    assert_eq!(applied.prev_lcut, 0);
    let info = store.get_current_specs_info();
    assert_eq!(info.lcut, Some(77));
    assert_eq!(info.checksum.as_deref(), Some("c"));
    assert_eq!(info.source, SpecsSource::Network);
    assert_eq!(info.source_api.as_deref(), Some("api"));
}

fn entry(name: &str, entity: &str, fields: Option<Vec<&str>>) -> SpecEntry {
    SpecEntry {
        name: name.to_string(),
        entity: entity.to_string(),
        fields_used: fields.map(|f| f.into_iter().map(|s| s.to_string()).collect()),
    }
}

#[test]
fn index_lookups() {
    let index = SpecsIndex {
        feature_gates: vec![entry("g1", "feature_gate", Some(vec!["email"])), entry("seg", "segment", None)],
        dynamic_configs: vec![entry("exp", "experiment", Some(vec!["country", "ip"]))],
        layer_configs: vec![],
        param_stores: Some(vec!["ps".to_string()]),
    };
    assert_eq!(index.get_fields_used_for_entity("g1", SpecType::Gate), vec!["email".to_string()]);
    assert_eq!(index.get_fields_used_for_entity("exp", SpecType::Experiment).len(), 2);
    assert!(index.get_fields_used_for_entity("exp", SpecType::Gate).is_empty());
    assert!(index.get_fields_used_for_entity("seg", SpecType::Gate).is_empty());
    assert_eq!(index.unperformant_keys_entity_filter("feature_gates", "segment"), vec!["seg".to_string()]);
    assert_eq!(index.unperformant_keys_entity_filter("feature_gates", "*").len(), 2);
    assert_eq!(index.unperformant_keys_entity_filter("param_stores", "x"), vec!["ps".to_string()]);
    assert!(index.unperformant_keys_entity_filter("nothing", "*").is_empty());
}

#[test]
fn proxy_settings() {
    let config = ProxyConfig {
        proxy_host: Some("localhost".to_string()),
        proxy_port: Some(8080),
        proxy_auth: None,
        proxy_protocol: None,
    };
    assert_eq!(proxy_url(&config).as_deref(), Some("http://localhost:8080"));
    let no_port = ProxyConfig { proxy_port: None, ..config };
    assert!(proxy_url(&no_port).is_none());
    assert_eq!(split_credentials("user:pa:ss"), Some(("user".to_string(), "pa:ss".to_string())));
    assert_eq!(split_credentials("nocolon"), None);
    let mut args = RequestArgs::new();
    assert_eq!(request_timeout_ms(&args), 10_000);
    args.timeout_ms = 250;
    assert_eq!(request_timeout_ms(&args), 250);
    assert_eq!(
        transport_error_message("boom".to_string(), Some("http://x".to_string()), Some("500".to_string())),
        "boom. URL: http://x. Status: 500"
    );
    assert_eq!(transport_error_message("boom".to_string(), None, None), "boom");
    let response = NetworkProviderNoop.send();
    assert!(response.status_code.is_none());
    assert!(response.data.is_none());
}

#[test]
fn errors_are_reported_once() {
    let mut aggregator = ErrorsAggregator::new();
    let event = ErrorBoundaryEvent {
        tag: "Tag".to_string(),
        info: StatsigErr::CustomError("bad".to_string()),
        dedupe_key: None,
        bypass_dedupe: false,
        extra: None,
    };
    assert!(aggregator.should_report(&event));
    assert!(!aggregator.should_report(&event));
    let forced = ErrorBoundaryEvent { bypass_dedupe: true, ..event };
    assert!(aggregator.should_report(&forced));
    let keyed = ErrorBoundaryEvent {
        tag: "Tag".to_string(),
        info: StatsigErr::CustomError("bad".to_string()),
        dedupe_key: Some("other".to_string()),
        bypass_dedupe: false,
        extra: None,
    };
    assert!(aggregator.should_report(&keyed));
}

#[test]
fn diagnostics_markers_are_kept_per_context() {
    let mut markers = DiagnosticsMarkers::new();
    assert_eq!(markers.get_context(None), ContextType::Initialize);
    markers.add_marker(None, Marker::new(KeyType::Initialize, ActionType::Start, None));
    markers.set_context(&ContextType::ConfigSync);
    markers.add_marker(None, Marker::new(KeyType::Overall, ActionType::End, None));
    assert_eq!(markers.initialize.len(), 1);
    assert_eq!(markers.config_sync.len(), 1);
    for _ in 0..60 {
        markers.add_marker(Some(&ContextType::Initialize), Marker::new(KeyType::Initialize, ActionType::Start, None));
    }
    assert_eq!(markers.initialize.len(), 50);
    markers.clear_markers(&ContextType::Initialize);
    assert!(markers.initialize.is_empty());
    assert_eq!(ContextType::ConfigSync.as_str(), "config_sync");
    assert!(matches!(
        OpsStatsEvent::enqueue_diagnostics_event(Some(KeyType::Overall), None),
        OpsStatsEvent::Diagnostics(d) if d.should_enqueue
    ));
}

#[test]
fn metadata_headers() {
    let mut metadata = StatsigMetadata::new();
    assert_eq!(metadata.sdk_type, "statsig-server-core");
    metadata.update_values("my-sdk".to_string(), "linux".to_string(), "x86_64".to_string(), "1.80".to_string());
    metadata.update_service_name(Some("svc".to_string()));
    let headers = metadata.get_constant_request_headers("secret-key");
    assert_eq!(headers[0], ("STATSIG-API-KEY".to_string(), "secret-key".to_string()));
    assert_eq!(headers[1], ("STATSIG-SDK-TYPE".to_string(), "my-sdk".to_string()));
    assert_eq!(headers[3].1, metadata.session_id);
    let copy = metadata.get_metadata();
    assert_eq!(copy.service_name.as_deref(), Some("svc"));
    assert_eq!(copy.os.as_deref(), Some("linux"));
}

#[test]
fn set_values_only_takes_newer_specs() {
    let mut store = SpecStoreData::new();
    let r = store.set_values(SpecsFormat::Json, Ok(version(100, Some("a"), true)), Ok(true), SpecsSource::Network, None, 5);
    assert!(matches!(r, Ok(SetValuesOutcome::Applied(ref a, SpecsFormat::Json)) if a.prev_lcut == 0 && a.time_received_at == 5));
    assert_eq!(store.values.time, 100);

    let r = store.set_values(SpecsFormat::Json, Ok(version(50, Some("b"), true)), Ok(true), SpecsSource::Bootstrap, None, 6);
    assert!(matches!(r, Ok(SetValuesOutcome::CurrentValuesNewer)));
    assert_eq!(store.values.time, 100);
    assert_eq!(store.source, SpecsSource::Network);

    let r = store.set_values(SpecsFormat::Json, Ok(version(200, Some("a"), true)), Ok(true), SpecsSource::Network, None, 7);
    assert!(matches!(r, Ok(SetValuesOutcome::CurrentValuesNewer)));

    let r = store.set_values(
        SpecsFormat::Json,
        Err(StatsigErr::JsonParseError("x".to_string(), "y".to_string())),
        Ok(false),
        SpecsSource::Network,
        None,
        8,
    );
    assert!(matches!(r, Ok(SetValuesOutcome::NoUpdates)));
    assert_eq!(store.time_received_at, Some(5));

    let r = store.set_values(SpecsFormat::Protobuf, Ok(version(300, Some("c"), true)), Ok(true), SpecsSource::Network, Some("api".to_string()), 9);
    assert!(matches!(r, Ok(SetValuesOutcome::Applied(ref a, SpecsFormat::Protobuf)) if a.prev_lcut == 100));
    assert_eq!(store.source_api.as_deref(), Some("api"));
}

#[test]
fn config_sync_metric_tags() {
    let tags = config_sync_overall_tags("datastore", "json", false, true, String::new(), false);
    assert_eq!(tags[0], ("source_api".to_string(), "datastore".to_string()));
    assert_eq!(tags[1], ("format".to_string(), "json".to_string()));
    assert_eq!(tags[3], ("network_success".to_string(), "false".to_string()));
    assert_eq!(tags[4], ("process_success".to_string(), "true".to_string()));
    let tags = config_sync_overall_tags(
        "https://api.statsigcdn.com/v2/download_config_specs/secret-key.json",
        "protobuf",
        true,
        false,
        "boom".to_string(),
        true,
    );
    assert_eq!(tags[0].1, "https://api.statsigcdn.com/v2");
    assert_eq!(tags[2].1, "boom");
    assert_eq!(tags[5].1, "true");
    assert_eq!(sync_latency_ms(1500, 1000), 500);
    assert_eq!(sync_latency_ms(1000, 1500), 0);
}

#[test]
fn sampling_rates_by_context_and_key() {
    assert_eq!(sampling_rate_key(&ContextType::Initialize, Some(KeyType::GetIDList)), Some("initialize"));
    assert_eq!(sampling_rate_key(&ContextType::ConfigSync, Some(KeyType::GetIDListSources)), Some("id_list"));
    assert_eq!(sampling_rate_key(&ContextType::ConfigSync, Some(KeyType::DownloadConfigSpecs)), Some("dcs"));
    assert_eq!(sampling_rate_key(&ContextType::ConfigSync, Some(KeyType::Overall)), None);
    assert_eq!(sampling_rate_key(&ContextType::ConfigSync, None), None);
}
