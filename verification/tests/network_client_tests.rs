use statsig_rust::http_types::{RequestArgs, Response, ResponseData};
use statsig_rust::network_client::{
    backoff_ms, get_api_from_url, get_error_message_for_status, get_loggable_sdk_key,
    get_network_request_latency_tags, get_request_path, get_source_service_and_request_path,
    next_retry_decision, should_log_network_request_latency, NetworkClient, RetryDecision,
};
use statsig_rust::network_error::NetworkError;

fn tag<'a>(tags: &'a [(String, String)], key: &str) -> Option<&'a String> {
    tags.iter().find(|(k, _)| k == key).map(|(_, v)| v)
}

#[test]
fn test_get_request_path_with_sample_urls() {
    assert_eq!(
        get_request_path("https://api.statsigcdn.com/v1/download_id_list_file/3wHgh0FhoQH0p"),
        "/v1/download_id_list_file"
    );
    assert_eq!(
        get_request_path("https://api.statsigcdn.com/v1/download_id_list_file/Q9mXcz7L1P43tRb8kV2dHyw%2FM6nJf0Ae5uTqsrC4Gp9KZ?foo=bar"),
        "/v1/download_id_list_file"
    );
    assert_eq!(
        get_request_path("https://api.statsig.com/v1/get_id_lists/secret-abcdef"),
        "/v1/get_id_lists"
    );
    assert_eq!(
        get_request_path("https://api.statsigcdn.com/v2/download_config_specs/secret-123456"),
        "/v2/download_config_specs"
    );
}

#[test]
fn test_should_log_network_request_latency_for_supported_endpoints() {
    assert!(!should_log_network_request_latency(
        "https://api.statsig.com/v1/log_event"
    ));
    assert!(!should_log_network_request_latency(
        "https://api.statsig.com/v1/sdk_exception"
    ));
    assert!(should_log_network_request_latency(
        "https://api.statsig.com/v1/get_id_lists/secret-abcdef"
    ));
    assert!(should_log_network_request_latency(
        "https://api.statsigcdn.com/v2/download_config_specs/secret-123456"
    ));
    assert!(should_log_network_request_latency(
        "https://api.statsigcdn.com/v1/download_id_list_file/3wHgh0FhoQH0p"
    ));
}

#[test]
fn test_get_source_service_and_request_path() {
    let (source_service, request_path) = get_source_service_and_request_path(
        "http://127.0.0.1:12345/mock-uuid/v2/download_config_specs/secret-key.json?x=1",
    );
    assert_eq!(source_service, "http://127.0.0.1:12345/mock-uuid");
    assert_eq!(request_path, "/v2/download_config_specs");
}

#[test]
fn test_network_latency_tags_include_id_list_file_id_only_when_present() {
    let mut request_args = RequestArgs {
        url: "https://api.statsigcdn.com/v1/download_id_list_file/file-123".to_string(),
        id_list_file_id: Some("file-123".to_string()),
        ..RequestArgs::new()
    };

    let tags = get_network_request_latency_tags(
        &request_args,
        "200".to_string(),
        true,
        "client-key-123".to_string(),
    );
    assert_eq!(tag(&tags, "id_list_file_id"), Some(&"file-123".to_string()));
    assert_eq!(
        tag(&tags, "request_path"),
        Some(&"/v1/download_id_list_file".to_string())
    );

    request_args.id_list_file_id = Some(String::new());
    let tags_without_id = get_network_request_latency_tags(
        &request_args,
        "200".to_string(),
        true,
        "client-key-123".to_string(),
    );
    assert!(tag(&tags_without_id, "id_list_file_id").is_none());
}

#[test]
fn fallback_request_path_and_source() {
    let (source, path) = get_source_service_and_request_path("https://api.statsig.com/v1/log_event?x=1");
    assert_eq!(source, "https://api.statsig.com");
    assert_eq!(path, "/v1/log_event");
    let (source, path) = get_source_service_and_request_path("https://api.statsig.com/");
    assert_eq!(source, "https://api.statsig.com");
    assert_eq!(path, "/");
    let long = format!("https://h.com/{}", "a".repeat(100));
    assert_eq!(get_request_path(&long), format!("/{}", "a".repeat(64)));
}

#[test]
fn api_from_url_keeps_version() {
    assert_eq!(
        get_api_from_url("https://api.statsigcdn.com/v2/download_config_specs/secret-k.json"),
        "https://api.statsigcdn.com/v2"
    );
    assert_eq!(get_api_from_url("https://api.statsig.com/v1/log_event"), "https://api.statsig.com");
}

#[test]
fn loggable_key_is_thirteen_chars() {
    assert_eq!(get_loggable_sdk_key("secret-1234567890abcdef"), "secret-123456");
    assert_eq!(get_loggable_sdk_key("short"), "short");
}

#[test]
fn error_messages_for_statuses() {
    assert_eq!(get_error_message_for_status(Some(200), None), "");
    assert_eq!(get_error_message_for_status(Some(404), None), "Not Found");
    let body = ResponseData::from_bytes(b"oops".to_vec());
    assert_eq!(get_error_message_for_status(Some(500), Some(&body)), "Internal Server Error: oops");
    assert_eq!(get_error_message_for_status(Some(418), Some(&body)), "HTTP Error 418: oops");
    assert_eq!(get_error_message_for_status(None, None), "HTTP Error None: ");
    let non_ascii = ResponseData::from_bytes("é".as_bytes().to_vec());
    assert_eq!(get_error_message_for_status(Some(0), Some(&non_ascii)), "Unknown Error");
}

#[test]
fn retry_decisions() {
    let url = "https://x".to_string();
    assert!(matches!(next_retry_decision(&url, Some(204), 0, 3, String::new()), RetryDecision::Succeeded));
    match next_retry_decision(&url, Some(429), 0, 3, "m".to_string()) {
        RetryDecision::Failed(NetworkError::RequestNotRetryable(u, s, m)) => {
            assert_eq!(u, url);
            assert_eq!(s, Some(429));
            assert_eq!(m, "m");
        }
        _ => panic!("expected not retryable"),
    }
    match next_retry_decision(&url, Some(500), 3, 3, "m".to_string()) {
        RetryDecision::Failed(NetworkError::RetriesExhausted(_, _, attempts, _)) => assert_eq!(attempts, 4),
        _ => panic!("expected exhausted"),
    }
    match next_retry_decision(&url, None, 1, 3, String::new()) {
        RetryDecision::RetryAfter { attempt, backoff_ms } => {
            assert_eq!(attempt, 2);
            assert_eq!(backoff_ms, 400);
        }
        _ => panic!("expected retry"),
    }
    assert_eq!(backoff_ms(0), 100);
    assert_eq!(backoff_ms(57), (1u64 << 57) * 100);
}

#[test]
fn prepare_request_merges_headers() {
    let client = NetworkClient::new(
        "secret-key",
        Some(vec![("STATSIG-API-KEY".to_string(), "secret-key".to_string())]),
        None,
        None,
        None,
    );
    let args = RequestArgs {
        url: "https://x".to_string(),
        headers: Some(vec![("a".to_string(), "1".to_string())]),
        ..RequestArgs::new()
    };
    let prepared = client.prepare_request(args, 1234).ok().unwrap();
    let headers = prepared.headers.unwrap();
    assert_eq!(tag(&headers, "a"), Some(&"1".to_string()));
    assert_eq!(tag(&headers, "STATSIG-API-KEY"), Some(&"secret-key".to_string()));
    assert_eq!(tag(&headers, "STATSIG-CLIENT-TIME"), Some(&"1234".to_string()));
    assert_eq!(headers.iter().filter(|(k, _)| k == "STATSIG-CLIENT-TIME").count(), 1);
    assert_eq!(prepared.disable_file_streaming, Some(false));

    let offline = NetworkClient::new("k", None, Some(true), None, None);
    match offline.prepare_request(RequestArgs { url: "u".to_string(), ..RequestArgs::new() }, 0) {
        Err(NetworkError::DisableNetworkOn(u)) => assert_eq!(u, "u"),
        _ => panic!("expected disabled network"),
    }
}

#[test]
fn response_error_message_prefers_provider_error() {
    let resp = Response { status_code: Some(500), data: None, error: Some("boom".to_string()) };
    assert_eq!(statsig_rust::network_client::response_error_message(&resp), "boom");
}

#[test]
fn fully_qualified_url_joins_params() {
    let args = RequestArgs {
        url: "https://x/y".to_string(),
        query_params: Some(vec![("a".to_string(), "1".to_string()), ("b".to_string(), "2".to_string())]),
        ..RequestArgs::new()
    };
    assert_eq!(args.get_fully_qualified_url(), "https://x/y?a=1&b=2");
    let empty = RequestArgs { url: "https://x".to_string(), query_params: Some(vec![]), ..RequestArgs::new() };
    assert_eq!(empty.get_fully_qualified_url(), "https://x");
}

#[test]
fn request_flag_takes_precedence_over_client_flag() {
    assert_eq!(statsig_rust::network_client::request_shutdown_flag(Some(1u8), 2u8), 1);
    assert_eq!(statsig_rust::network_client::request_shutdown_flag(None, 2u8), 2);
}

#[test]
fn environment_sets_the_tier() {
    let mut options = statsig_rust::statsig_options::StatsigOptions::new();
    assert!(options.environment_tier().is_none());
    options.environment = Some("staging".to_string());
    assert_eq!(options.environment_tier(), Some(vec![("tier".to_string(), "staging".to_string())]));
}
