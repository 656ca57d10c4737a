use statsig_rust::logging_utils::sanitize_secret_key;
use statsig_rust::network_error::NetworkError;
use statsig_rust::statsig_err::StatsigErr;

#[test]
fn test_sanitize_secret_key_in_error_display() {
    let err = NetworkError::RetriesExhausted(
        "https://api.statsigcdn.com/v2/download_config_specs/secret-fakeO1234567890.json"
            .to_string(),
        None,
        1,
        "Invalid array length".to_string(),
    );

    let message = err.to_display_string();
    assert!(message.contains("secret-fakeO*****.json"));
    assert!(!message.contains("secret-fakeO1234567890"));
}

#[test]
fn network_error_display_forms() {
    let err = NetworkError::RequestNotRetryable("u".to_string(), Some(403), "no".to_string());
    assert_eq!(err.to_display_string(), "RequestNotRetryable: u status(403) no");
    assert_eq!(err.name(), "RequestNotRetryable");
    let err = NetworkError::RetriesExhausted("u".to_string(), None, 2, "m".to_string());
    assert_eq!(err.to_display_string(), "RetriesExhausted: u status(None) attempts(2) m");
}

#[test]
fn statsig_err_names_network_errors_by_their_variant() {
    let err = StatsigErr::NetworkError(NetworkError::ShutdownError("u".to_string()));
    assert_eq!(err.name(), "ShutdownError");
    assert_eq!(StatsigErr::ChecksumFailure("x".to_string()).name(), "ChecksumFailure");
}

#[test]
fn sanitize_keeps_first_five_characters_of_a_key() {
    assert_eq!(sanitize_secret_key("url?key=secret-abcdefghij"), "url?key=secret-abcde*****");
    assert_eq!(sanitize_secret_key("no key here"), "no key here");
    assert_eq!(sanitize_secret_key("secret-ééé"), "secret-ééé*****");
    assert_eq!(sanitize_secret_key("secret-éabcdefg"), "secret-éabcd*****");
    assert_eq!(sanitize_secret_key("secret-ééé-rest"), "secret-ééé*****-rest");
    assert_eq!(sanitize_secret_key("secret-éééééé"), "secret-ééééé*****");
    let err = NetworkError::RequestFailed("https://x/secret-éééééé".to_string(), None, "m".to_string());
    assert_eq!(err.to_display_string(), "RequestFailed: https://x/secret-ééééé***** None m");
    let err = StatsigErr::NetworkError(NetworkError::RequestFailed(
        "https://x/secret-abcdef".to_string(),
        Some(500),
        "m".to_string(),
    ));
    assert!(err.to_display_string().contains("secret-abcde*****"));
}
