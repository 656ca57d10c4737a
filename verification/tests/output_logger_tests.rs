use statsig_rust::logging_utils::sanitize_secret_key;
use statsig_rust::output_logger::{
    has_valid_log_level, prepare_log_message, truncate_log_message, LogLevel,
};

#[test]
fn test_sanitize_url_for_logging() {
    let test_cases = [
        ("https://api.statsigcdn.com/v2/download_config_specs/secret-jadkfjalkjnsdlvcnjsdfaf.json", "https://api.statsigcdn.com/v2/download_config_specs/secret-jadkf*****.json"),
        ("https://api.statsigcdn.com/v1/log_event/","https://api.statsigcdn.com/v1/log_event/"),
        ("https://api.statsigcdn.com/v2/download_config_specs/secret-jadkfjalkjnsdlvcnjsdfaf.json?sinceTime=1", "https://api.statsigcdn.com/v2/download_config_specs/secret-jadkf*****.json?sinceTime=1"),
    ];
    for (before, expected) in test_cases {
        let sanitized = sanitize_secret_key(before);
        assert!(sanitized == expected);
    }
}

#[test]
fn test_multiple_secrets() {
    let input = "Multiple secrets: secret-key1 and secret-key2";
    let sanitized = sanitize_secret_key(input);
    assert_eq!(
        sanitized,
        "Multiple secrets: secret-key1***** and secret-key2*****"
    );
}

#[test]
fn test_short_secret() {
    let input = "Short secret: secret-a";
    let sanitized = sanitize_secret_key(input);
    assert_eq!(sanitized, "Short secret: secret-a*****");
}

#[test]
fn log_levels_from_names_and_numbers() {
    assert_eq!(LogLevel::from("DeBuG"), LogLevel::Debug);
    assert_eq!(LogLevel::from("none"), LogLevel::Off);
    assert_eq!(LogLevel::from("verbose"), LogLevel::Warn);
    assert_eq!(LogLevel::from(1u32), LogLevel::Error);
    assert_eq!(LogLevel::from(9u32), LogLevel::Warn);
    assert_eq!(LogLevel::Info.to_number(), 3);
    assert!(has_valid_log_level(&LogLevel::Error, &LogLevel::Warn));
    assert!(!has_valid_log_level(&LogLevel::Debug, &LogLevel::Warn));
}

#[test]
fn long_messages_are_truncated_then_sanitized() {
    let msg = "x".repeat(401);
    let out = truncate_log_message(&msg);
    assert_eq!(out.chars().count(), 400);
    assert!(out.ends_with("...[TRUNCATED]"));
    assert_eq!(truncate_log_message(&"y".repeat(400)), "y".repeat(400));
    assert_eq!(prepare_log_message("key secret-abcdefgh"), "key secret-abcde*****");
}
