use statsig_rust::grpc_retry::{
    grpc_specs_update, StreamFailureStep, StreamingRetryState, DEFAULT_BACKOFF_INTERVAL_MS,
    FALL_BACK_TO_POLLING_THRESHOLD, MAX_BACKOFF_INTERVAL_MS, RETRY_LIMIT,
};
use statsig_rust::specs_adapter::SpecsSource;

#[test]
fn backoff_doubles_up_to_the_maximum() {
    let mut state = StreamingRetryState::new();
    assert_eq!(
        state.on_stream_failure(),
        StreamFailureStep::Retry { attempt: 0, sleep_ms: DEFAULT_BACKOFF_INTERVAL_MS, start_polling: false }
    );
    assert_eq!(state.backoff_interval_ms, 6000);
    let waits: Vec<u64> = (0..6)
        .map(|_| match state.on_stream_failure() {
            StreamFailureStep::Retry { sleep_ms, .. } => sleep_ms,
            StreamFailureStep::GiveUp => panic!("gave up early"),
        })
        .collect();
    assert_eq!(waits, vec![6000, 12000, 24000, 48000, 60000, 60000]);
    assert_eq!(state.backoff_interval_ms, MAX_BACKOFF_INTERVAL_MS);
    assert!(state.is_retrying);
}

#[test]
fn polling_starts_at_the_threshold_and_streaming_stops_past_the_limit() {
    let mut state = StreamingRetryState::new();
    state.retry_attempts = FALL_BACK_TO_POLLING_THRESHOLD;
    assert!(matches!(state.on_stream_failure(), StreamFailureStep::Retry { start_polling: true, .. }));
    state.retry_attempts = RETRY_LIMIT;
    assert!(matches!(state.on_stream_failure(), StreamFailureStep::Retry { .. }));
    assert_eq!(state.on_stream_failure(), StreamFailureStep::GiveUp);
}

#[test]
fn a_message_resets_a_retrying_stream() {
    let mut state = StreamingRetryState::new();
    assert!(!state.on_message());
    state.on_stream_failure();
    state.on_stream_failure();
    assert!(state.on_message());
    assert_eq!(state.retry_attempts, 0);
    assert_eq!(state.backoff_interval_ms, DEFAULT_BACKOFF_INTERVAL_MS);
    assert!(!state.is_retrying);
    let update = grpc_specs_update("{}".to_string(), 5);
    assert_eq!(update.source, SpecsSource::Adapter("GRPC".to_string()));
    assert_eq!(update.data.get_stream_ref(), &b"{}".to_vec());
}
