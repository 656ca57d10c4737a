use statsig_rust::marker::{ActionType, KeyType, Marker, StepType};

#[test]
fn test_marker_new() {
    let timestamp: u64 = chrono::Utc::now().timestamp_millis() as u64;
    let marker = Marker::new(KeyType::Initialize, ActionType::Start, Some(StepType::Process));

    assert_eq!(marker.key, KeyType::Initialize);
    assert_eq!(marker.action, ActionType::Start);
    assert_eq!(marker.step, Some(StepType::Process));
    assert_eq!(marker.success, None);
    assert_eq!(marker.status_code, None);
    assert_eq!(marker.timestamp, timestamp);
}

#[test]
fn marker_builders_set_their_fields() {
    let marker = Marker::new(KeyType::Initialize, ActionType::Start, Some(StepType::NetworkRequest))
        .with_is_success(true)
        .with_status_code(200)
        .with_attempt(1);
    assert_eq!(marker.success, Some(true));
    assert_eq!(marker.status_code, Some(200));
    assert_eq!(marker.attempt, Some(1));
    assert_eq!(marker.step, Some(StepType::NetworkRequest));
}
