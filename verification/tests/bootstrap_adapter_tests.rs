use statsig_rust::bootstrap_adapter::{bootstrap_update, StatsigBootstrapSpecsAdapter};
use statsig_rust::specs_adapter::{SpecsInfo, SpecsSource, SpecsUpdate, SpecsUpdateListener};
use statsig_rust::statsig_err::StatsigErr;
use std::cell::RefCell;

struct RecordingListener {
    received: RefCell<Vec<(String, SpecsSource, Option<String>)>>,
}

impl SpecsUpdateListener for RecordingListener {
    fn did_receive_specs_update(&self, update: SpecsUpdate) -> Result<(), StatsigErr> {
        let text = String::from_utf8(update.data.get_stream_ref().clone()).unwrap();
        self.received.borrow_mut().push((text, update.source, update.source_api));
        Ok(())
    }

    fn get_current_specs_info(&self) -> SpecsInfo {
        SpecsInfo::empty()
    }
}

#[test]
fn bootstrap_pushes_its_data_to_the_listener() {
    let data = r#"{"feature_gates":{},"dynamic_configs":{},"layer_configs":{}}"#.to_string();
    let mut adapter = StatsigBootstrapSpecsAdapter::new(data.clone());
    adapter.initialize(RecordingListener { received: RefCell::new(vec![]) });
    assert!(adapter.start().is_ok());
    adapter.set_data("{\"has_updates\":true}".to_string()).unwrap();
    let listener = adapter.listener.as_ref().unwrap();
    let received = listener.received.borrow();
    assert_eq!(received.len(), 2);
    assert_eq!(received[0].0, data);
    assert_eq!(received[0].1, SpecsSource::Bootstrap);
    assert_eq!(received[0].2, None);
    assert_eq!(received[1].0, "{\"has_updates\":true}");
    assert_eq!(adapter.get_type_name(), "StatsigBootstrapSpecsAdapter");
}

#[test]
fn bootstrap_without_listener_is_unstarted() {
    let adapter: StatsigBootstrapSpecsAdapter<RecordingListener> = StatsigBootstrapSpecsAdapter::new("{}".to_string());
    match adapter.start() {
        Err(StatsigErr::UnstartedAdapter(m)) => assert_eq!(m, "Listener not set"),
        other => panic!("unexpected {:?}", other),
    }
}

#[test]
fn bootstrap_update_carries_the_text() {
    let update = bootstrap_update(&"héllo".to_string(), 42);
    assert_eq!(update.data.get_stream_ref(), &"héllo".as_bytes().to_vec());
    assert_eq!(update.received_at, 42);
    assert_eq!(update.source, SpecsSource::Bootstrap);
}

struct TestListener {
    received_update: RefCell<Option<SpecsUpdate>>,
}

impl SpecsUpdateListener for TestListener {
    fn did_receive_specs_update(&self, update: SpecsUpdate) -> Result<(), StatsigErr> {
        *self.received_update.borrow_mut() = Some(update);
        Ok(())
    }

    fn get_current_specs_info(&self) -> SpecsInfo {
        SpecsInfo::empty()
    }
}

#[test]
fn test_manually_sync_specs() {
    let test_data = r#"{"feature_gates":{},"dynamic_configs":{},"layer_configs":{}}"#.to_string();
    let mut adapter = StatsigBootstrapSpecsAdapter::new(test_data.clone());
    adapter.initialize(TestListener { received_update: RefCell::new(None) });
    adapter.start().unwrap();
    let listener = adapter.listener.as_ref().unwrap();
    let lock = listener.received_update.borrow();
    let update = lock.as_ref().unwrap();
    assert_eq!(update.source, SpecsSource::Bootstrap);
    assert_eq!(update.data.get_stream_ref(), &test_data.into_bytes());
}

#[test]
fn test_set_data() {
    let mut adapter = StatsigBootstrapSpecsAdapter::new(String::new());
    adapter.initialize(TestListener { received_update: RefCell::new(None) });
    adapter.start().unwrap();
    let test_data = "{\"some\": \"value\"}".to_string();
    let result = adapter.set_data(test_data.clone());
    assert!(result.is_ok());
    let listener = adapter.listener.as_ref().unwrap();
    let lock = listener.received_update.borrow();
    let update = lock.as_ref().unwrap();
    assert_eq!(update.source, SpecsSource::Bootstrap);
    assert_eq!(update.data.get_stream_ref(), &test_data.into_bytes());
}
