use statsig_rust::data_store_adapter::{
    binary_specs_response_data_from_bytes, data_store_specs_update, send_specs_update_to_listener,
    specs_response_data_from_cache,
};
use statsig_rust::specs_adapter::{
    get_specs_response_format, SpecsInfo, SpecsResponseFormat, SpecsSource, SpecsUpdate,
    SpecsUpdateListener,
};
use statsig_rust::statsig_err::StatsigErr;
use std::cell::RefCell;

struct Recorder {
    updates: RefCell<Vec<SpecsUpdate>>,
}

impl SpecsUpdateListener for Recorder {
    fn did_receive_specs_update(&self, update: SpecsUpdate) -> Result<(), StatsigErr> {
        self.updates.borrow_mut().push(update);
        Ok(())
    }

    fn get_current_specs_info(&self) -> SpecsInfo {
        SpecsInfo::empty()
    }
}

#[test]
fn binary_cache_is_read_as_protobuf() {
    let data = binary_specs_response_data_from_bytes(vec![1, 2, 3]);
    assert_eq!(data.get_stream_ref(), &vec![1, 2, 3]);
    assert_eq!(data.get_header_ref("content-type").map(String::as_str), Some("application/octet-stream"));
    assert_eq!(data.get_header_ref("content-encoding").map(String::as_str), Some("statsig-br"));
    assert_eq!(get_specs_response_format(&data), SpecsResponseFormat::Protobuf);
    let text = specs_response_data_from_cache(b"{}".to_vec(), false);
    assert_eq!(get_specs_response_format(&text), SpecsResponseFormat::Unknown);
}

#[test]
fn cached_specs_go_to_the_listener_as_data_store_updates() {
    let update = data_store_specs_update(None, false, 9);
    assert!(update.data.get_stream_ref().is_empty());
    assert_eq!(update.source, SpecsSource::Adapter("DataStore".to_string()));
    assert_eq!(update.source_api.as_deref(), Some("datastore"));
    assert_eq!(update.received_at, 9);

    let listener = Recorder { updates: RefCell::new(vec![]) };
    let (result, format) = send_specs_update_to_listener(&listener, Some(vec![7, 7]), true);
    assert!(result.is_ok());
    assert_eq!(format, "protobuf");
    let (_, format) = send_specs_update_to_listener(&listener, Some(b"{}".to_vec()), false);
    assert_eq!(format, "unknown");
    let updates = listener.updates.borrow();
    assert_eq!(updates.len(), 2);
    assert_eq!(updates[0].data.get_stream_ref(), &vec![7, 7]);
}
