use statsig_rust::http_types::ResponseData;

#[test]
fn test_from_bytes() {
    let response_data = ResponseData::from_bytes(b"test".to_vec());
    assert_eq!(response_data.read_to_string().unwrap(), "test");
}

#[test]
fn test_from_stream() {
    let response_data = ResponseData::from_stream(b"test".to_vec());
    assert_eq!(response_data.read_to_string().unwrap(), "test");
}

#[test]
fn test_deserialize_into() {
    let response_data = ResponseData::from_bytes(r#""test""#.to_string().as_bytes().to_vec());
    let result = response_data.deserialize_into::<String>().unwrap();
    assert_eq!(result, "test");
}

#[test]
fn test_deserialize_into_error() {
    let response_data = ResponseData::from_bytes(b"test".to_vec());
    let result = response_data.deserialize_into::<String>();
    assert!(result.is_err());
}

#[test]
fn test_deserialize_then_read() {
    let response_data = ResponseData::from_bytes(r#""test""#.to_string().as_bytes().to_vec());
    let result = response_data.deserialize_into::<String>().unwrap();
    assert_eq!(result, "test");
    assert_eq!(response_data.read_to_string().unwrap(), "\"test\"");
}

#[test]
fn test_double_deserialize() {
    let response_data = ResponseData::from_bytes(r#""test""#.to_string().as_bytes().to_vec());
    let result = response_data.deserialize_into::<String>().unwrap();
    assert_eq!(result, "test");

    let result2 = response_data.deserialize_into::<String>().unwrap();
    assert_eq!(result2, "test");
}

#[test]
fn test_deserialize_into_in_place() {
    let response_data = ResponseData::from_bytes(r#""test""#.to_string().as_bytes().to_vec());
    let mut result = String::new();
    response_data.deserialize_in_place(&mut result).unwrap();
    assert_eq!(result, "test");
}

#[test]
fn test_double_deserialize_in_place() {
    let response_data = ResponseData::from_bytes(r#""test""#.to_string().as_bytes().to_vec());
    let mut result = String::new();
    response_data.deserialize_in_place(&mut result).unwrap();
    assert_eq!(result, "test");

    let mut result2 = String::new();
    response_data.deserialize_in_place(&mut result2).unwrap();
    assert_eq!(result2, "test");
}

#[test]
fn test_read_deserialize_and_deserialize_in_place() {
    let response_data = ResponseData::from_bytes(r#""test""#.to_string().as_bytes().to_vec());

    let read_result = response_data.read_to_string().unwrap();
    assert_eq!(read_result, "\"test\"");

    let deserialize_result = response_data.deserialize_into::<String>().unwrap();
    assert_eq!(deserialize_result, "test");

    let mut place = String::new();
    response_data.deserialize_in_place(&mut place).unwrap();
    assert_eq!(place, "test");
}

#[test]
fn test_deserialization_failure_retry() {
    let response_data = ResponseData::from_bytes(b"false".to_vec());
    let result = response_data.deserialize_into::<String>();
    assert!(result.is_err());

    let result2 = response_data.deserialize_into::<bool>();
    assert!(result2.is_ok_and(|bool_result| !bool_result));
}

#[test]
fn test_deserialization_failure_retry_in_place() {
    let response_data = ResponseData::from_bytes(b"false".to_vec());
    let mut place = String::new();
    let result = response_data.deserialize_in_place::<String>(&mut place);
    assert!(result.is_err());

    let result2 = response_data.deserialize_into::<bool>();
    assert!(result2.is_ok_and(|bool_result| !bool_result));
}

#[test]
fn read_to_string_rejects_invalid_utf8() {
    let response_data = ResponseData::from_bytes(vec![0xff, 0xfe]);
    let err = response_data.read_to_string().unwrap_err();
    assert_eq!(err.name(), "JsonParseError");
}

#[test]
fn deserialize_bool_with_whitespace() {
    let response_data = ResponseData::from_bytes(b" \n true\t".to_vec());
    assert_eq!(response_data.deserialize_into::<bool>().unwrap(), true);
    let trailing = ResponseData::from_bytes(b"true x".to_vec());
    assert!(trailing.deserialize_into::<bool>().is_err());
}

#[test]
fn header_lookup_returns_first_match() {
    let headers = vec![
        ("content-type".to_string(), "application/json".to_string()),
        ("x-statsig-region".to_string(), "us-west".to_string()),
    ];
    let data = ResponseData::from_bytes_with_headers(vec![], Some(headers));
    assert_eq!(data.get_header_ref("x-statsig-region").unwrap(), "us-west");
    assert!(data.get_header_ref("missing").is_none());
    let none = ResponseData::from_bytes(vec![]);
    assert!(none.get_header_ref("content-type").is_none());
}

#[test]
fn insert_pair_keeps_names_unique() {
    let mut headers: Vec<(String, String)> = vec![("a".to_string(), "1".to_string())];
    statsig_rust::http_types::insert_pair(&mut headers, "b".to_string(), "2".to_string());
    statsig_rust::http_types::insert_pair(&mut headers, "a".to_string(), "3".to_string());
    assert_eq!(
        headers,
        vec![("a".to_string(), "3".to_string()), ("b".to_string(), "2".to_string())]
    );
}
