use statsig_rust::explicit_params::ExplicitParameters;
use statsig_rust::specs_response::{
    select_decompression_dict_for_response, ConditionKey, DictionaryDecoder,
};
use statsig_rust::statsig_err::StatsigErr;

#[test]
fn condition_keys_parse_numbers() {
    let k = ConditionKey::from_string("12345".to_string());
    assert_eq!(k.u64_value, Some(12345));
    let k = ConditionKey::from_string("+7".to_string());
    assert_eq!(k.u64_value, Some(7));
    let k = ConditionKey::from_string("18446744073709551616".to_string());
    assert_eq!(k.u64_value, None);
    let k = ConditionKey::from_string("abc".to_string());
    assert_eq!(k.u64_value, None);
    let a = ConditionKey::from_string("42".to_string());
    let b = ConditionKey::from_string("+42".to_string());
    assert!(a.same_lookup_key(&b));
}

#[test]
fn explicit_parameters_lookup() {
    let p = ExplicitParameters::from_vec(vec!["a".to_string(), "b".to_string()]);
    assert!(p.contains("b"));
    assert!(!p.contains("c"));
    assert_eq!(p.unperformant_to_vec(), vec!["a".to_string(), "b".to_string()]);
}

#[test]
fn dictionary_selection() {
    assert!(matches!(select_decompression_dict_for_response(None, None, None), Ok(None)));
    let cached = DictionaryDecoder::new("d1".to_string(), &vec![1, 2]);
    let picked = select_decompression_dict_for_response(Some("d1".to_string()), Some(vec![9]), Some(&cached))
        .ok()
        .unwrap()
        .unwrap();
    assert_eq!(picked.dict_buff, vec![1, 2]);
    let fresh = select_decompression_dict_for_response(Some("d2".to_string()), Some(vec![9]), Some(&cached))
        .ok()
        .unwrap()
        .unwrap();
    assert_eq!(fresh.dict_id, "d2");
    assert_eq!(fresh.dict_buff, vec![9]);
    match select_decompression_dict_for_response(Some("d3".to_string()), None, Some(&cached)) {
        Err(StatsigErr::ZstdDictCompressionError(m)) => assert!(m.contains("dict_id: d3")),
        _ => panic!("expected error"),
    }
}
