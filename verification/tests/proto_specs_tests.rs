use statsig_rust::proto_specs::{
    checksum_of_entries, checksum_to_u32, choose_spec_source, condition_type_from_pb, envelope_step,
    handle_checksums_update, id_type_from_pb, operator_from_pb, remove_string_from_map,
    remove_string_from_opt_map, sum_checksums, validate_field_checksum, ConditionType, EntityType,
    EnvelopeStep, IdTypeValue, KnownIdType, Operator, SpecSource, SpecsEnvelopeKind,
};
use statsig_rust::statsig_err::StatsigErr;

fn parse_error_parts(e: StatsigErr) -> (String, String) {
    match e {
        StatsigErr::ProtobufParseError(tag, msg) => (tag, msg),
        other => panic!("unexpected error {:?}", other),
    }
}

#[test]
fn operators_map_to_evaluator_names() {
    assert_eq!(operator_from_pb(Operator::Eq).unwrap(), "eq");
    assert_eq!(operator_from_pb(Operator::NoneOf).unwrap(), "none");
    assert_eq!(operator_from_pb(Operator::StrMatches).unwrap(), "str_matches");
    assert_eq!(operator_from_pb(Operator::NotArrayContainsAll).unwrap(), "not_array_contains_all");
    assert_eq!(operator_from_pb(Operator::EncodedAny).unwrap(), "encoded_any");
    let (tag, msg) = parse_error_parts(operator_from_pb(Operator::Unknown).unwrap_err());
    assert_eq!(tag, "proto::Operator");
    assert_eq!(msg, "Unknown operator");
}

#[test]
fn condition_types_map_to_evaluator_names() {
    assert_eq!(condition_type_from_pb(ConditionType::UaBased).unwrap(), "ua_based");
    assert_eq!(condition_type_from_pb(ConditionType::UnitId).unwrap(), "unit_id");
    let (tag, msg) = parse_error_parts(condition_type_from_pb(ConditionType::Unknown).unwrap_err());
    assert_eq!(tag, "proto::ConditionType");
    assert_eq!(msg, "Unknown condition type");
}

#[test]
fn entity_types_have_legacy_and_own_names() {
    assert_eq!(EntityType::EntityHoldout.to_legacy_type(), "feature_gate");
    assert_eq!(EntityType::EntitySegment.to_legacy_type(), "feature_gate");
    assert_eq!(EntityType::EntityExperiment.to_legacy_type(), "dynamic_config");
    assert_eq!(EntityType::EntityUnknown.to_legacy_type(), "unknown");
    assert_eq!(EntityType::EntityAutotune.to_string_type().unwrap(), "autotune");
    let (tag, msg) = parse_error_parts(EntityType::EntityUnknown.to_string_type().unwrap_err());
    assert_eq!(tag, "proto::EntityType");
    assert_eq!(msg, "Expected entity type to be known");
}

#[test]
fn id_types_resolve_to_names() {
    assert_eq!(id_type_from_pb(None).unwrap(), "");
    assert_eq!(id_type_from_pb(Some(IdTypeValue::KnownIdType(KnownIdType::UserId))).unwrap(), "userID");
    assert_eq!(id_type_from_pb(Some(IdTypeValue::KnownIdType(KnownIdType::StableId))).unwrap(), "stableID");
    assert_eq!(id_type_from_pb(Some(IdTypeValue::CustomIdType("companyID".to_string()))).unwrap(), "companyID");
    let (tag, _) = parse_error_parts(id_type_from_pb(Some(IdTypeValue::KnownIdType(KnownIdType::Unknown))).unwrap_err());
    assert_eq!(tag, "proto::KnownIdType");
}

#[test]
fn checksums_read_as_u32() {
    assert_eq!(checksum_to_u32(Some("123")), Some(123));
    assert_eq!(checksum_to_u32(Some("+7")), Some(7));
    assert_eq!(checksum_to_u32(Some("4294967295")), Some(u32::MAX));
    assert_eq!(checksum_to_u32(Some("4294967296")), None);
    assert_eq!(checksum_to_u32(Some("12a")), None);
    assert_eq!(checksum_to_u32(Some("")), None);
    assert_eq!(checksum_to_u32(None), None);
}

#[test]
fn checksum_sums_skip_missing_values() {
    assert_eq!(sum_checksums(&vec![Some(1), None, Some(u32::MAX)]), 1 + u32::MAX as u64);
    assert_eq!(sum_checksums(&vec![]), 0);
    let entries = vec![Some("10".to_string()), Some("x".to_string()), None, Some("5".to_string())];
    assert_eq!(checksum_of_entries(&entries), 15);
}

#[test]
fn field_checksum_errors_name_the_field() {
    let expected = vec![("feature_gates".to_string(), 15u64)];
    assert!(validate_field_checksum("feature_gates", &expected, 15).is_ok());
    let (tag, msg) = parse_error_parts(validate_field_checksum("feature_gates", &expected, 16).unwrap_err());
    assert_eq!(tag, "proto::RulesetsChecksums");
    assert_eq!(msg, "Checksum mismatch for feature_gates: expected 15, got 16");
    let (_, msg) = parse_error_parts(validate_field_checksum("layer_configs", &expected, 0).unwrap_err());
    assert_eq!(msg, "Missing checksum for layer_configs");
}

#[test]
fn checksums_update_reports_first_bad_collection() {
    let gates = vec![Some("3".to_string()), Some("4".to_string())];
    let empty: Vec<Option<String>> = vec![];
    let mut expected = vec![
        ("condition_map".to_string(), 0u64),
        ("dynamic_configs".to_string(), 0u64),
        ("feature_gates".to_string(), 7u64),
        ("layer_configs".to_string(), 0u64),
        ("param_stores".to_string(), 0u64),
    ];
    assert!(handle_checksums_update(&expected, &empty, &empty, &gates, &empty, &empty).is_ok());
    expected[2].1 = 8;
    expected[3].1 = 1;
    let (_, msg) = parse_error_parts(handle_checksums_update(&expected, &empty, &empty, &gates, &empty, &empty).unwrap_err());
    assert_eq!(msg, "Checksum mismatch for feature_gates: expected 8, got 7");
    expected.pop();
    expected[2].1 = 7;
    expected[3].1 = 0;
    let (_, msg) = parse_error_parts(handle_checksums_update(&expected, &empty, &empty, &gates, &empty, &empty).unwrap_err());
    assert_eq!(msg, "Missing checksum for param_stores");
}

#[test]
fn matching_checksums_reuse_known_copies() {
    assert_eq!(choose_spec_source(Some(Some("a")), Some(Some("a")), "a"), SpecSource::Preloaded);
    assert_eq!(choose_spec_source(Some(Some("b")), Some(Some("a")), "a"), SpecSource::Existing);
    assert_eq!(choose_spec_source(None, Some(None), "a"), SpecSource::Decode);
    assert_eq!(choose_spec_source(None, Some(Some("b")), "a"), SpecSource::Decode);
}

#[test]
fn deletions_remove_exactly_the_named_entries() {
    let mut map = vec![("a".to_string(), 1), ("b".to_string(), 2), ("c".to_string(), 3)];
    remove_string_from_map(&mut map, &vec!["a".to_string(), "c".to_string(), "zzz".to_string()]);
    assert_eq!(map, vec![("b".to_string(), 2)]);
    let mut absent: Option<Vec<(String, i32)>> = None;
    remove_string_from_opt_map(&mut absent, &vec!["a".to_string()]);
    assert!(absent.is_none());
}

#[test]
fn envelope_kinds_drive_the_stream() {
    assert!(matches!(envelope_step(Some(SpecsEnvelopeKind::Done)), EnvelopeStep::Finish));
    assert!(matches!(envelope_step(None), EnvelopeStep::Skip));
    assert!(matches!(envelope_step(Some(SpecsEnvelopeKind::Checksums)), EnvelopeStep::Apply(SpecsEnvelopeKind::Checksums)));
    match envelope_step(Some(SpecsEnvelopeKind::Unknown)) {
        EnvelopeStep::Fail(e) => {
            let (tag, msg) = parse_error_parts(e);
            assert_eq!(tag, "proto::SpecsEnvelope");
            assert_eq!(msg, "Unknown envelope kind");
        }
        _ => panic!("unknown envelope kind accepted"),
    }
}

#[test]
fn checksum_sums_ignore_order() {
    let a = vec![Some(1), None, Some(5), Some(u32::MAX)];
    let b = vec![Some(u32::MAX), Some(5), Some(1), None];
    assert_eq!(sum_checksums(&a), sum_checksums(&b));
}
