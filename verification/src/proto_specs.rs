use vstd::prelude::*;
use vstd::string::StringExecFns;

use crate::override_adapter::{
    find_key_exec, lemma_remove_other, lemma_remove_then_lookup, lookup, remove_entries,
};
use crate::proto_stream_reader::{spec_next_frame, ProtoStreamReader};
use crate::statsig_err::{spec_statsig_err_display, StatsigErr};
use crate::text::{
    chars_to_string, decimal, decimal_chars, extend_chars, extend_str, parse_unsigned,
    spec_parse_unsigned, str_eq_chars, str_to_chars,
};

verus! {

/// A protobuf parse error with the given tag and message.
pub open spec fn is_proto_error(e: StatsigErr, tag: Seq<char>, msg: Seq<char>) -> bool {
    e matches StatsigErr::ProtobufParseError(t, m) && t@ == tag && m@ == msg
}

/// Builds a protobuf parse error.
fn proto_error(tag: &str, msg: &str) -> (e: StatsigErr)
    ensures
        is_proto_error(e, tag@, msg@),
{
    StatsigErr::ProtobufParseError(String::from_str(tag), String::from_str(msg))
}

/// The comparison a condition applies, as carried in a specs envelope.
#[derive(Debug, Clone, Copy, PartialEq, Eq, Structural)]
pub enum Operator {
    Unknown,
    Eq,
    Neq,
    Gt,
    Gte,
    Lte,
    Lt,
    Any,
    NoneOf,
    StrStartsWithAny,
    StrEndsWithAny,
    StrContainsAny,
    StrContainsNone,
    StrMatches,
    AnyCaseSensitive,
    NoneCaseSensitive,
    Before,
    After,
    On,
    InSegmentList,
    NotInSegmentList,
    ArrayContainsAny,
    ArrayContainsNone,
    ArrayContainsAll,
    NotArrayContainsAll,
    VersionGt,
    VersionGte,
    VersionLt,
    VersionLte,
    VersionEq,
    VersionNeq,
    EncodedAny,
}

/// The name the evaluator knows an operator by (empty for the unknown operator).
pub open spec fn operator_name(op: Operator) -> Seq<char> {
    match op {
        Operator::Unknown => Seq::empty(),
        Operator::Eq => "eq"@,
        Operator::Neq => "neq"@,
        Operator::Gt => "gt"@,
        Operator::Gte => "gte"@,
        Operator::Lte => "lte"@,
        Operator::Lt => "lt"@,
        Operator::Any => "any"@,
        Operator::NoneOf => "none"@,
        Operator::StrStartsWithAny => "str_starts_with_any"@,
        Operator::StrEndsWithAny => "str_ends_with_any"@,
        Operator::StrContainsAny => "str_contains_any"@,
        Operator::StrContainsNone => "str_contains_none"@,
        Operator::StrMatches => "str_matches"@,
        Operator::AnyCaseSensitive => "any_case_sensitive"@,
        Operator::NoneCaseSensitive => "none_case_sensitive"@,
        Operator::Before => "before"@,
        Operator::After => "after"@,
        Operator::On => "on"@,
        Operator::InSegmentList => "in_segment_list"@,
        Operator::NotInSegmentList => "not_in_segment_list"@,
        Operator::ArrayContainsAny => "array_contains_any"@,
        Operator::ArrayContainsNone => "array_contains_none"@,
        Operator::ArrayContainsAll => "array_contains_all"@,
        Operator::NotArrayContainsAll => "not_array_contains_all"@,
        Operator::VersionGt => "version_gt"@,
        Operator::VersionGte => "version_gte"@,
        Operator::VersionLt => "version_lt"@,
        Operator::VersionLte => "version_lte"@,
        Operator::VersionEq => "version_eq"@,
        Operator::VersionNeq => "version_neq"@,
        Operator::EncodedAny => "encoded_any"@,
    }
}

/// The evaluator's name for an operator; the unknown operator is a parse error.
pub fn operator_from_pb(operator: Operator) -> (r: Result<String, StatsigErr>)
    ensures
        operator is Unknown ==> (r matches Err(e) && is_proto_error(e, "proto::Operator"@, "Unknown operator"@)),
        !(operator is Unknown) ==> (r matches Ok(s) && s@ == operator_name(operator)),
{
    let name = match operator {
        Operator::Unknown => {
            return Err(proto_error("proto::Operator", "Unknown operator"));
        },
        Operator::Eq => "eq",
        Operator::Neq => "neq",
        Operator::Gt => "gt",
        Operator::Gte => "gte",
        Operator::Lte => "lte",
        Operator::Lt => "lt",
        Operator::Any => "any",
        Operator::NoneOf => "none",
        Operator::StrStartsWithAny => "str_starts_with_any",
        Operator::StrEndsWithAny => "str_ends_with_any",
        Operator::StrContainsAny => "str_contains_any",
        Operator::StrContainsNone => "str_contains_none",
        Operator::StrMatches => "str_matches",
        Operator::AnyCaseSensitive => "any_case_sensitive",
        Operator::NoneCaseSensitive => "none_case_sensitive",
        Operator::Before => "before",
        Operator::After => "after",
        Operator::On => "on",
        Operator::InSegmentList => "in_segment_list",
        Operator::NotInSegmentList => "not_in_segment_list",
        Operator::ArrayContainsAny => "array_contains_any",
        Operator::ArrayContainsNone => "array_contains_none",
        Operator::ArrayContainsAll => "array_contains_all",
        Operator::NotArrayContainsAll => "not_array_contains_all",
        Operator::VersionGt => "version_gt",
        Operator::VersionGte => "version_gte",
        Operator::VersionLt => "version_lt",
        Operator::VersionLte => "version_lte",
        Operator::VersionEq => "version_eq",
        Operator::VersionNeq => "version_neq",
        Operator::EncodedAny => "encoded_any",
    };
    Ok(String::from_str(name))
}

/// What a condition tests, as carried in a specs envelope.
#[derive(Debug, Clone, Copy, PartialEq, Eq, Structural)]
pub enum ConditionType {
    Unknown,
    CurrentTime,
    Public,
    FailGate,
    PassGate,
    UaBased,
    IpBased,
    UserField,
    EnvironmentField,
    UserBucket,
    TargetApp,
    UnitId,
}

/// The name the evaluator knows a condition type by (empty for the unknown type).
pub open spec fn condition_type_name(t: ConditionType) -> Seq<char> {
    match t {
        ConditionType::Unknown => Seq::empty(),
        ConditionType::CurrentTime => "current_time"@,
        ConditionType::Public => "public"@,
        ConditionType::FailGate => "fail_gate"@,
        ConditionType::PassGate => "pass_gate"@,
        ConditionType::UaBased => "ua_based"@,
        ConditionType::IpBased => "ip_based"@,
        ConditionType::UserField => "user_field"@,
        ConditionType::EnvironmentField => "environment_field"@,
        ConditionType::UserBucket => "user_bucket"@,
        ConditionType::TargetApp => "target_app"@,
        ConditionType::UnitId => "unit_id"@,
    }
}

/// The evaluator's name for a condition type; the unknown type is a parse error.
pub fn condition_type_from_pb(condition_type: ConditionType) -> (r: Result<String, StatsigErr>)
    ensures
        condition_type is Unknown ==> (r matches Err(e) && is_proto_error(
            e,
            "proto::ConditionType"@,
            "Unknown condition type"@,
        )),
        !(condition_type is Unknown) ==> (r matches Ok(s) && s@ == condition_type_name(condition_type)),
{
    let name = match condition_type {
        ConditionType::Unknown => {
            return Err(proto_error("proto::ConditionType", "Unknown condition type"));
        },
        ConditionType::CurrentTime => "current_time",
        ConditionType::Public => "public",
        ConditionType::FailGate => "fail_gate",
        ConditionType::PassGate => "pass_gate",
        ConditionType::UaBased => "ua_based",
        ConditionType::IpBased => "ip_based",
        ConditionType::UserField => "user_field",
        ConditionType::EnvironmentField => "environment_field",
        ConditionType::UserBucket => "user_bucket",
        ConditionType::TargetApp => "target_app",
        ConditionType::UnitId => "unit_id",
    };
    Ok(String::from_str(name))
}

/// The kind of entity a spec describes, as carried in a specs envelope.
#[derive(Debug, Clone, Copy, PartialEq, Eq, Structural)]
pub enum EntityType {
    EntityUnknown,
    EntityFeatureGate,
    EntityDynamicConfig,
    EntityAutotune,
    EntityExperiment,
    EntityLayer,
    EntitySegment,
    EntityHoldout,
}

/// The older two-way classification: gates (with holdouts and segments), dynamic configs
/// (with autotunes, experiments and layers), and unknown.
pub open spec fn legacy_type_name(t: EntityType) -> Seq<char> {
    match t {
        EntityType::EntityFeatureGate | EntityType::EntityHoldout | EntityType::EntitySegment => "feature_gate"@,
        EntityType::EntityDynamicConfig | EntityType::EntityAutotune | EntityType::EntityExperiment
        | EntityType::EntityLayer => "dynamic_config"@,
        EntityType::EntityUnknown => "unknown"@,
    }
}

/// The entity's own name (empty for the unknown entity).
pub open spec fn entity_type_name(t: EntityType) -> Seq<char> {
    match t {
        EntityType::EntityUnknown => Seq::empty(),
        EntityType::EntityFeatureGate => "feature_gate"@,
        EntityType::EntityDynamicConfig => "dynamic_config"@,
        EntityType::EntityAutotune => "autotune"@,
        EntityType::EntityExperiment => "experiment"@,
        EntityType::EntityLayer => "layer"@,
        EntityType::EntitySegment => "segment"@,
        EntityType::EntityHoldout => "holdout"@,
    }
}

impl EntityType {
    /// The entity's legacy type name.
    pub fn to_legacy_type(self) -> (r: String)
        ensures
            r@ == legacy_type_name(self),
    {
        let name = match self {
            EntityType::EntityFeatureGate | EntityType::EntityHoldout | EntityType::EntitySegment => "feature_gate",
            EntityType::EntityDynamicConfig | EntityType::EntityAutotune | EntityType::EntityExperiment
            | EntityType::EntityLayer => "dynamic_config",
            EntityType::EntityUnknown => "unknown",
        };
        String::from_str(name)
    }

    /// The entity's own name; the unknown entity is a parse error.
    pub fn to_string_type(self) -> (r: Result<String, StatsigErr>)
        ensures
            self is EntityUnknown ==> (r matches Err(e) && is_proto_error(
                e,
                "proto::EntityType"@,
                "Expected entity type to be known"@,
            )),
            !(self is EntityUnknown) ==> (r matches Ok(s) && s@ == entity_type_name(self)),
    {
        let name = match self {
            EntityType::EntityUnknown => {
                return Err(proto_error("proto::EntityType", "Expected entity type to be known"));
            },
            EntityType::EntityFeatureGate => "feature_gate",
            EntityType::EntityDynamicConfig => "dynamic_config",
            EntityType::EntityAutotune => "autotune",
            EntityType::EntityExperiment => "experiment",
            EntityType::EntityLayer => "layer",
            EntityType::EntitySegment => "segment",
            EntityType::EntityHoldout => "holdout",
        };
        Ok(String::from_str(name))
    }
}

/// The ID types the specs name without spelling them out.
#[derive(Debug, Clone, Copy, PartialEq, Eq, Structural)]
pub enum KnownIdType {
    Unknown,
    UserId,
    StableId,
}

/// The ID type of a spec or rule: a known one, or a custom ID type by name.
#[derive(Debug, Clone)]
pub enum IdTypeValue {
    KnownIdType(KnownIdType),
    CustomIdType(String),
}

/// The ID type's name: empty when absent, `userID` or `stableID` for the known ones, the
/// custom name otherwise (`None` for the unknown known type, a parse error).
pub open spec fn id_type_name(id_type: Option<IdTypeValue>) -> Option<Seq<char>> {
    match id_type {
        None => Some(Seq::empty()),
        Some(IdTypeValue::KnownIdType(KnownIdType::UserId)) => Some("userID"@),
        Some(IdTypeValue::KnownIdType(KnownIdType::StableId)) => Some("stableID"@),
        Some(IdTypeValue::KnownIdType(KnownIdType::Unknown)) => None,
        Some(IdTypeValue::CustomIdType(name)) => Some(name@),
    }
}

/// The name of an ID type; the unknown known type is a parse error.
pub fn id_type_from_pb(id_type: Option<IdTypeValue>) -> (r: Result<String, StatsigErr>)
    ensures
        id_type_name(id_type) matches Some(n) ==> (r matches Ok(s) && s@ == n),
        id_type_name(id_type) is None ==> (r matches Err(e) && is_proto_error(
            e,
            "proto::KnownIdType"@,
            "Expected ID type to be known"@,
        )),
{
    match id_type {
        None => Ok(String::new()),
        Some(IdTypeValue::KnownIdType(KnownIdType::UserId)) => Ok(String::from_str("userID")),
        Some(IdTypeValue::KnownIdType(KnownIdType::StableId)) => Ok(String::from_str("stableID")),
        Some(IdTypeValue::KnownIdType(KnownIdType::Unknown)) => Err(
            proto_error("proto::KnownIdType", "Expected ID type to be known"),
        ),
        Some(IdTypeValue::CustomIdType(name)) => Ok(name),
    }
}

/// The view of an optional string.
pub open spec fn opt_view(s: Option<&str>) -> Option<Seq<char>> {
    match s {
        Some(t) => Some(t@),
        None => None,
    }
}

/// A checksum's numeric value: its text read as an unsigned 32-bit decimal, when it is one.
pub open spec fn checksum_value(checksum: Option<Seq<char>>) -> Option<u32> {
    match checksum {
        Some(c) => match spec_parse_unsigned(c, u32::MAX as nat) {
            Some(v) => Some(v as u32),
            None => None,
        },
        None => None,
    }
}

/// Reads a checksum as an unsigned 32-bit decimal number.
pub fn checksum_to_u32(checksum: Option<&str>) -> (r: Option<u32>)
    ensures
        r == checksum_value(opt_view(checksum)),
{
    let c = match checksum {
        Some(c) => c,
        None => return None,
    };
    let chars = str_to_chars(c);
    match parse_unsigned(&chars, 0xffff_ffff) {
        Some(v) => Some(v as u32),
        None => None,
    }
}

/// Checksum sums wrap around at two to the 64th.
pub open spec fn checksum_modulus() -> nat {
    0x1_0000_0000_0000_0000
}

/// The value a checksum adds to a sum.
pub open spec fn checksum_addend(c: Option<u32>) -> nat {
    match c {
        Some(v) => v as nat,
        None => 0,
    }
}

/// The sum of the checksums that are present.
pub open spec fn checksum_sum(s: Seq<Option<u32>>) -> nat
    decreases s.len(),
{
    if s.len() == 0 {
        0
    } else {
        checksum_sum(s.drop_last()) + checksum_addend(s.last())
    }
}

/// Adds up the checksums that are present, wrapping around on overflow.
pub fn sum_checksums(checksums: &Vec<Option<u32>>) -> (r: u64)
    ensures
        r == checksum_sum(checksums@) % checksum_modulus(),
{
    let mut acc: u64 = 0;
    let mut i: usize = 0;
    while i < checksums.len()
        invariant
            i <= checksums.len(),
            acc == checksum_sum(checksums@.take(i as int)) % checksum_modulus(),
        decreases checksums.len() - i,
    {
        let v: u64 = match checksums[i] {
            Some(v) => v as u64,
            None => 0,
        };
        let ghost t = checksum_sum(checksums@.take(i as int));
        proof {
            assert(checksums@.take(i + 1).drop_last() =~= checksums@.take(i as int));
            assert(checksums@.take(i + 1).last() == checksums@[i as int]);
            assert(checksum_sum(checksums@.take(i + 1)) == t + v);
            lemma_wrapping_sum(t, v as nat, acc as nat);
        }
        acc = acc.wrapping_add(v);
        i = i + 1;
    }
    assert(checksums@.take(checksums.len() as int) =~= checksums@);
    acc
}

/// Adding to a sum kept modulo two to the 64th, with wrap-around, keeps it so.
proof fn lemma_wrapping_sum(t: nat, v: nat, acc: nat)
    requires
        acc == t % checksum_modulus(),
        v < checksum_modulus(),
    ensures
        (if acc + v > u64::MAX {
            acc + v - checksum_modulus()
        } else {
            (acc + v) as int
        }) == (t + v) % checksum_modulus(),
{
    let m = checksum_modulus() as int;
    vstd::arithmetic::div_mod::lemma_fundamental_div_mod(t as int, m);
    vstd::arithmetic::div_mod::lemma_fundamental_div_mod((t + v) as int, m);
    let q = t as int / m;
    assert(t == q * m + acc);
    if acc + v > u64::MAX {
        vstd::arithmetic::div_mod::lemma_mod_add_multiples_vanish((acc + v - m) as int, m);
        vstd::arithmetic::div_mod::lemma_mod_multiples_vanish(q + 1, (acc + v - m) as int, m);
        vstd::arithmetic::div_mod::lemma_small_mod((acc + v - m) as nat, m as nat);
        assert((q + 1) * m + (acc + v - m) == t + v) by (nonlinear_arith)
            requires
                t == q * m + acc,
        ;
    } else {
        vstd::arithmetic::div_mod::lemma_mod_multiples_vanish(q, (acc + v) as int, m);
        vstd::arithmetic::div_mod::lemma_small_mod((acc + v) as nat, m as nat);
    }
}

/// Taking one checksum out of a list takes its value off the sum.
proof fn lemma_checksum_sum_remove(s: Seq<Option<u32>>, i: int)
    requires
        0 <= i < s.len(),
    ensures
        checksum_sum(s) == checksum_sum(s.remove(i)) + checksum_addend(s[i]),
    decreases s.len(),
{
    if i == s.len() - 1 {
        assert(s.remove(i) =~= s.drop_last());
    } else {
        let d = s.drop_last();
        lemma_checksum_sum_remove(d, i);
        assert(s.remove(i).drop_last() =~= d.remove(i));
        assert(s.remove(i).last() == s.last());
    }
}

/// The sum of a collection's checksums does not depend on the order they are taken in, as
/// a map walks its entries in no fixed order.
pub proof fn lemma_checksum_sum_order_free(s1: Seq<Option<u32>>, s2: Seq<Option<u32>>)
    requires
        s1.to_multiset() == s2.to_multiset(),
    ensures
        checksum_sum(s1) == checksum_sum(s2),
    decreases s1.len(),
{
    broadcast use vstd::seq_lib::to_multiset_len, vstd::seq_lib::to_multiset_contains;

    if s1.len() == 0 {
        assert(s1.to_multiset().len() == s1.len());
        assert(s2.to_multiset().len() == s2.len());
    } else {
        let x = s1.last();
        let d1 = s1.drop_last();
        assert(s1 =~= d1.push(x));
        vstd::seq_lib::to_multiset_build(d1, x);
        assert(s1.to_multiset().count(x) > 0) by {
            assert(s1.contains(x)) by {
                assert(s1[s1.len() - 1] == x);
            }
        }
        assert(s2.contains(x));
        let j = choose|j: int| 0 <= j < s2.len() && s2[j] == x;
        vstd::seq_lib::to_multiset_remove(s2, j);
        assert(d1.to_multiset() =~= s1.to_multiset().remove(x)) by {
            broadcast use vstd::multiset::group_multiset_axioms;
        }
        lemma_checksum_sum_order_free(d1, s2.remove(j));
        lemma_checksum_sum_remove(s2, j);
    }
}

/// The numeric values of a collection's checksums.
pub open spec fn parsed_checksums(entries: Seq<Option<String>>) -> Seq<Option<u32>> {
    Seq::new(
        entries.len(),
        |i: int|
            checksum_value(
                match entries[i] {
                    Some(c) => Some(c@),
                    None => None,
                },
            ),
    )
}

/// The checksum of a whole collection: the wrapped sum of its entries' checksums.
pub open spec fn collection_checksum(entries: Seq<Option<String>>) -> nat {
    checksum_sum(parsed_checksums(entries)) % checksum_modulus()
}

/// The checksum of a whole collection, from the checksums of its entries.
pub fn checksum_of_entries(entries: &Vec<Option<String>>) -> (r: u64)
    ensures
        r == collection_checksum(entries@),
{
    let mut values: Vec<Option<u32>> = Vec::new();
    let mut i: usize = 0;
    while i < entries.len()
        invariant
            i <= entries.len(),
            values@ =~= parsed_checksums(entries@).take(i as int),
        decreases entries.len() - i,
    {
        let v = match &entries[i] {
            Some(c) => checksum_to_u32(Some(c.as_str())),
            None => None,
        };
        values.push(v);
        i = i + 1;
    }
    assert(parsed_checksums(entries@).take(entries.len() as int) =~= parsed_checksums(entries@));
    sum_checksums(&values)
}

/// The message for a collection whose expected checksum is missing.
pub open spec fn missing_checksum_message(field: Seq<char>) -> Seq<char> {
    "Missing checksum for "@ + field
}

/// The message for a collection whose checksum differs from the expected one.
pub open spec fn checksum_mismatch_message(field: Seq<char>, expected: u64, computed: u64) -> Seq<char> {
    "Checksum mismatch for "@ + field + ": expected "@ + decimal(expected as nat) + ", got "@
        + decimal(computed as nat)
}

/// What is wrong with a collection's checksum, if anything: the expected one is missing or
/// differs from the computed one.
pub open spec fn checksum_failure(expected: Seq<(String, u64)>, field: Seq<char>, computed: u64) -> Option<
    Seq<char>,
> {
    match lookup(expected, field) {
        None => Some(missing_checksum_message(field)),
        Some(e) => if e == computed {
            None
        } else {
            Some(checksum_mismatch_message(field, e, computed))
        },
    }
}

/// Checks a collection's computed checksum against the expected one named after it.
pub fn validate_field_checksum(field: &str, field_checksums: &Vec<(String, u64)>, computed: u64) -> (r:
    Result<(), StatsigErr>)
    ensures
        checksum_failure(field_checksums@, field@, computed) is None ==> r is Ok,
        checksum_failure(field_checksums@, field@, computed) matches Some(msg) ==> (r matches Err(e)
            && is_proto_error(e, "proto::RulesetsChecksums"@, msg)),
{
    let expected = match find_key_exec(field_checksums, field) {
        Some(i) => field_checksums[i].1,
        None => {
            let mut m: Vec<char> = Vec::new();
            extend_str(&mut m, "Missing checksum for ");
            extend_str(&mut m, field);
            return Err(
                StatsigErr::ProtobufParseError(
                    String::from_str("proto::RulesetsChecksums"),
                    chars_to_string(&m),
                ),
            );
        },
    };
    if expected != computed {
        let mut m: Vec<char> = Vec::new();
        extend_str(&mut m, "Checksum mismatch for ");
        extend_str(&mut m, field);
        extend_str(&mut m, ": expected ");
        extend_chars(&mut m, &decimal_chars(expected));
        extend_str(&mut m, ", got ");
        extend_chars(&mut m, &decimal_chars(computed));
        return Err(
            StatsigErr::ProtobufParseError(
                String::from_str("proto::RulesetsChecksums"),
                chars_to_string(&m),
            ),
        );
    }
    Ok(())
}

/// The first failure among the collections' checksum checks, in order.
pub open spec fn first_checksum_failure(
    expected: Seq<(String, u64)>,
    fields: Seq<(Seq<char>, Seq<Option<String>>)>,
) -> Option<Seq<char>>
    decreases fields.len(),
{
    if fields.len() == 0 {
        None
    } else {
        match checksum_failure(expected, fields[0].0, collection_checksum(fields[0].1) as u64) {
            Some(m) => Some(m),
            None => first_checksum_failure(expected, fields.drop_first()),
        }
    }
}

/// The collections of a specs response in the order their checksums are checked.
pub open spec fn checksum_fields(
    condition_map: Seq<Option<String>>,
    dynamic_configs: Seq<Option<String>>,
    feature_gates: Seq<Option<String>>,
    layer_configs: Seq<Option<String>>,
    param_stores: Seq<Option<String>>,
) -> Seq<(Seq<char>, Seq<Option<String>>)> {
    seq![
        ("condition_map"@, condition_map),
        ("dynamic_configs"@, dynamic_configs),
        ("feature_gates"@, feature_gates),
        ("layer_configs"@, layer_configs),
        ("param_stores"@, param_stores),
    ]
}

/// Checks a specs response against the checksums sent with it: each collection's checksum
/// (given by the checksums of its entries) must equal the expected one; the first collection
/// that does not match is reported.
pub fn handle_checksums_update(
    field_checksums: &Vec<(String, u64)>,
    condition_map: &Vec<Option<String>>,
    dynamic_configs: &Vec<Option<String>>,
    feature_gates: &Vec<Option<String>>,
    layer_configs: &Vec<Option<String>>,
    param_stores: &Vec<Option<String>>,
) -> (r: Result<(), StatsigErr>)
    ensures
        ({
            let first = first_checksum_failure(
                field_checksums@,
                checksum_fields(
                    condition_map@,
                    dynamic_configs@,
                    feature_gates@,
                    layer_configs@,
                    param_stores@,
                ),
            );
            &&& first is None ==> r is Ok
            &&& first matches Some(msg) ==> (r matches Err(e) && is_proto_error(
                e,
                "proto::RulesetsChecksums"@,
                msg,
            ))
        }),
{
    let ghost fields = checksum_fields(
        condition_map@,
        dynamic_configs@,
        feature_gates@,
        layer_configs@,
        param_stores@,
    );
    proof {
        reveal_with_fuel(first_checksum_failure, 6);
        assert(fields.drop_first() =~= seq![fields[1], fields[2], fields[3], fields[4]]);
        assert(fields.drop_first().drop_first() =~= seq![fields[2], fields[3], fields[4]]);
        assert(fields.drop_first().drop_first().drop_first() =~= seq![fields[3], fields[4]]);
        assert(fields.drop_first().drop_first().drop_first().drop_first() =~= seq![fields[4]]);
        assert(fields.drop_first().drop_first().drop_first().drop_first().drop_first() =~= Seq::<
            (Seq<char>, Seq<Option<String>>),
        >::empty());
    }
    validate_field_checksum("condition_map", field_checksums, checksum_of_entries(condition_map))?;
    validate_field_checksum(
        "dynamic_configs",
        field_checksums,
        checksum_of_entries(dynamic_configs),
    )?;
    validate_field_checksum("feature_gates", field_checksums, checksum_of_entries(feature_gates))?;
    validate_field_checksum("layer_configs", field_checksums, checksum_of_entries(layer_configs))?;
    validate_field_checksum("param_stores", field_checksums, checksum_of_entries(param_stores))?;
    Ok(())
}

/// Where an entity of an incoming specs response comes from.
#[derive(Debug, Clone, Copy, PartialEq, Eq, Structural)]
pub enum SpecSource {
    /// The preloaded copy, whose checksum matches.
    Preloaded,
    /// The copy in the current specs, whose checksum matches.
    Existing,
    /// Neither matches: the envelope's data must be decoded.
    Decode,
}

/// Whether an entity copy with the given checksum (`None` when there is no copy, `Some(None)`
/// when it has no checksum) matches the envelope's checksum.
pub open spec fn checksum_matches(copy: Option<Option<&str>>, checksum: Seq<char>) -> bool {
    copy matches Some(Some(c)) && c@ == checksum
}

/// Picks where an incoming entity comes from: a preloaded copy with the same checksum, else
/// the current copy with the same checksum, else the envelope's own data.
pub fn choose_spec_source(preloaded: Option<Option<&str>>, existing: Option<Option<&str>>, checksum: &str) -> (r:
    SpecSource)
    ensures
        r == (if checksum_matches(preloaded, checksum@) {
            SpecSource::Preloaded
        } else if checksum_matches(existing, checksum@) {
            SpecSource::Existing
        } else {
            SpecSource::Decode
        }),
{
    let wanted = str_to_chars(checksum);
    if let Some(Some(c)) = preloaded {
        if str_eq_chars(c, &wanted) {
            return SpecSource::Preloaded;
        }
    }
    if let Some(Some(c)) = existing {
        if str_eq_chars(c, &wanted) {
            return SpecSource::Existing;
        }
    }
    SpecSource::Decode
}

/// Whether `key` is one of the names.
pub open spec fn names_contain(names: Seq<String>, key: Seq<char>) -> bool {
    exists|i: int| 0 <= i < names.len() && #[trigger] names[i]@ == key
}

/// Deletes the named entries from a map: none of the names is found afterwards, and every
/// other key is found as before.
pub fn remove_string_from_map<V>(map: &mut Vec<(String, V)>, names: &Vec<String>)
    ensures
        forall|k: Seq<char>| names_contain(names@, k) ==> #[trigger] lookup(final(map)@, k) is None,
        forall|k: Seq<char>| !names_contain(names@, k) ==> #[trigger] lookup(final(map)@, k) == lookup(
            old(map)@,
            k,
        ),
{
    let ghost before = map@;
    let mut i: usize = 0;
    while i < names.len()
        invariant
            i <= names.len(),
            forall|k: Seq<char>|
                names_contain(names@.take(i as int), k) ==> #[trigger] lookup(map@, k) is None,
            forall|k: Seq<char>|
                !names_contain(names@.take(i as int), k) ==> #[trigger] lookup(map@, k) == lookup(before, k),
        decreases names.len() - i,
    {
        let ghost prev = map@;
        let name = &names[i];
        remove_entries(map, name.as_str());
        proof {
            lemma_remove_then_lookup(prev, name@);
            let taken = names@.take(i + 1);
            assert forall|k: Seq<char>| names_contain(taken, k) implies #[trigger] lookup(map@, k) is None by {
                let j = choose|j: int| 0 <= j < taken.len() && #[trigger] taken[j]@ == k;
                if k != name@ {
                    assert(names@.take(i as int)[j] == taken[j]);
                    assert(names_contain(names@.take(i as int), k));
                    lemma_remove_other(prev, name@, k);
                }
            }
            assert forall|k: Seq<char>| !names_contain(taken, k) implies #[trigger] lookup(map@, k) == lookup(
                before,
                k,
            ) by {
                assert(taken[i as int]@ == name@);
                lemma_remove_other(prev, name@, k);
                if names_contain(names@.take(i as int), k) {
                    let j = choose|j: int| 0 <= j < i && #[trigger] names@.take(i as int)[j]@ == k;
                    assert(taken[j] == names@.take(i as int)[j]);
                }
            }
        }
        i = i + 1;
    }
    assert(names@.take(names.len() as int) =~= names@);
}

/// Deletes the named entries from a map that may be absent; an absent map stays absent.
pub fn remove_string_from_opt_map<V>(map: &mut Option<Vec<(String, V)>>, names: &Vec<String>)
    ensures
        (*old(map)) is None <==> (*final(map)) is None,
        *final(map) matches Some(m) ==> (forall|k: Seq<char>|
            names_contain(names@, k) ==> #[trigger] lookup(m@, k) is None),
        *final(map) matches Some(m) ==> (forall|k: Seq<char>|
            !names_contain(names@, k) ==> #[trigger] lookup(m@, k) == lookup((*old(map))->0@, k)),
{
    match map {
        Some(m) => remove_string_from_map(m, names),
        None => {},
    }
}

/// The kind of envelope in a protobuf specs stream.
#[derive(Debug, Clone, Copy, PartialEq, Eq, Structural)]
pub enum SpecsEnvelopeKind {
    Unknown,
    Done,
    TopLevel,
    FeatureGate,
    DynamicConfig,
    LayerConfig,
    ParamStore,
    Condition,
    Deletions,
    Checksums,
    CopyPrev,
}

/// What reading a protobuf specs stream does with the next envelope.
#[derive(Debug)]
pub enum EnvelopeStep {
    /// The stream is complete.
    Finish,
    /// The stream is rejected with this error.
    Fail(StatsigErr),
    /// The envelope's kind is not one this reader knows a number for: it is skipped.
    Skip,
    /// The envelope updates the specs being built.
    Apply(SpecsEnvelopeKind),
}

/// The step for an envelope of the given kind (`None` when its kind number is unknown): a
/// done envelope ends the stream, an unknown kind rejects it, an unreadable kind is skipped,
/// and every other kind is applied.
pub fn envelope_step(kind: Option<SpecsEnvelopeKind>) -> (r: EnvelopeStep)
    ensures
        kind is None ==> r is Skip,
        kind == Some(SpecsEnvelopeKind::Done) ==> r is Finish,
        kind == Some(SpecsEnvelopeKind::Unknown) ==> (r matches EnvelopeStep::Fail(e) && is_proto_error(
            e,
            "proto::SpecsEnvelope"@,
            "Unknown envelope kind"@,
        )),
        kind matches Some(k) ==> (k is Done || k is Unknown || r == EnvelopeStep::Apply(k)),
{
    match kind {
        None => EnvelopeStep::Skip,
        Some(SpecsEnvelopeKind::Done) => EnvelopeStep::Finish,
        Some(SpecsEnvelopeKind::Unknown) => EnvelopeStep::Fail(
            proto_error("proto::SpecsEnvelope", "Unknown envelope kind"),
        ),
        Some(k) => EnvelopeStep::Apply(k),
    }
}

/// Reading a protobuf stream starts only into empty specs: the specs being built are checked,
/// not reset (resetting them is the store's task).
pub fn check_next_specs_empty(next_specs_empty: bool) -> (r: Result<(), StatsigErr>)
    ensures
        r is Ok <==> next_specs_empty,
        r matches Err(e) ==> is_proto_error(e, "SpecsResponseFull"@, "Next specs are not empty"@),
{
    if !next_specs_empty {
        return Err(proto_error("SpecsResponseFull", "Next specs are not empty"));
    }
    Ok(())
}

/// The next envelope frame of a protobuf specs stream; a failed read becomes a
/// `SpecsEnvelope` parse error that carries the read error's text.
pub fn next_envelope_frame(reader: &mut ProtoStreamReader) -> (r: Result<bytes::BytesMut, StatsigErr>)
    requires
        old(reader).well_formed(),
    ensures
        final(reader).well_formed(),
        old(reader).remaining() matches Some(rem) ==> match spec_next_frame(rem) {
            Some(n) => r matches Ok(frame) && crate::proto_stream_reader::bytes_mut_contents(frame)
                == rem.take(n as int) && final(reader).remaining() == Some(rem.skip(n as int)),
            None => r is Err,
        },
        r matches Err(e) ==> (e matches StatsigErr::ProtobufParseError(t, m) && t@ == "SpecsEnvelope"@
            && exists|read_err: StatsigErr| m@ == "Error reading next delimited proto: "@
            + spec_statsig_err_display(read_err)),
{
    match reader.read_next_delimited_proto() {
        Ok(frame) => Ok(frame),
        Err(e) => {
            let mut msg: Vec<char> = Vec::new();
            extend_str(&mut msg, "Error reading next delimited proto: ");
            let text = e.to_display_string();
            let t = str_to_chars(text.as_str());
            extend_chars(&mut msg, &t);
            Err(StatsigErr::ProtobufParseError(String::from_str("SpecsEnvelope"), chars_to_string(&msg)))
        },
    }
}

} // verus!
