use vstd::prelude::*;
use vstd::string::StringExecFns;

use crate::evaluation_types::{DynamicReturnable, EvaluatorResult};
use crate::text::{str_eq_chars, str_to_chars};

verus! {

/// The ID under which an override applies to every user.
pub open spec fn no_id_override() -> Seq<char> {
    "__STATSIG_NO_ID__"@
}

/// The reason reported for a value that comes from a local override.
pub open spec fn local_override_reason() -> Seq<char> {
    "LocalOverride"@
}

/// The IDs of a user that overrides are looked up by: the user ID, then the custom IDs in
/// order (each `None` when the user's value for it is not a string).
pub struct OverrideUser {
    pub user_id: Option<String>,
    pub custom_ids: Vec<Option<String>>,
}

/// Position of the first entry named `key`, from position `i` on.
pub open spec fn find_key<V>(entries: Seq<(String, V)>, key: Seq<char>, i: int) -> Option<int>
    decreases entries.len() - i,
{
    if i < 0 || i >= entries.len() {
        None
    } else if entries[i].0@ == key {
        Some(i)
    } else {
        find_key(entries, key, i + 1)
    }
}

/// The value of the first entry named `key`.
pub open spec fn lookup<V>(entries: Seq<(String, V)>, key: Seq<char>) -> Option<V> {
    match find_key(entries, key, 0) {
        Some(i) => Some(entries[i].1),
        None => None,
    }
}

/// The first entry found is named `key`, and none before it from `i` on is.
proof fn lemma_find_key<V>(entries: Seq<(String, V)>, key: Seq<char>, i: int)
    requires
        0 <= i,
    ensures
        find_key(entries, key, i) matches Some(j) ==> i <= j < entries.len() && entries[j].0@ == key
            && forall|m: int| i <= m < j ==> entries[m].0@ != key,
        find_key(entries, key, i) is None ==> forall|m: int| i <= m < entries.len() ==> entries[m].0@ != key,
    decreases entries.len() - i,
{
    if i < entries.len() && entries[i].0@ != key {
        lemma_find_key(entries, key, i + 1);
    }
}

/// Finding from `i` gives the same as finding from 0 when no earlier entry is named `key`.
proof fn lemma_find_key_from<V>(entries: Seq<(String, V)>, key: Seq<char>, i: int)
    requires
        0 <= i <= entries.len(),
        forall|m: int| 0 <= m < i ==> entries[m].0@ != key,
    ensures
        find_key(entries, key, 0) == find_key(entries, key, i),
    decreases i,
{
    if i > 0 {
        lemma_find_key_from(entries, key, i - 1);
    }
}

/// Position of the first entry named `key`.
pub(crate) fn find_key_exec<V>(entries: &Vec<(String, V)>, key: &str) -> (r: Option<usize>)
    ensures
        r is None <==> find_key(entries@, key@, 0) is None,
        r matches Some(i) ==> find_key(entries@, key@, 0) == Some(i as int),
        r matches Some(i) ==> i < entries@.len() && entries@[i as int].0@ == key@,
{
    proof {
        lemma_find_key(entries@, key@, 0);
    }
    let k = str_to_chars(key);
    let mut i: usize = 0;
    while i < entries.len()
        invariant
            i <= entries.len(),
            k@ == key@,
            find_key(entries@, key@, 0) == find_key(entries@, key@, i as int),
        decreases entries.len() - i,
    {
        if str_eq_chars(entries[i].0.as_str(), &k) {
            return Some(i);
        }
        i = i + 1;
    }
    None
}

/// Sets the value of `key`: replaces the value of the first entry named `key`, or appends
/// an entry.
pub open spec fn spec_set<V>(entries: Seq<(String, V)>, key: String, value: V) -> Seq<(String, V)> {
    match find_key(entries, key@, 0) {
        Some(i) => entries.update(i, (key, value)),
        None => entries.push((key, value)),
    }
}

/// Setting a value, then looking it up, gives that value; other keys look up as before.
pub proof fn lemma_set_then_lookup<V>(entries: Seq<(String, V)>, key: String, value: V, other: Seq<char>)
    ensures
        lookup(spec_set(entries, key, value), key@) == Some(value),
        other != key@ ==> lookup(spec_set(entries, key, value), other) == lookup(entries, other),
{
    lemma_find_key(entries, key@, 0);
    lemma_find_key(entries, other, 0);
    let s = spec_set(entries, key, value);
    lemma_find_key(s, key@, 0);
    lemma_find_key(s, other, 0);
    match find_key(entries, key@, 0) {
        Some(j) => {
            if find_key(s, key@, 0) != Some(j) {
                assert(s[j].0@ == key@);
            }
            if other != key@ {
                match find_key(entries, other, 0) {
                    Some(o) => {
                        assert(s[o].0@ == other);
                        if find_key(s, other, 0) != Some(o) {
                            let t = find_key(s, other, 0);
                            if t is Some {
                                assert(entries[t->0].0@ == other || t->0 == j);
                            }
                        }
                    },
                    None => {
                        if find_key(s, other, 0) is Some {
                            let t = find_key(s, other, 0)->0;
                            assert(t != j);
                            assert(entries[t].0@ == other);
                        }
                    },
                }
            }
        },
        None => {
            assert(s[entries.len() as int].0@ == key@);
            if find_key(s, key@, 0) != Some(entries.len() as int) {
                let t = find_key(s, key@, 0);
                if t is Some {
                    assert(entries[t->0].0@ == key@);
                }
            }
            if other != key@ {
                match find_key(entries, other, 0) {
                    Some(o) => {
                        assert(s[o].0@ == other);
                        if find_key(s, other, 0) != Some(o) {
                            let t = find_key(s, other, 0);
                            if t is Some {
                                assert(t->0 < entries.len());
                                assert(entries[t->0].0@ == other);
                            }
                        }
                    },
                    None => {
                        if find_key(s, other, 0) is Some {
                            let t = find_key(s, other, 0)->0;
                            assert(t < entries.len());
                            assert(entries[t].0@ == other);
                        }
                    },
                }
            }
        },
    }
}

/// Sets the value of `key` in a list of entries used as a map.
fn set_entry<V>(entries: &mut Vec<(String, V)>, key: String, value: V)
    ensures
        final(entries)@ == spec_set(old(entries)@, key, value),
{
    match find_key_exec(entries, key.as_str()) {
        Some(i) => {
            entries.set(i, (key, value));
        },
        None => {
            entries.push((key, value));
        },
    }
}

/// Removes the entries named `key`.
pub open spec fn spec_remove<V>(entries: Seq<(String, V)>, key: Seq<char>) -> Seq<(String, V)> {
    entries.filter(named_otherwise::<V>(key))
}

/// Holds of the entries not named `key`.
pub open spec fn named_otherwise<V>(key: Seq<char>) -> spec_fn((String, V)) -> bool {
    |e: (String, V)| e.0@ != key
}

/// Removing a key leaves none of its entries.
pub proof fn lemma_remove_then_lookup<V>(entries: Seq<(String, V)>, key: Seq<char>)
    ensures
        lookup(spec_remove(entries, key), key) is None,
{
    let s = spec_remove(entries, key);
    let p = named_otherwise::<V>(key);
    lemma_find_key(s, key, 0);
    if find_key(s, key, 0) is Some {
        let t = find_key(s, key, 0)->0;
        entries.filter_lemma(p);
        assert(s.contains(s[t]));
        assert(p(s[t]));
    }
}

/// Appending an entry leaves every earlier match in place; a key found nowhere before is
/// found at the new entry when it carries that name.
proof fn lemma_find_key_push<V>(entries: Seq<(String, V)>, x: (String, V), key: Seq<char>)
    ensures
        find_key(entries.push(x), key, 0) == (match find_key(entries, key, 0) {
            Some(j) => Some(j),
            None => if x.0@ == key {
                Some(entries.len() as int)
            } else {
                None
            },
        }),
{
    let s = entries.push(x);
    lemma_find_key(entries, key, 0);
    lemma_find_key(s, key, 0);
    match find_key(entries, key, 0) {
        Some(j) => {
            assert(s[j] == entries[j]);
            if let Some(t) = find_key(s, key, 0) {
                if t < j {
                    assert(s[t] == entries[t]);
                }
            }
        },
        None => {
            if let Some(t) = find_key(s, key, 0) {
                if t < entries.len() {
                    assert(s[t] == entries[t]);
                }
            }
            if x.0@ == key {
                assert(s[entries.len() as int] == x);
            }
        },
    }
}

/// Looking up in a list with one more entry at its end.
proof fn lemma_lookup_push<V>(entries: Seq<(String, V)>, x: (String, V), key: Seq<char>)
    ensures
        lookup(entries.push(x), key) == (match lookup(entries, key) {
            Some(v) => Some(v),
            None => if x.0@ == key {
                Some(x.1)
            } else {
                None
            },
        }),
{
    lemma_find_key_push(entries, x, key);
    lemma_find_key(entries, key, 0);
    if let Some(j) = find_key(entries, key, 0) {
        assert(entries.push(x)[j] == entries[j]);
    }
}

/// Removing one key leaves every other key looking up as before.
pub proof fn lemma_remove_other<V>(entries: Seq<(String, V)>, key: Seq<char>, other: Seq<char>)
    requires
        other != key,
    ensures
        lookup(spec_remove(entries, key), other) == lookup(entries, other),
    decreases entries.len(),
{
    let p = named_otherwise::<V>(key);
    if entries.len() == 0 {
        assert(spec_remove(entries, key) =~= entries);
    } else {
        let d = entries.drop_last();
        let x = entries.last();
        assert(entries =~= d.push(x));
        d.lemma_filter_push(x, p);
        lemma_remove_other(d, key, other);
        lemma_lookup_push(d, x, other);
        if p(x) {
            lemma_lookup_push(spec_remove(d, key), x, other);
        }
    }
}

/// No two entries share a name: the list is a map.
pub open spec fn names_unique<V>(entries: Seq<(String, V)>) -> bool {
    forall|i: int, j: int|
        0 <= i < j < entries.len() ==> (#[trigger] entries[i]).0@ != (#[trigger] entries[j]).0@
}

/// A two-level map whose outer names, and the names in each inner map, are unique.
pub open spec fn nested_unique<V>(store: Seq<(String, Vec<(String, V)>)>) -> bool {
    &&& names_unique(store)
    &&& forall|i: int| 0 <= i < store.len() ==> names_unique((#[trigger] store[i]).1@)
}

/// Setting a value keeps the names of a map unique.
pub proof fn lemma_set_unique<V>(entries: Seq<(String, V)>, key: String, value: V)
    requires
        names_unique(entries),
    ensures
        names_unique(spec_set(entries, key, value)),
{
    lemma_find_key(entries, key@, 0);
    let s = spec_set(entries, key, value);
    assert forall|i: int, j: int| 0 <= i < j < s.len() implies (#[trigger] s[i]).0@ != (
    #[trigger] s[j]).0@ by {
        match find_key(entries, key@, 0) {
            Some(m) => {
                if i != m && j != m {
                    assert(s[i] == entries[i] && s[j] == entries[j]);
                } else if i == m {
                    assert(s[j] == entries[j]);
                    assert(entries[i].0@ == key@);
                } else {
                    assert(s[i] == entries[i]);
                    assert(entries[j].0@ == key@);
                }
            },
            None => {
                if j == entries.len() {
                    assert(s[i] == entries[i]);
                } else {
                    assert(s[i] == entries[i] && s[j] == entries[j]);
                }
            },
        }
    }
}

/// Removing a key keeps the names of a map unique, and every entry left was an entry before.
pub proof fn lemma_remove_unique<V>(entries: Seq<(String, V)>, key: Seq<char>)
    requires
        names_unique(entries),
    ensures
        names_unique(spec_remove(entries, key)),
        forall|x: (String, V)| spec_remove(entries, key).contains(x) ==> entries.contains(x),
    decreases entries.len(),
{
    let p = named_otherwise::<V>(key);
    entries.filter_lemma(p);
    assert forall|x: (String, V)| spec_remove(entries, key).contains(x) implies entries.contains(x) by {
        entries.lemma_filter_contains_rev(p, x);
    }
    if entries.len() > 0 {
        let d = entries.drop_last();
        let x = entries.last();
        assert(entries =~= d.push(x));
        assert(names_unique(d)) by {
            assert forall|i: int, j: int| 0 <= i < j < d.len() implies (#[trigger] d[i]).0@ != (
            #[trigger] d[j]).0@ by {
                assert(entries[i] == d[i] && entries[j] == d[j]);
            }
        }
        lemma_remove_unique(d, key);
        d.lemma_filter_push(x, p);
        let r = spec_remove(d, key);
        if p(x) {
            assert forall|i: int, j: int| 0 <= i < j < r.push(x).len() implies (#[trigger] r.push(x)[i]).0@
                != (#[trigger] r.push(x)[j]).0@ by {
                if j == r.len() {
                    assert(r.contains(r[i]));
                    assert(d.contains(r[i]));
                    let k = choose|k: int| 0 <= k < d.len() && d[k] == r[i];
                    assert(entries[k] == d[k]);
                    assert(entries[d.len() as int] == x);
                } else {
                    assert(r.push(x)[i] == r[i] && r.push(x)[j] == r[j]);
                }
            }
        }
    }
}

/// Replacing the inner map under an existing name keeps a two-level map's names unique, when
/// the new inner map's names are.
proof fn lemma_nested_update_unique<V>(
    before: Seq<(String, Vec<(String, V)>)>,
    i: int,
    k: String,
    inner: Vec<(String, V)>,
)
    requires
        nested_unique(before),
        0 <= i < before.len(),
        k == before[i].0,
        names_unique(inner@),
    ensures
        nested_unique(before.update(i, (k, inner))),
{
    let s = before.update(i, (k, inner));
    assert forall|a: int, b: int| 0 <= a < b < s.len() implies (#[trigger] s[a]).0@ != (
    #[trigger] s[b]).0@ by {
        assert(s[a].0 == before[a].0 && s[b].0 == before[b].0);
    }
    assert forall|a: int| 0 <= a < s.len() implies names_unique((#[trigger] s[a]).1@) by {
        if a != i {
            assert(s[a] == before[a]);
        }
    }
}

/// Adding an inner map under a new name keeps a two-level map's names unique, when the new
/// inner map's names are.
proof fn lemma_nested_push_unique<V>(
    before: Seq<(String, Vec<(String, V)>)>,
    k: String,
    inner: Vec<(String, V)>,
)
    requires
        nested_unique(before),
        find_key(before, k@, 0) is None,
        names_unique(inner@),
    ensures
        nested_unique(before.push((k, inner))),
{
    lemma_find_key(before, k@, 0);
    let s = before.push((k, inner));
    assert forall|a: int, b: int| 0 <= a < b < s.len() implies (#[trigger] s[a]).0@ != (
    #[trigger] s[b]).0@ by {
        assert(s[a] == before[a]);
        if b < before.len() {
            assert(s[b] == before[b]);
        }
    }
    assert forall|a: int| 0 <= a < s.len() implies names_unique((#[trigger] s[a]).1@) by {
        if a < before.len() {
            assert(s[a] == before[a]);
        }
    }
}

/// The value stored for `id` under `key` in a two-level map.
pub open spec fn nested_lookup<V>(store: Seq<(String, Vec<(String, V)>)>, key: Seq<char>, id: Seq<char>) -> Option<V> {
    match lookup(store, key) {
        Some(inner) => lookup(inner@, id),
        None => None,
    }
}

/// Removes the entries named `key`.
pub(crate) fn remove_entries<V>(entries: &mut Vec<(String, V)>, key: &str)
    ensures
        final(entries)@ == spec_remove(old(entries)@, key@),
{
    let k = str_to_chars(key);
    let ghost all = entries@;
    let ghost p = named_otherwise::<V>(key@);
    let mut kept: Vec<(String, V)> = Vec::new();
    let mut taken: usize = 0;
    let n = entries.len();
    while entries.len() > 0
        invariant
            all.len() == n,
            taken + entries@.len() == n,
            entries@ == all.skip(taken as int),
            k@ == key@,
            p == named_otherwise::<V>(key@),
            kept@ == all.take(taken as int).filter(p),
        decreases entries@.len(),
    {
        let e = entries.remove(0);
        assert(e == all[taken as int]);
        assert(entries@ =~= all.skip(taken + 1));
        proof {
            assert(all.take(taken + 1) =~= all.take(taken as int).push(e));
            all.take(taken as int).lemma_filter_push(e, p);
        }
        if !str_eq_chars(e.0.as_str(), &k) {
            kept.push(e);
        }
        taken = taken + 1;
    }
    assert(all.take(n as int) =~= all);
    *entries = kept;
}

/// The override that applies to a user: the one for the user ID, else the one for the first
/// custom ID that has one, else the one for every user.
pub open spec fn spec_override_for_user<V>(user: OverrideUser, overrides: Seq<(String, V)>) -> Option<V> {
    let by_user_id = match user.user_id {
        Some(id) => lookup(overrides, id@),
        None => None,
    };
    match by_user_id {
        Some(v) => Some(v),
        None => match first_custom_override(user.custom_ids@, overrides, 0) {
            Some(v) => Some(v),
            None => lookup(overrides, no_id_override()),
        },
    }
}

/// The override of the first custom ID from position `i` on that has one.
pub open spec fn first_custom_override<V>(
    ids: Seq<Option<String>>,
    overrides: Seq<(String, V)>,
    i: int,
) -> Option<V>
    decreases ids.len() - i,
{
    if i < 0 || i >= ids.len() {
        None
    } else {
        match ids[i] {
            Some(id) => match lookup(overrides, id@) {
                Some(v) => Some(v),
                None => first_custom_override(ids, overrides, i + 1),
            },
            None => first_custom_override(ids, overrides, i + 1),
        }
    }
}

/// The override that applies to a user, if any.
pub fn find_override_for_user<'a, V>(user: &OverrideUser, overrides: &'a Vec<(String, V)>) -> (r:
    Option<&'a V>)
    ensures
        r is None <==> spec_override_for_user(*user, overrides@) is None,
        r matches Some(v) ==> spec_override_for_user(*user, overrides@) == Some(*v),
{
    match &user.user_id {
        Some(id) => {
            match find_key_exec(overrides, id.as_str()) {
                Some(i) => return Some(&overrides[i].1),
                None => {},
            }
        },
        None => {},
    }
    let mut i: usize = 0;
    while i < user.custom_ids.len()
        invariant
            i <= user.custom_ids.len(),
            match user.user_id {
                Some(id) => lookup(overrides@, id@) is None,
                None => true,
            },
            first_custom_override(user.custom_ids@, overrides@, 0) == first_custom_override(
                user.custom_ids@,
                overrides@,
                i as int,
            ),
        decreases user.custom_ids.len() - i,
    {
        match &user.custom_ids[i] {
            Some(id) => {
                match find_key_exec(overrides, id.as_str()) {
                    Some(j) => return Some(&overrides[j].1),
                    None => {},
                }
            },
            None => {},
        }
        i = i + 1;
    }
    match find_key_exec(overrides, "__STATSIG_NO_ID__") {
        Some(j) => Some(&overrides[j].1),
        None => None,
    }
}

/// An override of an experiment: a value, or the group whose value to use.
pub enum ExperimentOverride {
    Value(DynamicReturnable),
    GroupName(String),
}

/// A rule of an experiment: its group and the value it returns.
pub struct RuleGroup {
    pub group_name: Option<String>,
    pub return_value: DynamicReturnable,
}

/// The value of the first rule of the experiment in the named group.
pub open spec fn spec_group_value(rules: Seq<RuleGroup>, group_name: Seq<char>, i: int) -> Option<DynamicReturnable>
    decreases rules.len() - i,
{
    if i < 0 || i >= rules.len() {
        None
    } else if rules[i].group_name matches Some(g) && g@ == group_name {
        Some(rules[i].return_value)
    } else {
        spec_group_value(rules, group_name, i + 1)
    }
}

/// The value of the group of an experiment; none without the experiment.
pub fn get_experiment_with_group_name(opt_spec: Option<&Vec<RuleGroup>>, group_name: &str) -> (r: Option<DynamicReturnable>)
    ensures
        r == (match opt_spec {
            None => None,
            Some(rules) => spec_group_value(rules@, group_name@, 0),
        }),
{
    let rules = match opt_spec {
        Some(r) => r,
        None => return None,
    };
    let g = str_to_chars(group_name);
    let mut i: usize = 0;
    while i < rules.len()
        invariant
            i <= rules.len(),
            g@ == group_name@,
            opt_spec == Some(rules),
            spec_group_value(rules@, group_name@, 0) == spec_group_value(rules@, group_name@, i as int),
        decreases rules.len() - i,
    {
        match &rules[i].group_name {
            Some(name) => {
                if str_eq_chars(name.as_str(), &g) {
                    return Some(rules[i].return_value.copy_value());
                }
            },
            None => {},
        }
        i = i + 1;
    }
    None
}

/// The evaluation result marked as coming from a local override: reason `LocalOverride`, rule
/// `override`, and every field but these and the value fields (`bool_value`, `json_value`)
/// as before.
pub open spec fn marked_as_override(r: EvaluatorResult, before: EvaluatorResult) -> bool {
    &&& r.override_reason matches Some(s) && s@ == local_override_reason()
    &&& r.rule_id matches Some(s) && s@ == "override"@
    &&& r.name == before.name
    &&& r.id_type == before.id_type
    &&& r.group_name == before.group_name
    &&& r.version == before.version
    &&& r.config_delegate == before.config_delegate
    &&& r.explicit_parameters == before.explicit_parameters
    &&& r.secondary_exposures == before.secondary_exposures
    &&& r.undelegated_secondary_exposures == before.undelegated_secondary_exposures
    &&& r.is_experiment_active == before.is_experiment_active
    &&& r.is_experiment_group == before.is_experiment_group
    &&& r.unsupported == before.unsupported
    &&& r.is_in_layer == before.is_in_layer
    &&& r.rule_id_suffix == before.rule_id_suffix
    &&& r.sampling_rate == before.sampling_rate
    &&& r.forward_all_exposures == before.forward_all_exposures
    &&& r.override_config_name == before.override_config_name
    &&& r.has_seen_analytical_gates == before.has_seen_analytical_gates
}

/// Marks an evaluation result as coming from a local override.
fn mark_result_as_override(result: &mut EvaluatorResult)
    ensures
        marked_as_override(*final(result), *old(result)),
        final(result).bool_value == old(result).bool_value,
        final(result).json_value == old(result).json_value,
{
    result.override_reason = Some(String::from_str("LocalOverride"));
    result.rule_id = Some(String::from_str("override"));
}

/// Overrides set locally, by config name and then by user ID.
pub struct StatsigLocalOverrideAdapter {
    pub gate: Vec<(String, Vec<(String, bool)>)>,
    pub config: Vec<(String, Vec<(String, DynamicReturnable)>)>,
    pub experiment: Vec<(String, Vec<(String, ExperimentOverride)>)>,
    pub layer: Vec<(String, Vec<(String, DynamicReturnable)>)>,
}

/// The ID an override is stored under: the given one, or the every-user ID.
pub open spec fn override_id(id: Option<&str>) -> Seq<char> {
    match id {
        Some(s) => s@,
        None => no_id_override(),
    }
}

/// The override ID as a string.
fn override_id_string(id: Option<&str>) -> (r: String)
    ensures
        r@ == override_id(id),
{
    match id {
        Some(s) => String::from_str(s),
        None => String::from_str("__STATSIG_NO_ID__"),
    }
}

/// Sets one override in a two-level map: the value for `id` under `key`.
fn set_nested<V>(store: &mut Vec<(String, Vec<(String, V)>)>, key: &str, id: String, value: V)
    ensures
        nested_unique(old(store)@) ==> nested_unique(final(store)@),
        nested_lookup(final(store)@, key@, id@) == Some(value),
        forall|k: Seq<char>, o: Seq<char>|
            !(k == key@ && o == id@) ==> #[trigger] nested_lookup(final(store)@, k, o)
                == nested_lookup(old(store)@, k, o),
{
    let ghost before = store@;
    let inner = match find_key_exec(store, key) {
        Some(i) => {
            let (k, mut inner) = store.remove(i);
            let ghost inner_before = inner@;
            set_entry(&mut inner, id, value);
            store.insert(i, (k, inner));
            proof {
                let new_inner = store@[i as int].1;
                assert(store@ =~= before.update(i as int, (k, new_inner)));
                assert(spec_set(before, k, new_inner) =~= store@);
                lemma_set_then_lookup(before, k, new_inner, key@);
                lemma_set_then_lookup(inner_before, id, value, id@);
                if nested_unique(before) {
                    assert(names_unique(before[i as int].1@));
                    lemma_set_unique(inner_before, id, value);
                    lemma_nested_update_unique(before, i as int, k, new_inner);
                }
                assert forall|kk: Seq<char>, o: Seq<char>|
                    !(kk == key@ && o == id@) implies #[trigger] nested_lookup(store@, kk, o)
                        == nested_lookup(before, kk, o) by {
                    lemma_set_then_lookup(before, k, new_inner, kk);
                    lemma_set_then_lookup(inner_before, id, value, o);
                }
            }
            return;
        },
        None => {
            let mut inner: Vec<(String, V)> = Vec::new();
            set_entry(&mut inner, id, value);
            inner
        },
    };
    let k = String::from_str(key);
    let ghost inner_view = inner@;
    set_entry(store, k, inner);
    proof {
        if nested_unique(before) {
            lemma_set_unique(Seq::<(String, V)>::empty(), id, value);
            assert(k@ == key@);
            lemma_nested_push_unique(before, k, store@.last().1);
            assert(store@ =~= before.push((k, store@.last().1)));
        }
        lemma_set_then_lookup(before, k, store@.last().1, key@);
        lemma_set_then_lookup(Seq::<(String, V)>::empty(), id, value, id@);
        assert forall|kk: Seq<char>, o: Seq<char>|
            !(kk == key@ && o == id@) implies #[trigger] nested_lookup(store@, kk, o)
                == nested_lookup(before, kk, o) by {
            lemma_set_then_lookup(before, k, store@.last().1, kk);
            lemma_set_then_lookup(Seq::<(String, V)>::empty(), id, value, o);
        }
    }
}

/// Whether a removal for the given ID reaches the override stored under `o`: every one
/// without an ID, only its own otherwise.
pub open spec fn removes_id(id: Option<&str>, o: Seq<char>) -> bool {
    match id {
        Some(i) => i@ == o,
        None => true,
    }
}

/// Removes overrides from a two-level map: everything under `key` without an ID, only the
/// one for that ID otherwise.
fn remove_nested<V>(store: &mut Vec<(String, Vec<(String, V)>)>, key: &str, id: Option<&str>)
    ensures
        nested_unique(old(store)@) ==> nested_unique(final(store)@),
        forall|o: Seq<char>|
            removes_id(id, o) ==> #[trigger] nested_lookup(final(store)@, key@, o) is None,
        forall|k: Seq<char>, o: Seq<char>|
            !(k == key@ && removes_id(id, o)) ==> #[trigger] nested_lookup(final(store)@, k, o)
                == nested_lookup(old(store)@, k, o),
{
    let ghost before = store@;
    match id {
        None => {
            remove_entries(store, key);
            proof {
                if nested_unique(before) {
                    lemma_remove_unique(before, key@);
                    assert forall|a: int| 0 <= a < store@.len() implies names_unique(
                        (#[trigger] store@[a]).1@,
                    ) by {
                        assert(store@.contains(store@[a]));
                        assert(spec_remove(before, key@).contains(store@[a]));
                        assert(before.contains(store@[a]));
                        let b = choose|b: int| 0 <= b < before.len() && before[b] == store@[a];
                        assert(names_unique(before[b].1@));
                    }
                }
                lemma_remove_then_lookup(before, key@);
                assert forall|k: Seq<char>, o: Seq<char>| k != key@ implies #[trigger] nested_lookup(
                    store@,
                    k,
                    o,
                ) == nested_lookup(before, k, o) by {
                    lemma_remove_other(before, key@, k);
                }
            }
        },
        Some(i) => {
            match find_key_exec(store, key) {
                Some(pos) => {
                    let (k, mut inner) = store.remove(pos);
                    let ghost inner_before = inner@;
                    remove_entries(&mut inner, i);
                    store.insert(pos, (k, inner));
                    proof {
                        let new_inner = store@[pos as int].1;
                        assert(store@ =~= before.update(pos as int, (k, new_inner)));
                        if nested_unique(before) {
                            assert(names_unique(before[pos as int].1@));
                            lemma_remove_unique(inner_before, i@);
                            lemma_nested_update_unique(before, pos as int, k, new_inner);
                        }
                        assert(spec_set(before, k, new_inner) =~= store@);
                        lemma_set_then_lookup(before, k, new_inner, key@);
                        lemma_remove_then_lookup(inner_before, i@);
                        assert forall|kk: Seq<char>, o: Seq<char>|
                            !(kk == key@ && i@ == o) implies #[trigger] nested_lookup(
                                store@,
                                kk,
                                o,
                            ) == nested_lookup(before, kk, o) by {
                            lemma_set_then_lookup(before, k, new_inner, kk);
                            if o != i@ {
                                lemma_remove_other(inner_before, i@, o);
                            }
                        }
                    }
                },
                None => {},
            }
        },
    }
}

impl StatsigLocalOverrideAdapter {
    /// Each store is a map of maps: config names are unique, and so are the user IDs under
    /// each name.
    pub open spec fn well_formed(&self) -> bool {
        &&& nested_unique(self.gate@)
        &&& nested_unique(self.config@)
        &&& nested_unique(self.experiment@)
        &&& nested_unique(self.layer@)
    }

    /// An adapter with no overrides.
    pub fn new() -> (r: Self)
        ensures
            r.well_formed(),
            r.gate@.len() == 0,
            r.config@.len() == 0,
            r.experiment@.len() == 0,
            r.layer@.len() == 0,
    {
        StatsigLocalOverrideAdapter {
            gate: Vec::new(),
            config: Vec::new(),
            experiment: Vec::new(),
            layer: Vec::new(),
        }
    }

    /// Overrides a gate's value for one user ID (or for every user).
    pub fn override_gate(&mut self, key: &str, value: bool, id: Option<&str>)
        ensures
            old(self).well_formed() ==> final(self).well_formed(),
            nested_lookup(final(self).gate@, key@, override_id(id)) == Some(value),
            forall|k: Seq<char>, o: Seq<char>|
                !(k == key@ && o == override_id(id)) ==> #[trigger] nested_lookup(final(self).gate@, k, o)
                    == nested_lookup(old(self).gate@, k, o),
            final(self).config@ == old(self).config@,
            final(self).experiment@ == old(self).experiment@,
            final(self).layer@ == old(self).layer@,
    {
        let id_str = override_id_string(id);
        set_nested(&mut self.gate, key, id_str, value);
    }

    /// Overrides a dynamic config's value for one user ID (or for every user).
    pub fn override_dynamic_config(&mut self, key: &str, value: DynamicReturnable, id: Option<&str>)
        ensures
            old(self).well_formed() ==> final(self).well_formed(),
            nested_lookup(final(self).config@, key@, override_id(id)) == Some(value),
            forall|k: Seq<char>, o: Seq<char>|
                !(k == key@ && o == override_id(id)) ==> #[trigger] nested_lookup(final(self).config@, k, o)
                    == nested_lookup(old(self).config@, k, o),
            final(self).gate@ == old(self).gate@,
            final(self).experiment@ == old(self).experiment@,
            final(self).layer@ == old(self).layer@,
    {
        let id_str = override_id_string(id);
        set_nested(&mut self.config, key, id_str, value);
    }

    /// Overrides an experiment's value for one user ID (or for every user).
    pub fn override_experiment(&mut self, key: &str, value: DynamicReturnable, id: Option<&str>)
        ensures
            old(self).well_formed() ==> final(self).well_formed(),
            nested_lookup(final(self).experiment@, key@, override_id(id)) == Some(ExperimentOverride::Value(value)),
            forall|k: Seq<char>, o: Seq<char>|
                !(k == key@ && o == override_id(id)) ==> #[trigger] nested_lookup(final(self).experiment@, k, o)
                    == nested_lookup(old(self).experiment@, k, o),
            final(self).gate@ == old(self).gate@,
            final(self).config@ == old(self).config@,
            final(self).layer@ == old(self).layer@,
    {
        let id_str = override_id_string(id);
        set_nested(&mut self.experiment, key, id_str, ExperimentOverride::Value(value));
    }

    /// Overrides an experiment with one of its groups for one user ID (or for every user).
    pub fn override_experiment_by_group_name(&mut self, key: &str, group_name: &str, id: Option<&str>)
        ensures
            old(self).well_formed() ==> final(self).well_formed(),
            nested_lookup(final(self).experiment@, key@, override_id(id)) matches Some(
                ExperimentOverride::GroupName(g),
            ) && g@ == group_name@,
            forall|k: Seq<char>, o: Seq<char>|
                !(k == key@ && o == override_id(id)) ==> #[trigger] nested_lookup(final(self).experiment@, k, o)
                    == nested_lookup(old(self).experiment@, k, o),
            final(self).gate@ == old(self).gate@,
            final(self).config@ == old(self).config@,
            final(self).layer@ == old(self).layer@,
    {
        let id_str = override_id_string(id);
        set_nested(
            &mut self.experiment,
            key,
            id_str,
            ExperimentOverride::GroupName(String::from_str(group_name)),
        );
    }

    /// Overrides a layer's value for one user ID (or for every user).
    pub fn override_layer(&mut self, key: &str, value: DynamicReturnable, id: Option<&str>)
        ensures
            old(self).well_formed() ==> final(self).well_formed(),
            nested_lookup(final(self).layer@, key@, override_id(id)) == Some(value),
            forall|k: Seq<char>, o: Seq<char>|
                !(k == key@ && o == override_id(id)) ==> #[trigger] nested_lookup(final(self).layer@, k, o)
                    == nested_lookup(old(self).layer@, k, o),
            final(self).gate@ == old(self).gate@,
            final(self).config@ == old(self).config@,
            final(self).experiment@ == old(self).experiment@,
    {
        let id_str = override_id_string(id);
        set_nested(&mut self.layer, key, id_str, value);
    }

    /// Removes a gate's overrides: all of them without an ID, that of the ID otherwise.
    pub fn remove_gate_override(&mut self, key: &str, id: Option<&str>)
        ensures
            old(self).well_formed() ==> final(self).well_formed(),
            forall|o: Seq<char>|
                removes_id(id, o) ==> #[trigger] nested_lookup(final(self).gate@, key@, o) is None,
            forall|k: Seq<char>, o: Seq<char>|
                !(k == key@ && removes_id(id, o)) ==> #[trigger] nested_lookup(final(self).gate@, k, o)
                    == nested_lookup(old(self).gate@, k, o),
            final(self).config@ == old(self).config@,
            final(self).experiment@ == old(self).experiment@,
            final(self).layer@ == old(self).layer@,
    {
        remove_nested(&mut self.gate, key, id);
    }

    /// Removes a dynamic config's overrides: all of them without an ID, that of the ID otherwise.
    pub fn remove_dynamic_config_override(&mut self, key: &str, id: Option<&str>)
        ensures
            old(self).well_formed() ==> final(self).well_formed(),
            forall|o: Seq<char>|
                removes_id(id, o) ==> #[trigger] nested_lookup(final(self).config@, key@, o) is None,
            forall|k: Seq<char>, o: Seq<char>|
                !(k == key@ && removes_id(id, o)) ==> #[trigger] nested_lookup(final(self).config@, k, o)
                    == nested_lookup(old(self).config@, k, o),
            final(self).gate@ == old(self).gate@,
            final(self).experiment@ == old(self).experiment@,
            final(self).layer@ == old(self).layer@,
    {
        remove_nested(&mut self.config, key, id);
    }

    /// Removes an experiment's overrides: all of them without an ID, that of the ID otherwise.
    pub fn remove_experiment_override(&mut self, key: &str, id: Option<&str>)
        ensures
            old(self).well_formed() ==> final(self).well_formed(),
            forall|o: Seq<char>|
                removes_id(id, o) ==> #[trigger] nested_lookup(final(self).experiment@, key@, o) is None,
            forall|k: Seq<char>, o: Seq<char>|
                !(k == key@ && removes_id(id, o)) ==> #[trigger] nested_lookup(final(self).experiment@, k, o)
                    == nested_lookup(old(self).experiment@, k, o),
            final(self).gate@ == old(self).gate@,
            final(self).config@ == old(self).config@,
            final(self).layer@ == old(self).layer@,
    {
        remove_nested(&mut self.experiment, key, id);
    }

    /// Removes a layer's overrides: all of them without an ID, that of the ID otherwise.
    pub fn remove_layer_override(&mut self, key: &str, id: Option<&str>)
        ensures
            old(self).well_formed() ==> final(self).well_formed(),
            forall|o: Seq<char>|
                removes_id(id, o) ==> #[trigger] nested_lookup(final(self).layer@, key@, o) is None,
            forall|k: Seq<char>, o: Seq<char>|
                !(k == key@ && removes_id(id, o)) ==> #[trigger] nested_lookup(final(self).layer@, k, o)
                    == nested_lookup(old(self).layer@, k, o),
            final(self).gate@ == old(self).gate@,
            final(self).config@ == old(self).config@,
            final(self).experiment@ == old(self).experiment@,
    {
        remove_nested(&mut self.layer, key, id);
    }

    /// Removes every override.
    pub fn remove_all_overrides(&mut self)
        ensures
            final(self).well_formed(),
            final(self).gate@.len() == 0,
            final(self).config@.len() == 0,
            final(self).experiment@.len() == 0,
            final(self).layer@.len() == 0,
    {
        self.gate = Vec::new();
        self.config = Vec::new();
        self.experiment = Vec::new();
        self.layer = Vec::new();
    }

    /// When an override of this gate matches the user, the result takes its value and is
    /// marked as overridden.
    pub fn get_gate_override(&self, user: &OverrideUser, gate_name: &str, result: &mut EvaluatorResult) -> (r: bool)
        ensures
            ({
                let v = match lookup(self.gate@, gate_name@) {
                    Some(inner) => spec_override_for_user(*user, inner@),
                    None => None,
                };
                &&& r == v is Some
                &&& v matches Some(b) ==> final(result).bool_value == b && final(result).json_value
                    == old(result).json_value && marked_as_override(*final(result), *old(result))
                &&& v is None ==> *final(result) == *old(result)
            }),
    {
        let inner = match find_key_exec(&self.gate, gate_name) {
            Some(i) => &self.gate[i].1,
            None => return false,
        };
        match find_override_for_user(user, inner) {
            Some(v) => {
                result.bool_value = *v;
                mark_result_as_override(result);
                true
            },
            None => false,
        }
    }

    /// Applies the dynamic config override that matches the user, if any.
    pub fn get_dynamic_config_override(
        &self,
        user: &OverrideUser,
        dynamic_config_name: &str,
        result: &mut EvaluatorResult,
    ) -> (r: bool)
        ensures
            ({
                let v = match lookup(self.config@, dynamic_config_name@) {
                    Some(inner) => spec_override_for_user(*user, inner@),
                    None => None,
                };
                &&& r == v is Some
                &&& v matches Some(d) ==> final(result).json_value == Some(d) && final(result).bool_value
                    == old(result).bool_value && marked_as_override(*final(result), *old(result))
                &&& v is None ==> *final(result) == *old(result)
            }),
    {
        let inner = match find_key_exec(&self.config, dynamic_config_name) {
            Some(i) => &self.config[i].1,
            None => return false,
        };
        match find_override_for_user(user, inner) {
            Some(v) => {
                result.json_value = Some(v.copy_value());
                mark_result_as_override(result);
                true
            },
            None => false,
        }
    }

    /// Applies the experiment override that matches the user, if any: its value, or the
    /// value of the overriding group in the experiment's rules.
    pub fn get_experiment_override(
        &self,
        user: &OverrideUser,
        experiment_name: &str,
        result: &mut EvaluatorResult,
        opt_spec: Option<&Vec<RuleGroup>>,
    ) -> (r: bool)
        ensures
            ({
                let v = match lookup(self.experiment@, experiment_name@) {
                    Some(inner) => spec_override_for_user(*user, inner@),
                    None => None,
                };
                &&& r == v is Some
                &&& v matches Some(ExperimentOverride::Value(d)) ==> final(result).json_value
                    == Some(d)
                &&& v matches Some(ExperimentOverride::GroupName(g)) ==> final(result).json_value
                    == (match opt_spec {
                    None => None,
                    Some(rules) => spec_group_value(rules@, g@, 0),
                })
                &&& v is Some ==> final(result).bool_value == old(result).bool_value
                    && marked_as_override(*final(result), *old(result))
                &&& v is None ==> *final(result) == *old(result)
            }),
    {
        let inner = match find_key_exec(&self.experiment, experiment_name) {
            Some(i) => &self.experiment[i].1,
            None => return false,
        };
        match find_override_for_user(user, inner) {
            Some(ExperimentOverride::Value(v)) => {
                result.json_value = Some(v.copy_value());
                mark_result_as_override(result);
                true
            },
            Some(ExperimentOverride::GroupName(g)) => {
                result.json_value = get_experiment_with_group_name(opt_spec, g.as_str());
                mark_result_as_override(result);
                true
            },
            None => false,
        }
    }

    /// Applies the layer override that matches the user, if any.
    pub fn get_layer_override(&self, user: &OverrideUser, layer_name: &str, result: &mut EvaluatorResult) -> (r: bool)
        ensures
            ({
                let v = match lookup(self.layer@, layer_name@) {
                    Some(inner) => spec_override_for_user(*user, inner@),
                    None => None,
                };
                &&& r == v is Some
                &&& v matches Some(d) ==> final(result).json_value == Some(d) && final(result).bool_value
                    == old(result).bool_value && marked_as_override(*final(result), *old(result))
                &&& v is None ==> *final(result) == *old(result)
            }),
    {
        let inner = match find_key_exec(&self.layer, layer_name) {
            Some(i) => &self.layer[i].1,
            None => return false,
        };
        match find_override_for_user(user, inner) {
            Some(v) => {
                result.json_value = Some(v.copy_value());
                mark_result_as_override(result);
                true
            },
            None => false,
        }
    }
}

} // verus!
