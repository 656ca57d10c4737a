use vstd::prelude::*;
use vstd::string::StringExecFns;

use crate::explicit_params::names_view;
use crate::http_types::ResponseData;
use crate::persistent_storage::SpecType;
use crate::specs_adapter::{is_response_protobuf, spec_is_response_protobuf, SpecsInfo, SpecsSource};
use crate::statsig_err::StatsigErr;
use crate::text::{str_eq_chars, str_to_chars};

verus! {

/// How a specs payload is encoded.
#[derive(Debug, Clone, Copy, PartialEq, Eq, Structural)]
pub enum SpecsFormat {
    Json,
    Protobuf,
}

/// The encoding of an update's payload: protobuf when its headers say brotli-compressed
/// protobuf, JSON otherwise.
pub fn get_spec_response_format(data: &ResponseData) -> (r: SpecsFormat)
    ensures
        r == (if spec_is_response_protobuf(data.header_pairs()) {
            SpecsFormat::Protobuf
        } else {
            SpecsFormat::Json
        }),
{
    if is_response_protobuf(data) {
        SpecsFormat::Protobuf
    } else {
        SpecsFormat::Json
    }
}

/// What the store compares of two sets of specs: the last config update time, the checksum,
/// and whether the payload carried updates.
pub struct SpecsVersion {
    pub time: u64,
    pub checksum: Option<String>,
    pub has_updates: bool,
}

/// A checksum as text (empty when absent).
pub open spec fn checksum_text(c: Option<String>) -> Seq<char> {
    match c {
        Some(s) => s@,
        None => Seq::empty(),
    }
}

/// The held specs win over new ones when they are strictly newer, or when both carry the
/// same non-empty checksum.
pub open spec fn spec_are_current_values_newer(curr: SpecsVersion, next: SpecsVersion) -> bool {
    (curr.time > 0 && curr.time > next.time) || (checksum_text(curr.checksum).len() > 0
        && checksum_text(curr.checksum) == checksum_text(next.checksum))
}

/// A checksum as characters.
fn checksum_chars(c: &Option<String>) -> (r: Vec<char>)
    ensures
        r@ == checksum_text(*c),
{
    match c {
        Some(s) => str_to_chars(s.as_str()),
        None => Vec::new(),
    }
}

/// Whether the held specs win over new ones.
pub fn are_current_values_newer(curr: &SpecsVersion, next: &SpecsVersion) -> (r: bool)
    ensures
        r == spec_are_current_values_newer(*curr, *next),
{
    let cached_time_is_newer = curr.time > 0 && curr.time > next.time;
    let a = checksum_chars(&curr.checksum);
    let b = checksum_chars(&next.checksum);
    let checksums_match = a.len() > 0 && crate::text::chars_eq(&a, &b);
    cached_time_is_newer || checksums_match
}

/// What to do with an update.
pub enum PrepResult {
    /// Apply the new specs.
    HasUpdates(SpecsVersion, SpecsFormat),
    /// The server says nothing changed.
    NoUpdates,
    /// Keep the held specs, which are newer.
    CurrentValuesNewer,
}

/// What to do with an update (see `specs_update_prep`); `None` stands for the generic
/// parse error given when neither reading of the payload explains it.
pub open spec fn spec_specs_update_prep(
    current: SpecsVersion,
    format: SpecsFormat,
    full: Result<SpecsVersion, StatsigErr>,
    no_updates: Result<bool, StatsigErr>,
) -> Option<Result<PrepResult, StatsigErr>> {
    match full {
        Ok(n) if spec_are_current_values_newer(current, n) => Some(
            Ok(PrepResult::CurrentValuesNewer),
        ),
        Ok(n) if n.has_updates => Some(Ok(PrepResult::HasUpdates(n, format))),
        _ => match no_updates {
            Ok(false) => Some(Ok(PrepResult::NoUpdates)),
            _ => match full {
                Err(e) => Some(Err(e)),
                Ok(_) => match no_updates {
                    Err(e) => Some(Err(e)),
                    Ok(_) => None,
                },
            },
        },
    }
}

/// Decides what to do with an update, given the held specs, the update read as full specs,
/// and the update read as `{"has_updates": ...}`. Full specs that lose to the held ones are
/// ignored, full specs with updates are applied; otherwise a `has_updates: false` reply means
/// no updates; otherwise the first error (or a generic one) is the result.
pub fn specs_update_prep(
    current: &SpecsVersion,
    format: SpecsFormat,
    full: Result<SpecsVersion, StatsigErr>,
    no_updates: Result<bool, StatsigErr>,
) -> (r: Result<PrepResult, StatsigErr>)
    ensures
        match spec_specs_update_prep(*current, format, full, no_updates) {
            Some(x) => r == x,
            None => r matches Err(StatsigErr::JsonParseError(t, m)) && t@ == "SpecsResponse"@ && m@
                == "Unknown error"@,
        },
{
    let first_error = match full {
        Ok(next) => {
            if are_current_values_newer(current, &next) {
                return Ok(PrepResult::CurrentValuesNewer);
            }
            if next.has_updates {
                return Ok(PrepResult::HasUpdates(next, format));
            }
            None
        },
        Err(e) => Some(e),
    };
    let second_error = match no_updates {
        Ok(has_updates) => {
            if !has_updates {
                return Ok(PrepResult::NoUpdates);
            }
            None
        },
        Err(e) => Some(e),
    };
    match first_error {
        Some(e) => Err(e),
        None => match second_error {
            Some(e) => Err(e),
            None => Err(
                StatsigErr::JsonParseError(String::from_str("SpecsResponse"), String::from_str("Unknown error")),
            ),
        },
    }
}

/// Whether a config-propagation delay is reported: not for the first specs after start-up.
pub fn should_log_config_propagation_diff(prev_source: &SpecsSource) -> (r: bool)
    ensures
        r == !(*prev_source == SpecsSource::Uninitialized || *prev_source == SpecsSource::Loading),
{
    match prev_source {
        SpecsSource::Uninitialized | SpecsSource::Loading => false,
        _ => true,
    }
}

/// How long after their last update new specs arrived (zero when the clock is behind).
pub fn config_propagation_delay(now_ms: u64, lcut: u64) -> (r: u64)
    ensures
        r == (if now_ms >= lcut {
            now_ms - lcut
        } else {
            0
        }),
{
    now_ms.saturating_sub(lcut)
}

/// Whether a payload is written to the data store: only payloads from the network, when
/// there is a data store.
pub fn should_update_data_store(source: &SpecsSource, has_data_store: bool) -> (r: bool)
    ensures
        r == (*source == SpecsSource::Network && has_data_store),
{
    match source {
        SpecsSource::Network => has_data_store,
        _ => false,
    }
}

/// What the store keeps of a config: its entity kind and the user fields its rules read.
pub struct SpecEntry {
    pub name: String,
    pub entity: String,
    pub fields_used: Option<Vec<String>>,
}

/// The configs the store holds, by kind.
pub struct SpecsIndex {
    pub feature_gates: Vec<SpecEntry>,
    pub dynamic_configs: Vec<SpecEntry>,
    pub layer_configs: Vec<SpecEntry>,
    pub param_stores: Option<Vec<String>>,
}

/// The names of a list of configs.
pub open spec fn entry_names(es: Seq<SpecEntry>) -> Seq<Seq<char>> {
    Seq::new(es.len(), |i: int| es[i].name@)
}

/// Position of the first config named `name`, from position `i` on.
pub open spec fn find_entry(es: Seq<SpecEntry>, name: Seq<char>, i: int) -> Option<int>
    decreases es.len() - i,
{
    if i < 0 || i >= es.len() {
        None
    } else if es[i].name@ == name {
        Some(i)
    } else {
        find_entry(es, name, i + 1)
    }
}

/// The configs looked at for a kind of evaluation: gates; dynamic configs (also for
/// experiments); layers; none for parameter stores.
pub open spec fn entries_for(index: SpecsIndex, t: SpecType) -> Option<Seq<SpecEntry>> {
    match t {
        SpecType::Gate => Some(index.feature_gates@),
        SpecType::DynamicConfig | SpecType::Experiment => Some(index.dynamic_configs@),
        SpecType::Layer => Some(index.layer_configs@),
        SpecType::ParameterStore => None,
    }
}

/// The user fields the rules of a config read; empty when it is unknown or records none.
pub open spec fn spec_fields_used(index: SpecsIndex, name: Seq<char>, t: SpecType) -> Seq<Seq<char>> {
    match entries_for(index, t) {
        None => Seq::empty(),
        Some(es) => match find_entry(es, name, 0) {
            None => Seq::empty(),
            Some(i) => match es[i].fields_used {
                Some(f) => names_view(f@),
                None => Seq::empty(),
            },
        },
    }
}

/// A copy of a list of strings.
fn copy_strings(v: &Vec<String>) -> (r: Vec<String>)
    ensures
        names_view(r@) == names_view(v@),
{
    let mut r: Vec<String> = Vec::new();
    let mut i: usize = 0;
    while i < v.len()
        invariant
            i <= v.len(),
            r@.len() == i,
            forall|k: int| 0 <= k < i ==> r@[k]@ == v@[k]@,
        decreases v.len() - i,
    {
        r.push(v[i].clone());
        i = i + 1;
    }
    assert(names_view(r@) =~= names_view(v@));
    r
}

impl SpecsIndex {
    /// The user fields the rules of a config read.
    pub fn get_fields_used_for_entity(&self, entity_name: &str, entity_type: SpecType) -> (r: Vec<String>)
        ensures
            names_view(r@) == spec_fields_used(*self, entity_name@, entity_type),
    {
        let entries = match entity_type {
            SpecType::Gate => &self.feature_gates,
            SpecType::DynamicConfig | SpecType::Experiment => &self.dynamic_configs,
            SpecType::Layer => &self.layer_configs,
            SpecType::ParameterStore => {
                assert(names_view(Seq::<String>::empty()) =~= Seq::<Seq<char>>::empty());
                return Vec::new();
            },
        };
        let n = str_to_chars(entity_name);
        let mut i: usize = 0;
        while i < entries.len()
            invariant
                i <= entries.len(),
                n@ == entity_name@,
                entries_for(*self, entity_type) == Some(entries@),
                find_entry(entries@, entity_name@, 0) == find_entry(entries@, entity_name@, i as int),
            decreases entries.len() - i,
        {
            if str_eq_chars(entries[i].name.as_str(), &n) {
                return match &entries[i].fields_used {
                    Some(f) => copy_strings(f),
                    None => {
                        assert(names_view(Seq::<String>::empty()) =~= Seq::<Seq<char>>::empty());
                        Vec::new()
                    },
                };
            }
            i = i + 1;
        }
        assert(names_view(Seq::<String>::empty()) =~= Seq::<Seq<char>>::empty());
        Vec::new()
    }

    /// The names of the configs under a top-level key (`feature_gates`, `dynamic_configs`,
    /// `layer_configs`; `param_stores` lists the parameter stores), all of them for the entity
    /// kind `*` or those of the given kind; nothing for any other key.
    pub fn unperformant_keys_entity_filter(&self, top_level_key: &str, entity_type: &str) -> (r: Vec<String>)
        ensures
            top_level_key@ == "param_stores"@ ==> names_view(r@) == (match self.param_stores {
                Some(p) => names_view(p@),
                None => Seq::empty(),
            }),
            ({
                let es = if top_level_key@ == "feature_gates"@ {
                    Some(self.feature_gates@)
                } else if top_level_key@ == "dynamic_configs"@ {
                    Some(self.dynamic_configs@)
                } else if top_level_key@ == "layer_configs"@ {
                    Some(self.layer_configs@)
                } else {
                    None
                };
                top_level_key@ != "param_stores"@ ==> match es {
                    None => r@.len() == 0,
                    Some(es) => names_view(r@) == (if entity_type@ == "*"@ {
                        entry_names(es)
                    } else {
                        entry_names(es.filter(|e: SpecEntry| e.entity@ == entity_type@))
                    }),
                }
            }),
    {
        let key = str_to_chars(top_level_key);
        if str_eq_chars("param_stores", &key) {
            return match &self.param_stores {
                Some(p) => copy_strings(p),
                None => {
                    assert(names_view(Seq::<String>::empty()) =~= Seq::<Seq<char>>::empty());
                    Vec::new()
                },
            };
        }
        let entries = if str_eq_chars("feature_gates", &key) {
            &self.feature_gates
        } else if str_eq_chars("dynamic_configs", &key) {
            &self.dynamic_configs
        } else if str_eq_chars("layer_configs", &key) {
            &self.layer_configs
        } else {
            return Vec::new();
        };
        let et = str_to_chars(entity_type);
        let all = str_eq_chars("*", &et);
        let ghost p = |e: SpecEntry| e.entity@ == entity_type@;
        let mut r: Vec<String> = Vec::new();
        let mut i: usize = 0;
        while i < entries.len()
            invariant
                i <= entries.len(),
                et@ == entity_type@,
                all == (entity_type@ == "*"@),
                p == (|e: SpecEntry| e.entity@ == entity_type@),
                names_view(r@) == (if all {
                    entry_names(entries@.take(i as int))
                } else {
                    entry_names(entries@.take(i as int).filter(p))
                }),
            decreases entries.len() - i,
        {
            let ghost before = entries@.take(i as int);
            assert(entries@.take(i + 1) =~= before.push(entries@[i as int]));
            proof {
                before.lemma_filter_push(entries@[i as int], p);
            }
            if all || str_eq_chars(entries[i].entity.as_str(), &et) {
                let ghost prev = names_view(r@);
                r.push(entries[i].name.clone());
                assert(names_view(r@) =~= prev.push(entries@[i as int].name@));
                if all {
                    assert(entry_names(entries@.take(i + 1)) =~= entry_names(before).push(
                        entries@[i as int].name@,
                    ));
                } else {
                    assert(entry_names(before.filter(p).push(entries@[i as int])) =~= entry_names(
                        before.filter(p),
                    ).push(entries@[i as int].name@));
                }
            } else {
                assert(!p(entries@[i as int]));
            }
            i = i + 1;
        }
        assert(entries@.take(entries.len() as int) =~= entries@);
        r
    }
}

/// What the store holds besides the specs themselves.
pub struct SpecStoreData {
    pub source: SpecsSource,
    pub source_api: Option<String>,
    pub time_received_at: Option<u64>,
    pub values: SpecsVersion,
}

/// What applying an update replaced.
pub struct ApplyResult {
    pub prev_source: SpecsSource,
    pub prev_lcut: u64,
    pub time_received_at: u64,
}

impl SpecStoreData {
    /// An empty store that has not loaded anything.
    pub fn new() -> (r: Self)
        ensures
            r.source == SpecsSource::Uninitialized,
            r.source_api is None,
            r.time_received_at is None,
            r.values.time == 0,
            r.values.checksum is None,
            !r.values.has_updates,
    {
        SpecStoreData {
            source: SpecsSource::Uninitialized,
            source_api: None,
            time_received_at: None,
            values: SpecsVersion { time: 0, checksum: None, has_updates: false },
        }
    }

    /// What the store holds, as a listener reports it.
    pub fn get_current_specs_info(&self) -> (r: SpecsInfo)
        ensures
            r.lcut == Some(self.values.time),
            r.checksum == self.values.checksum,
            r.zstd_dict_id is None,
            r.source == self.source,
            r.source_api == self.source_api,
    {
        SpecsInfo {
            lcut: Some(self.values.time),
            checksum: crate::evaluation_types::copy_opt_string(&self.values.checksum),
            zstd_dict_id: None,
            source: copy_source(&self.source),
            source_api: crate::evaluation_types::copy_opt_string(&self.source_api),
        }
    }

    /// Replaces the specs with new ones received at `now_ms` from `source`.
    pub fn apply(&mut self, next: SpecsVersion, source: SpecsSource, source_api: Option<String>, now_ms: u64) -> (r: ApplyResult)
        ensures
            r.prev_source == old(self).source,
            r.prev_lcut == old(self).values.time,
            r.time_received_at == now_ms,
            final(self).source == source,
            final(self).source_api == source_api,
            final(self).time_received_at == Some(now_ms),
            final(self).values == next,
    {
        let mut prev_source = source;
        std::mem::swap(&mut prev_source, &mut self.source);
        let prev_lcut = self.values.time;
        self.values = next;
        self.time_received_at = Some(now_ms);
        self.source_api = source_api;
        ApplyResult { prev_source, prev_lcut, time_received_at: now_ms }
    }
}

/// What setting new values did.
pub enum SetValuesOutcome {
    /// The new specs replaced the held ones.
    Applied(ApplyResult, SpecsFormat),
    /// The server reported no change.
    NoUpdates,
    /// The held specs were newer and were kept.
    CurrentValuesNewer,
}

impl SpecStoreData {
    /// Takes an update: decides what to do with it (see `specs_update_prep`) and replaces the
    /// held specs only when it carries newer ones; the store is left as it was otherwise.
    pub fn set_values(
        &mut self,
        format: SpecsFormat,
        full: Result<SpecsVersion, StatsigErr>,
        no_updates: Result<bool, StatsigErr>,
        source: SpecsSource,
        source_api: Option<String>,
        now_ms: u64,
    ) -> (r: Result<SetValuesOutcome, StatsigErr>)
        ensures
            match spec_specs_update_prep(old(self).values, format, full, no_updates) {
                Some(Ok(PrepResult::HasUpdates(n, f))) => {
                    &&& r matches Ok(SetValuesOutcome::Applied(a, f2)) && f2 == f && a.prev_source
                        == old(self).source && a.prev_lcut == old(self).values.time
                        && a.time_received_at == now_ms
                    &&& final(self).values == n
                    &&& final(self).source == source
                    &&& final(self).source_api == source_api
                    &&& final(self).time_received_at == Some(now_ms)
                },
                Some(Ok(PrepResult::NoUpdates)) => r matches Ok(SetValuesOutcome::NoUpdates) && *final(self)
                    == *old(self),
                Some(Ok(PrepResult::CurrentValuesNewer)) => r matches Ok(
                    SetValuesOutcome::CurrentValuesNewer,
                ) && *final(self) == *old(self),
                Some(Err(e)) => r == Err::<SetValuesOutcome, StatsigErr>(e) && *final(self) == *old(self),
                None => r matches Err(StatsigErr::JsonParseError(t, m)) && t@ == "SpecsResponse"@ && m@
                    == "Unknown error"@ && *final(self) == *old(self),
            },
            r matches Ok(SetValuesOutcome::Applied(_, _)) ==> !spec_are_current_values_newer(
                old(self).values,
                final(self).values,
            ) && final(self).values.has_updates,
    {
        match specs_update_prep(&self.values, format, full, no_updates) {
            Ok(PrepResult::HasUpdates(next, f)) => {
                let applied = self.apply(next, source, source_api, now_ms);
                Ok(SetValuesOutcome::Applied(applied, f))
            },
            Ok(PrepResult::NoUpdates) => Ok(SetValuesOutcome::NoUpdates),
            Ok(PrepResult::CurrentValuesNewer) => Ok(SetValuesOutcome::CurrentValuesNewer),
            Err(e) => Err(e),
        }
    }
}

/// A copy of a source.
pub fn copy_source(s: &SpecsSource) -> (r: SpecsSource)
    ensures
        r == *s,
{
    match s {
        SpecsSource::Uninitialized => SpecsSource::Uninitialized,
        SpecsSource::NoValues => SpecsSource::NoValues,
        SpecsSource::Error => SpecsSource::Error,
        SpecsSource::Loading => SpecsSource::Loading,
        SpecsSource::Network => SpecsSource::Network,
        SpecsSource::Bootstrap => SpecsSource::Bootstrap,
        SpecsSource::Adapter(n) => SpecsSource::Adapter(n.clone()),
    }
}

} // verus!
