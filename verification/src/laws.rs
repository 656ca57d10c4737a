use vstd::prelude::*;
use vstd::arithmetic::power2::lemma_pow2_unfold;

use crate::event_emitter::{
    differs_from, lemma_without_absent, lemma_without_concat, spec_event_code_from_name,
    spec_event_code_raw, without_value, SdkEventCode, SdkEventEmitter, SubscriptionID,
    EVENT_CODE_COUNT,
};
use crate::http_specs_adapter::{
    spec_deltas_after_apply, spec_had_updates, spec_specs_query_params, spec_stall_step,
};
use crate::http_types::{client_time_header, header_lookup, lemma_insert_pair_lookup, lookup_from};
use crate::network_client::{
    spec_backoff_ms, spec_request_headers, spec_retry_decision, spec_source_service_and_request_path,
    RetryDecisionView,
};
use crate::output_logger::{
    spec_log_level_from_name, spec_log_level_number, spec_truncate_log_message, LogLevel, MAX_CHARS,
};
use crate::override_adapter::{
    first_custom_override, lookup, nested_lookup, no_id_override, removes_id, spec_override_for_user,
    OverrideUser,
};
use crate::spec_store::{spec_are_current_values_newer, spec_specs_update_prep, PrepResult, SpecsFormat, SpecsVersion};
use crate::persistent_storage::{find_activity, spec_sticky_aware_is_experiment_active, StickyValues};
use crate::specs_adapter::{
    ascii_lowercase, spec_forced_resync_due, spec_specs_response_format, SpecsResponseFormat,
    SpecsResponseNoUpdates, spec_specs_source_from_text, SpecsSourceView, SpecsSyncTrigger,
    MIN_FORCED_FULL_RESYNC_INTERVAL_MS,
};
use crate::statsig_err::StatsigErr;
use crate::text::{decimal, matches_at, starts_with};

verus! {

/// Every request a client sends carries the client time it was prepared at.
pub proof fn lemma_request_carries_client_time(
    own: Option<Seq<(String, String)>>,
    client_headers: Seq<(String, String)>,
    now_ms: u64,
)
    ensures
        lookup_from(spec_request_headers(own, client_headers, now_ms), client_time_header(), 0)
            == Some(decimal(now_ms as nat)),
{
    let populated = crate::http_types::spec_populated_headers(own, client_headers, now_ms);
    let merged = if client_headers.len() > 0 {
        crate::http_types::spec_extend_pairs(populated, crate::http_types::pairs_view(client_headers))
    } else {
        populated
    };
    lemma_insert_pair_lookup(merged, client_time_header(), decimal(now_ms as nat), client_time_header());
}

/// Each retry waits twice as long as the one before.
pub proof fn lemma_backoff_doubles(attempt: nat)
    ensures
        spec_backoff_ms(attempt + 1) == 2 * spec_backoff_ms(attempt),
{
    lemma_pow2_unfold(attempt + 1);
}

/// A request is never attempted more than one time plus its retries: an exhausted request
/// reports at most `retries + 1` attempts, and a retry is only scheduled while retries remain.
pub proof fn lemma_attempts_bounded(
    url: Seq<char>,
    status: Option<u16>,
    attempt: u32,
    retries: u32,
    message: Seq<char>,
)
    requires
        attempt <= retries,
    ensures
        spec_retry_decision(url, status, attempt, retries, message) matches RetryDecisionView::RetriesExhausted(
            _,
            _,
            n,
            _,
        ) ==> n == retries + 1,
        spec_retry_decision(url, status, attempt, retries, message) matches RetryDecisionView::RetryAfter(
            n,
            _,
        ) ==> n <= retries,
{
}

/// A config that reports no updates never forces a full resync: the stall streak is cleared
/// and whether deltas are asked for is left alone.
pub proof fn lemma_idle_config_never_forces_resync(
    state: (bool, u32, u64),
    trigger: SpecsSyncTrigger,
    allow: bool,
    threshold: u32,
    pre_lcut: Option<u64>,
    requested_deltas: bool,
    result: Result<(), StatsigErr>,
    post_lcut: Option<u64>,
    now_ms: u64,
)
    ensures
        spec_stall_step(state, trigger, allow, threshold, pre_lcut, requested_deltas, false, result, post_lcut, now_ms).0
            == state.0,
        spec_stall_step(state, trigger, allow, threshold, pre_lcut, requested_deltas, false, result, post_lcut, now_ms).2
            == state.2,
{
}

/// A network failure says nothing about the delta stream: the bookkeeping is unchanged.
pub proof fn lemma_network_failure_leaves_stall_state(
    state: (bool, u32, u64),
    trigger: SpecsSyncTrigger,
    allow: bool,
    threshold: u32,
    pre_lcut: Option<u64>,
    had_updates: bool,
    e: crate::network_error::NetworkError,
    post_lcut: Option<u64>,
    now_ms: u64,
)
    ensures
        spec_stall_step(
            state,
            trigger,
            allow,
            threshold,
            pre_lcut,
            true,
            had_updates,
            Err(StatsigErr::NetworkError(e)),
            post_lcut,
            now_ms,
        ) == state,
{
}

/// A threshold of zero turns the stall recovery off.
pub proof fn lemma_zero_threshold_disables_recovery(
    state: (bool, u32, u64),
    trigger: SpecsSyncTrigger,
    allow: bool,
    pre_lcut: Option<u64>,
    requested_deltas: bool,
    had_updates: bool,
    result: Result<(), StatsigErr>,
    post_lcut: Option<u64>,
    now_ms: u64,
)
    ensures
        spec_stall_step(state, trigger, allow, 0, pre_lcut, requested_deltas, had_updates, result, post_lcut, now_ms)
            == state,
{
}

/// The forced-resync gate re-arms by itself: once the streak has reached the threshold, a
/// resync is due again as soon as the least interval has passed since the last one, and
/// whenever the clock reads earlier than the last one.
pub proof fn lemma_forced_resync_rearms(count: u32, threshold: u32, last_forced_at_ms: u64, now_ms: u64)
    requires
        count >= threshold,
        now_ms < last_forced_at_ms || now_ms - last_forced_at_ms >= MIN_FORCED_FULL_RESYNC_INTERVAL_MS,
    ensures
        spec_forced_resync_due(count, threshold, last_forced_at_ms, now_ms, MIN_FORCED_FULL_RESYNC_INTERVAL_MS),
{
}

/// A checksum failure turns deltas off for the next request, and a successful full update
/// turns them back on when they are allowed.
pub proof fn lemma_deltas_follow_apply_outcome(use_before: bool, allow: bool, msg: String)
    ensures
        !spec_deltas_after_apply(use_before, allow, true, Err(StatsigErr::ChecksumFailure(msg))),
        !spec_deltas_after_apply(use_before, allow, false, Err(StatsigErr::ChecksumFailure(msg))),
        spec_deltas_after_apply(use_before, allow, false, Ok(())) == (use_before || allow),
{
}

/// An override set for a user ID applies to a user with that ID.
pub proof fn lemma_user_id_override_applies<V>(inner: Seq<(String, V)>, user: OverrideUser, v: V)
    requires
        user.user_id matches Some(id) && lookup(inner, id@) == Some(v),
    ensures
        spec_override_for_user(user, inner) == Some(v),
{
}

/// An override set for every user applies to a user none of whose IDs has one of its own.
pub proof fn lemma_default_override_applies<V>(inner: Seq<(String, V)>, user: OverrideUser, v: V)
    requires
        lookup(inner, no_id_override()) == Some(v),
        user.user_id is None,
        user.custom_ids@.len() == 0,
    ensures
        spec_override_for_user(user, inner) == Some(v),
{
}

/// The override a read finds for a user under `key` in a two-level override map.
pub open spec fn override_for<V>(store: Seq<(String, Vec<(String, V)>)>, key: Seq<char>, user: OverrideUser) -> Option<V> {
    match lookup(store, key) {
        Some(inner) => spec_override_for_user(user, inner@),
        None => None,
    }
}

/// A read gives back what was written: once an override is stored for a user ID, a read
/// for a user with that ID finds it.
pub proof fn lemma_override_read_after_write<V>(
    store: Seq<(String, Vec<(String, V)>)>,
    key: Seq<char>,
    user: OverrideUser,
    v: V,
)
    requires
        user.user_id matches Some(id) && nested_lookup(store, key, id@) == Some(v),
    ensures
        override_for(store, key, user) == Some(v),
{
}

/// No custom ID finds an override in a map where every ID looks up to nothing.
proof fn lemma_no_custom_override<V>(ids: Seq<Option<String>>, overrides: Seq<(String, V)>, i: int)
    requires
        forall|o: Seq<char>| #[trigger] lookup(overrides, o) is None,
    ensures
        first_custom_override(ids, overrides, i) is None,
    decreases ids.len() - i,
{
    if 0 <= i < ids.len() {
        if let Some(id) = ids[i] {
            assert(lookup(overrides, id@) is None);
        }
        lemma_no_custom_override(ids, overrides, i + 1);
    }
}

/// Once every override of a key is removed, a read finds none for any user.
pub proof fn lemma_removed_overrides_are_not_read<V>(
    store: Seq<(String, Vec<(String, V)>)>,
    key: Seq<char>,
    user: OverrideUser,
)
    requires
        forall|o: Seq<char>| #[trigger] nested_lookup(store, key, o) is None,
    ensures
        override_for(store, key, user) is None,
{
    if let Some(inner) = lookup(store, key) {
        assert forall|o: Seq<char>| #[trigger] lookup(inner@, o) is None by {
            assert(nested_lookup(store, key, o) is None);
        }
        lemma_no_custom_override(user.custom_ids@, inner@, 0);
        if let Some(id) = user.user_id {
            assert(lookup(inner@, id@) is None);
        }
        assert(lookup(inner@, no_id_override()) is None);
    }
}

/// The store only ever takes specs that carry updates and are not older than, nor the same
/// as, the ones it holds.
pub proof fn lemma_store_never_takes_older_specs(
    current: SpecsVersion,
    format: SpecsFormat,
    full: Result<SpecsVersion, StatsigErr>,
    no_updates: Result<bool, StatsigErr>,
)
    ensures
        spec_specs_update_prep(current, format, full, no_updates) matches Some(
            Ok(PrepResult::HasUpdates(n, _)),
        ) ==> !spec_are_current_values_newer(current, n) && n.has_updates && full == Ok::<
            SpecsVersion,
            StatsigErr,
        >(n),
{
}

/// A config-specs request asks for deltas exactly when deltas are enabled for it, whatever
/// else it carries: a forced full resync sends no `accept_deltas` parameter.
pub proof fn lemma_deltas_asked_iff_enabled(lcut: Option<u64>, checksum: Option<Seq<char>>, use_deltas: bool)
    ensures
        (exists|i: int|
            0 <= i < spec_specs_query_params(lcut, checksum, use_deltas).len()
                && #[trigger] spec_specs_query_params(lcut, checksum, use_deltas)[i].0
                == "accept_deltas"@) == use_deltas,
{
    reveal_strlit("accept_deltas");
    reveal_strlit("supports_proto");
    reveal_strlit("sinceTime");
    reveal_strlit("checksum");
    let params = spec_specs_query_params(lcut, checksum, use_deltas);
    let others = spec_specs_query_params(lcut, checksum, false);
    assert forall|i: int| 0 <= i < others.len() implies #[trigger] others[i].0 != "accept_deltas"@ by {
        assert(others[i].0[0] != "accept_deltas"@[0]);
    }
    if use_deltas {
        let last = params.len() - 1;
        assert(params[last].0 == "accept_deltas"@);
    } else {
        assert(params == others);
    }
}

/// A logged message is never longer than `MAX_CHARS` characters before sanitising.
pub proof fn lemma_truncated_message_bounded(msg: Seq<char>)
    ensures
        spec_truncate_log_message(msg).len() <= MAX_CHARS,
{
    crate::output_logger::lemma_truncated_suffix_len();
}

/// Every reported request path starts with a slash.
pub proof fn lemma_request_path_starts_with_slash(url: Seq<char>)
    ensures
        spec_source_service_and_request_path(url).1.len() > 0,
        spec_source_service_and_request_path(url).1[0] == '/',
{
}

/// After unsubscribing by ID, no subscription with that value is left for its event.
pub proof fn lemma_unsubscribed_value_is_gone(vs: Seq<Seq<char>>, v: Seq<char>)
    ensures
        !without_value(vs, v).contains(v),
{
    let p = differs_from(v);
    vs.filter_lemma(p);
    if without_value(vs, v).contains(v) {
        let i = choose|i: int| 0 <= i < without_value(vs, v).len() && without_value(vs, v)[i] == v;
        assert(p(without_value(vs, v)[i]));
    }
}

/// A text that does not start with `Adapter(` and names none of the plain sources reads as
/// the `Error` source.
pub proof fn lemma_unknown_source_text_is_error(s: Seq<char>)
    requires
        !starts_with(s, "Adapter("@),
        s != "Uninitialized"@,
        s != "NoValues"@,
        s != "Error"@,
        s != "Loading"@,
        s != "Network"@,
        s != "Bootstrap"@,
    ensures
        spec_specs_source_from_text(s) == SpecsSourceView::Error,
{
}

/// Once a subscription is removed by its ID, an event of any kind no longer reaches its
/// callback, and reaches every other subscription as before (subscription values are held by
/// one subscription kind each).
pub proof fn lemma_unsubscribed_callback_not_reached<C>(
    before: SdkEventEmitter<C>,
    after: SdkEventEmitter<C>,
    id: SubscriptionID,
    code: SdkEventCode,
)
    requires
        before.wf(),
        after.subscriptions() == before.subscriptions().update(
            spec_event_code_raw(spec_event_code_from_name(id.event@)) as int,
            without_value(
                before.subscriptions()[spec_event_code_raw(spec_event_code_from_name(id.event@)) as int],
                id.value@,
            ),
        ),
        forall|c: int|
            0 <= c < EVENT_CODE_COUNT && c != spec_event_code_raw(spec_event_code_from_name(id.event@))
                ==> !(#[trigger] before.subscriptions()[c]).contains(id.value@),
    ensures
        after.emit_targets(code) == without_value(before.emit_targets(code), id.value@),
        !after.emit_targets(code).contains(id.value@),
{
    let k = spec_event_code_raw(spec_event_code_from_name(id.event@)) as int;
    let c = spec_event_code_raw(code) as int;
    let v = id.value@;
    let b = before.subscriptions();
    let a = after.subscriptions();
    before.lemma_subscription_kinds();
    assert(0 <= spec_event_code_raw(code) < EVENT_CODE_COUNT);
    assert(0 <= spec_event_code_raw(spec_event_code_from_name(id.event@)) < EVENT_CODE_COUNT);
    lemma_without_concat(b[1], b[c], v);
    assert(a[1] == without_value(b[1], v)) by {
        if k != 1 {
            lemma_without_absent(b[1], v);
        }
    }
    assert(a[c] == without_value(b[c], v)) by {
        if k != c {
            lemma_without_absent(b[c], v);
        }
    }
    lemma_unsubscribed_value_is_gone(b[1] + b[c], v);
}

/// Removing a subscription by its ID changes only the event kind its ID names: an event then
/// reaches, in order, the subscriptions it reached before, less those with that ID's value in
/// that kind (with no premise on where else the value occurs).
pub proof fn lemma_unsubscribe_by_id_targets<C>(
    before: SdkEventEmitter<C>,
    after: SdkEventEmitter<C>,
    id: SubscriptionID,
    code: SdkEventCode,
)
    requires
        before.wf(),
        after.subscriptions() == before.subscriptions().update(
            spec_event_code_raw(spec_event_code_from_name(id.event@)) as int,
            without_value(
                before.subscriptions()[spec_event_code_raw(spec_event_code_from_name(id.event@)) as int],
                id.value@,
            ),
        ),
    ensures
        ({
            let k = spec_event_code_raw(spec_event_code_from_name(id.event@)) as int;
            let c = spec_event_code_raw(code) as int;
            let b = before.subscriptions();
            after.emit_targets(code) == (if k == 1 {
                without_value(b[1], id.value@)
            } else {
                b[1]
            }) + (if c == k {
                without_value(b[c], id.value@)
            } else {
                b[c]
            })
        }),
        spec_event_code_raw(code) == spec_event_code_raw(spec_event_code_from_name(id.event@))
            ==> !after.subscriptions()[spec_event_code_raw(code) as int].contains(id.value@),
{
    before.lemma_subscription_kinds();
    assert(0 <= spec_event_code_raw(code) < EVENT_CODE_COUNT);
    assert(0 <= spec_event_code_raw(spec_event_code_from_name(id.event@)) < EVENT_CODE_COUNT);
    let k = spec_event_code_raw(spec_event_code_from_name(id.event@)) as int;
    lemma_unsubscribed_value_is_gone(before.subscriptions()[k], id.value@);
}

/// Statuses 400, 403, 405, 413, 429 and 501 are never retried: a response with one of them
/// ends the request as not retryable, carrying its URL, status and message, whatever attempt
/// it answers and however many retries are left. Any other failed response (another status
/// outside 2xx, or none at all) is retried while retries are left.
pub proof fn lemma_non_retry_statuses(
    url: Seq<char>,
    status: Option<u16>,
    attempt: u32,
    retries: u32,
    message: Seq<char>,
)
    ensures
        (status == Some(400u16) || status == Some(403u16) || status == Some(405u16) || status
            == Some(413u16) || status == Some(429u16) || status == Some(501u16)) ==> spec_retry_decision(
            url,
            status,
            attempt,
            retries,
            message,
        ) == RetryDecisionView::NotRetryable(url, status, message),
        (!(status == Some(400u16) || status == Some(403u16) || status == Some(405u16) || status
            == Some(413u16) || status == Some(429u16) || status == Some(501u16)) && !(status matches Some(
            c,
        ) && 200 <= c < 300) && attempt < retries) ==> (spec_retry_decision(
            url,
            status,
            attempt,
            retries,
            message,
        ) matches RetryDecisionView::RetryAfter(a, _) && a == attempt + 1),
{
}

/// A layer's experiment is as active as the experiment its persisted value was allocated
/// to, whenever the store holds an activity flag for that experiment (the first config of
/// that name), whatever the layer's own flag says; when the store holds no flag for it, the
/// layer's own flag decides.
pub proof fn lemma_allocated_experiment_decides_activity(
    layer_is_active: bool,
    specs: Seq<(String, Option<bool>)>,
    s: StickyValues,
    i: int,
)
    requires
        s.config_delegate is Some,
        0 <= i < specs.len(),
        specs[i].0@ == s.config_delegate->0@,
        forall|j: int| 0 <= j < i ==> (#[trigger] specs[j]).0@ != s.config_delegate->0@,
    ensures
        specs[i].1 matches Some(a) ==> spec_sticky_aware_is_experiment_active(
            layer_is_active,
            specs,
            Some(s),
        ) == a,
        specs[i].1 is None ==> spec_sticky_aware_is_experiment_active(layer_is_active, specs, Some(s))
            == layer_is_active,
{
    lemma_find_activity_first(specs, s.config_delegate->0@, i, 0);
}

/// Searching from `k` finds the first config of the name, at `i`.
proof fn lemma_find_activity_first(specs: Seq<(String, Option<bool>)>, name: Seq<char>, i: int, k: int)
    requires
        0 <= k <= i < specs.len(),
        specs[i].0@ == name,
        forall|j: int| 0 <= j < i ==> (#[trigger] specs[j]).0@ != name,
    ensures
        find_activity(specs, name, k) == Some(specs[i].1),
    decreases i - k,
{
    if k < i {
        assert(specs[k].0@ != name);
        lemma_find_activity_first(specs, name, i, k + 1);
    }
}

/// Without a persisted value, without an allocated experiment, or with one the store does
/// not know, a layer's experiment is as active as the layer says.
pub proof fn lemma_unallocated_activity_is_layers(
    layer_is_active: bool,
    specs: Seq<(String, Option<bool>)>,
    sticky: Option<StickyValues>,
)
    requires
        sticky matches Some(s) ==> (s.config_delegate matches Some(d) ==> forall|j: int|
            0 <= j < specs.len() ==> (#[trigger] specs[j]).0@ != d@),
    ensures
        spec_sticky_aware_is_experiment_active(layer_is_active, specs, sticky) == layer_is_active,
{
    if let Some(s) = sticky {
        if let Some(d) = s.config_delegate {
            lemma_find_activity_none(specs, d@, 0);
        }
    }
}

/// Searching for a name no config has finds nothing.
proof fn lemma_find_activity_none(specs: Seq<(String, Option<bool>)>, name: Seq<char>, k: int)
    requires
        0 <= k,
        forall|j: int| 0 <= j < specs.len() ==> (#[trigger] specs[j]).0@ != name,
    ensures
        find_activity(specs, name, k) is None,
    decreases specs.len() - k,
{
    if k < specs.len() {
        assert(specs[k].0@ != name);
        lemma_find_activity_none(specs, name, k + 1);
    }
}

/// A response whose content type is `application/octet-stream` and content encoding
/// `statsig-br` is read as protobuf, and it always counts as carrying updates, whatever a
/// `{"has_updates": ...}` reading of its body says.
pub proof fn lemma_protobuf_responses_have_updates(
    headers: Option<Seq<(String, String)>>,
    no_updates: Option<SpecsResponseNoUpdates>,
)
    requires
        header_lookup(headers, "content-type"@) == Some("application/octet-stream"@),
        header_lookup(headers, "content-encoding"@) == Some("statsig-br"@),
    ensures
        spec_specs_response_format(headers) == SpecsResponseFormat::Protobuf,
        spec_had_updates(spec_specs_response_format(headers), no_updates),
{
    let t = "application/octet-stream"@;
    let e = "statsig-br"@;
    assert(matches_at(t, t, 0)) by {
        assert(t.subrange(0, t.len() as int) =~= t);
    }
    assert(matches_at(e, e, 0)) by {
        assert(e.subrange(0, e.len() as int) =~= e);
    }
}

/// The name of a log level, as the `output_log_level` option spells it.
pub open spec fn log_level_name(l: LogLevel) -> Seq<char> {
    match l {
        LogLevel::Off => "none"@,
        LogLevel::Debug => "debug"@,
        LogLevel::Info => "info"@,
        LogLevel::Warn => "warn"@,
        LogLevel::Error => "error"@,
    }
}

/// Each level's name reads back as that level, with the level's number: `debug` is 4,
/// `info` 3, `warn` 2, `error` 1 and `none` 0; so a message is logged at the level named
/// `info` exactly when its own level is `info`, `warn` or `error`.
pub proof fn lemma_log_level_names(l: LogLevel)
    ensures
        spec_log_level_from_name(log_level_name(l)) == l,
        spec_log_level_number(spec_log_level_from_name(log_level_name(l))) == (match l {
            LogLevel::Off => 0u32,
            LogLevel::Error => 1u32,
            LogLevel::Warn => 2u32,
            LogLevel::Info => 3u32,
            LogLevel::Debug => 4u32,
        }),
{
    reveal_strlit("none");
    reveal_strlit("debug");
    reveal_strlit("info");
    reveal_strlit("warn");
    reveal_strlit("error");
    let n = log_level_name(l);
    assert(ascii_lowercase(n) =~= n);
    assert("debug"@[0] != "info"@[0]);
    assert("debug"@[0] != "warn"@[0]);
    assert("debug"@[0] != "error"@[0]);
    assert("debug"@[0] != "none"@[0]);
    assert("info"@[0] != "warn"@[0]);
    assert("info"@[0] != "error"@[0]);
    assert("info"@[0] != "none"@[0]);
    assert("warn"@[0] != "error"@[0]);
    assert("warn"@[0] != "none"@[0]);
    assert("error"@[0] != "none"@[0]);
}

/// Once the overrides of a key are removed without an ID (what removing a gate's, config's,
/// experiment's or layer's overrides with no ID ensures), no override under that key is left
/// for any ID, and no user reads one: not by user ID, custom ID or the every-user entry.
pub proof fn lemma_remove_without_id_clears_key<V>(
    store: Seq<(String, Vec<(String, V)>)>,
    key: Seq<char>,
    user: OverrideUser,
)
    requires
        forall|o: Seq<char>| removes_id(None, o) ==> #[trigger] nested_lookup(store, key, o) is None,
    ensures
        forall|o: Seq<char>| #[trigger] nested_lookup(store, key, o) is None,
        lookup(store, key) matches Some(inner) ==> spec_override_for_user(user, inner@) is None,
{
    assert forall|o: Seq<char>| #[trigger] nested_lookup(store, key, o) is None by {
        assert(removes_id(None, o));
    }
    if let Some(inner) = lookup(store, key) {
        assert forall|o: Seq<char>| #[trigger] lookup(inner@, o) is None by {
            assert(nested_lookup(store, key, o) is None);
        }
        lemma_no_custom_override(user.custom_ids@, inner@, 0);
        assert(lookup(inner@, no_id_override()) is None);
        if let Some(id) = user.user_id {
            assert(lookup(inner@, id@) is None);
        }
    }
}

/// Level names are read case aside: a name and its lower-cased form stand for the same
/// level.
pub proof fn lemma_log_level_names_ignore_case(name: Seq<char>)
    ensures
        spec_log_level_from_name(name) == spec_log_level_from_name(ascii_lowercase(name)),
{
    assert(ascii_lowercase(ascii_lowercase(name)) =~= ascii_lowercase(name));
}

} // verus!
