use vstd::prelude::*;

use crate::marker::{KeyType, Marker};
use crate::statsig_err::{spec_statsig_err_display, StatsigErr};
use crate::text::{chars_to_string, extend_str, str_eq_chars, str_to_chars};

verus! {

/// The SDK operation diagnostics are gathered for.
#[derive(Debug, Clone, Copy, PartialEq, Eq, Structural, Hash)]
pub enum ContextType {
    Initialize,
    ConfigSync,
}

/// The name of a diagnostics context.
pub open spec fn spec_context_name(c: ContextType) -> Seq<char> {
    match c {
        ContextType::Initialize => "initialize"@,
        ContextType::ConfigSync => "config_sync"@,
    }
}

impl ContextType {
    /// The name of the context (its display form).
    pub fn as_str(&self) -> (r: &'static str)
        ensures
            r@ == spec_context_name(*self),
    {
        match self {
            ContextType::Initialize => "initialize",
            ContextType::ConfigSync => "config_sync",
        }
    }
}

/// The sampling rate that decides whether diagnostics are sent: the `initialize` rate for
/// the initialize context; otherwise the `id_list` rate for ID-list markers and the `dcs` rate
/// for config-spec downloads; none (the default rate applies) for anything else.
pub open spec fn spec_sampling_rate_key(context: ContextType, key: Option<KeyType>) -> Option<Seq<char>> {
    if context == ContextType::Initialize {
        Some("initialize"@)
    } else {
        match key {
            Some(KeyType::GetIDList) | Some(KeyType::GetIDListSources) => Some("id_list"@),
            Some(KeyType::DownloadConfigSpecs) => Some("dcs"@),
            _ => None,
        }
    }
}

/// The name of the sampling rate that applies to diagnostics of a context and marker key.
pub fn sampling_rate_key(context: &ContextType, key: Option<KeyType>) -> (r: Option<&'static str>)
    ensures
        match spec_sampling_rate_key(*context, key) {
            Some(n) => r matches Some(s) && s@ == n,
            None => r is None,
        },
{
    if *context == ContextType::Initialize {
        return Some("initialize");
    }
    match key {
        Some(KeyType::GetIDList) | Some(KeyType::GetIDListSources) => Some("id_list"),
        Some(KeyType::DownloadConfigSpecs) => Some("dcs"),
        _ => None,
    }
}

/// An error reported to the SDK's error boundary.
pub struct ErrorBoundaryEvent {
    pub tag: String,
    pub info: StatsigErr,
    pub dedupe_key: Option<String>,
    pub bypass_dedupe: bool,
    pub extra: Option<Vec<(String, String)>>,
}

/// A diagnostics instruction: a marker to add, a context to switch to, and whether to send
/// the markers gathered so far.
pub struct DiagnosticsEvent {
    pub marker: Option<Marker>,
    pub context: Option<ContextType>,
    pub key: Option<KeyType>,
    pub should_enqueue: bool,
}

/// A console message captured for the SDK's users.
pub struct ConsoleCaptureEvent {
    pub level: String,
    pub payload: Vec<String>,
    pub timestamp: u64,
}

/// What the SDK reports about its own operation.
pub enum OpsStatsEvent {
    SDKError(ErrorBoundaryEvent),
    Diagnostics(DiagnosticsEvent),
    ConsoleCapture(ConsoleCaptureEvent),
}

impl OpsStatsEvent {
    /// Adds a marker to the given (or current) diagnostics context.
    pub fn add_marker(marker: Marker, context: Option<ContextType>) -> (r: Self)
        ensures
            r matches OpsStatsEvent::Diagnostics(d) && d.marker == Some(marker) && d.context
                == context && d.key is None && !d.should_enqueue,
    {
        OpsStatsEvent::Diagnostics(
            DiagnosticsEvent { marker: Some(marker), context, key: None, should_enqueue: false },
        )
    }

    /// Switches the current diagnostics context.
    pub fn set_diagnostics_context(context: ContextType) -> (r: Self)
        ensures
            r matches OpsStatsEvent::Diagnostics(d) && d.marker is None && d.context == Some(
                context,
            ) && d.key is None && !d.should_enqueue,
    {
        OpsStatsEvent::Diagnostics(
            DiagnosticsEvent { marker: None, context: Some(context), key: None, should_enqueue: false },
        )
    }

    /// Sends the markers of the given (or current) context.
    pub fn enqueue_diagnostics_event(key: Option<KeyType>, context: Option<ContextType>) -> (r: Self)
        ensures
            r matches OpsStatsEvent::Diagnostics(d) && d.marker is None && d.context == context
                && d.key == key && d.should_enqueue,
    {
        OpsStatsEvent::Diagnostics(DiagnosticsEvent { marker: None, context, key, should_enqueue: true })
    }

    /// Reports an error to the error boundary.
    pub fn log_error(error: ErrorBoundaryEvent) -> (r: Self)
        ensures
            r == OpsStatsEvent::SDKError(error),
    {
        OpsStatsEvent::SDKError(error)
    }

    /// Captures a console message.
    pub fn enqueue_console_capture_event(level: String, payload: Vec<String>, timestamp: u64) -> (r: Self)
        ensures
            r matches OpsStatsEvent::ConsoleCapture(c) && c.level == level && c.payload == payload
                && c.timestamp == timestamp,
    {
        OpsStatsEvent::ConsoleCapture(ConsoleCaptureEvent { level, payload, timestamp })
    }
}

/// The key errors are counted under: the dedupe key when given, else `<tag>:<error text>`.
pub open spec fn spec_error_dedupe_key(e: ErrorBoundaryEvent) -> Seq<char> {
    match e.dedupe_key {
        Some(k) => k@,
        None => e.tag@ + seq![':'] + spec_statsig_err_display(e.info),
    }
}

/// Count of the first entry named `key`, from position `i` on.
pub open spec fn count_of(entries: Seq<(String, u32)>, key: Seq<char>, i: int) -> Option<(int, u32)>
    decreases entries.len() - i,
{
    if i < 0 || i >= entries.len() {
        None
    } else if entries[i].0@ == key {
        Some((i, entries[i].1))
    } else {
        count_of(entries, key, i + 1)
    }
}

/// How often each error has been seen, so that an error is reported once.
pub struct ErrorsAggregator {
    pub counts: Vec<(String, u32)>,
}

impl ErrorsAggregator {
    /// No error seen yet.
    pub fn new() -> (r: Self)
        ensures
            r.counts@.len() == 0,
    {
        ErrorsAggregator { counts: Vec::new() }
    }

    /// The number of times an error was seen.
    pub closed spec fn seen(&self, key: Seq<char>) -> nat {
        match count_of(self.counts@, key, 0) {
            Some((_, c)) => c as nat,
            None => 0,
        }
    }

    /// Counts an error and tells whether to report it: the first time it is seen, or always
    /// when the event bypasses deduplication. (The count wraps around after `u32::MAX`.)
    pub fn should_report(&mut self, event: &ErrorBoundaryEvent) -> (r: bool)
        ensures
            r == (event.bypass_dedupe || old(self).seen(spec_error_dedupe_key(*event)) == 0
                || old(self).seen(spec_error_dedupe_key(*event)) == u32::MAX),
            final(self).seen(spec_error_dedupe_key(*event)) == (if old(self).seen(
                spec_error_dedupe_key(*event),
            ) == u32::MAX {
                0
            } else {
                old(self).seen(spec_error_dedupe_key(*event)) + 1
            }),
            forall|k: Seq<char>| k != spec_error_dedupe_key(*event) ==> #[trigger] final(self).seen(k)
                == old(self).seen(k),
    {
        let key = match &event.dedupe_key {
            Some(k) => k.clone(),
            None => {
                let mut out = str_to_chars(event.tag.as_str());
                out.push(':');
                let text = event.info.to_display_string();
                extend_str(&mut out, text.as_str());
                chars_to_string(&out)
            },
        };
        let k = str_to_chars(key.as_str());
        let mut i: usize = 0;
        while i < self.counts.len()
            invariant
                i <= self.counts.len(),
                k@ == key@,
                key@ == spec_error_dedupe_key(*event),
                self.counts@ == old(self).counts@,
                count_of(self.counts@, key@, 0) == count_of(self.counts@, key@, i as int),
                forall|m: int| 0 <= m < i ==> self.counts@[m].0@ != key@,
            decreases self.counts.len() - i,
        {
            if str_eq_chars(self.counts[i].0.as_str(), &k) {
                let count = self.counts[i].1.wrapping_add(1);
                let name = self.counts[i].0.clone();
                let ghost before = self.counts@;
                self.counts.set(i, (name, count));
                proof {
                    lemma_count_of_update(before, key@, i as int, (name, count), 0);
                    assert forall|k: Seq<char>| k != key@ implies #[trigger] count_of(self.counts@, k, 0)
                        == count_of(before, k, 0) by {
                        lemma_count_of_update_other(before, key@, k, i as int, (name, count), 0);
                    }
                }
                return count <= 1 || event.bypass_dedupe;
            }
            i = i + 1;
        }
        let ghost before = self.counts@;
        self.counts.push((key, 1));
        proof {
            lemma_count_of_push(before, key@, (key, 1u32), 0);
            assert forall|k: Seq<char>| k != key@ implies #[trigger] count_of(self.counts@, k, 0)
                == count_of(before, k, 0) by {
                lemma_count_of_push_other(before, key@, k, (key, 1u32), 0);
            }
        }
        true
    }
}

/// Replacing the entry a lookup finds changes only what the lookup gives.
proof fn lemma_count_of_update(
    entries: Seq<(String, u32)>,
    key: Seq<char>,
    j: int,
    e: (String, u32),
    i: int,
)
    requires
        0 <= i <= j < entries.len(),
        e.0@ == key,
        entries[j].0@ == key,
        forall|m: int| i <= m < j ==> entries[m].0@ != key,
    ensures
        count_of(entries.update(j, e), key, i) == Some((j, e.1)),
    decreases j - i,
{
    if i < j {
        lemma_count_of_update(entries, key, j, e, i + 1);
    }
}

/// Replacing an entry named `key` leaves the lookup of every other name as it was.
proof fn lemma_count_of_update_other(
    entries: Seq<(String, u32)>,
    key: Seq<char>,
    other: Seq<char>,
    j: int,
    e: (String, u32),
    i: int,
)
    requires
        0 <= i,
        0 <= j < entries.len(),
        e.0@ == key,
        entries[j].0@ == key,
        other != key,
    ensures
        count_of(entries.update(j, e), other, i) == count_of(entries, other, i),
    decreases entries.len() - i,
{
    if i < entries.len() {
        lemma_count_of_update_other(entries, key, other, j, e, i + 1);
    }
}

/// Appending an entry named `key` leaves the lookup of every other name as it was.
proof fn lemma_count_of_push_other(
    entries: Seq<(String, u32)>,
    key: Seq<char>,
    other: Seq<char>,
    e: (String, u32),
    i: int,
)
    requires
        0 <= i,
        e.0@ == key,
        other != key,
    ensures
        count_of(entries.push(e), other, i) == count_of(entries, other, i),
    decreases entries.len() + 1 - i,
{
    if i < entries.len() {
        assert(entries.push(e)[i] == entries[i]);
        lemma_count_of_push_other(entries, key, other, e, i + 1);
    } else if i == entries.len() {
        assert(entries.push(e)[i] == e);
        assert(count_of(entries.push(e), other, i + 1) is None);
    }
}

/// Appending an entry for a key no entry has makes the lookup find it.
proof fn lemma_count_of_push(entries: Seq<(String, u32)>, key: Seq<char>, e: (String, u32), i: int)
    requires
        0 <= i <= entries.len(),
        e.0@ == key,
        count_of(entries, key, i) is None,
    ensures
        count_of(entries.push(e), key, i) == Some((entries.len() as int, e.1)),
    decreases entries.len() - i,
{
    if i < entries.len() {
        lemma_count_of_push(entries, key, e, i + 1);
    }
}

/// Most markers kept per diagnostics context.
pub const MAX_MARKER_COUNT: usize = 50;

/// The diagnostics markers gathered per context, and the current context.
pub struct DiagnosticsMarkers {
    pub initialize: Vec<Marker>,
    pub config_sync: Vec<Marker>,
    pub context: ContextType,
}

impl DiagnosticsMarkers {
    /// No markers, in the initialize context.
    pub fn new() -> (r: Self)
        ensures
            r.initialize@.len() == 0,
            r.config_sync@.len() == 0,
            r.context == ContextType::Initialize,
    {
        DiagnosticsMarkers {
            initialize: Vec::new(),
            config_sync: Vec::new(),
            context: ContextType::Initialize,
        }
    }

    /// The markers of a context.
    pub closed spec fn markers(&self, c: ContextType) -> Seq<Marker> {
        match c {
            ContextType::Initialize => self.initialize@,
            ContextType::ConfigSync => self.config_sync@,
        }
    }

    /// Switches the current context.
    pub fn set_context(&mut self, context: &ContextType)
        ensures
            final(self).context == *context,
            forall|c: ContextType| final(self).markers(c) == old(self).markers(c),
    {
        self.context = *context;
    }

    /// The given context, or the current one.
    pub fn get_context(&self, maybe_context: Option<&ContextType>) -> (r: ContextType)
        ensures
            r == (match maybe_context {
                Some(c) => *c,
                None => self.context,
            }),
    {
        match maybe_context {
            Some(c) => *c,
            None => self.context,
        }
    }

    /// Adds a marker to the given (or current) context, unless it holds `MAX_MARKER_COUNT`
    /// already.
    pub fn add_marker(&mut self, context_type: Option<&ContextType>, marker: Marker)
        ensures
            final(self).context == old(self).context,
            ({
                let c = match context_type {
                    Some(c) => *c,
                    None => old(self).context,
                };
                &&& final(self).markers(c) == (if old(self).markers(c).len() < MAX_MARKER_COUNT {
                    old(self).markers(c).push(marker)
                } else {
                    old(self).markers(c)
                })
                &&& forall|o: ContextType| o != c ==> final(self).markers(o) == old(self).markers(o)
            }),
    {
        let c = self.get_context(context_type);
        match c {
            ContextType::Initialize => {
                if self.initialize.len() < MAX_MARKER_COUNT {
                    self.initialize.push(marker);
                }
            },
            ContextType::ConfigSync => {
                if self.config_sync.len() < MAX_MARKER_COUNT {
                    self.config_sync.push(marker);
                }
            },
        }
    }

    /// Removes the markers of a context.
    pub fn clear_markers(&mut self, context_type: &ContextType)
        ensures
            final(self).context == old(self).context,
            final(self).markers(*context_type) == Seq::<Marker>::empty(),
            forall|o: ContextType| o != *context_type ==> final(self).markers(o) == old(self).markers(o),
    {
        match context_type {
            ContextType::Initialize => {
                self.initialize = Vec::new();
            },
            ContextType::ConfigSync => {
                self.config_sync = Vec::new();
            },
        }
    }
}

} // verus!
