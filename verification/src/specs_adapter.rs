use vstd::prelude::*;
use vstd::string::StringExecFns;

use crate::http_types::{header_lookup, ResponseData};
use crate::statsig_err::StatsigErr;
use crate::text::{
    chars_to_string, contains_chars, contains_seq, ends_with, ends_with_exec, extend_chars,
    extend_range, extend_str, starts_with, starts_with_exec, str_eq_chars, str_to_chars,
};

verus! {

/// Where the SDK's current config specs came from.
#[derive(Debug, Clone, PartialEq, Eq)]
pub enum SpecsSource {
    Uninitialized,
    NoValues,
    Error,
    Loading,
    Network,
    Bootstrap,
    Adapter(String),
}

/// The name of a source as text; an adapter source reads `Adapter(<name>)`.
pub open spec fn spec_specs_source_text(s: SpecsSource) -> Seq<char> {
    match s {
        SpecsSource::Uninitialized => "Uninitialized"@,
        SpecsSource::NoValues => "NoValues"@,
        SpecsSource::Error => "Error"@,
        SpecsSource::Loading => "Loading"@,
        SpecsSource::Network => "Network"@,
        SpecsSource::Bootstrap => "Bootstrap"@,
        SpecsSource::Adapter(name) => "Adapter("@ + name@ + ")"@,
    }
}

/// A source with its name as a character sequence, for stating equality of sources.
pub enum SpecsSourceView {
    Uninitialized,
    NoValues,
    Error,
    Loading,
    Network,
    Bootstrap,
    Adapter(Seq<char>),
}

/// The view of a source.
pub open spec fn specs_source_view(s: SpecsSource) -> SpecsSourceView {
    match s {
        SpecsSource::Uninitialized => SpecsSourceView::Uninitialized,
        SpecsSource::NoValues => SpecsSourceView::NoValues,
        SpecsSource::Error => SpecsSourceView::Error,
        SpecsSource::Loading => SpecsSourceView::Loading,
        SpecsSource::Network => SpecsSourceView::Network,
        SpecsSource::Bootstrap => SpecsSourceView::Bootstrap,
        SpecsSource::Adapter(name) => SpecsSourceView::Adapter(name@),
    }
}

/// The source a text names: `Adapter(<name>)` (a missing closing bracket gives an empty
/// name), one of the plain source names, or `Error` for anything else.
pub open spec fn spec_specs_source_from_text(s: Seq<char>) -> SpecsSourceView {
    if starts_with(s, "Adapter("@) {
        let rest = s.skip(8);
        if ends_with(rest, ")"@) {
            SpecsSourceView::Adapter(rest.take(rest.len() - 1))
        } else {
            SpecsSourceView::Adapter(Seq::empty())
        }
    } else if s == "Uninitialized"@ {
        SpecsSourceView::Uninitialized
    } else if s == "NoValues"@ {
        SpecsSourceView::NoValues
    } else if s == "Error"@ {
        SpecsSourceView::Error
    } else if s == "Loading"@ {
        SpecsSourceView::Loading
    } else if s == "Network"@ {
        SpecsSourceView::Network
    } else if s == "Bootstrap"@ {
        SpecsSourceView::Bootstrap
    } else {
        SpecsSourceView::Error
    }
}

impl SpecsSource {
    /// The source named by a text, as the display form writes it.
    pub fn new_from_string(s: &str) -> (r: SpecsSource)
        ensures
            specs_source_view(r) == spec_specs_source_from_text(s@),
    {
        let chars = str_to_chars(s);
        let prefix = str_to_chars("Adapter(");
        let close = str_to_chars(")");
        proof {
            reveal_strlit("Adapter(");
            reveal_strlit(")");
        }
        if starts_with_exec(&chars, &prefix) {
            let mut rest: Vec<char> = Vec::new();
            extend_range(&mut rest, &chars, 8, chars.len());
            assert(rest@ == s@.skip(8));
            if ends_with_exec(&rest, &close) {
                let mut name: Vec<char> = Vec::new();
                extend_range(&mut name, &rest, 0, rest.len() - 1);
                assert(name@ == rest@.take(rest.len() - 1));
                return SpecsSource::Adapter(chars_to_string(&name));
            }
            return SpecsSource::Adapter(String::new());
        }
        if str_eq_chars("Uninitialized", &chars) {
            SpecsSource::Uninitialized
        } else if str_eq_chars("NoValues", &chars) {
            SpecsSource::NoValues
        } else if str_eq_chars("Error", &chars) {
            SpecsSource::Error
        } else if str_eq_chars("Loading", &chars) {
            SpecsSource::Loading
        } else if str_eq_chars("Network", &chars) {
            SpecsSource::Network
        } else if str_eq_chars("Bootstrap", &chars) {
            SpecsSource::Bootstrap
        } else {
            SpecsSource::Error
        }
    }

    /// The source as text (its display form).
    pub fn to_display_string(&self) -> (r: String)
        ensures
            r@ == spec_specs_source_text(*self),
    {
        match self {
            SpecsSource::Uninitialized => String::from_str("Uninitialized"),
            SpecsSource::NoValues => String::from_str("NoValues"),
            SpecsSource::Error => String::from_str("Error"),
            SpecsSource::Loading => String::from_str("Loading"),
            SpecsSource::Network => String::from_str("Network"),
            SpecsSource::Bootstrap => String::from_str("Bootstrap"),
            SpecsSource::Adapter(name) => {
                let mut out: Vec<char> = Vec::new();
                extend_str(&mut out, "Adapter(");
                let n = str_to_chars(name.as_str());
                extend_chars(&mut out, &n);
                extend_str(&mut out, ")");
                chars_to_string(&out)
            },
        }
    }
}

/// Reading back the display form of a source gives the same source.
pub proof fn lemma_specs_source_text_round_trip(s: SpecsSource)
    ensures
        spec_specs_source_from_text(spec_specs_source_text(s)) == specs_source_view(s),
{
    reveal_strlit("Adapter(");
    reveal_strlit(")");
    reveal_strlit("Uninitialized");
    reveal_strlit("NoValues");
    reveal_strlit("Error");
    reveal_strlit("Loading");
    reveal_strlit("Network");
    reveal_strlit("Bootstrap");
    let t = spec_specs_source_text(s);
    match s {
        SpecsSource::Adapter(name) => {
            assert(t.take(8) =~= "Adapter("@);
            let rest = t.skip(8);
            assert(rest =~= name@ + ")"@);
            assert(rest.skip(rest.len() - 1) =~= ")"@);
            assert(rest.take(rest.len() - 1) =~= name@);
            assert(starts_with(t, "Adapter("@));
            assert(ends_with(rest, ")"@));
            assert(spec_specs_source_from_text(t) == SpecsSourceView::Adapter(name@));
            assert(specs_source_view(s) == SpecsSourceView::Adapter(name@));
            assert(t == spec_specs_source_text(s));
        },
        SpecsSource::Network => {
            assert(t[0] != "Loading"@[0]);
            assert(spec_specs_source_from_text(t) == specs_source_view(s));
        },
        SpecsSource::Uninitialized => {
            assert(!starts_with(t, "Adapter("@)) by {
                assert(t.take(8)[0] == t[0]);
            }
            assert(spec_specs_source_from_text(t) == specs_source_view(s));
        },
        SpecsSource::NoValues => {
            assert(!starts_with(t, "Adapter("@)) by {
                assert(t.take(8)[0] == t[0]);
            }
            assert(spec_specs_source_from_text(t) == specs_source_view(s));
        },
        SpecsSource::Error => {
            assert(spec_specs_source_from_text(t) == specs_source_view(s));
        },
        SpecsSource::Loading => {
            assert(spec_specs_source_from_text(t) == specs_source_view(s));
        },
        SpecsSource::Bootstrap => {
            assert(!starts_with(t, "Adapter("@)) by {
                assert(t.take(8)[0] == t[0]);
            }
            assert(spec_specs_source_from_text(t) == specs_source_view(s));
        },
    }
}

/// Format of a config-specs response body.
#[derive(Clone, Copy, Debug, PartialEq, Eq, Structural)]
pub enum SpecsResponseFormat {
    Json,
    PlainText,
    Protobuf,
    Unknown,
}

/// The name of a response format.
pub open spec fn spec_response_format_str(f: SpecsResponseFormat) -> Seq<char> {
    match f {
        SpecsResponseFormat::Json => "json"@,
        SpecsResponseFormat::PlainText => "plain_text"@,
        SpecsResponseFormat::Protobuf => "protobuf"@,
        SpecsResponseFormat::Unknown => "unknown"@,
    }
}

impl SpecsResponseFormat {
    /// The name of the format.
    pub fn as_str(self) -> (r: &'static str)
        ensures
            r@ == spec_response_format_str(self),
    {
        match self {
            SpecsResponseFormat::Json => "json",
            SpecsResponseFormat::PlainText => "plain_text",
            SpecsResponseFormat::Protobuf => "protobuf",
            SpecsResponseFormat::Unknown => "unknown",
        }
    }
}

/// A character with ASCII capitals turned to lower case.
pub open spec fn ascii_lower(c: char) -> char {
    if 'A' <= c <= 'Z' {
        ((c as u32) + 32) as char
    } else {
        c
    }
}

/// A text with ASCII capitals turned to lower case (`to_ascii_lowercase`).
pub open spec fn ascii_lowercase(s: Seq<char>) -> Seq<char> {
    Seq::new(s.len(), |i: int| ascii_lower(s[i]))
}

/// Lower-cases the ASCII capitals of a text.
pub fn to_ascii_lowercase(s: &Vec<char>) -> (r: Vec<char>)
    ensures
        r@ == ascii_lowercase(s@),
{
    let mut r: Vec<char> = Vec::new();
    let mut i: usize = 0;
    while i < s.len()
        invariant
            i <= s.len(),
            r@ == ascii_lowercase(s@).take(i as int),
        decreases s.len() - i,
    {
        let c = s[i];
        let l = if 'A' <= c && c <= 'Z' {
            let code: u32 = (c as u32) + 32;
            assert(code == (c as u32) + 32);
            char_from_ascii(code)
        } else {
            c
        };
        r.push(l);
        assert(ascii_lowercase(s@).take(i + 1) =~= ascii_lowercase(s@).take(i as int).push(
            ascii_lower(s@[i as int]),
        ));
        i = i + 1;
    }
    assert(ascii_lowercase(s@).take(s.len() as int) =~= ascii_lowercase(s@));
    r
}

/// The character with an ASCII code.
fn char_from_ascii(code: u32) -> (c: char)
    requires
        code < 128,
    ensures
        c == code as char,
{
    let b: u8 = code as u8;
    b as char
}

/// The body is brotli-compressed protobuf: an `application/octet-stream` content type with a
/// `statsig-br` content encoding.
pub open spec fn spec_is_response_protobuf(headers: Option<Seq<(String, String)>>) -> bool {
    &&& header_lookup(headers, "content-type"@) matches Some(t) && contains_seq(
        t,
        "application/octet-stream"@,
    )
    &&& header_lookup(headers, "content-encoding"@) matches Some(e) && contains_seq(
        e,
        "statsig-br"@,
    )
}

/// The format of a response, read from its headers: protobuf; otherwise by the lower-cased
/// content type, JSON (`application/json` or `+json`), plain text (`text/plain`) or unknown.
pub open spec fn spec_specs_response_format(headers: Option<Seq<(String, String)>>) -> SpecsResponseFormat {
    if spec_is_response_protobuf(headers) {
        SpecsResponseFormat::Protobuf
    } else {
        match header_lookup(headers, "content-type"@) {
            None => SpecsResponseFormat::Unknown,
            Some(t) => {
                let l = ascii_lowercase(t);
                if contains_seq(l, "application/json"@) || contains_seq(l, "+json"@) {
                    SpecsResponseFormat::Json
                } else if contains_seq(l, "text/plain"@) {
                    SpecsResponseFormat::PlainText
                } else {
                    SpecsResponseFormat::Unknown
                }
            },
        }
    }
}

/// A header value containing a given text.
fn header_contains(data: &ResponseData, key: &str, pat: &str) -> (r: bool)
    ensures
        r == (header_lookup(data.header_pairs(), key@) matches Some(v) && contains_seq(v, pat@)),
{
    match data.get_header_ref(key) {
        None => false,
        Some(v) => {
            let vc = str_to_chars(v.as_str());
            let pc = str_to_chars(pat);
            contains_chars(&vc, &pc)
        },
    }
}

/// Whether a response carries brotli-compressed protobuf.
pub fn is_response_protobuf(response_data: &ResponseData) -> (r: bool)
    ensures
        r == spec_is_response_protobuf(response_data.header_pairs()),
{
    if !header_contains(response_data, "content-type", "application/octet-stream") {
        return false;
    }
    header_contains(response_data, "content-encoding", "statsig-br")
}

/// The format of a config-specs response.
pub fn get_specs_response_format(response_data: &ResponseData) -> (r: SpecsResponseFormat)
    ensures
        r == spec_specs_response_format(response_data.header_pairs()),
{
    if is_response_protobuf(response_data) {
        return SpecsResponseFormat::Protobuf;
    }
    let content_type = match response_data.get_header_ref("content-type") {
        None => return SpecsResponseFormat::Unknown,
        Some(t) => to_ascii_lowercase(&str_to_chars(t.as_str())),
    };
    let json = str_to_chars("application/json");
    let plus_json = str_to_chars("+json");
    let plain = str_to_chars("text/plain");
    if contains_chars(&content_type, &json) || contains_chars(&content_type, &plus_json) {
        return SpecsResponseFormat::Json;
    }
    if contains_chars(&content_type, &plain) {
        return SpecsResponseFormat::PlainText;
    }
    SpecsResponseFormat::Unknown
}

/// What the SDK knows of the config specs it holds.
#[derive(Debug, Clone)]
pub struct SpecsInfo {
    pub lcut: Option<u64>,
    pub checksum: Option<String>,
    pub zstd_dict_id: Option<String>,
    pub source: SpecsSource,
    pub source_api: Option<String>,
}

impl SpecsInfo {
    /// No specs held yet.
    pub fn empty() -> (r: Self)
        ensures
            r.lcut is None,
            r.checksum is None,
            r.zstd_dict_id is None,
            r.source == SpecsSource::NoValues,
            r.source_api is None,
    {
        SpecsInfo { lcut: None, checksum: None, zstd_dict_id: None, source: SpecsSource::NoValues, source_api: None }
    }

    /// The specs could not be read.
    pub fn error() -> (r: Self)
        ensures
            r.lcut is None,
            r.checksum is None,
            r.zstd_dict_id is None,
            r.source == SpecsSource::Error,
            r.source_api is None,
    {
        SpecsInfo { lcut: None, checksum: None, zstd_dict_id: None, source: SpecsSource::Error, source_api: None }
    }
}

/// New config specs handed to the SDK.
pub struct SpecsUpdate {
    pub data: ResponseData,
    pub source: SpecsSource,
    pub received_at: u64,
    pub source_api: Option<String>,
}

/// Receives config-spec updates from an adapter. Implemented by the SDK's spec store (and by
/// tests).
pub trait SpecsUpdateListener {
    /// Applies an update.
    fn did_receive_specs_update(&self, update: SpecsUpdate) -> Result<(), StatsigErr>;

    /// What the listener currently holds.
    fn get_current_specs_info(&self) -> SpecsInfo;
}

/// A config-specs response fetched over the network.
pub struct NetworkResponse {
    pub data: ResponseData,
    pub loggable_api: String,
    pub requested_deltas: bool,
}

/// The body `{"has_updates": false}` that says the client already holds the latest specs.
#[derive(Debug, Clone, Copy, PartialEq, Eq, Structural)]
pub struct SpecsResponseNoUpdates {
    pub has_updates: bool,
}

/// What started a config sync.
#[derive(Debug, Clone, Copy, PartialEq, Eq, Structural)]
pub enum SpecsSyncTrigger {
    Initial,
    Background,
    Manual,
}

/// Whether a sync's network request returned a payload.
#[derive(Debug, Clone, Copy, PartialEq, Eq, Structural)]
pub enum NetworkSyncOutcome {
    Success,
    Failure,
}

impl NetworkSyncOutcome {
    /// `true` for a success.
    pub fn as_bool(&self) -> (r: bool)
        ensures
            r == (*self == NetworkSyncOutcome::Success),
    {
        match self {
            NetworkSyncOutcome::Success => true,
            NetworkSyncOutcome::Failure => false,
        }
    }
}

/// The default config-specs endpoint.
pub open spec fn default_specs_url() -> Seq<char> {
    "https://api.statsigcdn.com/v2/download_config_specs"@
}

/// Default time between background syncs.
pub const DEFAULT_SYNC_INTERVAL_MS: u32 = 10_000;

/// Default time allowed for the first sync.
pub const DEFAULT_INIT_TIMEOUT_MS: u64 = 3000;

/// Every how many failed background syncs the fallback endpoint is tried.
pub const STATSIG_NETWORK_FALLBACK_THRESHOLD: u32 = 5;

/// Default number of consecutive stalled delta syncs that force a full resync.
pub const DEFAULT_DCS_DELTA_NO_PROGRESS_THRESHOLD: u32 = 10;

/// Least time between two forced full resyncs.
pub const MIN_FORCED_FULL_RESYNC_INTERVAL_MS: u64 = 300_000;

/// The URL of the config specs of an SDK key: `<specs_url>/<sdk_key>.json`.
pub open spec fn spec_construct_specs_url(spec_url: Seq<char>, sdk_key: Seq<char>) -> Seq<char> {
    spec_url + seq!['/'] + sdk_key + ".json"@
}

/// The URL of the config specs of an SDK key.
pub fn construct_specs_url(spec_url: &str, sdk_key: &str) -> (r: String)
    ensures
        r@ == spec_construct_specs_url(spec_url@, sdk_key@),
{
    let mut out = str_to_chars(spec_url);
    out.push('/');
    extend_str(&mut out, sdk_key);
    extend_str(&mut out, ".json");
    chars_to_string(&out)
}

/// A forced full resync is due once the stall streak reaches the threshold and either none
/// was forced before, the clock went backwards, or the least interval has passed since the
/// last one.
pub open spec fn spec_forced_resync_due(
    count: u32,
    threshold: u32,
    last_forced_at_ms: u64,
    now_ms: u64,
    min_interval_ms: u64,
) -> bool {
    &&& count >= threshold
    &&& (last_forced_at_ms == 0 || now_ms < last_forced_at_ms || now_ms - last_forced_at_ms
        >= min_interval_ms)
}

/// Whether a forced full resync is due.
pub fn forced_resync_due(
    count: u32,
    threshold: u32,
    last_forced_at_ms: u64,
    now_ms: u64,
    min_interval_ms: u64,
) -> (r: bool)
    ensures
        r == spec_forced_resync_due(count, threshold, last_forced_at_ms, now_ms, min_interval_ms),
{
    if count < threshold {
        return false;
    }
    if last_forced_at_ms == 0 || now_ms < last_forced_at_ms {
        return true;
    }
    now_ms - last_forced_at_ms >= min_interval_ms
}

/// An uppercase hexadecimal digit.
pub open spec fn hex_upper(d: nat) -> char {
    if d < 10 {
        (48 + d) as char
    } else {
        (55 + d) as char
    }
}

/// An ASCII letter or digit byte.
pub open spec fn is_alnum_byte(b: u8) -> bool {
    (48 <= b <= 57) || (65 <= b <= 90) || (97 <= b <= 122)
}

/// One byte percent-encoded: letters and digits as they are, every other byte as `%XX` in
/// uppercase hexadecimal.
pub open spec fn percent_encoded_byte(b: u8) -> Seq<char> {
    if is_alnum_byte(b) {
        seq![b as char]
    } else {
        seq!['%', hex_upper((b / 16) as nat), hex_upper((b % 16) as nat)]
    }
}

/// Bytes percent-encoded one by one.
pub open spec fn percent_encoded(bytes: Seq<u8>) -> Seq<char>
    decreases bytes.len(),
{
    if bytes.len() == 0 {
        Seq::empty()
    } else {
        percent_encoded(bytes.drop_last()) + percent_encoded_byte(bytes.last())
    }
}

/// `percent_encoding::percent_encode` with the `NON_ALPHANUMERIC` set, as a string: every
/// byte that is not an ASCII letter or digit becomes `%` and two uppercase hexadecimal digits.
#[verifier::external_body]
pub(crate) fn percent_encode_non_alphanumeric(bytes: &[u8]) -> (r: String)
    ensures
        r@ == percent_encoded(bytes@),
{
    percent_encoding::percent_encode(bytes, percent_encoding::NON_ALPHANUMERIC).to_string()
}

} // verus!
