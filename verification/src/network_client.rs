use vstd::prelude::*;

use vstd::arithmetic::power2::{
    lemma2_to64, lemma2_to64_rest, lemma_pow2_strictly_increases, lemma_pow2_unfold, pow2,
};
use vstd::string::StringExecFns;

use crate::http_types::{
    clone_pairs, client_time_header, extend_pairs, insert_pair, keys_unique,
    lemma_extend_pairs_unique, lemma_insert_pair_unique, opt_keys_unique, opt_pairs, pairs_view,
    spec_extend_pairs, spec_insert_pair, spec_populated_headers, ProxyConfig, RequestArgs,
    Response, ResponseData,
};
use crate::network_error::NetworkError;
use crate::text::{
    chars_to_string, decimal, decimal_chars, decimal_string, extend_chars, extend_range, extend_str, str_eq_chars,
    str_to_chars, trim_end_slashes, trim_end_slashes_exec, trim_start_slashes,
    trim_start_slashes_exec,
};
use crate::url_utils::{
    is_version_segment, join_slash, join_slash_prefix, path_segments, spec_is_version_segment,
    spec_split_host_and_path, spec_strip_query_and_fragment, split_host_and_path,
    split_path_segments, strip_query_and_fragment, views,
};

verus! {

/// Longest request path reported for a URL that names no known endpoint.
pub const MAX_REQUEST_PATH_LENGTH: usize = 64;

/// Number of leading characters of an SDK key that may be logged.
pub const LOGGABLE_KEY_PREFIX_LENGTH: usize = 13;

/// The first `LOGGABLE_KEY_PREFIX_LENGTH` characters of a key (all of it when shorter).
pub open spec fn spec_loggable_sdk_key(key: Seq<char>) -> Seq<char> {
    if key.len() <= LOGGABLE_KEY_PREFIX_LENGTH {
        key
    } else {
        key.take(LOGGABLE_KEY_PREFIX_LENGTH as int)
    }
}

/// The part of an SDK key that may appear in logs.
pub fn get_loggable_sdk_key(sdk_key: &str) -> (r: String)
    ensures
        r@ == spec_loggable_sdk_key(sdk_key@),
{
    let chars = str_to_chars(sdk_key);
    let n = if chars.len() <= LOGGABLE_KEY_PREFIX_LENGTH {
        chars.len()
    } else {
        LOGGABLE_KEY_PREFIX_LENGTH
    };
    let mut out: Vec<char> = Vec::new();
    extend_range(&mut out, &chars, 0, n);
    assert(chars@.subrange(0, n as int) == spec_loggable_sdk_key(sdk_key@));
    chars_to_string(&out)
}

/// The endpoints whose request latency is reported.
pub open spec fn spec_is_latency_loggable_endpoint(s: Seq<char>) -> bool {
    ||| s == "download_config_specs"@
    ||| s == "get_id_lists"@
    ||| s == "download_id_list_file"@
}

/// Whether a path piece is an endpoint whose request latency is reported.
pub fn is_latency_loggable_endpoint(endpoint: &Vec<char>) -> (r: bool)
    ensures
        r == spec_is_latency_loggable_endpoint(endpoint@),
{
    str_eq_chars("download_config_specs", endpoint) || str_eq_chars("get_id_lists", endpoint)
        || str_eq_chars("download_id_list_file", endpoint)
}

/// Piece `j` is a loggable endpoint right after a version piece.
pub open spec fn latency_endpoint_at(segs: Seq<Seq<char>>, j: int) -> bool {
    &&& 1 <= j < segs.len()
    &&& spec_is_latency_loggable_endpoint(segs[j])
    &&& spec_is_version_segment(segs[j - 1])
}

/// The first position from `from` on that holds a loggable endpoint after a version piece.
pub open spec fn find_latency_endpoint(segs: Seq<Seq<char>>, from: int) -> Option<int>
    decreases segs.len() - from,
{
    if from < 0 || from >= segs.len() {
        None
    } else if latency_endpoint_at(segs, from) {
        Some(from)
    } else {
        find_latency_endpoint(segs, from + 1)
    }
}

/// The found position is a match, and no earlier one from `from` on is.
pub proof fn lemma_find_latency_endpoint(segs: Seq<Seq<char>>, from: int)
    requires
        0 <= from,
    ensures
        find_latency_endpoint(segs, from) matches Some(j) ==> from <= j && latency_endpoint_at(
            segs,
            j,
        ),
        find_latency_endpoint(segs, from) is None ==> forall|j: int|
            from <= j < segs.len() ==> !#[trigger] latency_endpoint_at(segs, j),
    decreases segs.len() - from,
{
    if from < segs.len() && !latency_endpoint_at(segs, from) {
        lemma_find_latency_endpoint(segs, from + 1);
    }
}

/// Index of the version piece that precedes the first loggable endpoint.
pub fn get_version_and_endpoint_for_latency(segments: &Vec<Vec<char>>) -> (r: Option<usize>)
    ensures
        r is None <==> find_latency_endpoint(views(segments@), 0) is None,
        r matches Some(v) ==> find_latency_endpoint(views(segments@), 0) == Some(v + 1),
{
    let ghost segs = views(segments@);
    let mut j: usize = 0;
    while j < segments.len()
        invariant
            j <= segments.len(),
            segs == views(segments@),
            find_latency_endpoint(segs, 0) == find_latency_endpoint(segs, j as int),
        decreases segments.len() - j,
    {
        if j >= 1 && is_latency_loggable_endpoint(&segments[j]) && is_version_segment(
            &segments[j - 1],
        ) {
            assert(latency_endpoint_at(segs, j as int));
            return Some(j - 1);
        }
        assert(!latency_endpoint_at(segs, j as int));
        j = j + 1;
    }
    None
}

/// The path of a URL as used for latency reporting: without host, query, fragment and
/// leading slashes.
pub open spec fn latency_path(url: Seq<char>) -> Seq<char> {
    trim_start_slashes(spec_strip_query_and_fragment(spec_split_host_and_path(url).1))
}

/// The non-empty pieces of that path.
pub open spec fn latency_segments(url: Seq<char>) -> Seq<Seq<char>> {
    path_segments(latency_path(url))
}

/// A URL's latency is reported when its path holds a loggable endpoint after a version.
pub open spec fn spec_should_log_network_request_latency(url: Seq<char>) -> bool {
    find_latency_endpoint(latency_segments(url), 0) is Some
}

/// Host prefix, normalised path and its pieces of a URL.
fn latency_parts(url: &str) -> (r: (Vec<char>, Vec<char>, Vec<Vec<char>>))
    ensures
        r.0@ == spec_split_host_and_path(url@).0,
        r.1@ == latency_path(url@),
        views(r.2@) == latency_segments(url@),
{
    let chars = str_to_chars(url);
    let (host, raw_path) = split_host_and_path(&chars);
    let stripped = strip_query_and_fragment(&raw_path);
    let normalized = trim_start_slashes_exec(&stripped);
    let segments = split_path_segments(&normalized);
    (host, normalized, segments)
}

/// Whether the latency of a request to this URL is reported.
pub fn should_log_network_request_latency(url: &str) -> (r: bool)
    ensures
        r == spec_should_log_network_request_latency(url@),
{
    let (_, _, segments) = latency_parts(url);
    get_version_and_endpoint_for_latency(&segments).is_some()
}

/// A path prefixed with the host part (the path alone when there is no host part).
pub fn with_host_prefix(host_prefix: &Vec<char>, path: &Vec<char>) -> (r: Vec<char>)
    ensures
        r@ == host_prefix@ + path@,
{
    if host_prefix.len() == 0 {
        assert(host_prefix@ + path@ =~= path@);
        path.clone()
    } else {
        let mut r = host_prefix.clone();
        extend_chars(&mut r, path);
        r
    }
}

/// The service a URL belongs to and the request path reported for it. With a loggable
/// endpoint after a version piece: the host and the pieces before the version (without
/// trailing slashes), and `/version/endpoint`. Otherwise: the host without trailing slashes,
/// and `/` followed by the first `MAX_REQUEST_PATH_LENGTH` characters of the path (`/` alone
/// for an empty path).
pub open spec fn spec_source_service_and_request_path(url: Seq<char>) -> (Seq<char>, Seq<char>) {
    let host = spec_split_host_and_path(url).0;
    let path = latency_path(url);
    let segs = path_segments(path);
    match find_latency_endpoint(segs, 0) {
        Some(j) => (
            trim_end_slashes(host + join_slash(segs.take(j - 1))),
            seq!['/'] + segs[j - 1] + seq!['/'] + segs[j],
        ),
        None => (
            trim_end_slashes(host),
            if path.len() == 0 {
                seq!['/']
            } else if path.len() <= MAX_REQUEST_PATH_LENGTH {
                seq!['/'] + path
            } else {
                seq!['/'] + path.take(MAX_REQUEST_PATH_LENGTH as int)
            },
        ),
    }
}

/// The source service and request path reported for a URL.
pub fn get_source_service_and_request_path(url: &str) -> (r: (String, String))
    ensures
        (r.0@, r.1@) == spec_source_service_and_request_path(url@),
{
    let (host, normalized, segments) = latency_parts(url);
    proof {
        lemma_find_latency_endpoint(views(segments@), 0);
    }
    match get_version_and_endpoint_for_latency(&segments) {
        Some(v) => {
            let mut request_path: Vec<char> = vec!['/'];
            extend_chars(&mut request_path, &segments[v]);
            request_path.push('/');
            extend_chars(&mut request_path, &segments[v + 1]);
            let suffix = join_slash_prefix(&segments, v);
            let joined = with_host_prefix(&host, &suffix);
            let source = trim_end_slashes_exec(&joined);
            (chars_to_string(&source), chars_to_string(&request_path))
        },
        None => {
            let n = if normalized.len() <= MAX_REQUEST_PATH_LENGTH {
                normalized.len()
            } else {
                MAX_REQUEST_PATH_LENGTH
            };
            let mut request_path: Vec<char> = vec!['/'];
            extend_range(&mut request_path, &normalized, 0, n);
            assert(normalized@.subrange(0, n as int) == normalized@.take(n as int));
            assert(normalized@.take(normalized.len() as int) =~= normalized@);
            let source = trim_end_slashes_exec(&host);
            (chars_to_string(&source), chars_to_string(&request_path))
        },
    }
}

/// The request path reported for a URL.
pub fn get_request_path(url: &str) -> (r: String)
    ensures
        r@ == spec_source_service_and_request_path(url@).1,
{
    get_source_service_and_request_path(url).1
}

/// A status in `200..300` (a missing status counts as 0).
pub open spec fn spec_is_success_status(status: Option<u16>) -> bool {
    let code = match status {
        Some(c) => c,
        None => 0u16,
    };
    200 <= code < 300
}

/// Whether a response status counts as success.
pub fn is_success_status(status: Option<u16>) -> (r: bool)
    ensures
        r == spec_is_success_status(status),
{
    let code = match status {
        Some(c) => c,
        None => 0u16,
    };
    200 <= code && code < 300
}

/// Statuses on which a request is never retried.
pub open spec fn spec_is_non_retry_status(status: Option<u16>) -> bool {
    let code = match status {
        Some(c) => c,
        None => 0u16,
    };
    code == 400 || code == 403 || code == 413 || code == 405 || code == 429 || code == 501
}

/// Whether a failed request with this status is never retried.
pub fn is_non_retry_status(status: Option<u16>) -> (r: bool)
    ensures
        r == spec_is_non_retry_status(status),
{
    let code = match status {
        Some(c) => c,
        None => 0u16,
    };
    code == 400 || code == 403 || code == 413 || code == 405 || code == 429 || code == 501
}

/// Every character is ASCII.
pub open spec fn all_ascii(s: Seq<char>) -> bool {
    forall|i: int| 0 <= i < s.len() ==> (#[trigger] s[i]) <= '\x7f'
}

/// The body as text when it is valid UTF-8 holding only ASCII; empty otherwise.
pub open spec fn body_message(body: Option<Seq<u8>>) -> Seq<char> {
    match body {
        None => Seq::empty(),
        Some(b) => if vstd::utf8::valid_utf8(b) && all_ascii(vstd::utf8::decode_utf8(b)) {
            vstd::utf8::decode_utf8(b)
        } else {
            Seq::empty()
        },
    }
}

/// The standard wording of the statuses that have one.
pub open spec fn generic_status_message(code: u16) -> Option<Seq<char>> {
    if code == 400 {
        Some("Bad Request"@)
    } else if code == 401 {
        Some("Unauthorized"@)
    } else if code == 403 {
        Some("Forbidden"@)
    } else if code == 404 {
        Some("Not Found"@)
    } else if code == 405 {
        Some("Method Not Allowed"@)
    } else if code == 406 {
        Some("Not Acceptable"@)
    } else if code == 408 {
        Some("Request Timeout"@)
    } else if code == 500 {
        Some("Internal Server Error"@)
    } else if code == 502 {
        Some("Bad Gateway"@)
    } else if code == 503 {
        Some("Service Unavailable"@)
    } else if code == 504 {
        Some("Gateway Timeout"@)
    } else if code == 0 {
        Some("Unknown Error"@)
    } else {
        None
    }
}

/// The error message for a response: empty on success; otherwise the standard wording of
/// the status (or `HTTP Error <status>`), followed by `: ` and the body when the body is
/// ASCII text.
pub open spec fn spec_error_message_for_status(status: Option<u16>, body: Option<Seq<u8>>) -> Seq<
    char,
> {
    if spec_is_success_status(status) {
        Seq::empty()
    } else {
        let m = body_message(body);
        match status {
            None => "HTTP Error None: "@ + m,
            Some(code) => match generic_status_message(code) {
                None => "HTTP Error "@ + decimal(code as nat) + ": "@ + m,
                Some(g) => if m.len() == 0 {
                    g
                } else {
                    g + ": "@ + m
                },
            },
        }
    }
}

/// The body of an optional response.
pub open spec fn opt_body(data: Option<&ResponseData>) -> Option<Seq<u8>> {
    match data {
        None => None,
        Some(d) => Some(d.body()),
    }
}

/// The standard wording of a status, if it has one.
fn generic_status_message_exec(code: u16) -> (r: Option<&'static str>)
    ensures
        r is None <==> generic_status_message(code) is None,
        r matches Some(s) ==> generic_status_message(code) == Some(s@),
{
    match code {
        400 => Some("Bad Request"),
        401 => Some("Unauthorized"),
        403 => Some("Forbidden"),
        404 => Some("Not Found"),
        405 => Some("Method Not Allowed"),
        406 => Some("Not Acceptable"),
        408 => Some("Request Timeout"),
        500 => Some("Internal Server Error"),
        502 => Some("Bad Gateway"),
        503 => Some("Service Unavailable"),
        504 => Some("Gateway Timeout"),
        0 => Some("Unknown Error"),
        _ => None,
    }
}

/// The body of a response as a message, when it is ASCII text.
fn body_message_exec(data: Option<&ResponseData>) -> (r: Vec<char>)
    ensures
        r@ == body_message(opt_body(data)),
{
    match data {
        None => Vec::new(),
        Some(d) => match d.read_to_string() {
            Err(_) => Vec::new(),
            Ok(s) => {
                let chars = str_to_chars(s.as_str());
                assert(body_message(opt_body(data)) == (if all_ascii(chars@) {
                    chars@
                } else {
                    Seq::empty()
                }));
                let mut i: usize = 0;
                while i < chars.len()
                    invariant
                        i <= chars.len(),
                        body_message(opt_body(data)) == (if all_ascii(chars@) {
                            chars@
                        } else {
                            Seq::empty()
                        }),
                        forall|k: int| 0 <= k < i ==> (#[trigger] chars@[k]) <= '\x7f',
                    decreases chars.len() - i,
                {
                    if chars[i] > '\x7f' {
                        return Vec::new();
                    }
                    i = i + 1;
                }
                chars
            },
        },
    }
}

/// The error message for a response with the given status and body.
pub fn get_error_message_for_status(status: Option<u16>, data: Option<&ResponseData>) -> (r:
    String)
    ensures
        r@ == spec_error_message_for_status(status, opt_body(data)),
{
    if is_success_status(status) {
        return String::new();
    }
    let message = body_message_exec(data);
    let mut out: Vec<char> = Vec::new();
    match status {
        None => {
            extend_str(&mut out, "HTTP Error None: ");
            extend_chars(&mut out, &message);
        },
        Some(code) => match generic_status_message_exec(code) {
            None => {
                extend_str(&mut out, "HTTP Error ");
                let digits = decimal_chars(code as u64);
                extend_chars(&mut out, &digits);
                extend_str(&mut out, ": ");
                extend_chars(&mut out, &message);
            },
            Some(g) => {
                extend_str(&mut out, g);
                if message.len() > 0 {
                    extend_str(&mut out, ": ");
                    extend_chars(&mut out, &message);
                }
            },
        },
    }
    chars_to_string(&out)
}

/// The headers a request goes out with: its own headers populated with the client's
/// headers and the client time, the client's headers applied again over them, and the client
/// time set last.
pub open spec fn spec_request_headers(
    own: Option<Seq<(String, String)>>,
    client_headers: Seq<(String, String)>,
    now_ms: u64,
) -> Seq<(Seq<char>, Seq<char>)> {
    let populated = spec_populated_headers(own, client_headers, now_ms);
    let merged = if client_headers.len() > 0 {
        spec_extend_pairs(populated, pairs_view(client_headers))
    } else {
        populated
    };
    spec_insert_pair(merged, client_time_header(), decimal(now_ms as nat))
}

/// The headers a request is sent with name each header once, when its own headers did.
pub proof fn lemma_request_headers_unique(
    own: Option<Seq<(String, String)>>,
    client_headers: Seq<(String, String)>,
    now_ms: u64,
)
    requires
        opt_keys_unique(own),
    ensures
        keys_unique(spec_request_headers(own, client_headers, now_ms)),
{
    let empty = Seq::<(Seq<char>, Seq<char>)>::empty();
    lemma_extend_pairs_unique(empty, pairs_view(client_headers));
    let base = spec_extend_pairs(empty, pairs_view(client_headers));
    lemma_insert_pair_unique(base, client_time_header(), decimal(now_ms as nat));
    let added = spec_insert_pair(base, client_time_header(), decimal(now_ms as nat));
    if let Some(hs) = own {
        lemma_extend_pairs_unique(pairs_view(hs), added);
    }
    let populated = spec_populated_headers(own, client_headers, now_ms);
    if client_headers.len() > 0 {
        lemma_extend_pairs_unique(populated, pairs_view(client_headers));
    }
    let merged = if client_headers.len() > 0 {
        spec_extend_pairs(populated, pairs_view(client_headers))
    } else {
        populated
    };
    lemma_insert_pair_unique(merged, client_time_header(), decimal(now_ms as nat));
}

/// Sends requests on behalf of one SDK instance: the headers every request carries and the
/// settings that shape each request.
pub struct NetworkClient {
    pub headers: Vec<(String, String)>,
    pub disable_network: bool,
    pub proxy_config: Option<ProxyConfig>,
    pub silent_on_network_failure: bool,
    pub disable_file_streaming: bool,
    pub loggable_sdk_key: String,
}

impl NetworkClient {
    /// A client for the given SDK key, with the headers every request carries and the
    /// network-related options (absent options count as `false`).
    pub fn new(
        sdk_key: &str,
        headers: Option<Vec<(String, String)>>,
        disable_network: Option<bool>,
        proxy_config: Option<ProxyConfig>,
        disable_disk_access: Option<bool>,
    ) -> (r: Self)
        ensures
            r.headers@ == (match headers {
                Some(h) => h@,
                None => Seq::empty(),
            }),
            r.disable_network == (disable_network == Some(true)),
            r.proxy_config == proxy_config,
            !r.silent_on_network_failure,
            r.disable_file_streaming == (disable_disk_access == Some(true)),
            r.loggable_sdk_key@ == spec_loggable_sdk_key(sdk_key@),
    {
        NetworkClient {
            headers: match headers {
                Some(h) => h,
                None => Vec::new(),
            },
            disable_network: match disable_network {
                Some(b) => b,
                None => false,
            },
            proxy_config,
            silent_on_network_failure: false,
            disable_file_streaming: match disable_disk_access {
                Some(b) => b,
                None => false,
            },
            loggable_sdk_key: get_loggable_sdk_key(sdk_key),
        }
    }

    /// The same client, no longer reporting network failures to the error boundary.
    pub fn mute_network_error_log(self) -> (r: Self)
        ensures
            r.silent_on_network_failure,
            r.headers == self.headers,
            r.disable_network == self.disable_network,
            r.proxy_config == self.proxy_config,
            r.disable_file_streaming == self.disable_file_streaming,
            r.loggable_sdk_key == self.loggable_sdk_key,
    {
        let mut s = self;
        s.silent_on_network_failure = true;
        s
    }

    /// Readies a request to be sent at client time `now_ms`: refused with `DisableNetworkOn`
    /// when the network is disabled; otherwise with the request headers merged, file
    /// streaming defaulted to the client's setting and the client's proxy (if any) applied.
    pub fn prepare_request(&self, request_args: RequestArgs, now_ms: u64) -> (r: Result<
        RequestArgs,
        NetworkError,
    >)
        ensures
            self.disable_network ==> r == Err::<RequestArgs, NetworkError>(
                NetworkError::DisableNetworkOn(request_args.url),
            ),
            !self.disable_network ==> r is Ok,
            r matches Ok(a) ==> {
                &&& a.headers is Some
                &&& pairs_view(a.headers->0@) == spec_request_headers(
                    opt_pairs(request_args.headers),
                    self.headers@,
                    now_ms,
                )
                &&& a.disable_file_streaming == (match request_args.disable_file_streaming {
                    Some(d) => Some(d),
                    None => Some(self.disable_file_streaming),
                })
                &&& a.proxy_config == (match self.proxy_config {
                    Some(p) => Some(p),
                    None => request_args.proxy_config,
                })
                &&& a.url == request_args.url
                &&& a.body == request_args.body
                &&& a.retries == request_args.retries
                &&& a.query_params == request_args.query_params
                &&& a.deltas_enabled == request_args.deltas_enabled
                &&& a.accept_gzip_response == request_args.accept_gzip_response
                &&& a.timeout_ms == request_args.timeout_ms
                &&& a.is_shutdown == request_args.is_shutdown
                &&& a.diagnostics_key == request_args.diagnostics_key
                &&& a.id_list_file_id == request_args.id_list_file_id
                &&& opt_keys_unique(opt_pairs(request_args.headers)) ==> keys_unique(
                    pairs_view(a.headers->0@),
                )
            },
    {
        proof {
            if opt_keys_unique(opt_pairs(request_args.headers)) {
                lemma_request_headers_unique(opt_pairs(request_args.headers), self.headers@, now_ms);
            }
        }
        if self.disable_network {
            return Err(NetworkError::DisableNetworkOn(request_args.url));
        }
        let mut args = request_args;
        let client_headers = clone_pairs(&self.headers);
        args.populate_headers_at(client_headers, now_ms);
        if args.disable_file_streaming.is_none() {
            args.disable_file_streaming = Some(self.disable_file_streaming);
        }
        let mut merged = match args.headers.take() {
            Some(h) => h,
            None => Vec::new(),
        };
        if self.headers.len() > 0 {
            extend_pairs(&mut merged, &self.headers);
        }
        insert_pair(&mut merged, String::from_str("STATSIG-CLIENT-TIME"), decimal_string(now_ms));
        args.headers = Some(merged);
        match &self.proxy_config {
            Some(p) => {
                args.proxy_config = Some(p.copy_config());
            },
            None => {},
        }
        Ok(args)
    }
}

/// The body of a response, if it has one.
pub open spec fn response_body(response: &Response) -> Option<Seq<u8>> {
    match &response.data {
        None => None,
        Some(d) => Some(d.body()),
    }
}

/// The error message of a response: the provider's own error when it reported one,
/// otherwise the message for its status and body.
pub open spec fn spec_response_error_message(response: &Response) -> Seq<char> {
    match &response.error {
        Some(e) => e@,
        None => spec_error_message_for_status(response.status_code, response_body(response)),
    }
}

/// The error message of a response.
pub fn response_error_message(response: &Response) -> (r: String)
    ensures
        r@ == spec_response_error_message(response),
{
    match &response.error {
        Some(e) => e.clone(),
        None => get_error_message_for_status(response.status_code, response.data.as_ref()),
    }
}

/// Wait before the retry numbered `attempt`: `2^attempt * 100` milliseconds.
pub open spec fn spec_backoff_ms(attempt: nat) -> nat {
    pow2(attempt) * 100
}

/// The wait before the retry numbered `attempt`.
pub fn backoff_ms(attempt: u32) -> (r: u64)
    requires
        attempt <= 57,
    ensures
        r == spec_backoff_ms(attempt as nat),
{
    let mut b: u64 = 100;
    let mut k: u32 = 0;
    proof {
        lemma2_to64();
        lemma2_to64_rest();
    }
    while k < attempt
        invariant
            k <= attempt <= 57,
            b == pow2(k as nat) * 100,
            pow2(57) == 0x200000000000000,
        decreases attempt - k,
    {
        proof {
            lemma_pow2_unfold((k + 1) as nat);
            if k + 1 < 57 {
                lemma_pow2_strictly_increases((k + 1) as nat, 57);
            }
        }
        b = b * 2;
        k = k + 1;
    }
    b
}

/// What to do once a response to attempt number `attempt` has arrived.
pub enum RetryDecision {
    /// The request succeeded.
    Succeeded,
    /// The request failed for good.
    Failed(NetworkError),
    /// Wait `backoff_ms`, then make attempt number `attempt`.
    RetryAfter { attempt: u32, backoff_ms: u64 },
}

/// The decision after a response with `status` to attempt number `attempt` of a request
/// allowing `retries` retries: success on a 2xx status; `RequestNotRetryable` on a status
/// that is never retried; `RetriesExhausted` (with the number of attempts made) when no retry
/// is left; otherwise a retry after the backoff.
pub open spec fn spec_retry_decision(
    url: Seq<char>,
    status: Option<u16>,
    attempt: u32,
    retries: u32,
    message: Seq<char>,
) -> RetryDecisionView {
    if spec_is_success_status(status) {
        RetryDecisionView::Succeeded
    } else if spec_is_non_retry_status(status) {
        RetryDecisionView::NotRetryable(url, status, message)
    } else if attempt >= retries {
        RetryDecisionView::RetriesExhausted(url, status, attempt + 1, message)
    } else {
        RetryDecisionView::RetryAfter(attempt + 1, spec_backoff_ms((attempt + 1) as nat) as int)
    }
}

/// A retry decision with its strings as character sequences.
pub enum RetryDecisionView {
    Succeeded,
    NotRetryable(Seq<char>, Option<u16>, Seq<char>),
    RetriesExhausted(Seq<char>, Option<u16>, int, Seq<char>),
    RetryAfter(int, int),
    OtherFailure,
}

/// The view of a retry decision.
pub open spec fn retry_decision_view(d: RetryDecision) -> RetryDecisionView {
    match d {
        RetryDecision::Succeeded => RetryDecisionView::Succeeded,
        RetryDecision::Failed(NetworkError::RequestNotRetryable(u, s, m)) => RetryDecisionView::NotRetryable(
            u@,
            s,
            m@,
        ),
        RetryDecision::Failed(NetworkError::RetriesExhausted(u, s, a, m)) => RetryDecisionView::RetriesExhausted(
            u@,
            s,
            a as int,
            m@,
        ),
        RetryDecision::Failed(_) => RetryDecisionView::OtherFailure,
        RetryDecision::RetryAfter { attempt, backoff_ms } => RetryDecisionView::RetryAfter(
            attempt as int,
            backoff_ms as int,
        ),
    }
}

/// The attempt counter and backoff stay in range: attempts never pass the allowed retries,
/// and a retry is only ever scheduled up to attempt 57, the last whose backoff fits in
/// 64 bits.
pub open spec fn retry_in_range(status: Option<u16>, attempt: u32, retries: u32) -> bool {
    &&& attempt <= retries
    &&& attempt <= 57
    &&& (!spec_is_success_status(status) && !spec_is_non_retry_status(status) && attempt < retries)
        ==> attempt < 57
}

/// Decides what follows a response to attempt number `attempt`.
pub fn next_retry_decision(
    url: &String,
    status: Option<u16>,
    attempt: u32,
    retries: u32,
    error_message: String,
) -> (r: RetryDecision)
    requires
        retry_in_range(status, attempt, retries),
    ensures
        retry_decision_view(r) == spec_retry_decision(url@, status, attempt, retries, error_message@),
{
    if is_success_status(status) {
        RetryDecision::Succeeded
    } else if is_non_retry_status(status) {
        RetryDecision::Failed(NetworkError::RequestNotRetryable(url.clone(), status, error_message))
    } else if attempt >= retries {
        RetryDecision::Failed(
            NetworkError::RetriesExhausted(url.clone(), status, attempt + 1, error_message),
        )
    } else {
        let next = attempt + 1;
        RetryDecision::RetryAfter { attempt: next, backoff_ms: backoff_ms(next) }
    }
}

/// `true` or `false` as text.
pub open spec fn bool_text(b: bool) -> Seq<char> {
    if b {
        "true"@
    } else {
        "false"@
    }
}

/// The tags of a request-latency metric: request path, status code, success, loggable SDK
/// key and source service, plus the ID list file when the request names a non-empty one.
pub open spec fn spec_latency_tags(
    url: Seq<char>,
    id_list_file_id: Option<Seq<char>>,
    status_code: Seq<char>,
    success: bool,
    sdk_key: Seq<char>,
) -> Seq<(Seq<char>, Seq<char>)> {
    let (source_service, request_path) = spec_source_service_and_request_path(url);
    let base = seq![
        ("request_path"@, request_path),
        ("status_code"@, status_code),
        ("is_success"@, bool_text(success)),
        ("sdk_key"@, sdk_key),
        ("source_service"@, source_service),
    ];
    match id_list_file_id {
        Some(id) => if id.len() > 0 {
            base.push(("id_list_file_id"@, id))
        } else {
            base
        },
        None => base,
    }
}

/// An optional string as an optional character sequence.
pub open spec fn opt_chars(o: Option<String>) -> Option<Seq<char>> {
    match o {
        Some(s) => Some(s@),
        None => None,
    }
}

/// The tags attached to the latency metric of a request.
pub fn get_network_request_latency_tags(
    request_args: &RequestArgs,
    status_code: String,
    success: bool,
    loggable_sdk_key: String,
) -> (r: Vec<(String, String)>)
    ensures
        pairs_view(r@) == spec_latency_tags(
            request_args.url@,
            opt_chars(request_args.id_list_file_id),
            status_code@,
            success,
            loggable_sdk_key@,
        ),
{
    let (source_service, request_path) = get_source_service_and_request_path(
        request_args.url.as_str(),
    );
    let success_text = if success {
        String::from_str("true")
    } else {
        String::from_str("false")
    };
    let mut tags: Vec<(String, String)> = Vec::new();
    tags.push((String::from_str("request_path"), request_path));
    tags.push((String::from_str("status_code"), status_code));
    tags.push((String::from_str("is_success"), success_text));
    tags.push((String::from_str("sdk_key"), loggable_sdk_key));
    tags.push((String::from_str("source_service"), source_service));
    let ghost base = pairs_view(tags@);
    match &request_args.id_list_file_id {
        Some(id) => {
            if !id.as_str().is_empty() {
                tags.push((String::from_str("id_list_file_id"), id.clone()));
                assert(pairs_view(tags@) =~= base.push(("id_list_file_id"@, id@)));
            }
        },
        None => {},
    }
    assert(base =~= seq![
        ("request_path"@, spec_source_service_and_request_path(request_args.url@).1),
        ("status_code"@, status_code@),
        ("is_success"@, bool_text(success)),
        ("sdk_key"@, loggable_sdk_key@),
        ("source_service"@, spec_source_service_and_request_path(request_args.url@).0),
    ]);
    tags
}

/// The API a URL calls, as reported in sync metrics: the host and the path up to the version
/// piece before the first loggable endpoint (without trailing slashes), or the host alone.
pub open spec fn spec_api_from_url(url: Seq<char>) -> Seq<char> {
    let host = spec_split_host_and_path(url).0;
    let segs = latency_segments(url);
    match find_latency_endpoint(segs, 0) {
        Some(j) => trim_end_slashes(host + join_slash(segs.take(j))),
        None => trim_end_slashes(host),
    }
}

/// The API a URL calls.
pub fn get_api_from_url(url: &str) -> (r: String)
    ensures
        r@ == spec_api_from_url(url@),
{
    let (host, _, segments) = latency_parts(url);
    proof {
        lemma_find_latency_endpoint(views(segments@), 0);
    }
    match get_version_and_endpoint_for_latency(&segments) {
        Some(v) => {
            let suffix = join_slash_prefix(&segments, v + 1);
            let joined = with_host_prefix(&host, &suffix);
            chars_to_string(&trim_end_slashes_exec(&joined))
        },
        None => chars_to_string(&trim_end_slashes_exec(&host)),
    }
}

/// The shutdown flag a request obeys: the one it carries, when it carries one; the client's
/// otherwise.
pub fn request_shutdown_flag<F>(per_request: Option<F>, client: F) -> (r: F)
    ensures
        r == (match per_request {
            Some(f) => f,
            None => client,
        }),
{
    match per_request {
        Some(f) => f,
        None => client,
    }
}

} // verus!
