use vstd::prelude::*;
use vstd::string::StringExecFns;
use vstd::utf8::{decode_utf8, valid_utf8};

use crate::marker::KeyType;
use crate::statsig_err::StatsigErr;
use crate::clock::now_millis;
use crate::text::{
    chars_eq, chars_to_string, decimal, decimal_string, extend_chars, str_eq_chars, str_to_chars,
};

verus! {

/// Where and how to reach an HTTP proxy.
#[derive(Debug, Clone)]
pub struct ProxyConfig {
    pub proxy_host: Option<String>,
    pub proxy_port: Option<u16>,
    pub proxy_auth: Option<String>,
    pub proxy_protocol: Option<String>,
}

/// A copy of an optional string.
fn copy_opt_string(o: &Option<String>) -> (r: Option<String>)
    ensures
        r == *o,
{
    match o {
        None => None,
        Some(s) => Some(s.clone()),
    }
}

impl ProxyConfig {
    /// A field-by-field copy of the configuration.
    pub fn copy_config(&self) -> (r: ProxyConfig)
        ensures
            r == *self,
    {
        ProxyConfig {
            proxy_host: copy_opt_string(&self.proxy_host),
            proxy_port: self.proxy_port,
            proxy_auth: copy_opt_string(&self.proxy_auth),
            proxy_protocol: copy_opt_string(&self.proxy_protocol),
        }
    }
}

/// HTTP request method.
#[derive(PartialEq, Eq, Structural, Clone, Copy, Debug)]
pub enum HttpMethod {
    GET,
    POST,
}

/// The character sequences of a list of name/value pairs.
pub open spec fn pairs_view(v: Seq<(String, String)>) -> Seq<(Seq<char>, Seq<char>)> {
    Seq::new(v.len(), |i: int| (v[i].0@, v[i].1@))
}

/// Everything a network provider needs to send one request.
#[derive(Clone)]
pub struct RequestArgs {
    pub url: String,
    pub body: Option<Vec<u8>>,
    /// One initial attempt plus this many retries.
    pub retries: u32,
    pub headers: Option<Vec<(String, String)>>,
    pub query_params: Option<Vec<(String, String)>>,
    pub deltas_enabled: bool,
    pub accept_gzip_response: bool,
    pub timeout_ms: u64,
    /// The flag that stops this request's retries, in place of the client's own.
    pub is_shutdown: Option<std::sync::Arc<std::sync::atomic::AtomicBool>>,
    pub diagnostics_key: Option<KeyType>,
    pub proxy_config: Option<ProxyConfig>,
    pub disable_file_streaming: Option<bool>,
    pub id_list_file_id: Option<String>,
}

/// The pairs an optional list holds.
pub open spec fn opt_pairs(v: Option<Vec<(String, String)>>) -> Option<Seq<(String, String)>> {
    match v {
        None => None,
        Some(v) => Some(v@),
    }
}

/// One `name=value` query parameter.
pub open spec fn query_entry(p: (Seq<char>, Seq<char>)) -> Seq<char> {
    p.0 + seq!['='] + p.1
}

/// Query parameters as `name=value` joined with `&`.
pub open spec fn query_string(ps: Seq<(Seq<char>, Seq<char>)>) -> Seq<char>
    decreases ps.len(),
{
    if ps.len() == 0 {
        Seq::empty()
    } else if ps.len() == 1 {
        query_entry(ps[0])
    } else {
        query_string(ps.drop_last()) + seq!['&'] + query_entry(ps.last())
    }
}

/// The URL followed by `?` and the query string, when there are parameters to add.
pub open spec fn spec_fully_qualified_url(url: Seq<char>, params: Option<Seq<(String, String)>>) -> Seq<char> {
    match params {
        None => url,
        Some(ps) => {
            let q = query_string(pairs_view(ps));
            if q.len() > 0 {
                url + seq!['?'] + q
            } else {
                url
            }
        },
    }
}

impl RequestArgs {
    /// Arguments for a request with no URL, body, headers or parameters, no retries and no
    /// timeout.
    pub fn new() -> (r: Self)
        ensures
            r.url@ == Seq::<char>::empty(),
            r.body is None,
            r.retries == 0,
            r.headers is None,
            r.query_params is None,
            !r.deltas_enabled,
            !r.accept_gzip_response,
            r.timeout_ms == 0,
            r.is_shutdown is None,
            r.diagnostics_key is None,
            r.proxy_config is None,
            r.disable_file_streaming is None,
            r.id_list_file_id is None,
    {
        RequestArgs {
            url: String::new(),
            body: None,
            retries: 0,
            headers: None,
            query_params: None,
            deltas_enabled: false,
            accept_gzip_response: false,
            timeout_ms: 0,
            is_shutdown: None,
            diagnostics_key: None,
            proxy_config: None,
            disable_file_streaming: None,
            id_list_file_id: None,
        }
    }

    /// The URL with the query parameters appended.
    pub fn get_fully_qualified_url(&self) -> (r: String)
        ensures
            r@ == spec_fully_qualified_url(self.url@, opt_pairs(self.query_params)),
    {
        let mut url = str_to_chars(self.url.as_str());
        match &self.query_params {
            None => chars_to_string(&url),
            Some(params) => {
                let mut q: Vec<char> = Vec::new();
                let mut i: usize = 0;
                while i < params.len()
                    invariant
                        i <= params.len(),
                        q@ == query_string(pairs_view(params@).take(i as int)),
                    decreases params.len() - i,
                {
                    let ghost before = q@;
                    if i > 0 {
                        q.push('&');
                    }
                    let k = str_to_chars(params[i].0.as_str());
                    let v = str_to_chars(params[i].1.as_str());
                    extend_chars(&mut q, &k);
                    q.push('=');
                    extend_chars(&mut q, &v);
                    proof {
                        let ps = pairs_view(params@);
                        assert(ps.take(i + 1).drop_last() =~= ps.take(i as int));
                        assert(ps.take(i + 1).last() == ps[i as int]);
                        if i == 0 {
                            assert(ps.take(1) =~= seq![ps[0]]);
                        }
                    }
                    i = i + 1;
                }
                assert(pairs_view(params@).take(params.len() as int) =~= pairs_view(params@));
                if q.len() > 0 {
                    url.push('?');
                    extend_chars(&mut url, &q);
                }
                chars_to_string(&url)
            },
        }
    }
}

/// The value of the first pair named `key`, from position `i` on.
pub open spec fn lookup_from(hs: Seq<(Seq<char>, Seq<char>)>, key: Seq<char>, i: int) -> Option<Seq<char>>
    decreases hs.len() - i,
{
    if i < 0 || i >= hs.len() {
        None
    } else if hs[i].0 == key {
        Some(hs[i].1)
    } else {
        lookup_from(hs, key, i + 1)
    }
}

/// The value of the first header named `key`.
pub open spec fn header_lookup(headers: Option<Seq<(String, String)>>, key: Seq<char>) -> Option<Seq<char>> {
    match headers {
        None => None,
        Some(hs) => lookup_from(pairs_view(hs), key, 0),
    }
}

/// The body of an HTTP response together with its headers.
pub struct ResponseData {
    bytes: Vec<u8>,
    headers: Option<Vec<(String, String)>>,
}

/// What a request produced: a status code, a body, or an error message.
pub struct Response {
    pub status_code: Option<u16>,
    pub data: Option<ResponseData>,
    pub error: Option<String>,
}

/// `String::from_utf8`: the string the bytes encode when they are valid UTF-8, otherwise the
/// text of the decoding error (of which nothing is claimed).
#[verifier::external_body]
pub(crate) fn string_from_utf8(bytes: Vec<u8>) -> (r: Result<String, String>)
    ensures
        r is Ok <==> valid_utf8(bytes@),
        r matches Ok(s) ==> s@ == decode_utf8(bytes@),
{
    String::from_utf8(bytes).map_err(|e| e.to_string())
}

/// A JSON whitespace byte.
pub open spec fn json_whitespace(b: u8) -> bool {
    b == 32 || b == 10 || b == 9 || b == 13
}

/// The literal `lit` starts at position `i` of the bytes, with only JSON whitespace before
/// and after it.
pub open spec fn json_literal_at(bytes: Seq<u8>, lit: Seq<u8>, i: int) -> bool {
    &&& 0 <= i
    &&& i + lit.len() <= bytes.len()
    &&& forall|k: int| 0 <= k < i ==> json_whitespace(#[trigger] bytes[k])
    &&& bytes.subrange(i, i + lit.len()) == lit
    &&& forall|k: int| i + lit.len() <= k < bytes.len() ==> json_whitespace(#[trigger] bytes[k])
}

/// The bytes hold exactly the literal `lit`, with only JSON whitespace around it.
pub open spec fn json_literal(bytes: Seq<u8>, lit: Seq<u8>) -> bool {
    exists|i: int| #[trigger] json_literal_at(bytes, lit, i)
}

/// The boolean a JSON document holds, when it is exactly `true` or `false` up to whitespace.
pub open spec fn spec_json_bool(bytes: Seq<u8>) -> Option<bool> {
    if json_literal(bytes, seq![116u8, 114u8, 117u8, 101u8]) {
        Some(true)
    } else if json_literal(bytes, seq![102u8, 97u8, 108u8, 115u8, 101u8]) {
        Some(false)
    } else {
        None
    }
}

/// The string a JSON document holds, as `serde_json` reads a `String` from it; `None` when the
/// document is not a single JSON string.
pub uninterp spec fn json_string_value(bytes: Seq<u8>) -> Option<Seq<char>>;

/// `serde_json::from_slice::<bool>`: the document is `true` or `false` with only JSON
/// whitespace (space, tab, line feed, carriage return) around it.
#[verifier::external_body]
fn json_bool_from_slice(bytes: &[u8]) -> (r: Result<bool, String>)
    ensures
        r is Ok <==> spec_json_bool(bytes@) is Some,
        r matches Ok(b) ==> spec_json_bool(bytes@) == Some(b),
{
    serde_json::from_slice::<bool>(bytes).map_err(|e| e.to_string())
}

/// `serde_json::from_slice::<String>`: the string value of a JSON string document.
#[verifier::external_body]
fn json_string_from_slice(bytes: &[u8]) -> (r: Result<String, String>)
    ensures
        r is Ok <==> json_string_value(bytes@) is Some,
        r matches Ok(s) ==> json_string_value(bytes@) == Some(s@),
{
    serde_json::from_slice::<String>(bytes).map_err(|e| e.to_string())
}

/// A value that can be read from a JSON document.
pub trait JsonValue: Sized {
    /// The document holds a value of this type.
    spec fn json_accepts(bytes: Seq<u8>) -> bool;

    /// The document holds exactly this value.
    spec fn json_holds(bytes: Seq<u8>, v: Self) -> bool;

    /// Reads the value from the document; the parser's message when it holds none.
    fn from_json_bytes(bytes: &[u8]) -> (r: Result<Self, String>)
        ensures
            r is Ok <==> Self::json_accepts(bytes@),
            r matches Ok(v) ==> Self::json_holds(bytes@, v),
    ;
}

impl JsonValue for bool {
    open spec fn json_accepts(bytes: Seq<u8>) -> bool {
        spec_json_bool(bytes) is Some
    }

    open spec fn json_holds(bytes: Seq<u8>, v: bool) -> bool {
        spec_json_bool(bytes) == Some(v)
    }

    fn from_json_bytes(bytes: &[u8]) -> (r: Result<bool, String>) {
        json_bool_from_slice(bytes)
    }
}

impl JsonValue for String {
    open spec fn json_accepts(bytes: Seq<u8>) -> bool {
        json_string_value(bytes) is Some
    }

    open spec fn json_holds(bytes: Seq<u8>, v: String) -> bool {
        json_string_value(bytes) == Some(v@)
    }

    fn from_json_bytes(bytes: &[u8]) -> (r: Result<String, String>) {
        json_string_from_slice(bytes)
    }
}

impl ResponseData {
    /// The bytes of the body.
    pub closed spec fn body(&self) -> Seq<u8> {
        self.bytes@
    }

    /// The headers of the response.
    pub closed spec fn header_pairs(&self) -> Option<Seq<(String, String)>> {
        opt_pairs(self.headers)
    }

    /// A response body without headers.
    pub fn from_bytes(bytes: Vec<u8>) -> (r: Self)
        ensures
            r.body() == bytes@,
            r.header_pairs() is None,
    {
        Self::from_bytes_with_headers(bytes, None)
    }

    /// A response body with the given headers.
    pub fn from_bytes_with_headers(bytes: Vec<u8>, headers: Option<Vec<(String, String)>>) -> (r: Self)
        ensures
            r.body() == bytes@,
            r.header_pairs() == opt_pairs(headers),
    {
        ResponseData { bytes, headers }
    }

    /// A response body holding the contents that were read from a stream.
    pub fn from_stream(contents: Vec<u8>) -> (r: Self)
        ensures
            r.body() == contents@,
            r.header_pairs() is None,
    {
        Self::from_stream_with_headers(contents, None)
    }

    /// A response body holding the contents read from a stream, with the given headers.
    pub fn from_stream_with_headers(contents: Vec<u8>, headers: Option<Vec<(String, String)>>) -> (r: Self)
        ensures
            r.body() == contents@,
            r.header_pairs() == opt_pairs(headers),
    {
        ResponseData { bytes: contents, headers }
    }

    /// The bytes of the body.
    pub fn get_stream_ref(&self) -> (r: &Vec<u8>)
        ensures
            r@ == self.body(),
    {
        &self.bytes
    }

    /// The bytes of the body, for changing them in place.
    pub fn get_stream_mut(&mut self) -> (r: &mut Vec<u8>)
        ensures
            r@ == old(self).body(),
            final(self).body() == final(r)@,
            final(self).header_pairs() == old(self).header_pairs(),
    {
        &mut self.bytes
    }

    /// The value of the first header named `key`.
    pub fn get_header_ref(&self, key: &str) -> (r: Option<&String>)
        ensures
            r is None <==> header_lookup(self.header_pairs(), key@) is None,
            r matches Some(v) ==> header_lookup(self.header_pairs(), key@) == Some(v@),
    {
        if self.headers.is_none() {
            return None;
        }
        let headers = self.headers.as_ref().unwrap();
        let k = str_to_chars(key);
        let mut i: usize = 0;
        while i < headers.len()
            invariant
                i <= headers.len(),
                k@ == key@,
                self.header_pairs() == Some(headers@),
                lookup_from(pairs_view(headers@), key@, 0) == lookup_from(
                    pairs_view(headers@),
                    key@,
                    i as int,
                ),
            decreases headers.len() - i,
        {
            let name = str_to_chars(headers[i].0.as_str());
            proof {
                let ps = pairs_view(headers@);
                assert(ps[i as int] == (headers@[i as int].0@, headers@[i as int].1@));
            }
            if chars_eq(&name, &k) {
                assert(self.header_pairs() == Some(headers@));
                return Some(&headers[i].1);
            }
            i = i + 1;
        }
        None
    }

    /// The body as text: the string it encodes when it is valid UTF-8, otherwise a JSON parse
    /// error tagged `ResponseData`.
    pub fn read_to_string(&self) -> (r: Result<String, StatsigErr>)
        ensures
            r is Ok <==> valid_utf8(self.body()),
            r matches Ok(s) ==> s@ == decode_utf8(self.body()),
            r matches Err(e) ==> e matches StatsigErr::JsonParseError(tag, _) && tag@
                == "ResponseData"@,
    {
        let buf = self.bytes.clone();
        match string_from_utf8(buf) {
            Ok(s) => Ok(s),
            Err(msg) => Err(StatsigErr::JsonParseError(String::from_str("ResponseData"), msg)),
        }
    }

    /// Reads the body as a JSON document holding a value of type `T` into `place`; a JSON
    /// parse error tagged `ResponseData`, with `place` left as it was, when it does not hold
    /// one.
    pub fn deserialize_in_place<T: JsonValue>(&self, place: &mut T) -> (r: Result<(), StatsigErr>)
        ensures
            r is Ok <==> T::json_accepts(self.body()),
            r is Ok ==> T::json_holds(self.body(), *final(place)),
            r is Err ==> *final(place) == *old(place),
            r matches Err(e) ==> e matches StatsigErr::JsonParseError(tag, _) && tag@
                == "ResponseData"@,
    {
        match T::from_json_bytes(self.bytes.as_slice()) {
            Ok(v) => {
                *place = v;
                Ok(())
            },
            Err(msg) => Err(StatsigErr::JsonParseError(String::from_str("ResponseData"), msg)),
        }
    }

    /// Reads the body as a JSON document holding a value of type `T`; a JSON parse error
    /// tagged `ResponseData` when it does not hold one.
    pub fn deserialize_into<T: JsonValue>(&self) -> (r: Result<T, StatsigErr>)
        ensures
            r is Ok <==> T::json_accepts(self.body()),
            r matches Ok(v) ==> T::json_holds(self.body(), v),
            r matches Err(e) ==> e matches StatsigErr::JsonParseError(tag, _) && tag@
                == "ResponseData"@,
    {
        match T::from_json_bytes(self.bytes.as_slice()) {
            Ok(v) => Ok(v),
            Err(msg) => Err(StatsigErr::JsonParseError(String::from_str("ResponseData"), msg)),
        }
    }
}

/// Position of the first pair named `key`, from position `i` on.
pub open spec fn index_of_key(hs: Seq<(Seq<char>, Seq<char>)>, key: Seq<char>, i: int) -> Option<int>
    decreases hs.len() - i,
{
    if i < 0 || i >= hs.len() {
        None
    } else if hs[i].0 == key {
        Some(i)
    } else {
        index_of_key(hs, key, i + 1)
    }
}

/// Map insertion on a list of pairs: the value of the first pair named `key` is replaced, or
/// the pair is appended when there is none.
pub open spec fn spec_insert_pair(hs: Seq<(Seq<char>, Seq<char>)>, key: Seq<char>, value: Seq<char>) -> Seq<
    (Seq<char>, Seq<char>),
> {
    match index_of_key(hs, key, 0) {
        Some(i) => hs.update(i, (key, value)),
        None => hs.push((key, value)),
    }
}

/// Map extension: each pair of `extra` inserted in turn.
pub open spec fn spec_extend_pairs(hs: Seq<(Seq<char>, Seq<char>)>, extra: Seq<(Seq<char>, Seq<char>)>) -> Seq<
    (Seq<char>, Seq<char>),
>
    decreases extra.len(),
{
    if extra.len() == 0 {
        hs
    } else {
        let prev = spec_extend_pairs(hs, extra.drop_last());
        spec_insert_pair(prev, extra.last().0, extra.last().1)
    }
}

/// The position found is a pair named `key` at or after `i`; when none is found, no pair from
/// `i` on is named `key`.
proof fn lemma_index_of_key(hs: Seq<(Seq<char>, Seq<char>)>, key: Seq<char>, i: int)
    requires
        0 <= i,
    ensures
        index_of_key(hs, key, i) matches Some(j) ==> i <= j < hs.len() && hs[j].0 == key,
        index_of_key(hs, key, i) is None ==> forall|m: int|
            i <= m < hs.len() ==> (#[trigger] hs[m]).0 != key,
    decreases hs.len() - i,
{
    if i < hs.len() && hs[i].0 != key {
        lemma_index_of_key(hs, key, i + 1);
    }
}

/// Lookups from `i` on read only the pairs from `i` on.
proof fn lemma_lookup_from_agree(
    a: Seq<(Seq<char>, Seq<char>)>,
    b: Seq<(Seq<char>, Seq<char>)>,
    key: Seq<char>,
    i: int,
)
    requires
        0 <= i,
        a.len() == b.len(),
        forall|m: int| i <= m < a.len() ==> a[m] == b[m],
    ensures
        lookup_from(a, key, i) == lookup_from(b, key, i),
    decreases a.len() - i,
{
    if i < a.len() {
        lemma_lookup_from_agree(a, b, key, i + 1);
    }
}

/// Insertion seen from position `i`, when no earlier pair is named `key`.
proof fn lemma_insert_lookup_from(
    hs: Seq<(Seq<char>, Seq<char>)>,
    key: Seq<char>,
    value: Seq<char>,
    other: Seq<char>,
    i: int,
)
    requires
        0 <= i <= hs.len(),
        index_of_key(hs, key, i) == index_of_key(hs, key, 0),
    ensures
        lookup_from(spec_insert_pair(hs, key, value), key, i) == Some(value),
        other != key ==> lookup_from(spec_insert_pair(hs, key, value), other, i) == lookup_from(
            hs,
            other,
            i,
        ),
    decreases hs.len() - i,
{
    let ins = spec_insert_pair(hs, key, value);
    lemma_index_of_key(hs, key, i);
    match index_of_key(hs, key, 0) {
        Some(j) => {
            if i == j {
                if other != key {
                    lemma_lookup_from_agree(ins, hs, other, i + 1);
                }
            } else {
                assert(hs[i].0 != key);
                lemma_insert_lookup_from(hs, key, value, other, i + 1);
            }
        },
        None => {
            if i < hs.len() {
                assert(hs[i].0 != key);
                lemma_insert_lookup_from(hs, key, value, other, i + 1);
            }
        },
    }
}

/// After inserting a pair, a lookup of its name gives its value, and a lookup of any other
/// name gives what it gave before.
pub proof fn lemma_insert_pair_lookup(
    hs: Seq<(Seq<char>, Seq<char>)>,
    key: Seq<char>,
    value: Seq<char>,
    other: Seq<char>,
)
    ensures
        lookup_from(spec_insert_pair(hs, key, value), key, 0) == Some(value),
        other != key ==> lookup_from(spec_insert_pair(hs, key, value), other, 0) == lookup_from(
            hs,
            other,
            0,
        ),
{
    lemma_insert_lookup_from(hs, key, value, other, 0);
}

/// No two pairs of the list share a name: the list is a map.
pub open spec fn keys_unique(hs: Seq<(Seq<char>, Seq<char>)>) -> bool {
    forall|i: int, j: int| 0 <= i < j < hs.len() ==> (#[trigger] hs[i]).0 != (#[trigger] hs[j]).0
}

/// An optional list of pairs is absent or names each entry once.
pub open spec fn opt_keys_unique(o: Option<Seq<(String, String)>>) -> bool {
    match o {
        None => true,
        Some(hs) => keys_unique(pairs_view(hs)),
    }
}

/// In a list of pairs whose names are unique, looking a name up gives the value of the one
/// pair that carries it, wherever that pair stands.
pub proof fn lemma_unique_lookup(hs: Seq<(Seq<char>, Seq<char>)>, j: int)
    requires
        keys_unique(hs),
        0 <= j < hs.len(),
    ensures
        lookup_from(hs, hs[j].0, 0) == Some(hs[j].1),
{
    lemma_unique_lookup_from(hs, j, 0);
}

/// Looking up from `i` at or before `j` finds the pair at `j` when names are unique.
proof fn lemma_unique_lookup_from(hs: Seq<(Seq<char>, Seq<char>)>, j: int, i: int)
    requires
        keys_unique(hs),
        0 <= i <= j < hs.len(),
    ensures
        lookup_from(hs, hs[j].0, i) == Some(hs[j].1),
    decreases j - i,
{
    if i < j {
        assert(hs[i].0 != hs[j].0);
        lemma_unique_lookup_from(hs, j, i + 1);
    }
}

/// Insertion keeps a list of pairs a map: names stay unique.
pub proof fn lemma_insert_pair_unique(hs: Seq<(Seq<char>, Seq<char>)>, key: Seq<char>, value: Seq<char>)
    requires
        keys_unique(hs),
    ensures
        keys_unique(spec_insert_pair(hs, key, value)),
{
    lemma_index_of_key(hs, key, 0);
    let ins = spec_insert_pair(hs, key, value);
    assert forall|i: int, j: int| 0 <= i < j < ins.len() implies (#[trigger] ins[i]).0 != (
    #[trigger] ins[j]).0 by {
        match index_of_key(hs, key, 0) {
            Some(m) => {
                if i != m && j != m {
                    assert(ins[i] == hs[i] && ins[j] == hs[j]);
                } else if i == m {
                    assert(ins[j] == hs[j]);
                    assert(hs[i].0 == key);
                } else {
                    assert(ins[i] == hs[i]);
                    assert(hs[j].0 == key);
                }
            },
            None => {
                if j == hs.len() {
                    assert(ins[i] == hs[i]);
                } else {
                    assert(ins[i] == hs[i] && ins[j] == hs[j]);
                }
            },
        }
    }
}

/// Extension keeps a list of pairs a map: names stay unique.
pub proof fn lemma_extend_pairs_unique(hs: Seq<(Seq<char>, Seq<char>)>, extra: Seq<(Seq<char>, Seq<char>)>)
    requires
        keys_unique(hs),
    ensures
        keys_unique(spec_extend_pairs(hs, extra)),
    decreases extra.len(),
{
    if extra.len() > 0 {
        lemma_extend_pairs_unique(hs, extra.drop_last());
        lemma_insert_pair_unique(spec_extend_pairs(hs, extra.drop_last()), extra.last().0, extra.last().1);
    }
}

/// A copy of a list of name/value pairs.
pub fn clone_pairs(v: &Vec<(String, String)>) -> (r: Vec<(String, String)>)
    ensures
        r@ == v@,
{
    let mut r: Vec<(String, String)> = Vec::new();
    let mut i: usize = 0;
    while i < v.len()
        invariant
            i <= v.len(),
            r@ == v@.take(i as int),
        decreases v.len() - i,
    {
        let k = v[i].0.clone();
        let val = v[i].1.clone();
        r.push((k, val));
        assert(v@.take(i + 1) =~= v@.take(i as int).push(v@[i as int]));
        i = i + 1;
    }
    assert(v@.take(v.len() as int) =~= v@);
    r
}

/// Inserts a pair into a list of name/value pairs used as a map.
pub fn insert_pair(headers: &mut Vec<(String, String)>, key: String, value: String)
    ensures
        pairs_view(final(headers)@) == spec_insert_pair(pairs_view(old(headers)@), key@, value@),
        keys_unique(pairs_view(old(headers)@)) ==> keys_unique(pairs_view(final(headers)@)),
{
    proof {
        if keys_unique(pairs_view(headers@)) {
            lemma_insert_pair_unique(pairs_view(headers@), key@, value@);
        }
    }
    let ghost hs = pairs_view(headers@);
    let k = str_to_chars(key.as_str());
    let mut i: usize = 0;
    while i < headers.len()
        invariant
            i <= headers.len(),
            hs == pairs_view(headers@),
            hs == pairs_view(old(headers)@),
            k@ == key@,
            index_of_key(hs, key@, 0) == index_of_key(hs, key@, i as int),
        decreases headers.len() - i,
    {
        assert(hs[i as int] == (headers@[i as int].0@, headers@[i as int].1@));
        if str_eq_chars(headers[i].0.as_str(), &k) {
            assert(index_of_key(hs, key@, i as int) == Some(i as int));
            headers.set(i, (key, value));
            assert(pairs_view(headers@) =~= hs.update(i as int, (key@, value@)));
            return;
        }
        i = i + 1;
    }
    headers.push((key, value));
    assert(pairs_view(headers@) =~= hs.push((key@, value@)));
}

/// Inserts each pair of `extra` in turn.
pub fn extend_pairs(headers: &mut Vec<(String, String)>, extra: &Vec<(String, String)>)
    ensures
        pairs_view(final(headers)@) == spec_extend_pairs(pairs_view(old(headers)@), pairs_view(extra@)),
        keys_unique(pairs_view(old(headers)@)) ==> keys_unique(pairs_view(final(headers)@)),
{
    proof {
        if keys_unique(pairs_view(headers@)) {
            lemma_extend_pairs_unique(pairs_view(headers@), pairs_view(extra@));
        }
    }
    let ghost start = pairs_view(headers@);
    let mut i: usize = 0;
    assert(pairs_view(extra@).take(0) =~= Seq::<(Seq<char>, Seq<char>)>::empty());
    while i < extra.len()
        invariant
            i <= extra.len(),
            pairs_view(headers@) == spec_extend_pairs(start, pairs_view(extra@).take(i as int)),
        decreases extra.len() - i,
    {
        let k = extra[i].0.clone();
        let v = extra[i].1.clone();
        insert_pair(headers, k, v);
        proof {
            let ex = pairs_view(extra@);
            assert(ex.take(i + 1).drop_last() =~= ex.take(i as int));
            assert(ex.take(i + 1).last() == ex[i as int]);
        }
        i = i + 1;
    }
    assert(pairs_view(extra@).take(extra.len() as int) =~= pairs_view(extra@));
}

/// Name of the header that carries the client's clock.
pub open spec fn client_time_header() -> Seq<char> {
    "STATSIG-CLIENT-TIME"@
}

/// The headers after `populate_headers`: the request's own headers (none counts as empty),
/// extended with `extra` and the client time.
pub open spec fn spec_populated_headers(
    own: Option<Seq<(String, String)>>,
    extra: Seq<(String, String)>,
    now_ms: u64,
) -> Seq<(Seq<char>, Seq<char>)> {
    let added = spec_insert_pair(
        spec_extend_pairs(Seq::empty(), pairs_view(extra)),
        client_time_header(),
        decimal(now_ms as nat),
    );
    match own {
        None => added,
        Some(hs) => spec_extend_pairs(pairs_view(hs), added),
    }
}

impl RequestArgs {
    /// Adds `extra_headers` and the client time `now_ms` to the request's headers.
    pub fn populate_headers_at(&mut self, extra_headers: Vec<(String, String)>, now_ms: u64)
        ensures
            final(self).headers is Some,
            pairs_view(final(self).headers->0@) == spec_populated_headers(
                opt_pairs(old(self).headers),
                extra_headers@,
                now_ms,
            ),
            final(self).url == old(self).url,
            final(self).body == old(self).body,
            final(self).retries == old(self).retries,
            final(self).query_params == old(self).query_params,
            final(self).deltas_enabled == old(self).deltas_enabled,
            final(self).accept_gzip_response == old(self).accept_gzip_response,
            final(self).timeout_ms == old(self).timeout_ms,
            final(self).is_shutdown == old(self).is_shutdown,
            final(self).diagnostics_key == old(self).diagnostics_key,
            final(self).proxy_config == old(self).proxy_config,
            final(self).disable_file_streaming == old(self).disable_file_streaming,
            final(self).id_list_file_id == old(self).id_list_file_id,
    {
        let mut added: Vec<(String, String)> = Vec::new();
        assert(pairs_view(added@) =~= Seq::<(Seq<char>, Seq<char>)>::empty());
        extend_pairs(&mut added, &extra_headers);
        let time = decimal_string(now_ms);
        insert_pair(&mut added, String::from_str("STATSIG-CLIENT-TIME"), time);
        match self.headers.take() {
            None => {
                self.headers = Some(added);
            },
            Some(mut own) => {
                extend_pairs(&mut own, &added);
                self.headers = Some(own);
            },
        }
    }

    /// Adds `extra_headers` and the current client time to the request's headers.
    pub fn populate_headers(&mut self, extra_headers: Vec<(String, String)>)
        ensures
            final(self).headers is Some,
            exists|now_ms: u64|
                pairs_view(final(self).headers->0@) == spec_populated_headers(
                    opt_pairs(old(self).headers),
                    extra_headers@,
                    now_ms,
                ),
            final(self).url == old(self).url,
            final(self).query_params == old(self).query_params,
    {
        let now = now_millis();
        self.populate_headers_at(extra_headers, now);
    }
}

} // verus!
