use vstd::prelude::*;
use vstd::string::StringExecFns;

use crate::clock::now_millis;
use crate::http_types::{header_lookup, lookup_from, pairs_view, ResponseData};
use crate::specs_adapter::{
    get_specs_response_format, spec_is_response_protobuf, spec_response_format_str,
    spec_specs_response_format, SpecsResponseFormat, SpecsSource, SpecsUpdate, SpecsUpdateListener,
};
use crate::statsig_err::StatsigErr;
use crate::text::{contains_seq, matches_at};

verus! {

/// The headers that mark cached specs as brotli-compressed protobuf.
pub open spec fn protobuf_cache_headers() -> Seq<(Seq<char>, Seq<char>)> {
    seq![("content-type"@, "application/octet-stream"@), ("content-encoding"@, "statsig-br"@)]
}

/// Cached binary specs as a response carrying the protobuf headers.
pub fn binary_specs_response_data_from_bytes(bytes: Vec<u8>) -> (r: ResponseData)
    ensures
        r.body() == bytes@,
        r.header_pairs() matches Some(h) && pairs_view(h) == protobuf_cache_headers(),
{
    let mut headers: Vec<(String, String)> = Vec::new();
    headers.push((String::from_str("content-type"), String::from_str("application/octet-stream")));
    headers.push((String::from_str("content-encoding"), String::from_str("statsig-br")));
    assert(pairs_view(headers@) =~= protobuf_cache_headers());
    ResponseData::from_bytes_with_headers(bytes, Some(headers))
}

/// Cached specs as a response: with the protobuf headers when they were stored as binary,
/// as a plain body otherwise.
pub fn specs_response_data_from_cache(data: Vec<u8>, is_protobuf: bool) -> (r: ResponseData)
    ensures
        r.body() == data@,
        is_protobuf ==> (r.header_pairs() matches Some(h) && pairs_view(h) == protobuf_cache_headers()),
        !is_protobuf ==> r.header_pairs() is None,
{
    if is_protobuf {
        return binary_specs_response_data_from_bytes(data);
    }
    ResponseData::from_bytes(data)
}

/// A text contains itself.
proof fn lemma_contains_itself(s: Seq<char>)
    ensures
        contains_seq(s, s),
{
    assert(s.subrange(0, s.len() as int) =~= s);
    assert(matches_at(s, s, 0));
}

/// Specs cached as binary are read back as protobuf, and those cached as text are not.
pub proof fn lemma_binary_cache_reads_as_protobuf(headers: Option<Seq<(String, String)>>)
    requires
        headers matches Some(h) && pairs_view(h) == protobuf_cache_headers(),
    ensures
        spec_specs_response_format(headers) == SpecsResponseFormat::Protobuf,
{
    reveal_strlit("content-type");
    reveal_strlit("content-encoding");
    let hs = pairs_view(headers->0);
    assert(hs[0].0 == "content-type"@);
    assert(hs[1].0 == "content-encoding"@);
    assert(lookup_from(hs, "content-type"@, 0) == Some("application/octet-stream"@));
    assert("content-type"@ != "content-encoding"@) by {
        assert("content-type"@[8] != "content-encoding"@[8]);
    }
    assert(lookup_from(hs, "content-encoding"@, 1) == Some("statsig-br"@));
    assert(header_lookup(headers, "content-encoding"@) == Some("statsig-br"@));
    lemma_contains_itself("application/octet-stream"@);
    lemma_contains_itself("statsig-br"@);
    assert(spec_is_response_protobuf(headers));
}

/// The update made of cached specs: their bytes (none when nothing was cached), read as
/// protobuf when they were stored as binary, from the `DataStore` adapter and the
/// `datastore` API.
pub fn data_store_specs_update(cached: Option<Vec<u8>>, is_protobuf: bool, received_at: u64) -> (u: SpecsUpdate)
    ensures
        u.data.body() == (match cached {
            Some(b) => b@,
            None => Seq::<u8>::empty(),
        }),
        is_protobuf ==> (u.data.header_pairs() matches Some(h) && pairs_view(h) == protobuf_cache_headers()),
        !is_protobuf ==> u.data.header_pairs() is None,
        u.source matches SpecsSource::Adapter(n) && n@ == "DataStore"@,
        u.received_at == received_at,
        u.source_api matches Some(a) && a@ == "datastore"@,
{
    let bytes = match cached {
        Some(b) => b,
        None => Vec::new(),
    };
    SpecsUpdate {
        data: specs_response_data_from_cache(bytes, is_protobuf),
        source: SpecsSource::Adapter(String::from_str("DataStore")),
        received_at,
        source_api: Some(String::from_str("datastore")),
    }
}

/// Hands cached specs to the listener as an update from the data store, and reports the
/// format they were read as (`unknown` for specs cached as text without headers).
pub fn send_specs_update_to_listener<L: SpecsUpdateListener>(
    listener: &L,
    cached: Option<Vec<u8>>,
    is_protobuf: bool,
) -> (r: (Result<(), StatsigErr>, String))
    ensures
        r.1@ == spec_response_format_str(
            if is_protobuf {
                SpecsResponseFormat::Protobuf
            } else {
                SpecsResponseFormat::Unknown
            },
        ),
{
    let update = data_store_specs_update(cached, is_protobuf, now_millis());
    let response_format = get_specs_response_format(&update.data);
    proof {
        if is_protobuf {
            lemma_binary_cache_reads_as_protobuf(update.data.header_pairs());
        }
    }
    let result = listener.did_receive_specs_update(update);
    (result, String::from_str(response_format.as_str()))
}

} // verus!
