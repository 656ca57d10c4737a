use vstd::prelude::*;
use vstd::string::StringExecFns;

use crate::http_types::pairs_view;
use crate::network_client::{bool_text, get_api_from_url, spec_api_from_url};
use crate::text::str_eq_chars;

verus! {

/// The `source_api` tag of a sync: `datastore` as it is, the API of a URL otherwise.
pub open spec fn spec_source_api_tag(source_api: Seq<char>) -> Seq<char> {
    if source_api == "datastore"@ {
        source_api
    } else {
        spec_api_from_url(source_api)
    }
}

/// `true` or `false` as a string.
fn bool_string(b: bool) -> (r: String)
    ensures
        r@ == bool_text(b),
{
    if b {
        String::from_str("true")
    } else {
        String::from_str("false")
    }
}

/// The tags of the overall config-sync latency metric: where the specs came from, their
/// format, the error (empty on success), whether the network and the processing succeeded,
/// and whether deltas were used.
pub fn config_sync_overall_tags(
    source_api: &str,
    response_format: &str,
    network_success: bool,
    process_success: bool,
    error: String,
    deltas_used: bool,
) -> (r: Vec<(String, String)>)
    ensures
        pairs_view(r@) == seq![
            ("source_api"@, spec_source_api_tag(source_api@)),
            ("format"@, response_format@),
            ("error"@, error@),
            ("network_success"@, bool_text(network_success)),
            ("process_success"@, bool_text(process_success)),
            ("deltas_used"@, bool_text(deltas_used)),
        ],
{
    let datastore: Vec<char> = vec!['d', 'a', 't', 'a', 's', 't', 'o', 'r', 'e'];
    proof {
        reveal_strlit("datastore");
        assert(datastore@ =~= "datastore"@);
    }
    let api = if str_eq_chars(source_api, &datastore) {
        String::from_str(source_api)
    } else {
        get_api_from_url(source_api)
    };
    let mut tags: Vec<(String, String)> = Vec::new();
    tags.push((String::from_str("source_api"), api));
    tags.push((String::from_str("format"), String::from_str(response_format)));
    tags.push((String::from_str("error"), error));
    tags.push((String::from_str("network_success"), bool_string(network_success)));
    tags.push((String::from_str("process_success"), bool_string(process_success)));
    tags.push((String::from_str("deltas_used"), bool_string(deltas_used)));
    assert(pairs_view(tags@) =~= seq![
        ("source_api"@, spec_source_api_tag(source_api@)),
        ("format"@, response_format@),
        ("error"@, error@),
        ("network_success"@, bool_text(network_success)),
        ("process_success"@, bool_text(process_success)),
        ("deltas_used"@, bool_text(deltas_used)),
    ]);
    tags
}

/// How long a sync took: the time since it started (zero when the clock went back).
pub fn sync_latency_ms(now_ms: u64, sync_start_ms: u64) -> (r: u64)
    ensures
        r == (if now_ms >= sync_start_ms {
            now_ms - sync_start_ms
        } else {
            0
        }),
{
    now_ms.saturating_sub(sync_start_ms)
}

} // verus!
