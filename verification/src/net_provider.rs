use vstd::prelude::*;
use vstd::string::StringExecFns;

use crate::http_types::{ProxyConfig, RequestArgs, Response};
use crate::text::{chars_to_string, decimal, decimal_chars, extend_chars, extend_range, extend_str, str_to_chars};

verus! {

/// The URL of a configured proxy: `<protocol>://<host>:<port>`, `http` when no protocol is
/// given; none unless both host and port are given.
pub open spec fn spec_proxy_url(c: ProxyConfig) -> Option<Seq<char>> {
    match (c.proxy_host, c.proxy_port) {
        (Some(host), Some(port)) => Some(
            (match c.proxy_protocol {
                Some(p) => p@,
                None => "http"@,
            }) + "://"@ + host@ + seq![':'] + decimal(port as nat),
        ),
        _ => None,
    }
}

/// The URL of a configured proxy.
pub fn proxy_url(config: &ProxyConfig) -> (r: Option<String>)
    ensures
        match spec_proxy_url(*config) {
            Some(u) => r matches Some(s) && s@ == u,
            None => r is None,
        },
{
    let host = match &config.proxy_host {
        Some(h) => h,
        None => return None,
    };
    let port = match config.proxy_port {
        Some(p) => p,
        None => return None,
    };
    let mut out: Vec<char> = Vec::new();
    match &config.proxy_protocol {
        Some(p) => extend_str(&mut out, p.as_str()),
        None => extend_str(&mut out, "http"),
    }
    extend_str(&mut out, "://");
    extend_str(&mut out, host.as_str());
    out.push(':');
    let digits = decimal_chars(port as u64);
    extend_chars(&mut out, &digits);
    Some(chars_to_string(&out))
}

/// The user name and password of a proxy's `username:password` credentials, split at the
/// first colon; none without a colon.
pub open spec fn spec_split_credentials(auth: Seq<char>) -> Option<(Seq<char>, Seq<char>)> {
    match crate::text::find_from(auth, seq![':'], 0) {
        Some(i) => Some((auth.take(i), auth.skip(i + 1))),
        None => None,
    }
}

/// Splits proxy credentials into user name and password.
pub fn split_credentials(auth: &str) -> (r: Option<(String, String)>)
    ensures
        match spec_split_credentials(auth@) {
            Some((u, p)) => r matches Some((a, b)) && a@ == u && b@ == p,
            None => r is None,
        },
{
    let chars = str_to_chars(auth);
    let colon = vec![':'];
    assert(colon@ == seq![':']);
    match crate::text::find_from_exec(&chars, &colon, 0) {
        Some(i) => {
            let mut user: Vec<char> = Vec::new();
            extend_range(&mut user, &chars, 0, i);
            let mut pass: Vec<char> = Vec::new();
            extend_range(&mut pass, &chars, i + 1, chars.len());
            assert(chars@.subrange(0, i as int) == chars@.take(i as int));
            assert(chars@.subrange(i + 1, chars.len() as int) == chars@.skip(i + 1));
            Some((chars_to_string(&user), chars_to_string(&pass)))
        },
        None => None,
    }
}

/// Time allowed for a request: its own timeout, or ten seconds when it sets none.
pub fn request_timeout_ms(args: &RequestArgs) -> (r: u64)
    ensures
        r == (if args.timeout_ms > 0 {
            args.timeout_ms
        } else {
            10_000
        }),
{
    if args.timeout_ms > 0 {
        args.timeout_ms
    } else {
        10_000
    }
}

/// A transport error's message with the URL and status it names, when it names them.
pub open spec fn spec_transport_error_message(
    base: Seq<char>,
    url: Option<Seq<char>>,
    status: Option<Seq<char>>,
) -> Seq<char> {
    let with_url = match url {
        Some(u) => base + ". URL: "@ + u,
        None => base,
    };
    match status {
        Some(s) => with_url + ". Status: "@ + s,
        None => with_url,
    }
}

/// Builds a transport error's message.
pub fn transport_error_message(base: String, url: Option<String>, status: Option<String>) -> (r: String)
    ensures
        r@ == spec_transport_error_message(
            base@,
            match url {
                Some(u) => Some(u@),
                None => None,
            },
            match status {
                Some(s) => Some(s@),
                None => None,
            },
        ),
{
    let mut out = str_to_chars(base.as_str());
    match &url {
        Some(u) => {
            extend_str(&mut out, ". URL: ");
            extend_str(&mut out, u.as_str());
        },
        None => {},
    }
    match &status {
        Some(s) => {
            extend_str(&mut out, ". Status: ");
            extend_str(&mut out, s.as_str());
        },
        None => {},
    }
    chars_to_string(&out)
}

/// A provider that sends nothing, used when no network provider is set.
pub struct NetworkProviderNoop;

impl NetworkProviderNoop {
    /// The answer to every request: no status, no body, and the error
    /// `No Network Provider Set`.
    pub fn send(&self) -> (r: Response)
        ensures
            r.status_code is None,
            r.data is None,
            r.error matches Some(e) && e@ == "No Network Provider Set"@,
    {
        Response { status_code: None, data: None, error: Some(String::from_str("No Network Provider Set")) }
    }
}

} // verus!
