use vstd::prelude::*;

use crate::logging_utils::{sanitize_secret_key, spec_sanitize_secret_key};
use crate::text::{chars_to_string, decimal, decimal_chars, extend_chars, extend_str, str_to_chars};

verus! {

/// Why a network request failed. The first field is always the request URL.
#[derive(PartialEq, Eq, Debug, Clone)]
pub enum NetworkError {
    ShutdownError(String),
    DisableNetworkOn(String),
    SerializationError(String, String),
    RequestFailed(String, Option<u16>, String),
    RetriesExhausted(String, Option<u16>, u32, String),
    RequestNotRetryable(String, Option<u16>, String),
}

/// The variant name of a network error.
pub open spec fn spec_network_error_name(e: NetworkError) -> Seq<char> {
    match e {
        NetworkError::ShutdownError(_) => "ShutdownError"@,
        NetworkError::DisableNetworkOn(_) => "DisableNetworkOn"@,
        NetworkError::SerializationError(_, _) => "SerializationError"@,
        NetworkError::RequestFailed(_, _, _) => "RequestFailed"@,
        NetworkError::RetriesExhausted(_, _, _, _) => "RetriesExhausted"@,
        NetworkError::RequestNotRetryable(_, _, _) => "RequestNotRetryable"@,
    }
}

/// A status code as text, `None` when there was no response.
pub open spec fn status_display(status: Option<u16>) -> Seq<char> {
    match status {
        Some(code) => decimal(code as nat),
        None => "None"@,
    }
}

/// The text of a network error, with every SDK key in its URL and message sanitised.
pub open spec fn spec_network_error_display(e: NetworkError) -> Seq<char> {
    match e {
        NetworkError::ShutdownError(url) => "ShutdownError: "@ + spec_sanitize_secret_key(url@),
        NetworkError::DisableNetworkOn(url) => "DisableNetworkOn: "@ + spec_sanitize_secret_key(
            url@,
        ),
        NetworkError::SerializationError(url, s) => "SerializationError: "@
            + spec_sanitize_secret_key(url@) + " "@ + spec_sanitize_secret_key(s@),
        NetworkError::RequestFailed(url, status, m) => "RequestFailed: "@
            + spec_sanitize_secret_key(url@) + " "@ + status_display(status) + " "@
            + spec_sanitize_secret_key(m@),
        NetworkError::RetriesExhausted(url, status, attempts, m) => "RetriesExhausted: "@
            + spec_sanitize_secret_key(url@) + " status("@ + status_display(status)
            + ") attempts("@ + decimal(attempts as nat) + ") "@ + spec_sanitize_secret_key(m@),
        NetworkError::RequestNotRetryable(url, status, m) => "RequestNotRetryable: "@
            + spec_sanitize_secret_key(url@) + " status("@ + status_display(status) + ") "@
            + spec_sanitize_secret_key(m@),
    }
}

/// Appends a status code as text, `None` when there was no response.
fn extend_status(dst: &mut Vec<char>, status: Option<u16>)
    ensures
        final(dst)@ == old(dst)@ + status_display(status),
{
    match status {
        Some(code) => {
            let d = decimal_chars(code as u64);
            extend_chars(dst, &d);
        },
        None => extend_str(dst, "None"),
    }
}

/// Appends the sanitised form of a string.
fn extend_sanitized(dst: &mut Vec<char>, s: &String)
    ensures
        final(dst)@ == old(dst)@ + spec_sanitize_secret_key(s@),
{
    let clean = sanitize_secret_key(s.as_str());
    let v = str_to_chars(clean.as_str());
    extend_chars(dst, &v);
}

impl NetworkError {
    /// A field-by-field copy of the error.
    pub fn copy_err(&self) -> (r: NetworkError)
        ensures
            r == *self,
    {
        match self {
            NetworkError::ShutdownError(u) => NetworkError::ShutdownError(u.clone()),
            NetworkError::DisableNetworkOn(u) => NetworkError::DisableNetworkOn(u.clone()),
            NetworkError::SerializationError(u, m) => NetworkError::SerializationError(
                u.clone(),
                m.clone(),
            ),
            NetworkError::RequestFailed(u, s, m) => NetworkError::RequestFailed(
                u.clone(),
                *s,
                m.clone(),
            ),
            NetworkError::RetriesExhausted(u, s, a, m) => NetworkError::RetriesExhausted(
                u.clone(),
                *s,
                *a,
                m.clone(),
            ),
            NetworkError::RequestNotRetryable(u, s, m) => NetworkError::RequestNotRetryable(
                u.clone(),
                *s,
                m.clone(),
            ),
        }
    }

    /// The variant name of the error.
    pub fn name(&self) -> (r: &'static str)
        ensures
            r@ == spec_network_error_name(*self),
    {
        match self {
            NetworkError::ShutdownError(_) => "ShutdownError",
            NetworkError::DisableNetworkOn(_) => "DisableNetworkOn",
            NetworkError::SerializationError(_, _) => "SerializationError",
            NetworkError::RequestFailed(_, _, _) => "RequestFailed",
            NetworkError::RetriesExhausted(_, _, _, _) => "RetriesExhausted",
            NetworkError::RequestNotRetryable(_, _, _) => "RequestNotRetryable",
        }
    }

    /// The displayed text of the error; SDK keys in the URL and message are sanitised.
    pub fn to_display_string(&self) -> (r: String)
        ensures
            r@ == spec_network_error_display(*self),
    {
        let mut out: Vec<char> = Vec::new();
        match self {
            NetworkError::ShutdownError(url) => {
                extend_str(&mut out, "ShutdownError: ");
                extend_sanitized(&mut out, url);
            },
            NetworkError::DisableNetworkOn(url) => {
                extend_str(&mut out, "DisableNetworkOn: ");
                extend_sanitized(&mut out, url);
            },
            NetworkError::SerializationError(url, s) => {
                extend_str(&mut out, "SerializationError: ");
                extend_sanitized(&mut out, url);
                extend_str(&mut out, " ");
                extend_sanitized(&mut out, s);
            },
            NetworkError::RequestFailed(url, status, m) => {
                extend_str(&mut out, "RequestFailed: ");
                extend_sanitized(&mut out, url);
                extend_str(&mut out, " ");
                extend_status(&mut out, *status);
                extend_str(&mut out, " ");
                extend_sanitized(&mut out, m);
            },
            NetworkError::RetriesExhausted(url, status, attempts, m) => {
                extend_str(&mut out, "RetriesExhausted: ");
                extend_sanitized(&mut out, url);
                extend_str(&mut out, " status(");
                extend_status(&mut out, *status);
                extend_str(&mut out, ") attempts(");
                let a = decimal_chars(*attempts as u64);
                extend_chars(&mut out, &a);
                extend_str(&mut out, ") ");
                extend_sanitized(&mut out, m);
            },
            NetworkError::RequestNotRetryable(url, status, m) => {
                extend_str(&mut out, "RequestNotRetryable: ");
                extend_sanitized(&mut out, url);
                extend_str(&mut out, " status(");
                extend_status(&mut out, *status);
                extend_str(&mut out, ") ");
                extend_sanitized(&mut out, m);
            },
        }
        chars_to_string(&out)
    }
}

} // verus!
