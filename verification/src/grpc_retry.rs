use vstd::prelude::*;
use vstd::string::{StrSliceExecFns, StringExecFns};
use vstd::utf8::encode_utf8;

use crate::http_types::ResponseData;
use crate::specs_adapter::{SpecsSource, SpecsUpdate};

verus! {

/// Wait before the first reconnection of a failed specs stream.
pub const DEFAULT_BACKOFF_INTERVAL_MS: u64 = 3000;

/// Factor the wait grows by after each failure.
pub const DEFAULT_BACKOFF_MULTIPLIER: u64 = 2;

/// Longest wait between reconnections.
pub const MAX_BACKOFF_INTERVAL_MS: u64 = 60000;

/// Failures after which the stream is given up.
pub const RETRY_LIMIT: u64 = 864000;

/// Failure count at which polling over HTTP starts alongside the reconnections.
pub const FALL_BACK_TO_POLLING_THRESHOLD: u64 = 30;

/// Reconnection bookkeeping of a streaming specs connection.
pub struct StreamingRetryState {
    pub retry_attempts: u64,
    pub backoff_interval_ms: u64,
    pub is_retrying: bool,
}

/// What follows a failure of the specs stream.
#[derive(Debug, Clone, Copy, PartialEq, Eq, Structural)]
pub enum StreamFailureStep {
    /// Too many failures: stop streaming.
    GiveUp,
    /// Wait `sleep_ms` and reconnect, starting HTTP polling first when `start_polling`.
    Retry { attempt: u64, sleep_ms: u64, start_polling: bool },
}

/// The next wait: doubled up to the maximum, the maximum once reached.
pub open spec fn next_backoff(curr: u64) -> u64 {
    if curr < MAX_BACKOFF_INTERVAL_MS {
        if curr * DEFAULT_BACKOFF_MULTIPLIER < MAX_BACKOFF_INTERVAL_MS {
            (curr * DEFAULT_BACKOFF_MULTIPLIER) as u64
        } else {
            MAX_BACKOFF_INTERVAL_MS
        }
    } else {
        MAX_BACKOFF_INTERVAL_MS
    }
}

impl StreamingRetryState {
    /// No failure yet.
    pub fn new() -> (r: Self)
        ensures
            r.retry_attempts == 0,
            r.backoff_interval_ms == DEFAULT_BACKOFF_INTERVAL_MS,
            !r.is_retrying,
    {
        StreamingRetryState {
            retry_attempts: 0,
            backoff_interval_ms: DEFAULT_BACKOFF_INTERVAL_MS,
            is_retrying: false,
        }
    }

    /// Counts a stream failure. Past the retry limit the stream is given up; otherwise the
    /// caller waits the current backoff and reconnects (starting HTTP polling at the fallback
    /// threshold), and the next backoff doubles, up to the maximum.
    pub fn on_stream_failure(&mut self) -> (r: StreamFailureStep)
        requires
            old(self).retry_attempts < u64::MAX,
        ensures
            final(self).retry_attempts == old(self).retry_attempts + 1,
            old(self).retry_attempts > RETRY_LIMIT ==> r == StreamFailureStep::GiveUp
                && final(self).backoff_interval_ms == old(self).backoff_interval_ms
                && final(self).is_retrying == old(self).is_retrying,
            old(self).retry_attempts <= RETRY_LIMIT ==> r == (StreamFailureStep::Retry {
                attempt: old(self).retry_attempts,
                sleep_ms: old(self).backoff_interval_ms,
                start_polling: old(self).retry_attempts == FALL_BACK_TO_POLLING_THRESHOLD,
            }) && final(self).backoff_interval_ms == next_backoff(old(self).backoff_interval_ms)
                && final(self).is_retrying,
    {
        let attempt = self.retry_attempts;
        self.retry_attempts = attempt + 1;
        if attempt > RETRY_LIMIT {
            return StreamFailureStep::GiveUp;
        }
        let curr = self.backoff_interval_ms;
        let new_backoff = if curr < MAX_BACKOFF_INTERVAL_MS {
            let doubled = curr * DEFAULT_BACKOFF_MULTIPLIER;
            if doubled < MAX_BACKOFF_INTERVAL_MS {
                doubled
            } else {
                MAX_BACKOFF_INTERVAL_MS
            }
        } else {
            MAX_BACKOFF_INTERVAL_MS
        };
        self.backoff_interval_ms = new_backoff;
        self.is_retrying = true;
        StreamFailureStep::Retry {
            attempt,
            sleep_ms: curr,
            start_polling: attempt == FALL_BACK_TO_POLLING_THRESHOLD,
        }
    }

    /// Records a message received on the stream: a stream that was being retried is back,
    /// and the bookkeeping starts over. The result tells whether it had been retrying.
    pub fn on_message(&mut self) -> (r: bool)
        ensures
            r == old(self).is_retrying,
            r ==> final(self).retry_attempts == 0 && final(self).backoff_interval_ms
                == DEFAULT_BACKOFF_INTERVAL_MS && !final(self).is_retrying,
            !r ==> *final(self) == *old(self),
    {
        if self.is_retrying {
            self.is_retrying = false;
            self.retry_attempts = 0;
            self.backoff_interval_ms = DEFAULT_BACKOFF_INTERVAL_MS;
            true
        } else {
            false
        }
    }
}

/// The wait between reconnections never passes the maximum, and never shrinks below the one
/// before while it is under the maximum.
pub proof fn lemma_backoff_bounded(curr: u64)
    ensures
        next_backoff(curr) <= MAX_BACKOFF_INTERVAL_MS,
        curr <= MAX_BACKOFF_INTERVAL_MS ==> curr <= next_backoff(curr),
{
}

/// The update made of a specs message received on the stream.
pub fn grpc_specs_update(data: String, received_at: u64) -> (u: SpecsUpdate)
    ensures
        u.data.body() == encode_utf8(data@),
        u.data.header_pairs() is None,
        u.source matches SpecsSource::Adapter(n) && n@ == "GRPC"@,
        u.received_at == received_at,
        u.source_api is None,
{
    let bytes = data.as_str().as_bytes_vec();
    SpecsUpdate {
        data: ResponseData::from_bytes(bytes),
        source: SpecsSource::Adapter(String::from_str("GRPC")),
        received_at,
        source_api: None,
    }
}

} // verus!
