use vstd::prelude::*;
use vstd::string::{StrSliceExecFns, StringExecFns};
use vstd::utf8::encode_utf8;

use crate::clock::now_millis;
use crate::http_types::ResponseData;
use crate::specs_adapter::{SpecsSource, SpecsUpdate, SpecsUpdateListener};
use crate::statsig_err::StatsigErr;

verus! {

/// The update a bootstrap adapter hands its listener: the specs text as a JSON payload, from
/// the bootstrap source, without a source API.
pub open spec fn is_bootstrap_update(u: SpecsUpdate, data: Seq<char>, received_at: u64) -> bool {
    &&& u.data.body() == encode_utf8(data)
    &&& u.data.header_pairs() is None
    &&& u.source == SpecsSource::Bootstrap
    &&& u.received_at == received_at
    &&& u.source_api is None
}

/// Builds the update for a specs text received at `received_at`.
pub fn bootstrap_update(data: &String, received_at: u64) -> (u: SpecsUpdate)
    ensures
        is_bootstrap_update(u, data@, received_at),
{
    let bytes = data.as_str().as_bytes_vec();
    SpecsUpdate {
        data: ResponseData::from_bytes(bytes),
        source: SpecsSource::Bootstrap,
        received_at,
        source_api: None,
    }
}

/// Serves config specs given as text up front (and replaced by `set_data`).
pub struct StatsigBootstrapSpecsAdapter<L: SpecsUpdateListener> {
    pub data: String,
    pub listener: Option<L>,
}

/// The error for an adapter used before it was given a listener.
pub open spec fn is_listener_not_set(r: Result<(), StatsigErr>) -> bool {
    r matches Err(StatsigErr::UnstartedAdapter(m)) && m@ == "Listener not set"@
}

impl<L: SpecsUpdateListener> StatsigBootstrapSpecsAdapter<L> {
    /// An adapter for the given specs text, with no listener yet.
    pub fn new(data: String) -> (r: Self)
        ensures
            r.data == data,
            r.listener is None,
    {
        StatsigBootstrapSpecsAdapter { data, listener: None }
    }

    /// Sets the listener updates go to.
    pub fn initialize(&mut self, listener: L)
        ensures
            final(self).listener == Some(listener),
            final(self).data == old(self).data,
    {
        self.listener = Some(listener);
    }

    /// Hands the specs text to the listener; refused with `UnstartedAdapter` without one.
    pub fn push_update(&self) -> (r: Result<(), StatsigErr>)
        ensures
            self.listener is None ==> is_listener_not_set(r),
    {
        match &self.listener {
            Some(listener) => {
                let update = bootstrap_update(&self.data, now_millis());
                listener.did_receive_specs_update(update)
            },
            None => Err(StatsigErr::UnstartedAdapter(String::from_str("Listener not set"))),
        }
    }

    /// Replaces the specs text and hands it to the listener.
    pub fn set_data(&mut self, data: String) -> (r: Result<(), StatsigErr>)
        ensures
            final(self).data == data,
            final(self).listener == old(self).listener,
            old(self).listener is None ==> is_listener_not_set(r),
    {
        self.data = data;
        self.push_update()
    }

    /// Starts the adapter: the specs text goes to the listener.
    pub fn start(&self) -> (r: Result<(), StatsigErr>)
        ensures
            self.listener is None ==> is_listener_not_set(r),
    {
        self.push_update()
    }

    /// The adapter's name.
    pub fn get_type_name(&self) -> (r: String)
        ensures
            r@ == "StatsigBootstrapSpecsAdapter"@,
    {
        String::from_str("StatsigBootstrapSpecsAdapter")
    }
}

} // verus!
