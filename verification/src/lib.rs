//! Verified core of a feature-flag SDK: secret sanitising, URL classification, request
//! preparation and retry decisions, config-spec sync and delta-stall recovery, the spec
//! store's update rules, protobuf frame reading and checksum validation, sticky-value rules,
//! local overrides, event subscriptions, diagnostics and output logging.

pub mod specs_sync;
pub mod text;
pub mod logging_utils;
pub mod url_utils;
pub mod network_error;
pub mod statsig_err;
pub mod clock;
pub mod evaluation_types;
pub mod marker;
pub mod http_types;
pub mod network_client;
pub mod specs_adapter;
pub mod statsig_options;
pub mod statsig_metadata;
pub mod http_specs_adapter;
pub mod evaluation_options;
pub mod explicit_params;
pub mod persistent_storage;
pub mod sticky_values;
pub mod proto_stream_reader;
pub mod specs_response;
pub mod event_emitter;
pub mod output_logger;
pub mod observability;
pub mod spec_store;
pub mod override_adapter;
pub mod laws;
pub mod net_provider;
pub mod proto_specs;
pub mod sync_metrics;
pub mod bootstrap_adapter;
pub mod data_store_adapter;
pub mod grpc_retry;
