use vstd::prelude::*;

use crate::network_error::{
    spec_network_error_display, spec_network_error_name, NetworkError,
};
use crate::text::{chars_to_string, extend_str};

verus! {

/// Errors reported by the SDK.
#[derive(Debug, Clone)]
pub enum StatsigErr {
    CustomError(String),
    LockFailure(String),
    ThreadFailure(String),
    StackOverflowError,
    SharedInstanceFailure(String),
    ObservabilityClientFailure(String),
    UnstartedAdapter(String),
    IdListsAdapterFailedToInsertIdList,
    SpecsAdapterSkipPoll(String),
    DataStoreFailure(String),
    NetworkError(NetworkError),
    GrpcError(String),
    SerializationError(String),
    JsonParseError(String, String),
    ProtobufParseError(String, String),
    ChecksumFailure(String),
    ZstdDictCompressionError(String),
    GzipError(String),
    ZstdError(String),
    FileError(String),
    LogEventError(String),
    EvaluationError(String),
    InitializationError(String),
    ShutdownFailure(String),
    InvalidOperation(String),
    ScheduleFailure(String),
    TaskShutdownFailure,
    GCIRError(String),
}

/// The variant name of an error; for a network error, the name of the network error.
pub open spec fn spec_statsig_err_name(e: StatsigErr) -> Seq<char> {
    match e {
        StatsigErr::CustomError(_) => "CustomError"@,
        StatsigErr::LockFailure(_) => "LockFailure"@,
        StatsigErr::ThreadFailure(_) => "ThreadFailure"@,
        StatsigErr::StackOverflowError => "StackOverflowError"@,
        StatsigErr::SharedInstanceFailure(_) => "SharedInstanceFailure"@,
        StatsigErr::ObservabilityClientFailure(_) => "ObservabilityClientFailure"@,
        StatsigErr::UnstartedAdapter(_) => "UnstartedAdapter"@,
        StatsigErr::IdListsAdapterFailedToInsertIdList => "IdListsAdapterFailedToInsertIdList"@,
        StatsigErr::SpecsAdapterSkipPoll(_) => "SpecsAdapterSkipPoll"@,
        StatsigErr::DataStoreFailure(_) => "DataStoreFailure"@,
        StatsigErr::NetworkError(e) => spec_network_error_name(e),
        StatsigErr::GrpcError(_) => "GrpcError"@,
        StatsigErr::SerializationError(_) => "SerializationError"@,
        StatsigErr::JsonParseError(_, _) => "JsonParseError"@,
        StatsigErr::ProtobufParseError(_, _) => "ProtobufParseError"@,
        StatsigErr::ChecksumFailure(_) => "ChecksumFailure"@,
        StatsigErr::ZstdDictCompressionError(_) => "ZstdDictCompressionError"@,
        StatsigErr::GzipError(_) => "GzipError"@,
        StatsigErr::ZstdError(_) => "ZstdError"@,
        StatsigErr::FileError(_) => "FileError"@,
        StatsigErr::LogEventError(_) => "LogEventError"@,
        StatsigErr::EvaluationError(_) => "EvaluationError"@,
        StatsigErr::InitializationError(_) => "InitializationError"@,
        StatsigErr::ShutdownFailure(_) => "ShutdownFailure"@,
        StatsigErr::InvalidOperation(_) => "InvalidOperation"@,
        StatsigErr::ScheduleFailure(_) => "ScheduleFailure"@,
        StatsigErr::TaskShutdownFailure => "TaskShutdownFailure"@,
        StatsigErr::GCIRError(_) => "GCIRError"@,
    }
}

/// The displayed text of an error.
pub open spec fn spec_statsig_err_display(e: StatsigErr) -> Seq<char> {
    match e {
        StatsigErr::CustomError(m) => m@,
        StatsigErr::LockFailure(m) => "Failed to acquire lock: "@ + m@,
        StatsigErr::ThreadFailure(m) => "Thread failure: "@ + m@,
        StatsigErr::StackOverflowError => "Statsig Evaluation Depth Exceeded"@,
        StatsigErr::SharedInstanceFailure(m) => "SharedInstance Error: "@ + m@,
        StatsigErr::ObservabilityClientFailure(m) => "ObservabilityClient Error: "@ + m@,
        StatsigErr::UnstartedAdapter(m) => "Adapter not started: "@ + m@,
        StatsigErr::IdListsAdapterFailedToInsertIdList => "Failed to insert new Id List"@,
        StatsigErr::SpecsAdapterSkipPoll(m) => m@ + " skips scheduling polling"@,
        StatsigErr::DataStoreFailure(m) => "DataStore Error: "@ + m@,
        StatsigErr::NetworkError(e) => "NetworkError|"@ + spec_network_error_display(e),
        StatsigErr::GrpcError(m) => "gRPC failure: "@ + m@,
        StatsigErr::SerializationError(m) => "Serialization error: "@ + m@,
        StatsigErr::JsonParseError(t, m) => "Failed to parse JSON "@ + t@ + " - "@ + m@,
        StatsigErr::ProtobufParseError(t, m) => "Failed to parse Protobuf "@ + t@ + " - "@ + m@,
        StatsigErr::ChecksumFailure(m) => "Checksum failure: "@ + m@,
        StatsigErr::ZstdDictCompressionError(m) => "Zstd dictionary compression error: "@ + m@,
        StatsigErr::GzipError(m) => "Gzip error: "@ + m@,
        StatsigErr::ZstdError(m) => "Zstd error: "@ + m@,
        StatsigErr::FileError(m) => "File write error: "@ + m@,
        StatsigErr::LogEventError(m) => "Log event error: "@ + m@,
        StatsigErr::EvaluationError(m) => "Evaluation Error: "@ + m@,
        StatsigErr::InitializationError(m) => "Initialization Error: "@ + m@,
        StatsigErr::ShutdownFailure(m) => "Shutdown failure: "@ + m@,
        StatsigErr::InvalidOperation(m) => "Invalid operation: "@ + m@,
        StatsigErr::ScheduleFailure(m) => "Failed to schedule task: "@ + m@,
        StatsigErr::TaskShutdownFailure => "Failed to shutdown task scheduler"@,
        StatsigErr::GCIRError(m) => "Error Getting Client Initialize Response: "@ + m@,
    }
}

impl StatsigErr {
    /// A field-by-field copy of the error.
    pub fn copy_err(&self) -> (r: StatsigErr)
        ensures
            r == *self,
    {
        match self {
            StatsigErr::CustomError(a) => StatsigErr::CustomError(a.clone()),
            StatsigErr::LockFailure(a) => StatsigErr::LockFailure(a.clone()),
            StatsigErr::ThreadFailure(a) => StatsigErr::ThreadFailure(a.clone()),
            StatsigErr::StackOverflowError => StatsigErr::StackOverflowError,
            StatsigErr::SharedInstanceFailure(a) => StatsigErr::SharedInstanceFailure(a.clone()),
            StatsigErr::ObservabilityClientFailure(a) => StatsigErr::ObservabilityClientFailure(a.clone()),
            StatsigErr::UnstartedAdapter(a) => StatsigErr::UnstartedAdapter(a.clone()),
            StatsigErr::IdListsAdapterFailedToInsertIdList => StatsigErr::IdListsAdapterFailedToInsertIdList,
            StatsigErr::SpecsAdapterSkipPoll(a) => StatsigErr::SpecsAdapterSkipPoll(a.clone()),
            StatsigErr::DataStoreFailure(a) => StatsigErr::DataStoreFailure(a.clone()),
            StatsigErr::NetworkError(a) => StatsigErr::NetworkError(a.copy_err()),
            StatsigErr::GrpcError(a) => StatsigErr::GrpcError(a.clone()),
            StatsigErr::SerializationError(a) => StatsigErr::SerializationError(a.clone()),
            StatsigErr::JsonParseError(a, b) => StatsigErr::JsonParseError(a.clone(), b.clone()),
            StatsigErr::ProtobufParseError(a, b) => StatsigErr::ProtobufParseError(a.clone(), b.clone()),
            StatsigErr::ChecksumFailure(a) => StatsigErr::ChecksumFailure(a.clone()),
            StatsigErr::ZstdDictCompressionError(a) => StatsigErr::ZstdDictCompressionError(a.clone()),
            StatsigErr::GzipError(a) => StatsigErr::GzipError(a.clone()),
            StatsigErr::ZstdError(a) => StatsigErr::ZstdError(a.clone()),
            StatsigErr::FileError(a) => StatsigErr::FileError(a.clone()),
            StatsigErr::LogEventError(a) => StatsigErr::LogEventError(a.clone()),
            StatsigErr::EvaluationError(a) => StatsigErr::EvaluationError(a.clone()),
            StatsigErr::InitializationError(a) => StatsigErr::InitializationError(a.clone()),
            StatsigErr::ShutdownFailure(a) => StatsigErr::ShutdownFailure(a.clone()),
            StatsigErr::InvalidOperation(a) => StatsigErr::InvalidOperation(a.clone()),
            StatsigErr::ScheduleFailure(a) => StatsigErr::ScheduleFailure(a.clone()),
            StatsigErr::TaskShutdownFailure => StatsigErr::TaskShutdownFailure,
            StatsigErr::GCIRError(a) => StatsigErr::GCIRError(a.clone()),
        }
    }

    /// The variant name of the error.
    pub fn name(&self) -> (r: &'static str)
        ensures
            r@ == spec_statsig_err_name(*self),
    {
        match self {
            StatsigErr::CustomError(_) => "CustomError",
            StatsigErr::LockFailure(_) => "LockFailure",
            StatsigErr::ThreadFailure(_) => "ThreadFailure",
            StatsigErr::StackOverflowError => "StackOverflowError",
            StatsigErr::SharedInstanceFailure(_) => "SharedInstanceFailure",
            StatsigErr::ObservabilityClientFailure(_) => "ObservabilityClientFailure",
            StatsigErr::UnstartedAdapter(_) => "UnstartedAdapter",
            StatsigErr::IdListsAdapterFailedToInsertIdList => "IdListsAdapterFailedToInsertIdList",
            StatsigErr::SpecsAdapterSkipPoll(_) => "SpecsAdapterSkipPoll",
            StatsigErr::DataStoreFailure(_) => "DataStoreFailure",
            StatsigErr::NetworkError(e) => e.name(),
            StatsigErr::GrpcError(_) => "GrpcError",
            StatsigErr::SerializationError(_) => "SerializationError",
            StatsigErr::JsonParseError(_, _) => "JsonParseError",
            StatsigErr::ProtobufParseError(_, _) => "ProtobufParseError",
            StatsigErr::ChecksumFailure(_) => "ChecksumFailure",
            StatsigErr::ZstdDictCompressionError(_) => "ZstdDictCompressionError",
            StatsigErr::GzipError(_) => "GzipError",
            StatsigErr::ZstdError(_) => "ZstdError",
            StatsigErr::FileError(_) => "FileError",
            StatsigErr::LogEventError(_) => "LogEventError",
            StatsigErr::EvaluationError(_) => "EvaluationError",
            StatsigErr::InitializationError(_) => "InitializationError",
            StatsigErr::ShutdownFailure(_) => "ShutdownFailure",
            StatsigErr::InvalidOperation(_) => "InvalidOperation",
            StatsigErr::ScheduleFailure(_) => "ScheduleFailure",
            StatsigErr::TaskShutdownFailure => "TaskShutdownFailure",
            StatsigErr::GCIRError(_) => "GCIRError",
        }
    }

    /// The displayed text of the error.
    pub fn to_display_string(&self) -> (r: String)
        ensures
            r@ == spec_statsig_err_display(*self),
    {
        let mut out: Vec<char> = Vec::new();
        match self {
            StatsigErr::CustomError(m) => {
                extend_str(&mut out, m.as_str());
            },
            StatsigErr::LockFailure(m) => {
                extend_str(&mut out, "Failed to acquire lock: ");
                extend_str(&mut out, m.as_str());
            },
            StatsigErr::ThreadFailure(m) => {
                extend_str(&mut out, "Thread failure: ");
                extend_str(&mut out, m.as_str());
            },
            StatsigErr::StackOverflowError => {
                extend_str(&mut out, "Statsig Evaluation Depth Exceeded");
            },
            StatsigErr::SharedInstanceFailure(m) => {
                extend_str(&mut out, "SharedInstance Error: ");
                extend_str(&mut out, m.as_str());
            },
            StatsigErr::ObservabilityClientFailure(m) => {
                extend_str(&mut out, "ObservabilityClient Error: ");
                extend_str(&mut out, m.as_str());
            },
            StatsigErr::UnstartedAdapter(m) => {
                extend_str(&mut out, "Adapter not started: ");
                extend_str(&mut out, m.as_str());
            },
            StatsigErr::IdListsAdapterFailedToInsertIdList => {
                extend_str(&mut out, "Failed to insert new Id List");
            },
            StatsigErr::SpecsAdapterSkipPoll(m) => {
                extend_str(&mut out, m.as_str());
                extend_str(&mut out, " skips scheduling polling");
            },
            StatsigErr::DataStoreFailure(m) => {
                extend_str(&mut out, "DataStore Error: ");
                extend_str(&mut out, m.as_str());
            },
            StatsigErr::NetworkError(e) => {
                extend_str(&mut out, "NetworkError|");
                let d = e.to_display_string();
                extend_str(&mut out, d.as_str());
            },
            StatsigErr::GrpcError(m) => {
                extend_str(&mut out, "gRPC failure: ");
                extend_str(&mut out, m.as_str());
            },
            StatsigErr::SerializationError(m) => {
                extend_str(&mut out, "Serialization error: ");
                extend_str(&mut out, m.as_str());
            },
            StatsigErr::JsonParseError(t, m) => {
                extend_str(&mut out, "Failed to parse JSON ");
                extend_str(&mut out, t.as_str());
                extend_str(&mut out, " - ");
                extend_str(&mut out, m.as_str());
            },
            StatsigErr::ProtobufParseError(t, m) => {
                extend_str(&mut out, "Failed to parse Protobuf ");
                extend_str(&mut out, t.as_str());
                extend_str(&mut out, " - ");
                extend_str(&mut out, m.as_str());
            },
            StatsigErr::ChecksumFailure(m) => {
                extend_str(&mut out, "Checksum failure: ");
                extend_str(&mut out, m.as_str());
            },
            StatsigErr::ZstdDictCompressionError(m) => {
                extend_str(&mut out, "Zstd dictionary compression error: ");
                extend_str(&mut out, m.as_str());
            },
            StatsigErr::GzipError(m) => {
                extend_str(&mut out, "Gzip error: ");
                extend_str(&mut out, m.as_str());
            },
            StatsigErr::ZstdError(m) => {
                extend_str(&mut out, "Zstd error: ");
                extend_str(&mut out, m.as_str());
            },
            StatsigErr::FileError(m) => {
                extend_str(&mut out, "File write error: ");
                extend_str(&mut out, m.as_str());
            },
            StatsigErr::LogEventError(m) => {
                extend_str(&mut out, "Log event error: ");
                extend_str(&mut out, m.as_str());
            },
            StatsigErr::EvaluationError(m) => {
                extend_str(&mut out, "Evaluation Error: ");
                extend_str(&mut out, m.as_str());
            },
            StatsigErr::InitializationError(m) => {
                extend_str(&mut out, "Initialization Error: ");
                extend_str(&mut out, m.as_str());
            },
            StatsigErr::ShutdownFailure(m) => {
                extend_str(&mut out, "Shutdown failure: ");
                extend_str(&mut out, m.as_str());
            },
            StatsigErr::InvalidOperation(m) => {
                extend_str(&mut out, "Invalid operation: ");
                extend_str(&mut out, m.as_str());
            },
            StatsigErr::ScheduleFailure(m) => {
                extend_str(&mut out, "Failed to schedule task: ");
                extend_str(&mut out, m.as_str());
            },
            StatsigErr::TaskShutdownFailure => {
                extend_str(&mut out, "Failed to shutdown task scheduler");
            },
            StatsigErr::GCIRError(m) => {
                extend_str(&mut out, "Error Getting Client Initialize Response: ");
                extend_str(&mut out, m.as_str());
            },
        }
        chars_to_string(&out)
    }
}

} // verus!
