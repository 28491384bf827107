//! What the tracing pipeline is built from: the console sink and the remote
//! trace exporter, with the resource attributes that tag every span.
use vstd::prelude::*;

verus! {

/// The collector that spans are exported to.
pub const COLLECTOR_ENDPOINT: &'static str = "https://tempo-prod-04-prod-us-east-0.grafana.net";

/// The metadata key that carries the collector credential.
pub const AUTHORIZATION_KEY: &'static str = "authorization";

/// The collector credential, sent with every export request.
pub const AUTHORIZATION_VALUE: &'static str = "Basic <base64 encoded instance_id:key>";

/// The resource attribute that names the emitting service.
pub const SERVICE_NAME_KEY: &'static str = "service.name";

/// The stream that console records go to.
#[derive(Clone, Copy, Debug, PartialEq, Eq)]
pub enum OutputStream {
    Stdout,
    Stderr,
}

/// How export requests travel to the collector.
#[derive(Clone, Copy, Debug, PartialEq, Eq)]
pub enum Transport {
    /// Binary RPC (gRPC).
    Grpc,
    /// Plain HTTP.
    Http,
}

/// The human-readable console sink. Its records are stamped with
/// `timestamp::current_timestamp`; its verbosity filter is read from the
/// environment by the filter library.
#[derive(Clone, Copy, Debug, PartialEq, Eq)]
pub struct ConsoleSettings {
    pub stream: OutputStream,
    pub ansi: bool,
}

/// A key and its value: an export metadata entry or a resource attribute.
#[derive(Clone, Debug, PartialEq, Eq)]
pub struct KeyValue {
    pub key: String,
    pub value: String,
}

impl KeyValue {
    pub open spec fn equals(self, key: Seq<char>, value: Seq<char>) -> bool {
        self.key@ == key && self.value@ == value
    }
}

/// The remote trace exporter. Spans are handed to it in batches, on the
/// current-thread runtime.
#[derive(Clone, Debug, PartialEq, Eq)]
pub struct ExportSettings {
    pub endpoint: String,
    pub transport: Transport,
    pub metadata: Vec<KeyValue>,
}

/// Everything the pipeline is built from.
#[derive(Clone, Debug, PartialEq, Eq)]
pub struct PipelineSettings {
    pub console: ConsoleSettings,
    pub export: ExportSettings,
    pub resource: Vec<KeyValue>,
}

impl PipelineSettings {
    /// The settings for a service called `service_name`: console records go to
    /// standard error without colour codes, and spans go by gRPC to the
    /// collector with its credential, tagged with the service's name.
    pub open spec fn describes(self, service_name: Seq<char>) -> bool {
        &&& self.console.stream == OutputStream::Stderr
        &&& !self.console.ansi
        &&& self.export.endpoint@ == COLLECTOR_ENDPOINT@
        &&& self.export.transport == Transport::Grpc
        &&& self.export.metadata@.len() == 1
        &&& self.export.metadata@[0].equals(AUTHORIZATION_KEY@, AUTHORIZATION_VALUE@)
        &&& self.resource@.len() == 1
        &&& self.resource@[0].equals(SERVICE_NAME_KEY@, service_name)
    }

    /// The settings for a service called `service_name`. The name is taken as
    /// it is: an empty one is no error.
    pub fn for_service(service_name: &str) -> (r: PipelineSettings)
        ensures
            r.describes(service_name@),
    {
        let credential = KeyValue {
            key: String::from_str(AUTHORIZATION_KEY),
            value: String::from_str(AUTHORIZATION_VALUE),
        };
        let service = KeyValue {
            key: String::from_str(SERVICE_NAME_KEY),
            value: String::from_str(service_name),
        };
        PipelineSettings {
            console: ConsoleSettings { stream: OutputStream::Stderr, ansi: false },
            export: ExportSettings {
                endpoint: String::from_str(COLLECTOR_ENDPOINT),
                transport: Transport::Grpc,
                metadata: vec![credential],
            },
            resource: vec![service],
        }
    }
}

} // verus!
